use log_emitter::channel::BoundedQueue;
use log_emitter::orchestrator::{Generation, Orchestrator, ids_to_spawn};

#[test]
fn channel_capacity_is_never_exceeded() {
    let mut q = BoundedQueue::new(3);
    assert!(q.try_push(b"a\n".to_vec()).is_none());
    assert!(q.try_push(b"b\n".to_vec()).is_none());
    assert!(q.try_push(b"c\n".to_vec()).is_none());
    assert_eq!(q.len(), 3);
    // A producer against a full channel is refused and keeps its record.
    let refused = q.try_push(b"d\n".to_vec());
    assert_eq!(refused, Some(b"d\n".to_vec()));
    assert_eq!(q.len(), 3);
    // Once the sink drains one, the same record goes through.
    assert_eq!(q.pop(), Some(b"a\n".to_vec()));
    assert!(q.try_push(refused.unwrap()).is_none());
    assert_eq!(q.len(), 3);
}

#[test]
fn channel_is_first_in_first_out() {
    let mut q = BoundedQueue::new(10);
    q.try_push(b"1".to_vec());
    q.try_push(b"2".to_vec());
    q.try_push(b"3".to_vec());
    assert_eq!(q.pop(), Some(b"1".to_vec()));
    assert_eq!(q.pop(), Some(b"2".to_vec()));
    assert_eq!(q.pop(), Some(b"3".to_vec()));
    assert_eq!(q.pop(), None);
}

#[test]
fn closed_channel_refuses_but_drains() {
    let mut q = BoundedQueue::new(2);
    q.try_push(b"a".to_vec());
    q.close();
    assert_eq!(q.try_push(b"b".to_vec()), Some(b"b".to_vec()));
    assert_eq!(q.pop(), Some(b"a".to_vec()));
    assert_eq!(q.pop(), None);
}

#[test]
fn ids_to_spawn_skips_missing_ids() {
    let listed = vec![
        Some(b"one".to_vec()),
        None,
        Some(b"two".to_vec()),
        None,
        Some(b"three".to_vec()),
    ];
    let ids = ids_to_spawn(&listed);
    assert_eq!(ids, vec![b"one".to_vec(), b"two".to_vec(), b"three".to_vec()]);
}

#[test]
fn readiness_is_signalled_exactly_once() {
    let mut o = Orchestrator::new();
    assert!(o.note_spawn_pass());
    assert!(!o.note_spawn_pass());
    assert!(!o.note_spawn_pass());
}

#[test]
fn shutdown_drains_three_collectors_and_accepts_nothing_more() {
    // Three active collectors and a healthy sink draining the channel.
    let mut generation = Generation::new();
    assert!(generation.try_spawn());
    assert!(generation.try_spawn());
    assert!(generation.try_spawn());
    let mut q = BoundedQueue::new(8);
    q.try_push(b"r1\n".to_vec());
    q.try_push(b"r2\n".to_vec());

    // The shutdown signal fires: the generation is cancelled and the
    // channel closed to producers.
    generation.cancel();
    q.close();

    // Every collector observes the cancellation and finishes.
    generation.collector_finished();
    generation.collector_finished();
    generation.collector_finished();
    assert!(generation.drained());

    // No new collector is admitted and no further record is accepted.
    assert!(!generation.try_spawn());
    assert_eq!(q.try_push(b"late\n".to_vec()), Some(b"late\n".to_vec()));

    // The sink still drains what was queued, then sees the closed end.
    assert_eq!(q.pop(), Some(b"r1\n".to_vec()));
    assert_eq!(q.pop(), Some(b"r2\n".to_vec()));
    assert_eq!(q.pop(), None);
}
