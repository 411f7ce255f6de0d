//! Discovery-and-lifecycle bookkeeping: which listed containers get a
//! collector, the one-shot readiness signal, and the per-generation
//! supervision counts that shutdown drains.
//!
//! The container runtime calls themselves (list, event feed) are I/O and
//! run outside the library; they hand their results in as plain values.

use vstd::prelude::*;

verus! {

/// Byte vectors seen as byte sequences.
pub open spec fn vecs_view(s: Seq<Vec<u8>>) -> Seq<Seq<u8>> {
    s.map_values(|v: Vec<u8>| v@)
}

/// The ids a discovery pass spawns collectors for: every listed container
/// that has one, in listing order.
pub open spec fn ids_spec(cs: Seq<Option<Vec<u8>>>) -> Seq<Seq<u8>>
    decreases cs.len(),
{
    if cs.len() == 0 {
        Seq::empty()
    } else {
        let rest = ids_spec(cs.skip(1));
        match cs[0] {
            Some(id) => seq![id@] + rest,
            None => rest,
        }
    }
}

/// Picks the ids to spawn collectors for from a container listing,
/// skipping entries without an id and keeping the listing's order.
pub fn ids_to_spawn(containers: &Vec<Option<Vec<u8>>>) -> (r: Vec<Vec<u8>>)
    ensures
        vecs_view(r@) == ids_spec(containers@),
{
    let ghost cs = containers@;
    let mut r: Vec<Vec<u8>> = Vec::new();
    let mut i: usize = 0;
    proof {
        assert(cs.skip(0) =~= cs);
        assert(vecs_view(r@) + ids_spec(cs) =~= ids_spec(cs));
    }
    while i < containers.len()
        invariant
            0 <= i <= cs.len(),
            cs == containers@,
            ids_spec(cs) == vecs_view(r@) + ids_spec(cs.skip(i as int)),
        decreases cs.len() - i,
    {
        proof {
            assert(cs.skip(i as int)[0] == cs[i as int]);
            assert(cs.skip(i as int).skip(1) =~= cs.skip(i + 1));
        }
        let ghost r_before = r@;
        match &containers[i] {
            Some(id) => {
                let copied = crate::helpers::bytes_clone(id.as_slice());
                r.push(copied);
                proof {
                    assert(vecs_view(r@) =~= vecs_view(r_before).push(cs[i as int]->0@));
                    assert(vecs_view(r@) + ids_spec(cs.skip(i + 1)) =~= vecs_view(r_before) + (
                    seq![cs[i as int]->0@] + ids_spec(cs.skip(i + 1))));
                }
            },
            None => {},
        }
        i = i + 1;
    }
    proof {
        assert(ids_spec(cs.skip(cs.len() as int)) =~= Seq::<Seq<u8>>::empty());
        assert(vecs_view(r@) + Seq::<Seq<u8>>::empty() =~= vecs_view(r@));
    }
    r
}

/// Process-wide orchestrator state: whether readiness has been signalled.
pub struct Orchestrator {
    /// Set once the first discovery pass has spawned its collectors.
    pub started: bool,
}

impl Orchestrator {
    /// A fresh orchestrator that has not signalled readiness.
    pub fn new() -> (r: Orchestrator)
        ensures
            !r.started,
    {
        Orchestrator { started: false }
    }

    /// Notes that a discovery pass finished spawning. The result says
    /// whether to signal readiness now — true exactly on the first pass, so
    /// readiness is signalled exactly once over the orchestrator's
    /// lifetime.
    pub fn note_spawn_pass(&mut self) -> (signal_ready: bool)
        ensures
            final(self).started,
            signal_ready == !old(self).started,
    {
        let signal_ready = !self.started;
        self.started = true;
        signal_ready
    }
}

/// One discovery session's cancellation scope: it counts its live
/// collectors and, once cancelled, accepts no new ones. Cancelling one
/// generation leaves every other untouched.
pub struct Generation {
    /// How many of this generation's collectors still run.
    pub active: usize,
    /// Whether this generation has been cancelled.
    pub cancelled: bool,
}

impl Generation {
    /// A fresh scope with no collectors.
    pub fn new() -> (r: Generation)
        ensures
            r.active == 0,
            !r.cancelled,
    {
        Generation { active: 0, cancelled: false }
    }

    /// Admits one collector into the scope; a cancelled scope refuses, so
    /// no work starts after shutdown began.
    pub fn try_spawn(&mut self) -> (admitted: bool)
        requires
            old(self).active < usize::MAX,
        ensures
            final(self).cancelled == old(self).cancelled,
            admitted == !old(self).cancelled,
            admitted ==> final(self).active == old(self).active + 1,
            !admitted ==> final(self).active == old(self).active,
    {
        if self.cancelled {
            false
        } else {
            self.active = self.active + 1;
            true
        }
    }

    /// Cancels the scope: every collector in it is told to stop, and no new
    /// one is admitted.
    pub fn cancel(&mut self)
        ensures
            final(self).cancelled,
            final(self).active == old(self).active,
    {
        self.cancelled = true;
    }

    /// Notes that one collector finished.
    pub fn collector_finished(&mut self)
        requires
            old(self).active > 0,
        ensures
            final(self).active == old(self).active - 1,
            final(self).cancelled == old(self).cancelled,
    {
        self.active = self.active - 1;
    }

    /// Whether every collector of the scope has finished — what the bounded
    /// shutdown wait drains towards.
    pub fn drained(&self) -> (r: bool)
        ensures
            r == (self.active == 0),
    {
        self.active == 0
    }
}

} // verus!
