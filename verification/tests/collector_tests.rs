use log_emitter::EmitterConfig;
use log_emitter::clock::Timestamp;
use log_emitter::container_logs::{
    CollectorSession, ExecByPid, InspectData, Watermark, collect_setup, compute_app_name,
    container_infos, exec_by_container_info, parse_log_line,
};

const ENABLED_KEY: &[u8] = b"de.hammer065.docker-log-emitter.enabled";
const APP_NAME_KEY: &[u8] = b"de.hammer065.docker-log-emitter.app_name";
const NEW_YEAR_2024: i64 = 1704067200;

fn cfg() -> EmitterConfig {
    EmitterConfig { use_rfc3164: false, use_exec_pid: false }
}

fn info_with_labels(labels: Vec<(Vec<u8>, Vec<u8>)>) -> InspectData {
    InspectData {
        name: Some(b"/cid123".to_vec()),
        pid: None,
        labels,
        path: None,
    }
}

#[test]
fn disabled_container_yields_no_session() {
    let info = info_with_labels(vec![(ENABLED_KEY.to_vec(), b"false".to_vec())]);
    assert!(collect_setup(&info, b"host1", &cfg()).is_none());
}

#[test]
fn enabled_by_default() {
    let info = info_with_labels(vec![]);
    assert!(collect_setup(&info, b"host1", &cfg()).is_some());
}

#[test]
fn enabled_label_true_variants() {
    for v in [&b"true"[..], b"1", b"Yes", b" on "] {
        let info = info_with_labels(vec![(ENABLED_KEY.to_vec(), v.to_vec())]);
        assert!(collect_setup(&info, b"h", &cfg()).is_some());
    }
    for v in [&b"false"[..], b"0", b"off", b"nope"] {
        let info = info_with_labels(vec![(ENABLED_KEY.to_vec(), v.to_vec())]);
        assert!(collect_setup(&info, b"h", &cfg()).is_none());
    }
}

#[test]
fn container_name_is_stripped_of_leading_slash() {
    let info = info_with_labels(vec![]);
    let (name, pid, enabled) = container_infos(&info);
    assert_eq!(name, Some(b"cid123".to_vec()));
    assert_eq!(pid, None);
    assert!(enabled);
}

#[test]
fn static_app_name_prefers_label() {
    let info = info_with_labels(vec![(APP_NAME_KEY.to_vec(), b"custom".to_vec())]);
    let s = collect_setup(&info, b"h", &cfg()).unwrap();
    assert_eq!(s.static_app_name, Some(b"custom".to_vec()));
}

#[test]
fn static_app_name_falls_back_to_entrypoint_basename() {
    let mut info = info_with_labels(vec![]);
    info.path = Some(b"/usr/local/bin/web".to_vec());
    let s = collect_setup(&info, b"h", &cfg()).unwrap();
    assert_eq!(s.static_app_name, Some(b"web".to_vec()));
}

#[test]
fn static_app_name_falls_back_to_container_name() {
    let info = info_with_labels(vec![]);
    let s = collect_setup(&info, b"h", &cfg()).unwrap();
    assert_eq!(s.static_app_name, Some(b"cid123".to_vec()));
}

#[test]
fn fallback_helper_prefers_path() {
    let r = exec_by_container_info(&Some(b"/bin/sh".to_vec()), &Some(b"name".to_vec()));
    assert_eq!(r, Some(b"sh".to_vec()));
    let r = exec_by_container_info(&None, &Some(b"name".to_vec()));
    assert_eq!(r, Some(b"name".to_vec()));
    let r = exec_by_container_info(&None, &None);
    assert_eq!(r, None);
}

fn session_for_scenario() -> CollectorSession {
    let info = InspectData {
        name: Some(b"/cid123".to_vec()),
        pid: None,
        labels: vec![(APP_NAME_KEY.to_vec(), b"web".to_vec())],
        path: None,
    };
    collect_setup(&info, b"host1", &cfg()).unwrap()
}

#[test]
fn end_to_end_structured_line() {
    let mut s = session_for_scenario();
    let (rec, stamp) = s
        .handle_log_line(true, b"2024-01-01T00:00:00.000000Z hello world")
        .unwrap();
    assert_eq!(
        String::from_utf8(rec).unwrap(),
        "<27>1 2024-01-01T00:00:00.000000Z host1 web - cid123 - hello world\n"
    );
    assert_eq!(stamp, NEW_YEAR_2024);
}

#[test]
fn end_to_end_structured_line_stdout() {
    let mut s = session_for_scenario();
    let (rec, stamp) = s
        .handle_log_line(false, b"2024-01-01T00:00:00.000000Z hello world")
        .unwrap();
    assert_eq!(
        String::from_utf8(rec).unwrap(),
        "<30>1 2024-01-01T00:00:00.000000Z host1 web - cid123 - hello world\n"
    );
    assert_eq!(stamp, NEW_YEAR_2024);
}

#[test]
fn line_without_timestamp_keeps_token_and_uses_current_time() {
    let mut s = session_for_scenario();
    let before = log_emitter::helpers::current_timestamp();
    let (rec, stamp) = s.handle_log_line(true, b"plain message").unwrap();
    let after = log_emitter::helpers::current_timestamp();
    let text = String::from_utf8(rec).unwrap();
    // Severity Error (numeric 3): priority 3*8+3 = 27.
    assert!(text.starts_with("<27>1 "), "{}", text);
    // The unparsable leading token stays part of the message.
    assert!(text.ends_with(" host1 web - cid123 - plain message\n"), "{}", text);
    assert!(stamp >= before && stamp <= after);
}

#[test]
fn parse_line_with_timestamp() {
    let now = Timestamp { secs: 999, micros: 0 };
    let (ts, msg) = parse_log_line(b"2024-01-01T00:00:00.000000Z hello world", now).unwrap();
    assert_eq!(ts.secs, NEW_YEAR_2024);
    assert_eq!(ts.micros, 0);
    assert_eq!(msg, b"hello world".to_vec());
}

#[test]
fn parse_line_with_offset_timestamp() {
    let now = Timestamp { secs: 999, micros: 0 };
    let (ts, msg) = parse_log_line(b"2024-01-01T05:30:00+05:30 m", now).unwrap();
    assert_eq!(ts.secs, NEW_YEAR_2024);
    assert_eq!(msg, b"m".to_vec());
}

#[test]
fn parse_line_without_space_uses_now() {
    let now = Timestamp { secs: 4242, micros: 17 };
    let (ts, msg) = parse_log_line(b"plainmessage", now).unwrap();
    assert_eq!(ts, now);
    assert_eq!(msg, b"plainmessage".to_vec());
}

#[test]
fn parse_line_with_unparsable_token_uses_now() {
    let now = Timestamp { secs: 4242, micros: 17 };
    let (ts, msg) = parse_log_line(b"plain message", now).unwrap();
    assert_eq!(ts, now);
    // The unparsable leading token stays part of the message.
    assert_eq!(msg, b"plain message".to_vec());
}

#[test]
fn parse_line_strips_trailing_newline_carriage_return_pair() {
    let now = Timestamp { secs: 1, micros: 0 };
    let (_, msg) = parse_log_line(b"2024-01-01T00:00:00Z abc\n\r", now).unwrap();
    assert_eq!(msg, b"abc".to_vec());
}

#[test]
fn parse_sub_second_precision() {
    let now = Timestamp { secs: 0, micros: 0 };
    let (ts, _) = parse_log_line(b"2024-01-01T00:00:00.250000Z x", now).unwrap();
    assert_eq!(ts.secs, NEW_YEAR_2024);
    assert_eq!(ts.micros, 250000);
}

#[test]
fn resolved_app_name_prefers_executable_basename() {
    let r = compute_app_name(
        Some(b"/usr/bin/nginx".to_vec()),
        Some(b"/bin/sh".to_vec()),
        &Some(b"fb".to_vec()),
    );
    assert_eq!(r, Some(b"nginx".to_vec()));
    let r = compute_app_name(None, Some(b"/bin/sh".to_vec()), &Some(b"fb".to_vec()));
    assert_eq!(r, Some(b"sh".to_vec()));
    let r = compute_app_name(None, None, &Some(b"fb".to_vec()));
    assert_eq!(r, Some(b"fb".to_vec()));
    let r = compute_app_name(None, None, &None);
    assert_eq!(r, None);
}

#[test]
fn exec_cache_falls_back_when_pid_is_unknown_to_the_machine() {
    // No process table has a pid 0 entry, so resolution fails and the
    // fallback answers.
    let mut cache = ExecByPid::new(0, Some(b"fallback".to_vec()));
    assert_eq!(cache.app_name(), Some(b"fallback".to_vec()));
}

#[test]
fn exec_capability_off_yields_no_cache() {
    let mut info = info_with_labels(vec![]);
    info.pid = Some(42);
    let s = collect_setup(&info, b"h", &cfg()).unwrap();
    assert!(s.exec_cache.is_none());
}

#[test]
fn exec_capability_on_builds_cache_from_pid() {
    let mut info = info_with_labels(vec![]);
    info.pid = Some(42);
    let with_exec = EmitterConfig { use_rfc3164: false, use_exec_pid: true };
    let s = collect_setup(&info, b"h", &with_exec).unwrap();
    let cache = s.exec_cache.expect("cache for a known pid");
    assert_eq!(cache.pid, 42);
    assert_eq!(cache.fallback, Some(b"cid123".to_vec()));
    // Without a pid there is nothing to resolve against.
    info.pid = None;
    let s = collect_setup(&info, b"h", &with_exec).unwrap();
    assert!(s.exec_cache.is_none());
}

#[test]
fn empty_line_is_an_empty_message_at_current_time() {
    let now = Timestamp { secs: 7, micros: 0 };
    let (ts, msg) = parse_log_line(b"", now).unwrap();
    assert_eq!(ts, now);
    assert_eq!(msg, b"".to_vec());
    let mut s = session_for_scenario();
    let (rec, _) = s.handle_log_line(false, b"").unwrap();
    let text = String::from_utf8(rec).unwrap();
    assert!(text.ends_with(" host1 web - cid123 - \n"), "{}", text);
}

#[test]
fn watermark_follows_delivered_lines() {
    let mut w = Watermark::new(100);
    assert_eq!(w.secs, 100);
    let stamps = [100, 100, 150, 151];
    let mut prev = w.secs;
    for s in stamps {
        w.note_delivered(s);
        assert!(w.secs >= prev);
        prev = w.secs;
    }
    assert_eq!(w.secs, 151);
}

#[test]
fn watermark_never_moves_backwards() {
    // A line stamped before the watermark (an out-of-order or clock-dated
    // stamp) leaves it where it stands.
    let mut w = Watermark::new(100);
    w.note_delivered(90);
    assert_eq!(w.secs, 100);
    w.note_delivered(150);
    assert_eq!(w.secs, 150);
    w.note_delivered(120);
    assert_eq!(w.secs, 150);
    w.note_delivered(150);
    assert_eq!(w.secs, 150);
}
