use log_emitter::clock::Timestamp;
use log_emitter::syslog::{Facility, Formatter, Severity};

// 2024-01-01T00:00:00Z
const NEW_YEAR_2024: i64 = 1704067200;

#[test]
fn structured_record_exact_bytes() {
    let f = Formatter::rfc5424(&Facility::SystemDaemon, b"host1", None, Some(b"cid123"));
    let ts = Timestamp { secs: NEW_YEAR_2024, micros: 0 };
    let rec = f.format(b"hello world", Some(b"web"), &Severity::Error, &ts);
    assert_eq!(
        String::from_utf8(rec).unwrap(),
        "<27>1 2024-01-01T00:00:00.000000Z host1 web - cid123 - hello world\n"
    );
}

#[test]
fn structured_record_stdout_severity() {
    let f = Formatter::rfc5424(&Facility::SystemDaemon, b"host1", None, Some(b"cid123"));
    let ts = Timestamp { secs: NEW_YEAR_2024, micros: 0 };
    let rec = f.format(b"hello world", Some(b"web"), &Severity::Informational, &ts);
    assert_eq!(
        String::from_utf8(rec).unwrap(),
        "<30>1 2024-01-01T00:00:00.000000Z host1 web - cid123 - hello world\n"
    );
}

#[test]
fn structured_record_microseconds() {
    let f = Formatter::rfc5424(&Facility::SystemDaemon, b"h", Some(7), None);
    let ts = Timestamp { secs: NEW_YEAR_2024, micros: 123456 };
    let rec = f.format(b"x", None, &Severity::Informational, &ts);
    assert_eq!(
        String::from_utf8(rec).unwrap(),
        "<30>1 2024-01-01T00:00:00.123456Z h - 7 - - x\n"
    );
}

#[test]
fn legacy_record_exact_bytes() {
    let f = Formatter::rfc3164(&Facility::SystemDaemon, b"host", Some(42));
    let ts = Timestamp { secs: NEW_YEAR_2024, micros: 0 };
    let rec = f.format(b"msg", Some(b"app"), &Severity::Informational, &ts);
    assert_eq!(
        String::from_utf8(rec).unwrap(),
        "<30>Jan  1 00:00:00 host app[42]: msg\n"
    );
}

#[test]
fn legacy_record_no_pid_no_app() {
    let f = Formatter::rfc3164(&Facility::UserLevel, b"h", None);
    let ts = Timestamp { secs: NEW_YEAR_2024, micros: 0 };
    let rec = f.format(b"m", None, &Severity::Warning, &ts);
    // user-level(1) * 8 + warning(4) = 12
    assert_eq!(String::from_utf8(rec).unwrap(), "<12>Jan  1 00:00:00 h -: m\n");
}

#[test]
fn message_newlines_and_carriage_returns_are_stripped() {
    let f = Formatter::rfc5424(&Facility::SystemDaemon, b"h", None, None);
    let ts = Timestamp { secs: NEW_YEAR_2024, micros: 0 };
    let rec = f.format(b"a\nb\rc\r\n\nd", None, &Severity::Informational, &ts);
    let body_and_header = &rec[..rec.len() - 1];
    assert!(!body_and_header.contains(&b'\n'));
    assert!(!body_and_header.contains(&b'\r'));
    assert_eq!(rec[rec.len() - 1], b'\n');
    assert!(rec.ends_with(b" - - - abcd\n"));
}

#[test]
fn priority_is_facility_times_eight_plus_severity() {
    let cases: Vec<(Facility, u16)> = vec![
        (Facility::Kernel, 0),
        (Facility::SystemDaemon, 3),
        (Facility::Local0, 16),
        (Facility::Local7, 23),
    ];
    let sevs: Vec<(Severity, u16)> = vec![
        (Severity::Emergency, 0),
        (Severity::Error, 3),
        (Severity::Informational, 6),
        (Severity::Debug, 7),
    ];
    let ts = Timestamp { secs: NEW_YEAR_2024, micros: 0 };
    for (fac, fc) in &cases {
        for (sev, sc) in &sevs {
            let f = Formatter::rfc5424(fac, b"h", None, None);
            let rec = f.format(b"m", None, sev, &ts);
            let expected = format!("<{}>", fc * 8 + sc);
            let s = String::from_utf8(rec).unwrap();
            assert!(s.starts_with(&expected), "{} does not start with {}", s, expected);
        }
    }
}

#[test]
fn facility_and_severity_codes() {
    assert_eq!(Facility::Kernel.numerical_code(), 0);
    assert_eq!(Facility::FtpDaemon.numerical_code(), 11);
    assert_eq!(Facility::Ntp.numerical_code(), 12);
    assert_eq!(Facility::Local7.numerical_code(), 23);
    assert_eq!(Severity::Emergency.numerical_code(), 0);
    assert_eq!(Severity::Error.numerical_code(), 3);
    assert_eq!(Severity::Informational.numerical_code(), 6);
    assert_eq!(Severity::Debug.numerical_code(), 7);
}

#[test]
fn structured_fields_are_truncated() {
    let long_host = vec![b'h'; 300];
    let long_app = vec![b'a'; 60];
    let long_msgid = vec![b'm'; 40];
    let f = Formatter::rfc5424(&Facility::Kernel, &long_host, None, Some(&long_msgid));
    let ts = Timestamp { secs: NEW_YEAR_2024, micros: 0 };
    let rec = f.format(b"x", Some(&long_app), &Severity::Emergency, &ts);
    let s = String::from_utf8(rec).unwrap();
    let fields: Vec<&str> = s.split(' ').collect();
    // <0>1 TIMESTAMP HOSTNAME APP PROCID MSGID - MSG
    assert_eq!(fields[2].len(), 255);
    assert_eq!(fields[3].len(), 48);
    assert_eq!(fields[4], "-");
    assert_eq!(fields[5].len(), 32);
}

#[test]
fn structured_absent_app_and_msgid_render_as_dash() {
    let f = Formatter::rfc5424(&Facility::Kernel, b"h", None, None);
    let ts = Timestamp { secs: NEW_YEAR_2024, micros: 0 };
    let rec = f.format(b"x", None, &Severity::Emergency, &ts);
    assert_eq!(String::from_utf8(rec).unwrap(), "<0>1 2024-01-01T00:00:00.000000Z h - - - - x\n");
}

#[test]
fn negative_pid_renders_with_sign() {
    let f = Formatter::rfc5424(&Facility::Kernel, b"h", Some(-5), None);
    let ts = Timestamp { secs: NEW_YEAR_2024, micros: 0 };
    let rec = f.format(b"x", None, &Severity::Emergency, &ts);
    assert_eq!(String::from_utf8(rec).unwrap(), "<0>1 2024-01-01T00:00:00.000000Z h - -5 - - x\n");
}

#[test]
fn legacy_hostname_is_not_truncated() {
    let long_host = vec![b'h'; 300];
    let f = Formatter::rfc3164(&Facility::Kernel, &long_host, None);
    let ts = Timestamp { secs: NEW_YEAR_2024, micros: 0 };
    let rec = f.format(b"x", None, &Severity::Emergency, &ts);
    let s = String::from_utf8(rec).unwrap();
    assert!(s.contains(&"h".repeat(300)));
}
