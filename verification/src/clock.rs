//! Timestamps as plain values, and the trusted bridge to the calendar
//! library that parses and renders them.
//!
//! A [`Timestamp`] is a unix second count plus sub-second microseconds. The
//! collector parses one from each log line's leading token (falling back to
//! the current time) and the formatter renders it into the record's header.

use vstd::prelude::*;

verus! {

/// Unix seconds representable by the calendar library: its documented date
/// range runs from the start of astronomical year -262143 to the end of
/// year 262142.
pub open spec fn ts_in_range(secs: int) -> bool {
    -8_334_601_315_200 <= secs <= 8_210_266_876_799
}

/// A point in time: seconds since the unix epoch and microseconds since the
/// last second boundary (values of one million and above stand for a leap
/// second).
#[derive(Clone, Copy, PartialEq, Eq, Structural, Debug)]
pub struct Timestamp {
    pub secs: i64,
    pub micros: u32,
}

impl Timestamp {
    pub open spec fn wf(&self) -> bool {
        ts_in_range(self.secs as int) && self.micros < 2_000_000
    }
}

/// Relies on std's `SystemTime::now` and `duration_since`: the time elapsed
/// since the unix epoch, in whole seconds and sub-second microseconds. A
/// clock reading before the epoch stands in as the epoch itself, so this
/// never panics, whatever the machine's clock says.
#[verifier::external_body]
fn epoch_elapsed() -> (r: (u64, u32))
    ensures
        r.1 < 1_000_000,
{
    let d = std::time::SystemTime::now().duration_since(std::time::UNIX_EPOCH).unwrap_or(
        std::time::Duration::ZERO,
    );
    (d.as_secs(), d.subsec_micros())
}

/// The current time. A clock reading before the unix epoch stands in as the
/// epoch; one beyond the calendar range (hundreds of millennia ahead) as
/// that range's end — the result always names a representable, non-negative
/// point in time.
pub fn now_utc() -> (r: Timestamp)
    ensures
        r.wf(),
        r.secs >= 0,
{
    let (s, m) = epoch_elapsed();
    let secs: i64 = if s > 8_210_266_876_799u64 {
        8_210_266_876_799
    } else {
        s as i64
    };
    Timestamp { secs, micros: m }
}

/// What parsing a byte string as an RFC 3339 timestamp yields: seconds and
/// microseconds in UTC, or nothing when the bytes are not a well-formed
/// timestamp. A function of the bytes alone.
pub uninterp spec fn rfc3339_parse(s: Seq<u8>) -> Option<(i64, u32)>;

/// Relies on `chrono::DateTime::parse_from_rfc3339`, applied to the bytes
/// read as UTF-8: the outcome depends on the input bytes alone, and a parsed
/// timestamp lies in the library's documented range with a sub-second
/// microsecond count below two million.
#[verifier::external_body]
pub fn parse_rfc3339_bytes(s: &[u8]) -> (r: Option<Timestamp>)
    ensures
        r == match rfc3339_parse(s@) {
            Some(p) => Some(Timestamp { secs: p.0, micros: p.1 }),
            None => None::<Timestamp>,
        },
        r matches Some(t) ==> t.wf(),
{
    match core::str::from_utf8(s) {
        Ok(st) => match chrono::DateTime::parse_from_rfc3339(st) {
            Ok(dt) => {
                let u = dt.to_utc();
                Some(Timestamp { secs: u.timestamp(), micros: u.timestamp_subsec_micros() })
            },
            Err(_) => None,
        },
        Err(_) => None,
    }
}

/// The RFC 3339 rendering of a timestamp at microsecond precision in UTC
/// (for example `2024-01-01T00:00:00.000000Z`). A function of the timestamp
/// alone.
pub uninterp spec fn rfc3339_micros_bytes(secs: int, micros: int) -> Seq<u8>;

/// Relies on `chrono::DateTime::to_rfc3339_opts` with microsecond precision
/// and the `Z` suffix, in UTC: the rendering is a function of the timestamp
/// alone and is made of ASCII digits and punctuation, so it holds no newline
/// or carriage-return byte. A timestamp the library cannot place (a leap
/// second at the very end of its date range) renders empty.
#[verifier::external_body]
pub fn render_rfc3339_micros(ts: &Timestamp) -> (r: Vec<u8>)
    requires
        ts.wf(),
    ensures
        r@ == rfc3339_micros_bytes(ts.secs as int, ts.micros as int),
        forall|i: int| 0 <= i < r@.len() ==> r@[i] != 10 && r@[i] != 13,
{
    match chrono::DateTime::<chrono::Utc>::from_timestamp(ts.secs, ts.micros * 1000) {
        Some(dt) => dt.to_rfc3339_opts(chrono::SecondsFormat::Micros, true).into_bytes(),
        None => Vec::new(),
    }
}

/// The legacy header stamp of a unix second in UTC: abbreviated month name,
/// space-padded day of month and clock time, as strftime's
/// `%b %e %H:%M:%S` renders them. A function of the second alone.
pub uninterp spec fn legacy_stamp_bytes(secs: int) -> Seq<u8>;

/// Relies on `chrono::DateTime::format` with `%b %e %H:%M:%S` in UTC: the
/// rendering is a function of the unix second alone and is made of ASCII
/// letters, digits, spaces and colons, so it holds no newline or
/// carriage-return byte.
#[verifier::external_body]
pub fn render_legacy_stamp(secs: i64) -> (r: Vec<u8>)
    requires
        ts_in_range(secs as int),
    ensures
        r@ == legacy_stamp_bytes(secs as int),
        forall|i: int| 0 <= i < r@.len() ==> r@[i] != 10 && r@[i] != 13,
{
    let dt = chrono::DateTime::<chrono::Utc>::from_timestamp(secs, 0).expect(
        "whole seconds of the date range are representable",
    );
    dt.format("%b %e %H:%M:%S").to_string().into_bytes()
}

} // verus!
