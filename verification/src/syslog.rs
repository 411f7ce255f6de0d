//! The syslog record formatter: facility and severity codes, the two wire
//! formats (legacy and structured), and the exact byte layout of every
//! record.
//!
//! A record is the header, the message with every newline and carriage
//! return removed, and a single trailing newline. The header carries the
//! priority value `facility * 8 + severity` between angle brackets.

use vstd::prelude::*;
use crate::clock::{
    Timestamp,
    legacy_stamp_bytes,
    rfc3339_micros_bytes,
    render_legacy_stamp,
    render_rfc3339_micros,
};

verus! {

/// The syslog facility of a record's origin.
pub enum Facility {
    Kernel,
    UserLevel,
    MailSystem,
    SystemDaemon,
    SecurityMessage,
    SyslogdInternal,
    LinePrinter,
    NetworkNews,
    Uucp,
    ClockDaemon,
    FtpDaemon,
    Ntp,
    LogAudit,
    LogAlert,
    Local0,
    Local1,
    Local2,
    Local3,
    Local4,
    Local5,
    Local6,
    Local7,
}

impl Facility {
    /// The numeric facility code of the standard encoding.
    pub open spec fn code_spec(&self) -> u16 {
        match self {
            Facility::Kernel => 0,
            Facility::UserLevel => 1,
            Facility::MailSystem => 2,
            Facility::SystemDaemon => 3,
            Facility::SecurityMessage => 4,
            Facility::SyslogdInternal => 5,
            Facility::LinePrinter => 6,
            Facility::NetworkNews => 7,
            Facility::Uucp => 8,
            Facility::ClockDaemon => 9,
            Facility::FtpDaemon => 11,
            Facility::Ntp => 12,
            Facility::LogAudit => 13,
            Facility::LogAlert => 14,
            Facility::Local0 => 16,
            Facility::Local1 => 17,
            Facility::Local2 => 18,
            Facility::Local3 => 19,
            Facility::Local4 => 20,
            Facility::Local5 => 21,
            Facility::Local6 => 22,
            Facility::Local7 => 23,
        }
    }

    /// The numeric facility code, at most 23.
    pub fn numerical_code(&self) -> (r: u16)
        ensures
            r == self.code_spec(),
            r <= 23,
    {
        match self {
            Facility::Kernel => 0,
            Facility::UserLevel => 1,
            Facility::MailSystem => 2,
            Facility::SystemDaemon => 3,
            Facility::SecurityMessage => 4,
            Facility::SyslogdInternal => 5,
            Facility::LinePrinter => 6,
            Facility::NetworkNews => 7,
            Facility::Uucp => 8,
            Facility::ClockDaemon => 9,
            Facility::FtpDaemon => 11,
            Facility::Ntp => 12,
            Facility::LogAudit => 13,
            Facility::LogAlert => 14,
            Facility::Local0 => 16,
            Facility::Local1 => 17,
            Facility::Local2 => 18,
            Facility::Local3 => 19,
            Facility::Local4 => 20,
            Facility::Local5 => 21,
            Facility::Local6 => 22,
            Facility::Local7 => 23,
        }
    }
}

/// The syslog severity of one record.
pub enum Severity {
    Emergency,
    Alert,
    Critical,
    Error,
    Warning,
    Notice,
    Informational,
    Debug,
}

impl Severity {
    /// The numeric severity code of the standard encoding.
    pub open spec fn code_spec(&self) -> u16 {
        match self {
            Severity::Emergency => 0,
            Severity::Alert => 1,
            Severity::Critical => 2,
            Severity::Error => 3,
            Severity::Warning => 4,
            Severity::Notice => 5,
            Severity::Informational => 6,
            Severity::Debug => 7,
        }
    }

    /// The numeric severity code, at most 7.
    pub fn numerical_code(&self) -> (r: u16)
        ensures
            r == self.code_spec(),
            r <= 7,
    {
        match self {
            Severity::Emergency => 0,
            Severity::Alert => 1,
            Severity::Critical => 2,
            Severity::Error => 3,
            Severity::Warning => 4,
            Severity::Notice => 5,
            Severity::Informational => 6,
            Severity::Debug => 7,
        }
    }
}

/// The decimal digits of a non-negative number, most significant first.
pub open spec fn dec_digits(n: nat) -> Seq<u8>
    decreases n,
{
    if n < 10 {
        seq![(48 + n) as u8]
    } else {
        dec_digits(n / 10).push((48 + n % 10) as u8)
    }
}

/// The decimal rendering of a signed number: a leading `-` for negatives.
pub open spec fn dec_i64(n: int) -> Seq<u8> {
    if n < 0 {
        seq![45u8] + dec_digits((-n) as nat)
    } else {
        dec_digits(n as nat)
    }
}

pub proof fn lemma_dec_digits_are_digits(n: nat)
    ensures
        forall|i: int| 0 <= i < dec_digits(n).len() ==> 48 <= #[trigger] dec_digits(n)[i] <= 57,
    decreases n,
{
    if n < 10 {
        assert(dec_digits(n)[0] == (48 + n) as u8);
    } else {
        lemma_dec_digits_are_digits(n / 10);
        assert forall|i: int| 0 <= i < dec_digits(n).len() implies 48 <= #[trigger] dec_digits(
            n,
        )[i] <= 57 by {
            let prefix = dec_digits(n / 10);
            if i < prefix.len() {
                assert(dec_digits(n)[i] == prefix[i]);
            } else {
                assert(dec_digits(n)[i] == (48 + n % 10) as u8);
            }
        }
    }
}

/// Appends the decimal digits of `n` to `out`.
pub fn push_dec_u64(out: &mut Vec<u8>, n: u64)
    ensures
        final(out)@ == old(out)@ + dec_digits(n as nat),
    decreases n,
{
    if n >= 10 {
        push_dec_u64(out, n / 10);
    }
    let d: u8 = (n % 10) as u8 + 48;
    out.push(d);
    proof {
        assert(final(out)@ =~= old(out)@ + dec_digits(n as nat));
    }
}

/// Appends the decimal rendering of `n` to `out`, sign included.
pub fn push_dec_i64(out: &mut Vec<u8>, n: i64)
    ensures
        final(out)@ == old(out)@ + dec_i64(n as int),
{
    if n < 0 {
        out.push(45);
        let m: u64 = if n == i64::MIN {
            9223372036854775808u64
        } else {
            (-n) as u64
        };
        push_dec_u64(out, m);
        proof {
            assert(m as nat == (-(n as int)) as nat);
            assert(final(out)@ =~= old(out)@ + dec_i64(n as int));
        }
    } else {
        push_dec_u64(out, n as u64);
    }
}

/// `s` cut to at most `n` bytes.
pub open spec fn truncate_bytes(s: Seq<u8>, n: int) -> Seq<u8> {
    if s.len() > n {
        s.take(n)
    } else {
        s
    }
}

/// Copies at most `n` leading bytes of `s`.
pub fn truncated(s: &[u8], n: usize) -> (r: Vec<u8>)
    ensures
        r@ == truncate_bytes(s@, n as int),
{
    let keep: usize = if s.len() > n {
        n
    } else {
        s.len()
    };
    let mut r: Vec<u8> = Vec::new();
    let mut i: usize = 0;
    while i < keep
        invariant
            0 <= i <= keep <= s@.len(),
            r@ == s@.subrange(0, i as int),
        decreases keep - i,
    {
        r.push(s[i]);
        i = i + 1;
    }
    proof {
        if s@.len() > n as int {
            assert(s@.subrange(0, keep as int) =~= s@.take(n as int));
        } else {
            assert(s@.subrange(0, keep as int) =~= s@);
        }
    }
    r
}

/// Appends all of `s` to `out`.
pub fn append_bytes(out: &mut Vec<u8>, s: &[u8])
    ensures
        final(out)@ == old(out)@ + s@,
{
    let mut i: usize = 0;
    while i < s.len()
        invariant
            0 <= i <= s@.len(),
            out@ == old(out)@ + s@.subrange(0, i as int),
        decreases s@.len() - i,
    {
        out.push(s[i]);
        proof {
            assert(old(out)@ + s@.subrange(0, i + 1 as int) =~= (old(out)@ + s@.subrange(
                0,
                i as int,
            )).push(s@[i as int]));
        }
        i = i + 1;
    }
    proof {
        assert(s@.subrange(0, s@.len() as int) =~= s@);
    }
}

/// A byte that may stand in a record's body: anything but newline and
/// carriage return.
pub open spec fn is_body_byte(b: u8) -> bool {
    b != 10 && b != 13
}

/// The message with every newline and carriage-return byte removed and all
/// other bytes kept in order.
pub open spec fn strip_crlf(m: Seq<u8>) -> Seq<u8>
    decreases m.len(),
{
    if m.len() == 0 {
        m
    } else if is_body_byte(m.last()) {
        strip_crlf(m.drop_last()).push(m.last())
    } else {
        strip_crlf(m.drop_last())
    }
}

pub proof fn lemma_strip_crlf_clean(m: Seq<u8>)
    ensures
        forall|i: int| 0 <= i < strip_crlf(m).len() ==> is_body_byte(#[trigger] strip_crlf(m)[i]),
    decreases m.len(),
{
    if m.len() > 0 {
        lemma_strip_crlf_clean(m.drop_last());
        assert forall|i: int| 0 <= i < strip_crlf(m).len() implies is_body_byte(
            #[trigger] strip_crlf(m)[i],
        ) by {
            let prefix = strip_crlf(m.drop_last());
            if is_body_byte(m.last()) {
                if i < prefix.len() {
                    assert(strip_crlf(m)[i] == prefix[i]);
                } else {
                    assert(strip_crlf(m)[i] == m.last());
                }
            } else {
                assert(strip_crlf(m)[i] == prefix[i]);
            }
        }
    }
}

/// Appends the message to `out` with newline and carriage-return bytes
/// removed.
pub fn append_stripped(out: &mut Vec<u8>, msg: &[u8])
    ensures
        final(out)@ == old(out)@ + strip_crlf(msg@),
{
    let mut i: usize = 0;
    while i < msg.len()
        invariant
            0 <= i <= msg@.len(),
            out@ == old(out)@ + strip_crlf(msg@.subrange(0, i as int)),
        decreases msg@.len() - i,
    {
        let b = msg[i];
        proof {
            let sub1 = msg@.subrange(0, i + 1 as int);
            assert(sub1.drop_last() =~= msg@.subrange(0, i as int));
            assert(sub1.last() == msg@[i as int]);
        }
        if b != 10 && b != 13 {
            out.push(b);
            proof {
                assert(out@ =~= old(out)@ + strip_crlf(msg@.subrange(0, i + 1 as int)));
            }
        }
        i = i + 1;
    }
    proof {
        assert(msg@.subrange(0, msg@.len() as int) =~= msg@);
    }
}

/// No byte of `s` is a newline or carriage return.
pub open spec fn seq_clean(s: Seq<u8>) -> bool {
    forall|i: int| 0 <= i < s.len() ==> is_body_byte(#[trigger] s[i])
}

pub proof fn lemma_clean_concat(a: Seq<u8>, b: Seq<u8>)
    requires
        seq_clean(a),
        seq_clean(b),
    ensures
        seq_clean(a + b),
{
    assert forall|i: int| 0 <= i < (a + b).len() implies is_body_byte(#[trigger] (a + b)[i]) by {
        if i < a.len() {
            assert((a + b)[i] == a[i]);
        } else {
            assert((a + b)[i] == b[i - a.len()]);
        }
    }
}

/// The record's app-name field of the legacy format: the app name as given,
/// or `-` when absent.
pub open spec fn app_field_legacy(app: Option<Seq<u8>>) -> Seq<u8> {
    match app {
        Some(a) => a,
        None => seq![45u8],
    }
}

/// The record's app-name field of the structured format: cut to 48 bytes,
/// or `-` when absent.
pub open spec fn app_field_structured(app: Option<Seq<u8>>) -> Seq<u8> {
    match app {
        Some(a) => truncate_bytes(a, 48),
        None => seq![45u8],
    }
}

/// The legacy proc-id field: the process id between square brackets, or
/// empty when absent.
pub open spec fn procid_field_legacy(pid: Option<i64>) -> Seq<u8> {
    match pid {
        Some(p) => seq![91u8] + dec_i64(p as int) + seq![93u8],
        None => Seq::empty(),
    }
}

/// The structured proc-id field: the decimal process id, or `-` when absent.
pub open spec fn procid_field_structured(pid: Option<i64>) -> Seq<u8> {
    match pid {
        Some(p) => dec_i64(p as int),
        None => seq![45u8],
    }
}

/// Both proc-id fields are made of digits, a sign, brackets or a dash, so a
/// formatter's proc-id never holds a newline or carriage-return byte; with
/// clean hostname, app-name and msgid inputs the whole record then has no
/// such byte but its trailing delimiter.
pub proof fn lemma_procid_fields_clean(pid: Option<i64>)
    ensures
        seq_clean(procid_field_legacy(pid)),
        seq_clean(procid_field_structured(pid)),
{
    match pid {
        Some(p) => {
            let magnitude: nat = if (p as int) < 0 {
                (-(p as int)) as nat
            } else {
                (p as int) as nat
            };
            lemma_dec_digits_are_digits(magnitude);
            assert forall|i: int| 0 <= i < dec_i64(p as int).len() implies is_body_byte(
                #[trigger] dec_i64(p as int)[i],
            ) by {
                if (p as int) < 0 && i > 0 {
                    assert(dec_i64(p as int)[i] == dec_digits((-(p as int)) as nat)[i - 1]);
                }
            }
            lemma_clean_concat(seq![91u8], dec_i64(p as int));
            lemma_clean_concat(seq![91u8] + dec_i64(p as int), seq![93u8]);
        },
        None => {},
    }
}

/// A formatter frozen per collector: the priority offset (facility times
/// eight) and the header fields fixed at construction. One variant per wire
/// format.
pub enum Formatter {
    Rfc3164 { pri_offset: u16, hostname: Vec<u8>, procid: Vec<u8> },
    Rfc5424 { pri_offset: u16, hostname: Vec<u8>, procid: Vec<u8>, msgid: Vec<u8> },
}

impl Formatter {
    /// The priority offset carried by either variant.
    pub open spec fn pri_offset_spec(&self) -> u16 {
        match self {
            Formatter::Rfc3164 { pri_offset, .. } => *pri_offset,
            Formatter::Rfc5424 { pri_offset, .. } => *pri_offset,
        }
    }

    /// A formatter as the constructors build it: the priority offset encodes
    /// a facility, so adding any severity code stays below 192.
    pub open spec fn wf(&self) -> bool {
        self.pri_offset_spec() <= 184
    }

    /// The header fields hold no newline or carriage-return byte.
    pub open spec fn fields_clean(&self) -> bool {
        match self {
            Formatter::Rfc3164 { hostname, procid, .. } => seq_clean(hostname@) && seq_clean(
                procid@,
            ),
            Formatter::Rfc5424 { hostname, procid, msgid, .. } => seq_clean(hostname@)
                && seq_clean(procid@) && seq_clean(msgid@),
        }
    }

    /// Builds a legacy-format formatter: priority offset `facility * 8`, the
    /// hostname as given, and the proc-id field `[pid]` or empty.
    pub fn rfc3164(facility: &Facility, hostname: &[u8], pid: Option<i64>) -> (r: Formatter)
        ensures
            r is Rfc3164,
            r->Rfc3164_pri_offset == facility.code_spec() * 8,
            r->Rfc3164_hostname@ == hostname@,
            r->Rfc3164_procid@ == procid_field_legacy(pid),
            r.wf(),
    {
        let pri_offset: u16 = facility.numerical_code() * 8;
        let procid: Vec<u8> = match pid {
            Some(p) => {
                let mut v: Vec<u8> = Vec::new();
                v.push(91);
                push_dec_i64(&mut v, p);
                v.push(93);
                proof {
                    assert(v@ =~= procid_field_legacy(pid));
                }
                v
            },
            None => Vec::new(),
        };
        let mut host: Vec<u8> = Vec::new();
        append_bytes(&mut host, hostname);
        proof {
            assert(host@ =~= hostname@);
        }
        Formatter::Rfc3164 { pri_offset, hostname: host, procid }
    }

    /// Builds a structured-format formatter: priority offset `facility * 8`,
    /// the hostname cut to 255 bytes, the decimal proc-id or `-`, and the
    /// msgid cut to 32 bytes or `-`.
    pub fn rfc5424(facility: &Facility, hostname: &[u8], pid: Option<i64>, msgid: Option<&[u8]>)
        -> (r: Formatter)
        ensures
            r is Rfc5424,
            r->Rfc5424_pri_offset == facility.code_spec() * 8,
            r->Rfc5424_hostname@ == truncate_bytes(hostname@, 255),
            r->Rfc5424_procid@ == procid_field_structured(pid),
            r->Rfc5424_msgid@ == match msgid {
                Some(m) => truncate_bytes(m@, 32),
                None => seq![45u8],
            },
            r.wf(),
    {
        let pri_offset: u16 = facility.numerical_code() * 8;
        let host: Vec<u8> = truncated(hostname, 255);
        let procid: Vec<u8> = match pid {
            Some(p) => {
                let mut v: Vec<u8> = Vec::new();
                push_dec_i64(&mut v, p);
                proof {
                    assert(v@ =~= dec_i64(p as int));
                }
                v
            },
            None => {
                let v: Vec<u8> = vec![45u8];
                proof {
                    assert(v@ =~= procid_field_structured(pid));
                }
                v
            },
        };
        let mid: Vec<u8> = match msgid {
            Some(m) => truncated(m, 32),
            None => {
                let v: Vec<u8> = vec![45u8];
                proof {
                    assert(v@ =~= seq![45u8]);
                }
                v
            },
        };
        Formatter::Rfc5424 { pri_offset, hostname: host, procid, msgid: mid }
    }
}

/// An optional byte-slice argument seen as an optional byte sequence.
pub open spec fn view_opt(o: Option<&[u8]>) -> Option<Seq<u8>> {
    match o {
        Some(a) => Some(a@),
        None => None,
    }
}

/// The header of a record: everything before the message.
pub open spec fn header_spec(
    f: &Formatter,
    app: Option<Seq<u8>>,
    sev: &Severity,
    ts: Timestamp,
) -> Seq<u8> {
    match f {
        Formatter::Rfc3164 { pri_offset, hostname, procid } => seq![60u8] + dec_digits(
            (*pri_offset + sev.code_spec()) as nat,
        ) + seq![62u8] + legacy_stamp_bytes(ts.secs as int) + seq![32u8] + hostname@ + seq![32u8]
            + app_field_legacy(app) + procid@ + seq![58u8, 32u8],
        Formatter::Rfc5424 { pri_offset, hostname, procid, msgid } => seq![60u8] + dec_digits(
            (*pri_offset + sev.code_spec()) as nat,
        ) + seq![62u8, 49u8, 32u8] + rfc3339_micros_bytes(ts.secs as int, ts.micros as int)
            + seq![32u8] + hostname@ + seq![32u8] + app_field_structured(app) + seq![32u8]
            + procid@ + seq![32u8] + msgid@ + seq![32u8, 45u8, 32u8],
    }
}

/// A whole record: header, message stripped of newlines and carriage
/// returns, and the single trailing newline.
pub open spec fn record_spec(
    f: &Formatter,
    msg: Seq<u8>,
    app: Option<Seq<u8>>,
    sev: &Severity,
    ts: Timestamp,
) -> Seq<u8> {
    header_spec(f, app, sev, ts) + strip_crlf(msg) + seq![10u8]
}

impl Formatter {
    /// Renders one record. The result is exactly the header, the message
    /// with every newline and carriage-return byte removed, and one trailing
    /// newline; when the header fields and the app name are themselves free
    /// of those bytes, the trailing newline is the only one of the whole
    /// record.
    pub fn format(&self, msg: &[u8], app_name: Option<&[u8]>, severity: &Severity, ts: &Timestamp)
        -> (r: Vec<u8>)
        requires
            self.wf(),
            ts.wf(),
        ensures
            r@ == record_spec(self, msg@, view_opt(app_name), severity, *ts),
            r@.len() > 0 && r@.last() == 10u8,
            self.fields_clean() && (app_name matches Some(a) ==> seq_clean(a@)) ==> seq_clean(
                r@.drop_last(),
            ),
    {
        let mut out: Vec<u8> = Vec::new();
        match self {
            Formatter::Rfc3164 { pri_offset, hostname, procid } => {
                let pri: u16 = *pri_offset + severity.numerical_code();
                let stamp: Vec<u8> = render_legacy_stamp(ts.secs);
                out.push(60);
                push_dec_u64(&mut out, pri as u64);
                out.push(62);
                append_bytes(&mut out, stamp.as_slice());
                out.push(32);
                append_bytes(&mut out, hostname.as_slice());
                out.push(32);
                match app_name {
                    Some(a) => append_bytes(&mut out, a),
                    None => out.push(45),
                }
                append_bytes(&mut out, procid.as_slice());
                out.push(58);
                out.push(32);
                let ghost header = out@;
                proof {
                    assert(header =~= header_spec(self, view_opt(app_name), severity, *ts));
                    if self.fields_clean() && (app_name matches Some(a) ==> seq_clean(a@)) {
                        lemma_dec_digits_are_digits(pri as nat);
                        assert(seq_clean(header));
                    }
                }
                append_stripped(&mut out, msg);
                out.push(10);
                proof {
                    assert(out@ =~= record_spec(self, msg@, view_opt(app_name), severity, *ts));
                    finish_clean_proof(header, msg@, out@);
                }
            },
            Formatter::Rfc5424 { pri_offset, hostname, procid, msgid } => {
                let pri: u16 = *pri_offset + severity.numerical_code();
                let stamp: Vec<u8> = render_rfc3339_micros(ts);
                out.push(60);
                push_dec_u64(&mut out, pri as u64);
                out.push(62);
                out.push(49);
                out.push(32);
                append_bytes(&mut out, stamp.as_slice());
                out.push(32);
                append_bytes(&mut out, hostname.as_slice());
                out.push(32);
                match app_name {
                    Some(a) => {
                        let t = truncated(a, 48);
                        append_bytes(&mut out, t.as_slice());
                    },
                    None => out.push(45),
                }
                out.push(32);
                append_bytes(&mut out, procid.as_slice());
                out.push(32);
                append_bytes(&mut out, msgid.as_slice());
                out.push(32);
                out.push(45);
                out.push(32);
                let ghost header = out@;
                proof {
                    assert(header =~= header_spec(self, view_opt(app_name), severity, *ts));
                    if self.fields_clean() && (app_name matches Some(a) ==> seq_clean(a@)) {
                        lemma_dec_digits_are_digits(pri as nat);
                        match app_name {
                            Some(a) => {
                                assert(seq_clean(truncate_bytes(a@, 48)));
                            },
                            None => {},
                        }
                        assert(seq_clean(header));
                    }
                }
                append_stripped(&mut out, msg);
                out.push(10);
                proof {
                    assert(out@ =~= record_spec(self, msg@, view_opt(app_name), severity, *ts));
                    finish_clean_proof(header, msg@, out@);
                }
            },
        }
        out
    }
}

proof fn finish_clean_proof(header: Seq<u8>, msg: Seq<u8>, rec: Seq<u8>)
    requires
        rec == header + strip_crlf(msg) + seq![10u8],
    ensures
        rec.len() > 0 && rec.last() == 10u8,
        seq_clean(header) ==> seq_clean(rec.drop_last()),
{
    lemma_strip_crlf_clean(msg);
    if seq_clean(header) {
        lemma_clean_concat(header, strip_crlf(msg));
        assert(rec.drop_last() =~= header + strip_crlf(msg));
    }
}

/// The priority field of every record encodes `facility * 8 + severity`: a
/// record made by a formatter whose priority offset is `facility * 8` opens
/// with `<`, the decimal digits of that sum, and `>`.
pub proof fn lemma_priority_field(
    f: &Formatter,
    fac: Facility,
    msg: Seq<u8>,
    app: Option<Seq<u8>>,
    sev: &Severity,
    ts: Timestamp,
)
    requires
        f.pri_offset_spec() == fac.code_spec() * 8,
    ensures
        ({
            let digits = dec_digits((fac.code_spec() * 8 + sev.code_spec()) as nat);
            record_spec(f, msg, app, sev, ts).take(digits.len() as int + 2) =~= seq![60u8] + digits
                + seq![62u8]
        }),
{
    let digits = dec_digits((fac.code_spec() * 8 + sev.code_spec()) as nat);
    let rec = record_spec(f, msg, app, sev, ts);
    match f {
        Formatter::Rfc3164 { pri_offset, hostname, procid } => {
            assert(rec.take(digits.len() as int + 2) =~= seq![60u8] + digits + seq![62u8]);
        },
        Formatter::Rfc5424 { pri_offset, hostname, procid, msgid } => {
            assert(rec.take(digits.len() as int + 2) =~= seq![60u8] + digits + seq![62u8]);
        },
    }
}

/// The structured format's field limits: the hostname field is at most 255
/// bytes, the app-name field at most 48, the msgid field at most 32, and an
/// absent app name or msgid renders as `-`.
pub proof fn lemma_structured_field_limits(
    hostname: Seq<u8>,
    app: Option<Seq<u8>>,
    msgid: Option<Seq<u8>>,
)
    ensures
        truncate_bytes(hostname, 255).len() <= 255,
        app_field_structured(app).len() <= 48,
        app is None ==> app_field_structured(app) == seq![45u8],
        msgid matches Some(m) ==> truncate_bytes(m, 32).len() <= 32,
{
}

} // verus!
