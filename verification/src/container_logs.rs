//! Per-container log collection: inspecting a container's metadata, deciding
//! whether to collect at all, resolving the syslog app name, parsing raw log
//! lines into timestamp and message, and rendering each line as a record.
//!
//! The follow-mode stream itself is I/O and runs outside the library; it
//! feeds every line into [`CollectorSession::handle_log_line`] and advances
//! the [`Watermark`] with each delivered record.

use vstd::prelude::*;
use crate::EmitterConfig;
use crate::clock::{Timestamp, now_utc, parse_rfc3339_bytes, rfc3339_parse};
use crate::helpers::{basename_spec, bytes_clone, bytes_eq, bytes_range, file_name_from_str, truthy_spec};
use crate::syslog::{
    Facility,
    Formatter,
    Severity,
    record_spec,
    truncate_bytes,
    view_opt,
};

verus! {

/// An optional byte vector seen as an optional byte sequence.
pub open spec fn opt_view(o: Option<Vec<u8>>) -> Option<Seq<u8>> {
    match o {
        Some(v) => Some(v@),
        None => None,
    }
}

// ---------------------------------------------------------------------------
// Process-name resolution through the system's process table.
// ---------------------------------------------------------------------------

#[verifier::external_type_specification]
#[verifier::external_body]
pub struct ExSystem(sysinfo::System);

/// Relies on `sysinfo::System::new`: a fresh, empty process table.
#[verifier::external_body]
fn new_system() -> sysinfo::System {
    sysinfo::System::new()
}

/// Relies on sysinfo's process refresh (`System::refresh_processes_specifics`
/// narrowed to one pid, then `Process::exe` and `Process::cmd`): hands back
/// the process's executable path and first command-line token as UTF-8
/// bytes, when the machine knows them. The outcome depends on the machine's
/// state, so nothing more is promised of it.
#[verifier::external_body]
fn refresh_process_info(system: &mut sysinfo::System, pid: usize) -> (r: (
    Option<Vec<u8>>,
    Option<Vec<u8>>,
)) {
    let p = sysinfo::Pid::from(pid);
    let kind = sysinfo::ProcessRefreshKind::nothing()
        .with_exe(sysinfo::UpdateKind::Always)
        .with_cmd(sysinfo::UpdateKind::Always);
    system.refresh_processes_specifics(sysinfo::ProcessesToUpdate::Some(&[p]), true, kind);
    let process = system.process(p);
    let exe = process
        .and_then(|pr| pr.exe())
        .and_then(|path| path.to_str())
        .map(|s| s.as_bytes().to_vec());
    let cmd = process
        .and_then(|pr| pr.cmd().first())
        .and_then(|c| c.to_str())
        .map(|s| s.as_bytes().to_vec());
    (exe, cmd)
}

/// The app name derived from a refreshed process: the executable path's
/// basename, else the first command-line token's basename, else the
/// fallback.
pub open spec fn resolved_app_spec(
    exe: Option<Seq<u8>>,
    cmd0: Option<Seq<u8>>,
    fallback: Option<Seq<u8>>,
) -> Option<Seq<u8>> {
    match exe {
        Some(e) => Some(basename_spec(e)),
        None => match cmd0 {
            Some(c) => Some(basename_spec(c)),
            None => fallback,
        },
    }
}

/// An app name that a refresh may have produced: derived from some
/// machine-reported executable path and command line, with the given
/// fallback.
pub open spec fn resolved_from_machine(name: Option<Vec<u8>>, fallback: Option<Vec<u8>>) -> bool {
    exists|exe: Option<Seq<u8>>, cmd0: Option<Seq<u8>>|
        opt_view(name) == #[trigger] resolved_app_spec(exe, cmd0, opt_view(fallback))
}

/// Combines a refresh outcome with the fallback, exactly as
/// [`resolved_app_spec`] states.
pub fn compute_app_name(exe: Option<Vec<u8>>, cmd0: Option<Vec<u8>>, fallback: &Option<Vec<u8>>)
    -> (r: Option<Vec<u8>>)
    ensures
        opt_view(r) == resolved_app_spec(opt_view(exe), opt_view(cmd0), opt_view(*fallback)),
{
    match exe {
        Some(e) => Some(file_name_from_str(e.as_slice())),
        None => match cmd0 {
            Some(c) => Some(file_name_from_str(c.as_slice())),
            None => match fallback {
                Some(f) => Some(bytes_clone(f.as_slice())),
                None => None,
            },
        },
    }
}

/// Whether the cache must re-resolve: never resolved yet, more than one
/// second has passed, or the clock went backwards.
pub open spec fn refresh_due(last: Option<Timestamp>, now: Timestamp) -> bool {
    match last {
        None => true,
        Some(l) => {
            ||| now.secs - l.secs > 1
            ||| (now.secs - l.secs == 1 && now.micros > l.micros)
            ||| now.secs < l.secs
            ||| (now.secs == l.secs && now.micros < l.micros)
        },
    }
}

/// One lookup's effect on the cache, had the clock read `now_t` when it was
/// consulted: a due refresh re-resolves from some machine-reported outcome
/// and records the reading; within one second of the last refresh nothing
/// changes at all — the expensive resolution runs at most once per second.
pub open spec fn cache_refreshed_at(pre: ExecByPid, post: ExecByPid, now_t: Timestamp) -> bool {
    &&& refresh_due(pre.last_update, now_t) ==> post.last_update == Some(now_t)
        && resolved_from_machine(post.app_name, pre.fallback)
    &&& !refresh_due(pre.last_update, now_t) ==> post == pre
}

/// [`cache_refreshed_at`] for some well-formed clock reading: what one call
/// of [`ExecByPid::app_name`] does to the cache.
pub open spec fn cache_refreshed_some_clock(pre: ExecByPid, post: ExecByPid) -> bool {
    exists|now_t: Timestamp|
        now_t.wf() && now_t.secs >= 0 && #[trigger] cache_refreshed_at(pre, post, now_t)
}

/// A per-collector cache that re-resolves the running executable's name at
/// most once per second, falling back to a static name when the machine
/// cannot say.
pub struct ExecByPid {
    /// The machine's process table, queried on refresh.
    pub system: sysinfo::System,
    /// The container's host process id.
    pub pid: usize,
    /// When the cache last refreshed; never, at first.
    pub last_update: Option<Timestamp>,
    /// The most recently resolved app name.
    pub app_name: Option<Vec<u8>>,
    /// The name used when resolution fails.
    pub fallback: Option<Vec<u8>>,
}

impl ExecByPid {
    pub open spec fn wf(&self) -> bool {
        match self.last_update {
            Some(t) => t.wf(),
            None => true,
        }
    }

    /// A cache that has never resolved: the first lookup refreshes.
    pub fn new(pid: usize, fallback: Option<Vec<u8>>) -> (r: ExecByPid)
        ensures
            r.pid == pid,
            r.last_update is None,
            r.app_name is None,
            r.fallback == fallback,
            r.wf(),
    {
        ExecByPid { system: new_system(), pid, last_update: None, app_name: None, fallback }
    }

    fn refresh_due_now(&self, now: Timestamp) -> (r: bool)
        requires
            self.wf(),
            now.wf(),
        ensures
            r == refresh_due(self.last_update, now),
    {
        match &self.last_update {
            None => true,
            Some(l) => {
                let ds: i64 = now.secs - l.secs;
                ds > 1 || (ds == 1 && now.micros > l.micros) || ds < 0 || (ds == 0 && now.micros
                    < l.micros)
            },
        }
    }

    /// The app name to stamp on the next record: re-resolved through the
    /// process table when a refresh is due for the clock reading taken
    /// here, otherwise the cached value, with the cache untouched — the
    /// re-resolution runs at most once per second. The pid and the fallback
    /// never change.
    pub fn app_name(&mut self) -> (r: Option<Vec<u8>>)
        requires
            old(self).wf(),
        ensures
            final(self).wf(),
            final(self).pid == old(self).pid,
            final(self).fallback == old(self).fallback,
            opt_view(r) == opt_view(final(self).app_name),
            cache_refreshed_some_clock(*old(self), *final(self)),
    {
        let now = now_utc();
        if self.refresh_due_now(now) {
            let info = refresh_process_info(&mut self.system, self.pid);
            let ghost exe_v = opt_view(info.0);
            let ghost cmd_v = opt_view(info.1);
            self.last_update = Some(now);
            self.app_name = compute_app_name(info.0, info.1, &self.fallback);
            proof {
                assert(opt_view(self.app_name) == resolved_app_spec(
                    exe_v,
                    cmd_v,
                    opt_view(old(self).fallback),
                ));
                assert(resolved_from_machine(self.app_name, old(self).fallback));
                assert(cache_refreshed_at(*old(self), *self, now));
            }
        } else {
            proof {
                assert(*self == *old(self));
                assert(cache_refreshed_at(*old(self), *self, now));
            }
        }
        proof {
            assert(cache_refreshed_some_clock(*old(self), *self));
        }
        match &self.app_name {
            Some(v) => Some(bytes_clone(v.as_slice())),
            None => None,
        }
    }
}

/// Whether a whole optional cache is well-formed.
pub open spec fn opt_cache_wf(o: Option<ExecByPid>) -> bool {
    match o {
        Some(c) => c.wf(),
        None => true,
    }
}

// ---------------------------------------------------------------------------
// Container metadata.
// ---------------------------------------------------------------------------

/// What inspecting a container yields, as plain values: the raw name (which
/// the runtime prefixes with `/`), the host process id of its main process,
/// its label pairs, and its configured entrypoint path.
pub struct InspectData {
    pub name: Option<Vec<u8>>,
    pub pid: Option<i64>,
    pub labels: Vec<(Vec<u8>, Vec<u8>)>,
    pub path: Option<Vec<u8>>,
}

/// Label pairs seen as byte sequences.
pub open spec fn labels_view(labels: Seq<(Vec<u8>, Vec<u8>)>) -> Seq<(Seq<u8>, Seq<u8>)> {
    labels.map_values(|p: (Vec<u8>, Vec<u8>)| (p.0@, p.1@))
}

/// The value of the first pair whose key matches, if any.
pub open spec fn label_lookup(labels: Seq<(Seq<u8>, Seq<u8>)>, key: Seq<u8>) -> Option<Seq<u8>>
    decreases labels.len(),
{
    if labels.len() == 0 {
        None
    } else if labels[0].0 == key {
        Some(labels[0].1)
    } else {
        label_lookup(labels.skip(1), key)
    }
}

/// Finds a label's value by key.
pub fn lookup_label(labels: &Vec<(Vec<u8>, Vec<u8>)>, key: &[u8]) -> (r: Option<Vec<u8>>)
    ensures
        opt_view(r) == label_lookup(labels_view(labels@), key@),
{
    let ghost lv = labels_view(labels@);
    proof {
        assert(lv.skip(0) =~= lv);
    }
    let mut i: usize = 0;
    while i < labels.len()
        invariant
            0 <= i <= labels@.len(),
            lv == labels_view(labels@),
            lv.len() == labels@.len(),
            label_lookup(lv, key@) == label_lookup(lv.skip(i as int), key@),
        decreases labels@.len() - i,
    {
        proof {
            assert(lv.skip(i as int)[0] == lv[i as int]);
            assert(lv.skip(i as int).skip(1) =~= lv.skip(i + 1));
        }
        if bytes_eq(labels[i].0.as_slice(), key) {
            let v = bytes_clone(labels[i].1.as_slice());
            return Some(v);
        }
        i = i + 1;
    }
    proof {
        assert(lv.skip(labels@.len() as int) =~= Seq::<(Seq<u8>, Seq<u8>)>::empty());
    }
    None
}

/// The label that disables collection for one container.
pub open spec fn enabled_key() -> Seq<u8> {
    seq![100u8, 101u8, 46u8, 104u8, 97u8, 109u8, 109u8, 101u8, 114u8, 48u8, 54u8, 53u8, 46u8, 100u8, 111u8, 99u8, 107u8, 101u8, 114u8, 45u8, 108u8, 111u8, 103u8, 45u8, 101u8, 109u8, 105u8, 116u8, 116u8, 101u8, 114u8, 46u8, 101u8, 110u8, 97u8, 98u8, 108u8, 101u8, 100u8]
}

/// The label that overrides the syslog app name for one container.
pub open spec fn app_name_key() -> Seq<u8> {
    seq![100u8, 101u8, 46u8, 104u8, 97u8, 109u8, 109u8, 101u8, 114u8, 48u8, 54u8, 53u8, 46u8, 100u8, 111u8, 99u8, 107u8, 101u8, 114u8, 45u8, 108u8, 111u8, 103u8, 45u8, 101u8, 109u8, 105u8, 116u8, 116u8, 101u8, 114u8, 46u8, 97u8, 112u8, 112u8, 95u8, 110u8, 97u8, 109u8, 101u8]
}

/// The key of the `enabled` label, as bytes.
pub fn enabled_label_key() -> (r: Vec<u8>)
    ensures
        r@ == enabled_key(),
{
    let r: Vec<u8> = vec![100u8, 101u8, 46u8, 104u8, 97u8, 109u8, 109u8, 101u8, 114u8, 48u8, 54u8, 53u8, 46u8, 100u8, 111u8, 99u8, 107u8, 101u8, 114u8, 45u8, 108u8, 111u8, 103u8, 45u8, 101u8, 109u8, 105u8, 116u8, 116u8, 101u8, 114u8, 46u8, 101u8, 110u8, 97u8, 98u8, 108u8, 101u8, 100u8];
    proof {
        assert(r@ =~= enabled_key());
    }
    r
}

/// The key of the `app_name` label, as bytes.
pub fn app_name_label_key() -> (r: Vec<u8>)
    ensures
        r@ == app_name_key(),
{
    let r: Vec<u8> = vec![100u8, 101u8, 46u8, 104u8, 97u8, 109u8, 109u8, 101u8, 114u8, 48u8, 54u8, 53u8, 46u8, 100u8, 111u8, 99u8, 107u8, 101u8, 114u8, 45u8, 108u8, 111u8, 103u8, 45u8, 101u8, 109u8, 105u8, 116u8, 116u8, 101u8, 114u8, 46u8, 97u8, 112u8, 112u8, 95u8, 110u8, 97u8, 109u8, 101u8];
    proof {
        assert(r@ =~= app_name_key());
    }
    r
}

/// The container's name with the runtime's leading `/` stripped.
pub open spec fn stripped_name(name: Option<Vec<u8>>) -> Option<Seq<u8>> {
    match name {
        Some(n) => Some(
            if n@.len() > 0 && n@[0] == 47 {
                n@.skip(1)
            } else {
                n@
            },
        ),
        None => None,
    }
}

/// Whether collection is enabled for the container: the `enabled` label read
/// as a boolean, true when absent.
pub open spec fn enabled_spec(info: &InspectData) -> bool {
    match label_lookup(labels_view(info.labels@), enabled_key()) {
        Some(v) => truthy_spec(v),
        None => true,
    }
}

/// Reads the inspect result: the name stripped of its leading separator,
/// the host pid, and whether collection is enabled.
pub fn container_infos(info: &InspectData) -> (r: (Option<Vec<u8>>, Option<i64>, bool))
    ensures
        opt_view(r.0) == stripped_name(info.name),
        r.1 == info.pid,
        r.2 == enabled_spec(info),
{
    let name: Option<Vec<u8>> = match &info.name {
        Some(n) => {
            if n.len() > 0 && n[0] == 47 {
                let s = bytes_range(n.as_slice(), 1, n.len());
                proof {
                    assert(n@.subrange(1, n@.len() as int) =~= n@.skip(1));
                }
                Some(s)
            } else {
                Some(bytes_clone(n.as_slice()))
            }
        },
        None => None,
    };
    let key = enabled_label_key();
    let enabled = match lookup_label(&info.labels, key.as_slice()) {
        Some(v) => crate::helpers::bool_from_str(v.as_slice()),
        None => true,
    };
    (name, info.pid, enabled)
}

/// The static fallback app name from the container's configuration: the
/// entrypoint path's basename, else the container's name.
pub open spec fn ecinfo_spec(path: Option<Seq<u8>>, name: Option<Seq<u8>>) -> Option<Seq<u8>> {
    match path {
        Some(p) => Some(basename_spec(p)),
        None => name,
    }
}

/// Derives a static app name from the container's entrypoint path or its
/// (already stripped) name.
pub fn exec_by_container_info(container_path: &Option<Vec<u8>>, container_name: &Option<Vec<u8>>)
    -> (r: Option<Vec<u8>>)
    ensures
        opt_view(r) == ecinfo_spec(opt_view(*container_path), opt_view(*container_name)),
{
    match container_path {
        Some(p) => Some(file_name_from_str(p.as_slice())),
        None => match container_name {
            Some(n) => Some(bytes_clone(n.as_slice())),
            None => None,
        },
    }
}

/// Builds the formatter of the configured wire format: the legacy one when
/// `use_rfc3164` is set, else the structured one with the given msgid.
pub fn get_formatter(
    use_rfc3164: bool,
    facility: &Facility,
    hostname: &[u8],
    pid: Option<i64>,
    msgid: Option<&[u8]>,
) -> (r: Formatter)
    ensures
        use_rfc3164 ==> r is Rfc3164 && r->Rfc3164_pri_offset == facility.code_spec() * 8
            && r->Rfc3164_hostname@ == hostname@ && r->Rfc3164_procid@
            == crate::syslog::procid_field_legacy(pid),
        !use_rfc3164 ==> r is Rfc5424 && r->Rfc5424_pri_offset == facility.code_spec() * 8
            && r->Rfc5424_hostname@ == truncate_bytes(hostname@, 255) && r->Rfc5424_procid@
            == crate::syslog::procid_field_structured(pid) && r->Rfc5424_msgid@ == match msgid {
            Some(m) => truncate_bytes(m@, 32),
            None => seq![45u8],
        },
        r.wf(),
{
    if use_rfc3164 {
        Formatter::rfc3164(facility, hostname, pid)
    } else {
        Formatter::rfc5424(facility, hostname, pid, msgid)
    }
}

/// Builds the process-name cache when the capability is enabled and the
/// container has a usable host pid.
pub fn get_exec_pid(
    use_exec_pid: bool,
    pid: Option<i64>,
    container_path: &Option<Vec<u8>>,
    container_name: &Option<Vec<u8>>,
) -> (r: Option<ExecByPid>)
    ensures
        !use_exec_pid ==> r is None,
        use_exec_pid ==> match pid {
            Some(p) => if p >= 0 {
                r matches Some(c) && c.pid == p as usize && c.last_update is None && c.app_name
                    is None && opt_view(c.fallback) == ecinfo_spec(
                    opt_view(*container_path),
                    opt_view(*container_name),
                ) && c.wf()
            } else {
                r is None
            },
            None => r is None,
        },
        opt_cache_wf(r),
{
    if !use_exec_pid {
        return None;
    }
    match pid {
        Some(p) => {
            if p >= 0 {
                let fallback = exec_by_container_info(container_path, container_name);
                Some(ExecByPid::new(p as usize, fallback))
            } else {
                None
            }
        },
        None => None,
    }
}

// ---------------------------------------------------------------------------
// Log-line parsing.
// ---------------------------------------------------------------------------

/// A raw line with a trailing newline + carriage-return pair removed.
pub open spec fn chomp_spec(l: Seq<u8>) -> Seq<u8> {
    if l.len() >= 2 && l[l.len() - 2] == 10 && l[l.len() - 1] == 13 {
        l.take(l.len() - 2)
    } else {
        l
    }
}

/// The index of the first space of `l`, or its length when it has none.
pub open spec fn split_index(l: Seq<u8>) -> int
    decreases l.len(),
{
    if l.len() == 0 {
        0
    } else if l[0] == 32 {
        0
    } else {
        1 + split_index(l.skip(1))
    }
}

proof fn lemma_split_index_of(l: Seq<u8>, k: int)
    requires
        0 <= k <= l.len(),
        forall|j: int| 0 <= j < k ==> l[j] != 32,
        k < l.len() ==> l[k] == 32,
    ensures
        split_index(l) == k,
    decreases l.len(),
{
    if k == 0 {
        if l.len() > 0 {
            assert(l[0] == 32);
        }
    } else {
        assert(l[0] != 32);
        let tail = l.skip(1);
        assert forall|j: int| 0 <= j < k - 1 implies tail[j] != 32 by {
            assert(tail[j] == l[j + 1]);
        }
        if k - 1 < tail.len() {
            assert(tail[k - 1] == l[k]);
        }
        lemma_split_index_of(tail, k - 1);
    }
}

/// What a raw line parses to: when the part before its first space reads as
/// an RFC 3339 timestamp, that timestamp and the rest as the message;
/// otherwise the line is timestamp-less — the current time stands in and
/// the whole line, leading token included, is the message.
pub open spec fn parsed_line(l: Seq<u8>, now: Timestamp) -> (Timestamp, Seq<u8>) {
    let k = split_index(l);
    if k < l.len() {
        match rfc3339_parse(l.take(k)) {
            Some(p) => (Timestamp { secs: p.0, micros: p.1 }, l.skip(k + 1)),
            None => (now, l),
        }
    } else {
        (now, l)
    }
}

/// Splits a raw log line into its timestamp and message. The line is first
/// stripped of a trailing newline + carriage-return pair; the part before
/// the first space is read as an RFC 3339 timestamp, and `now` stands in
/// when there is none or it does not parse — the leading token then stays
/// part of the message.
pub fn parse_log_line(line: &[u8], now: Timestamp) -> (r: Option<(Timestamp, Vec<u8>)>)
    requires
        now.wf(),
    ensures
        r matches Some(p) && p.0 == parsed_line(chomp_spec(line@), now).0 && p.1@ == parsed_line(
            chomp_spec(line@),
            now,
        ).1 && p.0.wf(),
{
    let n = line.len();
    let end: usize = if n >= 2 && line[n - 2] == 10 && line[n - 1] == 13 {
        n - 2
    } else {
        n
    };
    let ghost l = chomp_spec(line@);
    proof {
        assert(l =~= line@.subrange(0, end as int));
    }
    let mut k: usize = 0;
    while k < end && line[k] != 32
        invariant
            0 <= k <= end <= line@.len(),
            l == line@.subrange(0, end as int),
            forall|j: int| 0 <= j < k ==> l[j] != 32,
        decreases end - k,
    {
        k = k + 1;
    }
    proof {
        lemma_split_index_of(l, k as int);
    }
    if k < end {
        let date = bytes_range(line, 0, k);
        proof {
            assert(date@ =~= l.take(k as int));
        }
        match parse_rfc3339_bytes(date.as_slice()) {
            Some(t) => {
                let msg = bytes_range(line, k + 1, end);
                proof {
                    assert(msg@ =~= l.skip(k + 1));
                }
                return Some((t, msg));
            },
            None => {},
        }
    }
    let msg = bytes_range(line, 0, end);
    Some((now, msg))
}

/// When a line's leading token parses as a timestamp, what the line parses
/// to does not depend on the clock at all: the record and the watermark
/// stamp are functions of the line alone.
pub proof fn lemma_parsed_line_deterministic(l: Seq<u8>, a: Timestamp, b: Timestamp)
    requires
        ({
            let k = split_index(l);
            k < l.len() && rfc3339_parse(l.take(k)) is Some
        }),
    ensures
        parsed_line(l, a) == parsed_line(l, b),
{
}

/// The severity stamped on a line: Error for stderr, Informational
/// otherwise.
pub open spec fn line_severity(is_err: bool) -> Severity {
    if is_err {
        Severity::Error
    } else {
        Severity::Informational
    }
}

// ---------------------------------------------------------------------------
// The collector session.
// ---------------------------------------------------------------------------

/// Everything a collector freezes at stream-open time: the formatter, the
/// static app name, and the optional process-name cache.
pub struct CollectorSession {
    pub formatter: Formatter,
    pub static_app_name: Option<Vec<u8>>,
    pub exec_cache: Option<ExecByPid>,
}

/// The app name a session stamps on records: the static name when set, else
/// the cache's current value.
pub open spec fn session_app_view(s: &CollectorSession) -> Option<Seq<u8>> {
    match s.static_app_name {
        Some(a) => Some(a@),
        None => match s.exec_cache {
            Some(c) => opt_view(c.app_name),
            None => None,
        },
    }
}

impl CollectorSession {
    pub open spec fn wf(&self) -> bool {
        self.formatter.wf() && opt_cache_wf(self.exec_cache)
    }
}

/// Resolves the app name for one line: the static override wins; otherwise
/// the cache answers, refreshing itself when due.
pub fn resolve_app_name(static_app_name: &Option<Vec<u8>>, exec_cache: &mut Option<ExecByPid>)
    -> (r: Option<Vec<u8>>)
    requires
        opt_cache_wf(*old(exec_cache)),
    ensures
        opt_cache_wf(*final(exec_cache)),
        static_app_name matches Some(a) ==> *final(exec_cache) == *old(exec_cache) && opt_view(r)
            == Some(a@),
        static_app_name is None && (*old(exec_cache)) is None ==> r is None && (*final(exec_cache)) is None,
        static_app_name is None ==> (*old(exec_cache) matches Some(c) ==> (*final(exec_cache)
            matches Some(c2) && c2.pid == c.pid && c2.fallback == c.fallback && opt_view(r)
            == opt_view(c2.app_name) && cache_refreshed_some_clock(c, c2))),
{
    match static_app_name {
        Some(a) => Some(bytes_clone(a.as_slice())),
        None => match exec_cache {
            Some(c) => c.app_name(),
            None => None,
        },
    }
}

/// The record and watermark stamp that one raw line yields, had the clock
/// read `now_t` while it was handled: the line parses to a timestamp and
/// message, the stamp is that timestamp's unix second, and the record is the
/// formatter's exact rendering.
pub open spec fn rendered_with(
    f: &Formatter,
    app: Option<Seq<u8>>,
    is_err: bool,
    message: Seq<u8>,
    now_t: Timestamp,
    rec: Seq<u8>,
    stamp: i64,
) -> bool {
    let pl = parsed_line(chomp_spec(message), now_t);
    stamp == pl.0.secs && rec == record_spec(f, pl.1, app, &line_severity(is_err), pl.0)
}

/// [`rendered_with`] for some well-formed clock reading: what
/// [`CollectorSession::handle_log_line`] promises of its record and stamp.
pub open spec fn rendered_some_clock(
    f: &Formatter,
    app: Option<Seq<u8>>,
    is_err: bool,
    message: Seq<u8>,
    rec: Seq<u8>,
    stamp: i64,
) -> bool {
    exists|now_t: Timestamp|
        now_t.wf() && #[trigger] rendered_with(f, app, is_err, message, now_t, rec, stamp)
}

impl CollectorSession {
    /// Renders one raw line as a record: parse the timestamp, pick the
    /// severity from the stream it came on, resolve the app name, format.
    /// Hands back the record bytes and the line's unix second — the
    /// collector's next watermark. When the leading token parses as a
    /// timestamp, both are functions of the line alone; otherwise the
    /// current clock reading stands in.
    pub fn handle_log_line(&mut self, is_err: bool, message: &[u8]) -> (r: Option<(Vec<u8>, i64)>)
        requires
            old(self).wf(),
        ensures
            final(self).wf(),
            final(self).formatter == old(self).formatter,
            final(self).static_app_name == old(self).static_app_name,
            old(self).exec_cache is None ==> final(self).exec_cache is None,
            final(self).exec_cache matches Some(c2) ==> (old(self).exec_cache matches Some(c1)
                && c2.pid == c1.pid && c2.fallback == c1.fallback),
            old(self).static_app_name is Some ==> final(self).exec_cache == old(self).exec_cache,
            old(self).static_app_name is None ==> (old(self).exec_cache matches Some(c1) ==> (
            final(self).exec_cache matches Some(c2) && cache_refreshed_some_clock(c1, c2))),
            r matches Some(p) && rendered_some_clock(
                &old(self).formatter,
                session_app_view(final(self)),
                is_err,
                message@,
                p.0@,
                p.1,
            ),
    {
        let now = now_utc();
        let parsed = parse_log_line(message, now);
        let (ts, msg) = match parsed {
            Some(p) => p,
            None => {
                proof {
                    assert(false);
                }
                (now, Vec::new())
            },
        };
        let app = resolve_app_name(&self.static_app_name, &mut self.exec_cache);
        let app_slice: Option<&[u8]> = match &app {
            Some(v) => Some(v.as_slice()),
            None => None,
        };
        let sev = if is_err {
            Severity::Error
        } else {
            Severity::Informational
        };
        let rec = self.formatter.format(msg.as_slice(), app_slice, &sev, &ts);
        proof {
            assert(view_opt(app_slice) == opt_view(app));
            assert(session_app_view(self) == opt_view(app));
            assert(now.wf());
            assert(rendered_with(
                &old(self).formatter,
                session_app_view(self),
                is_err,
                message@,
                now,
                rec@,
                ts.secs,
            ));
            assert(rendered_some_clock(
                &old(self).formatter,
                session_app_view(self),
                is_err,
                message@,
                rec@,
                ts.secs,
            ));
        }
        Some((rec, ts.secs))
    }
}

/// Sets up collection for one inspected container: nothing when its
/// `enabled` label turns it off — the collector then exits without opening
/// any stream and produces no record — else the frozen session.
pub fn collect_setup(info: &InspectData, hostname: &[u8], cfg: &EmitterConfig) -> (r: Option<
    CollectorSession,
>)
    ensures
        r is None <==> !enabled_spec(info),
        r matches Some(s) ==> {
            &&& s.wf()
            &&& cfg.use_rfc3164 ==> s.formatter is Rfc3164 && s.formatter->Rfc3164_pri_offset
                == Facility::SystemDaemon.code_spec() * 8 && s.formatter->Rfc3164_hostname@
                == hostname@ && s.formatter->Rfc3164_procid@ == crate::syslog::procid_field_legacy(
                info.pid,
            )
            &&& !cfg.use_rfc3164 ==> s.formatter is Rfc5424 && s.formatter->Rfc5424_pri_offset
                == Facility::SystemDaemon.code_spec() * 8 && s.formatter->Rfc5424_hostname@
                == truncate_bytes(hostname@, 255) && s.formatter->Rfc5424_procid@
                == crate::syslog::procid_field_structured(info.pid) && s.formatter->Rfc5424_msgid@
                == match stripped_name(info.name) {
                Some(n) => truncate_bytes(n, 32),
                None => seq![45u8],
            }
            &&& opt_view(s.static_app_name) == static_app_spec(info, cfg)
            &&& !cfg.use_exec_pid ==> s.exec_cache is None
            &&& cfg.use_exec_pid ==> match info.pid {
                Some(p) => if p >= 0 {
                    s.exec_cache matches Some(c) && c.pid == p as usize && c.last_update is None
                        && c.app_name is None && opt_view(c.fallback) == ecinfo_spec(
                        opt_view(info.path),
                        stripped_name(info.name),
                    )
                } else {
                    s.exec_cache is None
                },
                None => s.exec_cache is None,
            }
        },
{
    let (name, pid, enabled) = container_infos(info);
    if !enabled {
        return None;
    }
    let msgid_slice: Option<&[u8]> = match &name {
        Some(n) => Some(n.as_slice()),
        None => None,
    };
    let formatter = get_formatter(
        cfg.use_rfc3164,
        &Facility::SystemDaemon,
        hostname,
        pid,
        msgid_slice,
    );
    let key = app_name_label_key();
    let mut static_app_name = lookup_label(&info.labels, key.as_slice());
    if !cfg.use_exec_pid {
        if static_app_name.is_none() {
            static_app_name = exec_by_container_info(&info.path, &name);
        }
    }
    let exec_cache = get_exec_pid(cfg.use_exec_pid, pid, &info.path, &name);
    Some(CollectorSession { formatter, static_app_name, exec_cache })
}

/// The static app name a session is set up with: the `app_name` label when
/// present; else, when the process-name capability is off, the entrypoint
/// or container-name fallback; else nothing.
pub open spec fn static_app_spec(info: &InspectData, cfg: &EmitterConfig) -> Option<Seq<u8>> {
    match label_lookup(labels_view(info.labels@), app_name_key()) {
        Some(v) => Some(v),
        None => if !cfg.use_exec_pid {
            ecinfo_spec(opt_view(info.path), stripped_name(info.name))
        } else {
            None
        },
    }
}

// ---------------------------------------------------------------------------
// The watermark.
// ---------------------------------------------------------------------------

/// A collector's resume point: the unix second of the last delivered line,
/// handed to the runtime as `since` when the stream reopens.
pub struct Watermark {
    pub secs: i64,
}

impl Watermark {
    /// A fresh watermark at the given start time (the collector starts at
    /// the current time).
    pub fn new(start: i64) -> (r: Watermark)
        ensures
            r.secs == start,
    {
        Watermark { secs: start }
    }

    /// Advances to the unix second of a line just delivered — and never
    /// backwards: a line stamped before the watermark (a timestamp-less
    /// line stamped by a clock that then steps back, say) leaves it where
    /// it stands.
    pub fn note_delivered(&mut self, ts: i64)
        ensures
            final(self).secs == if ts >= old(self).secs {
                ts
            } else {
                old(self).secs
            },
    {
        if ts > self.secs {
            self.secs = ts;
        }
    }
}

/// The watermark after `k` delivered lines whose unix seconds are `stamps`,
/// starting from `init`: each delivery advances it to the line's stamp
/// unless that would move it backwards.
pub open spec fn watermark_at(init: i64, stamps: Seq<i64>, k: int) -> i64
    decreases k,
{
    if k <= 0 {
        init
    } else {
        let prev = watermark_at(init, stamps, k - 1);
        if stamps[k - 1] >= prev {
            stamps[k - 1]
        } else {
            prev
        }
    }
}

/// Over the lifetime of one container's stream the watermark is
/// monotonically non-decreasing, whatever unix seconds the delivered lines
/// carry.
pub proof fn lemma_watermark_monotonic(init: i64, stamps: Seq<i64>, i: int, j: int)
    requires
        0 <= i <= j <= stamps.len(),
    ensures
        watermark_at(init, stamps, i) <= watermark_at(init, stamps, j),
    decreases j - i,
{
    if i < j {
        lemma_watermark_monotonic(init, stamps, i, j - 1);
    }
}

} // verus!
