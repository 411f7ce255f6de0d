//! The delivery sink: the destination parser, the per-variant connection
//! state machine, the datagram payload rule, and the reconnect-and-retry
//! discipline.
//!
//! The sockets themselves are I/O and live outside the library; they report
//! each connect and send outcome back into the state machine, which decides
//! whether the record is delivered or must be retried on a fresh
//! connection.

use vstd::prelude::*;

verus! {

/// The largest datagram payload the sink will hand to the transport.
pub const MAX_UDP_PACKET_SIZE: usize = 65507;

/// One socket destination with its connection state: the remote address as
/// bytes (`host:port`), and whether a live socket is currently held. A
/// dropped connection is simply `connected == false`; the address never
/// changes.
pub enum SocketSender {
    Tcp { addr: Vec<u8>, connected: bool },
    Udp { addr: Vec<u8>, connected: bool },
}

impl SocketSender {
    /// The remote address, whichever the variant.
    pub open spec fn addr_spec(&self) -> Seq<u8> {
        match self {
            SocketSender::Tcp { addr, .. } => addr@,
            SocketSender::Udp { addr, .. } => addr@,
        }
    }

    /// Whether a live socket is held, whichever the variant.
    pub open spec fn connected_spec(&self) -> bool {
        match self {
            SocketSender::Tcp { connected, .. } => *connected,
            SocketSender::Udp { connected, .. } => *connected,
        }
    }

    /// A stream destination, not yet connected.
    pub fn tcp(addr: Vec<u8>) -> (r: SocketSender)
        ensures
            r is Tcp,
            r.addr_spec() == addr@,
            !r.connected_spec(),
    {
        SocketSender::Tcp { addr, connected: false }
    }

    /// A datagram destination, not yet bound.
    pub fn udp(addr: Vec<u8>) -> (r: SocketSender)
        ensures
            r is Udp,
            r.addr_spec() == addr@,
            !r.connected_spec(),
    {
        SocketSender::Udp { addr, connected: false }
    }

    /// Records that a connect (or bind-and-associate) succeeded.
    pub fn note_connected(&mut self)
        ensures
            final(self).connected_spec(),
            final(self).addr_spec() == old(self).addr_spec(),
            ((*final(self)) is Tcp) == ((*old(self)) is Tcp),
    {
        match self {
            SocketSender::Tcp { connected, .. } => *connected = true,
            SocketSender::Udp { connected, .. } => *connected = true,
        }
    }

    /// Drops the connection: the next send must connect first.
    pub fn disconnect(&mut self)
        ensures
            !final(self).connected_spec(),
            final(self).addr_spec() == old(self).addr_spec(),
            ((*final(self)) is Tcp) == ((*old(self)) is Tcp),
    {
        match self {
            SocketSender::Tcp { connected, .. } => *connected = false,
            SocketSender::Udp { connected, .. } => *connected = false,
        }
    }

    /// Digests one send attempt's outcome: success means the record is
    /// delivered and the loop is done; failure drops the connection so the
    /// same record is retried against a fresh one.
    pub fn on_send_result(&mut self, ok: bool) -> (done: bool)
        ensures
            done == ok,
            final(self).addr_spec() == old(self).addr_spec(),
            ((*final(self)) is Tcp) == ((*old(self)) is Tcp),
            ok ==> *final(self) == *old(self),
            !ok ==> !final(self).connected_spec(),
    {
        if ok {
            true
        } else {
            self.disconnect();
            false
        }
    }

    /// The scheme of this destination.
    pub fn protocol(&self) -> (r: &'static str)
        ensures
            self is Tcp ==> r@ == "tcp"@,
            self is Udp ==> r@ == "udp"@,
    {
        match self {
            SocketSender::Tcp { .. } => "tcp",
            SocketSender::Udp { .. } => "udp",
        }
    }

    /// The remote address bytes.
    pub fn socket_addr(&self) -> (r: &Vec<u8>)
        ensures
            r@ == self.addr_spec(),
    {
        match self {
            SocketSender::Tcp { addr, .. } => addr,
            SocketSender::Udp { addr, .. } => addr,
        }
    }

    /// The destination as a url: the scheme, `://`, and the address.
    pub fn url(&self) -> (r: Vec<u8>)
        ensures
            self is Tcp ==> r@ == tcp_scheme_full() + self.addr_spec(),
            self is Udp ==> r@ == udp_scheme_full() + self.addr_spec(),
    {
        let mut r: Vec<u8> = match self {
            SocketSender::Tcp { .. } => {
                let v: Vec<u8> = vec![116u8, 99u8, 112u8, 58u8, 47u8, 47u8];
                proof {
                    assert(v@ =~= tcp_scheme_full());
                }
                v
            },
            SocketSender::Udp { .. } => {
                let v: Vec<u8> = vec![117u8, 100u8, 112u8, 58u8, 47u8, 47u8];
                proof {
                    assert(v@ =~= udp_scheme_full());
                }
                v
            },
        };
        crate::syslog::append_bytes(&mut r, self.socket_addr().as_slice());
        r
    }
}

/// The bytes a datagram send puts on the wire: a record longer than the
/// maximum payload is cut to exactly that size; one at or below it loses
/// only its trailing delimiter byte.
pub open spec fn datagram_payload_spec(data: Seq<u8>) -> Seq<u8> {
    if data.len() > MAX_UDP_PACKET_SIZE as int {
        data.take(MAX_UDP_PACKET_SIZE as int)
    } else {
        data.take(data.len() - 1)
    }
}

/// Prepares a record for a datagram send, as [`datagram_payload_spec`]
/// states. Records always end with the delimiter, so they are never empty.
pub fn prepare_datagram_payload(data: &[u8]) -> (r: Vec<u8>)
    requires
        data@.len() >= 1,
    ensures
        r@ == datagram_payload_spec(data@),
{
    if data.len() > MAX_UDP_PACKET_SIZE {
        let r = crate::helpers::bytes_range(data, 0, MAX_UDP_PACKET_SIZE);
        proof {
            assert(data@.subrange(0, MAX_UDP_PACKET_SIZE as int) =~= data@.take(
                MAX_UDP_PACKET_SIZE as int,
            ));
        }
        r
    } else {
        let r = crate::helpers::bytes_range(data, 0, data.len() - 1);
        proof {
            assert(data@.subrange(0, data@.len() - 1) =~= data@.take(data@.len() - 1));
        }
        r
    }
}

/// How many times the send-retry loop delivers one record, given the
/// outcomes of its successive attempts: it stops at the first success, so
/// one success delivers once and every failure before it delivers nothing.
pub open spec fn retry_deliveries(outcomes: Seq<bool>) -> nat
    decreases outcomes.len(),
{
    if outcomes.len() == 0 {
        0
    } else if outcomes[0] {
        1
    } else {
        retry_deliveries(outcomes.skip(1))
    }
}

/// The retry loop never delivers one record twice, whatever the attempt
/// outcomes.
pub proof fn lemma_retry_at_most_once(outcomes: Seq<bool>)
    ensures
        retry_deliveries(outcomes) <= 1,
    decreases outcomes.len(),
{
    if outcomes.len() > 0 && !outcomes[0] {
        lemma_retry_at_most_once(outcomes.skip(1));
    }
}

/// After any number of consecutive failed attempts followed by a success,
/// the record that triggered them is delivered exactly once.
pub proof fn lemma_retry_delivers_once(outcomes: Seq<bool>)
    requires
        outcomes.len() > 0,
        forall|k: int| 0 <= k < outcomes.len() - 1 ==> !outcomes[k],
        outcomes.last(),
    ensures
        retry_deliveries(outcomes) == 1,
    decreases outcomes.len(),
{
    if outcomes.len() == 1 {
        assert(outcomes[0]);
    } else {
        assert(!outcomes[0]);
        let tail = outcomes.skip(1);
        assert(tail.last() == outcomes.last());
        assert forall|k: int| 0 <= k < tail.len() - 1 implies !tail[k] by {
            assert(tail[k] == outcomes[k + 1]);
        }
        lemma_retry_delivers_once(tail);
    }
}

// ---------------------------------------------------------------------------
// Destination parsing.
// ---------------------------------------------------------------------------

/// A parsed destination: where records go. A file destination of the bare
/// `file:` form additionally requires its parent directory to exist, which
/// only the filesystem can answer.
pub enum Destination {
    Tcp { addr: Vec<u8> },
    Udp { addr: Vec<u8> },
    File { path: Vec<u8>, verify_parent: bool },
}

/// Why a destination string is refused at parse time.
pub enum DestinationError {
    UnknownScheme,
}

/// `tcp://`
pub open spec fn tcp_scheme_full() -> Seq<u8> {
    seq![116u8, 99u8, 112u8, 58u8, 47u8, 47u8]
}

/// `tcp:`
pub open spec fn tcp_scheme_short() -> Seq<u8> {
    seq![116u8, 99u8, 112u8, 58u8]
}

/// `udp://`
pub open spec fn udp_scheme_full() -> Seq<u8> {
    seq![117u8, 100u8, 112u8, 58u8, 47u8, 47u8]
}

/// `udp:`
pub open spec fn udp_scheme_short() -> Seq<u8> {
    seq![117u8, 100u8, 112u8, 58u8]
}

/// `file://`
pub open spec fn file_scheme_full() -> Seq<u8> {
    seq![102u8, 105u8, 108u8, 101u8, 58u8, 47u8, 47u8]
}

/// `file:`
pub open spec fn file_scheme_short() -> Seq<u8> {
    seq![102u8, 105u8, 108u8, 101u8, 58u8]
}

/// Exactly what [`parse_destination`] yields for a destination string: the
/// first matching scheme prefix, tried in the order `tcp://`, `tcp:`,
/// `udp://`, `udp:`, `file://`, `file:`, claims the rest of the string; any
/// other string is an unknown scheme.
pub open spec fn destination_matches(u: Seq<u8>, r: Result<Destination, DestinationError>) -> bool {
    if tcp_scheme_full().is_prefix_of(u) {
        r matches Ok(d) && d matches Destination::Tcp { addr } && addr@ == u.skip(6)
    } else if tcp_scheme_short().is_prefix_of(u) {
        r matches Ok(d) && d matches Destination::Tcp { addr } && addr@ == u.skip(4)
    } else if udp_scheme_full().is_prefix_of(u) {
        r matches Ok(d) && d matches Destination::Udp { addr } && addr@ == u.skip(6)
    } else if udp_scheme_short().is_prefix_of(u) {
        r matches Ok(d) && d matches Destination::Udp { addr } && addr@ == u.skip(4)
    } else if file_scheme_full().is_prefix_of(u) {
        r matches Ok(d) && d matches Destination::File { path, verify_parent } && path@ == u.skip(7)
            && !verify_parent
    } else if file_scheme_short().is_prefix_of(u) {
        r matches Ok(d) && d matches Destination::File { path, verify_parent } && path@ == u.skip(5)
            && verify_parent
    } else {
        r matches Err(e) && e is UnknownScheme
    }
}

/// Whether `p` is a prefix of `s`.
pub fn has_prefix(s: &[u8], p: &[u8]) -> (r: bool)
    ensures
        r <==> p@.is_prefix_of(s@),
{
    if p.len() > s.len() {
        assert(!p@.is_prefix_of(s@));
        return false;
    }
    let mut i: usize = 0;
    while i < p.len()
        invariant
            0 <= i <= p@.len() <= s@.len(),
            forall|k: int| 0 <= k < i ==> p@[k] == s@[k],
        decreases p@.len() - i,
    {
        if p[i] != s[i] {
            assert(!p@.is_prefix_of(s@));
            return false;
        }
        i = i + 1;
    }
    assert(p@ =~= s@.subrange(0, p@.len() as int));
    true
}

/// Parses the configured destination string: the scheme picks the sink
/// variant, the rest is the address or path. Unknown schemes are refused —
/// a fatal configuration error at startup.
pub fn parse_destination(url: &[u8]) -> (r: Result<Destination, DestinationError>)
    ensures
        destination_matches(url@, r),
{
    let tcp_full: [u8; 6] = [116u8, 99u8, 112u8, 58u8, 47u8, 47u8];
    let udp_full: [u8; 6] = [117u8, 100u8, 112u8, 58u8, 47u8, 47u8];
    let file_full: [u8; 7] = [102u8, 105u8, 108u8, 101u8, 58u8, 47u8, 47u8];
    proof {
        assert(tcp_full@ =~= tcp_scheme_full());
        assert(tcp_full@.subrange(0, 4) =~= tcp_scheme_short());
        assert(udp_full@ =~= udp_scheme_full());
        assert(udp_full@.subrange(0, 4) =~= udp_scheme_short());
        assert(file_full@ =~= file_scheme_full());
        assert(file_full@.subrange(0, 5) =~= file_scheme_short());
    }
    let tcp_short = crate::helpers::bytes_range(&tcp_full, 0, 4);
    let udp_short = crate::helpers::bytes_range(&udp_full, 0, 4);
    let file_short = crate::helpers::bytes_range(&file_full, 0, 5);
    if has_prefix(url, &tcp_full) {
        let addr = crate::helpers::bytes_range(url, 6, url.len());
        proof {
            assert(addr@ =~= url@.skip(6));
        }
        Ok(Destination::Tcp { addr })
    } else if has_prefix(url, tcp_short.as_slice()) {
        let addr = crate::helpers::bytes_range(url, 4, url.len());
        proof {
            assert(addr@ =~= url@.skip(4));
        }
        Ok(Destination::Tcp { addr })
    } else if has_prefix(url, &udp_full) {
        let addr = crate::helpers::bytes_range(url, 6, url.len());
        proof {
            assert(addr@ =~= url@.skip(6));
        }
        Ok(Destination::Udp { addr })
    } else if has_prefix(url, udp_short.as_slice()) {
        let addr = crate::helpers::bytes_range(url, 4, url.len());
        proof {
            assert(addr@ =~= url@.skip(4));
        }
        Ok(Destination::Udp { addr })
    } else if has_prefix(url, &file_full) {
        let path = crate::helpers::bytes_range(url, 7, url.len());
        proof {
            assert(path@ =~= url@.skip(7));
        }
        Ok(Destination::File { path, verify_parent: false })
    } else if has_prefix(url, file_short.as_slice()) {
        let path = crate::helpers::bytes_range(url, 5, url.len());
        proof {
            assert(path@ =~= url@.skip(5));
        }
        Ok(Destination::File { path, verify_parent: true })
    } else {
        Err(DestinationError::UnknownScheme)
    }
}

} // verus!
