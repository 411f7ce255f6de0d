//! Core of a container-log forwarder: discovers running containers, tails
//! their combined stdout/stderr, rewrites every line as a syslog record and
//! hands the records to a single delivery sink through one bounded channel.
//!
//! This crate holds the verified logic: the syslog formatter, log-line
//! parsing, the per-container collector state (watermark, app-name
//! resolution), the destination parser and sink state machine, the bounded
//! channel model and the orchestrator bookkeeping. The surrounding I/O
//! (container runtime, sockets, signals) lives outside the library and calls
//! into it with plain values.

use vstd::prelude::*;

pub mod channel;
pub mod clock;
pub mod container_logs;
pub mod emitter;
pub mod helpers;
pub mod orchestrator;
pub mod syslog;

verus! {

/// Process-wide configuration, read once at startup and passed explicitly
/// into every component that needs it.
#[derive(Clone, Copy)]
pub struct EmitterConfig {
    /// Selects the legacy wire format instead of the structured one.
    pub use_rfc3164: bool,
    /// Enables per-line resolution of the running executable's name.
    pub use_exec_pid: bool,
}

/// Relies on `hostname::get`: the machine's hostname, if the platform hands
/// one out as valid UTF-8.
#[verifier::external_body]
fn get_hostname() -> (r: Option<Vec<u8>>)
{
    hostname::get().ok().and_then(|h| h.into_string().ok()).map(String::into_bytes)
}

/// The bytes of `localhost`, the stand-in hostname.
pub open spec fn localhost_bytes() -> Seq<u8> {
    seq![108u8, 111u8, 99u8, 97u8, 108u8, 104u8, 111u8, 115u8, 116u8]
}

/// The hostname to stamp on records, given what the machine reports: the
/// reported name as it stands, or `localhost` when there is none.
pub fn hostname_or_default(machine: Option<Vec<u8>>) -> (r: Vec<u8>)
    ensures
        r@ == match machine {
            Some(h) => h@,
            None => localhost_bytes(),
        },
{
    match machine {
        Some(h) => h,
        None => {
            let r: Vec<u8> = vec![108u8, 111u8, 99u8, 97u8, 108u8, 104u8, 111u8, 115u8, 116u8];
            proof {
                assert(r@ =~= localhost_bytes());
            }
            r
        },
    }
}

/// The hostname placed in every record's header: the machine's own name, or
/// `localhost` when it cannot be read.
pub fn resolve_hostname() -> (r: Vec<u8>) {
    hostname_or_default(get_hostname())
}

} // verus!
