//! The accept loop's decisions: which accept failures are survivable, and
//! which address family the listening socket uses.

use vstd::prelude::*;
use crate::config::BindFamily;

verus! {

/// The classes of failure an accept can report.  The named ones are the
/// recoverable conditions: exhausted descriptors or buffers, an aborted
/// connection, an interrupting signal, or a protocol error.
#[derive(Clone, Copy, Debug, PartialEq, Eq, Structural)]
pub enum AcceptError {
    ProcessFileLimit,
    SystemFileLimit,
    ConnectionAborted,
    Interrupted,
    NoBufferSpace,
    OutOfMemory,
    Protocol,
    Other,
}

/// Transient failures are logged and the loop keeps accepting; anything
/// unrecognised is fatal and stops the listener.
pub open spec fn is_transient(e: AcceptError) -> bool {
    !(e is Other)
}

/// Classifies an accept failure: `true` to keep accepting, `false` to stop.
pub fn classify_accept_error(e: &AcceptError) -> (transient: bool)
    ensures
        transient == is_transient(*e),
{
    match e {
        AcceptError::Other => false,
        _ => true,
    }
}

/// Whether the listener binds an IPv6 socket: only an IPv4-only
/// configuration binds the unspecified IPv4 address; IPv6-only and dual
/// stack both bind the unspecified IPv6 address (the dual-stack behaviour
/// itself is the operating system's default).
pub fn binds_ipv6(family: &BindFamily) -> (v6: bool)
    ensures
        v6 == !(*family is Ipv4),
{
    match family {
        BindFamily::Ipv4 => false,
        _ => true,
    }
}

} // verus!
