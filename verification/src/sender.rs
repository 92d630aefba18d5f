//! What one write attempt means for a client: sent, try again later, or
//! gone.

use vstd::prelude::*;

verus! {

/// The classes of write failure the scheduler distinguishes.  Everything
/// here except `WouldBlock` loses the client.
#[derive(Clone, Copy, Debug, PartialEq, Eq, Structural)]
pub enum WriteErrorKind {
    WouldBlock,
    ConnectionReset,
    TimedOut,
    BrokenPipe,
    NotConnected,
    Other,
}

/// The outcome of writing a line of `line_len` bytes: success counts the
/// whole line; a would-block counts zero bytes for this tick and keeps the
/// client; any other failure is fatal for the client.
pub open spec fn send_outcome(line_len: u64, error: Option<WriteErrorKind>) -> Result<u64, ()> {
    match error {
        None => Ok(line_len),
        Some(WriteErrorKind::WouldBlock) => Ok(0),
        Some(_) => Err(()),
    }
}

/// Classifies a write attempt, exactly as `send_outcome` says: `error` is
/// what the write returned (`None` when the whole line was written).
pub fn sendline_outcome(line_len: u64, error: Option<WriteErrorKind>) -> (r: Result<u64, ()>)
    ensures
        r == send_outcome(line_len, error),
{
    match error {
        None => Ok(line_len),
        Some(WriteErrorKind::WouldBlock) => Ok(0),
        Some(_) => Err(()),
    }
}

} // verus!
