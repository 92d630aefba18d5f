//! How long the scheduler may sleep before the next client is due.

use vstd::prelude::*;

verus! {

/// A wait: unbounded when no client is scheduled, otherwise a number of
/// milliseconds.
#[derive(Clone, Copy, Debug, PartialEq, Eq, Structural)]
pub enum Timeout {
    Infinite,
    Duration(u64),
}

impl Timeout {
    /// The value handed to a C-style poll: `-1` for no timeout, otherwise
    /// the milliseconds plus one — so a wait never wakes short of the
    /// deadline when sub-millisecond remainders were rounded away — clamped
    /// to `i32::MAX`.
    pub fn as_c_timeout(&self) -> (t: i32)
        ensures
            t == match *self {
                Timeout::Infinite => -1int,
                Timeout::Duration(ms) => if ms + 1 > i32::MAX { i32::MAX as int } else {
                    ms + 1
                },
            },
    {
        match self {
            Timeout::Infinite => -1,
            Timeout::Duration(ms) => {
                if *ms >= 0x7FFF_FFFF {
                    i32::MAX
                } else {
                    (*ms + 1) as i32
                }
            },
        }
    }

    /// The same wait as whole seconds and the nanoseconds of the remainder,
    /// or nothing for an unbounded wait.
    pub fn as_c_timespec(&self) -> (t: Option<(i64, i64)>)
        ensures
            t == match *self {
                Timeout::Infinite => None::<(i64, i64)>,
                Timeout::Duration(ms) => Some(
                    ((ms / 1000) as i64, ((ms % 1000) * 1000000) as i64),
                ),
            },
    {
        match self {
            Timeout::Infinite => None,
            Timeout::Duration(ms) => Some(((*ms / 1000) as i64, ((*ms % 1000) * 1000000) as i64)),
        }
    }

    /// An optional wait as a timeout: no wait to report means no timeout at
    /// all.
    pub fn from_wait(wait: Option<u64>) -> (t: Timeout)
        ensures
            t == match wait {
                None => Timeout::Infinite,
                Some(ms) => Timeout::Duration(ms),
            },
    {
        match wait {
            None => Timeout::Infinite,
            Some(ms) => Timeout::Duration(ms),
        }
    }
}

} // verus!
