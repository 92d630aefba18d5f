//! Log-level filtering: which messages the process logger lets through.

use vstd::prelude::*;
use vstd::string::*;
use crate::text::dec_chars;

verus! {

/// Logging verbosity, from nothing at all to debug chatter.
#[derive(Clone, Copy, Debug, PartialEq, Eq, Structural)]
pub enum LogLevel {
    Silent,
    Info,
    Debug,
}

/// The numeric code of a level: silent logs nothing, debug logs everything.
pub open spec fn level_rank(l: LogLevel) -> nat {
    match l {
        LogLevel::Silent => 0,
        LogLevel::Info => 1,
        LogLevel::Debug => 2,
    }
}

impl LogLevel {
    /// The numeric code of this level.
    pub fn code(&self) -> (v: u8)
        ensures
            v == level_rank(*self),
    {
        match self {
            LogLevel::Silent => 0,
            LogLevel::Info => 1,
            LogLevel::Debug => 2,
        }
    }

    /// Parses a numeric level code: exactly the codes 0, 1 and 2 are levels;
    /// anything else is rejected with a message naming the value.
    pub fn from_code(v: u8) -> (r: Result<LogLevel, String>)
        ensures
            match r {
                Ok(l) => v <= 2 && level_rank(l) == v,
                Err(m) => v > 2 && m@ == "Couldn't convert "@ + dec_chars(v as nat)
                    + " into `LogLevel`"@,
            },
    {
        match v {
            0 => Ok(LogLevel::Silent),
            1 => Ok(LogLevel::Info),
            2 => Ok(LogLevel::Debug),
            _ => {
                let mut m = String::from_str("Couldn't convert ");
                let code = crate::text::u64_to_string(v as u64);
                m.append(code.as_str());
                m.append(" into `LogLevel`");
                Err(m)
            },
        }
    }
}

/// The logger's filter: a message at `level` goes out exactly when the
/// configured level admits it.  What goes out is the message itself; the
/// caller prepends its timestamp and picks stdout or syslog.
pub fn logmsg(set_level: LogLevel, level: LogLevel, message: String) -> (out: Option<String>)
    ensures
        out == if level_rank(level) <= level_rank(set_level) {
            Some(message)
        } else {
            None::<String>
        },
{
    let admitted = level.code() <= set_level.code();
    if admitted {
        Some(message)
    } else {
        None
    }
}

} // verus!
