//! Human-readable rendering of durations, as the totals report prints them.

use vstd::prelude::*;
use vstd::string::*;
use crate::text::{ascii_chars, dec_bytes, dec_chars, pad3_chars, u64_to_string, pad3_to_string};

verus! {

pub const MS_PER_SECOND: u64 = 1000;

pub const MS_PER_MINUTE: u64 = 60000;

pub const MS_PER_HOUR: u64 = 3600000;

pub const MS_PER_DAY: u64 = 86400000;

pub const MS_PER_WEEK: u64 = 604800000;

/// `seconds.milliseconds` with the milliseconds zero-padded to three digits.
pub open spec fn duration_chars(ms: nat) -> Seq<char> {
    dec_chars(ms / (MS_PER_SECOND as nat)) + "."@ + pad3_chars(ms % 1000)
}

/// Renders a duration of `ms` milliseconds as `seconds.milliseconds`.
pub fn format_duration(ms: u64) -> (s: String)
    ensures
        s@ == duration_chars(ms as nat),
{
    let mut s = u64_to_string(ms / MS_PER_SECOND);
    s.append(".");
    let p = pad3_to_string(ms % 1000);
    s.append(p.as_str());
    proof {
        assert(s@ =~= duration_chars(ms as nat));
    }
    s
}

/// A duration spelled out as whole weeks, days, hours, minutes and seconds.
/// Each figure is the total number of whole units in the duration, not the
/// remainder after the larger unit.
pub open spec fn elapsed_chars(ms: nat) -> Seq<char> {
    dec_chars(ms / (MS_PER_WEEK as nat)) + " week(s), "@ + dec_chars(ms / (MS_PER_DAY as nat))
        + " day(s), "@ + dec_chars(ms / (MS_PER_HOUR as nat)) + " hour(s), "@ + dec_chars(
        ms / (MS_PER_MINUTE as nat),
    ) + " minute(s), "@ + dec_chars(ms / (MS_PER_SECOND as nat)) + "."@ + pad3_chars(ms % 1000)
        + " second(s)"@
}

/// Renders a duration of `ms` milliseconds in the spelled-out form above.
pub fn format_elapsed(ms: u64) -> (s: String)
    ensures
        s@ == elapsed_chars(ms as nat),
{
    let mut s = u64_to_string(ms / MS_PER_WEEK);
    s.append(" week(s), ");
    let days = u64_to_string(ms / MS_PER_DAY);
    s.append(days.as_str());
    s.append(" day(s), ");
    let hours = u64_to_string(ms / MS_PER_HOUR);
    s.append(hours.as_str());
    s.append(" hour(s), ");
    let minutes = u64_to_string(ms / MS_PER_MINUTE);
    s.append(minutes.as_str());
    s.append(" minute(s), ");
    let seconds = u64_to_string(ms / MS_PER_SECOND);
    s.append(seconds.as_str());
    s.append(".");
    let millis = pad3_to_string(ms % 1000);
    s.append(millis.as_str());
    s.append(" second(s)");
    proof {
        assert(s@ =~= elapsed_chars(ms as nat));
    }
    s
}

} // verus!
