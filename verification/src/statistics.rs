//! The statistics aggregator: monotone counters driven by events, and the
//! totals report.

use vstd::prelude::*;
use vstd::string::*;
use crate::text::dec_chars;
use crate::time::elapsed_chars;
use crate::time::format_elapsed;

verus! {

/// One event for the aggregator.  Every producer reports through these; the
/// single owner of the counters applies them in arrival order.
#[derive(Clone, Copy, Debug, PartialEq, Eq, Structural)]
pub enum StatisticsMessage {
    ProcessedClient,
    LostClient,
    BytesSent(u64),
    TimeSpent(u64),
    /// Connects += 1
    NewClient,
    LogTotals,
}

/// The aggregate counters.  All fields are non-decreasing over the life of
/// the process; additions saturate rather than wrap.
#[derive(Clone, Copy, Debug, PartialEq, Eq, Structural)]
pub struct Statistics {
    pub bytes_sent: u64,
    pub connects: u64,
    pub lost_clients: u64,
    pub processed_clients: u64,
    pub time_spent_ms: u64,
}

/// The counters after applying one message.
pub open spec fn stats_after(s: Statistics, message: StatisticsMessage) -> Statistics {
    match message {
        StatisticsMessage::ProcessedClient => Statistics {
            processed_clients: s.processed_clients.saturating_add(1),
            ..s
        },
        StatisticsMessage::LostClient => Statistics {
            lost_clients: s.lost_clients.saturating_add(1),
            ..s
        },
        StatisticsMessage::BytesSent(n) => Statistics {
            bytes_sent: s.bytes_sent.saturating_add(n),
            ..s
        },
        StatisticsMessage::TimeSpent(ms) => Statistics {
            time_spent_ms: s.time_spent_ms.saturating_add(ms),
            ..s
        },
        StatisticsMessage::NewClient => Statistics { connects: s.connects.saturating_add(1), ..s },
        StatisticsMessage::LogTotals => s,
    }
}

impl Statistics {
    /// Fresh counters, all zero.
    pub fn new() -> (s: Statistics)
        ensures
            s == (Statistics {
                bytes_sent: 0,
                connects: 0,
                lost_clients: 0,
                processed_clients: 0,
                time_spent_ms: 0,
            }),
    {
        Statistics {
            bytes_sent: 0,
            connects: 0,
            lost_clients: 0,
            processed_clients: 0,
            time_spent_ms: 0,
        }
    }

    /// Applies one message to the counters.  Returns whether the caller was
    /// asked to emit the totals report; no other message requests output.
    /// Every counter is non-decreasing across the call.
    pub fn apply(&mut self, message: StatisticsMessage) -> (log_requested: bool)
        ensures
            *final(self) == stats_after(*old(self), message),
            log_requested == (message is LogTotals),
            old(self).bytes_sent <= final(self).bytes_sent,
            old(self).connects <= final(self).connects,
            old(self).lost_clients <= final(self).lost_clients,
            old(self).processed_clients <= final(self).processed_clients,
            old(self).time_spent_ms <= final(self).time_spent_ms,
    {
        match message {
            StatisticsMessage::ProcessedClient => {
                self.processed_clients = self.processed_clients.saturating_add(1);
                false
            },
            StatisticsMessage::LostClient => {
                self.lost_clients = self.lost_clients.saturating_add(1);
                false
            },
            StatisticsMessage::BytesSent(n) => {
                self.bytes_sent = self.bytes_sent.saturating_add(n);
                false
            },
            StatisticsMessage::TimeSpent(ms) => {
                self.time_spent_ms = self.time_spent_ms.saturating_add(ms);
                false
            },
            StatisticsMessage::NewClient => {
                self.connects = self.connects.saturating_add(1);
                false
            },
            StatisticsMessage::LogTotals => true,
        }
    }

    /// The totals report, one line: the number of connects, the time spent
    /// spelled out, and the bytes sent.
    pub fn log_totals(&self) -> (s: String)
        ensures
            s@ == "TOTALS connects="@ + dec_chars(self.connects as nat) + " time_spent="@
                + elapsed_chars(self.time_spent_ms as nat) + " bytes_sent="@ + dec_chars(
                self.bytes_sent as nat,
            ),
    {
        let mut s = String::from_str("TOTALS connects=");
        let connects = crate::text::u64_to_string(self.connects);
        s.append(connects.as_str());
        s.append(" time_spent=");
        let elapsed = format_elapsed(self.time_spent_ms);
        s.append(elapsed.as_str());
        s.append(" bytes_sent=");
        let bytes = crate::text::u64_to_string(self.bytes_sent);
        s.append(bytes.as_str());
        proof {
            assert(s@ =~= "TOTALS connects="@ + dec_chars(self.connects as nat) + " time_spent="@
                + elapsed_chars(self.time_spent_ms as nat) + " bytes_sent="@ + dec_chars(
                self.bytes_sent as nat,
            ));
        }
        s
    }
}

impl Default for Statistics {
    /// Fresh counters, identical to `Statistics::new`.
    fn default() -> (s: Statistics)
        ensures
            s == (Statistics {
                bytes_sent: 0,
                connects: 0,
                lost_clients: 0,
                processed_clients: 0,
                time_spent_ms: 0,
            }),
    {
        Statistics::new()
    }
}

} // verus!
