//! Core of an SSH tarpit: a TCP server that holds clients open and feeds each
//! of them an endless stream of slow, randomized banner lines.
//!
//! This crate is the verified heart of the server: the line generator, the
//! configuration, the admission accounting, the per-client scheduling
//! decisions and the statistics.  Everything that touches the network, the
//! clock or the process environment stays outside; the functions here take
//! plain values (timestamps in milliseconds, write outcomes, error classes)
//! and return plain values, so that every decision the server makes is
//! checked against its contract.

pub mod admission;
pub mod client;
pub mod client_queue;
pub mod config;
pub mod line;
pub mod listener;
pub mod log;
pub mod sender;
pub mod statistics;
pub mod text;
pub mod time;
pub mod timeout;
pub mod urls;

pub use admission::AdmissionGate;
pub use admission::SlotToken;
pub use client::Client;
pub use client_queue::ClientQueue;
pub use config::BindFamily;
pub use config::Config;
pub use line::line_from_draws;
pub use line::randline;
pub use listener::binds_ipv6;
pub use listener::classify_accept_error;
pub use listener::AcceptError;
pub use log::logmsg;
pub use log::LogLevel;
pub use sender::sendline_outcome;
pub use sender::WriteErrorKind;
pub use statistics::Statistics;
pub use statistics::StatisticsMessage;
pub use text::u64_to_string;
pub use time::format_duration;
pub use time::format_elapsed;
pub use timeout::Timeout;
pub use urls::add_segments;
pub use urls::UrlError;
