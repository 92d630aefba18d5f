//! Server configuration: immutable after startup, validated on the way in.

use vstd::prelude::*;
use vstd::string::*;
use crate::text::dec_chars;

verus! {

pub const DEFAULT_PORT: u16 = 2223;

pub const DEFAULT_DELAY_MS: u64 = 10000;

pub const DEFAULT_MAX_LINE_LENGTH: usize = 32;

pub const DEFAULT_MAX_CLIENTS: u64 = 64;

/// Which address families the listener binds.
#[derive(Clone, Copy, Debug, PartialEq, Eq, Structural)]
pub enum BindFamily {
    Ipv4,
    Ipv6,
    DualStack,
}

/// The display name of a bind family.
pub open spec fn family_chars(f: BindFamily) -> Seq<char> {
    match f {
        BindFamily::Ipv4 => "IPv4"@,
        BindFamily::Ipv6 => "IPv6"@,
        BindFamily::DualStack => "Dual Stack"@,
    }
}

impl BindFamily {
    /// The display name of this bind family.
    pub fn name(&self) -> (s: String)
        ensures
            s@ == family_chars(*self),
    {
        match self {
            BindFamily::Ipv4 => String::from_str("IPv4"),
            BindFamily::Ipv6 => String::from_str("IPv6"),
            BindFamily::DualStack => String::from_str("Dual Stack"),
        }
    }
}

/// The runtime configuration of the tarpit.
///
/// `delay_ms` is the pause between two lines to one client, `max_line_length`
/// bounds the generated banner lines, and `max_clients` is the capacity of
/// the admission gate.
#[derive(Clone, Copy, Debug, PartialEq, Eq, Structural)]
pub struct Config {
    pub port: u16,
    pub delay_ms: u64,
    pub max_line_length: usize,
    pub max_clients: u64,
    pub bind_family: BindFamily,
}

impl Config {
    /// A valid configuration: positive port and delay, a line length bound
    /// inside the protocol's window, and at least one client slot.
    pub open spec fn wf(&self) -> bool {
        &&& 1 <= self.port
        &&& 1 <= self.delay_ms <= 0xFFFF_FFFF
        &&& 3 <= self.max_line_length <= 255
        &&& 1 <= self.max_clients
    }

    /// The default configuration.
    pub fn new() -> (c: Config)
        ensures
            c.wf(),
            c.port == DEFAULT_PORT,
            c.delay_ms == DEFAULT_DELAY_MS,
            c.max_line_length == DEFAULT_MAX_LINE_LENGTH,
            c.max_clients == DEFAULT_MAX_CLIENTS,
            c.bind_family == BindFamily::DualStack,
    {
        Config {
            port: DEFAULT_PORT,
            delay_ms: DEFAULT_DELAY_MS,
            max_line_length: DEFAULT_MAX_LINE_LENGTH,
            max_clients: DEFAULT_MAX_CLIENTS,
            bind_family: BindFamily::DualStack,
        }
    }

    pub fn set_port(&mut self, port: u16)
        requires
            1 <= port,
        ensures
            *final(self) == (Config { port, ..*old(self) }),
    {
        self.port = port;
    }

    pub fn set_delay(&mut self, delay_ms: u64)
        requires
            1 <= delay_ms <= 0xFFFF_FFFF,
        ensures
            *final(self) == (Config { delay_ms, ..*old(self) }),
    {
        self.delay_ms = delay_ms;
    }

    pub fn set_max_clients(&mut self, max_clients: u64)
        requires
            1 <= max_clients,
        ensures
            *final(self) == (Config { max_clients, ..*old(self) }),
    {
        self.max_clients = max_clients;
    }

    pub fn set_max_line_length(&mut self, max_line_length: usize)
        requires
            3 <= max_line_length <= 255,
        ensures
            *final(self) == (Config { max_line_length, ..*old(self) }),
    {
        self.max_line_length = max_line_length;
    }

    pub fn set_bind_family_ipv4_only(&mut self)
        ensures
            *final(self) == (Config { bind_family: BindFamily::Ipv4, ..*old(self) }),
    {
        self.bind_family = BindFamily::Ipv4;
    }

    pub fn set_bind_family_dual_stack(&mut self)
        ensures
            *final(self) == (Config { bind_family: BindFamily::DualStack, ..*old(self) }),
    {
        self.bind_family = BindFamily::DualStack;
    }

    pub fn set_bind_family_ipv6_only(&mut self)
        ensures
            *final(self) == (Config { bind_family: BindFamily::Ipv6, ..*old(self) }),
    {
        self.bind_family = BindFamily::Ipv6;
    }

    /// The configuration report, one line per field, exactly as it is logged
    /// at startup.
    pub fn log(&self) -> (lines: Vec<String>)
        ensures
            lines@.len() == 5,
            lines@[0]@ == "Port: "@ + dec_chars(self.port as nat),
            lines@[1]@ == "Delay: "@ + dec_chars(self.delay_ms as nat) + "ms"@,
            lines@[2]@ == "MaxLineLength: "@ + dec_chars(self.max_line_length as nat),
            lines@[3]@ == "MaxClients: "@ + dec_chars(self.max_clients as nat),
            lines@[4]@ == "BindFamily: "@ + family_chars(self.bind_family),
    {
        let mut lines: Vec<String> = Vec::new();

        let mut port_line = String::from_str("Port: ");
        let port = crate::text::u64_to_string(self.port as u64);
        port_line.append(port.as_str());
        lines.push(port_line);

        let mut delay_line = String::from_str("Delay: ");
        let delay = crate::text::u64_to_string(self.delay_ms);
        delay_line.append(delay.as_str());
        delay_line.append("ms");
        lines.push(delay_line);

        let mut length_line = String::from_str("MaxLineLength: ");
        let length = crate::text::u64_to_string(self.max_line_length as u64);
        length_line.append(length.as_str());
        lines.push(length_line);

        let mut clients_line = String::from_str("MaxClients: ");
        let clients = crate::text::u64_to_string(self.max_clients);
        clients_line.append(clients.as_str());
        lines.push(clients_line);

        let mut family_line = String::from_str("BindFamily: ");
        let family = self.bind_family.name();
        family_line.append(family.as_str());
        lines.push(family_line);

        lines
    }
}

impl Default for Config {
    /// The default configuration, identical to `Config::new`.
    fn default() -> (c: Config)
        ensures
            c.wf(),
            c == (Config {
                port: DEFAULT_PORT,
                delay_ms: DEFAULT_DELAY_MS,
                max_line_length: DEFAULT_MAX_LINE_LENGTH,
                max_clients: DEFAULT_MAX_CLIENTS,
                bind_family: BindFamily::DualStack,
            }),
    {
        Config::new()
    }
}

} // verus!
