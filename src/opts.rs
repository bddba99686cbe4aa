//! What the operator asks for: the protocol, the link, the timeout and the
//! command, and the component a version query is about.

use std::time::Duration;
use vstd::prelude::*;

use crate::hex_text::{hex_bytes, is_hex_digit, is_hex_text, parse_code};
use crate::protocol::{ERCP_LIBRARY, FIRMWARE};
use crate::text::same_text;

verus! {

/// The protocol to speak.
#[derive(Debug, Clone, Copy, PartialEq, Eq, Structural)]
pub struct Protocol {
    /// Speak ERCP Basic.
    pub basic: bool,
}

/// The link to the device.
#[derive(Debug, Clone)]
pub struct Connection {
    /// The serial port to open.
    pub port: String,
}

/// How long to wait for replies.
#[derive(Debug, Clone, Copy, PartialEq, Eq, Structural)]
pub struct Options {
    /// The timeout of a command, in seconds.
    pub timeout: u64,
    /// Wait for replies with no timeout of our own.
    pub no_timeout: bool,
}

/// The duration of a whole number of seconds.
pub uninterp spec fn duration_of_secs(secs: u64) -> Duration;

/// Relies on Duration::from_secs: the duration depends on the number of
/// seconds alone.
pub assume_specification[ core::time::Duration::from_secs ](secs: u64) -> (r: Duration)
    ensures
        r == duration_of_secs(secs),
;

impl Options {
    /// The timeout to hand to each command: none when disabled.
    pub fn timeout(&self) -> (r: Option<Duration>)
        ensures
            self.no_timeout ==> r is None,
            !self.no_timeout ==> r == Some(duration_of_secs(self.timeout)),
    {
        if self.no_timeout {
            None
        } else {
            Some(Duration::from_secs(self.timeout))
        }
    }
}

/// A software component in the device.
#[derive(Debug, Clone, Copy, PartialEq, Eq, Structural)]
pub enum Component {
    Firmware,
    Ercp,
    Other(u8),
}

/// Text that names no component.
#[derive(Debug, Clone, Copy, PartialEq, Eq, Structural)]
pub struct ParseComponentError;

/// The component a text names: `firmware` or `fw`, `ercp`, or a byte written
/// as two hex digits.
pub open spec fn component_of(s: Seq<char>) -> Option<Component> {
    if s == "firmware"@ || s == "fw"@ {
        Some(Component::Firmware)
    } else if s == "ercp"@ {
        Some(Component::Ercp)
    } else if s.len() == 2 && is_hex_text(s) {
        Some(Component::Other(hex_bytes(s)[0]))
    } else {
        None
    }
}

impl Component {
    /// The byte that identifies the component on the wire.
    pub open spec fn wire_spec(self) -> u8 {
        match self {
            Component::Firmware => FIRMWARE,
            Component::Ercp => ERCP_LIBRARY,
            Component::Other(b) => b,
        }
    }

    /// Reads a component from its text.
    pub fn parse(s: &str) -> (r: Result<Component, ParseComponentError>)
        ensures
            match component_of(s@) {
                Some(c) => r == Ok::<Component, ParseComponentError>(c),
                None => r is Err,
            },
    {
        if same_text(s, "firmware") || same_text(s, "fw") {
            Ok(Component::Firmware)
        } else if same_text(s, "ercp") {
            Ok(Component::Ercp)
        } else {
            match parse_code(s) {
                Ok(b) => Ok(Component::Other(b)),
                Err(_) => Err(ParseComponentError),
            }
        }
    }

    /// The byte that identifies the component on the wire.
    pub fn wire_id(&self) -> (r: u8)
        ensures
            r == self.wire_spec(),
    {
        match self {
            Component::Firmware => FIRMWARE,
            Component::Ercp => ERCP_LIBRARY,
            Component::Other(b) => *b,
        }
    }
}

impl std::str::FromStr for Component {
    type Err = ParseComponentError;

    fn from_str(s: &str) -> (r: Result<Component, ParseComponentError>)
        ensures
            match component_of(s@) {
                Some(c) => r == Ok::<Component, ParseComponentError>(c),
                None => r is Err,
            },
    {
        Component::parse(s)
    }
}

impl<'a> From<&'a Component> for u8 {
    fn from(c: &'a Component) -> u8 {
        c.wire_id()
    }
}

impl<'a> vstd::std_specs::convert::FromSpecImpl<&'a Component> for u8 {
    open spec fn obeys_from_spec() -> bool {
        true
    }

    open spec fn from_spec(c: &'a Component) -> u8 {
        c.wire_spec()
    }
}

/// `firmware` and `fw` both name the firmware, and so share its wire byte;
/// `ercp` names the protocol library.
pub proof fn lemma_component_aliases()
    ensures
        component_of("firmware"@) == Some(Component::Firmware),
        component_of("fw"@) == Some(Component::Firmware),
        component_of("firmware"@).unwrap().wire_spec() == component_of("fw"@).unwrap().wire_spec(),
        component_of("ercp"@) == Some(Component::Ercp),
{
    reveal_strlit("fw");
    reveal_strlit("firmware");
    reveal_strlit("ercp");
    assert("ercp"@.len() == 4 && "fw"@.len() == 2 && "firmware"@.len() == 8);
}

/// Two hex digits name the component with that byte, whose wire byte is that
/// byte; text that is neither an alias nor two hex digits names none.
pub proof fn lemma_component_hex(s: Seq<char>)
    ensures
        s.len() == 2 && is_hex_text(s) ==> {
            &&& component_of(s) == Some(Component::Other(hex_bytes(s)[0]))
            &&& component_of(s).unwrap().wire_spec() == hex_bytes(s)[0]
        },
        s != "firmware"@ && s != "fw"@ && s != "ercp"@ && !(s.len() == 2 && is_hex_text(s))
            ==> component_of(s) is None,
{
    reveal_strlit("fw");
    reveal_strlit("firmware");
    reveal_strlit("ercp");
    if s.len() == 2 && is_hex_text(s) {
        assert(is_hex_digit(s[1]));
        assert(s != "fw"@);
        assert(s != "firmware"@);
        assert(s != "ercp"@);
    }
}

/// The commands every device understands.
#[derive(Debug, Clone)]
pub enum BuiltinCommand {
    /// Tests communication with the device.
    Ping,
    /// Resets the device.
    Reset,
    /// Gets the protocol version.
    Protocol,
    /// Gets the version of a component.
    Version { component: Component },
    /// Gets the maximum accepted value length.
    MaxLength,
    /// Gets the device description.
    Description,
    /// Sends a custom command.
    Command { command: String, value: Option<String> },
    /// Waits for and prints logs sent by the device.
    Log,
}

/// The whole of what the operator asked for.
#[derive(Debug, Clone)]
pub struct Opts {
    pub protocol: Protocol,
    pub connection: Connection,
    pub options: Options,
    pub command: BuiltinCommand,
}

} // verus!
