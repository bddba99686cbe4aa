//! The ERCP Basic vocabulary: command codes, component identifiers, frames and
//! the errors of the protocol engine.

use std::time::Duration;
use vstd::prelude::*;
use vstd::string::*;

verus! {

/// Checks that the device is alive.
pub const PING: u8 = 0x00;
/// Positive acknowledgment.
pub const ACK: u8 = 0x01;
/// Negative acknowledgment.
pub const NACK: u8 = 0x02;
/// Asks the device to restart.
pub const RESET: u8 = 0x03;
/// Asks for the protocol version.
pub const PROTOCOL: u8 = 0x04;
/// Carries the protocol version.
pub const PROTOCOL_REPLY: u8 = 0x05;
/// Asks for the version of a component.
pub const VERSION: u8 = 0x06;
/// Carries the version of a component.
pub const VERSION_REPLY: u8 = 0x07;
/// Asks for the longest value the device accepts.
pub const MAX_LENGTH: u8 = 0x08;
/// Carries the longest value the device accepts.
pub const MAX_LENGTH_REPLY: u8 = 0x09;
/// Asks for the device description.
pub const DESCRIPTION: u8 = 0x0A;
/// Carries the device description.
pub const DESCRIPTION_REPLY: u8 = 0x0B;
/// An unsolicited log message from the device.
pub const LOG: u8 = 0xB0;

/// The identifier of the firmware component.
pub const FIRMWARE: u8 = 0x00;
/// The identifier of the ERCP library component.
pub const ERCP_LIBRARY: u8 = 0x01;

/// The longest value a frame can carry: its length is written on one byte.
pub const MAX_VALUE_LENGTH: u8 = 255;

/// A protocol version.
#[derive(Debug, Clone, Copy, PartialEq, Eq, Structural)]
pub struct Version {
    pub major: u8,
    pub minor: u8,
    pub patch: u8,
}

/// A frame handed over by the protocol engine: a reply or a notification.
#[derive(Debug, Clone, PartialEq, Eq)]
pub struct Frame {
    pub code: u8,
    pub value: Vec<u8>,
}

/// A request for the protocol engine: the frame to send and how long to wait
/// for its reply (`None`: as long as the engine itself waits).
#[derive(Debug, Clone, PartialEq, Eq)]
pub struct Request {
    pub code: u8,
    pub value: Vec<u8>,
    pub timeout: Option<Duration>,
}

/// A failure of the protocol engine while a frame was sent or received.
#[derive(Debug, Clone, Copy, PartialEq, Eq, Structural)]
pub enum CommandError {
    /// Reading from or writing to the link failed.
    Io,
    /// No complete reply came in time.
    Timeout,
    /// The device rejected the frame each time it was sent.
    TooManyRetries,
    /// A received frame was malformed.
    Malformed,
}

impl CommandError {
    /// Whether the link itself failed, as opposed to the protocol.
    pub open spec fn is_transport(self) -> bool {
        self is Io
    }

    pub open spec fn message_spec(self) -> Seq<char> {
        match self {
            CommandError::Io => "the serial link failed"@,
            CommandError::Timeout => "the device did not reply in time"@,
            CommandError::TooManyRetries => "the device rejected the frame too many times"@,
            CommandError::Malformed => "a malformed frame was received"@,
        }
    }

    /// A short text that names the failure.
    pub fn message(&self) -> (r: String)
        ensures
            r@ == self.message_spec(),
    {
        match self {
            CommandError::Io => String::from_str("the serial link failed"),
            CommandError::Timeout => String::from_str("the device did not reply in time"),
            CommandError::TooManyRetries => String::from_str(
                "the device rejected the frame too many times",
            ),
            CommandError::Malformed => String::from_str("a malformed frame was received"),
        }
    }
}

/// A command value that is too long to be sent.
#[derive(Debug, Clone, Copy, PartialEq, Eq, Structural)]
pub enum NewCommandError {
    TooLong,
}

/// A command ready to be sent: a code and a value no longer than the ceiling
/// it was built against.
#[derive(Debug, Clone)]
pub struct Command {
    code: u8,
    value: Vec<u8>,
    max_length: u8,
}

impl Command {
    pub closed spec fn code_spec(&self) -> u8 {
        self.code
    }

    pub closed spec fn value_spec(&self) -> Seq<u8> {
        self.value@
    }

    pub closed spec fn max_length_spec(&self) -> u8 {
        self.max_length
    }

    /// The value fits under the ceiling.
    pub closed spec fn wf(&self) -> bool {
        self.value@.len() <= self.max_length
    }

    /// Builds a command, refusing a value longer than `max_length`.
    pub fn new(code: u8, value: &[u8], max_length: u8) -> (r: Result<Command, NewCommandError>)
        ensures
            r is Ok <==> value@.len() <= max_length,
        value@.len() > max_length ==> r == Err::<Command, NewCommandError>(NewCommandError::TooLong),
            r matches Ok(c) ==> {
                &&& c.wf()
                &&& c.code_spec() == code
                &&& c.value_spec() == value@
                &&& c.max_length_spec() == max_length
            },
    {
        if value.len() <= max_length as usize {
            Ok(Command { code, value: vstd::slice::slice_to_vec(value), max_length })
        } else {
            Err(NewCommandError::TooLong)
        }
    }

    pub fn code(&self) -> (r: u8)
        ensures
            r == self.code_spec(),
    {
        self.code
    }

    pub fn value(&self) -> (r: &Vec<u8>)
        ensures
            r@ == self.value_spec(),
    {
        &self.value
    }

    pub fn max_length(&self) -> (r: u8)
        ensures
            r == self.max_length_spec(),
    {
        self.max_length
    }
}

} // verus!
