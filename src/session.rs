//! The device session: what each operation sends, and what each reply means.
//!
//! The protocol engine sits between the two halves of every operation. A
//! request is built here, the engine sends it and waits for one reply, and the
//! reply (or the engine's failure) is read back here into the operation's
//! own outcome.

use std::time::Duration;
use vstd::prelude::*;
use vstd::string::*;
use vstd::utf8::{decode_utf8, valid_utf8};

use crate::hex_text::{
    hex_bytes, hex_text, is_hex_text, lemma_code_round_trip, lower_hex, parse_code, parse_value,
};
use crate::protocol::{
    Command, CommandError, Frame, NewCommandError, Request, Version, ACK, DESCRIPTION,
    DESCRIPTION_REPLY, LOG, MAX_LENGTH, MAX_LENGTH_REPLY, PING, PROTOCOL, PROTOCOL_REPLY, RESET,
    VERSION, VERSION_REPLY,
};

verus! {

/// The outcome of an operation: a failure of the engine, or the reading of
/// the device's reply.
pub type CommandResult<T, E> = Result<Result<T, E>, CommandError>;

/// A reply that does not answer the request.
#[derive(Debug, Clone, Copy, PartialEq, Eq, Structural)]
pub enum ReplyError {
    /// The reply has the wrong code or the wrong length.
    UnexpectedReply,
    /// The reply should hold text, and is not valid UTF-8.
    NotText,
}

impl ReplyError {
    pub open spec fn message_spec(self) -> Seq<char> {
        match self {
            ReplyError::UnexpectedReply => "unexpected reply"@,
            ReplyError::NotText => "the received string is not valid UTF-8"@,
        }
    }

    /// A short text that names the error.
    pub fn message(&self) -> (r: String)
        ensures
            r@ == self.message_spec(),
    {
        match self {
            ReplyError::UnexpectedReply => String::from_str("unexpected reply"),
            ReplyError::NotText => String::from_str("the received string is not valid UTF-8"),
        }
    }
}

/// An error that can happen when sending a custom command.
#[derive(Debug, Clone, Copy, PartialEq, Eq, Structural)]
pub enum CustomCommandError {
    /// The code is not a byte written as two hex digits.
    InvalidCode,
    /// The value is not hex text.
    InvalidValue,
    /// The command could not be built.
    NewCommandError(NewCommandError),
    /// The command was sent, and the engine failed.
    CommandError(CommandError),
}

impl CustomCommandError {
    pub open spec fn message_spec(self) -> Seq<char> {
        match self {
            CustomCommandError::InvalidCode => "the code is not a two-digit hex byte"@,
            CustomCommandError::InvalidValue => "the value is not valid hex"@,
            CustomCommandError::NewCommandError(_) => "the value is too long"@,
            CustomCommandError::CommandError(e) => e.message_spec(),
        }
    }

    /// A short text that names the error.
    pub fn message(&self) -> (r: String)
        ensures
            r@ == self.message_spec(),
    {
        match self {
            CustomCommandError::InvalidCode => String::from_str(
                "the code is not a two-digit hex byte",
            ),
            CustomCommandError::InvalidValue => String::from_str("the value is not valid hex"),
            CustomCommandError::NewCommandError(_) => String::from_str("the value is too long"),
            CustomCommandError::CommandError(e) => e.message(),
        }
    }
}

impl From<NewCommandError> for CustomCommandError {
    fn from(e: NewCommandError) -> CustomCommandError {
        CustomCommandError::NewCommandError(e)
    }
}

impl vstd::std_specs::convert::FromSpecImpl<NewCommandError> for CustomCommandError {
    open spec fn obeys_from_spec() -> bool {
        true
    }

    open spec fn from_spec(e: NewCommandError) -> CustomCommandError {
        CustomCommandError::NewCommandError(e)
    }
}

impl From<CommandError> for CustomCommandError {
    fn from(e: CommandError) -> CustomCommandError {
        CustomCommandError::CommandError(e)
    }
}

impl vstd::std_specs::convert::FromSpecImpl<CommandError> for CustomCommandError {
    open spec fn obeys_from_spec() -> bool {
        true
    }

    open spec fn from_spec(e: CommandError) -> CustomCommandError {
        CustomCommandError::CommandError(e)
    }
}

/// An error that can happen when receiving a log notification.
#[derive(Debug, Clone, Copy, PartialEq, Eq, Structural)]
pub enum LogNotificationError {
    /// The engine failed while receiving.
    ReceivedCommandError(CommandError),
    /// A frame has been received, but it is not a log notification.
    UnexpectedFrame,
    /// The received message is not valid UTF-8.
    NotText,
}

impl LogNotificationError {
    pub open spec fn message_spec(self) -> Seq<char> {
        match self {
            LogNotificationError::ReceivedCommandError(e) => e.message_spec(),
            LogNotificationError::UnexpectedFrame => "unexpected frame"@,
            LogNotificationError::NotText => "the received string is not valid UTF-8"@,
        }
    }

    /// A short text that names the error.
    pub fn message(&self) -> (r: String)
        ensures
            r@ == self.message_spec(),
    {
        match self {
            LogNotificationError::ReceivedCommandError(e) => e.message(),
            LogNotificationError::UnexpectedFrame => String::from_str("unexpected frame"),
            LogNotificationError::NotText => String::from_str(
                "the received string is not valid UTF-8",
            ),
        }
    }
}

impl From<CommandError> for LogNotificationError {
    fn from(e: CommandError) -> LogNotificationError {
        LogNotificationError::ReceivedCommandError(e)
    }
}

impl vstd::std_specs::convert::FromSpecImpl<CommandError> for LogNotificationError {
    open spec fn obeys_from_spec() -> bool {
        true
    }

    open spec fn from_spec(e: CommandError) -> LogNotificationError {
        LogNotificationError::ReceivedCommandError(e)
    }
}

/// The operations the device answers with a typed reply.
#[derive(Debug, Clone, Copy, PartialEq, Eq, Structural)]
pub enum Query {
    Ping,
    Reset,
    Protocol,
    /// The version of the component with this wire byte.
    Version { component: u8 },
    MaxLength,
    Description,
}

impl Query {
    /// The code of the request.
    pub open spec fn code_spec(self) -> u8 {
        match self {
            Query::Ping => PING,
            Query::Reset => RESET,
            Query::Protocol => PROTOCOL,
            Query::Version { .. } => VERSION,
            Query::MaxLength => MAX_LENGTH,
            Query::Description => DESCRIPTION,
        }
    }

    /// The value of the request.
    pub open spec fn value_spec(self) -> Seq<u8> {
        match self {
            Query::Version { component } => seq![component],
            _ => Seq::empty(),
        }
    }
}

/// The request that carries a query, with the caller's timeout unchanged.
pub fn request(query: &Query, timeout: Option<Duration>) -> (r: Request)
    ensures
        r.code == query.code_spec(),
        r.value@ == query.value_spec(),
        r.timeout == timeout,
{
    let (code, value) = match query {
        Query::Ping => (PING, Vec::new()),
        Query::Reset => (RESET, Vec::new()),
        Query::Protocol => (PROTOCOL, Vec::new()),
        Query::Version { component } => (VERSION, vec![*component]),
        Query::MaxLength => (MAX_LENGTH, Vec::new()),
        Query::Description => (DESCRIPTION, Vec::new()),
    };
    proof {
        assert(value@ =~= query.value_spec());
    }
    Request { code, value, timeout }
}

/// The request that carries a built command, with the caller's timeout
/// unchanged.
pub fn command_request(command: &Command, timeout: Option<Duration>) -> (r: Request)
    ensures
        r.code == command.code_spec(),
        r.value@ == command.value_spec(),
        r.timeout == timeout,
{
    Request { code: command.code(), value: command.value().clone(), timeout }
}

/// What building a custom command from its hex code and optional hex value
/// gives.
pub open spec fn custom_command_spec(
    code: Seq<char>,
    value: Option<Seq<char>>,
    max_length: u8,
    r: Result<Command, CustomCommandError>,
) -> bool {
    if !(code.len() == 2 && is_hex_text(code)) {
        r == Err::<Command, CustomCommandError>(CustomCommandError::InvalidCode)
    } else if (match value {
        Some(t) => !is_hex_text(t),
        None => false,
    }) {
        r == Err::<Command, CustomCommandError>(CustomCommandError::InvalidValue)
    } else {
        let v = match value {
            Some(t) => hex_bytes(t),
            None => Seq::<u8>::empty(),
        };
        if v.len() <= max_length {
            &&& r matches Ok(c)
            &&& c.wf()
            &&& c.code_spec() == hex_bytes(code)[0]
            &&& c.value_spec() == v
            &&& c.max_length_spec() == max_length
        } else {
            r == Err::<Command, CustomCommandError>(
                CustomCommandError::NewCommandError(NewCommandError::TooLong),
            )
        }
    }
}

/// The text of an optional text.
pub open spec fn option_view(s: Option<&str>) -> Option<Seq<char>> {
    match s {
        Some(t) => Some(t@),
        None => None,
    }
}

/// Builds a custom command from its hex code and optional hex value, before
/// anything is sent.
pub fn custom_command(code: &str, value: Option<&str>, max_length: u8) -> (r: Result<
    Command,
    CustomCommandError,
>)
    ensures
        custom_command_spec(code@, option_view(value), max_length, r),
{
    let c = match parse_code(code) {
        Ok(b) => b,
        Err(_) => return Err(CustomCommandError::InvalidCode),
    };
    let v = match parse_value(value) {
        Ok(v) => v,
        Err(_) => return Err(CustomCommandError::InvalidValue),
    };
    assert(v@ == match option_view(value) {
        Some(t) => hex_bytes(t),
        None => Seq::<u8>::empty(),
    });
    match Command::new(c, v.as_slice(), max_length) {
        Ok(cmd) => Ok(cmd),
        Err(e) => Err(CustomCommandError::from(e)),
    }
}

/// The code of a custom command built from two hex digits, written back as
/// hex, is those digits with their case lowered.
pub proof fn lemma_custom_code_round_trip(
    code: Seq<char>,
    value: Option<Seq<char>>,
    max_length: u8,
    r: Result<Command, CustomCommandError>,
)
    requires
        custom_command_spec(code, value, max_length, r),
        r is Ok,
    ensures
        hex_text(seq![r->Ok_0.code_spec()]) == lower_hex(code),
{
    lemma_code_round_trip(code);
}

/// Relies on String::from_utf8: the bytes are accepted exactly when they are
/// valid UTF-8, and then decoded.
#[verifier::external_body]
fn utf8_text(bytes: Vec<u8>) -> (r: Option<String>)
    ensures
        r is Some <==> valid_utf8(bytes@),
        r matches Some(s) ==> s@ == decode_utf8(bytes@),
{
    String::from_utf8(bytes).ok()
}

/// Reads a reply that should be an acknowledgment (of a ping or a reset).
pub fn acknowledgment(received: Result<Frame, CommandError>) -> (r: CommandResult<
    (),
    ReplyError,
>)
    ensures
        match received {
            Err(e) => r == Err::<Result<(), ReplyError>, CommandError>(e),
            Ok(f) => if f.code == ACK {
                r == Ok::<Result<(), ReplyError>, CommandError>(Ok(()))
            } else {
                r == Ok::<Result<(), ReplyError>, CommandError>(Err(ReplyError::UnexpectedReply))
            },
        },
{
    match received {
        Err(e) => Err(e),
        Ok(f) => if f.code == ACK {
            Ok(Ok(()))
        } else {
            Ok(Err(ReplyError::UnexpectedReply))
        },
    }
}

/// Reads the reply to a protocol query: three bytes, major first.
pub fn protocol_reply(received: Result<Frame, CommandError>) -> (r: CommandResult<
    Version,
    ReplyError,
>)
    ensures
        match received {
            Err(e) => r == Err::<Result<Version, ReplyError>, CommandError>(e),
            Ok(f) => if f.code == PROTOCOL_REPLY && f.value@.len() == 3 {
                r == Ok::<Result<Version, ReplyError>, CommandError>(
                    Ok(Version { major: f.value@[0], minor: f.value@[1], patch: f.value@[2] }),
                )
            } else {
                r == Ok::<Result<Version, ReplyError>, CommandError>(
                    Err(ReplyError::UnexpectedReply),
                )
            },
        },
{
    match received {
        Err(e) => Err(e),
        Ok(f) => if f.code == PROTOCOL_REPLY && f.value.len() == 3 {
            Ok(Ok(Version { major: f.value[0], minor: f.value[1], patch: f.value[2] }))
        } else {
            Ok(Err(ReplyError::UnexpectedReply))
        },
    }
}

/// Reads the reply to a maximum length query: one byte.
pub fn max_length_reply(received: Result<Frame, CommandError>) -> (r: CommandResult<
    u8,
    ReplyError,
>)
    ensures
        match received {
            Err(e) => r == Err::<Result<u8, ReplyError>, CommandError>(e),
            Ok(f) => if f.code == MAX_LENGTH_REPLY && f.value@.len() == 1 {
                r == Ok::<Result<u8, ReplyError>, CommandError>(Ok(f.value@[0]))
            } else {
                r == Ok::<Result<u8, ReplyError>, CommandError>(Err(ReplyError::UnexpectedReply))
            },
        },
{
    match received {
        Err(e) => Err(e),
        Ok(f) => if f.code == MAX_LENGTH_REPLY && f.value.len() == 1 {
            Ok(Ok(f.value[0]))
        } else {
            Ok(Err(ReplyError::UnexpectedReply))
        },
    }
}

/// What a reply that should carry text with the given code means.
pub open spec fn text_reply_spec(
    received: Result<Frame, CommandError>,
    code: u8,
    r: CommandResult<String, ReplyError>,
) -> bool {
    match received {
        Err(e) => r == Err::<Result<String, ReplyError>, CommandError>(e),
        Ok(f) => if f.code != code {
            r == Ok::<Result<String, ReplyError>, CommandError>(Err(ReplyError::UnexpectedReply))
        } else if !valid_utf8(f.value@) {
            r == Ok::<Result<String, ReplyError>, CommandError>(Err(ReplyError::NotText))
        } else {
            r matches Ok(Ok(s)) && s@ == decode_utf8(f.value@)
        },
    }
}

/// Reads a reply that should carry text with the given code.
fn text_reply(received: Result<Frame, CommandError>, code: u8) -> (r: CommandResult<
    String,
    ReplyError,
>)
    ensures
        text_reply_spec(received, code, r),
{
    match received {
        Err(e) => Err(e),
        Ok(f) => if f.code != code {
            Ok(Err(ReplyError::UnexpectedReply))
        } else {
            match utf8_text(f.value) {
                Some(s) => Ok(Ok(s)),
                None => Ok(Err(ReplyError::NotText)),
            }
        },
    }
}

/// Reads the reply to a component version query: the version as text.
pub fn version_reply(received: Result<Frame, CommandError>) -> (r: CommandResult<
    String,
    ReplyError,
>)
    ensures
        text_reply_spec(received, VERSION_REPLY, r),
{
    text_reply(received, VERSION_REPLY)
}

/// Reads the reply to a description query: the description as text.
pub fn description_reply(received: Result<Frame, CommandError>) -> (r: CommandResult<
    String,
    ReplyError,
>)
    ensures
        text_reply_spec(received, DESCRIPTION_REPLY, r),
{
    text_reply(received, DESCRIPTION_REPLY)
}

/// Reads the reply to a custom command: its code and value, untouched.
pub fn command_reply(received: Result<Frame, CommandError>) -> (r: Result<
    (u8, Vec<u8>),
    CustomCommandError,
>)
    ensures
        match received {
            Err(e) => r == Err::<(u8, Vec<u8>), CustomCommandError>(
                CustomCommandError::CommandError(e),
            ),
            Ok(f) => r matches Ok((c, v)) && c == f.code && v@ == f.value@,
        },
{
    match received {
        Err(e) => Err(CustomCommandError::from(e)),
        Ok(f) => Ok((f.code, f.value)),
    }
}

/// What a received frame means to a session that waits for a log message.
pub open spec fn log_notification_spec(
    received: Result<Frame, CommandError>,
    r: Result<String, LogNotificationError>,
) -> bool {
    match received {
        Err(e) => r == Err::<String, LogNotificationError>(
            LogNotificationError::ReceivedCommandError(e),
        ),
        Ok(f) => if f.code != LOG {
            r == Err::<String, LogNotificationError>(LogNotificationError::UnexpectedFrame)
        } else if !valid_utf8(f.value@) {
            r == Err::<String, LogNotificationError>(LogNotificationError::NotText)
        } else {
            r matches Ok(s) && s@ == decode_utf8(f.value@)
        },
    }
}

/// Reads a received frame as a log message.
pub fn log_notification(received: Result<Frame, CommandError>) -> (r: Result<
    String,
    LogNotificationError,
>)
    ensures
        log_notification_spec(received, r),
{
    match received {
        Err(e) => Err(LogNotificationError::from(e)),
        Ok(f) => if f.code != LOG {
            Err(LogNotificationError::UnexpectedFrame)
        } else {
            match utf8_text(f.value) {
                Some(s) => Ok(s),
                None => Err(LogNotificationError::NotText),
            }
        },
    }
}

} // verus!
