//! The router: which operation a built-in command stands for, and the line that
//! tells the operator how it went.

use vstd::prelude::*;
use vstd::string::*;

use crate::hex_text::{encode_code, encode_hex, hex_text};
use crate::opts::{BuiltinCommand, Protocol};
use crate::protocol::{Command, CommandError, Version, MAX_VALUE_LENGTH};
use crate::session::{
    custom_command, custom_command_spec, option_view, CommandResult, CustomCommandError, Query,
    ReplyError,
};
use crate::text::{decimal, push_decimal};

verus! {

/// One line for the operator, on the standard output or the standard error.
#[derive(Debug, Clone, PartialEq, Eq)]
pub struct Line {
    pub to_stderr: bool,
    pub text: String,
}

impl Line {
    /// The line goes to the given stream and reads the given text.
    pub open spec fn is(self, to_stderr: bool, text: Seq<char>) -> bool {
        self.to_stderr == to_stderr && self.text@ == text
    }
}

/// The line that reports an error of an operation.
pub open spec fn error_text(message: Seq<char>) -> Seq<char> {
    "Error: "@ + message + "."@
}

/// The line that reports a failure of the protocol engine.
pub open spec fn command_error_text(e: CommandError) -> Seq<char> {
    "Command error: "@ + e.message_spec() + "."@
}

/// The success line of a ping.
pub open spec fn alive_text() -> Seq<char> {
    "The device is alive."@
}

/// The success line of a protocol query.
pub open spec fn protocol_text(v: Version) -> Seq<char> {
    "Protocol: "@ + decimal(v.major as nat) + "."@ + decimal(v.minor as nat) + "."@ + decimal(
        v.patch as nat,
    )
}

/// The success line of a maximum length query.
pub open spec fn max_length_text(n: u8) -> Seq<char> {
    "Max length = "@ + decimal(n as nat)
}

/// The success line of a custom command: the reply's code and value in hex.
pub open spec fn reply_text(code: u8, value: Seq<u8>) -> Seq<char> {
    hex_text(seq![code]) + " "@ + hex_text(value)
}

/// A line on the standard error that reports an error of an operation.
pub fn error_line(message: String) -> (r: Line)
    ensures
        r.is(true, error_text(message@)),
{
    let mut text = String::from_str("Error: ");
    text.append(message.as_str());
    text.append(".");
    Line { to_stderr: true, text }
}

/// A line on the standard error that reports a failure of the protocol engine.
pub fn command_error_line(e: &CommandError) -> (r: Line)
    ensures
        r.is(true, command_error_text(*e)),
{
    let mut text = String::from_str("Command error: ");
    let message = e.message();
    text.append(message.as_str());
    text.append(".");
    Line { to_stderr: true, text }
}

/// The line for an outcome of which only the success line differs between
/// operations.
pub open spec fn outcome_line_spec<T>(
    outcome: CommandResult<T, ReplyError>,
    success: Seq<char>,
    r: Line,
) -> bool {
    match outcome {
        Err(e) => r.is(true, command_error_text(e)),
        Ok(Err(e)) => r.is(true, error_text(e.message_spec())),
        Ok(Ok(_)) => r.is(false, success),
    }
}

/// The line for the outcome of a ping.
pub fn ping_line(outcome: &CommandResult<(), ReplyError>) -> (r: Line)
    ensures
        outcome_line_spec(*outcome, alive_text(), r),
{
    match outcome {
        Err(e) => command_error_line(e),
        Ok(Err(e)) => error_line(e.message()),
        Ok(Ok(())) => Line { to_stderr: false, text: String::from_str("The device is alive.") },
    }
}

/// The line for the outcome of a reset: the device may restart before it
/// replies, so only a failure of the engine is reported.
pub fn reset_line(outcome: &CommandResult<(), ReplyError>) -> (r: Option<Line>)
    ensures
        match *outcome {
            Err(e) => r matches Some(l) && l.is(true, command_error_text(e)),
            Ok(_) => r is None,
        },
{
    match outcome {
        Err(e) => Some(command_error_line(e)),
        Ok(_) => None,
    }
}

/// The line for the outcome of a protocol query.
pub fn protocol_line(outcome: &CommandResult<Version, ReplyError>) -> (r: Line)
    ensures
        outcome_line_spec(
            *outcome,
            match *outcome {
                Ok(Ok(v)) => protocol_text(v),
                _ => Seq::empty(),
            },
            r,
        ),
{
    match outcome {
        Err(e) => command_error_line(e),
        Ok(Err(e)) => error_line(e.message()),
        Ok(Ok(v)) => {
            let mut text = String::from_str("Protocol: ");
            push_decimal(&mut text, v.major);
            text.append(".");
            push_decimal(&mut text, v.minor);
            text.append(".");
            push_decimal(&mut text, v.patch);
            Line { to_stderr: false, text }
        },
    }
}

/// The line for the outcome of a query answered with text (a version or the
/// description): the text itself.
pub fn text_line(outcome: &CommandResult<String, ReplyError>) -> (r: Line)
    ensures
        outcome_line_spec(
            *outcome,
            match *outcome {
                Ok(Ok(s)) => s@,
                _ => Seq::empty(),
            },
            r,
        ),
{
    match outcome {
        Err(e) => command_error_line(e),
        Ok(Err(e)) => error_line(e.message()),
        Ok(Ok(s)) => Line { to_stderr: false, text: s.clone() },
    }
}

/// The line for the outcome of a maximum length query.
pub fn max_length_line(outcome: &CommandResult<u8, ReplyError>) -> (r: Line)
    ensures
        outcome_line_spec(
            *outcome,
            match *outcome {
                Ok(Ok(n)) => max_length_text(n),
                _ => Seq::empty(),
            },
            r,
        ),
{
    match outcome {
        Err(e) => command_error_line(e),
        Ok(Err(e)) => error_line(e.message()),
        Ok(Ok(n)) => {
            let mut text = String::from_str("Max length = ");
            push_decimal(&mut text, *n);
            Line { to_stderr: false, text }
        },
    }
}

/// The line for the outcome of a custom command.
pub fn command_line(outcome: &Result<(u8, Vec<u8>), CustomCommandError>) -> (r: Line)
    ensures
        match *outcome {
            Err(e) => r.is(true, error_text(e.message_spec())),
            Ok((code, value)) => r.is(false, reply_text(code, value@)),
        },
{
    match outcome {
        Err(e) => error_line(e.message()),
        Ok((code, value)) => {
            let mut text = encode_code(*code);
            text.append(" ");
            let v = encode_hex(value.as_slice());
            text.append(v.as_str());
            Line { to_stderr: false, text }
        },
    }
}

/// The line that stops a run in which no protocol was chosen.
pub fn protocol_check(protocol: &Protocol) -> (r: Option<Line>)
    ensures
        protocol.basic ==> r is None,
        !protocol.basic ==> (r matches Some(l) && l.is(true, "You must select a protocol."@)),
{
    if protocol.basic {
        None
    } else {
        Some(Line { to_stderr: true, text: String::from_str("You must select a protocol.") })
    }
}

/// What a built-in command asks of the session.
#[derive(Debug)]
pub enum Route {
    /// Send a query and read its typed reply.
    Query(Query),
    /// Send a custom command, if it could be built.
    Custom(Result<Command, CustomCommandError>),
    /// Wait for log messages, without end.
    Log,
}

/// The operation that a built-in command stands for. A custom command is
/// decoded and checked against the longest value a frame can carry.
pub fn route(command: &BuiltinCommand) -> (r: Route)
    ensures
        match command {
            BuiltinCommand::Ping => r == Route::Query(Query::Ping),
            BuiltinCommand::Reset => r == Route::Query(Query::Reset),
            BuiltinCommand::Protocol => r == Route::Query(Query::Protocol),
            BuiltinCommand::Version { component } => r == Route::Query(
                Query::Version { component: component.wire_spec() },
            ),
            BuiltinCommand::MaxLength => r == Route::Query(Query::MaxLength),
            BuiltinCommand::Description => r == Route::Query(Query::Description),
            BuiltinCommand::Command { command, value } => r matches Route::Custom(c)
                && custom_command_spec(
                command@,
                match value {
                    Some(t) => Some(t@),
                    None => None,
                },
                MAX_VALUE_LENGTH,
                c,
            ),
            BuiltinCommand::Log => r == Route::Log,
        },
{
    match command {
        BuiltinCommand::Ping => Route::Query(Query::Ping),
        BuiltinCommand::Reset => Route::Query(Query::Reset),
        BuiltinCommand::Protocol => Route::Query(Query::Protocol),
        BuiltinCommand::Version { component } => Route::Query(
            Query::Version { component: component.wire_id() },
        ),
        BuiltinCommand::MaxLength => Route::Query(Query::MaxLength),
        BuiltinCommand::Description => Route::Query(Query::Description),
        BuiltinCommand::Command { command, value } => {
            let v: Option<&str> = match value {
                Some(t) => Some(t.as_str()),
                None => None,
            };
            Route::Custom(custom_command(command.as_str(), v, MAX_VALUE_LENGTH))
        },
        BuiltinCommand::Log => Route::Log,
    }
}

} // verus!
