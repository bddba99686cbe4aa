//! Device command session for devices speaking the ERCP Basic protocol over a
//! serial link: command values, components, request construction, reply
//! classification, the log notification loop and the rendering of outcomes.

mod hex_text;
mod notification;
mod opts;
mod protocol;
mod router;
mod session;
mod text;

pub use hex_text::{
    encode_code, hex_bytes, hex_text, hex_value, is_hex_digit, is_hex_text,
    lemma_code_round_trip, lower_hex, parse_code, parse_value, HexError,
};
pub use notification::{banner_text, is_time_stamp, LogAction, LogSession, LogState};
pub use opts::{
    component_of, duration_of_secs, lemma_component_aliases, lemma_component_hex,
    BuiltinCommand, Component, Connection, Options, Opts, ParseComponentError, Protocol,
};
pub use protocol::{
    Command, CommandError, Frame, NewCommandError, Request, Version, ACK, DESCRIPTION,
    DESCRIPTION_REPLY, ERCP_LIBRARY, FIRMWARE, LOG, MAX_LENGTH, MAX_LENGTH_REPLY,
    MAX_VALUE_LENGTH, NACK, PING, PROTOCOL, PROTOCOL_REPLY, RESET, VERSION, VERSION_REPLY,
};
pub use router::{
    alive_text, command_error_line, command_error_text, command_line, error_line, error_text,
    max_length_line, max_length_text, outcome_line_spec, ping_line, protocol_check,
    protocol_line, protocol_text, reply_text, reset_line, route, text_line, Line, Route,
};
pub use session::{
    acknowledgment, command_reply, command_request, custom_command, custom_command_spec,
    description_reply, lemma_custom_code_round_trip, log_notification, log_notification_spec,
    max_length_reply,
    option_view, protocol_reply, request, text_reply_spec, version_reply, CommandResult,
    CustomCommandError, LogNotificationError, Query, ReplyError,
};
pub use text::{decimal, push_decimal, same_text};
