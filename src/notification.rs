//! The log session: waits for log messages from the device, one after the
//! other, without end. Each received frame is delivered and acknowledged when
//! it is a log message in valid text, and reported otherwise; either way the
//! session goes on waiting.

use vstd::prelude::*;
use vstd::string::*;
use vstd::utf8::{decode_utf8, valid_utf8};

use crate::protocol::{CommandError, Frame, LOG};
use crate::router::{error_text, Line};
use crate::session::{log_notification, log_notification_spec, LogNotificationError};

verus! {

/// Where a log session stands.
#[derive(Debug, Clone, Copy, PartialEq, Eq, Structural)]
pub enum LogState {
    /// Not started yet.
    Idle,
    /// Waiting for the next frame.
    AwaitingFrame,
}

/// What the log session asks to be done next.
#[derive(Debug, Clone, PartialEq, Eq)]
pub enum LogAction {
    /// Announce the start of the session.
    Banner,
    /// Print a log message, then acknowledge it to the device.
    Deliver { message: String },
    /// Report a frame that was not a log message in valid text, or a failure
    /// to receive; nothing is acknowledged.
    Report { error: LogNotificationError },
}

/// The text that announces the start of a log session.
pub open spec fn banner_text() -> Seq<char> {
    " Starting log session (type ^C to quit)"@
}

impl LogAction {
    /// The action that a received frame calls for.
    pub open spec fn of_received(self, received: Result<Frame, CommandError>) -> bool {
        match received {
            Ok(f) if f.code == LOG && valid_utf8(f.value@) => self matches LogAction::Deliver {
                message,
            } && message@ == decode_utf8(f.value@),
            _ => self matches LogAction::Report { error } && log_notification_spec(
                received,
                Err::<String, LogNotificationError>(error),
            ),
        }
    }

    /// Whether the device is to be sent an acknowledgment.
    pub fn acknowledges(&self) -> (r: bool)
        ensures
            r == (self is Deliver),
    {
        match self {
            LogAction::Deliver { .. } => true,
            _ => false,
        }
    }

    /// The line that the action prints, after a time stamp for those that go
    /// to the standard output.
    pub open spec fn line_spec(self, stamp: Seq<char>, r: Line) -> bool {
        match self {
            LogAction::Banner => r.is(false, stamp + banner_text()),
            LogAction::Deliver { message } => r.is(false, stamp + " "@ + message@),
            LogAction::Report { error } => r.is(true, error_text(error.message_spec())),
        }
    }

    /// The line that the action prints, stamped with `stamp`.
    pub fn line(&self, stamp: &str) -> (r: Line)
        ensures
            self.line_spec(stamp@, r),
    {
        match self {
            LogAction::Banner => {
                let mut text = String::from_str(stamp);
                text.append(" Starting log session (type ^C to quit)");
                Line { to_stderr: false, text }
            },
            LogAction::Deliver { message } => {
                let mut text = String::from_str(stamp);
                text.append(" ");
                text.append(message.as_str());
                Line { to_stderr: false, text }
            },
            LogAction::Report { error } => crate::router::error_line(error.message()),
        }
    }

    /// The line that the action prints, stamped with the local time of day;
    /// the stamp is handed back beside it.
    pub fn stamped_line(&self) -> (r: (String, Line))
        ensures
            is_time_stamp(r.0@),
            self.line_spec(r.0@, r.1),
    {
        let stamp = clock_stamp();
        let line = self.line(stamp.as_str());
        (stamp, line)
    }
}

/// A time of day written `HH:MM:SS.mmm`: two-digit hours, minutes and
/// seconds, then three digits of milliseconds.
pub open spec fn is_time_stamp(s: Seq<char>) -> bool {
    &&& s.len() == 12
    &&& s[2] == ':' && s[5] == ':' && s[8] == '.'
    &&& forall|i: int|
        0 <= i < 12 && i != 2 && i != 5 && i != 8 ==> '0' <= #[trigger] s[i] && s[i] <= '9'
}

/// Relies on chrono's Local::now and its formatting with `%H:%M:%S%.3f`: the
/// local time of day, each of `%H`, `%M`, `%S` as two zero-padded digits and
/// `%.3f` as a point and three digits. Which time it is depends on the clock,
/// so only that shape is known.
#[verifier::external_body]
fn clock_stamp() -> (r: String)
    ensures
        is_time_stamp(r@),
{
    chrono::Local::now().format("%H:%M:%S%.3f").to_string()
}

/// A log session.
#[derive(Debug)]
pub struct LogSession {
    state: LogState,
}

impl LogSession {
    pub closed spec fn state_spec(&self) -> LogState {
        self.state
    }

    /// A session that has not started.
    pub fn new() -> (r: LogSession)
        ensures
            r.state_spec() == LogState::Idle,
    {
        LogSession { state: LogState::Idle }
    }

    /// Where the session stands.
    pub fn state(&self) -> (r: LogState)
        ensures
            r == self.state_spec(),
    {
        self.state
    }

    /// Starts the session: it announces itself and waits for frames.
    pub fn start(&mut self) -> (r: LogAction)
        requires
            old(self).state_spec() == LogState::Idle,
        ensures
            final(self).state_spec() == LogState::AwaitingFrame,
            r == LogAction::Banner,
    {
        self.state = LogState::AwaitingFrame;
        LogAction::Banner
    }

    /// Takes what the engine received, and goes on waiting whatever it was.
    pub fn receive(&mut self, received: Result<Frame, CommandError>) -> (r: LogAction)
        requires
            old(self).state_spec() == LogState::AwaitingFrame,
        ensures
            final(self).state_spec() == LogState::AwaitingFrame,
            r.of_received(received),
    {
        match log_notification(received) {
            Ok(message) => LogAction::Deliver { message },
            Err(error) => LogAction::Report { error },
        }
    }
}

} // verus!
