use std::time::Duration;

use ercp_device::{
    acknowledgment, command_reply, command_request, custom_command, description_reply,
    log_notification, max_length_reply, protocol_reply, request, version_reply, CommandError,
    CustomCommandError, Frame, LogNotificationError, Options, Query, ReplyError, Version, ACK,
    DESCRIPTION, DESCRIPTION_REPLY, LOG, MAX_LENGTH, MAX_LENGTH_REPLY, NACK, PING, PROTOCOL,
    PROTOCOL_REPLY, RESET, VERSION, VERSION_REPLY,
};

fn frame(code: u8, value: &[u8]) -> Frame {
    Frame { code, value: value.to_vec() }
}

#[test]
fn requests_carry_their_code_and_value() {
    let r = request(&Query::Ping, None);
    assert_eq!((r.code, r.value.len()), (PING, 0));
    assert_eq!(request(&Query::Reset, None).code, RESET);
    assert_eq!(request(&Query::Protocol, None).code, PROTOCOL);
    assert_eq!(request(&Query::MaxLength, None).code, MAX_LENGTH);
    assert_eq!(request(&Query::Description, None).code, DESCRIPTION);
    let r = request(&Query::Version { component: 0x01 }, None);
    assert_eq!((r.code, r.value), (VERSION, vec![0x01]));
}

#[test]
fn no_timeout_is_passed_as_none() {
    for q in [Query::Ping, Query::Reset, Query::Protocol, Query::MaxLength, Query::Description] {
        assert_eq!(request(&q, None).timeout, None);
    }
    let c = custom_command("01", None, 255).unwrap();
    assert_eq!(command_request(&c, None).timeout, None);
}

#[test]
fn timeout_is_passed_unchanged() {
    let t = Duration::from_millis(1234);
    for q in [Query::Ping, Query::Reset, Query::Version { component: 3 }] {
        assert_eq!(request(&q, Some(t)).timeout, Some(t));
    }
    let c = custom_command("01", Some("ff"), 255).unwrap();
    let r = command_request(&c, Some(t));
    assert_eq!((r.code, r.value, r.timeout), (0x01, vec![0xff], Some(t)));
}

#[test]
fn options_timeout() {
    let o = Options { timeout: 3, no_timeout: false };
    assert_eq!(o.timeout(), Some(Duration::from_secs(3)));
    let o = Options { timeout: 3, no_timeout: true };
    assert_eq!(o.timeout(), None);
}

#[test]
fn ping_is_acknowledged() {
    assert_eq!(acknowledgment(Ok(frame(ACK, &[]))), Ok(Ok(())));
    assert_eq!(acknowledgment(Ok(frame(NACK, &[0]))), Ok(Err(ReplyError::UnexpectedReply)));
    assert_eq!(acknowledgment(Err(CommandError::Timeout)), Err(CommandError::Timeout));
    assert_eq!(acknowledgment(Err(CommandError::Io)), Err(CommandError::Io));
}

#[test]
fn protocol_version_reply() {
    assert_eq!(
        protocol_reply(Ok(frame(PROTOCOL_REPLY, &[1, 2, 3]))),
        Ok(Ok(Version { major: 1, minor: 2, patch: 3 }))
    );
    assert_eq!(
        protocol_reply(Ok(frame(PROTOCOL_REPLY, &[1, 2]))),
        Ok(Err(ReplyError::UnexpectedReply))
    );
    assert_eq!(protocol_reply(Ok(frame(ACK, &[1, 2, 3]))), Ok(Err(ReplyError::UnexpectedReply)));
    assert_eq!(protocol_reply(Err(CommandError::Malformed)), Err(CommandError::Malformed));
}

#[test]
fn max_length_reply_reads_one_byte() {
    assert_eq!(max_length_reply(Ok(frame(MAX_LENGTH_REPLY, &[200]))), Ok(Ok(200)));
    assert_eq!(
        max_length_reply(Ok(frame(MAX_LENGTH_REPLY, &[]))),
        Ok(Err(ReplyError::UnexpectedReply))
    );
    assert_eq!(
        max_length_reply(Err(CommandError::TooManyRetries)),
        Err(CommandError::TooManyRetries)
    );
}

#[test]
fn text_replies() {
    assert_eq!(
        version_reply(Ok(frame(VERSION_REPLY, b"v1.2.0"))),
        Ok(Ok(String::from("v1.2.0")))
    );
    assert_eq!(
        version_reply(Ok(frame(VERSION_REPLY, &[0xff, 0xfe]))),
        Ok(Err(ReplyError::NotText))
    );
    assert_eq!(
        version_reply(Ok(frame(DESCRIPTION_REPLY, b"x"))),
        Ok(Err(ReplyError::UnexpectedReply))
    );
    assert_eq!(
        description_reply(Ok(frame(DESCRIPTION_REPLY, "Capteur ° 1".as_bytes()))),
        Ok(Ok(String::from("Capteur ° 1")))
    );
    assert_eq!(description_reply(Err(CommandError::Io)), Err(CommandError::Io));
}

#[test]
fn custom_reply_is_untouched() {
    assert_eq!(command_reply(Ok(frame(0x99, &[1, 2, 3]))), Ok((0x99, vec![1, 2, 3])));
    assert_eq!(
        command_reply(Err(CommandError::Timeout)),
        Err(CustomCommandError::CommandError(CommandError::Timeout))
    );
}

#[test]
fn log_notifications() {
    assert_eq!(log_notification(Ok(frame(LOG, b"hello"))), Ok(String::from("hello")));
    assert_eq!(
        log_notification(Ok(frame(ACK, b"hello"))),
        Err(LogNotificationError::UnexpectedFrame)
    );
    assert_eq!(log_notification(Ok(frame(LOG, &[0xc3]))), Err(LogNotificationError::NotText));
    assert_eq!(
        log_notification(Err(CommandError::Io)),
        Err(LogNotificationError::ReceivedCommandError(CommandError::Io))
    );
}
