use ercp_device::{CommandError, Frame, LogAction, LogNotificationError, LogSession, LogState, ACK, LOG};

fn frame(code: u8, value: &[u8]) -> Frame {
    Frame { code, value: value.to_vec() }
}

#[test]
fn log_stream_delivers_and_reports() {
    let mut session = LogSession::new();
    assert_eq!(session.state(), LogState::Idle);
    let mut lines = Vec::new();
    let mut acks = 0;
    let banner = session.start();
    assert_eq!(banner, LogAction::Banner);
    lines.push(banner.line("10:00:00.000"));
    let events = vec![Ok(frame(LOG, b"hello")), Ok(frame(0x42, b"nope")), Ok(frame(LOG, b"world"))];
    for event in events {
        let action = session.receive(event);
        assert_eq!(session.state(), LogState::AwaitingFrame);
        if action.acknowledges() {
            acks += 1;
        }
        lines.push(action.line("10:00:01.500"));
    }
    assert_eq!(acks, 2);
    let out: Vec<&str> = lines.iter().filter(|l| !l.to_stderr).map(|l| l.text.as_str()).collect();
    let err: Vec<&str> = lines.iter().filter(|l| l.to_stderr).map(|l| l.text.as_str()).collect();
    assert_eq!(
        out,
        vec![
            "10:00:00.000 Starting log session (type ^C to quit)",
            "10:00:01.500 hello",
            "10:00:01.500 world"
        ]
    );
    assert_eq!(err, vec!["Error: unexpected frame."]);
}

#[test]
fn receive_errors_keep_the_session_waiting() {
    let mut session = LogSession::new();
    session.start();
    let a = session.receive(Err(CommandError::Io));
    assert_eq!(a, LogAction::Report { error: LogNotificationError::ReceivedCommandError(CommandError::Io) });
    assert!(!a.acknowledges());
    let b = session.receive(Ok(frame(LOG, &[0xff])));
    assert_eq!(b, LogAction::Report { error: LogNotificationError::NotText });
    assert!(!b.acknowledges());
    let c = session.receive(Ok(frame(ACK, &[])));
    assert_eq!(c, LogAction::Report { error: LogNotificationError::UnexpectedFrame });
    let d = session.receive(Ok(frame(LOG, b"still here")));
    assert_eq!(d, LogAction::Deliver { message: String::from("still here") });
    assert!(d.acknowledges());
    assert_eq!(session.state(), LogState::AwaitingFrame);
}

#[test]
fn stamped_line_ends_with_the_message() {
    let a = LogAction::Deliver { message: String::from("boot done") };
    let (stamp, line) = a.stamped_line();
    assert!(!line.to_stderr);
    assert_eq!(line.text, format!("{} boot done", stamp));
    let b: Vec<char> = stamp.chars().collect();
    assert_eq!(b.len(), 12);
    assert_eq!((b[2], b[5], b[8]), (':', ':', '.'));
    for (i, c) in b.iter().enumerate() {
        if i != 2 && i != 5 && i != 8 {
            assert!(c.is_ascii_digit());
        }
    }
}
