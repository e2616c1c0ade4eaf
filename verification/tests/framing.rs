use mpd_client::error::MPDError;
use mpd_client::framer::{frame_response, Framer, FramerStep};

fn lines(ls: &[&str]) -> Vec<String> {
    ls.iter().map(|s| s.to_string()).collect()
}

#[test]
fn frame_returns_body_lines_in_order() {
    let r = frame_response(&lines(&["a: 1", "b: 2", "OK"]));
    assert_eq!(r, Ok(lines(&["a: 1", "b: 2"])));
}

#[test]
fn frame_ack_first_line_fails_command() {
    let r = frame_response(&lines(&["ACK [5@0] {play} Bad song index"]));
    assert_eq!(r, Err(MPDError::FailedCommand));
}

#[test]
fn frame_ack_first_line_yields_no_partial_output() {
    let r = frame_response(&lines(&["ACK [5@0] {play} Bad song index", "a: 1", "OK"]));
    assert_eq!(r, Err(MPDError::FailedCommand));
}

#[test]
fn frame_missing_sentinel_is_truncated() {
    let r = frame_response(&lines(&["a: 1"]));
    assert_eq!(r, Err(MPDError::Truncated));
}

#[test]
fn frame_empty_stream_is_truncated() {
    let r = frame_response(&lines(&[]));
    assert_eq!(r, Err(MPDError::Truncated));
}

#[test]
fn frame_bare_sentinel_is_empty_success() {
    let r = frame_response(&lines(&["OK"]));
    assert_eq!(r, Ok(Vec::<String>::new()));
}

#[test]
fn frame_ack_after_first_line_is_body() {
    let r = frame_response(&lines(&["x: 1", "ACK [1@0] not an error block", "OK"]));
    assert_eq!(r, Ok(lines(&["x: 1", "ACK [1@0] not an error block"])));
}

#[test]
fn frame_stops_at_first_sentinel() {
    let r = frame_response(&lines(&["a: 1", "OK", "b: 2", "OK"]));
    assert_eq!(r, Ok(lines(&["a: 1"])));
}

#[test]
fn framer_incremental_body_then_sentinel() {
    let f = Framer::new();
    let f = match f.on_line("a: 1".to_string()) {
        FramerStep::NeedLine(f) => f,
        _ => panic!("expected more lines"),
    };
    let f = match f.on_line("b: 2".to_string()) {
        FramerStep::NeedLine(f) => f,
        _ => panic!("expected more lines"),
    };
    match f.on_line("OK".to_string()) {
        FramerStep::Done(body) => assert_eq!(body, lines(&["a: 1", "b: 2"])),
        _ => panic!("expected the body"),
    }
}

#[test]
fn framer_incremental_ack_on_first_line() {
    let f = Framer::new();
    match f.on_line("ACK [50@0] {load} No such playlist".to_string()) {
        FramerStep::Failed(e) => assert_eq!(e, MPDError::FailedCommand),
        _ => panic!("expected a failure"),
    }
}

#[test]
fn framer_incremental_close_is_truncated() {
    let f = Framer::new();
    let f = match f.on_line("a: 1".to_string()) {
        FramerStep::NeedLine(f) => f,
        _ => panic!("expected more lines"),
    };
    assert_eq!(f.on_close(), MPDError::Truncated);
}

#[test]
fn error_messages_are_fixed_texts() {
    assert_eq!(MPDError::FailedWrite.message(), "Failed to write to socket");
    assert_eq!(MPDError::FailedCommand.message(), "Failed to execute the command");
    assert_eq!(MPDError::Truncated.message(), "Response ended before the OK sentinel");
}
