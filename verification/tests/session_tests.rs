use gateway::handlers::{health_body, health_now};
use gateway::session::{CloseReason, ConnState, Frame, SessionMachine};
use gateway::timefmt::{format_rfc3339, DateTimeParts};

fn parts(year: i32, month: u32, day: u32, hour: u32, minute: u32, second: u32) -> DateTimeParts {
    DateTimeParts { year, month, day, hour, minute, second }
}

#[test]
fn ping_yields_pong_with_same_payload() {
    let mut m = SessionMachine::new();
    assert_eq!(m.state(), ConnState::Open);
    let out = m.on_frame(Frame::Ping(vec![1, 2, 3]));
    assert_eq!(out, Some(Frame::Pong(vec![1, 2, 3])));
    assert_eq!(m.state(), ConnState::Open);
}

#[test]
fn empty_ping_yields_empty_pong() {
    let mut m = SessionMachine::new();
    let out = m.on_frame(Frame::Ping(vec![]));
    assert_eq!(out, Some(Frame::Pong(vec![])));
    assert_eq!(m.state(), ConnState::Open);
}

#[test]
fn text_ping_yields_text_pong() {
    let mut m = SessionMachine::new();
    let out = m.on_frame(Frame::Text("ping".to_string()));
    assert_eq!(out, Some(Frame::Text("pong".to_string())));
    assert_eq!(m.state(), ConnState::Open);
}

#[test]
fn other_text_yields_no_frame() {
    let mut m = SessionMachine::new();
    assert_eq!(m.on_frame(Frame::Text("pingg".to_string())), None);
    assert_eq!(m.on_frame(Frame::Text("PING".to_string())), None);
    assert_eq!(m.on_frame(Frame::Text("".to_string())), None);
    assert_eq!(m.state(), ConnState::Open);
}

#[test]
fn pong_and_other_frames_are_ignored() {
    let mut m = SessionMachine::new();
    assert_eq!(m.on_frame(Frame::Pong(vec![7])), None);
    assert_eq!(m.on_frame(Frame::Other), None);
    assert_eq!(m.state(), ConnState::Open);
}

#[test]
fn close_is_echoed_and_machine_goes_silent() {
    let mut m = SessionMachine::new();
    let reason = Some(CloseReason { code: 1000, description: Some("bye".to_string()) });
    let echoed = Some(CloseReason { code: 1000, description: Some("bye".to_string()) });
    let out = m.on_frame(Frame::Close(reason));
    assert_eq!(out, Some(Frame::Close(echoed)));
    assert_eq!(m.state(), ConnState::Closing);
    assert_eq!(m.on_frame(Frame::Ping(vec![1])), None);
    assert_eq!(m.on_frame(Frame::Text("ping".to_string())), None);
    assert_eq!(m.state(), ConnState::Closing);
    m.on_transport_ack();
    assert_eq!(m.state(), ConnState::Closed);
    assert_eq!(m.on_frame(Frame::Ping(vec![2])), None);
    assert_eq!(m.on_frame(Frame::Close(None)), None);
    assert_eq!(m.state(), ConnState::Closed);
}

#[test]
fn close_without_reason_is_echoed_without_reason() {
    let mut m = SessionMachine::new();
    let out = m.on_frame(Frame::Close(None));
    assert_eq!(out, Some(Frame::Close(None)));
    assert_eq!(m.state(), ConnState::Closing);
}

#[test]
fn malformed_frame_is_ignored_not_fatal() {
    let mut m = SessionMachine::new();
    assert_eq!(m.on_frame(Frame::Malformed), None);
    assert_eq!(m.state(), ConnState::Open);
    // The session is still live: a ping after the oddity is still answered.
    assert_eq!(m.on_frame(Frame::Ping(vec![9])), Some(Frame::Pong(vec![9])));
    m.on_frame(Frame::Close(None));
    assert_eq!(m.on_frame(Frame::Malformed), None);
    assert_eq!(m.state(), ConnState::Closing);
}

#[test]
fn transport_ack_outside_closing_changes_nothing() {
    let mut m = SessionMachine::new();
    m.on_transport_ack();
    assert_eq!(m.state(), ConnState::Open);
}

#[test]
fn transport_error_closes_at_once() {
    let mut m = SessionMachine::new();
    m.on_transport_error();
    assert_eq!(m.state(), ConnState::Closed);
    assert_eq!(m.on_frame(Frame::Ping(vec![])), None);
}

#[test]
fn format_rfc3339_renders_exactly() {
    let s = format_rfc3339(&parts(2026, 10, 11, 12, 34, 56)).unwrap();
    assert_eq!(s, "2026-10-11T12:34:56Z");
    let s = format_rfc3339(&parts(0, 1, 1, 0, 0, 0)).unwrap();
    assert_eq!(s, "0000-01-01T00:00:00Z");
    let s = format_rfc3339(&parts(9999, 12, 31, 23, 59, 59)).unwrap();
    assert_eq!(s, "9999-12-31T23:59:59Z");
}

#[test]
fn format_rfc3339_refuses_out_of_range_fields() {
    assert!(format_rfc3339(&parts(10000, 1, 1, 0, 0, 0)).is_none());
    assert!(format_rfc3339(&parts(-1, 1, 1, 0, 0, 0)).is_none());
    assert!(format_rfc3339(&parts(2026, 0, 1, 0, 0, 0)).is_none());
    assert!(format_rfc3339(&parts(2026, 13, 1, 0, 0, 0)).is_none());
    assert!(format_rfc3339(&parts(2026, 1, 0, 0, 0, 0)).is_none());
    assert!(format_rfc3339(&parts(2026, 1, 32, 0, 0, 0)).is_none());
    assert!(format_rfc3339(&parts(2026, 1, 1, 24, 0, 0)).is_none());
    assert!(format_rfc3339(&parts(2026, 1, 1, 0, 60, 0)).is_none());
    assert!(format_rfc3339(&parts(2026, 1, 1, 0, 0, 60)).is_none());
}

#[test]
fn formatted_timestamp_parses_as_rfc3339() {
    let s = format_rfc3339(&parts(2026, 10, 11, 12, 34, 56)).unwrap();
    let parsed = chrono::DateTime::parse_from_rfc3339(&s).expect("must parse as RFC 3339");
    assert_eq!(parsed.to_rfc3339(), "2026-10-11T12:34:56+00:00");
}

#[test]
fn health_body_is_ok_with_rendered_time() {
    let h = health_body(&parts(2026, 10, 11, 1, 2, 3)).unwrap();
    assert_eq!(h.status, "ok");
    assert_eq!(h.time, "2026-10-11T01:02:03Z");
    assert!(health_body(&parts(2026, 0, 11, 1, 2, 3)).is_none());
}

#[test]
fn health_now_reports_ok_with_parseable_time() {
    let h = health_now().expect("the current year fits four digits");
    assert_eq!(h.status, "ok");
    assert!(chrono::DateTime::parse_from_rfc3339(&h.time).is_ok());
}
