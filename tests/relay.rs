use infer_bridge::events::{ClassifyError, WsEvent};
use infer_bridge::relay::{
    handshake, ConnectError, Frame, LoopPhase, RelayAction, RelayInput, RelaySession, WsConnectionState,
};

const HELLO: &str = r#"{"type":"connected","client_id":"abc123"}"#;

fn text(s: &str) -> RelayInput {
    RelayInput::Frame(Frame::Text(s.to_string()))
}

fn connected() -> (WsConnectionState, RelaySession) {
    let mut state = WsConnectionState::new();
    let ticket = state.begin_connect();
    assert_eq!(ticket.supersedes, None);
    assert_eq!(state.dial_finished(ticket.token, true).unwrap(), "pending");
    state.task_started(ticket.token);
    let session = RelaySession::new(ticket.token);
    (state, session)
}

fn is_disconnected(a: &RelayAction) -> bool {
    matches!(a, RelayAction::Publish(WsEvent::Disconnected))
}

#[test]
fn new_state_is_empty() {
    let state = WsConnectionState::new();
    assert_eq!(state.status(), (None, false));
    assert_eq!(state.current_client_id(), None);
    assert_eq!(state.active_task(), None);
}

#[test]
fn handshake_publishes_connected_once() {
    let (mut state, mut session) = connected();
    assert_eq!(state.status(), (None, true));
    let mut connected_events = 0;
    let a = session.step(&mut state, text(HELLO));
    if let RelayAction::Publish(WsEvent::Connected { client_id }) = &a {
        assert_eq!(client_id, "abc123");
        connected_events += 1;
    }
    assert_eq!(session.phase(), LoopPhase::Active);
    assert_eq!(state.status(), (Some("abc123".to_string()), true));
    assert_eq!(state.current_client_id().as_deref(), Some("abc123"));
    let a = session.step(&mut state, text(HELLO));
    assert!(matches!(a, RelayAction::Nothing));
    if let RelayAction::Publish(WsEvent::Connected { .. }) = &a {
        connected_events += 1;
    }
    assert_eq!(connected_events, 1);
}

#[test]
fn handshake_message_shapes() {
    assert_eq!(handshake(HELLO).as_deref(), Some("abc123"));
    assert_eq!(handshake(r#"{"type":"welcome","client_id":"abc123"}"#), None);
    assert_eq!(handshake(r#"{"type":"connected"}"#), None);
    assert_eq!(handshake(r#"{"type":"connected","client_id":5}"#), None);
    assert_eq!(handshake("connected"), None);
}

#[test]
fn bad_handshake_resets_without_events() {
    for input in [
        text(r#"{"type":"task_completed","data":{}}"#),
        text("garbage"),
        RelayInput::Frame(Frame::Other),
        RelayInput::Frame(Frame::Close),
        RelayInput::Frame(Frame::End),
        RelayInput::Frame(Frame::ReadError),
    ] {
        let (mut state, mut session) = connected();
        let a = session.step(&mut state, input);
        assert!(matches!(a, RelayAction::Nothing));
        assert_eq!(session.phase(), LoopPhase::HandshakeFailed);
        assert!(session.is_finished());
        assert_eq!(state.status(), (None, false));
        assert_eq!(state.active_task(), None);
    }
}

#[test]
fn abrupt_close_disconnects_once() {
    let (mut state, mut session) = connected();
    session.step(&mut state, text(HELLO));
    let mut disconnects = 0;
    for input in [
        text(r#"{"type":"progress","data":{"task_id":"t2"}}"#),
        RelayInput::Frame(Frame::End),
        RelayInput::Frame(Frame::Close),
        RelayInput::HeartbeatFailed,
        text(r#"{"type":"task_completed","data":{"task_id":"t1"}}"#),
    ] {
        if is_disconnected(&session.step(&mut state, input)) {
            disconnects += 1;
        }
    }
    assert_eq!(disconnects, 1);
    assert_eq!(session.phase(), LoopPhase::Closed);
    assert_eq!(state.status(), (None, false));
}

#[test]
fn heartbeat_failure_disconnects_once() {
    let (mut state, mut session) = connected();
    session.step(&mut state, text(HELLO));
    assert!(matches!(session.step(&mut state, RelayInput::HeartbeatDue), RelayAction::SendHeartbeat));
    let mut disconnects = 0;
    for input in [
        RelayInput::HeartbeatFailed,
        RelayInput::HeartbeatFailed,
        RelayInput::Frame(Frame::ReadError),
        RelayInput::HeartbeatDue,
    ] {
        let a = session.step(&mut state, input);
        if is_disconnected(&a) {
            disconnects += 1;
        } else {
            assert!(matches!(a, RelayAction::Nothing));
        }
    }
    assert_eq!(disconnects, 1);
    assert_eq!(session.phase(), LoopPhase::Errored);
    assert_eq!(state.status(), (None, false));
}

#[test]
fn read_error_disconnects() {
    let (mut state, mut session) = connected();
    session.step(&mut state, text(HELLO));
    assert!(is_disconnected(&session.step(&mut state, RelayInput::Frame(Frame::ReadError))));
    assert_eq!(session.phase(), LoopPhase::Errored);
    assert_eq!(state.status(), (None, false));
}

#[test]
fn loop_relays_classified_events_in_order() {
    let (mut state, mut session) = connected();
    session.step(&mut state, text(HELLO));
    let frames = [
        r#"{"type":"progress","data":{"task_id":"a"}}"#,
        r#"{"type":"mystery","data":{}}"#,
        r#"{"type":"task_completed","data":{"task_id":"b"}}"#,
        r#"not json"#,
        r#"{"type":"task_failed"}"#,
        r#"{"type":"task_failed","data":{"task_id":"c"}}"#,
    ];
    let mut seen = Vec::new();
    for f in frames {
        match session.step(&mut state, text(f)) {
            RelayAction::Publish(e) => seen.push(e.channel()),
            RelayAction::Rejected(ClassifyError::InvalidJson) => seen.push("invalid".to_string()),
            RelayAction::Rejected(ClassifyError::MissingData) => seen.push("missing".to_string()),
            RelayAction::Nothing => seen.push("ignored".to_string()),
            RelayAction::SendHeartbeat => panic!("unexpected heartbeat"),
        }
    }
    assert_eq!(
        seen,
        vec!["ws_progress", "ignored", "ws_task_completed", "invalid", "missing", "ws_task_failed"]
    );
    assert!(matches!(session.step(&mut state, RelayInput::Frame(Frame::Other)), RelayAction::Nothing));
    assert_eq!(state.status(), (Some("abc123".to_string()), true));
}

#[test]
fn reconnect_supersedes_running_task() {
    let (mut state, mut old_session) = connected();
    let old_token = state.generation();
    old_session.step(&mut state, text(HELLO));
    let ticket = state.begin_connect();
    assert_eq!(ticket.supersedes, Some(old_token));
    assert_ne!(ticket.token, old_token);
    assert_eq!(state.status(), (None, false));
    assert!(state.dial_finished(ticket.token, true).is_ok());
    state.task_started(ticket.token);
    let a = old_session.step(&mut state, RelayInput::Frame(Frame::Close));
    assert!(matches!(a, RelayAction::Nothing));
    assert_eq!(old_session.phase(), LoopPhase::Superseded);
    assert_eq!(state.status(), (None, true));
    assert_eq!(state.active_task(), Some(ticket.token));
    let mut session = RelaySession::new(ticket.token);
    session.step(&mut state, text(r#"{"type":"connected","client_id":"second"}"#));
    assert_eq!(state.status(), (Some("second".to_string()), true));
}

#[test]
fn reconnect_during_handshake_wins() {
    let (mut state, mut first) = connected();
    let ticket = state.begin_connect();
    let mut second = RelaySession::new(ticket.token);
    assert!(state.dial_finished(ticket.token, true).is_ok());
    assert!(matches!(first.step(&mut state, text(HELLO)), RelayAction::Nothing));
    assert_eq!(first.phase(), LoopPhase::Superseded);
    assert_eq!(state.status(), (None, true));
    second.step(&mut state, text(r#"{"type":"connected","client_id":"b"}"#));
    assert_eq!(state.status(), (Some("b".to_string()), true));
}

#[test]
fn failed_dial_is_reported_and_leaves_state() {
    let mut state = WsConnectionState::new();
    let ticket = state.begin_connect();
    assert_eq!(state.dial_finished(ticket.token, false), Err(ConnectError::DialFailed));
    assert_eq!(state.status(), (None, false));
    assert_eq!(state.active_task(), None);
}

#[test]
fn stale_dial_does_not_mark_connected() {
    let mut state = WsConnectionState::new();
    let first = state.begin_connect();
    let second = state.begin_connect();
    assert!(state.dial_finished(first.token, true).is_ok());
    assert_eq!(state.status(), (None, false));
    state.task_started(first.token);
    assert_eq!(state.active_task(), None);
    assert!(state.dial_finished(second.token, true).is_ok());
    assert_eq!(state.status(), (None, true));
}

#[test]
fn heartbeat_is_not_sent_before_handshake() {
    let (mut state, mut session) = connected();
    assert!(matches!(session.step(&mut state, RelayInput::HeartbeatDue), RelayAction::Nothing));
    assert_eq!(session.phase(), LoopPhase::AwaitingHandshake);
}

#[test]
fn heartbeat_frame_and_period() {
    assert_eq!(infer_bridge::relay::heartbeat_text(), "ping");
    assert_eq!(infer_bridge::relay::HEARTBEAT_INTERVAL_SECS, 30);
}
