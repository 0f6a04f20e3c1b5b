use seir_service::session::{
    Action, Frame, Session, SessionState, SolveOutcome, CLIENT_TIMEOUT, HEARTBEAT_INTERVAL,
};

#[test]
fn connect_opens_with_heartbeat_now() {
    let session = Session::new(7);
    assert_eq!(session.state, SessionState::Open);
    assert_eq!(session.last_heartbeat, 7);
}

#[test]
fn schedule_constants() {
    assert_eq!(HEARTBEAT_INTERVAL, 5);
    assert_eq!(CLIENT_TIMEOUT, 10);
}

#[test]
fn ping_refreshes_heartbeat_and_echoes_payload() {
    let mut session = Session::new(0);
    let action = session.handle_frame(3, Frame::Ping(vec![1, 2, 3]));
    assert_eq!(action, Action::SendPong(vec![1, 2, 3]));
    assert_eq!(session.state, SessionState::Open);
    assert_eq!(session.last_heartbeat, 3);
}

#[test]
fn pong_refreshes_heartbeat_only() {
    let mut session = Session::new(0);
    let action = session.handle_frame(4, Frame::Pong);
    assert_eq!(action, Action::Nothing);
    assert_eq!(session.state, SessionState::Open);
    assert_eq!(session.last_heartbeat, 4);
}

#[test]
fn solved_request_is_answered_with_its_payload() {
    let mut session = Session::new(0);
    let payload = "{\"0\": [1000, 0, 1, 0]}".to_string();
    let action = session.handle_frame(2, Frame::Text(SolveOutcome::Solved(payload.clone())));
    assert_eq!(action, Action::SendText(payload));
    assert_eq!(session.state, SessionState::Open);
    assert_eq!(session.last_heartbeat, 2);
}

#[test]
fn decode_failure_answers_envelope_and_stays_open() {
    let mut session = Session::new(0);
    let action = session.handle_frame(
        2,
        Frame::Text(SolveOutcome::DecodeFailed("missing field `duration`".to_string())),
    );
    assert_eq!(
        action,
        Action::SendText(
            "{\"error\": \"DecodeError\", \"message\": \"missing field `duration`\"}".to_string()
        ),
    );
    assert_eq!(session.state, SessionState::Open);
    assert_eq!(session.last_heartbeat, 2);
}

#[test]
fn integration_failure_answers_envelope_and_stays_open() {
    let mut session = Session::new(0);
    let action = session.handle_frame(
        9,
        Frame::Text(SolveOutcome::IntegrationFailed("step size underflow".to_string())),
    );
    assert_eq!(
        action,
        Action::SendText(
            "{\"error\": \"IntegrationError\", \"message\": \"step size underflow\"}".to_string()
        ),
    );
    assert_eq!(session.state, SessionState::Open);
}

#[test]
fn open_connection_survives_a_failed_request_and_serves_the_next() {
    let mut session = Session::new(0);
    session.handle_frame(1, Frame::Text(SolveOutcome::DecodeFailed("bad".to_string())));
    assert_eq!(session.state, SessionState::Open);
    let payload = "{}".to_string();
    let action = session.handle_frame(2, Frame::Text(SolveOutcome::Solved(payload.clone())));
    assert_eq!(action, Action::SendText(payload));
    assert_eq!(session.state, SessionState::Open);
}

#[test]
fn close_frame_is_echoed_then_connection_ends() {
    let mut session = Session::new(0);
    let action = session.handle_frame(5, Frame::Close);
    assert_eq!(action, Action::EchoClose);
    assert_eq!(session.state, SessionState::Closing);
    session.connection_closed();
    assert_eq!(session.state, SessionState::Closed);
}

#[test]
fn unknown_frame_kind_is_fatal() {
    let mut session = Session::new(0);
    let action = session.handle_frame(5, Frame::Other);
    assert_eq!(action, Action::Disconnect);
    assert_eq!(session.state, SessionState::Closed);
}

#[test]
fn closed_session_ignores_every_frame() {
    let mut session = Session::new(0);
    session.handle_frame(1, Frame::Other);
    assert_eq!(session.state, SessionState::Closed);
    assert_eq!(session.handle_frame(2, Frame::Ping(vec![9])), Action::Nothing);
    assert_eq!(session.handle_frame(3, Frame::Pong), Action::Nothing);
    assert_eq!(
        session.handle_frame(4, Frame::Text(SolveOutcome::Solved("{}".to_string()))),
        Action::Nothing,
    );
    assert_eq!(session.handle_frame(5, Frame::Close), Action::Nothing);
    assert_eq!(session.state, SessionState::Closed);
    assert_eq!(session.last_heartbeat, 0);
}

#[test]
fn heartbeat_check_pings_while_fresh() {
    let mut session = Session::new(0);
    let action = session.heartbeat_check(5);
    assert_eq!(action, Action::SendPing);
    assert_eq!(session.state, SessionState::Open);
    assert_eq!(session.last_heartbeat, 0);
}

#[test]
fn heartbeat_check_pings_at_exactly_the_timeout() {
    let mut session = Session::new(0);
    let action = session.heartbeat_check(CLIENT_TIMEOUT);
    assert_eq!(action, Action::SendPing);
    assert_eq!(session.state, SessionState::Open);
}

#[test]
fn heartbeat_timeout_closes_without_a_further_ping() {
    let mut session = Session::new(0);
    let action = session.heartbeat_check(CLIENT_TIMEOUT + 1);
    assert_ne!(action, Action::SendPing);
    assert_eq!(action, Action::Disconnect);
    assert_eq!(session.state, SessionState::Closed);
}

#[test]
fn heartbeat_timeout_counts_from_the_last_inbound_frame() {
    let mut session = Session::new(0);
    session.handle_frame(8, Frame::Pong);
    assert_eq!(session.heartbeat_check(15), Action::SendPing);
    assert_eq!(session.state, SessionState::Open);
    assert_eq!(session.heartbeat_check(19), Action::Disconnect);
    assert_eq!(session.state, SessionState::Closed);
}

#[test]
fn heartbeat_check_is_quiet_once_closed() {
    let mut session = Session::new(0);
    session.connection_closed();
    assert_eq!(session.heartbeat_check(100), Action::Nothing);
    assert_eq!(session.state, SessionState::Closed);
}
