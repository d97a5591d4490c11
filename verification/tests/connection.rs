//! What a connection does with socket events, and texts.
use pq_chat_backend::auth::ConnAuth;
use pq_chat_backend::connection::{answer, on_disconnect, on_event, on_request, SocketEvent, Step};
use pq_chat_backend::errors::DispatchError;
use pq_chat_backend::protocol::{ClientMessage, Delivery, ServerMessage};
use pq_chat_backend::state::AppState;
use pq_chat_backend::text::{decimal_text, join};

fn step_text(event: SocketEvent) -> String {
    format!("{:?}", on_event(event))
}

#[test]
fn socket_events_call_for_steps() {
    assert_eq!(step_text(SocketEvent::End), "Stop");
    assert_eq!(step_text(SocketEvent::Failed), "Stop");
    assert_eq!(step_text(SocketEvent::Close), "Stop");
    assert_eq!(step_text(SocketEvent::Other), "Skip");
    assert_eq!(step_text(SocketEvent::Ping(vec![1, 2])), "Pong([1, 2])");
    assert_eq!(step_text(SocketEvent::Text("hi".to_string())), "Request(\"hi\")");
}

#[test]
fn binary_frames_are_read_as_text() {
    match on_event(SocketEvent::Binary(vec![0x68, 0xc3, 0xa9])) {
        Step::Request(text) => assert_eq!(text, "hé"),
        other => panic!("{other:?}"),
    }
    match on_event(SocketEvent::Binary(vec![0x68, 0xff])) {
        Step::Request(text) => assert_eq!(text, ""),
        other => panic!("{other:?}"),
    }
}

fn reason(sent: &[Delivery], conn: u64) -> String {
    assert_eq!(sent.len(), 1);
    assert_eq!(sent[0].to, conn);
    match &sent[0].msg {
        ServerMessage::Error { reason } => reason.clone(),
        other => panic!("{other:?}"),
    }
}

#[test]
fn unreadable_request_is_answered_with_an_error() {
    let mut state = AppState::new();
    let mut auth = ConnAuth::Anonymous;
    let sent = on_request(&mut state, &mut auth, 5, Err("expected value".to_string()));
    assert_eq!(reason(&sent, 5), "malformed request: expected value");
    assert!(matches!(auth, ConnAuth::Anonymous));
}

#[test]
fn refused_request_is_answered_with_a_single_error() {
    let mut state = AppState::new();
    let mut auth = ConnAuth::Anonymous;
    let sent = on_request(&mut state, &mut auth, 5, Ok(ClientMessage::ListServers));
    assert_eq!(reason(&sent, 5), "not authenticated");
    let sent = answer(6, Err(DispatchError::StaleEpoch { expected: 10, got: 9 }));
    assert_eq!(reason(&sent, 6), "stale epoch (expected 10, got 9)");
    let sent = on_request(&mut state, &mut auth, 7, Ok(ClientMessage::Ping));
    assert_eq!(format!("{sent:?}"), "[Delivery { to: 7, msg: Pong }]");
}

fn online_at(state: &AppState, user: u128) -> Option<u64> {
    let mut sent = Vec::new();
    state.push(user, ServerMessage::Pong, &mut sent);
    sent.first().map(|delivery| delivery.to)
}

#[test]
fn disconnected_user_receives_nothing() {
    let mut state = AppState::new();
    state.open_session(1, 11);
    state.open_session(2, 12);

    on_disconnect(&mut state, 13);
    assert_eq!((online_at(&state, 1), online_at(&state, 2)), (Some(11), Some(12)));

    on_disconnect(&mut state, 11);
    assert_eq!((online_at(&state, 1), online_at(&state, 2)), (None, Some(12)));
}

#[test]
fn no_session_is_left_on_a_closed_connection() {
    let mut state = AppState::new();
    state.open_session(1, 11);
    state.open_session(2, 11);
    state.open_session(3, 12);
    on_disconnect(&mut state, 11);
    assert_eq!((online_at(&state, 1), online_at(&state, 2)), (None, None));
    assert_eq!(online_at(&state, 3), Some(12));
}

#[test]
fn user_that_moved_on_stays_online() {
    let mut state = AppState::new();
    state.open_session(1, 11);
    state.open_session(1, 12);
    on_disconnect(&mut state, 11);
    assert_eq!(online_at(&state, 1), Some(12));
    on_disconnect(&mut state, 12);
    assert_eq!(online_at(&state, 1), None);
}

#[test]
fn numbers_are_written_in_decimal() {
    assert_eq!(decimal_text(0), "0");
    assert_eq!(decimal_text(9), "9");
    assert_eq!(decimal_text(10), "10");
    assert_eq!(decimal_text(1952), "1952");
    assert_eq!(decimal_text(u64::MAX), "18446744073709551615");
    assert_eq!(join("a", "b"), "ab");
}
