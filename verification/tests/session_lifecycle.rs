use media_sessions::errors::ServerError;
use media_sessions::helpers::elapsed;
use media_sessions::peer_connection::PeerConnection;
use media_sessions::session::{Session, State};

#[test]
fn new_session_is_created_with_no_timestamps() {
    let session = Session::new("s1".to_string(), "fresh".to_string());
    assert_eq!(State::Created, session.state);
    assert_eq!(None, session.start_time);
    assert_eq!(None, session.stop_time);
    assert_eq!(0, session.peer_connection_count());
    assert!(session.producer.is_active());
}

#[test]
fn start_succeeds_exactly_once() {
    let mut session = Session::new("s1".to_string(), "demo".to_string());
    assert!(session.start().is_ok());
    assert_eq!(State::Started, session.state);

    let err = session.start().unwrap_err();
    assert!(matches!(err, ServerError::InvalidStateError(_)));
    assert_eq!(State::Started, session.state);

    let err = session.start().unwrap_err();
    assert!(matches!(err, ServerError::InvalidStateError(_)));
    assert_eq!(State::Started, session.state);
}

#[test]
fn stop_before_start_fails_and_leaves_created() {
    let mut session = Session::new("s1".to_string(), "demo".to_string());
    let err = session.stop().unwrap_err();
    assert!(matches!(err, ServerError::InvalidStateError(_)));
    assert_eq!(State::Created, session.state);
    assert_eq!(None, session.stop_time);
}

#[test]
fn stop_after_stop_fails_and_stays_stopped() {
    let mut session = Session::new("s1".to_string(), "demo".to_string());
    session.start().unwrap();
    session.stop().unwrap();
    let err = session.stop().unwrap_err();
    assert!(matches!(err, ServerError::InvalidStateError(_)));
    assert_eq!(State::Stopped, session.state);
}

#[test]
fn elapsed_is_exactly_stop_minus_start_and_stays_fixed() {
    let mut session = Session::new("s1".to_string(), "demo".to_string());
    session.start_at(100).unwrap();
    session.stop_at(250).unwrap();
    assert_eq!(Some(100), session.start_time);
    assert_eq!(Some(250), session.stop_time);
    assert_eq!(Some(150), session.elapsed_time());
    assert_eq!(Some(150), session.elapsed_time());
}

#[test]
fn elapsed_is_none_before_start() {
    let session = Session::new("s1".to_string(), "demo".to_string());
    assert_eq!(None, session.elapsed_time());
}

#[test]
fn elapsed_never_decreases_while_started() {
    let mut session = Session::new("s1".to_string(), "demo".to_string());
    session.start().unwrap();
    let first = session.elapsed_time().unwrap();
    let second = session.elapsed_time().unwrap();
    let third = session.elapsed_time().unwrap();
    assert!(first <= second);
    assert!(second <= third);
}

#[test]
fn distinct_peer_connections_are_all_registered() {
    let mut session = Session::new("s1".to_string(), "demo".to_string());
    let n: usize = 10;
    for i in 0..n {
        let pc = PeerConnection::new(format!("pc-{}", i), format!("peer {}", i));
        assert!(session.add_peer_connection(pc).is_ok());
    }
    assert_eq!(n, session.peer_connection_count());
    for i in 0..n {
        let id = format!("pc-{}", i);
        assert_eq!(id, session.get_peer_connection(&id).unwrap().id);
    }
}

#[test]
fn peer_connections_can_join_in_any_session_state() {
    let mut session = Session::new("s1".to_string(), "demo".to_string());
    session
        .add_peer_connection(PeerConnection::new("early".to_string(), "e".to_string()))
        .unwrap();
    session.start().unwrap();
    session
        .add_peer_connection(PeerConnection::new("running".to_string(), "r".to_string()))
        .unwrap();
    session.stop().unwrap();
    session
        .add_peer_connection(PeerConnection::new("late".to_string(), "l".to_string()))
        .unwrap();
    assert_eq!(3, session.peer_connection_count());
}

#[test]
fn duplicate_peer_connection_identifier_fails() {
    let mut session = Session::new("s1".to_string(), "demo".to_string());
    session
        .add_peer_connection(PeerConnection::new("pc-a".to_string(), "first".to_string()))
        .unwrap();
    let err = session
        .add_peer_connection(PeerConnection::new("pc-a".to_string(), "second".to_string()))
        .unwrap_err();
    assert_eq!(ServerError::DuplicatePeerConnectionError("pc-a".to_string()), err);
    assert_eq!(1, session.peer_connection_count());
    assert_eq!("first", session.get_peer_connection(&"pc-a".to_string()).unwrap().name);
}

#[test]
fn unknown_peer_connection_lookup_fails() {
    let session = Session::new("s1".to_string(), "demo".to_string());
    let err = session.get_peer_connection(&"never".to_string()).unwrap_err();
    assert_eq!(ServerError::InvalidPeerConnection("never".to_string()), err);
}

#[test]
fn peer_connection_ids_snapshot_is_in_insertion_order() {
    let mut session = Session::new("s1".to_string(), "demo".to_string());
    session
        .add_peer_connection(PeerConnection::new("b".to_string(), "two".to_string()))
        .unwrap();
    session
        .add_peer_connection(PeerConnection::new("a".to_string(), "one".to_string()))
        .unwrap();
    assert_eq!(vec!["b".to_string(), "a".to_string()], session.peer_connection_ids());
}

#[test]
fn teardown_cancels_the_producer_and_is_idempotent() {
    let mut session = Session::new("s1".to_string(), "demo".to_string());
    session.start().unwrap();
    assert!(session.producer.is_active());
    session.teardown();
    assert!(!session.producer.is_active());
    session.teardown();
    assert!(!session.producer.is_active());
    assert_eq!(State::Started, session.state);
}

#[test]
fn elapsed_helper_matches_its_definition() {
    assert_eq!(Some(0), elapsed(Some(7), Some(7)));
    assert_eq!(Some(42), elapsed(Some(8), Some(50)));
    assert_eq!(None, elapsed(Some(50), Some(8)));
    assert_eq!(None, elapsed(None, Some(8)));
    assert_eq!(None, elapsed(Some(8), None));
    assert_eq!(None, elapsed(None, None));
}

#[test]
fn error_message_carries_the_identifier() {
    let err = ServerError::InvalidSessionError("s-lost".to_string());
    assert_eq!("s-lost", err.message());
}
