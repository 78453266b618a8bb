use media_sessions::errors::ServerError;
use media_sessions::registry::SessionRegistry;
use media_sessions::session::{Session, State};

#[test]
fn it_adds_a_session() {
    let session = Session::new("s-demo-0001".to_string(), "New Session".into());
    let session_id = session.id.clone();
    let mut data = SessionRegistry::new();
    data.add_session(session).unwrap();

    assert_eq!(session_id, data.get_session(&session_id).unwrap().id);
}

#[test]
fn it_starts_a_session() {
    let session = Session::new("s-demo-0002".to_string(), "New Session".into());
    let session_id = session.id.clone();
    let mut data = SessionRegistry::new();
    data.add_session(session).unwrap();

    data.start_session(&session_id).unwrap();

    assert_eq!(State::Started, data.get_session(&session_id).unwrap().state);
}

#[test]
fn it_stops_a_session() {
    let session = Session::new("s-demo-0003".to_string(), "New Session".into());
    let session_id = session.id.clone();
    let mut data = SessionRegistry::new();
    data.add_session(session).unwrap();

    data.start_session(&session_id).unwrap();
    data.stop_session(&session_id).unwrap();

    assert_eq!(State::Stopped, data.get_session(&session_id).unwrap().state);
}

#[test]
fn created_session_identifiers_are_twenty_one_chars() {
    let mut registry = SessionRegistry::new();
    let id = registry.create_session("demo".to_string()).unwrap();
    assert_eq!(21, id.len());
}

#[test]
fn created_sessions_get_distinct_identifiers() {
    let mut registry = SessionRegistry::new();
    let first = registry.create_session("one".to_string()).unwrap();
    let second = registry.create_session("two".to_string()).unwrap();
    assert_ne!(first, second);
    assert_eq!(2, registry.session_count());
    assert_eq!("one", registry.get_session(&first).unwrap().name);
    assert_eq!("two", registry.get_session(&second).unwrap().name);
}

#[test]
fn adding_a_duplicate_session_identifier_fails() {
    let mut registry = SessionRegistry::new();
    let taken = Session::new("s-taken".to_string(), "first".into());
    let usurper = Session::new("s-taken".to_string(), "second".into());
    registry.add_session(taken).unwrap();
    let err = registry.add_session(usurper).unwrap_err();
    assert_eq!(ServerError::DuplicateSessionError("s-taken".to_string()), err);
    assert_eq!(1, registry.session_count());
    assert_eq!("first", registry.get_session(&"s-taken".to_string()).unwrap().name);
}

#[test]
fn missing_session_lookup_fails() {
    let registry = SessionRegistry::new();
    let err = registry.get_session(&"absent".to_string()).unwrap_err();
    assert_eq!(ServerError::InvalidSessionError("absent".to_string()), err);
}

#[test]
fn starting_a_missing_session_fails() {
    let mut registry = SessionRegistry::new();
    let err = registry.start_session(&"ghost".to_string()).unwrap_err();
    assert_eq!(ServerError::InvalidSessionError("ghost".to_string()), err);
}

#[test]
fn dispatch_resolves_both_levels() {
    let mut registry = SessionRegistry::new();
    let session_id = registry.create_session("room".to_string()).unwrap();
    let pc_id = registry
        .create_peer_connection(&session_id, "alice".to_string())
        .unwrap();

    // Unknown session: the first level fails.
    let err = registry
        .get_peer_connection(&"nope".to_string(), &pc_id)
        .unwrap_err();
    assert_eq!(ServerError::InvalidSessionError("nope".to_string()), err);

    // Known session, unknown peer connection: the second level fails.
    let err = registry
        .get_peer_connection(&session_id, &"nope".to_string())
        .unwrap_err();
    assert_eq!(ServerError::InvalidPeerConnection("nope".to_string()), err);

    // Both levels resolve: the record comes back unchanged.
    let pc = registry.get_peer_connection(&session_id, &pc_id).unwrap();
    assert_eq!(pc_id, pc.id);
    assert_eq!("alice", pc.name);
}

#[test]
fn creating_a_peer_connection_leaves_the_session_lifecycle_untouched() {
    let mut registry = SessionRegistry::new();
    let session_id = registry.create_session("room".to_string()).unwrap();
    registry.start_session(&session_id).unwrap();
    let started_at = registry.get_session(&session_id).unwrap().start_time;

    registry
        .create_peer_connection(&session_id, "pc".to_string())
        .unwrap();

    let session = registry.get_session(&session_id).unwrap();
    assert_eq!(State::Started, session.state);
    assert_eq!(started_at, session.start_time);
    assert_eq!(1, session.peer_connection_count());
}

#[test]
fn shutdown_cancels_every_producer_and_keeps_sessions() {
    let mut registry = SessionRegistry::new();
    let first = registry.create_session("one".to_string()).unwrap();
    let second = registry.create_session("two".to_string()).unwrap();
    assert!(registry.get_session(&first).unwrap().producer.is_active());
    assert!(registry.get_session(&second).unwrap().producer.is_active());

    registry.shutdown();

    assert_eq!(2, registry.session_count());
    assert!(!registry.get_session(&first).unwrap().producer.is_active());
    assert!(!registry.get_session(&second).unwrap().producer.is_active());
}

#[test]
fn scenario_full_session_lifecycle() {
    let mut registry = SessionRegistry::new();

    let s1 = registry.create_session("demo".to_string()).unwrap();

    assert!(registry.start_session(&s1).is_ok());

    let err = registry.start_session(&s1).unwrap_err();
    assert!(matches!(err, ServerError::InvalidStateError(_)));

    let p1 = registry
        .create_peer_connection(&s1, "pc1".to_string())
        .unwrap();

    let handle = registry.get_peer_connection(&s1, &p1).unwrap();
    assert_eq!("pc1", handle.name);

    assert!(registry.stop_session(&s1).is_ok());

    let elapsed = registry.get_session(&s1).unwrap().elapsed_time();
    let fixed = elapsed.unwrap();
    let again = registry.get_session(&s1).unwrap().elapsed_time();
    assert_eq!(Some(fixed), again);
}
