use media_sessions::registry::SessionRegistry;
use media_sessions::session::State;
use media_sessions::stats::VideoMetrics;

fn metrics(packets_sent: u64, bytes_sent: u64, frames_encoded: u64) -> VideoMetrics {
    VideoMetrics { packets_sent, bytes_sent, frames_encoded }
}

#[test]
fn stats_of_an_empty_session_is_an_empty_aggregate() {
    let mut registry = SessionRegistry::new();
    let session_id = registry.create_session("quiet".to_string()).unwrap();
    let outcomes: Vec<Option<VideoMetrics>> = Vec::new();

    let stats = registry.get_stats(&session_id, &outcomes).unwrap();

    assert_eq!(session_id, stats.session.session_id);
    assert_eq!("quiet", stats.session.name);
    assert_eq!(State::Created, stats.session.state);
    assert!(stats.peer_connections.is_empty());
}

#[test]
fn stats_of_a_missing_session_fails() {
    let registry = SessionRegistry::new();
    let outcomes: Vec<Option<VideoMetrics>> = Vec::new();
    assert!(registry.get_stats(&"ghost".to_string(), &outcomes).is_err());
}

#[test]
fn one_failed_collection_keeps_the_other_entries() {
    let mut registry = SessionRegistry::new();
    let session_id = registry.create_session("busy".to_string()).unwrap();
    let first = registry
        .create_peer_connection(&session_id, "alice".to_string())
        .unwrap();
    let _middle = registry
        .create_peer_connection(&session_id, "bob".to_string())
        .unwrap();
    let last = registry
        .create_peer_connection(&session_id, "carol".to_string())
        .unwrap();

    // The middle peer connection's collection failed.
    let outcomes = vec![Some(metrics(10, 1000, 30)), None, Some(metrics(20, 2000, 60))];

    let stats = registry.get_stats(&session_id, &outcomes).unwrap();

    assert_eq!(2, stats.peer_connections.len());
    assert_eq!(first, stats.peer_connections[0].peer_connection_id);
    assert_eq!("alice", stats.peer_connections[0].name);
    assert_eq!(metrics(10, 1000, 30), stats.peer_connections[0].metrics);
    assert_eq!(last, stats.peer_connections[1].peer_connection_id);
    assert_eq!("carol", stats.peer_connections[1].name);
    assert_eq!(metrics(20, 2000, 60), stats.peer_connections[1].metrics);
}

#[test]
fn all_collections_succeeding_fill_the_aggregate() {
    let mut registry = SessionRegistry::new();
    let session_id = registry.create_session("full".to_string()).unwrap();
    registry
        .create_peer_connection(&session_id, "alice".to_string())
        .unwrap();
    registry
        .create_peer_connection(&session_id, "bob".to_string())
        .unwrap();

    let outcomes = vec![Some(metrics(1, 2, 3)), Some(metrics(4, 5, 6))];
    let stats = registry.get_stats(&session_id, &outcomes).unwrap();

    assert_eq!(2, stats.peer_connections.len());
    assert_eq!("alice", stats.peer_connections[0].name);
    assert_eq!("bob", stats.peer_connections[1].name);
}

#[test]
fn stats_elapsed_time_is_fixed_once_stopped() {
    let mut registry = SessionRegistry::new();
    let session_id = registry.create_session("timed".to_string()).unwrap();
    registry.start_session_at(&session_id, 1000).unwrap();
    registry.stop_session_at(&session_id, 1600).unwrap();

    let outcomes: Vec<Option<VideoMetrics>> = Vec::new();
    let stats = registry.get_stats(&session_id, &outcomes).unwrap();

    assert_eq!(State::Stopped, stats.session.state);
    assert_eq!(Some(600), stats.session.elapsed_time);
}

#[test]
fn peer_connection_id_snapshot_aligns_with_outcomes() {
    let mut registry = SessionRegistry::new();
    let session_id = registry.create_session("snap".to_string()).unwrap();
    let a = registry
        .create_peer_connection(&session_id, "one".to_string())
        .unwrap();
    let b = registry
        .create_peer_connection(&session_id, "two".to_string())
        .unwrap();

    let ids = registry.peer_connection_ids(&session_id).unwrap();
    assert_eq!(vec![a, b], ids);

    let outcomes: Vec<Option<VideoMetrics>> = ids.iter().map(|_| None).collect();
    let stats = registry.get_stats(&session_id, &outcomes).unwrap();
    assert!(stats.peer_connections.is_empty());
}
