use std::time::Duration;

use ryushi::info::{Heartbeat, ShardInfo, ShardState, Timestamp};
use ryushi::spawn::{info_or_new, resume_config};
use twilight_gateway::Session;
use twilight_model::gateway::ShardId;

fn active_info() -> ShardInfo {
    ShardInfo {
        cluster_id: Some("cluster-a".to_string()),
        shard_id: ShardId::new(3, 8),
        session: Some(Session::new(42, "session-id".to_string())),
        ready_at: Some(Timestamp { secs: 1_700_000_000, nanos: 0 }),
        resume_url: Some("wss://resume.example".to_string()),
        full_ready: true,
        state: ShardState::Active,
        heartbeat: Some(Heartbeat { at: Timestamp { secs: 1_700_000_000, nanos: 500_000_000 }, rtt: Duration::from_millis(45) }),
        guild_count: 17,
    }
}

#[test]
fn new_info_is_disconnected_without_session() {
    let info = ShardInfo::new(Some("c1".to_string()), ShardId::new(1, 2));
    assert_eq!(info.cluster_id.as_deref(), Some("c1"));
    assert_eq!(info.shard_id, ShardId::new(1, 2));
    assert!(info.session.is_none());
    assert!(info.ready_at.is_none());
    assert!(info.resume_url.is_none());
    assert!(!info.full_ready);
    assert_eq!(info.state, ShardState::Disconnected { reconnect_attempts: 0 });
    assert!(info.heartbeat.is_none());
    assert_eq!(info.guild_count, 0);
}

#[test]
fn invalidate_session_forgets_only_the_session() {
    let mut info = active_info();
    info.invalidate_session();
    assert!(info.session.is_none());
    assert!(info.ready_at.is_none());
    assert!(info.resume_url.is_none());
    assert!(info.heartbeat.is_none());
    assert!(!info.full_ready);
    assert_eq!(info.cluster_id.as_deref(), Some("cluster-a"));
    assert_eq!(info.shard_id, ShardId::new(3, 8));
    assert_eq!(info.state, ShardState::Active);
    assert_eq!(info.guild_count, 17);
}

#[test]
fn invalidate_session_twice_is_once() {
    let mut once = active_info();
    once.invalidate_session();
    let mut twice = once.clone();
    twice.invalidate_session();
    assert_eq!(once, twice);
}

#[test]
fn clone_keeps_every_field() {
    let info = active_info();
    let copy = info.clone();
    assert_eq!(info, copy);
}

#[test]
fn resume_config_takes_stored_session_and_url() {
    let stored = Some(active_info());
    let (session, url) = resume_config(&stored);
    assert_eq!(session, Some(Session::new(42, "session-id".to_string())));
    assert_eq!(url.as_deref(), Some("wss://resume.example"));
    let (session, url) = resume_config(&None);
    assert!(session.is_none());
    assert!(url.is_none());
}

#[test]
fn info_or_new_prefers_stored_info() {
    let stored = active_info();
    let info = info_or_new(Some(stored.clone()), &Some("other".to_string()), ShardId::new(0, 1));
    assert_eq!(info, stored);
    let fresh = info_or_new(None, &Some("other".to_string()), ShardId::new(0, 1));
    assert_eq!(fresh, ShardInfo::new(Some("other".to_string()), ShardId::new(0, 1)));
}
