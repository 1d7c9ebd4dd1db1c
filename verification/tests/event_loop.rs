use std::time::Duration;

use ryushi::event_loop::{apply_message, DispatchKind, HandlerCall, Incoming, Outcome, ShardSnapshot, SidecarNotice, State};
use ryushi::info::{Heartbeat, ShardInfo, ShardState, Timestamp};
use twilight_gateway::{EventTypeFlags, Session};
use twilight_model::gateway::{CloseFrame, ShardId};

const NOW: Timestamp = Timestamp { secs: 1_700_000_000, nanos: 123_456_789 };

const READY: &str = r#"{"t":"READY","s":1,"op":0,"d":{"application":{"flags":0,"id":"100"},"guilds":[{"id":"1","unavailable":true},{"id":"2","unavailable":true}],"resume_gateway_url":"wss://resume.discord.gg","session_id":"foo","user":{"accent_color":null,"avatar":null,"banner":null,"bot":true,"discriminator":"1212","id":"3","mfa_enabled":false,"username":"bar"},"v":10}}"#;

fn guild_create(id: u64) -> String {
    format!(r#"{{"t":"GUILD_CREATE","s":2,"op":0,"d":{{"id":"{id}","unavailable":true}}}}"#)
}

fn guild_delete(id: u64) -> String {
    format!(r#"{{"t":"GUILD_DELETE","s":3,"op":0,"d":{{"id":"{id}","unavailable":true}}}}"#)
}

const RESUMED: &str = r#"{"t":"RESUMED","s":4,"op":0,"d":{}}"#;
const HEARTBEAT_ACK: &str = r#"{"t":null,"s":null,"op":11,"d":null}"#;
const INVALID_SESSION: &str = r#"{"t":null,"s":null,"op":9,"d":false}"#;
const HELLO: &str = r#"{"t":null,"s":null,"op":10,"d":{"heartbeat_interval":41250}}"#;

fn fresh_state() -> State {
    State::start(ShardInfo::new(Some("c".to_string()), ShardId::new(0, 1)), ShardState::Active)
}

fn snapshot() -> ShardSnapshot {
    ShardSnapshot {
        state: ShardState::Active,
        session: Some(Session::new(1, "foo".to_string())),
        resume_url: Some("wss://shard.example".to_string()),
        latest_rtt: Some(Duration::from_millis(30)),
    }
}

fn pair(outcome: Outcome) -> (bool, Option<SidecarNotice>) {
    (outcome.stop, outcome.notice)
}

fn text(state: &mut State, json: &str, published: u128) -> (bool, Option<SidecarNotice>) {
    pair(apply_message(published, state, Incoming::Text(json.to_string()), snapshot(), NOW))
}

#[test]
fn start_takes_the_shards_state_and_is_not_ready() {
    let mut info = ShardInfo::new(None, ShardId::new(0, 1));
    info.full_ready = true;
    let state = State::start(info, ShardState::Identifying);
    assert_eq!(state.info.state, ShardState::Identifying);
    assert!(!state.info.full_ready);
    assert!(!state.info_changed);
    assert!(!state.shutting_down);
    assert_eq!(state.initial_guilds_remaining, 0);
    assert!(state.initial_guilds.is_empty());
}

#[test]
fn ready_records_the_session_and_initial_guilds() {
    let mut state = fresh_state();
    let (stop, notice) = text(&mut state, READY, 0);
    assert!(!stop);
    assert!(notice.is_none());
    assert_eq!(state.initial_guilds, vec![1, 2]);
    assert_eq!(state.initial_guilds_remaining, 2);
    assert_eq!(state.info.guild_count, 2);
    assert_eq!(state.info.ready_at, Some(NOW));
    assert_eq!(state.info.resume_url.as_deref(), Some("wss://resume.discord.gg"));
    assert_eq!(state.info.session, Some(Session::new(1, "foo".to_string())));
    assert!(!state.info.full_ready);
    assert!(state.info_changed);
}

#[test]
fn initial_guilds_make_the_shard_fully_ready() {
    let mut state = fresh_state();
    text(&mut state, READY, 0);
    state.info_changed = false;
    text(&mut state, &guild_create(1), 0);
    assert_eq!(state.initial_guilds_remaining, 1);
    assert_eq!(state.info.guild_count, 2);
    assert!(!state.info.full_ready);
    assert!(!state.info_changed);
    text(&mut state, &guild_create(2), 0);
    assert_eq!(state.initial_guilds_remaining, 0);
    assert_eq!(state.info.guild_count, 2);
    assert!(state.info.full_ready);
    assert!(state.info_changed);
}

#[test]
fn other_guilds_are_counted() {
    let mut state = fresh_state();
    text(&mut state, READY, 0);
    text(&mut state, &guild_create(5), 0);
    assert_eq!(state.info.guild_count, 3);
    assert_eq!(state.initial_guilds_remaining, 2);
    text(&mut state, &guild_delete(5), 0);
    assert_eq!(state.info.guild_count, 2);
    assert_eq!(state.initial_guilds_remaining, 2);
}

#[test]
fn deleting_an_initial_guild_counts_it_as_seen() {
    let mut state = fresh_state();
    text(&mut state, READY, 0);
    text(&mut state, &guild_delete(1), 0);
    assert_eq!(state.info.guild_count, 1);
    assert_eq!(state.initial_guilds_remaining, 1);
    text(&mut state, &guild_delete(2), 0);
    assert_eq!(state.info.guild_count, 0);
    assert!(state.info.full_ready);
}

#[test]
fn guild_count_saturates() {
    let mut state = fresh_state();
    state.info.guild_count = u16::MAX;
    text(&mut state, &guild_create(9), 0);
    assert_eq!(state.info.guild_count, u16::MAX);
    state.info.guild_count = 0;
    text(&mut state, &guild_delete(9), 0);
    assert_eq!(state.info.guild_count, 0);
}

#[test]
fn resumed_makes_the_shard_fully_ready() {
    let mut state = fresh_state();
    let (stop, _) = text(&mut state, RESUMED, 0);
    assert!(!stop);
    assert!(state.info.full_ready);
    assert!(state.info_changed);
}

#[test]
fn published_dispatches_go_to_the_sidecar() {
    let mut state = fresh_state();
    let (_, notice) = text(&mut state, READY, EventTypeFlags::READY.bits());
    match notice {
        Some(SidecarNotice::Dispatch(dispatch)) => {
            assert_eq!(dispatch.data, READY);
            assert_eq!(dispatch.event_type, twilight_model::gateway::event::EventType::Ready);
        }
        _ => panic!("expected the dispatch to be published"),
    }
    let mut state = fresh_state();
    let (_, notice) = text(&mut state, READY, EventTypeFlags::GUILD_CREATE.bits());
    assert!(notice.is_none());
}

#[test]
fn heartbeat_ack_records_the_round_trip() {
    let mut state = fresh_state();
    let (stop, notice) = text(&mut state, HEARTBEAT_ACK, 0);
    assert!(!stop);
    assert_eq!(state.info.heartbeat, Some(Heartbeat { at: NOW, rtt: Duration::from_millis(30) }));
    assert!(state.info_changed);
    match notice {
        Some(SidecarNotice::HeartbeatRtt(rtt)) => assert_eq!(rtt.0, Duration::from_millis(30)),
        _ => panic!("expected the round trip time"),
    }
}

#[test]
fn heartbeat_ack_without_latency_changes_nothing() {
    let mut state = fresh_state();
    let mut shard = snapshot();
    shard.latest_rtt = None;
    let (_, notice) = pair(apply_message(0, &mut state, Incoming::Text(HEARTBEAT_ACK.to_string()), shard, NOW));
    assert!(notice.is_none());
    assert!(state.info.heartbeat.is_none());
    assert!(!state.info_changed);
}

#[test]
fn invalid_session_forgets_the_session() {
    let mut state = fresh_state();
    text(&mut state, READY, 0);
    text(&mut state, HEARTBEAT_ACK, 0);
    state.info_changed = false;
    text(&mut state, INVALID_SESSION, 0);
    assert!(state.info.session.is_none());
    assert!(state.info.ready_at.is_none());
    assert!(state.info.resume_url.is_none());
    assert!(state.info.heartbeat.is_none());
    assert!(!state.info.full_ready);
    assert_eq!(state.info.guild_count, 2);
    assert!(state.info_changed);
}

#[test]
fn unreadable_payloads_change_nothing() {
    for json in ["not json", HELLO, r#"{"t":"NOT_AN_EVENT","s":1,"op":0,"d":{}}"#, r#"{"t":"GUILD_CREATE","s":1,"op":0,"d":{}}"#] {
        let mut state = fresh_state();
        let (stop, notice) = text(&mut state, json, u128::MAX);
        assert!(!stop);
        assert!(notice.is_none());
        assert!(!state.info_changed);
        assert_eq!(state.info, fresh_state().info);
    }
}

#[test]
fn a_new_shard_state_is_published() {
    let mut state = fresh_state();
    let mut shard = snapshot();
    shard.state = ShardState::Resuming;
    let (stop, _) = pair(apply_message(0, &mut state, Incoming::Text(HELLO.to_string()), shard, NOW));
    assert!(!stop);
    assert_eq!(state.info.state, ShardState::Resuming);
    assert!(state.info_changed);
}

#[test]
fn close_frames_stop_the_loop_only_when_shutting_down() {
    let mut state = fresh_state();
    state.info.heartbeat = Some(Heartbeat { at: Timestamp { secs: 1, nanos: 0 }, rtt: Duration::from_millis(1) });
    let (stop, notice) = pair(apply_message(0, &mut state, Incoming::Closed(Some(CloseFrame::RESUME)), snapshot(), NOW));
    assert!(!stop);
    assert!(notice.is_none());
    assert!(state.info.heartbeat.is_none());
    assert_eq!(state.info.session, Some(Session::new(1, "foo".to_string())));
    assert_eq!(state.info.resume_url.as_deref(), Some("wss://shard.example"));
    assert!(state.info_changed);

    state.begin_shutdown();
    assert!(state.shutting_down);
    let (stop, _) = pair(apply_message(0, &mut state, Incoming::Closed(None), snapshot(), NOW));
    assert!(stop);
}

#[test]
fn the_end_of_the_stream_stops_the_loop() {
    let mut state = fresh_state();
    let (stop, notice) = pair(apply_message(0, &mut state, Incoming::Ended, snapshot(), NOW));
    assert!(stop);
    assert!(notice.is_none());
}

#[test]
fn changed_info_is_taken_once() {
    let mut state = fresh_state();
    assert!(state.take_changed_info().is_none());
    text(&mut state, RESUMED, 0);
    let info = state.take_changed_info().expect("changed information");
    assert!(info.full_ready);
    assert_eq!(info, state.info);
    assert!(!state.info_changed);
    assert!(state.take_changed_info().is_none());
}

#[test]
fn finish_reports_the_final_state() {
    let mut state = fresh_state();
    text(&mut state, READY, 0);
    let info = state.finish(ShardState::Disconnected { reconnect_attempts: 2 });
    assert_eq!(info.state, ShardState::Disconnected { reconnect_attempts: 2 });
    assert_eq!(info.guild_count, 2);
}

#[test]
fn an_initial_guild_after_resuming_clears_readiness_without_marking_it() {
    let mut state = fresh_state();
    text(&mut state, READY, 0);
    text(&mut state, RESUMED, 0);
    assert!(state.info.full_ready);
    state.take_changed_info();
    text(&mut state, &guild_create(1), 0);
    assert!(!state.info.full_ready);
    assert_eq!(state.initial_guilds_remaining, 1);
    assert!(!state.info_changed);
}

#[test]
fn dispatches_are_handed_to_the_event_handler() {
    let mut state = fresh_state();
    let outcome = apply_message(0, &mut state, Incoming::Text(guild_create(7)), snapshot(), NOW);
    match outcome.hook {
        HandlerCall::Dispatch(decoded) => {
            match decoded.kind() {
                DispatchKind::GuildCreate { guild_id } => assert_eq!(guild_id, 7),
                _ => panic!("expected a guild create"),
            }
            match decoded.into_event() {
                twilight_model::gateway::event::DispatchEvent::GuildCreate(guild) => {
                    assert_eq!(guild.id().get(), 7)
                }
                _ => panic!("expected the guild create event"),
            }
        }
        _ => panic!("expected the guild create event"),
    }
}

#[test]
fn close_frames_and_errors_are_handed_to_the_event_handler() {
    let mut state = fresh_state();
    let outcome = apply_message(0, &mut state, Incoming::Closed(Some(CloseFrame::NORMAL)), snapshot(), NOW);
    match outcome.hook {
        HandlerCall::Close(frame) => assert_eq!(frame, Some(CloseFrame::NORMAL)),
        _ => panic!("expected the close frame"),
    }
    let outcome = apply_message(0, &mut state, Incoming::Ended, snapshot(), NOW);
    assert!(matches!(outcome.hook, HandlerCall::Nothing));
}

#[test]
fn other_payloads_call_no_hook() {
    for json in ["not json", HELLO, HEARTBEAT_ACK, INVALID_SESSION, r#"{"t":"NOT_AN_EVENT","s":1,"op":0,"d":{}}"#] {
        let mut state = fresh_state();
        let outcome = apply_message(u128::MAX, &mut state, Incoming::Text(json.to_string()), snapshot(), NOW);
        assert!(matches!(outcome.hook, HandlerCall::Nothing));
    }
}
