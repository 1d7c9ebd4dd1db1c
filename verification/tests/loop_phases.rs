use ryushi::command::CloseStyle;
use ryushi::event_loop::{loop_step, LoopEvent, LoopPhase, State};
use ryushi::info::{ShardInfo, ShardState};
use twilight_model::gateway::ShardId;

fn fresh_state() -> State {
    State::start(ShardInfo::new(None, ShardId::new(0, 1)), ShardState::Active)
}

#[test]
fn running_publishes_changes_once() {
    let mut state = fresh_state();
    state.info_changed = true;
    let (phase, actions) = loop_step(LoopPhase::Running, &mut state, LoopEvent::MessageHandled { stop: false });
    assert_eq!(phase, LoopPhase::Running);
    assert!(actions.close_with.is_none());
    assert_eq!(actions.publish, Some(state.info.clone()));
    assert!(!state.info_changed);
    let (_, actions) = loop_step(LoopPhase::Running, &mut state, LoopEvent::MessageHandled { stop: false });
    assert!(actions.publish.is_none());
}

#[test]
fn stopping_while_running_finishes_without_publishing() {
    let mut state = fresh_state();
    state.info_changed = true;
    let (phase, actions) = loop_step(LoopPhase::Running, &mut state, LoopEvent::MessageHandled { stop: true });
    assert_eq!(phase, LoopPhase::Finished);
    assert!(actions.publish.is_none());
    assert!(state.info_changed);
}

#[test]
fn a_close_request_closes_and_drains() {
    let mut state = fresh_state();
    let (phase, actions) = loop_step(LoopPhase::Running, &mut state, LoopEvent::CloseRequested(CloseStyle::Resume));
    assert_eq!(phase, LoopPhase::Draining);
    assert_eq!(actions.close_with, Some(CloseStyle::Resume));
    assert!(actions.publish.is_none());
    assert!(state.shutting_down);

    state.info_changed = true;
    let (phase, actions) = loop_step(LoopPhase::Draining, &mut state, LoopEvent::MessageHandled { stop: false });
    assert_eq!(phase, LoopPhase::Draining);
    assert!(actions.publish.is_none());
    assert!(actions.close_with.is_none());

    let (phase, actions) = loop_step(LoopPhase::Draining, &mut state, LoopEvent::CloseRequested(CloseStyle::Normal));
    assert_eq!(phase, LoopPhase::Draining);
    assert!(actions.close_with.is_none());

    let (phase, _) = loop_step(LoopPhase::Draining, &mut state, LoopEvent::MessageHandled { stop: true });
    assert_eq!(phase, LoopPhase::Finished);

    let (phase, actions) = loop_step(LoopPhase::Finished, &mut state, LoopEvent::MessageHandled { stop: false });
    assert_eq!(phase, LoopPhase::Finished);
    assert!(actions.publish.is_none());
}
