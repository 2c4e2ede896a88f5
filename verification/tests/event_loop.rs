use ccconsensus::futures::{Flags, Polled, Tick};
use ccconsensus::node::{EventPublishResult, EventResult, Outcome, ServiceError};

fn flags(publishing: bool, new_chainhead: bool) -> Flags {
    Flags { publishing, new_chainhead }
}

#[test]
fn flags_start_cleared() {
    assert_eq!(Flags::new(), flags(false, false));
}

#[test]
fn the_timer_sets_the_publishing_flag() {
    let mut state = Flags::new();
    state.schedule_fired();
    assert_eq!(state, flags(true, false));
    state.schedule_fired();
    assert_eq!(state, flags(true, false));
    let mut state = flags(false, true);
    state.schedule_fired();
    assert_eq!(state, flags(true, true));
}

#[test]
fn a_new_chain_head_clears_both_flags_and_sets_the_timer_again() {
    let mut state = flags(true, true);
    assert!(state.chainhead_seen());
    assert_eq!(state, flags(false, false));
    let mut state = flags(false, true);
    assert!(state.chainhead_seen());
    assert_eq!(state, flags(false, false));
}

#[test]
fn without_a_new_chain_head_the_reactor_waits() {
    let mut state = flags(true, false);
    assert!(!state.chainhead_seen());
    assert_eq!(state, flags(true, false));
}

#[test]
fn a_published_block_clears_the_publishing_flag() {
    let mut state = flags(true, false);
    let tick = state.published(&Ok(Outcome::Publish(EventPublishResult::Published)));
    assert_eq!(tick, Tick::Continue);
    assert_eq!(state, flags(false, false));
}

#[test]
fn a_pending_block_keeps_the_publishing_flag() {
    let mut state = flags(true, true);
    let tick = state.published(&Ok(Outcome::Publish(EventPublishResult::Pending)));
    assert_eq!(tick, Tick::Continue);
    assert_eq!(state, flags(true, true));
}

#[test]
fn an_error_of_publishing_ends_the_pump() {
    let mut state = flags(true, false);
    let tick = state.published(&Err(ServiceError::NoChainHead));
    assert_eq!(tick, Tick::Shutdown);
    assert_eq!(state, flags(true, false));
}

#[test]
fn a_restart_flags_the_new_chain_head() {
    let mut state = flags(true, false);
    let tick = state.updated(&Polled::Handled(Ok(Outcome::Update(EventResult::Restart(false)))));
    assert_eq!(tick, Tick::Continue);
    assert_eq!(state, flags(true, true));
}

#[test]
fn a_restart_after_publishing_clears_the_publishing_flag() {
    let mut state = flags(true, false);
    let tick = state.updated(&Polled::Handled(Ok(Outcome::Update(EventResult::Restart(true)))));
    assert_eq!(tick, Tick::Continue);
    assert_eq!(state, flags(false, true));
}

#[test]
fn other_updates_leave_the_flags() {
    for before in [flags(false, false), flags(true, false), flags(false, true), flags(true, true)] {
        let mut state = before;
        let tick = state.updated(&Polled::Handled(Ok(Outcome::Update(EventResult::Continue))));
        assert_eq!(tick, Tick::Continue);
        assert_eq!(state, before);
        let tick = state.updated(&Polled::Handled(Err(ServiceError::BlockNotReady)));
        assert_eq!(tick, Tick::Continue);
        assert_eq!(state, before);
        let tick = state.updated(&Polled::Empty);
        assert_eq!(tick, Tick::Idle);
        assert_eq!(state, before);
    }
}

#[test]
fn shutdown_and_disconnect_end_the_pump() {
    let mut state = flags(true, true);
    let tick = state.updated(&Polled::Handled(Ok(Outcome::Update(EventResult::Shutdown))));
    assert_eq!(tick, Tick::Shutdown);
    assert_eq!(state, flags(true, true));
    let tick = state.updated(&Polled::Disconnected);
    assert_eq!(tick, Tick::Shutdown);
    assert_eq!(state, flags(true, true));
}

#[test]
fn a_round_of_the_event_loop() {
    // the timer fires, publishing is pending, a commit arrives, the reactor sees it
    let mut state = Flags::new();
    state.schedule_fired();
    assert_eq!(
        state.published(&Ok(Outcome::Publish(EventPublishResult::Pending))),
        Tick::Continue
    );
    assert!(state.publishing);
    assert_eq!(
        state.updated(&Polled::Handled(Ok(Outcome::Update(EventResult::Restart(false))))),
        Tick::Continue
    );
    assert!(state.chainhead_seen());
    assert_eq!(state, Flags::new());
    assert!(!state.chainhead_seen());
}
