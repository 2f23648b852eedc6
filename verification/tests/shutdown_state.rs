use bird_pet::shutdown_state::ShutdownState;

#[test]
fn try_begin_shutdown_should_be_idempotent() {
    let mut state = ShutdownState::default();
    assert!(state.try_begin_shutdown());
    assert!(!state.try_begin_shutdown());
}

#[test]
fn mark_acked_should_set_ack_flag() {
    let mut state = ShutdownState::default();
    assert!(!state.is_acked());
    state.mark_acked();
    assert!(state.is_acked());
}

#[test]
fn first_begin_should_reset_ack_to_false() {
    let mut state = ShutdownState::default();
    state.mark_acked();
    assert!(state.is_acked());
    assert!(state.try_begin_shutdown());
    assert!(!state.is_acked());
}

#[test]
fn new_state_is_unacknowledged_and_accepts_first_begin() {
    let mut state = ShutdownState::new();
    assert!(!state.is_acked());
    assert!(state.try_begin_shutdown());
}

#[test]
fn is_acked_before_any_begin_is_false() {
    let state = ShutdownState::new();
    assert!(!state.is_acked());
    assert!(!state.is_acked());
}

#[test]
fn only_first_of_many_begins_returns_true() {
    let mut state = ShutdownState::new();
    let mut results = Vec::new();
    for _ in 0..25 {
        results.push(state.try_begin_shutdown());
    }
    assert_eq!(results.iter().filter(|r| **r).count(), 1);
    assert_eq!(results.iter().filter(|r| !**r).count(), 24);
    assert!(results[0]);
}

#[test]
fn single_begin_returns_true() {
    let mut state = ShutdownState::new();
    assert!(state.try_begin_shutdown());
}

#[test]
fn only_one_of_many_begins_through_a_shared_lock_returns_true() {
    let state = std::sync::Mutex::new(ShutdownState::new());
    let window_close = || state.lock().unwrap().try_begin_shutdown();
    let tray_quit = || state.lock().unwrap().try_begin_shutdown();
    let results = vec![tray_quit(), window_close(), tray_quit(), window_close()];
    assert_eq!(results, vec![true, false, false, false]);
}

#[test]
fn ack_after_begin_survives_later_begins() {
    let mut state = ShutdownState::new();
    assert!(state.try_begin_shutdown());
    state.mark_acked();
    assert!(state.is_acked());
    assert!(!state.try_begin_shutdown());
    assert!(state.is_acked());
    assert!(!state.try_begin_shutdown());
    assert!(state.is_acked());
}

#[test]
fn mark_acked_twice_is_the_same_as_once() {
    let mut state = ShutdownState::new();
    assert!(state.try_begin_shutdown());
    state.mark_acked();
    state.mark_acked();
    assert!(state.is_acked());
}

#[test]
fn mark_acked_does_not_start_the_sequence() {
    let mut state = ShutdownState::new();
    state.mark_acked();
    state.mark_acked();
    assert!(state.try_begin_shutdown());
}

#[test]
fn ack_on_one_state_does_not_reach_another() {
    let mut stale = ShutdownState::new();
    stale.mark_acked();
    assert!(stale.is_acked());
    let mut current = ShutdownState::new();
    assert!(current.try_begin_shutdown());
    assert!(!current.is_acked());
    assert!(stale.is_acked());
}
