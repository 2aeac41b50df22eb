use rocs::poll::{poll_until_terminal, state_is_terminal, OperationState, ScriptedSource, POLL_INTERVAL};

fn script(in_progress: usize, last: OperationState) -> ScriptedSource {
    let mut states = vec![OperationState::InProgress; in_progress];
    states.push(last);
    ScriptedSource::new(states)
}

#[test]
fn poller_checks_and_sleeps_n_plus_one_times() {
    let n = 3;
    let mut source = script(n, OperationState::Succeeded);
    let r = poll_until_terminal(&mut source);
    assert!(matches!(r, OperationState::Succeeded));
    assert_eq!(source.checks_made(), n + 1);
    assert_eq!(source.sleeps_made(), n + 1);
}

#[test]
fn poller_immediate_success_still_sleeps_once_first() {
    let mut source = script(0, OperationState::Succeeded);
    let r = poll_until_terminal(&mut source);
    assert!(matches!(r, OperationState::Succeeded));
    assert_eq!(source.checks_made(), 1);
    assert_eq!(source.sleeps_made(), 1);
}

#[test]
fn poller_returns_failed_state_without_error() {
    let mut source = script(2, OperationState::Failed);
    let r = poll_until_terminal(&mut source);
    assert!(matches!(r, OperationState::Failed));
    assert_eq!(source.checks_made(), 3);
    assert_eq!(source.sleeps_made(), 3);
}

#[test]
fn poller_stops_at_first_terminal_state() {
    // a terminal state followed by more states: the later ones are never read
    let states = vec![
        OperationState::InProgress,
        OperationState::Failed,
        OperationState::Succeeded,
    ];
    let mut source = ScriptedSource::new(states);
    let r = poll_until_terminal(&mut source);
    assert!(matches!(r, OperationState::Failed));
    assert_eq!(source.checks_made(), 2);
    assert_eq!(source.sleeps_made(), 2);
}

#[test]
fn terminal_states() {
    assert!(!state_is_terminal(&OperationState::InProgress));
    assert!(state_is_terminal(&OperationState::Succeeded));
    assert!(state_is_terminal(&OperationState::Failed));
}

#[test]
fn poll_interval_is_five_seconds() {
    assert_eq!(POLL_INTERVAL, 5);
}
