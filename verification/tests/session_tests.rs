use rower_bridge::session::run_events;
use rower_bridge::session::step;
use rower_bridge::session::SessionEvent;
use rower_bridge::session::SessionState;
use rower_bridge::session::CONNECT_RETRY_BUDGET;

#[test]
fn retry_budget_is_four_attempts() {
    assert_eq!(CONNECT_RETRY_BUDGET, 4);
}

#[test]
fn success_on_fourth_attempt_reaches_streaming() {
    let events = vec![
        SessionEvent::ScanStarted,
        SessionEvent::MonitorFound,
        SessionEvent::ConnectFailed,
        SessionEvent::ConnectFailed,
        SessionEvent::ConnectFailed,
        SessionEvent::ConnectSucceeded,
    ];
    assert_eq!(
        run_events(&SessionState::Idle, &events),
        SessionState::Streaming
    );
}

#[test]
fn four_failures_terminate_the_session() {
    let events = vec![
        SessionEvent::ScanStarted,
        SessionEvent::MonitorFound,
        SessionEvent::ConnectFailed,
        SessionEvent::ConnectFailed,
        SessionEvent::ConnectFailed,
        SessionEvent::ConnectFailed,
    ];
    // The session parks in the terminal state without ever passing through
    // the streaming state, so no snapshot is ever distributed.
    let mut state = SessionState::Idle;
    for e in &events {
        state = step(&state, e);
        assert_ne!(state, SessionState::Streaming);
    }
    assert_eq!(state, SessionState::Terminated);
    assert_eq!(
        run_events(&SessionState::Idle, &events),
        SessionState::Terminated
    );
}

#[test]
fn attempts_count_up_to_the_budget() {
    let mut state = step(
        &step(&SessionState::Idle, &SessionEvent::ScanStarted),
        &SessionEvent::MonitorFound,
    );
    assert_eq!(state, SessionState::Connecting { attempt: 1 });
    for expected in 2..=4u32 {
        state = step(&state, &SessionEvent::ConnectFailed);
        assert_eq!(state, SessionState::Connecting { attempt: expected });
    }
    state = step(&state, &SessionEvent::ConnectFailed);
    assert_eq!(state, SessionState::Terminated);
}

#[test]
fn empty_scan_terminates() {
    let scanning = step(&SessionState::Idle, &SessionEvent::ScanStarted);
    assert_eq!(scanning, SessionState::Scanning);
    assert_eq!(
        step(&scanning, &SessionEvent::NoMonitorFound),
        SessionState::Terminated
    );
}

#[test]
fn stream_closure_terminates() {
    let streaming = run_events(
        &SessionState::Idle,
        &vec![
            SessionEvent::ScanStarted,
            SessionEvent::MonitorFound,
            SessionEvent::ConnectSucceeded,
        ],
    );
    assert_eq!(streaming, SessionState::Streaming);
    assert_eq!(
        step(&streaming, &SessionEvent::StreamClosed),
        SessionState::Terminated
    );
}

#[test]
fn unrelated_events_change_nothing() {
    assert_eq!(
        step(&SessionState::Idle, &SessionEvent::ConnectFailed),
        SessionState::Idle
    );
    assert_eq!(
        step(&SessionState::Terminated, &SessionEvent::ScanStarted),
        SessionState::Terminated
    );
    assert_eq!(
        step(&SessionState::Scanning, &SessionEvent::StreamClosed),
        SessionState::Scanning
    );
}
