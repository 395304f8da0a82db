use cadence::session::ConnectionState;
use cadence::windows::{desired_windows, DesiredWindows};

const NOT_READY: [ConnectionState; 5] = [
    ConnectionState::Starting,
    ConnectionState::Failed,
    ConnectionState::SetupRequired,
    ConnectionState::AuthorizationRequired,
    ConnectionState::Connecting,
];

#[test]
fn before_first_ready_only_the_onboarding_window_exists() {
    for state in NOT_READY {
        assert_eq!(desired_windows(state, false), DesiredWindows::OnboardingOnly, "{state:?}");
    }
}

#[test]
fn ready_shows_only_the_main_window() {
    assert_eq!(desired_windows(ConnectionState::Ready, false), DesiredWindows::MainOnly);
    assert_eq!(desired_windows(ConnectionState::Ready, true), DesiredWindows::MainOnly);
}

#[test]
fn losing_the_session_after_ready_keeps_main_and_adds_sign_in() {
    for state in NOT_READY {
        assert_eq!(desired_windows(state, true), DesiredWindows::MainWithOnboarding, "{state:?}");
    }
}
