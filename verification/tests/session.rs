use cadence::lifecycle::{after_activation_request, after_bind, after_recovery_bind, BindOutcome, LaunchStep};
use cadence::display::{account_detail, backend_failure_detail, profile_name};
use cadence::events::{BackendEvent, ClientIdSource, Command};
use cadence::model::UserProfile;
use cadence::session::{ConnectionState, Session, SessionEvent};
use cadence::worker::{check_startup_configuration, StartupConfiguration};

#[test]
fn client_id_validation_keeps_focus_and_only_submits_valid_input() {
    let mut session = Session::new();
    assert!(session.submit_client_id("not-a-client-id").is_none());
    assert_eq!(
        session.setup_error().map(String::as_str),
        Some("Enter the 32-character Client ID from your Spotify app.")
    );

    match session.submit_client_id(" 0123456789abcdef0123456789abcdef ") {
        Some(Command::ConfigureSpotify { client_id, .. }) => {
            assert_eq!(client_id, "0123456789abcdef0123456789abcdef")
        }
        other => panic!("expected a configuration command, got {other:?}"),
    }
    assert!(session.setup_error().is_none());
    assert_eq!(session.state(), ConnectionState::Connecting);
}

#[test]
fn answers_for_an_earlier_sign_in_are_ignored() {
    let mut session = Session::new();
    let generation = session.generation();
    let step = session.authenticate();
    assert!(matches!(step.commands[0], Command::Authenticate { .. }));
    assert!(matches!(step.events[0], SessionEvent::Restarted));
    assert_ne!(session.generation(), generation);

    let step = session.handle_backend_event(BackendEvent::CatalogReady { generation });
    assert!(step.events.is_empty());
    assert_ne!(session.state(), ConnectionState::Ready);

    let current = session.generation();
    let step = session.handle_backend_event(BackendEvent::CatalogReady { generation: current });
    assert!(matches!(step.events[0], SessionEvent::Ready));
    assert_eq!(session.state(), ConnectionState::Ready);
}

#[test]
fn a_logout_is_always_announced() {
    let mut session = Session::new();
    let step = session.handle_backend_event(BackendEvent::LoggedOut);
    assert!(matches!(step.events[0], SessionEvent::LoggedOut));
    assert_eq!(session.state(), ConnectionState::AuthorizationRequired);
}

#[test]
fn the_account_line_prefers_failures_over_the_connection_state() {
    let failure = "Spotify playback disconnected".to_owned();
    let other = "offline".to_owned();
    assert_eq!(account_detail(Some(&failure), Some(&other), ConnectionState::Ready), failure);
    assert_eq!(account_detail(None, Some(&other), ConnectionState::Ready), "offline");
    assert_eq!(account_detail(None, None, ConnectionState::Ready), "Spotify connected");
    assert_eq!(account_detail(None, None, ConnectionState::Connecting), "Connecting…");
    assert_eq!(profile_name(None), "Spotify account");
    let profile = UserProfile { display_name: "Marie".to_owned(), artwork_url: None };
    assert_eq!(profile_name(Some(&profile)), "Marie");
    assert_eq!(backend_failure_detail(None), "The backend stopped unexpectedly.");
}

#[test]
fn startup_refuses_an_invalid_environment_client_id() {
    match check_startup_configuration(Some(("short".to_owned(), ClientIdSource::Environment))) {
        StartupConfiguration::RejectEnvironment(events) => {
            assert!(matches!(&events[0], BackendEvent::SpotifyConfigured { generation: 0, .. }));
            assert!(matches!(
                &events[1],
                BackendEvent::SpotifyConfigurationFailed { error, .. }
                    if error == "SPOTIFY_CLIENT_ID must contain 32 hexadecimal characters"
            ));
        }
        other => panic!("expected a rejection, got {other:?}"),
    }
    assert!(matches!(
        check_startup_configuration(Some(("short".to_owned(), ClientIdSource::Saved))),
        StartupConfiguration::ForgetSaved
    ));
    assert!(matches!(check_startup_configuration(None), StartupConfiguration::Unconfigured));
    assert!(matches!(
        check_startup_configuration(Some(("0123456789abcdef0123456789abcdef".to_owned(), ClientIdSource::Saved))),
        StartupConfiguration::Use { .. }
    ));
}

#[test]
fn a_second_launch_hands_over_to_the_first() {
    assert_eq!(after_bind(BindOutcome::Bound), LaunchStep::StartPrimary);
    assert_eq!(after_bind(BindOutcome::InUse), LaunchStep::RequestActivation);
    assert_eq!(after_activation_request(true), LaunchStep::BecomeSecondary);
    assert_eq!(after_activation_request(false), LaunchStep::RecoverStaleSocket);
    assert_eq!(after_recovery_bind(BindOutcome::Bound), LaunchStep::StartPrimary);
    assert_eq!(after_recovery_bind(BindOutcome::InUse), LaunchStep::Fail);
}
