use cadence::events::{BackendEvent, ClientIdSource, Command};
use cadence::worker::{refuse_during_logout, Setup, SetupAction, SetupEvent};

const ID: &str = "0123456789abcdef0123456789ABCDEF";

fn failed(action: &SetupAction, generation: u64, error: &str) -> bool {
    matches!(action, SetupAction::Send(BackendEvent::SpotifyConfigurationFailed { generation: g, error: e })
        if *g == generation && e == error)
}

fn configured(action: &SetupAction, generation: u64, client_id: &str, source: ClientIdSource) -> bool {
    matches!(action, SetupAction::Send(BackendEvent::SpotifyConfigured { generation: g, client_id: id, source: s })
        if *g == generation && id == client_id && *s == source)
}

fn asks_for_setup(actions: &[SetupAction]) -> bool {
    actions.len() == 2
        && matches!(actions[0], SetupAction::Send(BackendEvent::SetupRequired))
        && matches!(actions[1], SetupAction::AwaitCommand)
}

#[test]
fn a_saved_id_that_builds_finishes_setup() {
    let (mut setup, actions) = Setup::begin(Some((ID.to_owned(), ClientIdSource::Saved)), true);
    assert_eq!(actions.len(), 1);
    assert!(matches!(&actions[0], SetupAction::Build { client_id, cached_credentials: true } if client_id == ID));
    let actions = setup.step(SetupEvent::Built);
    assert_eq!(actions.len(), 2);
    assert!(configured(&actions[0], 0, ID, ClientIdSource::Saved));
    assert!(matches!(actions[1], SetupAction::Finish { reconfigured: false }));
}

#[test]
fn a_saved_id_that_fails_is_forgotten_and_setup_is_asked_for() {
    let (mut setup, _) = Setup::begin(Some((ID.to_owned(), ClientIdSource::Saved)), true);
    let actions = setup.step(SetupEvent::BuildFailed("rejected".to_owned()));
    assert_eq!(actions.len(), 4);
    assert!(failed(&actions[0], 0, "rejected"));
    assert!(matches!(actions[1], SetupAction::ForgetSaved));
    assert!(asks_for_setup(&actions[2..]));
    assert!(setup.configuration.is_none());
}

#[test]
fn an_environment_id_that_fails_stops_startup() {
    let (mut setup, _) = Setup::begin(Some((ID.to_owned(), ClientIdSource::Environment)), false);
    let actions = setup.step(SetupEvent::BuildFailed("rejected".to_owned()));
    assert_eq!(actions.len(), 2);
    assert!(failed(&actions[0], 0, "rejected"));
    assert!(matches!(actions[1], SetupAction::Stop));
}

#[test]
fn setup_without_an_id_asks_and_rejects_an_invalid_one() {
    let (mut setup, actions) = Setup::begin(None, true);
    assert!(asks_for_setup(&actions));
    let actions = setup.step(SetupEvent::Command(Command::ConfigureSpotify { generation: 4, client_id: "nope".to_owned() }));
    assert_eq!(actions.len(), 3);
    assert!(failed(&actions[0], 4, "Spotify Client ID must contain 32 hexadecimal characters"));
    assert!(asks_for_setup(&actions[1..]));
    let actions = setup.step(SetupEvent::Command(Command::Pause));
    assert!(asks_for_setup(&actions));
}

#[test]
fn an_offered_id_is_built_saved_and_reported() {
    let (mut setup, _) = Setup::begin(None, true);
    let offered = format!("  {ID}\n");
    let actions = setup.step(SetupEvent::Command(Command::ConfigureSpotify { generation: 7, client_id: offered }));
    assert_eq!(actions.len(), 1);
    assert!(matches!(&actions[0], SetupAction::Build { client_id, cached_credentials: false } if client_id == ID));
    let actions = setup.step(SetupEvent::Built);
    assert_eq!(actions.len(), 1);
    assert!(matches!(&actions[0], SetupAction::Save(id) if id == ID));
    let actions = setup.step(SetupEvent::Saved);
    assert_eq!(actions.len(), 2);
    assert!(configured(&actions[0], 7, ID, ClientIdSource::Saved));
    assert!(matches!(actions[1], SetupAction::Finish { reconfigured: true }));
    assert_eq!(setup.generation, 7);
}

#[test]
fn an_offered_id_that_fails_to_build_or_save_asks_again() {
    let (mut setup, _) = Setup::begin(None, true);
    setup.step(SetupEvent::Command(Command::ConfigureSpotify { generation: 2, client_id: ID.to_owned() }));
    let actions = setup.step(SetupEvent::BuildFailed("offline".to_owned()));
    assert_eq!(actions.len(), 3);
    assert!(failed(&actions[0], 2, "offline"));
    assert!(asks_for_setup(&actions[1..]));
    assert!(setup.candidate.is_none());

    setup.step(SetupEvent::Command(Command::ConfigureSpotify { generation: 3, client_id: ID.to_owned() }));
    setup.step(SetupEvent::Built);
    let actions = setup.step(SetupEvent::SaveFailed("disk full".to_owned()));
    assert_eq!(actions.len(), 3);
    assert!(failed(&actions[0], 3, "disk full"));
    assert!(asks_for_setup(&actions[1..]));
    assert!(setup.configuration.is_none());
}

#[test]
fn commands_wait_for_a_running_logout() {
    assert!(refuse_during_logout(false, &Command::Pause).is_none());
    assert!(refuse_during_logout(true, &Command::Logout { generation: 1 }).is_none());
    assert!(matches!(refuse_during_logout(true, &Command::Pause),
        Some(BackendEvent::Error(message)) if message == "Spotify logout is still finishing"));
}
