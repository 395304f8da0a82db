use cadence::events::ClientIdSource;
use cadence::mascot::MascotPreference;
use cadence::model::{Provider, Track};
use cadence::onboarding::{dashboard_url, developer_app_heading, login_options, onboarding_screen, OnboardingScreen};
use cadence::player_bar::{duration_label, queue_row_context_index, shows_mascot, toggle_face, ToggleFace};
use cadence::router::{nav_selected, shows_pinned, Route};
use cadence::session::ConnectionState;

fn track(duration_ms: u32) -> Track {
    Track {
        provider: Provider::Spotify,
        source_id: "track-0".into(),
        spotify_uri: None,
        isrc: None,
        title: "Song".into(),
        artist: "Artist".into(),
        artists: Vec::new(),
        album: "Album".into(),
        album_ref: None,
        duration_ms,
        artwork_url: None,
    }
}

#[test]
fn the_player_bar_shows_the_track_length_and_state() {
    assert_eq!(duration_label(None), "0:00");
    assert_eq!(duration_label(Some(&track(240_000))), "4:00");
    assert_eq!(toggle_face(true, true), ToggleFace::Spinner);
    assert_eq!(toggle_face(false, true), ToggleFace::Pause);
    assert_eq!(toggle_face(false, false), ToggleFace::Play);
    assert!(shows_mascot(true, MascotPreference::RomeoVespa));
    assert!(!shows_mascot(true, MascotPreference::NoMascot));
    assert!(!shows_mascot(false, MascotPreference::VespaDuo));
}

#[test]
fn a_queued_row_plays_past_the_current_track() {
    assert_eq!(queue_row_context_index(0, true), Some(1));
    assert_eq!(queue_row_context_index(0, false), Some(0));
}

#[test]
fn the_sidebar_marks_where_the_listener_is() {
    assert!(nav_selected(Route::Playlist, Route::Playlists));
    assert!(nav_selected(Route::Search, Route::Search));
    assert!(!nav_selected(Route::Playlists, Route::Playlist));
    assert!(shows_pinned(true, 2, false));
    assert!(!shows_pinned(true, 2, true));
    assert!(!shows_pinned(false, 2, false));
    assert!(!shows_pinned(true, 0, false));
}

#[test]
fn the_sign_in_window_follows_the_connection() {
    assert_eq!(onboarding_screen(ConnectionState::Failed), OnboardingScreen::BackendFailure);
    assert_eq!(onboarding_screen(ConnectionState::SetupRequired), OnboardingScreen::Setup);
    assert_eq!(onboarding_screen(ConnectionState::Connecting), OnboardingScreen::Login);
    assert_eq!(onboarding_screen(ConnectionState::Ready), OnboardingScreen::Waiting);

    let saved = login_options(ConnectionState::AuthorizationRequired, Some(ClientIdSource::Saved), false);
    assert!(saved.login_shown && !saved.login_pending && saved.change_app && !saved.open_dashboard);
    let environment = login_options(ConnectionState::Connecting, Some(ClientIdSource::Environment), true);
    assert!(!environment.login_shown && environment.login_pending && !environment.change_app);
    assert!(environment.open_dashboard);

    let id = "0123456789abcdef0123456789abcdef".to_owned();
    assert_eq!(
        dashboard_url(Some(&id)),
        "https://developer.spotify.com/dashboard/0123456789abcdef0123456789abcdef"
    );
    assert_eq!(developer_app_heading(Some(ClientIdSource::Environment)), "Configured by SPOTIFY_CLIENT_ID");
    assert_eq!(developer_app_heading(None), "Spotify developer app");
}
