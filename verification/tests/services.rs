use cadence::events::{BackendEvent, ClientIdSource, Command};
use cadence::model::{Provider, Track};
use cadence::services::Services;
use cadence::session::{ConnectionState, SessionEvent};

fn track(index: usize) -> Track {
    Track {
        provider: Provider::Spotify,
        source_id: format!("track-{index}"),
        spotify_uri: Some(format!("spotify:track:track-{index}")),
        isrc: None,
        title: format!("Song {}", index + 1),
        artist: "Cadence Ensemble".into(),
        artists: Vec::new(),
        album: "An afternoon in September".into(),
        album_ref: None,
        duration_ms: 240_000,
        artwork_url: None,
    }
}

#[test]
fn events_reach_the_part_of_the_app_they_belong_to() {
    let mut services = Services::new();

    let configured = services.dispatch(
        BackendEvent::SpotifyConfigured {
            generation: 0,
            client_id: "0123456789abcdef0123456789abcdef".into(),
            source: ClientIdSource::Saved,
        },
        0,
    );
    assert!(configured.unhandled.is_none());
    assert_eq!(services.session.client_id().map(String::as_str), Some("0123456789abcdef0123456789abcdef"));

    let ready = services.dispatch(BackendEvent::CatalogReady { generation: 0 }, 0);
    assert!(matches!(ready.session_events.as_slice(), [SessionEvent::Ready]));
    assert_eq!(services.session.state(), ConnectionState::Ready);

    let loaded = services.dispatch(
        BackendEvent::LibraryLoaded {
            generation: 0,
            liked_tracks: vec![track(0), track(1), track(1), track(2)],
            playlists: Vec::new(),
        },
        1_000,
    );
    assert!(loaded.library_loaded);
    assert_eq!(services.library.liked_tracks().len(), 4);

    let snapshot = services.dispatch(
        BackendEvent::PlaybackSnapshotLoaded { current: track(0), next: vec![track(1), track(2)], position_ms: 60_000 },
        1_000,
    );
    assert!(snapshot.unhandled.is_none());
    assert_eq!(services.player.queue().len(), 2);

    let played = services.dispatch(BackendEvent::Playing { spotify_uri: "spotify:track:track-0".into() }, 1_000);
    assert!(matches!(played.commands.as_slice(), [Command::MarkPlayed(track)] if track.source_id == "track-0"));

    let radio = services.dispatch(BackendEvent::RadioStarted { request_id: 4 }, 1_000);
    assert!(matches!(radio.unhandled, Some(BackendEvent::RadioStarted { request_id: 4 })));
}

#[test]
fn a_catalog_failure_reaches_both_the_account_and_the_window() {
    let mut services = Services::new();
    let failed = services.dispatch(BackendEvent::CatalogFailed { generation: 0, error: "offline".into() }, 0);
    assert_eq!(services.session.state(), ConnectionState::Ready);
    assert!(matches!(failed.unhandled, Some(BackendEvent::CatalogFailed { .. })));
}

#[test]
fn a_new_player_asks_for_the_volume() {
    let mut services = Services::new();
    let ready = services.dispatch(BackendEvent::PlaybackReady, 0);
    assert!(ready.resend_volume);
    assert!(ready.unhandled.is_none());
}
