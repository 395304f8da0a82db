use cadence::catalog::catalog_data_is_fresh;
use cadence::catalog::CATALOG_STALE_MS;
use cadence::events::{BackendEvent, LibraryReload};
use cadence::library::{index_favorites, Library, REVALIDATION_DEBOUNCE_MS};
use cadence::model::{Playlist, Provider, Track};

const NOW: u64 = 1_700_000_000_000;

fn track(provider: Provider, source_id: &str) -> Track {
    Track {
        provider,
        source_id: source_id.to_owned(),
        spotify_uri: None,
        isrc: None,
        title: source_id.into(),
        artist: "Artist".into(),
        artists: Vec::new(),
        album: "Album".into(),
        album_ref: None,
        duration_ms: 1,
        artwork_url: None,
    }
}

fn playlist(source_id: &str) -> Playlist {
    Playlist {
        provider: Provider::Spotify,
        source_id: source_id.to_owned(),
        name: source_id.to_owned(),
        owner: "Owner".to_owned(),
        track_count: 3,
        artwork_url: None,
    }
}

#[test]
fn catalog_data_expires_after_the_stale_time() {
    assert!(!catalog_data_is_fresh(None, NOW));
    assert!(catalog_data_is_fresh(Some(NOW), NOW));
    assert!(!catalog_data_is_fresh(Some(NOW - CATALOG_STALE_MS - 1_000), NOW));
}

#[test]
fn favorite_index_separates_providers_and_deduplicates_tracks() {
    let spotify = track(Provider::Spotify, "same-id");
    let tidal = track(Provider::Tidal, "same-id");

    let index = index_favorites(&vec![spotify.clone(), spotify, tidal]);

    assert_eq!(index.ids_of(Provider::Spotify).len(), 1);
    assert!(index.contains(Provider::Spotify, "same-id"));
    assert!(index.contains(Provider::Tidal, "same-id"));
    assert!(!index.contains(Provider::Spotify, "other-id"));
}

#[test]
fn only_the_current_generation_replaces_the_library() {
    let mut library = Library::new();
    let stale = library.handle_backend_event(
        BackendEvent::LibraryLoaded {
            generation: 1,
            liked_tracks: vec![track(Provider::Spotify, "a")],
            playlists: Vec::new(),
        },
        2,
        NOW,
    );
    assert!(!stale.loaded && stale.unhandled.is_none());
    assert!(!library.loaded());

    let fresh = library.handle_backend_event(
        BackendEvent::LibraryLoaded {
            generation: 2,
            liked_tracks: vec![track(Provider::Spotify, "a")],
            playlists: vec![playlist("p")],
        },
        2,
        NOW,
    );
    assert!(fresh.loaded);
    assert!(library.loaded());
    assert_eq!(library.liked_tracks().len(), 1);
    assert_eq!(library.playlists().len(), 1);
    assert!(!library.reloading());
}

#[test]
fn the_boot_cache_shows_as_refreshing_until_spotify_answers() {
    let mut library = Library::new();
    library.handle_backend_event(
        BackendEvent::CachedLibrary { generation: 0, liked_tracks: Vec::new(), playlists: Vec::new() },
        0,
        NOW,
    );
    assert!(library.loaded());
    assert!(library.reloading());
    library.handle_backend_event(BackendEvent::LibraryUnchanged { generation: 0 }, 0, NOW);
    assert!(!library.reloading());
    assert!(!library.should_revalidate(NOW + 1_000));
}

#[test]
fn revalidation_waits_out_the_debounce() {
    let mut library = Library::new();
    assert!(library.should_revalidate(NOW));
    library.reload_started();
    assert!(!library.should_revalidate(NOW));
    assert!(library.reload_answered(
        Some(LibraryReload::Fresh((vec![track(Provider::Spotify, "a")], Vec::new()))),
        NOW
    ));
    assert!(!library.should_revalidate(NOW + REVALIDATION_DEBOUNCE_MS - 1));
    assert!(library.should_revalidate(NOW + REVALIDATION_DEBOUNCE_MS));
    // A clock that went backwards does not count as fresh.
    assert!(library.should_revalidate(NOW - 1));
}

#[test]
fn an_unchanged_or_failed_reload_keeps_the_contents() {
    let mut library = Library::new();
    library.reload_started();
    assert!(!library.reload_answered(None, NOW));
    assert!(!library.reloading());
    assert!(library.should_revalidate(NOW));
    library.reload_started();
    assert!(!library.reload_answered(Some(LibraryReload::Unchanged), NOW));
    assert!(!library.should_revalidate(NOW + 1));
}

#[test]
fn local_state_marks_favorites_and_pins() {
    let mut library = Library::new();
    let step = library.handle_backend_event(
        BackendEvent::LocalStateLoaded {
            favorites: vec![track(Provider::Spotify, "fav")],
            pinned_playlists: vec![playlist("pinned")],
            recently_played: vec![track(Provider::Tidal, "recent")],
        },
        0,
        NOW,
    );
    assert!(step.loaded);
    assert!(library.local_loaded());
    assert!(library.is_favorite(&track(Provider::Spotify, "fav")));
    assert!(!library.is_favorite(&track(Provider::Tidal, "fav")));
    assert!(library.is_playlist_pinned(&playlist("pinned")));
    assert!(!library.is_playlist_pinned(&playlist("other")));
    assert_eq!(library.recently_played().len(), 1);
}

#[test]
fn clearing_forgets_the_account_but_keeps_local_state() {
    let mut library = Library::new();
    library.handle_backend_event(
        BackendEvent::LocalStateLoaded {
            favorites: vec![track(Provider::Spotify, "fav")],
            pinned_playlists: Vec::new(),
            recently_played: Vec::new(),
        },
        0,
        NOW,
    );
    library.handle_backend_event(
        BackendEvent::LibraryLoaded {
            generation: 0,
            liked_tracks: vec![track(Provider::Spotify, "a")],
            playlists: Vec::new(),
        },
        0,
        NOW,
    );
    library.clear();
    assert!(!library.loaded());
    assert!(library.liked_tracks().is_empty());
    assert_eq!(library.favorites().len(), 1);
    assert!(library.is_favorite(&track(Provider::Spotify, "fav")));
    assert!(library.should_revalidate(NOW));
}

#[test]
fn a_failed_catalog_still_settles_the_library() {
    let mut library = Library::new();
    library.mark_loaded();
    assert!(library.loaded());
    assert!(!library.reloading());
}

#[test]
fn library_hands_back_events_for_other_parts_of_the_app() {
    let mut library = Library::new();
    let step = library.handle_backend_event(BackendEvent::QueueEnded, 0, NOW);
    assert!(matches!(step.unhandled, Some(BackendEvent::QueueEnded)));
}
