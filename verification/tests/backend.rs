use cadence::events::{next_request_id, BackendEvent};
use cadence::model::{AlbumRef, ArtistRef, Provider, Track};
use cadence::queue::QueueError;
use cadence::radio::build_radio_context;
use cadence::worker::{favorite_needs_catalog_refresh, favorite_refresh_uris, held_play_failure, logout_outcome};

fn favorite() -> Track {
    Track {
        provider: Provider::Spotify,
        source_id: "track-id".to_owned(),
        spotify_uri: Some("spotify:track:track-id".to_owned()),
        isrc: None,
        title: "Track".to_owned(),
        artist: "Artist".to_owned(),
        artists: Vec::new(),
        album: "Album".to_owned(),
        album_ref: None,
        duration_ms: 180_000,
        artwork_url: None,
    }
}

#[test]
fn only_incomplete_spotify_favorites_need_catalog_refresh() {
    let legacy = favorite();
    assert!(favorite_needs_catalog_refresh(&legacy));

    let mut complete = legacy.clone();
    complete.artists.push(ArtistRef {
        name: "Artist".to_owned(),
        source_id: Some("artist-id".to_owned()),
        spotify_uri: Some("spotify:artist:artist-id".to_owned()),
    });
    complete.album_ref = Some(AlbumRef {
        name: "Album".to_owned(),
        source_id: Some("album-id".to_owned()),
        spotify_uri: Some("spotify:album:album-id".to_owned()),
        artwork_url: None,
    });
    assert!(!favorite_needs_catalog_refresh(&complete));

    let mut non_spotify = legacy;
    non_spotify.provider = Provider::Tidal;
    assert!(!favorite_needs_catalog_refresh(&non_spotify));
}

#[test]
fn radio_context_starts_with_seed_and_deduplicates_recommendations() {
    let seed = favorite();
    let mut recommendation = favorite();
    recommendation.source_id = "recommendation".to_owned();
    recommendation.spotify_uri = Some("spotify:track:recommendation".to_owned());
    recommendation.title = "Recommendation".to_owned();

    let tracks =
        build_radio_context(seed.clone(), vec![seed.clone(), recommendation.clone(), recommendation.clone()])
            .unwrap();

    assert_eq!(tracks, vec![seed, recommendation]);
}

#[test]
fn radio_context_rejects_an_empty_recommendation_set() {
    let seed = favorite();

    assert!(build_radio_context(seed.clone(), vec![seed]).is_err());
}

#[test]
fn radio_context_skips_tracks_that_cannot_be_listed() {
    let seed = favorite();
    let mut untitled = favorite();
    untitled.source_id = "untitled".to_owned();
    untitled.spotify_uri = Some("spotify:track:untitled".to_owned());
    untitled.title = "   ".to_owned();

    assert_eq!(build_radio_context(seed, vec![untitled]), Err(QueueError::NoPlayableTracks));
}

#[test]
fn generations_advance_with_wrapping_request_ids() {
    let mut generation = u64::MAX;
    assert_eq!(next_request_id(&mut generation), 0);
    assert_eq!(next_request_id(&mut generation), 1);
}

#[test]
fn incomplete_favorites_are_refreshed_by_uri() {
    let mut without_uri = favorite();
    without_uri.spotify_uri = None;
    without_uri.source_id = "bare".to_owned();
    let mut tidal = favorite();
    tidal.provider = Provider::Tidal;

    let uris = favorite_refresh_uris(&vec![favorite(), tidal, without_uri]);

    assert_eq!(uris, vec!["spotify:track:track-id".to_owned(), "spotify:track:bare".to_owned()]);
}

#[test]
fn a_held_play_fails_with_the_track_it_asked_for() {
    let events = held_play_failure(Some((vec![favorite()], 0)), "no network");

    assert_eq!(events.len(), 2);
    match &events[0] {
        BackendEvent::TrackFailed { spotify_uri, error } => {
            assert_eq!(spotify_uri, "spotify:track:track-id");
            assert_eq!(error, "Spotify playback is not connected: no network");
        }
        other => panic!("expected a track failure, got {other:?}"),
    }
    assert!(matches!(events[1], BackendEvent::PlaybackSettled));
    assert!(held_play_failure(None, "no network").is_empty());
}

#[test]
fn a_held_play_past_its_list_reports_no_uri() {
    let events = held_play_failure(Some((vec![favorite()], 3)), "offline");

    assert!(matches!(&events[0], BackendEvent::TrackFailed { spotify_uri, .. } if spotify_uri.is_empty()));
}

#[test]
fn logout_reports_every_failed_cleanup_step() {
    assert_eq!(logout_outcome(Vec::new()), Ok(()));
    assert_eq!(
        logout_outcome(vec!["store locked".to_owned(), "keychain denied".to_owned()]),
        Err("logout cleanup failed: store locked; keychain denied".to_owned())
    );
    assert_eq!(logout_outcome(vec!["one".to_owned()]), Err("logout cleanup failed: one".to_owned()));
}

#[test]
fn queue_errors_read_as_the_backend_words_them() {
    assert_eq!(QueueError::NoPlayableTracks.message(), "Spotify track radio returned no playable tracks");
    assert_eq!(QueueError::NothingPlaying.message(), "Nothing is currently playing");
}
