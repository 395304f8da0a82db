use cadence::mascot::{
    color, mascot_for, mascot_frame, mascot_index, mascot_options, travel_state, Mascot, MascotPreference,
    TRAVEL_LEG_MS,
};
use cadence::model::{AlbumRef, ArtistRef, Provider, Track};
use cadence::player_bar::{artist_credits, playing_album, playing_duration_ms, seek_by_target, seek_target};
use cadence::scrubber::Scrubber;

fn track() -> Track {
    Track {
        provider: Provider::Spotify,
        source_id: "track-0".to_owned(),
        spotify_uri: Some("spotify:track:track-0".to_owned()),
        isrc: None,
        title: "Song 1".to_owned(),
        artist: "Frankie Valli & The Four Seasons".to_owned(),
        artists: Vec::new(),
        album: "Grease".to_owned(),
        album_ref: None,
        duration_ms: 240_000,
        artwork_url: None,
    }
}

fn progress(position_ms: u32) -> (f32, bool) {
    let (leg, back) = travel_state(position_ms);
    (leg as f32 / TRAVEL_LEG_MS as f32, back)
}

#[test]
fn a_scrub_commits_once_on_release_to_the_track_it_began_on() {
    let mut scrubber = Scrubber::new();
    scrubber.begin(Some(90_000), "track-0".to_owned(), 240_000);
    scrubber.drag_to(Some(180_000));
    assert_eq!(scrubber.displayed_ms(1_000, 240_000), 180_000);
    assert_eq!(scrubber.release(Some("track-0")), Some(180_000));
    assert_eq!(scrubber.release(Some("track-0")), None);
    assert_eq!(scrubber.displayed_ms(1_000, 240_000), 1_000);
}

#[test]
fn a_scrub_whose_track_changed_does_not_seek() {
    let mut scrubber = Scrubber::new();
    scrubber.begin(Some(90_000), "track-0".to_owned(), 240_000);
    assert_eq!(scrubber.gesture_track(), Some("track-0"));
    assert_eq!(scrubber.release(Some("track-1")), None);
    assert!(!scrubber.dragging());
}

#[test]
fn escaping_a_scrub_abandons_it() {
    let mut scrubber = Scrubber::new();
    assert!(!scrubber.cancel());
    scrubber.begin(Some(10), "track-0".to_owned(), 240_000);
    assert!(scrubber.cancel());
    assert_eq!(scrubber.release(Some("track-0")), None);
}

#[test]
fn a_track_of_no_width_starts_no_scrub() {
    let mut scrubber = Scrubber::new();
    scrubber.begin(None, "track-0".to_owned(), 240_000);
    assert!(!scrubber.dragging());
}

#[test]
fn the_shown_position_never_passes_the_end() {
    let scrubber = Scrubber::new();
    assert_eq!(scrubber.displayed_ms(250_000, 240_000), 240_000);
}

#[test]
fn seeking_stays_inside_the_track() {
    assert_eq!(seek_target(300_000, Some(240_000)), 240_000);
    assert_eq!(seek_target(300_000, None), 300_000);
    assert_eq!(seek_by_target(2_000, -5_000, Some(240_000)), 0);
    assert_eq!(seek_by_target(120_000, 5_000, Some(240_000)), 125_000);
    assert_eq!(seek_by_target(u32::MAX - 1, i64::MAX, None), u32::MAX);
    assert_eq!(playing_duration_ms(Some(&track())), Some(240_000));
    let mut silent = track();
    silent.duration_ms = 0;
    assert_eq!(playing_duration_ms(Some(&silent)), None);
    assert_eq!(playing_duration_ms(None), None);
}

#[test]
fn credits_fall_back_to_the_joined_artist_line() {
    let plain = artist_credits(Some(&track()));
    assert_eq!(plain.len(), 1);
    assert_eq!(plain[0].name, "Frankie Valli & The Four Seasons");
    assert!(plain[0].source_id.is_none());

    let mut linked = track();
    linked.artists = vec![
        ArtistRef { name: "Frankie Valli".to_owned(), source_id: Some("valli".to_owned()), spotify_uri: None },
        ArtistRef { name: "The Four Seasons".to_owned(), source_id: Some("seasons".to_owned()), spotify_uri: None },
    ];
    assert_eq!(artist_credits(Some(&linked)), linked.artists);
    assert_eq!(artist_credits(None)[0].name, "");
}

#[test]
fn only_a_catalogued_album_is_linked() {
    let mut with_album = track();
    with_album.album_ref = Some(AlbumRef {
        name: "Grease".to_owned(),
        source_id: Some("album-grease".to_owned()),
        spotify_uri: None,
        artwork_url: None,
    });
    assert_eq!(playing_album(Some(&with_album)).and_then(|album| album.source_id), Some("album-grease".to_owned()));
    with_album.album_ref.as_mut().unwrap().source_id = None;
    assert!(playing_album(Some(&with_album)).is_none());
    assert!(playing_album(None).is_none());
}

#[test]
fn travel_reverses_without_leaving_the_track() {
    assert_eq!(progress(0), (0., false));
    assert_eq!(progress(TRAVEL_LEG_MS), (1., true));
    assert!(progress(TRAVEL_LEG_MS * 2 - 1).1);
}

#[test]
fn travel_position_is_derived_only_from_playback_position() {
    assert_eq!(progress(TRAVEL_LEG_MS / 2), (0.5, false));
}

#[test]
fn mascots_follow_the_preference_and_the_clock() {
    assert_eq!(mascot_for(MascotPreference::NoMascot), None);
    assert_eq!(mascot_for(MascotPreference::VespaDuo), Some(Mascot::VespaDuo));
    assert_eq!(mascot_frame(0), 0);
    assert_eq!(mascot_frame(750), 3);
    assert_eq!(mascot_frame(1_000), 0);
    assert_eq!(color('K'), Some(0x4A3D33));
    assert_eq!(color('.'), None);
    let options = mascot_options();
    for preference in [
        MascotPreference::NoMascot,
        MascotPreference::RomeoVespa,
        MascotPreference::VespaDuo,
        MascotPreference::TarantellaDancer,
    ] {
        assert_eq!(options[mascot_index(preference)].preference, preference);
    }
    assert_eq!(options[1].label, "Vespa Romeo");
}
