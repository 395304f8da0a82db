use cadence::model::{AlbumRef, ArtistRef, Provider, Track};
use cadence::track_list::{action_menu, MenuAction, TrackList};

fn track(index: usize) -> Track {
    Track {
        provider: Provider::Spotify,
        source_id: format!("track-{index}"),
        spotify_uri: Some(format!("spotify:track:track-{index}")),
        isrc: None,
        title: format!("Song {}", index + 1),
        artist: "Cadence Ensemble".into(),
        artists: vec![
            ArtistRef { name: "Uncredited".into(), source_id: None, spotify_uri: None },
            ArtistRef { name: "Frankie Valli".into(), source_id: Some("artist-valli".into()), spotify_uri: None },
        ],
        album: "Grease".into(),
        album_ref: Some(AlbumRef {
            name: "Grease".into(),
            source_id: Some("album-grease".into()),
            spotify_uri: None,
            artwork_url: None,
        }),
        duration_ms: 240_000,
        artwork_url: None,
    }
}

fn labels(entries: &[cadence::track_list::MenuEntry]) -> Vec<&'static str> {
    entries.iter().map(|entry| entry.label).collect()
}

#[test]
fn a_row_menu_offers_every_action_for_a_catalogued_track() {
    let entries = action_menu(&track(1), 4, false, false, true, &None);
    assert_eq!(
        labels(&entries),
        [
            "Play now",
            "Play next",
            "Add to queue",
            "Start track radio",
            "Add to favorites",
            "Go to artist",
            "Go to album",
            "Open track in Spotify"
        ]
    );
    assert!(matches!(entries[0].action, Some(MenuAction::PlayFrom(4))));
    assert!(matches!(&entries[5].action, Some(MenuAction::OpenArtist(artist)) if artist.name == "Frankie Valli"));
    assert!(
        matches!(&entries[7].action, Some(MenuAction::OpenUrl(url)) if url == "https://open.spotify.com/track/track-1")
    );
    assert!(matches!(&entries[4].action, Some(MenuAction::SetFavorite { favorite: true, .. })));
}

#[test]
fn favoriting_from_the_menu_does_not_start_playback() {
    let entries = action_menu(&track(1), 2, true, true, false, &Some("album-grease".into()));
    assert_eq!(entries[4].label, "Remove from favorites");
    assert!(matches!(&entries[4].action, Some(MenuAction::SetFavorite { favorite: false, .. })));
    assert!(entries[0].action.is_none());
    assert!(entries[1].action.is_none());
    assert!(entries[2].action.is_none());
    assert!(!labels(&entries).contains(&"Go to album"));
}

#[test]
fn the_same_track_listed_twice_opens_only_the_clicked_row() {
    let mut list = TrackList::new();
    list.show("liked".into(), 1, vec![track(1), track(1)]);
    list.toggle_menu(1);
    assert_eq!(list.menu_open.as_deref(), Some("track-1:1"));
    list.toggle_menu(0);
    assert_eq!(list.menu_open.as_deref(), Some("track-1:0"));
    list.toggle_menu(0);
    assert!(list.menu_open.is_none());
}

#[test]
fn showing_another_list_closes_the_menu() {
    let mut list = TrackList::new();
    list.show("liked".into(), 1, vec![track(1)]);
    list.toggle_menu(0);
    list.show("liked".into(), 1, vec![track(1)]);
    assert!(list.menu_open.is_some());
    list.show("liked".into(), 2, vec![track(2)]);
    assert!(list.menu_open.is_none());
    assert_eq!(list.tracks[0].source_id, "track-2");
    let (tracks, index) = list.play_from(0);
    assert_eq!((tracks.len(), index), (1, 0));
    assert!(!list.close_menu());
}
