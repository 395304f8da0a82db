use cadence::catalog::{
    playlist_header, AlbumPage, ArtistPage, ArtistSection, PageEvent, PlaylistListState, PlaylistPage, SearchKind,
    SearchPage, CATALOG_STALE_MS,
};
use cadence::model::{Album, AlbumRef, Artist, ArtistRef, Playlist, Provider, Track};

const NOW: u64 = 1_700_000_000_000;

fn artist_ref(id: Option<&str>) -> ArtistRef {
    ArtistRef { name: "The Seasons".to_owned(), source_id: id.map(str::to_owned), spotify_uri: None }
}

fn album_ref(id: &str) -> AlbumRef {
    AlbumRef { name: "Grease".to_owned(), source_id: Some(id.to_owned()), spotify_uri: None, artwork_url: None }
}

fn artist(id: &str) -> Artist {
    Artist {
        provider: Provider::Spotify,
        source_id: id.to_owned(),
        spotify_uri: None,
        name: "The Seasons".to_owned(),
        artwork_url: None,
    }
}

fn album(id: &str) -> Album {
    Album {
        provider: Provider::Spotify,
        source_id: id.to_owned(),
        spotify_uri: None,
        name: "Grease".to_owned(),
        artists: Vec::new(),
        release_date: None,
        artwork_url: None,
        track_count: Some(1),
    }
}

fn track(id: &str) -> Track {
    Track {
        provider: Provider::Spotify,
        source_id: id.to_owned(),
        spotify_uri: Some(format!("spotify:track:{id}")),
        isrc: None,
        title: id.to_owned(),
        artist: "Artist".to_owned(),
        artists: Vec::new(),
        album: "Album".to_owned(),
        album_ref: None,
        duration_ms: 1_000,
        artwork_url: None,
    }
}

#[test]
fn a_blank_search_starts_nothing() {
    let mut page = SearchPage::new();
    page.set_query("   ".to_owned());
    assert_eq!(page.submit(), None);
    assert!(!page.searching);
}

#[test]
fn a_search_runs_the_trimmed_query_and_keeps_its_answer() {
    let mut page = SearchPage::new();
    page.set_kind(SearchKind::Playlists);
    page.set_query("  Blue Train ".to_owned());
    assert_eq!(page.submit(), Some("Blue Train".to_owned()));
    assert!(page.searching && !page.loaded);

    let event = page.answered("Blue Train".to_owned(), Ok((vec![track("t")], Vec::new())));
    assert!(matches!(event, PageEvent::Loaded));
    assert_eq!(page.results_query, "Blue Train");
    assert!(page.loaded && !page.searching);
    assert_eq!(page.kind, SearchKind::Playlists);

    let event = page.answered("Other".to_owned(), Err("offline".to_owned()));
    assert!(matches!(event, PageEvent::Failed(ref error) if error == "offline"));
    assert_eq!(page.error.as_deref(), Some("offline"));
    assert_eq!(page.results_query, "Blue Train");
}

#[test]
fn opening_an_artist_without_an_id_does_nothing() {
    let mut page = ArtistPage::new();
    let opened = page.open(artist_ref(None), NOW);
    assert!(!opened.changed);
    assert!(opened.fetch.is_none());
    assert!(page.reference.is_none());
}

#[test]
fn a_fresh_artist_page_is_not_fetched_again() {
    let mut page = ArtistPage::new();
    let opened = page.open(artist_ref(Some("seasons")), NOW);
    assert!(opened.changed);
    assert_eq!(opened.fetch.as_deref(), Some("seasons"));
    page.fetched(artist("seasons"), vec![track("t")], vec![album("a")], NOW);
    page.set_section(ArtistSection::Discography);

    let again = page.open(artist_ref(Some("seasons")), NOW + 1_000);
    assert!(!again.changed);
    assert!(again.fetch.is_none());
    assert_eq!(page.section, ArtistSection::Discography);
    assert_eq!(page.tracks.len(), 1);

    let stale = page.open(artist_ref(Some("seasons")), NOW + CATALOG_STALE_MS);
    assert!(!stale.changed);
    assert_eq!(stale.fetch.as_deref(), Some("seasons"));
    assert!(page.loaded);
}

#[test]
fn a_different_artist_starts_from_an_empty_page() {
    let mut page = ArtistPage::new();
    page.open(artist_ref(Some("seasons")), NOW);
    page.fetched(artist("seasons"), vec![track("t")], vec![album("a")], NOW);
    page.set_section(ArtistSection::Discography);

    let opened = page.open(artist_ref(Some("valli")), NOW);
    assert!(opened.changed);
    assert_eq!(opened.fetch.as_deref(), Some("valli"));
    assert!(page.artist.is_none());
    assert!(page.tracks.is_empty());
    assert_eq!(page.section, ArtistSection::Popular);
    assert!(!page.loaded);
}

#[test]
fn a_failure_over_shown_contents_keeps_them() {
    let mut page = AlbumPage::new();
    page.open(album_ref("grease"), NOW);
    page.fetched(album("grease"), vec![track("t")], NOW);
    page.open(album_ref("grease"), NOW + CATALOG_STALE_MS);

    let event = page.failed("offline".to_owned());

    assert!(matches!(event, PageEvent::Failed(_)));
    assert!(page.error.is_none());
    assert_eq!(page.tracks.len(), 1);
    assert!(!page.loading);
}

#[test]
fn retrying_a_failed_album_shows_it_loading_again() {
    let mut page = AlbumPage::new();
    page.open(album_ref("grease"), NOW);
    page.failed("offline".to_owned());
    assert!(page.loaded);
    assert_eq!(page.error.as_deref(), Some("offline"));

    let opened = page.open(album_ref("grease"), NOW);
    assert!(!opened.changed);
    assert_eq!(opened.fetch.as_deref(), Some("grease"));
    assert!(!page.loaded);
    assert!(page.error.is_none());
}

#[test]
fn a_playlist_page_loads_what_it_was_opened_on() {
    let list = Playlist {
        provider: Provider::Spotify,
        source_id: "mix".to_owned(),
        name: "Mix".to_owned(),
        owner: "Owner".to_owned(),
        track_count: 1,
        artwork_url: None,
    };
    let mut page = PlaylistPage::new();
    assert_eq!(page.open(list.clone()), list);
    assert!(!page.loaded);
    assert!(matches!(page.answered(Ok(vec![track("t")])), PageEvent::Loaded));
    assert!(page.loaded);
    assert_eq!(page.tracks.len(), 1);
    assert_eq!(PlaylistPage::play(&page.tracks).map(|(tracks, index)| (tracks.len(), index)), Some((1, 0)));
    assert!(PlaylistPage::play(&[]).is_none());
    page.clear();
    assert!(page.selected.is_none());
}

fn mix(track_count: u32) -> Playlist {
    Playlist {
        provider: Provider::Spotify,
        source_id: "mix".to_owned(),
        name: "Mix".to_owned(),
        owner: "Owner".to_owned(),
        track_count,
        artwork_url: None,
    }
}

#[test]
fn the_playlist_header_names_the_playlist_and_counts_its_tracks() {
    assert_eq!(playlist_header(None), ("Playlist".to_owned(), "Spotify playlist".to_owned()));
    assert_eq!(playlist_header(Some(&mix(42))), ("Mix".to_owned(), "Spotify playlist · 42 tracks".to_owned()));
}

#[test]
fn the_playlist_list_shows_the_error_then_tracks_then_why_none() {
    let mut page = PlaylistPage::new();
    assert_eq!(page.list_state(), PlaylistListState::Message("No playlist selected".to_owned()));
    page.open(mix(1));
    assert_eq!(page.list_state(), PlaylistListState::Message("Loading playlist…".to_owned()));
    page.answered(Ok(Vec::new()));
    assert_eq!(page.list_state(), PlaylistListState::Message("This playlist is empty".to_owned()));
    page.answered(Ok(vec![track("a")]));
    assert_eq!(page.list_state(), PlaylistListState::Tracks);
    page.answered(Err("offline".to_owned()));
    assert_eq!(page.list_state(), PlaylistListState::Message("Unable to load playlist: offline".to_owned()));
}
