use cadence::catalog::PageEvent;
use cadence::events::{BackendEvent, Command};
use cadence::library::Library;
use cadence::model::{ArtistRef, Provider, Track};
use cadence::player::Player;
use cadence::router::Route;
use cadence::session::SessionEvent;
use cadence::workspace::{CatalogRequest, Workspace, WorkspaceAction};

const NOW: u64 = 1_700_000_000_000;

fn track(id: &str) -> Track {
    Track {
        provider: Provider::Spotify,
        source_id: id.to_owned(),
        spotify_uri: Some(format!("spotify:track:{id}")),
        isrc: None,
        title: id.to_owned(),
        artist: "Artist".to_owned(),
        artists: Vec::new(),
        album: "Album".to_owned(),
        album_ref: None,
        duration_ms: 1_000,
        artwork_url: None,
    }
}

fn start_radio(workspace: &mut Workspace) -> u64 {
    match workspace.handle_page_event(PageEvent::StartRadio(track("seed")), NOW) {
        WorkspaceAction::StartRadio(Command::StartRadio { request_id, seed }) => {
            assert_eq!(seed.source_id, "seed");
            request_id
        }
        other => panic!("expected a radio request, got {other:?}"),
    }
}

#[test]
fn a_radio_request_puts_up_a_notice_until_it_starts() {
    let mut workspace = Workspace::new();
    let mut library = Library::new();
    let mut player = Player::new();
    let request_id = start_radio(&mut workspace);
    assert_eq!(request_id, 1);
    assert_eq!(workspace.action_notice.as_deref(), Some("Starting track radio…"));

    workspace.handle_backend_event(BackendEvent::RadioStarted { request_id: 7 }, 0, &mut library, &mut player);
    assert_eq!(workspace.pending_radio_request, Some(1));

    workspace.handle_backend_event(BackendEvent::RadioStarted { request_id }, 0, &mut library, &mut player);
    assert_eq!(workspace.pending_radio_request, None);
    assert!(workspace.action_notice.is_none());
}

#[test]
fn a_failed_radio_says_why() {
    let mut workspace = Workspace::new();
    let mut library = Library::new();
    let mut player = Player::new();
    let request_id = start_radio(&mut workspace);

    workspace.handle_backend_event(
        BackendEvent::RadioFailed { request_id, error: "no recommendations".to_owned() },
        0,
        &mut library,
        &mut player,
    );

    assert_eq!(workspace.action_notice.as_deref(), Some("Track radio unavailable: no recommendations"));
    assert!(!player.loading());
}

#[test]
fn an_undelivered_radio_request_is_reported() {
    let mut workspace = Workspace::new();
    start_radio(&mut workspace);
    workspace.radio_not_started();
    assert!(workspace.pending_radio_request.is_none());
    assert_eq!(workspace.action_notice.as_deref(), Some("Unable to start track radio"));
}

#[test]
fn catalog_failures_of_the_current_generation_settle_the_library() {
    let mut workspace = Workspace::new();
    let mut library = Library::new();
    let mut player = Player::new();
    workspace.handle_backend_event(
        BackendEvent::CatalogFailed { generation: 1, error: "old".to_owned() },
        2,
        &mut library,
        &mut player,
    );
    assert!(workspace.last_error.is_none());
    assert!(!library.loaded());

    workspace.handle_backend_event(
        BackendEvent::CatalogFailed { generation: 2, error: "offline".to_owned() },
        2,
        &mut library,
        &mut player,
    );
    assert_eq!(workspace.last_error.as_deref(), Some("offline"));
    assert!(library.loaded());
}

#[test]
fn opening_an_artist_remembers_where_it_came_from() {
    let mut workspace = Workspace::new();
    workspace.router.navigate(Route::Recent);
    let artist = ArtistRef { name: "Valli".to_owned(), source_id: Some("valli".to_owned()), spotify_uri: None };

    let action = workspace.handle_page_event(PageEvent::OpenArtist(artist), NOW);

    assert!(matches!(action, WorkspaceAction::Fetch(CatalogRequest::Artist(ref id)) if id == "valli"));
    assert_eq!(workspace.router.route(), Route::Artist);
    assert_eq!(workspace.router.back_target(), Some(Route::Recent));
}

#[test]
fn a_submitted_search_shows_the_search_page() {
    let mut workspace = Workspace::new();
    workspace.last_error = Some("old".to_owned());
    workspace.search.set_query(" Blue ".to_owned());

    let request = workspace.submit_search();

    assert!(matches!(request, Some(CatalogRequest::Search(ref query)) if query == "Blue"));
    assert_eq!(workspace.router.route(), Route::Search);
    assert!(workspace.last_error.is_none());
}

#[test]
fn logging_out_forgets_the_account_and_returns_to_the_top() {
    let mut workspace = Workspace::new();
    let mut library = Library::new();
    let mut player = Player::new();
    workspace.router.navigate(Route::Search);
    workspace.last_error = Some("old".to_owned());
    start_radio(&mut workspace);
    library.handle_backend_event(
        BackendEvent::LibraryLoaded { generation: 0, liked_tracks: vec![track("a")], playlists: Vec::new() },
        0,
        NOW,
    );

    workspace.handle_session_event(SessionEvent::LoggedOut, &mut library, &mut player);

    assert_eq!(workspace.router.route(), Route::LikedSongs);
    assert!(workspace.last_error.is_none());
    assert!(workspace.action_notice.is_none());
    assert!(workspace.pending_radio_request.is_none());
    assert!(library.liked_tracks().is_empty());
}

#[test]
fn page_failures_and_loads_drive_the_error_line() {
    let mut workspace = Workspace::new();
    workspace.handle_page_event(PageEvent::Failed("offline".to_owned()), NOW);
    assert_eq!(workspace.last_error.as_deref(), Some("offline"));
    workspace.handle_page_event(PageEvent::Loaded, NOW);
    assert!(workspace.last_error.is_none());
}
