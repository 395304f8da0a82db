//! The main window's state between its pages: where it is, what each catalog
//! page shows, and the error and notice lines over them. Backend, session and
//! page events are routed here; the requests they call for are handed back.

use vstd::prelude::*;

use crate::catalog::{AlbumPage, ArtistPage, PageEvent, PlaylistPage, SearchPage};
use crate::events::{BackendEvent, Command};
use crate::library::{Library, LibraryView};
use crate::model::{AlbumRef, ArtistRef, Playlist, Track};
use crate::player::{Player, PlayerView};
use crate::router::{Route, Router};
use crate::session::SessionEvent;

verus! {

/// A catalog request for the backend; its answer goes to the page that asked.
#[derive(Debug)]
pub enum CatalogRequest {
    Search(String),
    Playlist(Playlist),
    Artist(String),
    Album(String),
}

/// What an event or action leaves the application to do.
#[derive(Debug)]
pub enum WorkspaceAction {
    Nothing,
    Fetch(CatalogRequest),
    /// Deliver this command to the backend, then report whether it was taken.
    StartRadio(Command),
}

pub struct Workspace {
    pub router: Router,
    pub search: SearchPage,
    pub playlist: PlaylistPage,
    pub artist: ArtistPage,
    pub album: AlbumPage,
    pub last_error: Option<String>,
    pub action_notice: Option<String>,
    /// The radio request whose outcome the notice line is waiting for.
    pub pending_radio_request: Option<u64>,
    /// The last radio request id handed out.
    pub radio_request_id: u64,
}

/// The catalog request an action hands the backend, if any.
pub open spec fn fetch_of(action: WorkspaceAction) -> Option<CatalogRequest> {
    match action {
        WorkspaceAction::Fetch(request) => Some(request),
        _ => None,
    }
}

pub open spec fn starting_radio_notice() -> Seq<char> {
    "Starting track radio…"@
}

pub open spec fn radio_not_started_notice() -> Seq<char> {
    "Unable to start track radio"@
}

pub open spec fn radio_unavailable_notice(error: Seq<char>) -> Seq<char> {
    "Track radio unavailable: "@ + error
}

impl Workspace {
    pub fn new() -> (r: Workspace)
        ensures
            r.router == (Router {
                route: Route::LikedSongs,
                playlist_origin: Route::Playlists,
                artist_origin: Route::LikedSongs,
                album_origin: Route::LikedSongs,
                settings_origin: Route::LikedSongs,
            }),
            r.search.is_blank(),
            r.playlist.is_blank(),
            r.artist.is_blank(),
            r.album.is_blank(),
            r.last_error is None,
            r.action_notice is None,
            r.pending_radio_request is None,
            r.radio_request_id == 0,
    {
        Workspace {
            router: Router::new(),
            search: SearchPage::new(),
            playlist: PlaylistPage::new(),
            artist: ArtistPage::new(),
            album: AlbumPage::new(),
            last_error: None,
            action_notice: None,
            pending_radio_request: None,
            radio_request_id: 0,
        }
    }

    /// Every catalog page dropped its contents.
    pub open spec fn pages_cleared(self, after: Workspace) -> bool {
        &&& self.search.clears(after.search)
        &&& self.playlist.clears(after.playlist)
        &&& self.artist.clears(after.artist)
        &&& self.album.clears(after.album)
    }

    /// Drops every page's contents; a request still in flight is dropped
    /// along with its page's contents by the caller.
    pub fn clear_pages(&mut self)
        ensures
            old(self).pages_cleared(*final(self)),
            final(self).router == old(self).router,
            final(self).last_error == old(self).last_error,
            final(self).action_notice == old(self).action_notice,
            final(self).pending_radio_request == old(self).pending_radio_request,
            final(self).radio_request_id == old(self).radio_request_id,
    {
        self.search.clear();
        self.playlist.clear();
        self.artist.clear();
        self.album.clear();
    }

    /// Returns to the top of the app with every page empty, for when the
    /// account behind them is changing.
    pub fn restart_navigation(&mut self)
        ensures
            old(self).pages_cleared(*final(self)),
            final(self).router == (Router { route: Route::LikedSongs, ..old(self).router }),
            final(self).last_error == old(self).last_error,
            final(self).action_notice == old(self).action_notice,
            final(self).pending_radio_request is None,
            final(self).radio_request_id == old(self).radio_request_id,
    {
        self.router.navigate(Route::LikedSongs);
        self.clear_pages();
        self.pending_radio_request = None;
    }

    /// Forgets everything cached for the account that just went away.
    pub fn clear_account_data(&mut self, library: &mut Library, player: &mut Player)
        requires
            old(library).wf(),
        ensures
            final(library).wf(),
            final(library)@ == old(library)@.cleared(),
            final(player)@ == PlayerView::initial(),
            old(self).pages_cleared(*final(self)),
            final(self).router == old(self).router,
            final(self).last_error is None,
            final(self).action_notice is None,
            final(self).pending_radio_request == old(self).pending_radio_request,
            final(self).radio_request_id == old(self).radio_request_id,
    {
        library.clear();
        self.clear_pages();
        player.clear();
        self.last_error = None;
        self.action_notice = None;
    }

    /// Reacts to a change of account or connection.
    pub fn handle_session_event(&mut self, event: SessionEvent, library: &mut Library, player: &mut Player)
        requires
            old(library).wf(),
        ensures
            final(library).wf(),
            match event {
                SessionEvent::Restarted => {
                    &&& old(self).pages_cleared(*final(self))
                    &&& final(self).router == (Router { route: Route::LikedSongs, ..old(self).router })
                    &&& final(self).last_error == old(self).last_error
                    &&& final(self).action_notice == old(self).action_notice
                    &&& final(self).pending_radio_request is None
                    &&& final(library)@ == old(library)@
                    &&& final(player)@ == old(player)@
                },
                SessionEvent::LoggedOut => {
                    &&& final(self).router == (Router { route: Route::LikedSongs, ..old(self).router })
                    &&& old(self).pages_cleared(*final(self))
                    &&& final(self).last_error is None
                    &&& final(self).action_notice is None
                    &&& final(self).pending_radio_request is None
                    &&& final(library)@ == old(library)@.cleared()
                    &&& final(player)@ == PlayerView::initial()
                },
                SessionEvent::Ready => {
                    &&& *final(self) == (Workspace { last_error: None, ..*old(self) })
                    &&& final(library)@ == old(library)@
                    &&& final(player)@ == old(player)@
                },
                SessionEvent::Failed(error) => {
                    &&& *final(self) == (Workspace { last_error: Some(error), ..*old(self) })
                    &&& final(library)@ == old(library)@
                    &&& final(player)@ == old(player)@
                },
                SessionEvent::Notice(notice) => {
                    &&& *final(self) == (Workspace { action_notice: Some(notice), ..*old(self) })
                    &&& final(library)@ == old(library)@
                    &&& final(player)@ == old(player)@
                },
            },
            final(self).radio_request_id == old(self).radio_request_id,
    {
        match event {
            SessionEvent::Restarted => self.restart_navigation(),
            SessionEvent::Ready => self.last_error = None,
            SessionEvent::LoggedOut => {
                self.restart_navigation();
                self.clear_account_data(library, player);
            },
            SessionEvent::Failed(error) => self.last_error = Some(error),
            SessionEvent::Notice(notice) => self.action_notice = Some(notice),
        }
    }

    /// Applies the window's half of a backend event: failures for the
    /// notice lines, and the outcome of the pending radio request.
    pub fn handle_backend_event(&mut self, event: BackendEvent, generation: u64, library: &mut Library, player: &mut Player)
        requires
            old(library).wf(),
        ensures
            final(library).wf(),
            final(self).router == old(self).router,
            final(self).radio_request_id == old(self).radio_request_id,
            match event {
                BackendEvent::CatalogFailed { generation: failed, error } => if failed == generation {
                    &&& *final(self) == (Workspace { last_error: Some(error), ..*old(self) })
                    &&& final(library)@ == (LibraryView { loaded: true, boot_refreshing: false, ..old(library)@ })
                    &&& final(player)@ == old(player)@
                } else {
                    *final(self) == *old(self) && final(library)@ == old(library)@ && final(player)@ == old(player)@
                },
                BackendEvent::TrackFailed { error, .. } | BackendEvent::Error(error) => {
                    &&& *final(self) == (Workspace { last_error: Some(error), ..*old(self) })
                    &&& final(library)@ == old(library)@
                    &&& final(player)@ == old(player)@
                },
                BackendEvent::RadioFailed { request_id, error } => {
                    &&& final(library)@ == old(library)@
                    &&& if old(self).pending_radio_request == Some(request_id) {
                        &&& final(self).pending_radio_request is None
                        &&& final(self).action_notice matches Some(notice) && notice@ == radio_unavailable_notice(error@)
                        &&& *final(self) == (Workspace {
                            pending_radio_request: None,
                            action_notice: final(self).action_notice,
                            ..*old(self)
                        })
                        &&& final(player)@ == (PlayerView { loading: false, ..old(player)@ })
                    } else {
                        *final(self) == *old(self) && final(player)@ == old(player)@
                    }
                },
                BackendEvent::RadioStarted { request_id } => {
                    &&& final(library)@ == old(library)@
                    &&& final(player)@ == old(player)@
                    &&& if old(self).pending_radio_request == Some(request_id) {
                        *final(self) == (Workspace { pending_radio_request: None, action_notice: None, ..*old(self) })
                    } else {
                        *final(self) == *old(self)
                    }
                },
                BackendEvent::RadioCancelled { request_id } => {
                    &&& final(library)@ == old(library)@
                    &&& if old(self).pending_radio_request == Some(request_id) {
                        &&& *final(self) == (Workspace { pending_radio_request: None, action_notice: None, ..*old(self) })
                        &&& final(player)@ == (PlayerView { loading: false, ..old(player)@ })
                    } else {
                        *final(self) == *old(self) && final(player)@ == old(player)@
                    }
                },
                _ => *final(self) == *old(self) && final(library)@ == old(library)@ && final(player)@ == old(player)@,
            },
    {
        match event {
            BackendEvent::CatalogFailed { generation: failed, error } => {
                if failed == generation {
                    library.mark_loaded();
                    self.last_error = Some(error);
                }
            },
            BackendEvent::TrackFailed { error, .. } => {
                self.last_error = Some(error);
            },
            BackendEvent::RadioFailed { request_id, error } => {
                if self.pending_radio_request == Some(request_id) {
                    self.pending_radio_request = None;
                    player.set_loading(false);
                    let mut notice = String::from_str("Track radio unavailable: ");
                    notice.append(error.as_str());
                    self.action_notice = Some(notice);
                }
            },
            BackendEvent::RadioStarted { request_id } => {
                if self.pending_radio_request == Some(request_id) {
                    self.pending_radio_request = None;
                    self.action_notice = None;
                }
            },
            BackendEvent::RadioCancelled { request_id } => {
                if self.pending_radio_request == Some(request_id) {
                    self.pending_radio_request = None;
                    player.set_loading(false);
                    self.action_notice = None;
                }
            },
            BackendEvent::Error(error) => {
                self.last_error = Some(error);
            },
            _ => {},
        }
    }

    /// Runs the search typed in, and shows its page; a blank query does nothing.
    pub fn submit_search(&mut self) -> (r: Option<CatalogRequest>)
        ensures
            ({
                let submitted = old(self).search.submits(final(self).search, match r {
                    Some(CatalogRequest::Search(query)) => Some(query),
                    _ => None,
                });
                &&& submitted
                &&& r is None ==> *final(self) == (Workspace { search: final(self).search, ..*old(self) })
                &&& r is Some ==> (r matches Some(CatalogRequest::Search(_)) && *final(self) == (Workspace {
                    search: final(self).search,
                    last_error: None,
                    router: Router { route: Route::Search, ..old(self).router },
                    ..*old(self)
                }))
            }),
    {
        match self.search.submit() {
            Some(query) => {
                self.last_error = None;
                self.router.navigate(Route::Search);
                Some(CatalogRequest::Search(query))
            },
            None => None,
        }
    }

    /// How showing `artist` from `origin` leaves the workspace (`after`) and
    /// what it asks the backend for: an artist without an id changes nothing;
    /// otherwise the artist page opens it, the route becomes the artist page,
    /// and `origin` becomes the way back unless the same artist is shown
    /// again from its own page.
    pub open spec fn opens_artist(self, after: Workspace, artist: ArtistRef, origin: Route, now: u64, request: Option<CatalogRequest>) -> bool {
        if artist.source_id is None {
            after == self && request is None
        } else {
            exists|opened: crate::catalog::Opened| {
                &&& #[trigger] self.artist.opens(after.artist, artist, now, opened)
                &&& after == (Workspace {
                    artist: after.artist,
                    router: Router {
                        artist_origin: if opened.changed || self.router.route != Route::Artist {
                            origin
                        } else {
                            self.router.artist_origin
                        },
                        route: Route::Artist,
                        ..self.router
                    },
                    ..self
                })
                &&& match opened.fetch {
                    Some(id) => request == Some(CatalogRequest::Artist(id)),
                    None => request is None,
                }
            }
        }
    }

    /// The same as `opens_artist`, for an album.
    pub open spec fn opens_album(self, after: Workspace, album: AlbumRef, origin: Route, now: u64, request: Option<CatalogRequest>) -> bool {
        if album.source_id is None {
            after == self && request is None
        } else {
            exists|opened: crate::catalog::Opened| {
                &&& #[trigger] self.album.opens(after.album, album, now, opened)
                &&& after == (Workspace {
                    album: after.album,
                    router: Router {
                        album_origin: if opened.changed || self.router.route != Route::Album {
                            origin
                        } else {
                            self.router.album_origin
                        },
                        route: Route::Album,
                        ..self.router
                    },
                    ..self
                })
                &&& match opened.fetch {
                    Some(id) => request == Some(CatalogRequest::Album(id)),
                    None => request is None,
                }
            }
        }
    }

    /// Shows `playlist`, remembering `origin` as the way back.
    pub fn open_playlist(&mut self, playlist: Playlist, origin: Route) -> (r: CatalogRequest)
        ensures
            r == CatalogRequest::Playlist(playlist),
            final(self).playlist.selected == Some(playlist),
            final(self).playlist.tracks@ == Seq::<Track>::empty(),
            !final(self).playlist.loaded,
            final(self).playlist.error is None,
            *final(self) == (Workspace {
                playlist: final(self).playlist,
                router: Router { playlist_origin: origin, route: Route::Playlist, ..old(self).router },
                ..*old(self)
            }),
    {
        let playlist = self.playlist.open(playlist);
        self.router.open_playlist(origin);
        CatalogRequest::Playlist(playlist)
    }

    /// Shows `artist`, remembering `origin` as the way back unless the
    /// same artist is shown again from its own page.
    pub fn open_artist(&mut self, artist: ArtistRef, origin: Route, now: u64) -> (r: Option<CatalogRequest>)
        ensures
            old(self).opens_artist(*final(self), artist, origin, now, r),
    {
        if artist.source_id.is_none() {
            return None;
        }
        let opened = self.artist.open(artist, now);
        self.router.open_artist(origin, opened.changed);
        match opened.fetch {
            Some(id) => Some(CatalogRequest::Artist(id)),
            None => None,
        }
    }

    /// Shows `album`, remembering `origin` as the way back unless the same
    /// album is shown again from its own page.
    pub fn open_album(&mut self, album: AlbumRef, origin: Route, now: u64) -> (r: Option<CatalogRequest>)
        ensures
            old(self).opens_album(*final(self), album, origin, now, r),
    {
        if album.source_id.is_none() {
            return None;
        }
        let opened = self.album.open(album, now);
        self.router.open_album(origin, opened.changed);
        match opened.fetch {
            Some(id) => Some(CatalogRequest::Album(id)),
            None => None,
        }
    }

    /// Queues a radio seeded from `track`, tracking the request so that its
    /// outcome can clear the notice it puts up. The command goes to the
    /// backend whether or not a restore is in flight.
    pub fn start_track_radio(&mut self, track: Track) -> (r: Command)
        ensures
            ({
                let id = if old(self).radio_request_id == u64::MAX { 0 } else { (old(self).radio_request_id + 1) as u64 };
                &&& final(self).radio_request_id == id
                &&& final(self).pending_radio_request == Some(id)
                &&& final(self).action_notice matches Some(notice) && notice@ == starting_radio_notice()
                &&& r == Command::StartRadio { request_id: id, seed: track }
                &&& *final(self) == (Workspace {
                    radio_request_id: id,
                    pending_radio_request: Some(id),
                    action_notice: final(self).action_notice,
                    ..*old(self)
                })
            }),
    {
        self.action_notice = Some(String::from_str("Starting track radio…"));
        let request_id = crate::events::next_request_id(&mut self.radio_request_id);
        self.pending_radio_request = Some(request_id);
        Command::StartRadio { request_id, seed: track }
    }

    /// The backend did not take the radio command.
    pub fn radio_not_started(&mut self)
        ensures
            final(self).pending_radio_request is None,
            final(self).action_notice matches Some(notice) && notice@ == radio_not_started_notice(),
            *final(self) == (Workspace {
                pending_radio_request: None,
                action_notice: final(self).action_notice,
                ..*old(self)
            }),
    {
        self.pending_radio_request = None;
        self.action_notice = Some(String::from_str("Unable to start track radio"));
    }

    /// Acts on what a page asks for; `now` dates a detail page's freshness.
    pub fn handle_page_event(&mut self, event: PageEvent, now: u64) -> (r: WorkspaceAction)
        ensures
            final(self).radio_request_id == old(self).radio_request_id || event is StartRadio,
            match event {
                PageEvent::Loaded => *final(self) == (Workspace { last_error: None, ..*old(self) }) && r is Nothing,
                PageEvent::Failed(error) => *final(self) == (Workspace { last_error: Some(error), ..*old(self) })
                    && r is Nothing,
                PageEvent::OpenPlaylist(playlist) => {
                    &&& r == WorkspaceAction::Fetch(CatalogRequest::Playlist(playlist))
                    &&& final(self).playlist.selected == Some(playlist)
                    &&& final(self).playlist.tracks@ == Seq::<Track>::empty()
                    &&& !final(self).playlist.loaded
                    &&& final(self).playlist.error is None
                    &&& *final(self) == (Workspace {
                        playlist: final(self).playlist,
                        router: Router {
                            playlist_origin: old(self).router.route,
                            route: Route::Playlist,
                            ..old(self).router
                        },
                        ..*old(self)
                    })
                },
                PageEvent::OpenArtist(artist) => {
                    &&& old(self).opens_artist(*final(self), artist, old(self).router.route, now, fetch_of(r))
                    &&& (r is Fetch || r is Nothing)
                },
                PageEvent::OpenAlbum(album) => {
                    &&& old(self).opens_album(*final(self), album, old(self).router.route, now, fetch_of(r))
                    &&& (r is Fetch || r is Nothing)
                },
                PageEvent::StartRadio(track) => {
                    let id = if old(self).radio_request_id == u64::MAX { 0 } else { (old(self).radio_request_id + 1) as u64 };
                    &&& final(self).radio_request_id == id
                    &&& final(self).pending_radio_request == Some(id)
                    &&& final(self).action_notice matches Some(notice) && notice@ == starting_radio_notice()
                    &&& r == WorkspaceAction::StartRadio(Command::StartRadio { request_id: id, seed: track })
                    &&& *final(self) == (Workspace {
                        radio_request_id: id,
                        pending_radio_request: Some(id),
                        action_notice: final(self).action_notice,
                        ..*old(self)
                    })
                },
            },
    {
        let origin = self.router.route();
        match event {
            PageEvent::Loaded => {
                self.last_error = None;
                WorkspaceAction::Nothing
            },
            PageEvent::Failed(error) => {
                self.last_error = Some(error);
                WorkspaceAction::Nothing
            },
            PageEvent::OpenPlaylist(playlist) => WorkspaceAction::Fetch(self.open_playlist(playlist, origin)),
            PageEvent::OpenArtist(artist) => match self.open_artist(artist, origin, now) {
                Some(request) => WorkspaceAction::Fetch(request),
                None => WorkspaceAction::Nothing,
            },
            PageEvent::OpenAlbum(album) => match self.open_album(album, origin, now) {
                Some(request) => WorkspaceAction::Fetch(request),
                None => WorkspaceAction::Nothing,
            },
            PageEvent::StartRadio(track) => WorkspaceAction::StartRadio(self.start_track_radio(track)),
        }
    }
}

} // verus!
