//! Where the workspace is, and where each detail route came from.
//!
//! Detail routes are reachable from several places, so each remembers the
//! route that opened it. That is what the back button and the sidebar's
//! pinned playlists navigate to.

use vstd::prelude::*;

verus! {

#[derive(Clone, Copy, Debug, PartialEq, Eq, Structural)]
pub enum Route {
    LikedSongs,
    Favorites,
    Recent,
    Search,
    Playlists,
    Playlist,
    Artist,
    Album,
    Settings,
}

#[derive(Clone, Copy, Debug, PartialEq, Eq, Structural)]
pub struct Router {
    pub route: Route,
    pub playlist_origin: Route,
    pub artist_origin: Route,
    pub album_origin: Route,
    pub settings_origin: Route,
}

impl Router {
    /// Where the back button goes, for the routes that have one.
    pub open spec fn back(self) -> Option<Route> {
        match self.route {
            Route::Playlist => Some(self.playlist_origin),
            Route::Artist => Some(self.artist_origin),
            Route::Album => Some(self.album_origin),
            Route::Settings => Some(self.settings_origin),
            _ => None,
        }
    }

    /// The router after opening settings: it returns to wherever the current
    /// route would go back to, or to the current route itself.
    pub open spec fn with_settings(self) -> Router {
        Router {
            settings_origin: match self.back() {
                Some(origin) => origin,
                None => self.route,
            },
            route: Route::Settings,
            ..self
        }
    }

    pub fn new() -> (r: Router)
        ensures
            r == (Router {
                route: Route::LikedSongs,
                playlist_origin: Route::Playlists,
                artist_origin: Route::LikedSongs,
                album_origin: Route::LikedSongs,
                settings_origin: Route::LikedSongs,
            }),
    {
        Router {
            route: Route::LikedSongs,
            playlist_origin: Route::Playlists,
            artist_origin: Route::LikedSongs,
            album_origin: Route::LikedSongs,
            settings_origin: Route::LikedSongs,
        }
    }

    pub fn route(self) -> (r: Route)
        ensures
            r == self.route,
    {
        self.route
    }

    pub fn navigate(&mut self, route: Route)
        ensures
            *final(self) == (Router { route, ..*old(self) }),
    {
        self.route = route;
    }

    pub fn open_playlist(&mut self, origin: Route)
        ensures
            *final(self) == (Router { playlist_origin: origin, route: Route::Playlist, ..*old(self) }),
    {
        self.playlist_origin = origin;
        self.route = Route::Playlist;
    }

    /// Opens the artist page. `changed` says the page shows a different
    /// artist, which is what makes revisiting the same one from the same
    /// place keep the original way back rather than pointing at itself.
    pub fn open_artist(&mut self, origin: Route, changed: bool)
        ensures
            *final(self) == (Router {
                artist_origin: if changed || old(self).route != Route::Artist {
                    origin
                } else {
                    old(self).artist_origin
                },
                route: Route::Artist,
                ..*old(self)
            }),
    {
        if changed || self.route != Route::Artist {
            self.artist_origin = origin;
        }
        self.route = Route::Artist;
    }

    pub fn open_album(&mut self, origin: Route, changed: bool)
        ensures
            *final(self) == (Router {
                album_origin: if changed || old(self).route != Route::Album {
                    origin
                } else {
                    old(self).album_origin
                },
                route: Route::Album,
                ..*old(self)
            }),
    {
        if changed || self.route != Route::Album {
            self.album_origin = origin;
        }
        self.route = Route::Album;
    }

    pub fn open_settings(&mut self)
        ensures
            *final(self) == old(self).with_settings(),
    {
        self.settings_origin = match self.back_target() {
            Some(origin) => origin,
            None => self.route,
        };
        self.route = Route::Settings;
    }

    pub fn back_target(self) -> (r: Option<Route>)
        ensures
            r == self.back(),
    {
        match self.route {
            Route::Playlist => Some(self.playlist_origin),
            Route::Artist => Some(self.artist_origin),
            Route::Album => Some(self.album_origin),
            Route::Settings => Some(self.settings_origin),
            _ => None,
        }
    }

    /// Which route a pinned playlist returns to once the listener backs out
    /// of it. Opening one from a playlist keeps that playlist's own origin,
    /// so the trail does not loop back on itself.
    pub fn pinned_origin(self) -> (r: Route)
        ensures
            r == (if self.route == Route::Playlist {
                self.playlist_origin
            } else {
                self.route
            }),
    {
        if self.route == Route::Playlist {
            self.playlist_origin
        } else {
            self.route
        }
    }
}

/// A detail route goes back to wherever it was opened from.
pub proof fn lemma_detail_routes_go_back_to_their_origin(router: Router, origin: Route)
    ensures
        (Router { playlist_origin: origin, route: Route::Playlist, ..router }).back() == Some(origin),
        (Router { artist_origin: origin, route: Route::Artist, ..router }).back() == Some(origin),
        (Router { album_origin: origin, route: Route::Album, ..router }).back() == Some(origin),
{
}

/// Reopening settings from settings keeps the way back it had.
pub proof fn lemma_reopening_settings_keeps_the_way_back(router: Router)
    requires
        router.route == Route::Settings,
    ensures
        router.with_settings() == router,
        router.with_settings().back() == router.back(),
{
}

/// Settings returns past a detail route to where that route came from.
pub proof fn lemma_settings_returns_past_a_detail_route(router: Router)
    requires
        router.back() is Some,
    ensures
        router.with_settings().back() == router.back(),
{
}

/// Opening settings from a route without a detail view returns to that route.
pub proof fn lemma_settings_returns_to_a_top_route(router: Router)
    requires
        router.back() is None,
    ensures
        router.with_settings().back() == Some(router.route),
{
}

/// Whether the sidebar marks `target` as where the listener is: a playlist
/// counts as being in the playlists.
pub fn nav_selected(route: Route, target: Route) -> (r: bool)
    ensures
        r == (route == target || (target == Route::Playlists && route == Route::Playlist)),
{
    route == target || (target == Route::Playlists && route == Route::Playlist)
}

/// The pinned playlists show in the expanded sidebar once local state has
/// loaded and there is at least one.
pub fn shows_pinned(local_loaded: bool, pinned_count: usize, collapsed: bool) -> (r: bool)
    ensures
        r == (local_loaded && pinned_count > 0 && !collapsed),
{
    local_loaded && pinned_count > 0 && !collapsed
}

} // verus!
