//! Everything the app knows about the listener's music: what Spotify holds
//! for the account, and what Cadence keeps locally about it.

use vstd::prelude::*;

use crate::events::{BackendEvent, LibraryReload};
use crate::model::{track_views, Playlist, Provider, Track, TrackView};

verus! {

/// Debounce between revalidations, so rapid window switches coalesce.
pub const REVALIDATION_DEBOUNCE_MS: u64 = 30_000;

/// The text of each id in a list.
pub open spec fn id_texts(ids: Seq<String>) -> Seq<Seq<char>> {
    ids.map_values(|id: String| id@)
}

/// Whether some favorite is the entry `provider`/`id`.
pub open spec fn has_favorite(favorites: Seq<TrackView>, provider: Provider, id: Seq<char>) -> bool {
    exists|i: int| 0 <= i < favorites.len() && #[trigger] favorites[i].provider == provider
        && favorites[i].source_id@ == id
}

/// Whether `ids` lists exactly the source ids of `provider`'s favorites, once each.
pub open spec fn lists(ids: Seq<Seq<char>>, favorites: Seq<TrackView>, provider: Provider) -> bool {
    &&& ids.no_duplicates()
    &&& forall|id: Seq<char>| #[trigger] ids.contains(id) <==> has_favorite(favorites, provider, id)
}

/// The ids after one more favorite was indexed.
pub open spec fn indexed(ids: Seq<Seq<char>>, track: TrackView, provider: Provider) -> Seq<Seq<char>> {
    if track.provider == provider && !ids.contains(track.source_id@) {
        ids.push(track.source_id@)
    } else {
        ids
    }
}

proof fn lemma_has_favorite_push(favorites: Seq<TrackView>, track: TrackView, provider: Provider, id: Seq<char>)
    ensures
        has_favorite(favorites.push(track), provider, id) <==> (has_favorite(favorites, provider, id)
            || (track.provider == provider && track.source_id@ == id)),
{
    let next = favorites.push(track);
    if has_favorite(next, provider, id) {
        let k = choose|k: int| 0 <= k < next.len() && #[trigger] next[k].provider == provider
            && next[k].source_id@ == id;
        if k < favorites.len() {
            assert(favorites[k] == next[k]);
        }
    }
    if has_favorite(favorites, provider, id) {
        let k = choose|k: int| 0 <= k < favorites.len() && #[trigger] favorites[k].provider == provider
            && favorites[k].source_id@ == id;
        assert(next[k] == favorites[k]);
    }
    if track.provider == provider && track.source_id@ == id {
        assert(next[favorites.len() as int] == track);
    }
}

proof fn lemma_indexed(ids: Seq<Seq<char>>, favorites: Seq<TrackView>, track: TrackView, provider: Provider)
    requires
        lists(ids, favorites, provider),
    ensures
        lists(indexed(ids, track, provider), favorites.push(track), provider),
{
    let after = indexed(ids, track, provider);
    assert forall|id: Seq<char>| #[trigger] after.contains(id) <==> has_favorite(
        favorites.push(track),
        provider,
        id,
    ) by {
        lemma_has_favorite_push(favorites, track, provider, id);
        if track.provider == provider && !ids.contains(track.source_id@) {
            if after.contains(id) {
                let j = choose|j: int| 0 <= j < after.len() && after[j] == id;
                if j < ids.len() {
                    assert(ids[j] == id);
                }
            }
            if ids.contains(id) {
                let j = choose|j: int| 0 <= j < ids.len() && ids[j] == id;
                assert(after[j] == id);
            }
            if id == track.source_id@ {
                assert(after[ids.len() as int] == id);
            }
        }
    }
}

/// The favorites' source ids, kept apart by provider, each at most once.
pub struct FavoriteIndex {
    spotify: Vec<String>,
    tidal: Vec<String>,
}

impl FavoriteIndex {
    pub closed spec fn ids(self, provider: Provider) -> Seq<Seq<char>> {
        match provider {
            Provider::Spotify => id_texts(self.spotify@),
            Provider::Tidal => id_texts(self.tidal@),
        }
    }

    /// The index lists exactly the favorites' ids, once each.
    pub open spec fn describes(self, favorites: Seq<TrackView>) -> bool {
        &&& lists(self.ids(Provider::Spotify), favorites, Provider::Spotify)
        &&& lists(self.ids(Provider::Tidal), favorites, Provider::Tidal)
    }

    /// Whether the index holds `provider`/`id`.
    pub fn contains(&self, provider: Provider, id: &str) -> (r: bool)
        ensures
            r == self.ids(provider).contains(id@),
    {
        let ids = self.ids_of(provider);
        let mut i: usize = 0;
        while i < ids.len()
            invariant
                i <= ids.len(),
                id_texts(ids@) == self.ids(provider),
                forall|k: int| 0 <= k < i ==> ids@[k]@ != id@,
            decreases ids.len() - i,
        {
            if crate::text::same_text(ids[i].as_str(), id) {
                assert(id_texts(ids@)[i as int] == id@);
                return true;
            }
            i = i + 1;
        }
        assert(!id_texts(ids@).contains(id@)) by {
            if id_texts(ids@).contains(id@) {
                let k = choose|k: int| 0 <= k < id_texts(ids@).len() && id_texts(ids@)[k] == id@;
                assert(ids@[k]@ == id@);
            }
        }
        false
    }

    /// The ids of `provider`'s favorites.
    pub fn ids_of(&self, provider: Provider) -> (r: &Vec<String>)
        ensures
            id_texts(r@) == self.ids(provider),
    {
        match provider {
            Provider::Spotify => &self.spotify,
            Provider::Tidal => &self.tidal,
        }
    }

    /// Adds `track` to the index unless it is there already.
    fn insert(&mut self, track: &Track)
        ensures
            final(self).ids(Provider::Spotify) == indexed(old(self).ids(Provider::Spotify), track@, Provider::Spotify),
            final(self).ids(Provider::Tidal) == indexed(old(self).ids(Provider::Tidal), track@, Provider::Tidal),
    {
        if !self.contains(track.provider, track.source_id.as_str()) {
            match track.provider {
                Provider::Spotify => self.spotify.push(track.source_id.clone()),
                Provider::Tidal => self.tidal.push(track.source_id.clone()),
            }
            assert(id_texts(self.spotify@) =~= indexed(id_texts(old(self).spotify@), track@, Provider::Spotify));
            assert(id_texts(self.tidal@) =~= indexed(id_texts(old(self).tidal@), track@, Provider::Tidal));
        }
    }
}

/// Indexes the favorites by provider, each id once.
pub fn index_favorites(favorites: &Vec<Track>) -> (r: FavoriteIndex)
    ensures
        r.describes(track_views(favorites@)),
{
    let mut index = FavoriteIndex { spotify: Vec::new(), tidal: Vec::new() };
    let ghost views = track_views(favorites@);
    assert(id_texts(index.spotify@) =~= Seq::empty());
    assert(id_texts(index.tidal@) =~= Seq::empty());
    assert(index.describes(views.take(0)));
    let mut i: usize = 0;
    while i < favorites.len()
        invariant
            i <= favorites.len(),
            views == track_views(favorites@),
            index.describes(views.take(i as int)),
        decreases favorites.len() - i,
    {
        let ghost before = index;
        assert(views.take(i + 1) =~= views.take(i as int).push(favorites@[i as int]@));
        index.insert(&favorites[i]);
        proof {
            lemma_indexed(before.ids(Provider::Spotify), views.take(i as int), favorites@[i as int]@, Provider::Spotify);
            lemma_indexed(before.ids(Provider::Tidal), views.take(i as int), favorites@[i as int]@, Provider::Tidal);
        }
        i = i + 1;
    }
    assert(views.take(favorites.len() as int) =~= views);
    index
}

/// Everything the app knows about the listener's music. Contents come from the
/// backend; times are wall-clock milliseconds handed in by the caller.
pub struct Library {
    liked_tracks: Vec<Track>,
    playlists: Vec<Playlist>,
    loaded: bool,
    favorites: Vec<Track>,
    favorite_index: FavoriteIndex,
    pinned_playlists: Vec<Playlist>,
    recently_played: Vec<Track>,
    local_loaded: bool,
    /// A reload asked by `revalidate` has not been answered yet.
    reload_in_flight: bool,
    /// The backend is revalidating the cached contents it served at boot.
    boot_refreshing: bool,
    /// When the contents last arrived.
    refreshed_at: Option<u64>,
}

/// The library as the contracts see it.
pub struct LibraryView {
    pub liked_tracks: Seq<TrackView>,
    pub playlists: Seq<Playlist>,
    pub loaded: bool,
    pub favorites: Seq<TrackView>,
    pub pinned_playlists: Seq<Playlist>,
    pub recently_played: Seq<TrackView>,
    pub local_loaded: bool,
    pub reload_in_flight: bool,
    pub boot_refreshing: bool,
    pub refreshed_at: Option<u64>,
}

impl View for Library {
    type V = LibraryView;

    closed spec fn view(&self) -> LibraryView {
        LibraryView {
            liked_tracks: track_views(self.liked_tracks@),
            playlists: self.playlists@,
            loaded: self.loaded,
            favorites: track_views(self.favorites@),
            pinned_playlists: self.pinned_playlists@,
            recently_played: track_views(self.recently_played@),
            local_loaded: self.local_loaded,
            reload_in_flight: self.reload_in_flight,
            boot_refreshing: self.boot_refreshing,
            refreshed_at: self.refreshed_at,
        }
    }
}

/// What one backend event asks of the application around the library.
pub struct LibraryStep {
    /// Fresh contents arrived, so stale failures can be cleared.
    pub loaded: bool,
    /// The event, when the surrounding application has its own work to do for it.
    pub unhandled: Option<BackendEvent>,
}

impl LibraryView {
    pub open spec fn initial() -> LibraryView {
        LibraryView {
            liked_tracks: Seq::empty(),
            playlists: Seq::empty(),
            loaded: false,
            favorites: Seq::empty(),
            pinned_playlists: Seq::empty(),
            recently_played: Seq::empty(),
            local_loaded: false,
            reload_in_flight: false,
            boot_refreshing: false,
            refreshed_at: None,
        }
    }

    /// The contents arrived less than the debounce ago; a clock that went
    /// backwards counts as stale.
    pub open spec fn fresh(self, now: u64) -> bool {
        match self.refreshed_at {
            Some(at) => at <= now && now - at < REVALIDATION_DEBOUNCE_MS,
            None => false,
        }
    }

    /// The library once the account's catalog is forgotten; what Cadence
    /// keeps locally stays.
    pub open spec fn cleared(self) -> LibraryView {
        LibraryView {
            liked_tracks: Seq::empty(),
            playlists: Seq::empty(),
            loaded: false,
            reload_in_flight: false,
            boot_refreshing: false,
            refreshed_at: None,
            ..self
        }
    }

    /// A reload is running, or the boot contents are still being checked.
    pub open spec fn reloading(self) -> bool {
        self.reload_in_flight || self.boot_refreshing
    }

    /// Whether `track` is one of the favorites.
    pub open spec fn is_favorite(self, track: TrackView) -> bool {
        has_favorite(self.favorites, track.provider, track.source_id@)
    }

    /// Whether `playlist` is pinned.
    pub open spec fn is_pinned(self, playlist: Playlist) -> bool {
        exists|i: int| 0 <= i < self.pinned_playlists.len() && #[trigger] self.pinned_playlists[i].same_entry(playlist)
    }

    /// The contents a reload or a load brought.
    pub open spec fn with_contents(self, liked_tracks: Seq<TrackView>, playlists: Seq<Playlist>) -> LibraryView {
        LibraryView { liked_tracks, playlists, loaded: true, ..self }
    }

    /// The library after a backend event, whether the app learns that fresh
    /// contents arrived, and whether the event is left to the caller.
    pub open spec fn step(self, event: BackendEvent, generation: u64, now: u64) -> (LibraryView, bool, bool) {
        match event {
            BackendEvent::LibraryLoaded { generation: loaded, liked_tracks, playlists } => if loaded == generation {
                (
                    LibraryView {
                        boot_refreshing: false,
                        refreshed_at: Some(now),
                        ..self.with_contents(track_views(liked_tracks@), playlists@)
                    },
                    true,
                    false,
                )
            } else {
                (self, false, false)
            },
            BackendEvent::CachedLibrary { generation: cached, liked_tracks, playlists } => if cached == generation {
                (
                    LibraryView {
                        boot_refreshing: true,
                        ..self.with_contents(track_views(liked_tracks@), playlists@)
                    },
                    true,
                    false,
                )
            } else {
                (self, false, false)
            },
            BackendEvent::LibraryUnchanged { generation: unchanged } => if unchanged == generation {
                (LibraryView { boot_refreshing: false, refreshed_at: Some(now), ..self }, false, false)
            } else {
                (self, false, false)
            },
            BackendEvent::LocalStateLoaded { favorites, pinned_playlists, recently_played } => (
                LibraryView {
                    favorites: track_views(favorites@),
                    pinned_playlists: pinned_playlists@,
                    recently_played: track_views(recently_played@),
                    local_loaded: true,
                    ..self
                },
                true,
                false,
            ),
            _ => (self, false, true),
        }
    }

    /// The library after a reload's answer; `None` when the reload failed or
    /// the backend stopped before answering. Also says whether fresh contents arrived.
    pub open spec fn answered(self, answer: Option<LibraryReload>, now: u64) -> (LibraryView, bool) {
        let settled = LibraryView { reload_in_flight: false, ..self };
        match answer {
            Some(LibraryReload::Fresh((liked_tracks, playlists))) => (
                LibraryView {
                    refreshed_at: Some(now),
                    ..settled.with_contents(track_views(liked_tracks@), playlists@)
                },
                true,
            ),
            Some(LibraryReload::Unchanged) => (LibraryView { refreshed_at: Some(now), ..settled }, false),
            None => (settled, false),
        }
    }
}

impl Library {
    /// The favorite index agrees with the favorites.
    pub closed spec fn wf(self) -> bool {
        self.favorite_index.describes(track_views(self.favorites@))
    }

    pub fn new() -> (r: Library)
        ensures
            r.wf(),
            r@ == LibraryView::initial(),
    {
        let favorites: Vec<Track> = Vec::new();
        let favorite_index = index_favorites(&favorites);
        let r = Library {
            liked_tracks: Vec::new(),
            playlists: Vec::new(),
            loaded: false,
            favorites,
            favorite_index,
            pinned_playlists: Vec::new(),
            recently_played: Vec::new(),
            local_loaded: false,
            reload_in_flight: false,
            boot_refreshing: false,
            refreshed_at: None,
        };
        assert(r@.liked_tracks =~= Seq::empty());
        assert(r@.favorites =~= Seq::empty());
        assert(r@.recently_played =~= Seq::empty());
        r
    }

    pub fn reloading(&self) -> (r: bool)
        ensures
            r == self@.reloading(),
    {
        self.reload_in_flight || self.boot_refreshing
    }

    /// Whether a reload should be asked for now: none is running and the
    /// contents are not fresh. Leaves the contents visible meanwhile.
    pub fn should_revalidate(&self, now: u64) -> (r: bool)
        ensures
            r == (!self@.reload_in_flight && !self@.fresh(now)),
    {
        let fresh = match self.refreshed_at {
            Some(at) => at <= now && now - at < REVALIDATION_DEBOUNCE_MS,
            None => false,
        };
        !self.reload_in_flight && !fresh
    }

    /// The backend took the reload request.
    pub fn reload_started(&mut self)
        requires
            old(self).wf(),
        ensures
            final(self).wf(),
            final(self)@ == (LibraryView { reload_in_flight: true, ..old(self)@ }),
    {
        self.reload_in_flight = true;
    }

    /// Applies a reload's answer; returns whether fresh contents arrived.
    pub fn reload_answered(&mut self, answer: Option<LibraryReload>, now: u64) -> (r: bool)
        requires
            old(self).wf(),
        ensures
            final(self).wf(),
            (final(self)@, r) == old(self)@.answered(answer, now),
    {
        self.reload_in_flight = false;
        match answer {
            Some(LibraryReload::Fresh((liked_tracks, playlists))) => {
                self.liked_tracks = liked_tracks;
                self.playlists = playlists;
                self.loaded = true;
                self.refreshed_at = Some(now);
                true
            },
            Some(LibraryReload::Unchanged) => {
                self.refreshed_at = Some(now);
                false
            },
            None => false,
        }
    }

    pub fn liked_tracks(&self) -> (r: &[Track])
        ensures
            track_views(r@) == self@.liked_tracks,
    {
        self.liked_tracks.as_slice()
    }

    pub fn playlists(&self) -> (r: &[Playlist])
        ensures
            r@ == self@.playlists,
    {
        self.playlists.as_slice()
    }

    pub fn loaded(&self) -> (r: bool)
        ensures
            r == self@.loaded,
    {
        self.loaded
    }

    pub fn favorites(&self) -> (r: &[Track])
        ensures
            track_views(r@) == self@.favorites,
    {
        self.favorites.as_slice()
    }

    pub fn pinned_playlists(&self) -> (r: &[Playlist])
        ensures
            r@ == self@.pinned_playlists,
    {
        self.pinned_playlists.as_slice()
    }

    pub fn recently_played(&self) -> (r: &[Track])
        ensures
            track_views(r@) == self@.recently_played,
    {
        self.recently_played.as_slice()
    }

    pub fn local_loaded(&self) -> (r: bool)
        ensures
            r == self@.local_loaded,
    {
        self.local_loaded
    }

    pub fn is_favorite(&self, track: &Track) -> (r: bool)
        requires
            self.wf(),
        ensures
            r == self@.is_favorite(track@),
    {
        self.favorite_index.contains(track.provider, track.source_id.as_str())
    }

    pub fn is_playlist_pinned(&self, playlist: &Playlist) -> (r: bool)
        ensures
            r == self@.is_pinned(*playlist),
    {
        let mut i: usize = 0;
        while i < self.pinned_playlists.len()
            invariant
                i <= self.pinned_playlists.len(),
                forall|k: int| 0 <= k < i ==> !(#[trigger] self.pinned_playlists@[k]).same_entry(*playlist),
            decreases self.pinned_playlists.len() - i,
        {
            let candidate = &self.pinned_playlists[i];
            if candidate.provider == playlist.provider && crate::text::same_text(
                candidate.source_id.as_str(),
                playlist.source_id.as_str(),
            ) {
                assert(self@.pinned_playlists[i as int].same_entry(*playlist));
                return true;
            }
            i = i + 1;
        }
        false
    }

    /// Marks the catalog as settled without contents, for when the fetch failed.
    pub fn mark_loaded(&mut self)
        requires
            old(self).wf(),
        ensures
            final(self).wf(),
            final(self)@ == (LibraryView { loaded: true, boot_refreshing: false, ..old(self)@ }),
    {
        self.loaded = true;
        self.boot_refreshing = false;
    }

    /// Forgets the account's catalog. Locally-owned state stays: it is not tied
    /// to the Spotify account and the backend re-sends it regardless.
    pub fn clear(&mut self)
        requires
            old(self).wf(),
        ensures
            final(self).wf(),
            final(self)@ == old(self)@.cleared(),
    {
        self.reload_in_flight = false;
        self.boot_refreshing = false;
        self.refreshed_at = None;
        self.liked_tracks = Vec::new();
        self.playlists = Vec::new();
        self.loaded = false;
        assert(self@.liked_tracks =~= Seq::empty());
    }

    /// Applies the library half of a backend event.
    pub fn handle_backend_event(&mut self, event: BackendEvent, generation: u64, now: u64) -> (r: LibraryStep)
        requires
            old(self).wf(),
        ensures
            final(self).wf(),
            ({
                let (state, loaded, passes) = old(self)@.step(event, generation, now);
                &&& final(self)@ == state
                &&& r.loaded == loaded
                &&& r.unhandled == (if passes { Some(event) } else { None })
            }),
    {
        match event {
            BackendEvent::LibraryLoaded { generation: loaded, liked_tracks, playlists } => {
                if loaded == generation {
                    self.liked_tracks = liked_tracks;
                    self.playlists = playlists;
                    self.loaded = true;
                    self.boot_refreshing = false;
                    self.refreshed_at = Some(now);
                    return LibraryStep { loaded: true, unhandled: None };
                }
                LibraryStep { loaded: false, unhandled: None }
            },
            BackendEvent::CachedLibrary { generation: cached, liked_tracks, playlists } => {
                if cached == generation {
                    self.liked_tracks = liked_tracks;
                    self.playlists = playlists;
                    self.loaded = true;
                    self.boot_refreshing = true;
                    return LibraryStep { loaded: true, unhandled: None };
                }
                LibraryStep { loaded: false, unhandled: None }
            },
            BackendEvent::LibraryUnchanged { generation: unchanged } => {
                if unchanged == generation {
                    self.boot_refreshing = false;
                    self.refreshed_at = Some(now);
                }
                LibraryStep { loaded: false, unhandled: None }
            },
            BackendEvent::LocalStateLoaded { favorites, pinned_playlists, recently_played } => {
                self.favorite_index = index_favorites(&favorites);
                self.favorites = favorites;
                self.pinned_playlists = pinned_playlists;
                self.recently_played = recently_played;
                self.local_loaded = true;
                LibraryStep { loaded: true, unhandled: None }
            },
            event => LibraryStep { loaded: false, unhandled: Some(event) },
        }
    }
}

/// Contents that just arrived, or were just confirmed unchanged, hold off
/// the next revalidation for the whole debounce window.
pub proof fn lemma_an_answer_holds_off_revalidation(
    library: LibraryView,
    answer: LibraryReload,
    now: u64,
    later: u64,
)
    requires
        now <= later,
        later - now < REVALIDATION_DEBOUNCE_MS,
    ensures
        ({
            let (after, _) = library.answered(Some(answer), now);
            after.fresh(later) && !after.reload_in_flight
        }),
{
}

/// A failed reload leaves the contents and their age alone, so the next
/// activation asks again.
pub proof fn lemma_a_failed_reload_changes_only_the_flight(library: LibraryView, now: u64)
    ensures
        library.answered(None, now) == (LibraryView { reload_in_flight: false, ..library }, false),
{
}

/// Forgetting the account keeps what Cadence stores locally: favorites,
/// pinned playlists and the listening history.
pub proof fn lemma_clearing_keeps_local_state(library: LibraryView, track: TrackView, playlist: Playlist)
    ensures
        library.cleared().favorites == library.favorites,
        library.cleared().pinned_playlists == library.pinned_playlists,
        library.cleared().recently_played == library.recently_played,
        library.cleared().local_loaded == library.local_loaded,
        library.cleared().is_favorite(track) == library.is_favorite(track),
        library.cleared().is_pinned(playlist) == library.is_pinned(playlist),
{
    let cleared = library.cleared();
    assert(cleared.pinned_playlists == library.pinned_playlists);
    if library.is_pinned(playlist) {
        let i = choose|i: int| 0 <= i < library.pinned_playlists.len() && #[trigger] library.pinned_playlists[i].same_entry(playlist);
        assert(cleared.pinned_playlists[i].same_entry(playlist));
    }
}

} // verus!
