//! The catalog pages: search results, one playlist, one artist, one album.
//!
//! Each page decides what to show and when to ask the backend; the caller
//! sends the request it is handed and brings the answer back. Dropping the
//! pending request is how a newer one supersedes it, so an answer that comes
//! back always belongs to the latest request.

use vstd::prelude::*;

use crate::model::{opt_text, Album, AlbumRef, Artist, ArtistRef, Playlist, Track};

verus! {

/// How long fetched artist and album pages stay fresh, in milliseconds.
pub const CATALOG_STALE_MS: u64 = 300_000;

/// What a page, or anything nested inside one, asks the workspace to do.
#[derive(Clone, Debug)]
pub enum PageEvent {
    /// Fresh contents arrived, so any stale failure can be cleared.
    Loaded,
    Failed(String),
    OpenPlaylist(Playlist),
    OpenArtist(ArtistRef),
    OpenAlbum(AlbumRef),
    StartRadio(Track),
}

/// Which list a search shows.
#[derive(Clone, Copy, Debug, PartialEq, Eq, Structural)]
pub enum SearchKind {
    Tracks,
    Playlists,
}

/// Which half of an artist page is showing.
#[derive(Clone, Copy, Debug, PartialEq, Eq, Structural)]
pub enum ArtistSection {
    Popular,
    Discography,
}

/// Contents fetched at `loaded_at` are still fresh at `now`; a clock that
/// went backwards makes them stale.
pub open spec fn catalog_fresh(loaded_at: Option<u64>, now: u64) -> bool {
    match loaded_at {
        Some(at) => at <= now && now - at < CATALOG_STALE_MS,
        None => false,
    }
}

pub fn catalog_data_is_fresh(loaded_at: Option<u64>, now: u64) -> (r: bool)
    ensures
        r == catalog_fresh(loaded_at, now),
{
    match loaded_at {
        Some(at) => at <= now && now - at < CATALOG_STALE_MS,
        None => false,
    }
}

/// How a detail page treats a request to show the entry `id`.
#[derive(Clone, Copy, Debug, PartialEq, Eq, Structural)]
pub struct OpenPlan {
    /// The page already shows this entry.
    pub same: bool,
    /// It does, and the last attempt failed.
    pub retrying: bool,
    /// The entry must be fetched.
    pub refresh: bool,
}

/// The plan for showing `id` on a page that shows `current`.
pub open spec fn plan_open(
    current: Option<Seq<char>>,
    failed: bool,
    loading: bool,
    loaded_at: Option<u64>,
    id: Seq<char>,
    now: u64,
) -> OpenPlan {
    let same = current == Some(id);
    OpenPlan {
        same,
        retrying: same && failed,
        refresh: !same || (!loading && !catalog_fresh(loaded_at, now)),
    }
}

fn open_plan(
    current: &Option<String>,
    failed: bool,
    loading: bool,
    loaded_at: Option<u64>,
    id: &str,
    now: u64,
) -> (r: OpenPlan)
    ensures
        r == plan_open(opt_text(*current), failed, loading, loaded_at, id@, now),
{
    let same = match current {
        Some(current) => crate::text::same_text(current.as_str(), id),
        None => false,
    };
    OpenPlan {
        same,
        retrying: same && failed,
        refresh: !same || (!loading && !catalog_data_is_fresh(loaded_at, now)),
    }
}

/// What opening a detail page asks of the caller.
#[derive(Debug)]
pub struct Opened {
    /// A different entry than the one shown before.
    pub changed: bool,
    /// The source id to fetch, when a fetch is due.
    pub fetch: Option<String>,
}

/// Search results for the current query.
pub struct SearchPage {
    pub query: String,
    /// The query the current results answer.
    pub results_query: String,
    pub kind: SearchKind,
    pub tracks: Vec<Track>,
    pub playlists: Vec<Playlist>,
    pub loaded: bool,
    pub searching: bool,
    pub error: Option<String>,
}

impl SearchPage {
    /// No query, no results, nothing asked for.
    pub open spec fn is_blank(self) -> bool {
        &&& self.query@ == Seq::<char>::empty()
        &&& self.results_query@ == Seq::<char>::empty()
        &&& self.kind == SearchKind::Tracks
        &&& self.tracks@ == Seq::<Track>::empty()
        &&& self.playlists@ == Seq::<Playlist>::empty()
        &&& !self.loaded
        &&& !self.searching
        &&& self.error is None
    }

    pub fn new() -> (r: SearchPage)
        ensures
            r.is_blank(),
            r.query@ == Seq::<char>::empty(),
            r.results_query@ == Seq::<char>::empty(),
            r.kind == SearchKind::Tracks,
            r.tracks@ == Seq::<Track>::empty(),
            r.playlists@ == Seq::<Playlist>::empty(),
            !r.loaded,
            !r.searching,
            r.error is None,
    {
        SearchPage {
            query: String::new(),
            results_query: String::new(),
            kind: SearchKind::Tracks,
            tracks: Vec::new(),
            playlists: Vec::new(),
            loaded: false,
            searching: false,
            error: None,
        }
    }

    pub fn set_query(&mut self, query: String)
        ensures
            *final(self) == (SearchPage { query, ..*old(self) }),
    {
        self.query = query;
    }

    pub fn set_kind(&mut self, kind: SearchKind)
        ensures
            *final(self) == (SearchPage { kind, ..*old(self) }),
    {
        self.kind = kind;
    }

    /// How `submit` leaves the page, and what it hands back.
    pub open spec fn submits(self, after: SearchPage, r: Option<String>) -> bool {
        &&& crate::text::is_blank(self.query@) ==> r is None && after == self
        &&& !crate::text::is_blank(self.query@) ==> {
            &&& (r matches Some(query) && crate::text::trims(self.query@, query@))
            &&& after == (SearchPage {
                loaded: false,
                searching: true,
                error: None,
                ..self
            })
        }
    }

    /// Starts a search for the trimmed query and hands it back to be sent;
    /// a blank query starts nothing.
    pub fn submit(&mut self) -> (r: Option<String>)
        ensures
            old(self).submits(*final(self), r),
    {
        let query = crate::text::trim(self.query.as_str());
        proof {
            lemma_trim_blank(self.query@, query@);
        }
        if query.as_str().unicode_len() == 0 {
            return None;
        }
        self.loaded = false;
        self.searching = true;
        self.error = None;
        Some(query)
    }

    /// Takes the answer to the search for `query`.
    pub fn answered(&mut self, query: String, result: Result<(Vec<Track>, Vec<Playlist>), String>) -> (r: PageEvent)
        ensures
            match result {
                Ok((tracks, playlists)) => {
                    &&& *final(self) == (SearchPage {
                        results_query: query,
                        tracks,
                        playlists,
                        loaded: true,
                        searching: false,
                        error: None,
                        ..*old(self)
                    })
                    &&& r is Loaded
                },
                Err(error) => {
                    &&& *final(self) == (SearchPage {
                        loaded: true,
                        searching: false,
                        error: Some(error),
                        ..*old(self)
                    })
                    &&& r == PageEvent::Failed(error)
                },
            },
    {
        self.searching = false;
        self.loaded = true;
        match result {
            Ok((tracks, playlists)) => {
                self.results_query = query;
                self.tracks = tracks;
                self.playlists = playlists;
                self.error = None;
                PageEvent::Loaded
            },
            Err(error) => {
                self.error = Some(error.clone());
                PageEvent::Failed(error)
            },
        }
    }

    /// How `clear` leaves the page.
    pub open spec fn clears(self, after: SearchPage) -> bool {
        &&& after.query == self.query
        &&& after.kind == self.kind
        &&& after.results_query@ == Seq::<char>::empty()
        &&& after.tracks@ == Seq::<Track>::empty()
        &&& after.playlists@ == Seq::<Playlist>::empty()
        &&& !after.loaded
        &&& !after.searching
        &&& after.error is None
    }

    pub fn clear(&mut self)
        ensures
            old(self).clears(*final(self)),
    {
        self.results_query = String::new();
        self.tracks = Vec::new();
        self.playlists = Vec::new();
        self.loaded = false;
        self.searching = false;
        self.error = None;
    }
}

/// A trimmed form is empty exactly when the string is blank.
proof fn lemma_trim_blank(s: Seq<char>, r: Seq<char>)
    requires
        crate::text::trims(s, r),
    ensures
        (r.len() == 0) == crate::text::is_blank(s),
{
    let (a, b) = choose|a: int, b: int|
        {
            &&& 0 <= a <= b <= s.len()
            &&& r == #[trigger] s.subrange(a, b)
            &&& forall|i: int| 0 <= i < a ==> crate::text::is_white_space(#[trigger] s[i])
            &&& forall|i: int| b <= i < s.len() ==> crate::text::is_white_space(#[trigger] s[i])
            &&& a < b ==> !crate::text::is_white_space(s[a]) && !crate::text::is_white_space(s[b - 1])
        };
    if a < b {
        assert(!crate::text::is_white_space(s[a]));
    } else {
        assert forall|i: int| 0 <= i < s.len() implies crate::text::is_white_space(#[trigger] s[i]) by {
            if i < a {
            } else {
                assert(b <= i);
            }
        }
    }
}

/// The tracks of one playlist.
pub struct PlaylistPage {
    pub selected: Option<Playlist>,
    pub tracks: Vec<Track>,
    pub loaded: bool,
    pub error: Option<String>,
}

impl PlaylistPage {
    /// No playlist shown.
    pub open spec fn is_blank(self) -> bool {
        &&& self.selected is None
        &&& self.tracks@ == Seq::<Track>::empty()
        &&& !self.loaded
        &&& self.error is None
    }

    pub fn new() -> (r: PlaylistPage)
        ensures
            r.is_blank(),
            r.selected is None,
            r.tracks@ == Seq::<Track>::empty(),
            !r.loaded,
            r.error is None,
    {
        PlaylistPage { selected: None, tracks: Vec::new(), loaded: false, error: None }
    }

    /// Shows `playlist` and hands it back to be fetched.
    pub fn open(&mut self, playlist: Playlist) -> (r: Playlist)
        ensures
            r == playlist,
            final(self).selected == Some(playlist),
            final(self).tracks@ == Seq::<Track>::empty(),
            !final(self).loaded,
            final(self).error is None,
    {
        self.selected = Some(playlist.duplicate());
        self.tracks = Vec::new();
        self.loaded = false;
        self.error = None;
        playlist
    }

    /// Takes the answer to the fetch of the selected playlist.
    pub fn answered(&mut self, result: Result<Vec<Track>, String>) -> (r: PageEvent)
        ensures
            final(self).selected == old(self).selected,
            final(self).loaded,
            match result {
                Ok(tracks) => final(self).tracks == tracks && final(self).error is None && r is Loaded,
                Err(error) => {
                    &&& final(self).tracks == old(self).tracks
                    &&& final(self).error == Some(error)
                    &&& r == PageEvent::Failed(error)
                },
            },
    {
        self.loaded = true;
        match result {
            Ok(tracks) => {
                self.tracks = tracks;
                self.error = None;
                PageEvent::Loaded
            },
            Err(error) => {
                self.error = Some(error.clone());
                PageEvent::Failed(error)
            },
        }
    }

    /// The tracks to play from the top, when there are any.
    pub fn play(tracks: &[Track]) -> (r: Option<(Vec<Track>, usize)>)
        ensures
            tracks@.len() == 0 ==> r is None,
            tracks@.len() > 0 ==> (r matches Some((list, index)) && index == 0
                && crate::model::track_views(list@) == crate::model::track_views(tracks@)),
    {
        if tracks.len() == 0 {
            return None;
        }
        Some((crate::model::copy_tracks(tracks), 0))
    }

    /// How `clear` leaves the page.
    pub open spec fn clears(self, after: PlaylistPage) -> bool {
        &&& after.selected is None
        &&& after.tracks@ == Seq::<Track>::empty()
        &&& !after.loaded
        &&& after.error is None
    }

    pub fn clear(&mut self)
        ensures
            old(self).clears(*final(self)),
    {
        self.selected = None;
        self.tracks = Vec::new();
        self.loaded = false;
        self.error = None;
    }

    /// What the page's list area shows.
    pub open spec fn list_shown(self) -> PlaylistList {
        match self.error {
            Some(error) => PlaylistList::Message(playlist_failure_text(error@)),
            None => if self.selected is Some && self.tracks@.len() > 0 {
                PlaylistList::Tracks
            } else if self.selected is None {
                PlaylistList::Message("No playlist selected"@)
            } else if self.loaded {
                PlaylistList::Message("This playlist is empty"@)
            } else {
                PlaylistList::Message("Loading playlist…"@)
            },
        }
    }

    /// The list area: an error first, then the tracks, then why there are none.
    pub fn list_state(&self) -> (r: PlaylistListState)
        ensures
            r.view() == self.list_shown(),
    {
        match &self.error {
            Some(error) => {
                let mut text = String::from_str("Unable to load playlist: ");
                text.append(error.as_str());
                PlaylistListState::Message(text)
            },
            None => if self.selected.is_some() && self.tracks.len() > 0 {
                PlaylistListState::Tracks
            } else if self.selected.is_none() {
                PlaylistListState::Message(String::from_str("No playlist selected"))
            } else if self.loaded {
                PlaylistListState::Message(String::from_str("This playlist is empty"))
            } else {
                PlaylistListState::Message(String::from_str("Loading playlist…"))
            },
        }
    }
}

/// The line shown when a playlist could not be fetched.
pub open spec fn playlist_failure_text(error: Seq<char>) -> Seq<char> {
    "Unable to load playlist: "@ + error
}

/// What the playlist page's list area shows, in the abstract.
pub enum PlaylistList {
    Tracks,
    Message(Seq<char>),
}

/// What the playlist page's list area shows.
#[derive(Debug, PartialEq, Eq)]
pub enum PlaylistListState {
    /// The selected playlist's tracks.
    Tracks,
    /// A line of text in place of the tracks.
    Message(String),
}

impl PlaylistListState {
    pub open spec fn view(self) -> PlaylistList {
        match self {
            PlaylistListState::Tracks => PlaylistList::Tracks,
            PlaylistListState::Message(text) => PlaylistList::Message(text@),
        }
    }
}

/// The title and detail line above a playlist: its name and track count, or
/// placeholders when none is selected.
pub open spec fn playlist_heading(selected: Option<Playlist>) -> (Seq<char>, Seq<char>) {
    match selected {
        Some(playlist) => (
            playlist.name@,
            "Spotify playlist · "@ + crate::display::decimal(playlist.track_count as nat) + " tracks"@,
        ),
        None => ("Playlist"@, "Spotify playlist"@),
    }
}

pub fn playlist_header(selected: Option<&Playlist>) -> (r: (String, String))
    ensures
        (r.0@, r.1@) == playlist_heading(
            match selected {
                Some(playlist) => Some(*playlist),
                None => None,
            },
        ),
{
    match selected {
        Some(playlist) => {
            let mut detail = String::from_str("Spotify playlist · ");
            let count = crate::display::decimal_text(playlist.track_count as u64);
            detail.append(count.as_str());
            detail.append(" tracks");
            (playlist.name.clone(), detail)
        },
        None => (String::from_str("Playlist"), String::from_str("Spotify playlist")),
    }
}

/// The source id of an optional artist reference.
pub open spec fn artist_id(reference: Option<ArtistRef>) -> Option<Seq<char>> {
    match reference {
        Some(artist) => opt_text(artist.source_id),
        None => None,
    }
}

/// The source id of an optional album reference.
pub open spec fn album_id(reference: Option<AlbumRef>) -> Option<Seq<char>> {
    match reference {
        Some(album) => opt_text(album.source_id),
        None => None,
    }
}

/// One artist, their popular tracks and their discography.
pub struct ArtistPage {
    pub reference: Option<ArtistRef>,
    pub artist: Option<Artist>,
    pub tracks: Vec<Track>,
    pub albums: Vec<Album>,
    pub section: ArtistSection,
    pub loaded: bool,
    pub error: Option<String>,
    pub loaded_at: Option<u64>,
    /// A fetch is in flight.
    pub loading: bool,
}

impl ArtistPage {
    /// No artist shown and none being fetched.
    pub open spec fn is_blank(self) -> bool {
        &&& self.reference is None
        &&& self.artist is None
        &&& self.tracks@ == Seq::<Track>::empty()
        &&& self.albums@ == Seq::<Album>::empty()
        &&& self.section == ArtistSection::Popular
        &&& !self.loaded
        &&& self.error is None
        &&& self.loaded_at is None
        &&& !self.loading
    }

    pub fn new() -> (r: ArtistPage)
        ensures
            r.is_blank(),
            r.reference is None,
            r.artist is None,
            r.tracks@ == Seq::<Track>::empty(),
            r.albums@ == Seq::<Album>::empty(),
            r.section == ArtistSection::Popular,
            !r.loaded,
            r.error is None,
            r.loaded_at is None,
            !r.loading,
    {
        ArtistPage {
            reference: None,
            artist: None,
            tracks: Vec::new(),
            albums: Vec::new(),
            section: ArtistSection::Popular,
            loaded: false,
            error: None,
            loaded_at: None,
            loading: false,
        }
    }

    pub fn set_section(&mut self, section: ArtistSection)
        ensures
            *final(self) == (ArtistPage { section, ..*old(self) }),
    {
        self.section = section;
    }

    /// How `open` leaves the page, and what it asks for.
    pub open spec fn opens(self, after: ArtistPage, artist: ArtistRef, now: u64, r: Opened) -> bool {
        match artist.source_id {
            None => after == self && !r.changed && r.fetch is None,
            Some(id) => {
                let plan = plan_open(
                    artist_id(self.reference),
                    self.error is Some,
                    self.loading,
                    self.loaded_at,
                    id@,
                    now,
                );
                let kept = ArtistPage {
                    reference: Some(artist),
                    error: None,
                    loaded: self.loaded && !plan.retrying,
                    loading: self.loading || plan.refresh,
                    ..self
                };
                &&& r.changed == !plan.same
                &&& (plan.refresh ==> r.fetch == Some(id))
                &&& (!plan.refresh ==> r.fetch is None)
                &&& plan.same ==> after == kept
                &&& !plan.same ==> {
                    &&& after.reference == Some(artist)
                    &&& after.artist is None
                    &&& after.tracks@ == Seq::<Track>::empty()
                    &&& after.albums@ == Seq::<Album>::empty()
                    &&& after.section == ArtistSection::Popular
                    &&& !after.loaded
                    &&& after.error is None
                    &&& after.loaded_at is None
                    &&& after.loading
                }
            },
        }
    }

    /// Shows `artist`, fetching it unless the copy on the page is still
    /// fresh. An artist without a catalog id cannot be shown.
    pub fn open(&mut self, artist: ArtistRef, now: u64) -> (r: Opened)
        ensures
            old(self).opens(*final(self), artist, now, r),
    {
        let id = match &artist.source_id {
            Some(id) => id.clone(),
            None => return Opened { changed: false, fetch: None },
        };
        let current = match &self.reference {
            Some(reference) => crate::model::copy_opt(&reference.source_id),
            None => None,
        };
        let plan = open_plan(&current, self.error.is_some(), self.loading, self.loaded_at, id.as_str(), now);
        self.reference = Some(artist);
        self.error = None;
        if !plan.same {
            self.artist = None;
            self.tracks = Vec::new();
            self.albums = Vec::new();
            self.loaded = false;
            self.loaded_at = None;
            self.section = ArtistSection::Popular;
        } else if plan.retrying {
            self.loaded = false;
        }
        if plan.refresh {
            self.loading = true;
            Opened { changed: !plan.same, fetch: Some(id) }
        } else {
            Opened { changed: !plan.same, fetch: None }
        }
    }

    /// Takes the artist's details, fetched at `now`.
    pub fn fetched(&mut self, artist: Artist, tracks: Vec<Track>, albums: Vec<Album>, now: u64) -> (r: PageEvent)
        ensures
            *final(self) == (ArtistPage {
                artist: Some(artist),
                tracks,
                albums,
                loaded: true,
                error: None,
                loaded_at: Some(now),
                loading: false,
                ..*old(self)
            }),
            r is Loaded,
    {
        self.loading = false;
        self.artist = Some(artist);
        self.tracks = tracks;
        self.albums = albums;
        self.loaded = true;
        self.error = None;
        self.loaded_at = Some(now);
        PageEvent::Loaded
    }

    /// Takes a failed fetch. Contents already on the page stay, without an
    /// error over them.
    pub fn failed(&mut self, error: String) -> (r: PageEvent)
        ensures
            old(self).loaded ==> *final(self) == (ArtistPage { loading: false, ..*old(self) }),
            !old(self).loaded ==> *final(self) == (ArtistPage {
                loading: false,
                loaded: true,
                error: Some(error),
                ..*old(self)
            }),
            r == PageEvent::Failed(error),
    {
        self.loading = false;
        if !self.loaded {
            self.loaded = true;
            self.error = Some(error.clone());
        }
        PageEvent::Failed(error)
    }

    /// How `clear` leaves the page.
    pub open spec fn clears(self, after: ArtistPage) -> bool {
        &&& after.reference is None
        &&& after.artist is None
        &&& after.tracks@ == Seq::<Track>::empty()
        &&& after.albums@ == Seq::<Album>::empty()
        &&& after.section == self.section
        &&& !after.loaded
        &&& after.error is None
        &&& after.loaded_at is None
        &&& !after.loading
    }

    pub fn clear(&mut self)
        ensures
            old(self).clears(*final(self)),
    {
        self.loading = false;
        self.reference = None;
        self.artist = None;
        self.tracks = Vec::new();
        self.albums = Vec::new();
        self.loaded = false;
        self.error = None;
        self.loaded_at = None;
    }
}

/// One album and its tracks.
pub struct AlbumPage {
    pub reference: Option<AlbumRef>,
    pub album: Option<Album>,
    pub tracks: Vec<Track>,
    pub loaded: bool,
    pub error: Option<String>,
    pub loaded_at: Option<u64>,
    /// A fetch is in flight.
    pub loading: bool,
}

impl AlbumPage {
    /// No album shown and none being fetched.
    pub open spec fn is_blank(self) -> bool {
        &&& self.reference is None
        &&& self.album is None
        &&& self.tracks@ == Seq::<Track>::empty()
        &&& !self.loaded
        &&& self.error is None
        &&& self.loaded_at is None
        &&& !self.loading
    }

    pub fn new() -> (r: AlbumPage)
        ensures
            r.is_blank(),
            r.reference is None,
            r.album is None,
            r.tracks@ == Seq::<Track>::empty(),
            !r.loaded,
            r.error is None,
            r.loaded_at is None,
            !r.loading,
    {
        AlbumPage {
            reference: None,
            album: None,
            tracks: Vec::new(),
            loaded: false,
            error: None,
            loaded_at: None,
            loading: false,
        }
    }

    /// How `open` leaves the page, and what it asks for.
    pub open spec fn opens(self, after: AlbumPage, album: AlbumRef, now: u64, r: Opened) -> bool {
        match album.source_id {
            None => after == self && !r.changed && r.fetch is None,
            Some(id) => {
                let plan = plan_open(
                    album_id(self.reference),
                    self.error is Some,
                    self.loading,
                    self.loaded_at,
                    id@,
                    now,
                );
                let kept = AlbumPage {
                    reference: Some(album),
                    error: None,
                    loaded: self.loaded && !plan.retrying,
                    loading: self.loading || plan.refresh,
                    ..self
                };
                &&& r.changed == !plan.same
                &&& (plan.refresh ==> r.fetch == Some(id))
                &&& (!plan.refresh ==> r.fetch is None)
                &&& plan.same ==> after == kept
                &&& !plan.same ==> {
                    &&& after.reference == Some(album)
                    &&& after.album is None
                    &&& after.tracks@ == Seq::<Track>::empty()
                    &&& !after.loaded
                    &&& after.error is None
                    &&& after.loaded_at is None
                    &&& after.loading
                }
            },
        }
    }

    /// Shows `album`, fetching it unless the copy on the page is still
    /// fresh. An album without a catalog id cannot be shown.
    pub fn open(&mut self, album: AlbumRef, now: u64) -> (r: Opened)
        ensures
            old(self).opens(*final(self), album, now, r),
    {
        let id = match &album.source_id {
            Some(id) => id.clone(),
            None => return Opened { changed: false, fetch: None },
        };
        let current = match &self.reference {
            Some(reference) => crate::model::copy_opt(&reference.source_id),
            None => None,
        };
        let plan = open_plan(&current, self.error.is_some(), self.loading, self.loaded_at, id.as_str(), now);
        self.reference = Some(album);
        self.error = None;
        if !plan.same {
            self.album = None;
            self.tracks = Vec::new();
            self.loaded = false;
            self.loaded_at = None;
        } else if plan.retrying {
            self.loaded = false;
        }
        if plan.refresh {
            self.loading = true;
            Opened { changed: !plan.same, fetch: Some(id) }
        } else {
            Opened { changed: !plan.same, fetch: None }
        }
    }

    /// Takes the album's details, fetched at `now`.
    pub fn fetched(&mut self, album: Album, tracks: Vec<Track>, now: u64) -> (r: PageEvent)
        ensures
            *final(self) == (AlbumPage {
                album: Some(album),
                tracks,
                loaded: true,
                error: None,
                loaded_at: Some(now),
                loading: false,
                ..*old(self)
            }),
            r is Loaded,
    {
        self.loading = false;
        self.album = Some(album);
        self.tracks = tracks;
        self.loaded = true;
        self.error = None;
        self.loaded_at = Some(now);
        PageEvent::Loaded
    }

    /// Takes a failed fetch. Contents already on the page stay, without an
    /// error over them.
    pub fn failed(&mut self, error: String) -> (r: PageEvent)
        ensures
            old(self).loaded ==> *final(self) == (AlbumPage { loading: false, ..*old(self) }),
            !old(self).loaded ==> *final(self) == (AlbumPage {
                loading: false,
                loaded: true,
                error: Some(error),
                ..*old(self)
            }),
            r == PageEvent::Failed(error),
    {
        self.loading = false;
        if !self.loaded {
            self.loaded = true;
            self.error = Some(error.clone());
        }
        PageEvent::Failed(error)
    }

    /// How `clear` leaves the page.
    pub open spec fn clears(self, after: AlbumPage) -> bool {
        &&& after.reference is None
        &&& after.album is None
        &&& after.tracks@ == Seq::<Track>::empty()
        &&& !after.loaded
        &&& after.error is None
        &&& after.loaded_at is None
        &&& !after.loading
    }

    pub fn clear(&mut self)
        ensures
            old(self).clears(*final(self)),
    {
        self.loading = false;
        self.reference = None;
        self.album = None;
        self.tracks = Vec::new();
        self.loaded = false;
        self.error = None;
        self.loaded_at = None;
    }
}

/// Returning to the artist already shown, while its contents are fresh and
/// no fetch is running, asks the backend for nothing and keeps the page.
pub proof fn lemma_a_fresh_artist_is_not_refetched(
    page: ArtistPage,
    after: ArtistPage,
    artist: ArtistRef,
    now: u64,
    r: Opened,
)
    requires
        page.opens(after, artist, now, r),
        artist.source_id is Some,
        artist_id(page.reference) == opt_text(artist.source_id),
        !page.loading,
        catalog_fresh(page.loaded_at, now),
    ensures
        !r.changed,
        r.fetch is None,
        after.artist == page.artist,
        after.tracks == page.tracks,
        after.albums == page.albums,
        after.section == page.section,
        after.loaded_at == page.loaded_at,
        page.error is None ==> after.loaded == page.loaded,
{
}

/// Opening a different artist always fetches it and starts from an empty page.
pub proof fn lemma_a_different_artist_is_fetched(
    page: ArtistPage,
    after: ArtistPage,
    artist: ArtistRef,
    now: u64,
    r: Opened,
)
    requires
        page.opens(after, artist, now, r),
        artist.source_id is Some,
        artist_id(page.reference) != opt_text(artist.source_id),
    ensures
        r.changed,
        r.fetch == artist.source_id,
        after.artist is None,
        after.tracks@.len() == 0,
        !after.loaded,
{
}

} // verus!
