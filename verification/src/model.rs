//! The catalog's plain data: tracks, artists, albums and playlists.

use vstd::prelude::*;

verus! {

/// The streaming service a catalog item comes from.
#[derive(Clone, Copy, Debug, PartialEq, Eq, Hash, Structural)]
pub enum Provider {
    Spotify,
    Tidal,
}

impl Provider {
    /// The provider's persisted name.
    pub open spec fn name(self) -> Seq<char> {
        match self {
            Provider::Spotify => seq!['s', 'p', 'o', 't', 'i', 'f', 'y'],
            Provider::Tidal => seq!['t', 'i', 'd', 'a', 'l'],
        }
    }

    /// The provider a persisted name stands for, if it is one.
    pub open spec fn named(value: Seq<char>) -> Option<Provider> {
        if value == Provider::Spotify.name() {
            Some(Provider::Spotify)
        } else if value == Provider::Tidal.name() {
            Some(Provider::Tidal)
        } else {
            None
        }
    }

    pub fn as_str(self) -> (r: &'static str)
        ensures
            r@ == self.name(),
    {
        match self {
            Provider::Spotify => {
                proof {
                    reveal_strlit("spotify");
                    assert("spotify"@ =~= Provider::Spotify.name());
                }
                "spotify"
            },
            Provider::Tidal => {
                proof {
                    reveal_strlit("tidal");
                    assert("tidal"@ =~= Provider::Tidal.name());
                }
                "tidal"
            },
        }
    }

    pub fn parse(value: &str) -> (r: Option<Provider>)
        ensures
            r == Provider::named(value@),
    {
        proof {
            reveal_strlit("spotify");
            reveal_strlit("tidal");
            assert("spotify"@ =~= Provider::Spotify.name());
            assert("tidal"@ =~= Provider::Tidal.name());
        }
        if crate::text::same_text(value, "spotify") {
            Some(Provider::Spotify)
        } else if crate::text::same_text(value, "tidal") {
            Some(Provider::Tidal)
        } else {
            None
        }
    }
}


/// The text of an optional string, as the contracts compare it.
pub open spec fn opt_text(value: Option<String>) -> Option<Seq<char>> {
    match value {
        Some(text) => Some(text@),
        None => None,
    }
}

/// An exact copy of an optional string.
pub fn copy_opt(value: &Option<String>) -> (r: Option<String>)
    ensures
        r == *value,
{
    match value {
        Some(text) => Some(text.clone()),
        None => None,
    }
}

/// Whether two optional strings hold the same text.
pub fn same_opt_text(a: &Option<String>, b: &Option<String>) -> (r: bool)
    ensures
        r == (opt_text(*a) == opt_text(*b)),
{
    match (a, b) {
        (Some(x), Some(y)) => crate::text::same_text(x.as_str(), y.as_str()),
        (None, None) => true,
        _ => false,
    }
}

/// An artist as credited on a track or album.
#[derive(Clone, Debug, PartialEq, Eq)]
pub struct ArtistRef {
    pub name: String,
    pub source_id: Option<String>,
    pub spotify_uri: Option<String>,
}

impl ArtistRef {
    pub fn duplicate(&self) -> (r: ArtistRef)
        ensures
            r == *self,
    {
        ArtistRef {
            name: self.name.clone(),
            source_id: copy_opt(&self.source_id),
            spotify_uri: copy_opt(&self.spotify_uri),
        }
    }
}

/// The album a track belongs to, as far as the catalog says.
#[derive(Clone, Debug, Default, PartialEq, Eq)]
pub struct AlbumRef {
    pub name: String,
    pub source_id: Option<String>,
    pub spotify_uri: Option<String>,
    pub artwork_url: Option<String>,
}

impl AlbumRef {
    pub fn duplicate(&self) -> (r: AlbumRef)
        ensures
            r == *self,
    {
        AlbumRef {
            name: self.name.clone(),
            source_id: copy_opt(&self.source_id),
            spotify_uri: copy_opt(&self.spotify_uri),
            artwork_url: copy_opt(&self.artwork_url),
        }
    }
}

/// An exact copy of a list of artist credits.
pub fn copy_artists(artists: &Vec<ArtistRef>) -> (r: Vec<ArtistRef>)
    ensures
        r@ == artists@,
{
    let mut copied: Vec<ArtistRef> = Vec::new();
    let mut i: usize = 0;
    while i < artists.len()
        invariant
            i <= artists.len(),
            copied@ == artists@.take(i as int),
        decreases artists.len() - i,
    {
        copied.push(artists[i].duplicate());
        i = i + 1;
        assert(copied@ =~= artists@.take(i as int));
    }
    assert(artists@.take(artists.len() as int) =~= artists@);
    copied
}

#[derive(Clone, Debug, PartialEq, Eq)]
pub struct Track {
    pub provider: Provider,
    pub source_id: String,
    pub spotify_uri: Option<String>,
    pub isrc: Option<String>,
    pub title: String,
    pub artist: String,
    pub artists: Vec<ArtistRef>,
    pub album: String,
    pub album_ref: Option<AlbumRef>,
    pub duration_ms: u32,
    pub artwork_url: Option<String>,
}

/// A track as the contracts see it: the same fields, with the artist
/// credits as a sequence.
pub struct TrackView {
    pub provider: Provider,
    pub source_id: String,
    pub spotify_uri: Option<String>,
    pub isrc: Option<String>,
    pub title: String,
    pub artist: String,
    pub artists: Seq<ArtistRef>,
    pub album: String,
    pub album_ref: Option<AlbumRef>,
    pub duration_ms: u32,
    pub artwork_url: Option<String>,
}

impl View for Track {
    type V = TrackView;

    open spec fn view(&self) -> TrackView {
        TrackView {
            provider: self.provider,
            source_id: self.source_id,
            spotify_uri: self.spotify_uri,
            isrc: self.isrc,
            title: self.title,
            artist: self.artist,
            artists: self.artists@,
            album: self.album,
            album_ref: self.album_ref,
            duration_ms: self.duration_ms,
            artwork_url: self.artwork_url,
        }
    }
}

impl DeepView for Track {
    type V = TrackView;

    open spec fn deep_view(&self) -> TrackView {
        self@
    }
}

impl TrackView {
    /// A track worth listing: it has a title, an artist and a length.
    pub open spec fn displayable(self) -> bool {
        &&& !crate::text::is_blank(self.title@)
        &&& !crate::text::is_blank(self.artist@)
        &&& self.duration_ms > 0
    }

    /// Whether two tracks are the same catalog entry.
    pub open spec fn same_entry(self, other: TrackView) -> bool {
        self.provider == other.provider && self.source_id@ == other.source_id@
    }
}

/// The views of a sequence of tracks.
pub open spec fn track_views(tracks: Seq<Track>) -> Seq<TrackView> {
    tracks.map_values(|track: Track| track@)
}

impl Track {
    pub fn is_displayable(&self) -> (r: bool)
        ensures
            r == self@.displayable(),
    {
        !crate::text::blank(self.title.as_str()) && !crate::text::blank(self.artist.as_str())
            && self.duration_ms > 0
    }

    pub fn duplicate(&self) -> (r: Track)
        ensures
            r@ == self@,
    {
        Track {
            provider: self.provider,
            source_id: self.source_id.clone(),
            spotify_uri: copy_opt(&self.spotify_uri),
            isrc: copy_opt(&self.isrc),
            title: self.title.clone(),
            artist: self.artist.clone(),
            artists: copy_artists(&self.artists),
            album: self.album.clone(),
            album_ref: match &self.album_ref {
                Some(album) => Some(album.duplicate()),
                None => None,
            },
            duration_ms: self.duration_ms,
            artwork_url: copy_opt(&self.artwork_url),
        }
    }

    /// Whether this is the same catalog entry as `other`.
    pub fn is_same_entry(&self, other: &Track) -> (r: bool)
        ensures
            r == self@.same_entry(other@),
    {
        self.provider == other.provider && crate::text::same_text(
            self.source_id.as_str(),
            other.source_id.as_str(),
        )
    }
}

/// An exact copy of a list of tracks.
pub fn copy_tracks(tracks: &[Track]) -> (r: Vec<Track>)
    ensures
        r@.len() == tracks@.len(),
        track_views(r@) == track_views(tracks@),
{
    let mut copied: Vec<Track> = Vec::new();
    let mut i: usize = 0;
    while i < tracks.len()
        invariant
            i <= tracks.len(),
            copied@.len() == i,
            forall|k: int| 0 <= k < i ==> (#[trigger] copied@[k])@ == tracks@[k]@,
        decreases tracks.len() - i,
    {
        copied.push(tracks[i].duplicate());
        i = i + 1;
    }
    assert(track_views(copied@) =~= track_views(tracks@));
    copied
}

#[derive(Clone, Debug, PartialEq, Eq)]
pub struct Artist {
    pub provider: Provider,
    pub source_id: String,
    pub spotify_uri: Option<String>,
    pub name: String,
    pub artwork_url: Option<String>,
}

#[derive(Clone, Debug, PartialEq, Eq)]
pub struct Album {
    pub provider: Provider,
    pub source_id: String,
    pub spotify_uri: Option<String>,
    pub name: String,
    pub artists: Vec<ArtistRef>,
    pub release_date: Option<String>,
    pub artwork_url: Option<String>,
    pub track_count: Option<u32>,
}

#[derive(Clone, Debug, PartialEq, Eq)]
pub struct Playlist {
    pub provider: Provider,
    pub source_id: String,
    pub name: String,
    pub owner: String,
    pub track_count: u32,
    pub artwork_url: Option<String>,
}

impl Playlist {
    pub open spec fn same_entry(self, other: Playlist) -> bool {
        self.provider == other.provider && self.source_id@ == other.source_id@
    }

    pub fn duplicate(&self) -> (r: Playlist)
        ensures
            r == *self,
    {
        Playlist {
            provider: self.provider,
            source_id: self.source_id.clone(),
            name: self.name.clone(),
            owner: self.owner.clone(),
            track_count: self.track_count,
            artwork_url: copy_opt(&self.artwork_url),
        }
    }
}

/// What a cheap reload compares before committing to a full walk: the first
/// pages and the totals of both collections. The totals catch removals past
/// the first page, the heads catch additions and renames, and the snapshot
/// ids catch edits inside a playlist, which move neither list.
#[derive(Clone, Debug, PartialEq, Eq)]
pub struct LibraryFingerprint {
    pub liked_head: Vec<String>,
    pub liked_total: u32,
    pub playlist_head: Vec<(String, String, String)>,
    pub playlist_total: u32,
}

/// The text of each string in a list.
pub open spec fn texts(values: Seq<String>) -> Seq<Seq<char>> {
    values.map_values(|value: String| value@)
}

/// The text of each entry of a playlist head.
pub open spec fn triple_texts(values: Seq<(String, String, String)>) -> Seq<(Seq<char>, Seq<char>, Seq<char>)> {
    values.map_values(|value: (String, String, String)| (value.0@, value.1@, value.2@))
}

impl LibraryFingerprint {
    /// Two fingerprints describe the same library when every id, name and
    /// snapshot reads the same and the totals agree.
    pub open spec fn agrees_with(self, other: LibraryFingerprint) -> bool {
        &&& texts(self.liked_head@) == texts(other.liked_head@)
        &&& self.liked_total == other.liked_total
        &&& triple_texts(self.playlist_head@) == triple_texts(other.playlist_head@)
        &&& self.playlist_total == other.playlist_total
    }

    pub fn new(liked: &(Vec<Track>, u32), playlists: &(Vec<(Playlist, String)>, u32)) -> (r: LibraryFingerprint)
        ensures
            r.liked_head@ == liked.0@.map_values(|track: Track| track.source_id),
            r.liked_total == liked.1,
            r.playlist_head@ == playlists.0@.map_values(
                |entry: (Playlist, String)| (entry.0.source_id, entry.0.name, entry.1),
            ),
            r.playlist_total == playlists.1,
    {
        let mut liked_head: Vec<String> = Vec::new();
        let mut i: usize = 0;
        while i < liked.0.len()
            invariant
                i <= liked.0.len(),
                liked_head@ == liked.0@.take(i as int).map_values(|track: Track| track.source_id),
            decreases liked.0.len() - i,
        {
            liked_head.push(liked.0[i].source_id.clone());
            i = i + 1;
            assert(liked_head@ =~= liked.0@.take(i as int).map_values(|track: Track| track.source_id));
        }
        assert(liked.0@.take(liked.0.len() as int) =~= liked.0@);
        let mut playlist_head: Vec<(String, String, String)> = Vec::new();
        let mut j: usize = 0;
        while j < playlists.0.len()
            invariant
                j <= playlists.0.len(),
                playlist_head@ == playlists.0@.take(j as int).map_values(
                    |entry: (Playlist, String)| (entry.0.source_id, entry.0.name, entry.1),
                ),
            decreases playlists.0.len() - j,
        {
            let entry = &playlists.0[j];
            playlist_head.push((entry.0.source_id.clone(), entry.0.name.clone(), entry.1.clone()));
            j = j + 1;
            assert(playlist_head@ =~= playlists.0@.take(j as int).map_values(
                |entry: (Playlist, String)| (entry.0.source_id, entry.0.name, entry.1),
            ));
        }
        assert(playlists.0@.take(playlists.0.len() as int) =~= playlists.0@);
        LibraryFingerprint {
            liked_head,
            liked_total: liked.1,
            playlist_head,
            playlist_total: playlists.1,
        }
    }

    /// Whether this fingerprint describes the same library as `other`.
    pub fn matches(&self, other: &LibraryFingerprint) -> (r: bool)
        ensures
            r == self.agrees_with(*other),
    {
        if self.liked_total != other.liked_total || self.playlist_total != other.playlist_total {
            return false;
        }
        if self.liked_head.len() != other.liked_head.len()
            || self.playlist_head.len() != other.playlist_head.len() {
            assert(texts(self.liked_head@).len() == self.liked_head@.len());
            assert(texts(other.liked_head@).len() == other.liked_head@.len());
            assert(triple_texts(self.playlist_head@).len() == self.playlist_head@.len());
            assert(triple_texts(other.playlist_head@).len() == other.playlist_head@.len());
            return false;
        }
        let mut i: usize = 0;
        while i < self.liked_head.len()
            invariant
                i <= self.liked_head.len(),
                self.liked_head.len() == other.liked_head.len(),
                forall|k: int| 0 <= k < i ==> self.liked_head@[k]@ == other.liked_head@[k]@,
            decreases self.liked_head.len() - i,
        {
            if !crate::text::same_text(self.liked_head[i].as_str(), other.liked_head[i].as_str()) {
                assert(texts(self.liked_head@)[i as int] != texts(other.liked_head@)[i as int]);
                return false;
            }
            i = i + 1;
        }
        assert(texts(self.liked_head@) =~= texts(other.liked_head@));
        let mut j: usize = 0;
        while j < self.playlist_head.len()
            invariant
                j <= self.playlist_head.len(),
                self.playlist_head.len() == other.playlist_head.len(),
                forall|k: int| 0 <= k < j ==> {
                    &&& (#[trigger] self.playlist_head@[k]).0@ == other.playlist_head@[k].0@
                    &&& self.playlist_head@[k].1@ == other.playlist_head@[k].1@
                    &&& self.playlist_head@[k].2@ == other.playlist_head@[k].2@
                },
            decreases self.playlist_head.len() - j,
        {
            let a = &self.playlist_head[j];
            let b = &other.playlist_head[j];
            if !crate::text::same_text(a.0.as_str(), b.0.as_str())
                || !crate::text::same_text(a.1.as_str(), b.1.as_str())
                || !crate::text::same_text(a.2.as_str(), b.2.as_str()) {
                assert(triple_texts(self.playlist_head@)[j as int] != triple_texts(other.playlist_head@)[j as int]);
                return false;
            }
            j = j + 1;
        }
        assert(triple_texts(self.playlist_head@) =~= triple_texts(other.playlist_head@));
        true
    }
}

/// The library as it was last persisted, painted before the service answers.
#[derive(Clone, Debug, Default, PartialEq, Eq)]
pub struct CachedLibrary {
    pub liked_tracks: Vec<Track>,
    pub playlists: Vec<Playlist>,
    pub fingerprint: Option<LibraryFingerprint>,
}

impl CachedLibrary {
    pub fn is_empty(&self) -> (r: bool)
        ensures
            r == (self.liked_tracks@.len() == 0 && self.playlists@.len() == 0),
    {
        self.liked_tracks.len() == 0 && self.playlists.len() == 0
    }
}

#[derive(Clone, Debug, PartialEq, Eq)]
pub struct UserProfile {
    pub display_name: String,
    pub artwork_url: Option<String>,
}

#[derive(Clone, Debug, PartialEq, Eq)]
pub struct QueueItem {
    pub id: i64,
    pub track: Track,
}


/// Two library fingerprints agree exactly when they list the same liked
/// track ids and the same playlists, entry by entry, with the same id, name
/// and snapshot id, and report the same totals. So an edit inside one
/// playlist, which changes only its snapshot id, makes them differ.
pub proof fn lemma_fingerprints_agree_entry_by_entry(a: LibraryFingerprint, b: LibraryFingerprint)
    ensures
        a.agrees_with(b) <==> {
            &&& a.liked_total == b.liked_total
            &&& a.playlist_total == b.playlist_total
            &&& a.liked_head@.len() == b.liked_head@.len()
            &&& forall|k: int| 0 <= k < a.liked_head@.len() ==> (#[trigger] a.liked_head@[k])@ == b.liked_head@[k]@
            &&& a.playlist_head@.len() == b.playlist_head@.len()
            &&& forall|k: int|
                0 <= k < a.playlist_head@.len() ==> {
                    &&& (#[trigger] a.playlist_head@[k]).0@ == b.playlist_head@[k].0@
                    &&& a.playlist_head@[k].1@ == b.playlist_head@[k].1@
                    &&& a.playlist_head@[k].2@ == b.playlist_head@[k].2@
                }
        },
{
    if a.agrees_with(b) {
        assert forall|k: int| 0 <= k < a.liked_head@.len() implies (#[trigger] a.liked_head@[k])@
            == b.liked_head@[k]@ by {
            assert(texts(a.liked_head@)[k] == texts(b.liked_head@)[k]);
        }
        assert forall|k: int| 0 <= k < a.playlist_head@.len() implies {
            &&& (#[trigger] a.playlist_head@[k]).0@ == b.playlist_head@[k].0@
            &&& a.playlist_head@[k].1@ == b.playlist_head@[k].1@
            &&& a.playlist_head@[k].2@ == b.playlist_head@[k].2@
        } by {
            assert(triple_texts(a.playlist_head@)[k] == triple_texts(b.playlist_head@)[k]);
        }
    }
    if {
        &&& a.liked_head@.len() == b.liked_head@.len()
        &&& forall|k: int| 0 <= k < a.liked_head@.len() ==> (#[trigger] a.liked_head@[k])@ == b.liked_head@[k]@
        &&& a.playlist_head@.len() == b.playlist_head@.len()
        &&& forall|k: int|
            0 <= k < a.playlist_head@.len() ==> {
                &&& (#[trigger] a.playlist_head@[k]).0@ == b.playlist_head@[k].0@
                &&& a.playlist_head@[k].1@ == b.playlist_head@[k].1@
                &&& a.playlist_head@[k].2@ == b.playlist_head@[k].2@
            }
    } {
        assert(texts(a.liked_head@) =~= texts(b.liked_head@));
        assert(triple_texts(a.playlist_head@) =~= triple_texts(b.playlist_head@));
    }
}

} // verus!
