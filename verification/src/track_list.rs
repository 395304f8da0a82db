//! A table of tracks with a per-row action menu: which rows it lists, which
//! row's menu is open, and what each entry of that menu offers.

use vstd::prelude::*;

use crate::display::{decimal, decimal_text};
use crate::model::{copy_tracks, opt_text, track_views, AlbumRef, ArtistRef, Track, TrackView};

verus! {

/// What choosing a menu entry does.
#[derive(Debug)]
pub enum MenuAction {
    /// Play the list from this row.
    PlayFrom(usize),
    PlayNext(Track),
    AppendToQueue(Track),
    StartRadio(Track),
    SetFavorite { track: Track, favorite: bool },
    OpenArtist(ArtistRef),
    OpenAlbum(AlbumRef),
    OpenUrl(String),
}

/// One entry of a row's action menu; one without an action is shown dimmed.
#[derive(Debug)]
pub struct MenuEntry {
    pub id: &'static str,
    pub label: &'static str,
    pub action: Option<MenuAction>,
}

/// The first credited artist the catalog knows.
pub open spec fn linked_artist(artists: Seq<ArtistRef>) -> Option<ArtistRef>
    decreases artists.len(),
{
    if artists.len() == 0 {
        None
    } else if artists[0].source_id is Some {
        Some(artists[0])
    } else {
        linked_artist(artists.drop_first())
    }
}

fn first_linked_artist(artists: &Vec<ArtistRef>) -> (r: Option<ArtistRef>)
    ensures
        r == linked_artist(artists@),
{
    let mut i: usize = 0;
    assert(artists@.skip(0) =~= artists@);
    while i < artists.len()
        invariant
            i <= artists@.len(),
            linked_artist(artists@) == linked_artist(artists@.skip(i as int)),
        decreases artists.len() - i,
    {
        assert(artists@.skip(i as int).drop_first() =~= artists@.skip(i + 1));
        if artists[i].source_id.is_some() {
            return Some(artists[i].duplicate());
        }
        i = i + 1;
    }
    assert(artists@.skip(i as int) =~= Seq::<ArtistRef>::empty());
    None
}

/// The album to offer, unless the catalog does not know it or the page is
/// already showing it.
pub open spec fn offered_album(track: TrackView, current_album_id: Option<Seq<char>>) -> Option<AlbumRef> {
    match track.album_ref {
        Some(album) => if album.source_id is Some && opt_text(album.source_id) != current_album_id {
            Some(album)
        } else {
            None
        },
        None => None,
    }
}

pub open spec fn track_url(source_id: Seq<char>) -> Seq<char> {
    "https://open.spotify.com/track/"@ + source_id
}

/// The labels of a row's menu, in order, and what each offers.
pub open spec fn menu_shape(
    track: Track,
    index: usize,
    favorite: bool,
    is_current_track: bool,
    has_playback_context: bool,
    current_album_id: Option<Seq<char>>,
    entries: Seq<MenuEntry>,
) -> bool {
    let artist = linked_artist(track.artists@);
    let album = offered_album(track@, current_album_id);
    let n = 6 + (if artist is Some { 1int } else { 0 }) + (if album is Some { 1int } else { 0 });
    &&& entries.len() == n
    &&& entries[0].id@ == "track-menu-play"@
    &&& entries[0].label@ == "Play now"@
    &&& (if is_current_track {
        entries[0].action is None
    } else {
        entries[0].action == Some(MenuAction::PlayFrom(index))
    })
    &&& entries[1].id@ == "track-menu-next"@
    &&& entries[1].label@ == "Play next"@
    &&& (if has_playback_context {
        entries[1].action matches Some(MenuAction::PlayNext(t)) && t@ == track@
    } else {
        entries[1].action is None
    })
    &&& entries[2].id@ == "track-menu-queue"@
    &&& entries[2].label@ == "Add to queue"@
    &&& (if has_playback_context {
        entries[2].action matches Some(MenuAction::AppendToQueue(t)) && t@ == track@
    } else {
        entries[2].action is None
    })
    &&& entries[3].id@ == "track-menu-radio"@
    &&& entries[3].label@ == "Start track radio"@
    &&& (entries[3].action matches Some(MenuAction::StartRadio(t)) && t@ == track@)
    &&& entries[4].id@ == "track-menu-favorite"@
    &&& entries[4].label@ == (if favorite { "Remove from favorites"@ } else { "Add to favorites"@ })
    &&& (entries[4].action matches Some(MenuAction::SetFavorite { track: t, favorite: f }) && t@ == track@ && f
        == !favorite)
    &&& (artist matches Some(a) ==> entries[5].id@ == "track-menu-artist"@ && entries[5].label@ == "Go to artist"@ && entries[5].action == Some(
        MenuAction::OpenArtist(a),
    ))
    &&& (album matches Some(a) ==> {
        let at = if artist is Some { 6int } else { 5int };
        entries[at].id@ == "track-menu-album"@ && entries[at].label@ == "Go to album"@ && entries[at].action == Some(MenuAction::OpenAlbum(a))
    })
    &&& entries[n - 1].id@ == "track-menu-spotify"@
    &&& entries[n - 1].label@ == "Open track in Spotify"@
    &&& (entries[n - 1].action matches Some(MenuAction::OpenUrl(url)) && url@ == track_url(
        track.source_id@,
    ))
}

/// The entries of `track`'s action menu on row `index`. Playing the current
/// track again is not offered; queueing needs something playing; the album
/// entry is left out on that album's own page.
pub fn action_menu(
    track: &Track,
    index: usize,
    favorite: bool,
    is_current_track: bool,
    has_playback_context: bool,
    current_album_id: &Option<String>,
) -> (r: Vec<MenuEntry>)
    ensures
        menu_shape(*track, index, favorite, is_current_track, has_playback_context, opt_text(*current_album_id), r@),
{
    let mut entries: Vec<MenuEntry> = Vec::new();
    entries.push(
        MenuEntry {
            id: "track-menu-play",
            label: "Play now",
            action: if is_current_track { None } else { Some(MenuAction::PlayFrom(index)) },
        },
    );
    entries.push(
        MenuEntry {
            id: "track-menu-next",
            label: "Play next",
            action: if has_playback_context { Some(MenuAction::PlayNext(track.duplicate())) } else { None },
        },
    );
    entries.push(
        MenuEntry {
            id: "track-menu-queue",
            label: "Add to queue",
            action: if has_playback_context { Some(MenuAction::AppendToQueue(track.duplicate())) } else { None },
        },
    );
    entries.push(
        MenuEntry {
            id: "track-menu-radio",
            label: "Start track radio",
            action: Some(MenuAction::StartRadio(track.duplicate())),
        },
    );
    entries.push(
        MenuEntry {
            id: "track-menu-favorite",
            label: if favorite { "Remove from favorites" } else { "Add to favorites" },
            action: Some(MenuAction::SetFavorite { track: track.duplicate(), favorite: !favorite }),
        },
    );
    let artist = first_linked_artist(&track.artists);
    if let Some(artist) = artist {
        entries.push(MenuEntry { id: "track-menu-artist", label: "Go to artist", action: Some(MenuAction::OpenArtist(artist)) });
    }
    let album = match &track.album_ref {
        Some(album) => if album.source_id.is_some() && !crate::model::same_opt_text(&album.source_id, current_album_id) {
            Some(album.duplicate())
        } else {
            None
        },
        None => None,
    };
    if let Some(album) = album {
        entries.push(MenuEntry { id: "track-menu-album", label: "Go to album", action: Some(MenuAction::OpenAlbum(album)) });
    }
    let mut url = String::from_str("https://open.spotify.com/track/");
    url.append(track.source_id.as_str());
    entries.push(
        MenuEntry { id: "track-menu-spotify", label: "Open track in Spotify", action: Some(MenuAction::OpenUrl(url)) },
    );
    entries
}

/// The key of a row's menu: the track and the row, so the same track listed
/// twice opens only the row that was clicked.
pub open spec fn menu_key(track: TrackView, index: usize) -> Seq<char> {
    track.source_id@ + seq![':'] + decimal(index as nat)
}

pub struct TrackList {
    /// Which list is shown; a different one starts back at the top.
    pub id: String,
    /// Which copy of the list is shown: pages hand a new revision whenever
    /// they replace their contents, and the same one for the same contents.
    pub revision: u64,
    pub tracks: Vec<Track>,
    /// The row whose action menu is open.
    pub menu_open: Option<String>,
    /// The album already on screen, whose "Go to album" would go nowhere.
    pub current_album_id: Option<String>,
}

impl TrackList {
    pub fn new() -> (r: TrackList)
        ensures
            r.id@ == Seq::<char>::empty(),
            r.tracks@.len() == 0,
            r.menu_open is None,
            r.current_album_id is None,
    {
        TrackList { id: String::new(), revision: 0, tracks: Vec::new(), menu_open: None, current_album_id: None }
    }

    /// Shows revision `revision` of the list `id`; anything but the copy
    /// already shown replaces the rows and closes the open menu.
    pub fn show(&mut self, id: String, revision: u64, tracks: Vec<Track>)
        ensures
            (old(self).id@ == id@ && old(self).revision == revision) ==> *final(self) == *old(self),
            !(old(self).id@ == id@ && old(self).revision == revision) ==> *final(self) == (TrackList {
                id,
                revision,
                tracks,
                menu_open: None,
                ..*old(self)
            }),
    {
        if crate::text::same_text(self.id.as_str(), id.as_str()) && self.revision == revision {
            return;
        }
        self.id = id;
        self.revision = revision;
        self.tracks = tracks;
        self.menu_open = None;
    }

    pub fn set_current_album_id(&mut self, source_id: Option<String>)
        ensures
            *final(self) == (TrackList { current_album_id: source_id, ..*old(self) }),
    {
        self.current_album_id = source_id;
    }

    /// Closes the open menu; reports whether one was open.
    pub fn close_menu(&mut self) -> (r: bool)
        ensures
            r == old(self).menu_open is Some,
            *final(self) == (TrackList { menu_open: None, ..*old(self) }),
    {
        let open = self.menu_open.is_some();
        self.menu_open = None;
        open
    }

    /// Opens row `index`'s menu, or closes it when it is the one open.
    pub fn toggle_menu(&mut self, index: usize)
        requires
            index < old(self).tracks@.len(),
        ensures
            ({
                let key = menu_key(old(self).tracks@[index as int]@, index);
                &&& final(self).tracks == old(self).tracks
                &&& final(self).id == old(self).id
                &&& final(self).current_album_id == old(self).current_album_id
                &&& opt_text(old(self).menu_open) == Some(key) ==> final(self).menu_open is None
                &&& opt_text(old(self).menu_open) != Some(key) ==> opt_text(final(self).menu_open) == Some(key)
            }),
    {
        let mut key = String::new();
        key.append(self.tracks[index].source_id.as_str());
        key.append(":");
        let row = decimal_text(index as u64);
        key.append(row.as_str());
        proof {
            reveal_strlit(":");
            assert(key@ =~= menu_key(self.tracks@[index as int]@, index));
        }
        let open = match &self.menu_open {
            Some(current) => crate::text::same_text(current.as_str(), key.as_str()),
            None => false,
        };
        self.menu_open = if open { None } else { Some(key) };
    }

    /// The list to play, from row `index`.
    pub fn play_from(&self, index: usize) -> (r: (Vec<Track>, usize))
        ensures
            track_views(r.0@) == track_views(self.tracks@),
            r.1 == index,
    {
        (copy_tracks(self.tracks.as_slice()), index)
    }
}

} // verus!
