//! The transport strip's own decisions: where a seek lands, and which album
//! and artists the playing track links to.

use vstd::prelude::*;

use crate::mascot::MascotPreference;
use crate::model::{copy_artists, AlbumRef, ArtistRef, Track};

verus! {

/// The duration of the playing track, when there is one to seek within.
pub fn playing_duration_ms(track: Option<&Track>) -> (r: Option<u32>)
    ensures
        r == match track {
            Some(track) => if track.duration_ms > 0 { Some(track.duration_ms) } else { None },
            None => None,
        },
{
    match track {
        Some(track) => if track.duration_ms > 0 {
            Some(track.duration_ms)
        } else {
            None
        },
        None => None,
    }
}

/// A seek never lands past the end of the track it is in.
pub fn seek_target(position_ms: u32, duration_ms: Option<u32>) -> (r: u32)
    ensures
        r == match duration_ms {
            Some(duration) => if position_ms < duration { position_ms } else { duration },
            None => position_ms,
        },
{
    match duration_ms {
        Some(duration) => if position_ms < duration {
            position_ms
        } else {
            duration
        },
        None => position_ms,
    }
}

/// The position `delta_ms` away from `current_ms`, kept between the start of
/// the track and its end.
pub open spec fn stepped(current_ms: u32, delta_ms: i64, duration_ms: Option<u32>) -> int {
    let moved = current_ms + delta_ms;
    let clamped = if moved < 0 {
        0
    } else if moved > u32::MAX {
        u32::MAX as int
    } else {
        moved
    };
    match duration_ms {
        Some(duration) => if clamped < duration { clamped } else { duration as int },
        None => clamped,
    }
}

pub fn seek_by_target(current_ms: u32, delta_ms: i64, duration_ms: Option<u32>) -> (r: u32)
    ensures
        r == stepped(current_ms, delta_ms, duration_ms),
{
    let current = current_ms as i64;
    if delta_ms > 9_223_372_036_854_775_807i64 - 4_294_967_295i64 {
        return seek_target(u32::MAX, duration_ms);
    }
    let moved = current + delta_ms;
    let target: u32 = if moved < 0 {
        0
    } else if moved > 4_294_967_295i64 {
        u32::MAX
    } else {
        moved as u32
    };
    seek_target(target, duration_ms)
}

/// The album the playing track links to, when the catalog knows it.
pub fn playing_album(track: Option<&Track>) -> (r: Option<AlbumRef>)
    ensures
        r == match track {
            Some(track) => match track.album_ref {
                Some(album) => if album.source_id is Some { Some(album) } else { None },
                None => None,
            },
            None => None,
        },
{
    match track {
        Some(track) => match &track.album_ref {
            Some(album) => if album.source_id.is_some() {
                Some(album.duplicate())
            } else {
                None
            },
            None => None,
        },
        None => None,
    }
}

/// Who the bar credits, one entry per artist. A track stored with only its
/// joined artist names credits that line as a single plain entry.
pub fn artist_credits(track: Option<&Track>) -> (r: Vec<ArtistRef>)
    ensures
        match track {
            Some(track) => if track.artists@.len() > 0 {
                r@ == track.artists@
            } else {
                r@ == seq![ArtistRef { name: track.artist, source_id: None, spotify_uri: None }]
            },
            None => r@.len() == 1 && r@[0].name@ == Seq::<char>::empty() && r@[0].source_id is None
                && r@[0].spotify_uri is None,
        },
{
    match track {
        Some(track) => if track.artists.len() > 0 {
            copy_artists(&track.artists)
        } else {
            vec![ArtistRef { name: track.artist.clone(), source_id: None, spotify_uri: None }]
        },
        None => vec![ArtistRef { name: String::new(), source_id: None, spotify_uri: None }],
    }
}

/// The length shown beside the seek bar: the playing track's, or `0:00`.
pub fn duration_label(track: Option<&Track>) -> (r: String)
    ensures
        r@ == match track {
            Some(track) => crate::display::duration_text(track.duration_ms),
            None => "0:00"@,
        },
{
    match track {
        Some(track) => crate::display::format_duration(track.duration_ms),
        None => String::from_str("0:00"),
    }
}

/// What the play button shows.
#[derive(Clone, Copy, Debug, PartialEq, Eq, Structural)]
pub enum ToggleFace {
    /// A load is in flight.
    Spinner,
    Pause,
    Play,
}

pub fn toggle_face(loading: bool, playing: bool) -> (r: ToggleFace)
    ensures
        r == if loading {
            ToggleFace::Spinner
        } else if playing {
            ToggleFace::Pause
        } else {
            ToggleFace::Play
        },
{
    if loading {
        ToggleFace::Spinner
    } else if playing {
        ToggleFace::Pause
    } else {
        ToggleFace::Play
    }
}

/// The mascot rides along only under a live track, and only when one was picked.
pub fn shows_mascot(live_track: bool, preference: MascotPreference) -> (r: bool)
    ensures
        r == (live_track && preference != MascotPreference::NoMascot),
{
    live_track && preference != MascotPreference::NoMascot
}

/// Where in the playback context a click on queue row `index` starts: the
/// context opens with the playing track, when there is one, before the queue.
pub fn queue_row_context_index(index: usize, has_now_playing: bool) -> (r: Option<usize>)
    ensures
        has_now_playing ==> (if index < usize::MAX { r == Some((index + 1) as usize) } else { r is None }),
        !has_now_playing ==> r == Some(index),
{
    if has_now_playing {
        if index < usize::MAX {
            Some(index + 1)
        } else {
            None
        }
    } else {
        Some(index)
    }
}

} // verus!
