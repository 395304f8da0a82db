//! The backend's play queue: what was last handed to the player and saved,
//! and the decisions that move through it.

use vstd::prelude::*;

use crate::events::BackendEvent;
use crate::model::{copy_tracks, opt_text, track_views, Track, TrackView};

verus! {

/// The queue as it was persisted: the tracks, the current one, and where in
/// it playback stopped.
pub struct PlaybackSnapshot {
    pub tracks: Vec<Track>,
    pub index: usize,
    pub position_ms: u32,
}

pub struct PlayQueue {
    pub tracks: Vec<Track>,
    pub index: Option<usize>,
    pub position_ms: u32,
    /// The last track finished with nothing after it. The player sits at the
    /// end of the track, where play and seek do nothing; only a fresh load
    /// leaves it, so resuming and seeking take other paths while this is set.
    pub ended: bool,
}

pub struct QueueView {
    pub tracks: Seq<TrackView>,
    pub index: Option<usize>,
    pub position_ms: u32,
    pub ended: bool,
}

impl View for PlayQueue {
    type V = QueueView;

    open spec fn view(&self) -> QueueView {
        QueueView {
            tracks: track_views(self.tracks@),
            index: self.index,
            position_ms: self.position_ms,
            ended: self.ended,
        }
    }
}

/// Why a queue edit could not be made.
#[derive(Clone, Copy, Debug, PartialEq, Eq, Structural)]
pub enum QueueError {
    /// Nothing is currently playing, so there is no place to insert after.
    NothingPlaying,
    /// A radio came back without a single track worth playing.
    NoPlayableTracks,
}

impl QueueError {
    /// The words the listener is shown for this error.
    pub open spec fn message_text(self) -> Seq<char> {
        match self {
            QueueError::NothingPlaying => "Nothing is currently playing"@,
            QueueError::NoPlayableTracks => "Spotify track radio returned no playable tracks"@,
        }
    }

    pub fn message(&self) -> (r: String)
        ensures
            r@ == self.message_text(),
    {
        match self {
            QueueError::NothingPlaying => String::from_str("Nothing is currently playing"),
            QueueError::NoPlayableTracks => String::from_str("Spotify track radio returned no playable tracks"),
        }
    }
}

/// Where skipping forward goes.
#[derive(Clone, Copy, Debug, PartialEq, Eq, Structural)]
pub enum NextMove {
    /// Nothing is current: the listener is told the queue ended.
    NothingCurrent,
    /// The current track was the last: the queue ends on it.
    EndOfQueue,
    /// The track at this index loads next.
    Load(usize),
}

/// Where skipping back goes.
#[derive(Clone, Copy, Debug, PartialEq, Eq, Structural)]
pub enum PreviousMove {
    /// Restart the current track from the top.
    Rewind,
    /// The track at this index loads next.
    Load(usize),
}

/// The report that shows `tracks[index]` playing with the rest queued after it.
pub open spec fn context_event_for(tracks: Seq<Track>, index: int, event: BackendEvent) -> bool {
    match event {
        BackendEvent::PlaybackContext { current, next } => {
            &&& current@ == tracks[index]@
            &&& track_views(next@) == track_views(tracks.subrange(index + 1, tracks.len() as int))
        },
        _ => false,
    }
}

/// The report that announces `tracks[index]` restored at `position_ms`.
pub open spec fn snapshot_event_for(tracks: Seq<Track>, index: int, position_ms: u32, event: BackendEvent) -> bool {
    match event {
        BackendEvent::PlaybackSnapshotLoaded { current, next, position_ms: at } => {
            &&& current@ == tracks[index]@
            &&& track_views(next@) == track_views(tracks.subrange(index + 1, tracks.len() as int))
            &&& at == position_ms
        },
        _ => false,
    }
}

/// The tracks after `index`, as copies.
fn tracks_after(tracks: &Vec<Track>, index: usize) -> (r: Vec<Track>)
    requires
        index < tracks.len(),
    ensures
        track_views(r@) == track_views(tracks@.subrange(index + 1, tracks@.len() as int)),
{
    let mut rest: Vec<Track> = Vec::new();
    let mut i = index + 1;
    while i < tracks.len()
        invariant
            index < i <= tracks.len(),
            rest@.len() == i - index - 1,
            forall|k: int| 0 <= k < rest@.len() ==> (#[trigger] rest@[k])@ == tracks@[index + 1 + k]@,
        decreases tracks.len() - i,
    {
        rest.push(tracks[i].duplicate());
        i = i + 1;
    }
    assert(track_views(rest@) =~= track_views(tracks@.subrange(index + 1, tracks@.len() as int)));
    rest
}

/// The report that a queue is playing `tracks[index]`, if there is such a track.
pub fn playback_context(tracks: &Vec<Track>, index: usize) -> (r: Option<BackendEvent>)
    ensures
        match r {
            Some(event) => index < tracks@.len() && context_event_for(tracks@, index as int, event),
            None => index >= tracks@.len(),
        },
{
    if index >= tracks.len() {
        return None;
    }
    let current = tracks[index].duplicate();
    let next = tracks_after(tracks, index);
    Some(BackendEvent::PlaybackContext { current, next })
}

/// The report that announces a persisted queue at launch, if its current
/// track exists.
pub fn snapshot_loaded(snapshot: &PlaybackSnapshot) -> (r: Option<BackendEvent>)
    ensures
        match r {
            Some(event) => snapshot.index < snapshot.tracks@.len() && snapshot_event_for(
                snapshot.tracks@,
                snapshot.index as int,
                snapshot.position_ms,
                event,
            ),
            None => snapshot.index >= snapshot.tracks@.len(),
        },
{
    if snapshot.index >= snapshot.tracks.len() {
        return None;
    }
    let current = snapshot.tracks[snapshot.index].duplicate();
    let next = tracks_after(&snapshot.tracks, snapshot.index);
    Some(BackendEvent::PlaybackSnapshotLoaded { current, next, position_ms: snapshot.position_ms })
}

impl PlayQueue {
    /// The queue a launch starts from: the persisted one, or an empty one.
    pub fn from_snapshot(snapshot: Option<PlaybackSnapshot>) -> (r: PlayQueue)
        ensures
            match snapshot {
                Some(snapshot) => r@ == QueueView {
                    tracks: track_views(snapshot.tracks@),
                    index: Some(snapshot.index),
                    position_ms: snapshot.position_ms,
                    ended: false,
                },
                None => r@ == QueueView {
                    tracks: Seq::empty(),
                    index: None,
                    position_ms: 0,
                    ended: false,
                },
            },
    {
        match snapshot {
            Some(snapshot) => PlayQueue {
                tracks: snapshot.tracks,
                index: Some(snapshot.index),
                position_ms: snapshot.position_ms,
                ended: false,
            },
            None => {
                let r = PlayQueue { tracks: Vec::new(), index: None, position_ms: 0, ended: false };
                assert(r@.tracks =~= Seq::empty());
                r
            },
        }
    }

    /// The queue with `track` inserted right after the current one.
    pub fn with_next(&self, track: Track) -> (r: Result<Vec<Track>, QueueError>)
        requires
            self.index is Some ==> self.index->0 < self.tracks@.len(),
        ensures
            match r {
                Ok(tracks) => self.index is Some && track_views(tracks@) == self@.tracks.insert(
                    self.index->0 + 1,
                    track@,
                ),
                Err(error) => self.index is None && error == QueueError::NothingPlaying,
            },
    {
        let index = match self.index {
            Some(index) => index,
            None => {
                return Err(QueueError::NothingPlaying);
            },
        };
        assert(index < self.tracks.len());
        let mut updated = copy_tracks(self.tracks.as_slice());
        updated.insert(index + 1, track);
        assert(track_views(updated@) =~= self@.tracks.insert(index + 1, track@));
        Ok(updated)
    }

    /// The queue with `track` added at the end.
    pub fn with_appended(&self, track: Track) -> (r: Result<Vec<Track>, QueueError>)
        ensures
            match r {
                Ok(tracks) => self.index is Some && track_views(tracks@) == self@.tracks.push(track@),
                Err(error) => self.index is None && error == QueueError::NothingPlaying,
            },
    {
        if self.index.is_none() {
            return Err(QueueError::NothingPlaying);
        }
        let mut updated = copy_tracks(self.tracks.as_slice());
        updated.push(track);
        assert(track_views(updated@) =~= self@.tracks.push(track@));
        Ok(updated)
    }

    /// Where skipping forward goes.
    pub fn next_move(&self) -> (r: NextMove)
        ensures
            r == match self.index {
                None => NextMove::NothingCurrent,
                Some(current) => if current + 1 < self.tracks@.len() {
                    NextMove::Load((current + 1) as usize)
                } else {
                    NextMove::EndOfQueue
                },
            },
    {
        match self.index {
            None => NextMove::NothingCurrent,
            Some(current) => if current < self.tracks.len() && current + 1 < self.tracks.len() {
                NextMove::Load(current + 1)
            } else {
                NextMove::EndOfQueue
            },
        }
    }

    /// Where skipping back goes.
    pub fn previous_move(&self) -> (r: PreviousMove)
        ensures
            r == match self.index {
                Some(current) => if current > 0 {
                    PreviousMove::Load((current - 1) as usize)
                } else {
                    PreviousMove::Rewind
                },
                None => PreviousMove::Rewind,
            },
    {
        match self.index {
            Some(current) => if current > 0 {
                PreviousMove::Load(current - 1)
            } else {
                PreviousMove::Rewind
            },
            None => PreviousMove::Rewind,
        }
    }

    /// Nothing is left to play: the last track stays current, rewound so that
    /// play visibly means "from the start".
    pub fn end(&mut self)
        ensures
            final(self)@ == (QueueView { ended: true, position_ms: 0, ..old(self)@ }),
    {
        self.ended = true;
        self.position_ms = 0;
    }

    /// The state after any successful load of a queue track: current index,
    /// rewound position and a live queue.
    pub fn commit_loaded(&mut self, index: usize)
        ensures
            final(self)@ == (QueueView {
                index: Some(index),
                position_ms: 0,
                ended: false,
                ..old(self)@
            }),
    {
        self.index = Some(index);
        self.position_ms = 0;
        self.ended = false;
    }

    /// A fresh load restored `position_ms`, so the queue is live again.
    pub fn restored(&mut self, position_ms: u32)
        ensures
            final(self)@ == (QueueView { ended: false, position_ms, ..old(self)@ }),
    {
        self.ended = false;
        self.position_ms = position_ms;
    }

    /// Records a seek. Returns whether the player must seek too: at the end
    /// of the queue the position only waits for the reload that resuming does.
    pub fn seek(&mut self, position_ms: u32) -> (r: bool)
        ensures
            r == !old(self).ended,
            final(self)@ == (QueueView { position_ms, ..old(self)@ }),
    {
        self.position_ms = position_ms;
        !self.ended
    }

    /// The position a report asks to save, taken only when it is about the
    /// current track. Returns whether it was taken.
    pub fn save_position(&mut self, spotify_uri: &str, position_ms: u32) -> (r: bool)
        ensures
            r == (match old(self).index {
                Some(index) => index < old(self).tracks@.len() && opt_text(
                    old(self).tracks@[index as int].spotify_uri,
                ) == Some(spotify_uri@),
                None => false,
            }),
            final(self)@ == (if r {
                QueueView { position_ms, ..old(self)@ }
            } else {
                old(self)@
            }),
    {
        let current = match self.index {
            Some(index) => if index < self.tracks.len() {
                match &self.tracks[index].spotify_uri {
                    Some(uri) => crate::text::same_text(uri.as_str(), spotify_uri),
                    None => false,
                }
            } else {
                false
            },
            None => false,
        };
        if current {
            self.position_ms = position_ms;
        }
        current
    }

    /// Drops the session's queue; a fresh session must not inherit the end
    /// of the last one.
    pub fn clear(&mut self)
        ensures
            final(self)@ == (QueueView { tracks: Seq::empty(), index: None, ended: false, ..old(self)@ }),
    {
        self.tracks = Vec::new();
        self.index = None;
        self.ended = false;
        assert(self@.tracks =~= Seq::empty());
    }

    /// The track an autoplay prefetch seeds from: the current track when it
    /// is the last, unless its radio already came back dry or a prefetch for
    /// it is in flight.
    pub fn autoplay_seed(&self, fruitless_seed: &Option<String>, in_flight_seed: &Option<String>) -> (r: Option<Track>)
        ensures
            match r {
                Some(seed) => {
                    &&& self.index is Some
                    &&& self.index->0 + 1 >= self.tracks@.len()
                    &&& self.index->0 < self.tracks@.len()
                    &&& seed@ == self.tracks@[self.index->0 as int]@
                    &&& opt_text(*fruitless_seed) != Some(seed.source_id@)
                    &&& opt_text(*in_flight_seed) != Some(seed.source_id@)
                },
                None => match self.index {
                    None => true,
                    Some(index) => {
                        ||| index + 1 < self.tracks@.len()
                        ||| index >= self.tracks@.len()
                        ||| opt_text(*fruitless_seed) == Some(self.tracks@[index as int].source_id@)
                        ||| opt_text(*in_flight_seed) == Some(self.tracks@[index as int].source_id@)
                    },
                },
            },
    {
        let index = match self.index {
            Some(index) => index,
            None => {
                return None;
            },
        };
        if index < usize::MAX && index + 1 < self.tracks.len() {
            return None;
        }
        if index >= self.tracks.len() {
            return None;
        }
        let seed = &self.tracks[index];
        let seed_id = seed.source_id.as_str();
        let dry = match fruitless_seed {
            Some(id) => crate::text::same_text(id.as_str(), seed_id),
            None => false,
        };
        let pending = match in_flight_seed {
            Some(id) => crate::text::same_text(id.as_str(), seed_id),
            None => false,
        };
        if dry || pending {
            return None;
        }
        Some(seed.duplicate())
    }

    /// Whether an autoplay result seeded from `seed_id` still applies: the
    /// current track is still the last one and still the seed. Returns the
    /// current index when it does.
    pub fn autoplay_target(&self, seed_id: &Option<String>) -> (r: Option<usize>)
        ensures
            r == (match self.index {
                Some(index) => if index + 1 >= self.tracks@.len() && index < self.tracks@.len()
                    && opt_text(*seed_id) == Some(self.tracks@[index as int].source_id@) {
                    Some(index)
                } else {
                    None
                },
                None => None,
            }),
    {
        let index = match self.index {
            Some(index) => index,
            None => {
                return None;
            },
        };
        if index < usize::MAX && index + 1 < self.tracks.len() {
            return None;
        }
        if index >= self.tracks.len() {
            return None;
        }
        let same = match seed_id {
            Some(id) => crate::text::same_text(id.as_str(), self.tracks[index].source_id.as_str()),
            None => false,
        };
        if same {
            Some(index)
        } else {
            None
        }
    }

    /// The radio tracks an autoplay extension adds: those whose source id the
    /// queue does not hold yet, in the order the radio gave them.
    pub fn autoplay_additions(&self, tracks: Vec<Track>) -> (r: Vec<Track>)
        ensures
            track_views(r@) == track_views(tracks@.filter(|track: Track| !ids_of(self.tracks@).contains(track.source_id@))),
    {
        let mut additions: Vec<Track> = Vec::new();
        let mut i: usize = 0;
        let ghost keep = |track: Track| !ids_of(self.tracks@).contains(track.source_id@);
        let ghost mut kept: Seq<Track> = Seq::empty();
        assert(tracks@.take(0) =~= Seq::<Track>::empty());
        while i < tracks.len()
            invariant
                i <= tracks.len(),
                kept == tracks@.take(i as int).filter(keep),
                track_views(additions@) == track_views(kept),
                keep == (|track: Track| !ids_of(self.tracks@).contains(track.source_id@)),
            decreases tracks.len() - i,
        {
            let known = holds_id(&self.tracks, tracks[i].source_id.as_str());
            let ghost before = tracks@.take(i as int);
            proof {
                assert(tracks@.take(i + 1).drop_last() =~= before);
                assert(tracks@.take(i + 1).last() == tracks@[i as int]);
                reveal_with_fuel(Seq::filter, 1);
            }
            if !known {
                let ghost previous = additions@;
                let ghost old_kept = kept;
                additions.push(tracks[i].duplicate());
                proof {
                    assert(track_views(previous).len() == previous.len());
                    assert(track_views(old_kept).len() == old_kept.len());
                    assert(previous.len() == old_kept.len());
                    kept = kept.push(tracks@[i as int]);
                    assert forall|k: int| 0 <= k < additions@.len() implies #[trigger] additions@[k]@ == kept[k]@ by {
                        if k < previous.len() {
                            assert(track_views(previous)[k] == track_views(old_kept)[k]);
                        }
                    }
                    assert(track_views(additions@) =~= track_views(kept));
                }
            }
            i = i + 1;
        }
        assert(tracks@.take(tracks.len() as int) =~= tracks@);
        additions
    }
}

/// The source ids of a list of tracks.
pub open spec fn ids_of(tracks: Seq<Track>) -> Seq<Seq<char>> {
    tracks.map_values(|track: Track| track.source_id@)
}

/// Whether any track in `tracks` has source id `id`.
pub fn holds_id(tracks: &Vec<Track>, id: &str) -> (r: bool)
    ensures
        r == ids_of(tracks@).contains(id@),
{
    let mut i: usize = 0;
    while i < tracks.len()
        invariant
            i <= tracks.len(),
            forall|k: int| 0 <= k < i ==> tracks@[k].source_id@ != id@,
        decreases tracks.len() - i,
    {
        if crate::text::same_text(tracks[i].source_id.as_str(), id) {
            assert(ids_of(tracks@)[i as int] == id@);
            return true;
        }
        i = i + 1;
    }
    assert(!ids_of(tracks@).contains(id@)) by {
        if ids_of(tracks@).contains(id@) {
            let k = choose|k: int| 0 <= k < ids_of(tracks@).len() && ids_of(tracks@)[k] == id@;
            assert(tracks@[k].source_id@ == id@);
        }
    }
    false
}

/// A track queued with "play next" is the one skipping forward reaches: it
/// lands right after the current track, and everything else keeps its order.
pub proof fn lemma_play_next_comes_next(tracks: Seq<TrackView>, current: int, track: TrackView)
    requires
        0 <= current < tracks.len(),
    ensures
        ({
            let updated = tracks.insert(current + 1, track);
            &&& current + 1 < updated.len()
            &&& updated[current + 1] == track
            &&& updated.take(current + 1) == tracks.take(current + 1)
            &&& updated.skip(current + 2) == tracks.skip(current + 1)
        }),
{
    let updated = tracks.insert(current + 1, track);
    assert(updated.take(current + 1) =~= tracks.take(current + 1));
    assert(updated.skip(current + 2) =~= tracks.skip(current + 1));
}

} // verus!
