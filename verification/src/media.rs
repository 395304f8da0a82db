//! The system's now-playing panel and media keys: what to publish to it, and
//! which player action each of its commands asks for.

use vstd::prelude::*;

use crate::model::Provider;
use crate::player::Transport;

verus! {

/// A command the system sends, as far as Cadence tells them apart.
#[derive(Clone, Copy, Debug, PartialEq, Eq, Structural)]
pub enum SystemCommand {
    Play,
    Pause,
    Stop,
    Toggle,
    Next,
    Previous,
    /// Seek to a position given in milliseconds.
    SetPosition(u128),
    /// Anything else the system offers (raising the window, volume, ...).
    Other,
}

/// Translates a system command, ignoring the ones Cadence does not offer. A
/// position beyond what a `u32` holds is clamped rather than wrapped.
pub fn transport_for(command: SystemCommand) -> (r: Option<Transport>)
    ensures
        r == match command {
            SystemCommand::Play => Some(Transport::Play),
            SystemCommand::Pause | SystemCommand::Stop => Some(Transport::Pause),
            SystemCommand::Toggle => Some(Transport::Toggle),
            SystemCommand::Next => Some(Transport::Next),
            SystemCommand::Previous => Some(Transport::Previous),
            SystemCommand::SetPosition(ms) => Some(
                Transport::Seek(if ms > u32::MAX { u32::MAX } else { ms as u32 }),
            ),
            SystemCommand::Other => None,
        },
{
    match command {
        SystemCommand::Play => Some(Transport::Play),
        SystemCommand::Pause | SystemCommand::Stop => Some(Transport::Pause),
        SystemCommand::Toggle => Some(Transport::Toggle),
        SystemCommand::Next => Some(Transport::Next),
        SystemCommand::Previous => Some(Transport::Previous),
        SystemCommand::SetPosition(ms) => {
            let clamped: u32 = if ms > 4_294_967_295u128 { u32::MAX } else { ms as u32 };
            Some(Transport::Seek(clamped))
        },
        SystemCommand::Other => None,
    }
}

/// What the last push to the system told it.
#[derive(Clone, Debug, PartialEq, Eq)]
pub struct Published {
    pub track: Option<(Provider, String)>,
    pub playing: bool,
    pub position_seconds: u64,
}

/// Two publications tell the system the same thing.
pub open spec fn same_publication(a: Published, b: Published) -> bool {
    &&& same_track(a.track, b.track)
    &&& a.playing == b.playing
    &&& a.position_seconds == b.position_seconds
}

pub open spec fn same_track(a: Option<(Provider, String)>, b: Option<(Provider, String)>) -> bool {
    match (a, b) {
        (Some((pa, ia)), Some((pb, ib))) => pa == pb && ia@ == ib@,
        (None, None) => true,
        _ => false,
    }
}

fn tracks_match(a: &Option<(Provider, String)>, b: &Option<(Provider, String)>) -> (r: bool)
    ensures
        r == same_track(*a, *b),
{
    match (a, b) {
        (Some((pa, ia)), Some((pb, ib))) => *pa == *pb && crate::text::same_text(ia.as_str(), ib.as_str()),
        (None, None) => true,
        _ => false,
    }
}

/// Whether two publications tell the system the same thing.
pub fn publications_match(a: &Published, b: &Published) -> (r: bool)
    ensures
        r == same_publication(*a, *b),
{
    tracks_match(&a.track, &b.track) && a.playing == b.playing && a.position_seconds == b.position_seconds
}

/// What to push to the system after the player changed.
#[derive(Clone, Copy, Debug, PartialEq, Eq, Structural)]
pub enum MediaPush {
    /// The system already shows this.
    Nothing,
    /// Nothing is playing.
    Stopped,
    /// Playback state and position, after the track's metadata when `metadata`.
    Playback { metadata: bool, playing: bool, position_ms: u32 },
}

/// What the system is told, and what is remembered, when the player shows
/// `track` (by provider and source id) and `playing` at `position_ms`, after
/// `previous` was published.
pub open spec fn pushed(previous: Option<Published>, track: Option<(Provider, String)>, playing: bool, position_ms: u32) -> (
    Option<Published>,
    MediaPush,
) {
    let published = Published { track, playing, position_seconds: (position_ms / 1000) as u64 };
    match previous {
        Some(last) if same_publication(last, published) => (previous, MediaPush::Nothing),
        _ => {
            let changed = match previous {
                Some(last) => !same_track(last.track, track),
                None => true,
            };
            (
                Some(published),
                if track is None {
                    MediaPush::Stopped
                } else {
                    MediaPush::Playback { metadata: changed, playing, position_ms }
                },
            )
        },
    }
}

/// Pushing the same player state twice tells the system nothing the second
/// time: a position tick within the same second is not republished.
pub proof fn lemma_an_unchanged_player_pushes_nothing(
    previous: Option<Published>,
    track: Option<(Provider, String)>,
    playing: bool,
    position_ms: u32,
    later_ms: u32,
)
    requires
        position_ms / 1000 == later_ms / 1000,
    ensures
        ({
            let (remembered, _) = pushed(previous, track, playing, position_ms);
            let (again, push) = pushed(remembered, track, playing, later_ms);
            push == MediaPush::Nothing && again == remembered
        }),
{
}

/// Remembers what the system was last told, so a once-a-second position
/// tick does not re-send artwork and titles that have not changed.
pub struct MediaPublisher {
    pub published: Option<Published>,
}

impl MediaPublisher {
    pub fn new() -> (r: MediaPublisher)
        ensures
            r.published is None,
    {
        MediaPublisher { published: None }
    }

    /// Decides what to push for the player's state; the track is given by
    /// provider and source id.
    pub fn sync(&mut self, track: Option<(Provider, String)>, playing: bool, position_ms: u32) -> (r: MediaPush)
        ensures
            (final(self).published, r) == pushed(old(self).published, track, playing, position_ms),
    {
        let published = Published { track, playing, position_seconds: (position_ms / 1000) as u64 };
        let changed = match &self.published {
            Some(previous) => {
                if publications_match(previous, &published) {
                    return MediaPush::Nothing;
                }
                !tracks_match(&previous.track, &published.track)
            },
            None => true,
        };
        let stopped = published.track.is_none();
        self.published = Some(published);
        if stopped {
            MediaPush::Stopped
        } else {
            MediaPush::Playback { metadata: changed, playing, position_ms }
        }
    }
}

} // verus!
