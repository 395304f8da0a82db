//! Playback state that belongs to the process rather than to a window.
//!
//! The player mirrors what the backend reports, holds the queue the listener
//! sees, and decides which commands go back. Commands whose effect depends on
//! being delivered are asked for first and applied once the backend took
//! them; the volume, a fraction, is kept by the application around it.

use vstd::prelude::*;

use crate::events::{command_views, BackendEvent, Command, CommandView};
use crate::model::{copy_tracks, opt_text, track_views, Track, TrackView};

verus! {

/// How far playback may drift from the saved position before it is written back.
pub const POSITION_SAVE_INTERVAL_MS: u32 = 5_000;

pub struct Player {
    now_playing: Option<Track>,
    context: Vec<Track>,
    queue: Vec<Track>,
    playing: bool,
    loading: bool,
    /// Position and play state to reapply once a reconnected player is ready.
    restore: Option<(u32, bool)>,
    position_ms: u32,
    saved_position_ms: u32,
    /// The current track has been written to the listening history.
    recorded: bool,
    error: Option<String>,
}

/// The player as the contracts see it.
pub struct PlayerView {
    pub now_playing: Option<TrackView>,
    pub context: Seq<TrackView>,
    pub queue: Seq<TrackView>,
    pub playing: bool,
    pub loading: bool,
    pub restore: Option<(u32, bool)>,
    pub position_ms: u32,
    pub saved_position_ms: u32,
    pub recorded: bool,
    pub error: Option<String>,
}

pub open spec fn opt_track_view(track: Option<Track>) -> Option<TrackView> {
    match track {
        Some(track) => Some(track@),
        None => None,
    }
}

impl View for Player {
    type V = PlayerView;

    closed spec fn view(&self) -> PlayerView {
        PlayerView {
            now_playing: opt_track_view(self.now_playing),
            context: track_views(self.context@),
            queue: track_views(self.queue@),
            playing: self.playing,
            loading: self.loading,
            restore: self.restore,
            position_ms: self.position_ms,
            saved_position_ms: self.saved_position_ms,
            recorded: self.recorded,
            error: self.error,
        }
    }
}

/// The distance between two positions.
pub open spec fn distance(a: u32, b: u32) -> int {
    if a >= b {
        a - b
    } else {
        b - a
    }
}

/// A playback request from the listener or from the system's media keys.
#[derive(Clone, Copy, Debug, PartialEq, Eq, Structural)]
pub enum Transport {
    Play,
    Pause,
    Toggle,
    Next,
    Previous,
    Seek(u32),
}

/// What one backend event asks of the application around the player.
pub struct PlayerStep {
    /// Commands to send to the backend, in order.
    pub commands: Vec<Command>,
    /// The backend player is new or back, so it needs the current volume.
    pub resend_volume: bool,
    /// The event, when the surrounding application has its own work to do for it.
    pub unhandled: Option<BackendEvent>,
}

impl PlayerView {
    /// The state the player starts in.
    pub open spec fn initial() -> PlayerView {
        PlayerView {
            now_playing: None,
            context: Seq::empty(),
            queue: Seq::empty(),
            playing: false,
            loading: false,
            restore: None,
            position_ms: 0,
            saved_position_ms: 0,
            recorded: false,
            error: None,
        }
    }

    /// The report is about the track the player is showing.
    pub open spec fn live(self, spotify_uri: Seq<char>) -> bool {
        match self.now_playing {
            Some(track) => opt_text(track.spotify_uri) == Some(spotify_uri),
            None => false,
        }
    }

    /// Reports are taken only while no restore is in flight and only for the
    /// track being shown.
    pub open spec fn heeds(self, spotify_uri: Seq<char>) -> bool {
        self.restore is None && self.live(spotify_uri)
    }

    /// The current track and what follows it, as the backend reported them.
    pub open spec fn adopt(self, current: TrackView, next: Seq<TrackView>) -> PlayerView {
        PlayerView {
            now_playing: Some(current),
            context: seq![current] + next,
            queue: next,
            ..self
        }
    }

    /// The command a transport request sends, if it sends one. Nothing is
    /// sent while a restore is in flight, so the request cannot race the
    /// position the backend is about to reapply.
    pub open spec fn transport_request(self, transport: Transport) -> Option<CommandView> {
        if self.restore is Some {
            None
        } else {
            match transport {
                Transport::Toggle => if self.now_playing is None {
                    None
                } else if self.playing {
                    Some(CommandView::Pause)
                } else {
                    Some(CommandView::Resume)
                },
                Transport::Play => if self.now_playing is None || self.playing {
                    None
                } else {
                    Some(CommandView::Resume)
                },
                Transport::Pause => if self.now_playing is None || !self.playing {
                    None
                } else {
                    Some(CommandView::Pause)
                },
                Transport::Next => if self.now_playing is None {
                    None
                } else {
                    Some(CommandView::Next)
                },
                Transport::Previous => if self.now_playing is None {
                    None
                } else {
                    Some(CommandView::Previous)
                },
                Transport::Seek(position_ms) => Some(CommandView::Seek(position_ms)),
            }
        }
    }

    /// The state once the backend took a transport request's command.
    pub open spec fn transport_taken(self, transport: Transport) -> PlayerView {
        match transport {
            Transport::Toggle | Transport::Play | Transport::Pause => PlayerView {
                playing: !self.playing,
                loading: !self.playing,
                ..self
            },
            Transport::Next | Transport::Previous => PlayerView { loading: true, ..self },
            Transport::Seek(position_ms) => PlayerView { position_ms, ..self },
        }
    }

    /// The effect of one backend event: the next state, the commands sent
    /// back, whether the volume is resent, and whether the event passes on.
    pub open spec fn step(self, event: BackendEvent) -> (PlayerView, Seq<CommandView>, bool, bool) {
        match event {
            BackendEvent::PlaybackReady => (PlayerView { error: None, ..self }, seq![], true, false),
            BackendEvent::PlaybackReconnecting => (
                PlayerView {
                    restore: if self.restore is None && self.now_playing is Some {
                        Some((self.position_ms, self.playing))
                    } else {
                        self.restore
                    },
                    loading: true,
                    ..self
                },
                seq![],
                false,
                false,
            ),
            BackendEvent::PlaybackReconnected => match self.restore {
                Some((position_ms, playing)) => (
                    PlayerView { error: None, ..self },
                    seq![CommandView::RestorePlayback { position_ms, playing }],
                    true,
                    false,
                ),
                None => (PlayerView { error: None, loading: false, ..self }, seq![], true, false),
            },
            BackendEvent::PlaybackRestored { position_ms, playing } => (
                PlayerView {
                    position_ms,
                    saved_position_ms: position_ms,
                    playing,
                    loading: false,
                    restore: None,
                    ..self
                },
                seq![],
                false,
                false,
            ),
            BackendEvent::PlaybackSettled => (
                PlayerView { loading: false, restore: None, ..self },
                seq![],
                false,
                false,
            ),
            BackendEvent::QueueEnded => (
                PlayerView { playing: false, loading: false, ..self },
                seq![],
                false,
                false,
            ),
            BackendEvent::Playing { spotify_uri } => if self.heeds(spotify_uri@) {
                if self.recorded {
                    (PlayerView { playing: true, loading: false, ..self }, seq![], false, false)
                } else {
                    (
                        PlayerView { playing: true, loading: false, recorded: true, ..self },
                        seq![CommandView::MarkPlayed(self.now_playing->0)],
                        false,
                        false,
                    )
                }
            } else {
                (self, seq![], false, false)
            },
            BackendEvent::Loading { spotify_uri } => if self.heeds(spotify_uri@) {
                (PlayerView { loading: true, ..self }, seq![], false, false)
            } else {
                (self, seq![], false, false)
            },
            BackendEvent::Paused { spotify_uri } => if self.heeds(spotify_uri@) {
                if self.position_ms != self.saved_position_ms {
                    (
                        PlayerView {
                            playing: false,
                            loading: false,
                            saved_position_ms: self.position_ms,
                            ..self
                        },
                        seq![
                            CommandView::SavePlaybackPosition {
                                spotify_uri: spotify_uri@,
                                position_ms: self.position_ms,
                            },
                        ],
                        false,
                        false,
                    )
                } else {
                    (PlayerView { playing: false, loading: false, ..self }, seq![], false, false)
                }
            } else {
                (self, seq![], false, false)
            },
            BackendEvent::EndOfTrack { spotify_uri } => if self.heeds(spotify_uri@) {
                (
                    PlayerView { playing: false, loading: false, ..self },
                    seq![CommandView::Next],
                    false,
                    false,
                )
            } else {
                (self, seq![], false, false)
            },
            BackendEvent::PositionChanged { spotify_uri, position_ms } => if self.heeds(
                spotify_uri@,
            ) {
                if distance(position_ms, self.saved_position_ms) >= POSITION_SAVE_INTERVAL_MS {
                    (
                        PlayerView { position_ms, saved_position_ms: position_ms, ..self },
                        seq![
                            CommandView::SavePlaybackPosition {
                                spotify_uri: spotify_uri@,
                                position_ms,
                            },
                        ],
                        false,
                        false,
                    )
                } else {
                    (PlayerView { position_ms, ..self }, seq![], false, false)
                }
            } else {
                (self, seq![], false, false)
            },
            BackendEvent::PlaybackSnapshotLoaded { current, next, position_ms } => (
                PlayerView {
                    position_ms,
                    saved_position_ms: position_ms,
                    playing: false,
                    loading: false,
                    recorded: false,
                    ..self.adopt(current@, track_views(next@))
                },
                seq![],
                false,
                false,
            ),
            BackendEvent::PlaybackContext { current, next } => {
                let changed = match self.now_playing {
                    Some(track) => !track.same_entry(current@),
                    None => true,
                };
                let adopted = self.adopt(current@, track_views(next@));
                if changed {
                    (
                        PlayerView {
                            loading: true,
                            position_ms: 0,
                            saved_position_ms: 0,
                            restore: None,
                            recorded: false,
                            ..adopted
                        },
                        seq![],
                        false,
                        false,
                    )
                } else {
                    (adopted, seq![], false, false)
                }
            },
            BackendEvent::PlaybackFailed(error) => (
                PlayerView { error: Some(error), ..self },
                seq![],
                false,
                false,
            ),
            BackendEvent::TrackFailed { spotify_uri, .. } => if self.heeds(spotify_uri@) {
                (
                    PlayerView { playing: false, loading: false, ..self },
                    seq![CommandView::Next],
                    false,
                    true,
                )
            } else {
                (self, seq![], false, true)
            },
            _ => (self, seq![], false, true),
        }
    }
}

impl Player {
    pub fn new() -> (r: Player)
        ensures
            r@ == PlayerView::initial(),
    {
        let r = Player {
            now_playing: None,
            context: Vec::new(),
            queue: Vec::new(),
            playing: false,
            loading: false,
            restore: None,
            position_ms: 0,
            saved_position_ms: 0,
            recorded: false,
            error: None,
        };
        assert(r@.context =~= Seq::empty());
        assert(r@.queue =~= Seq::empty());
        r
    }

    pub fn now_playing(&self) -> (r: Option<&Track>)
        ensures
            match r {
                Some(track) => self@.now_playing == Some(track@),
                None => self@.now_playing is None,
            },
    {
        self.now_playing.as_ref()
    }

    /// The current track followed by the rest of the queue.
    pub fn context(&self) -> (r: &[Track])
        ensures
            track_views(r@) == self@.context,
    {
        self.context.as_slice()
    }

    /// What plays after the current track.
    pub fn queue(&self) -> (r: &[Track])
        ensures
            track_views(r@) == self@.queue,
    {
        self.queue.as_slice()
    }

    pub fn playing(&self) -> (r: bool)
        ensures
            r == self@.playing,
    {
        self.playing
    }

    pub fn loading(&self) -> (r: bool)
        ensures
            r == self@.loading,
    {
        self.loading
    }

    pub fn position_ms(&self) -> (r: u32)
        ensures
            r == self@.position_ms,
    {
        self.position_ms
    }

    pub fn error(&self) -> (r: Option<&String>)
        ensures
            match r {
                Some(error) => self@.error == Some(*error),
                None => self@.error is None,
            },
    {
        self.error.as_ref()
    }

    /// Whether `track` is the one playing.
    pub fn is_current_track(&self, track: &Track) -> (r: bool)
        ensures
            r == match self@.now_playing {
                Some(current) => current.same_entry(track@),
                None => false,
            },
    {
        match &self.now_playing {
            Some(current) => current.is_same_entry(track),
            None => false,
        }
    }

    /// Whether a report names the track the player is showing.
    pub fn live_track_matches(&self, spotify_uri: &str) -> (r: bool)
        ensures
            r == self@.live(spotify_uri@),
    {
        match &self.now_playing {
            Some(track) => match &track.spotify_uri {
                Some(uri) => crate::text::same_text(uri.as_str(), spotify_uri),
                None => false,
            },
            None => false,
        }
    }

    fn adopt_context(&mut self, current: Track, next: Vec<Track>)
        ensures
            final(self)@ == old(self)@.adopt(current@, track_views(next@)),
    {
        let mut context: Vec<Track> = Vec::new();
        context.push(current.duplicate());
        let mut rest = copy_tracks(next.as_slice());
        context.append(&mut rest);
        proof {
            assert(track_views(context@) =~= seq![current@] + track_views(next@));
        }
        self.context = context;
        self.now_playing = Some(current);
        self.queue = next;
    }

    /// Forgets everything about the account's playback.
    pub fn clear(&mut self)
        ensures
            final(self)@ == PlayerView::initial(),
    {
        self.now_playing = None;
        self.context = Vec::new();
        self.queue = Vec::new();
        self.playing = false;
        self.loading = false;
        self.restore = None;
        self.position_ms = 0;
        self.saved_position_ms = 0;
        self.recorded = false;
        self.error = None;
        assert(self@.context =~= Seq::empty());
        assert(self@.queue =~= Seq::empty());
    }

    /// The command that carries out `transport`, if one is to be sent.
    pub fn transport_command(&self, transport: Transport) -> (r: Option<Command>)
        ensures
            match r {
                Some(command) => self@.transport_request(transport) == Some(command@),
                None => self@.transport_request(transport) is None,
            },
    {
        if self.restore.is_some() {
            return None;
        }
        match transport {
            Transport::Toggle => if self.now_playing.is_none() {
                None
            } else if self.playing {
                Some(Command::Pause)
            } else {
                Some(Command::Resume)
            },
            Transport::Play => if self.now_playing.is_none() || self.playing {
                None
            } else {
                Some(Command::Resume)
            },
            Transport::Pause => if self.now_playing.is_none() || !self.playing {
                None
            } else {
                Some(Command::Pause)
            },
            Transport::Next => if self.now_playing.is_none() {
                None
            } else {
                Some(Command::Next)
            },
            Transport::Previous => if self.now_playing.is_none() {
                None
            } else {
                Some(Command::Previous)
            },
            Transport::Seek(position_ms) => Some(Command::Seek(position_ms)),
        }
    }

    /// Applies a transport request whose command the backend took.
    pub fn transport_delivered(&mut self, transport: Transport)
        requires
            old(self)@.transport_request(transport) is Some,
        ensures
            final(self)@ == old(self)@.transport_taken(transport),
    {
        match transport {
            Transport::Toggle | Transport::Play | Transport::Pause => {
                self.loading = !self.playing;
                self.playing = !self.playing;
            },
            Transport::Next | Transport::Previous => {
                self.loading = true;
            },
            Transport::Seek(position_ms) => {
                self.position_ms = position_ms;
            },
        }
    }

    /// The command that starts `tracks` at `index`, unless a restore is in flight.
    pub fn play_context_command(&self, tracks: Vec<Track>, index: usize) -> (r: Option<Command>)
        ensures
            match r {
                Some(command) => self@.restore is None && command@ == CommandView::PlayContext {
                    tracks: track_views(tracks@),
                    index,
                },
                None => self@.restore is Some,
            },
    {
        if self.restore.is_some() {
            None
        } else {
            Some(Command::PlayContext { tracks, index })
        }
    }

    /// Applies a context start the backend took: loading from the top.
    pub fn play_context_delivered(&mut self)
        ensures
            final(self)@ == (PlayerView {
                position_ms: 0,
                playing: false,
                loading: true,
                ..old(self)@
            }),
    {
        self.position_ms = 0;
        self.playing = false;
        self.loading = true;
    }

    /// Marks the player as waiting on the backend, or as done waiting.
    pub fn set_loading(&mut self, loading: bool)
        ensures
            final(self)@ == (PlayerView { loading, ..old(self)@ }),
    {
        self.loading = loading;
    }

    /// The position to persist for the current track, if it can be played.
    pub fn position_snapshot(&self) -> (r: Option<u32>)
        ensures
            r == match self@.now_playing {
                Some(track) => if track.spotify_uri is Some {
                    Some(self@.position_ms)
                } else {
                    None
                },
                None => None,
            },
    {
        match &self.now_playing {
            Some(track) => if track.spotify_uri.is_some() {
                Some(self.position_ms)
            } else {
                None
            },
            None => None,
        }
    }

    /// The command that writes the live position back, so a restart resumes
    /// where the listener left off.
    pub fn save_position(&self) -> (r: Option<Command>)
        ensures
            match r {
                Some(command) => self@.now_playing is Some
                    && self@.now_playing->0.spotify_uri is Some
                    && command@ == CommandView::SavePlaybackPosition {
                        spotify_uri: self@.now_playing->0.spotify_uri->0@,
                        position_ms: self@.position_ms,
                    },
                None => self@.now_playing is None || self@.now_playing->0.spotify_uri is None,
            },
    {
        match &self.now_playing {
            Some(track) => match &track.spotify_uri {
                Some(uri) => Some(Command::SavePlaybackPosition {
                    spotify_uri: uri.clone(),
                    position_ms: self.position_ms,
                }),
                None => None,
            },
            None => None,
        }
    }

    /// Applies the playback half of a backend event.
    pub fn handle_backend_event(&mut self, event: BackendEvent) -> (r: PlayerStep)
        ensures
            ({
                let (state, commands, resend_volume, passes) = old(self)@.step(event);
                &&& final(self)@ == state
                &&& command_views(r.commands@) == commands
                &&& r.resend_volume == resend_volume
                &&& r.unhandled == (if passes { Some(event) } else { None })
            }),
    {
        let mut commands: Vec<Command> = Vec::new();
        let ghost before = self@;
        match event {
            BackendEvent::PlaybackReady => {
                self.error = None;
                return PlayerStep { commands, resend_volume: true, unhandled: None };
            },
            BackendEvent::PlaybackReconnecting => {
                if self.restore.is_none() && self.now_playing.is_some() {
                    self.restore = Some((self.position_ms, self.playing));
                }
                self.loading = true;
            },
            BackendEvent::PlaybackReconnected => {
                self.error = None;
                match self.restore {
                    Some((position_ms, playing)) => {
                        commands.push(Command::RestorePlayback { position_ms, playing });
                        assert(command_views(commands@) =~= seq![
                            CommandView::RestorePlayback { position_ms, playing },
                        ]);
                    },
                    None => {
                        self.loading = false;
                    },
                }
                return PlayerStep { commands, resend_volume: true, unhandled: None };
            },
            BackendEvent::PlaybackRestored { position_ms, playing } => {
                self.position_ms = position_ms;
                self.saved_position_ms = position_ms;
                self.playing = playing;
                self.loading = false;
                self.restore = None;
            },
            BackendEvent::PlaybackSettled => {
                self.loading = false;
                self.restore = None;
            },
            BackendEvent::QueueEnded => {
                self.playing = false;
                self.loading = false;
            },
            BackendEvent::Playing { spotify_uri } => {
                if self.restore.is_none() && self.live_track_matches(spotify_uri.as_str()) {
                    self.playing = true;
                    self.loading = false;
                    if !self.recorded {
                        match &self.now_playing {
                            Some(track) => {
                                commands.push(Command::MarkPlayed(track.duplicate()));
                            },
                            None => {},
                        }
                        self.recorded = true;
                        assert(command_views(commands@) =~= seq![
                            CommandView::MarkPlayed(before.now_playing->0),
                        ]);
                    }
                }
            },
            BackendEvent::Loading { spotify_uri } => {
                if self.restore.is_none() && self.live_track_matches(spotify_uri.as_str()) {
                    self.loading = true;
                }
            },
            BackendEvent::Paused { spotify_uri } => {
                if self.restore.is_none() && self.live_track_matches(spotify_uri.as_str()) {
                    self.playing = false;
                    self.loading = false;
                    if self.position_ms != self.saved_position_ms {
                        let position_ms = self.position_ms;
                        commands.push(Command::SavePlaybackPosition { spotify_uri, position_ms });
                        self.saved_position_ms = position_ms;
                        assert(command_views(commands@) =~= seq![
                            CommandView::SavePlaybackPosition {
                                spotify_uri: old(self)@.now_playing->0.spotify_uri->0@,
                                position_ms,
                            },
                        ]);
                    }
                }
            },
            BackendEvent::EndOfTrack { spotify_uri } => {
                if self.restore.is_none() && self.live_track_matches(spotify_uri.as_str()) {
                    self.playing = false;
                    self.loading = false;
                    commands.push(Command::Next);
                    assert(command_views(commands@) =~= seq![CommandView::Next]);
                }
            },
            BackendEvent::PositionChanged { spotify_uri, position_ms } => {
                if self.restore.is_none() && self.live_track_matches(spotify_uri.as_str()) {
                    self.position_ms = position_ms;
                    let moved = if position_ms >= self.saved_position_ms {
                        position_ms - self.saved_position_ms
                    } else {
                        self.saved_position_ms - position_ms
                    };
                    if moved >= POSITION_SAVE_INTERVAL_MS {
                        commands.push(Command::SavePlaybackPosition { spotify_uri, position_ms });
                        self.saved_position_ms = position_ms;
                        assert(command_views(commands@) =~= seq![
                            CommandView::SavePlaybackPosition {
                                spotify_uri: old(self)@.now_playing->0.spotify_uri->0@,
                                position_ms,
                            },
                        ]);
                    }
                }
            },
            BackendEvent::PlaybackSnapshotLoaded { current, next, position_ms } => {
                self.adopt_context(current, next);
                self.position_ms = position_ms;
                self.saved_position_ms = position_ms;
                self.playing = false;
                self.loading = false;
                self.recorded = false;
            },
            BackendEvent::PlaybackContext { current, next } => {
                let changed = match &self.now_playing {
                    Some(track) => !track.is_same_entry(&current),
                    None => true,
                };
                self.adopt_context(current, next);
                if changed {
                    self.loading = true;
                    self.position_ms = 0;
                    self.saved_position_ms = 0;
                    self.restore = None;
                    self.recorded = false;
                }
            },
            BackendEvent::PlaybackFailed(error) => {
                self.error = Some(error);
            },
            BackendEvent::TrackFailed { spotify_uri, error } => {
                if self.restore.is_none() && self.live_track_matches(spotify_uri.as_str()) {
                    self.playing = false;
                    self.loading = false;
                    commands.push(Command::Next);
                    assert(command_views(commands@) =~= seq![CommandView::Next]);
                }
                return PlayerStep {
                    commands,
                    resend_volume: false,
                    unhandled: Some(BackendEvent::TrackFailed { spotify_uri, error }),
                };
            },
            event => {
                return PlayerStep { commands, resend_volume: false, unhandled: Some(event) };
            },
        }
        assert(command_views(commands@) =~= old(self)@.step(event).1);
        PlayerStep { commands, resend_volume: false, unhandled: None }
    }
}

/// A report about what the backend player is doing with one track.
pub open spec fn is_track_report(event: BackendEvent) -> bool {
    ||| event is Playing
    ||| event is Loading
    ||| event is Paused
    ||| event is EndOfTrack
    ||| event is PositionChanged
    ||| event is TrackFailed
}

/// Once a track's play has been written to the listening history, hearing
/// again that it plays writes nothing more: history is recorded once.
pub proof fn lemma_history_is_recorded_once(player: PlayerView, spotify_uri: String)
    ensures
        ({
            let (after, _, _, _) = player.step(BackendEvent::Playing { spotify_uri });
            let (_, again, _, _) = after.step(BackendEvent::Playing { spotify_uri });
            again.len() == 0
        }),
{
}

/// The first report that the shown track plays records it, and nothing else
/// does: a play is written to the history exactly when it is heard.
pub proof fn lemma_history_is_recorded_when_the_track_plays(player: PlayerView, spotify_uri: String)
    ensures
        ({
            let (after, commands, _, _) = player.step(BackendEvent::Playing { spotify_uri });
            &&& player.heeds(spotify_uri@) && !player.recorded ==> commands == seq![
                CommandView::MarkPlayed(player.now_playing->0),
            ] && after.recorded
            &&& !(player.heeds(spotify_uri@) && !player.recorded) ==> commands.len() == 0
        }),
{
}

/// A track that cannot be played leaves the queue and the shown track as they
/// were; only a failure of the shown track, outside a restore, skips ahead.
pub proof fn lemma_track_failure_keeps_the_queue(player: PlayerView, spotify_uri: String, error: String)
    ensures
        ({
            let (after, commands, _, _) = player.step(BackendEvent::TrackFailed { spotify_uri, error });
            &&& after.queue == player.queue
            &&& after.context == player.context
            &&& after.now_playing == player.now_playing
            &&& after.recorded == player.recorded
            &&& commands == (if player.heeds(spotify_uri@) {
                seq![CommandView::Next]
            } else {
                Seq::<CommandView>::empty()
            })
        }),
{
}

/// While a restore is in flight, reports about tracks change nothing and
/// send nothing, so they cannot race the position about to be reapplied.
pub proof fn lemma_reports_wait_for_the_restore(player: PlayerView, event: BackendEvent)
    requires
        player.restore is Some,
        is_track_report(event),
    ensures
        ({
            let (after, commands, resend_volume, _) = player.step(event);
            after == player && commands.len() == 0 && !resend_volume
        }),
{
}

/// A dropped connection brings the position and play state back: losing the
/// session and getting it back asks the backend to restore exactly what was
/// showing when it was lost.
pub proof fn lemma_reconnect_restores_what_was_showing(player: PlayerView)
    requires
        player.now_playing is Some,
        player.restore is None,
    ensures
        ({
            let (lost, _, _, _) = player.step(BackendEvent::PlaybackReconnecting);
            let (_, commands, resend_volume, _) = lost.step(BackendEvent::PlaybackReconnected);
            &&& commands == seq![
                CommandView::RestorePlayback { position_ms: player.position_ms, playing: player.playing },
            ]
            &&& resend_volume
        }),
{
}

/// A restart resumes where the listener left off: the saved queue's report
/// shows its current track, paused at the saved position, with the rest of
/// the queue after it, and sends nothing.
pub proof fn lemma_a_restart_resumes_where_playback_left_off(
    player: PlayerView,
    tracks: Seq<Track>,
    index: int,
    position_ms: u32,
    event: BackendEvent,
)
    requires
        0 <= index < tracks.len(),
        crate::queue::snapshot_event_for(tracks, index, position_ms, event),
    ensures
        ({
            let (after, commands, _, _) = player.step(event);
            &&& after.now_playing == Some(tracks[index]@)
            &&& after.queue == track_views(tracks.subrange(index + 1, tracks.len() as int))
            &&& after.context == track_views(tracks.subrange(index, tracks.len() as int))
            &&& after.position_ms == position_ms
            &&& !after.playing
            &&& !after.recorded
            &&& commands.len() == 0
        }),
{
    let (after, _, _, _) = player.step(event);
    assert(track_views(tracks.subrange(index, tracks.len() as int)) =~= seq![tracks[index]@] + track_views(
        tracks.subrange(index + 1, tracks.len() as int),
    ));
}


/// Play/pause flips playback: with a track showing and no restore in flight,
/// toggling a playing player asks to pause and toggling a paused one asks to
/// resume, the same command the dedicated pause or play control sends; the
/// control that would not change anything sends nothing. Once the backend
/// takes the toggle, the player's playing state is the opposite one.
pub proof fn lemma_toggle_pauses_a_playing_player(player: PlayerView)
    requires
        player.now_playing is Some,
        player.restore is None,
    ensures
        player.playing ==> player.transport_request(Transport::Toggle) == Some(CommandView::Pause),
        !player.playing ==> player.transport_request(Transport::Toggle) == Some(CommandView::Resume),
        player.playing ==> player.transport_request(Transport::Pause) == Some(CommandView::Pause)
            && player.transport_request(Transport::Play) is None,
        !player.playing ==> player.transport_request(Transport::Play) == Some(CommandView::Resume)
            && player.transport_request(Transport::Pause) is None,
        player.transport_taken(Transport::Toggle).playing == !player.playing,
{
}

/// A pause the backend reports for the track the player is showing stops
/// it: it is no longer playing nor loading, and its position is the one
/// saved from then on.
pub proof fn lemma_a_reported_pause_stops_the_player(player: PlayerView, spotify_uri: String)
    requires
        player.heeds(spotify_uri@),
    ensures
        ({
            let (after, _, _, _) = player.step(BackendEvent::Paused { spotify_uri });
            &&& !after.playing
            &&& !after.loading
            &&& after.saved_position_ms == player.position_ms
            &&& after.now_playing == player.now_playing
        }),
{
}

} // verus!
