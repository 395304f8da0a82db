//! The live playback session's bookkeeping in the backend worker: whether a
//! connection is being made, whether a dropped one is being replaced, and
//! the play held until one is up. The sessions and tasks themselves are the
//! worker's; this says what to do with them.

use vstd::prelude::*;

use crate::events::BackendEvent;
use crate::model::{opt_text, Track};

verus! {

pub struct Connection {
    /// A session is held.
    pub has_player: bool,
    /// The held session still reports itself connected.
    pub player_connected: bool,
    /// A first connection attempt is running.
    pub connecting: bool,
    /// A reconnection attempt is running.
    pub reconnecting: bool,
    /// The session dropped and has not been replaced yet.
    pub reconnect_pending: bool,
    /// The connection attempt running replaces a dropped session, so the
    /// saved playback must not be restored over it.
    pub connect_restoring: bool,
    /// A play asked for while connecting, started once the session is up.
    pub pending_play: Option<(Vec<Track>, usize)>,
}

/// What to do once a connection attempt succeeded.
#[derive(Debug)]
pub enum Connected {
    /// Start the play that waited for the session.
    PlayHeld(Vec<Track>, usize),
    /// A dropped session is back: tell the foreground so it restores itself.
    Reconnected,
    /// A fresh session: restore the saved queue and position.
    RestoreSaved,
}

pub open spec fn not_connected_message(error: Seq<char>) -> Seq<char> {
    "Spotify playback is not connected: "@ + error
}

/// The events a failed held play reports: its track failed, and playback settled.
pub open spec fn held_play_failed(pending: Option<(Vec<Track>, usize)>, error: Seq<char>, events: Seq<BackendEvent>) -> bool {
    match pending {
        None => events.len() == 0,
        Some((tracks, index)) => {
            &&& events.len() == 2
            &&& events[0] matches BackendEvent::TrackFailed { spotify_uri, error: message } && {
                &&& spotify_uri@ == (if index < tracks@.len() {
                    match opt_text(tracks@[index as int].spotify_uri) {
                        Some(uri) => uri,
                        None => Seq::empty(),
                    }
                } else {
                    Seq::empty()
                })
                &&& message@ == not_connected_message(error)
            }
            &&& events[1] is PlaybackSettled
        },
    }
}

impl Connection {
    pub fn new() -> (r: Connection)
        ensures
            !r.has_player && !r.player_connected && !r.connecting && !r.reconnecting,
            !r.reconnect_pending && !r.connect_restoring && r.pending_play is None,
    {
        Connection {
            has_player: false,
            player_connected: false,
            connecting: false,
            reconnecting: false,
            reconnect_pending: false,
            connect_restoring: false,
            pending_play: None,
        }
    }

    /// No session is held and one is on its way.
    pub fn is_connecting(&self) -> (r: bool)
        ensures
            r == (!self.has_player && (self.connecting || self.reconnecting)),
    {
        !self.has_player && (self.connecting || self.reconnecting)
    }

    /// Holds a play until the connection on its way is up, replacing any
    /// play held before it.
    pub fn hold_play(&mut self, tracks: Vec<Track>, index: usize)
        ensures
            final(self).pending_play == Some((tracks, index)),
            final(self).has_player == old(self).has_player,
            final(self).connecting == old(self).connecting,
            final(self).reconnecting == old(self).reconnecting,
            *final(self) == (Connection { pending_play: Some((tracks, index)), ..*old(self) }),
    {
        self.pending_play = Some((tracks, index));
    }

    /// Replaces the session with a fresh connection attempt; one made while
    /// a dropped session awaited replacement restores nothing over it.
    pub fn begin_connect(&mut self)
        ensures
            final(self).connect_restoring == old(self).reconnect_pending,
            !final(self).reconnect_pending,
            !final(self).reconnecting,
            final(self).connecting,
            !final(self).has_player,
            !final(self).player_connected,
            final(self).pending_play == old(self).pending_play,
    {
        self.connect_restoring = self.reconnect_pending;
        self.reconnecting = false;
        self.reconnect_pending = false;
        self.has_player = false;
        self.player_connected = false;
        self.connecting = true;
    }

    /// Notices a dropped session. Returns whether a reconnection starts now,
    /// in which case the session is let go and the foreground is told.
    pub fn reconnect_if_dead(&mut self) -> (r: bool)
        ensures
            ({
                let dropped = old(self).reconnect_pending || (old(self).has_player && !old(self).player_connected);
                &&& !dropped ==> *final(self) == *old(self) && !r
                &&& dropped ==> final(self).reconnect_pending
                &&& dropped ==> r == !old(self).reconnecting
                &&& dropped && !old(self).reconnecting ==> {
                    &&& final(self).reconnecting
                    &&& !final(self).has_player
                    &&& !final(self).player_connected
                    &&& final(self).connecting == old(self).connecting
                    &&& final(self).pending_play == old(self).pending_play
                    &&& *final(self) == (Connection {
                        reconnect_pending: true,
                        reconnecting: true,
                        has_player: false,
                        player_connected: false,
                        ..*old(self)
                    })
                }
                &&& dropped && old(self).reconnecting ==> *final(self) == (Connection {
                    reconnect_pending: true,
                    ..*old(self)
                })
            }),
    {
        let dropped = self.reconnect_pending || (self.has_player && !self.player_connected);
        if !dropped {
            return false;
        }
        self.reconnect_pending = true;
        if self.reconnecting {
            return false;
        }
        self.has_player = false;
        self.player_connected = false;
        self.reconnecting = true;
        true
    }

    /// A connection attempt succeeded with a live session.
    pub fn connected(&mut self) -> (r: Connected)
        ensures
            final(self).has_player && final(self).player_connected,
            !final(self).connecting,
            !final(self).connect_restoring,
            final(self).pending_play is None,
            *final(self) == (Connection {
                has_player: true,
                player_connected: true,
                connecting: false,
                connect_restoring: false,
                pending_play: None,
                ..*old(self)
            }),
            match old(self).pending_play {
                Some((tracks, index)) => r matches Connected::PlayHeld(held, at) && held == tracks && at == index,
                None => if old(self).connect_restoring {
                    r is Reconnected
                } else {
                    r is RestoreSaved
                },
            },
    {
        self.connecting = false;
        self.has_player = true;
        self.player_connected = true;
        let restoring = self.connect_restoring;
        self.connect_restoring = false;
        match self.pending_play.take() {
            Some((tracks, index)) => Connected::PlayHeld(tracks, index),
            None => if restoring {
                Connected::Reconnected
            } else {
                Connected::RestoreSaved
            },
        }
    }

    /// A connection attempt failed: the held play fails with it.
    pub fn connect_failed(&mut self, error: &str) -> (events: Vec<BackendEvent>)
        ensures
            !final(self).connecting,
            !final(self).connect_restoring,
            final(self).pending_play is None,
            *final(self) == (Connection { connecting: false, connect_restoring: false, pending_play: None, ..*old(self) }),
            held_play_failed(old(self).pending_play, error@, events@),
    {
        self.connecting = false;
        self.connect_restoring = false;
        let pending = self.pending_play.take();
        crate::worker::held_play_failure(pending, error)
    }

    /// A reconnection attempt succeeded: the session is back.
    pub fn reconnected(&mut self)
        ensures
            final(self).has_player && final(self).player_connected,
            !final(self).reconnecting,
            !final(self).reconnect_pending,
            final(self).pending_play == old(self).pending_play,
            *final(self) == (Connection {
                reconnecting: false,
                has_player: true,
                player_connected: true,
                reconnect_pending: false,
                ..*old(self)
            }),
    {
        self.reconnecting = false;
        self.has_player = true;
        self.player_connected = true;
        self.reconnect_pending = false;
    }

    /// A reconnection attempt failed: a held play fails, and the next check
    /// tries again since the session is still marked dropped.
    pub fn reconnect_failed(&mut self, error: &str) -> (events: Vec<BackendEvent>)
        ensures
            !final(self).reconnecting,
            final(self).reconnect_pending == old(self).reconnect_pending,
            final(self).pending_play is None,
            *final(self) == (Connection { reconnecting: false, pending_play: None, ..*old(self) }),
            held_play_failed(old(self).pending_play, error@, events@),
    {
        self.reconnecting = false;
        let pending = self.pending_play.take();
        crate::worker::held_play_failure(pending, error)
    }
}

} // verus!
