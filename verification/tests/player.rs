use cadence::events::{BackendEvent, Command};
use cadence::model::{Provider, Track};
use cadence::player::{Player, Transport};

fn track(index: usize) -> Track {
    Track {
        provider: Provider::Spotify,
        source_id: format!("track-{index}"),
        spotify_uri: Some(format!("spotify:track:track-{index}")),
        isrc: None,
        title: format!("Song {}", index + 1),
        artist: "Cadence Ensemble".into(),
        artists: Vec::new(),
        album: "An afternoon in September".into(),
        album_ref: None,
        duration_ms: 240_000,
        artwork_url: None,
    }
}

/// The player as the app hands it to a window: a snapshot restored from the
/// last launch, paused one minute into the first track.
struct Fixture {
    player: Player,
    commands: Vec<Command>,
}

impl Fixture {
    fn new() -> Self {
        let mut fixture = Fixture { player: Player::new(), commands: Vec::new() };
        fixture.player_event(BackendEvent::PlaybackSnapshotLoaded {
            current: track(0),
            next: vec![track(1), track(2)],
            position_ms: 60_000,
        });
        fixture
    }

    fn player_event(&mut self, event: BackendEvent) {
        let step = self.player.handle_backend_event(event);
        self.commands.extend(step.commands);
    }

    fn queued_source_ids(&self) -> Vec<String> {
        self.player.queue().iter().map(|track| track.source_id.clone()).collect()
    }

    fn next_command(&mut self) -> Option<Command> {
        if self.commands.is_empty() {
            None
        } else {
            Some(self.commands.remove(0))
        }
    }

    fn marked_played(&mut self) -> String {
        match self.next_command().expect("history request") {
            Command::MarkPlayed(track) => track.source_id,
            other => panic!("expected a history request, got {other:?}"),
        }
    }

    fn no_commands(&mut self) {
        assert!(self.commands.is_empty(), "unexpected commands: {:?}", self.commands);
    }
}

#[test]
fn unavailable_live_track_keeps_the_queue_and_skips_ahead() {
    let mut fixture = Fixture::new();
    fixture.player_event(BackendEvent::Playing { spotify_uri: "spotify:track:track-0".into() });
    assert_eq!(fixture.marked_played(), "track-0");
    fixture.player_event(BackendEvent::TrackFailed {
        spotify_uri: "spotify:track:track-0".into(),
        error: "Spotify cannot play this track".into(),
    });
    assert_eq!(fixture.player.now_playing().map(|track| track.source_id.as_str()), Some("track-0"));
    assert!(!fixture.player.playing());
    assert_eq!(fixture.queued_source_ids(), ["track-1", "track-2"]);
    assert!(matches!(fixture.next_command(), Some(Command::Next)));
    fixture.no_commands();
}

#[test]
fn stale_track_failure_does_not_skip_ahead() {
    let mut fixture = Fixture::new();
    fixture.player_event(BackendEvent::TrackFailed {
        spotify_uri: "spotify:track:track-9".into(),
        error: "Spotify cannot play this track".into(),
    });
    assert_eq!(fixture.queued_source_ids(), ["track-1", "track-2"]);
    fixture.no_commands();
}

#[test]
fn track_failure_during_reconnect_does_not_skip_ahead() {
    let mut fixture = Fixture::new();
    fixture.player_event(BackendEvent::PlaybackReconnecting);
    fixture.player_event(BackendEvent::TrackFailed {
        spotify_uri: "spotify:track:track-0".into(),
        error: "Spotify cannot play this track".into(),
    });
    assert_eq!(fixture.queued_source_ids(), ["track-1", "track-2"]);
    fixture.no_commands();
}

#[test]
fn history_is_recorded_once_the_track_plays_and_only_once() {
    let mut fixture = Fixture::new();
    fixture.player_event(BackendEvent::PlaybackContext { current: track(3), next: vec![track(4)] });
    fixture.no_commands();
    fixture.player_event(BackendEvent::Playing { spotify_uri: "spotify:track:track-3".into() });
    assert_eq!(fixture.marked_played(), "track-3");
    fixture.player_event(BackendEvent::Playing { spotify_uri: "spotify:track:track-3".into() });
    fixture.no_commands();
}

#[test]
fn a_track_that_fails_to_play_is_not_recorded() {
    let mut fixture = Fixture::new();
    fixture.player_event(BackendEvent::PlaybackContext { current: track(3), next: vec![track(4)] });
    fixture.player_event(BackendEvent::TrackFailed {
        spotify_uri: "spotify:track:track-3".into(),
        error: "Spotify cannot play this track".into(),
    });
    assert!(matches!(fixture.next_command(), Some(Command::Next)));
    fixture.no_commands();
}

#[test]
fn a_track_resumed_after_restart_is_recorded_when_it_plays() {
    let mut fixture = Fixture::new();
    fixture.player_event(BackendEvent::Playing { spotify_uri: "spotify:track:track-0".into() });
    assert_eq!(fixture.marked_played(), "track-0");
    fixture.no_commands();
}

#[test]
fn a_reconnect_mid_track_records_history_once() {
    let mut fixture = Fixture::new();
    fixture.player_event(BackendEvent::PlaybackContext { current: track(3), next: vec![track(4)] });
    fixture.player_event(BackendEvent::PlaybackReconnecting);
    fixture.player_event(BackendEvent::Playing { spotify_uri: "spotify:track:track-3".into() });
    fixture.no_commands();
    fixture.player_event(BackendEvent::PlaybackReconnected);
    assert!(matches!(fixture.next_command(), Some(Command::RestorePlayback { .. })));
    fixture.player_event(BackendEvent::PlaybackRestored { position_ms: 0, playing: true });
    fixture.player_event(BackendEvent::Playing { spotify_uri: "spotify:track:track-3".into() });
    assert_eq!(fixture.marked_played(), "track-3");
    fixture.player_event(BackendEvent::Playing { spotify_uri: "spotify:track:track-3".into() });
    fixture.no_commands();
}

#[test]
fn the_restored_snapshot_shows_its_position_paused() {
    let fixture = Fixture::new();
    assert_eq!(fixture.player.position_ms(), 60_000);
    assert!(!fixture.player.playing());
    assert_eq!(fixture.player.context().len(), 3);
}

#[test]
fn a_position_far_from_the_saved_one_is_written_back() {
    let mut fixture = Fixture::new();
    fixture.player_event(BackendEvent::PositionChanged {
        spotify_uri: "spotify:track:track-0".into(),
        position_ms: 62_000,
    });
    fixture.no_commands();
    fixture.player_event(BackendEvent::PositionChanged {
        spotify_uri: "spotify:track:track-0".into(),
        position_ms: 65_000,
    });
    match fixture.next_command() {
        Some(Command::SavePlaybackPosition { spotify_uri, position_ms }) => {
            assert_eq!(spotify_uri, "spotify:track:track-0");
            assert_eq!(position_ms, 65_000);
        }
        other => panic!("expected a position save, got {other:?}"),
    }
    fixture.no_commands();
}

#[test]
fn the_end_of_the_live_track_moves_to_the_next() {
    let mut fixture = Fixture::new();
    fixture.player_event(BackendEvent::EndOfTrack { spotify_uri: "spotify:track:track-0".into() });
    assert!(matches!(fixture.next_command(), Some(Command::Next)));
    fixture.no_commands();
}

#[test]
fn toggling_a_paused_player_asks_to_resume() {
    let fixture = Fixture::new();
    assert!(matches!(fixture.player.transport_command(Transport::Toggle), Some(Command::Resume)));
    assert!(matches!(fixture.player.transport_command(Transport::Pause), None));
}

#[test]
fn transport_is_held_back_while_a_restore_is_in_flight() {
    let mut fixture = Fixture::new();
    fixture.player_event(BackendEvent::PlaybackReconnecting);
    assert!(fixture.player.transport_command(Transport::Next).is_none());
    assert!(fixture.player.loading());
}

#[test]
fn a_failed_playback_is_shown_until_the_player_is_ready_again() {
    let mut fixture = Fixture::new();
    let step = fixture.player.handle_backend_event(BackendEvent::PlaybackFailed("lost".into()));
    assert!(step.unhandled.is_none());
    assert_eq!(fixture.player.error().map(String::as_str), Some("lost"));
    let step = fixture.player.handle_backend_event(BackendEvent::PlaybackReady);
    assert!(step.resend_volume);
    assert!(fixture.player.error().is_none());
}

#[test]
fn player_hands_back_events_for_other_parts_of_the_app() {
    let mut player = Player::new();
    let step = player.handle_backend_event(BackendEvent::LoggedOut);
    assert!(matches!(step.unhandled, Some(BackendEvent::LoggedOut)));
    assert!(step.commands.is_empty());
}

#[test]
fn clearing_forgets_the_track_and_the_queue() {
    let mut fixture = Fixture::new();
    fixture.player.clear();
    assert!(fixture.player.now_playing().is_none());
    assert!(fixture.player.queue().is_empty());
    assert_eq!(fixture.player.position_ms(), 0);
}
