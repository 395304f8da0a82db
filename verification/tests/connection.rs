use cadence::connection::{Connected, Connection};
use cadence::events::{BackendEvent, ClientIdSource};
use cadence::model::{Provider, Track};
use cadence::events::{command_lane, Command, CommandLane};
use cadence::worker::{configuration_request, reset_request, RadioRequest};

fn favorite() -> Track {
    Track {
        provider: Provider::Spotify,
        source_id: "track-id".to_owned(),
        spotify_uri: Some("spotify:track:track-id".to_owned()),
        isrc: None,
        title: "Track".to_owned(),
        artist: "Artist".to_owned(),
        artists: Vec::new(),
        album: "Album".to_owned(),
        album_ref: None,
        duration_ms: 180_000,
        artwork_url: None,
    }
}

#[test]
fn play_is_held_only_while_the_session_is_connecting() {
    let mut connection = Connection::new();
    assert!(!connection.is_connecting());

    connection.begin_connect();
    assert!(connection.is_connecting());
    connection.hold_play(vec![favorite()], 0);
    assert!(connection.pending_play.is_some());

    let events = connection.connect_failed("no network");
    assert!(connection.pending_play.is_none());
    assert!(matches!(
        &events[0],
        BackendEvent::TrackFailed { spotify_uri, .. } if spotify_uri == "spotify:track:track-id"
    ));
    assert!(matches!(events[1], BackendEvent::PlaybackSettled));
}

#[test]
fn the_first_connection_starts_the_held_play() {
    let mut connection = Connection::new();
    connection.begin_connect();
    connection.hold_play(vec![favorite()], 0);
    assert!(matches!(connection.connected(), Connected::PlayHeld(tracks, 0) if tracks.len() == 1));
    assert!(!connection.is_connecting());
}

#[test]
fn a_fresh_connection_restores_the_saved_playback() {
    let mut connection = Connection::new();
    connection.begin_connect();
    assert!(matches!(connection.connected(), Connected::RestoreSaved));
}

#[test]
fn a_dropped_session_is_replaced_once() {
    let mut connection = Connection::new();
    connection.begin_connect();
    connection.connected();
    assert!(!connection.reconnect_if_dead());

    connection.player_connected = false;
    assert!(connection.reconnect_if_dead());
    assert!(connection.is_connecting());
    assert!(!connection.reconnect_if_dead());

    assert!(connection.reconnect_failed("timed out").is_empty());
    assert!(connection.reconnect_if_dead());
    connection.reconnected();
    assert!(!connection.reconnect_pending);
    assert!(!connection.reconnect_if_dead());
}

#[test]
fn a_connection_made_while_a_session_was_dropped_restores_nothing_over_it() {
    let mut connection = Connection::new();
    connection.begin_connect();
    connection.connected();
    connection.player_connected = false;
    connection.reconnect_if_dead();
    connection.begin_connect();
    assert!(connection.connect_restoring);
    assert!(matches!(connection.connected(), Connected::Reconnected));
}

#[test]
fn configuration_requests_respect_the_configuration_in_place() {
    assert_eq!(
        configuration_request(Some(ClientIdSource::Environment), "0123456789abcdef0123456789abcdef"),
        Err("SPOTIFY_CLIENT_ID is configured by the environment and cannot be changed in Cadence".to_owned())
    );
    assert_eq!(
        configuration_request(Some(ClientIdSource::Saved), "0123456789abcdef0123456789abcdef"),
        Err("Remove the current Spotify configuration before replacing it.".to_owned())
    );
    assert_eq!(
        configuration_request(None, "nope"),
        Err("Spotify Client ID must contain 32 hexadecimal characters".to_owned())
    );
    assert_eq!(
        configuration_request(None, " 0123456789abcdef0123456789abcdef\n"),
        Ok("0123456789abcdef0123456789abcdef".to_owned())
    );
    assert!(reset_request(Some(ClientIdSource::Environment)).is_err());
    assert!(reset_request(Some(ClientIdSource::Saved)).is_ok());
    assert!(reset_request(None).is_ok());
}

#[test]
fn sign_in_and_sign_out_travel_apart_from_playback() {
    assert_eq!(command_lane(&Command::Authenticate { generation: 1 }), CommandLane::Control);
    assert_eq!(command_lane(&Command::Logout { generation: 1 }), CommandLane::Control);
    assert_eq!(command_lane(&Command::Next), CommandLane::Queue);
    assert_eq!(command_lane(&Command::Seek(10)), CommandLane::Queue);
}

#[test]
fn a_new_radio_gives_up_the_one_before_it() {
    let mut radio = RadioRequest::new();
    assert!(radio.start(1).is_none());
    assert!(matches!(radio.start(2), Some(BackendEvent::RadioCancelled { request_id: 1 })));
    assert!(matches!(radio.cancel(), Some(BackendEvent::RadioCancelled { request_id: 2 })));
    assert!(radio.cancel().is_none());
    radio.start(3);
    radio.finished();
    assert!(radio.cancel().is_none());
}
