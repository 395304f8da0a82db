use cadence::media::{publications_match, transport_for, MediaPublisher, MediaPush, Published, SystemCommand};
use cadence::model::Provider;
use cadence::player::Transport;

fn published(source_id: &str, playing: bool, position_seconds: u64) -> Published {
    Published { track: Some((Provider::Spotify, source_id.to_owned())), playing, position_seconds }
}

#[test]
fn system_commands_map_to_transport_actions() {
    assert_eq!(transport_for(SystemCommand::Play), Some(Transport::Play));
    assert_eq!(transport_for(SystemCommand::Pause), Some(Transport::Pause));
    assert_eq!(transport_for(SystemCommand::Stop), Some(Transport::Pause));
    assert_eq!(transport_for(SystemCommand::Toggle), Some(Transport::Toggle));
    assert_eq!(transport_for(SystemCommand::Next), Some(Transport::Next));
    assert_eq!(transport_for(SystemCommand::Previous), Some(Transport::Previous));
}

#[test]
fn seek_position_is_converted_to_milliseconds() {
    assert_eq!(transport_for(SystemCommand::SetPosition(4_500)), Some(Transport::Seek(4_500)));
}

#[test]
fn seek_position_is_clamped_rather_than_wrapping() {
    assert_eq!(
        transport_for(SystemCommand::SetPosition(u128::from(u32::MAX) * 1_000)),
        Some(Transport::Seek(u32::MAX))
    );
}

#[test]
fn commands_cadence_does_not_offer_are_ignored() {
    assert_eq!(transport_for(SystemCommand::Other), None);
}

#[test]
fn a_position_tick_within_the_same_second_is_not_republished() {
    assert_eq!(published("track", true, 12), published("track", true, 12));
    assert!(publications_match(&published("track", true, 12), &published("track", true, 12)));
}

#[test]
fn crossing_a_second_or_pausing_is_republished() {
    assert_ne!(published("track", true, 12), published("track", true, 13));
    assert_ne!(published("track", true, 12), published("track", false, 12));
    assert_ne!(published("track", true, 12), published("other", true, 12));
    assert!(!publications_match(&published("track", true, 12), &published("other", true, 12)));
}

#[test]
fn the_publisher_sends_metadata_only_when_the_track_changes() {
    let mut publisher = MediaPublisher::new();
    let track = || Some((Provider::Spotify, "track-0".to_owned()));

    assert_eq!(
        publisher.sync(track(), true, 12_300),
        MediaPush::Playback { metadata: true, playing: true, position_ms: 12_300 }
    );
    assert_eq!(publisher.sync(track(), true, 12_900), MediaPush::Nothing);
    assert_eq!(
        publisher.sync(track(), true, 13_000),
        MediaPush::Playback { metadata: false, playing: true, position_ms: 13_000 }
    );
    assert_eq!(
        publisher.sync(Some((Provider::Spotify, "track-1".to_owned())), false, 0),
        MediaPush::Playback { metadata: true, playing: false, position_ms: 0 }
    );
    assert_eq!(publisher.sync(None, false, 0), MediaPush::Stopped);
    assert_eq!(publisher.sync(None, false, 0), MediaPush::Nothing);
}
