//! Cadence: the playback, session, navigation and library logic of a small
//! Spotify player, with its contracts proved by Verus.

pub mod audio;
pub mod catalog;
pub mod connection;
pub mod display;
pub mod events;
pub mod icons;
pub mod image_cache;
pub mod library;
pub mod lifecycle;
pub mod mascot;
pub mod media;
pub mod model;
pub mod playback_clock;
pub mod onboarding;
pub mod player;
pub mod player_bar;
pub mod queue;
pub mod radio;
pub mod router;
pub mod scrubber;
pub mod services;
pub mod session;
pub mod text;
pub mod track_list;
pub mod windows;
pub mod worker;
pub mod workspace;
