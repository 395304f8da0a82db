//! What the backend worker reports, and what the foreground asks of it.

use vstd::prelude::*;

use crate::model::{track_views, Playlist, Track, TrackView, UserProfile};

verus! {

/// Where the Spotify client id in use came from.
#[derive(Clone, Copy, Debug, PartialEq, Eq, Structural)]
pub enum ClientIdSource {
    Environment,
    Saved,
}

/// A library reload's answer: fresh contents, or proof nothing changed for
/// the price of the two head requests.
#[derive(Debug)]
pub enum LibraryReload {
    Unchanged,
    Fresh((Vec<Track>, Vec<Playlist>)),
}

/// Everything the backend worker reports to the foreground.
#[derive(Debug)]
pub enum BackendEvent {
    SetupRequired,
    SpotifyConfigured { generation: u64, client_id: String, source: ClientIdSource },
    SpotifyConfigurationFailed { generation: u64, error: String },
    SpotifyConfigurationResetFailed(String),
    AuthorizationRequired,
    LoggedOut,
    CatalogReady { generation: u64 },
    PlaybackReady,
    PlaybackReconnecting,
    PlaybackReconnected,
    PlaybackRestored { position_ms: u32, playing: bool },
    PlaybackSettled,
    QueueEnded,
    LibraryLoaded { generation: u64, liked_tracks: Vec<Track>, playlists: Vec<Playlist> },
    ProfileLoaded { generation: u64, profile: UserProfile },
    /// The library as the last launch left it, served before Spotify answers.
    CachedLibrary { generation: u64, liked_tracks: Vec<Track>, playlists: Vec<Playlist> },
    /// The boot revalidation matched the cached library; nothing to replace.
    LibraryUnchanged { generation: u64 },
    LocalStateLoaded {
        favorites: Vec<Track>,
        pinned_playlists: Vec<Playlist>,
        recently_played: Vec<Track>,
    },
    Playing { spotify_uri: String },
    Loading { spotify_uri: String },
    Paused { spotify_uri: String },
    EndOfTrack { spotify_uri: String },
    PositionChanged { spotify_uri: String, position_ms: u32 },
    PlaybackContext { current: Track, next: Vec<Track> },
    PlaybackSnapshotLoaded { current: Track, next: Vec<Track>, position_ms: u32 },
    AuthorizationFailed(String),
    CatalogFailed { generation: u64, error: String },
    PlaybackFailed(String),
    TrackFailed { spotify_uri: String, error: String },
    RadioFailed { request_id: u64, error: String },
    RadioStarted { request_id: u64 },
    RadioCancelled { request_id: u64 },
    FatalError(String),
    Error(String),
}

/// A request the foreground's state machines hand to the backend worker.
/// Catalog loads, which carry a reply channel, and volume changes are sent by
/// the application around them.
#[derive(Debug)]
pub enum Command {
    Authenticate { generation: u64 },
    Logout { generation: u64 },
    ConfigureSpotify { generation: u64, client_id: String },
    ResetSpotifyConfiguration { generation: u64 },
    StartRadio { request_id: u64, seed: Track },
    PlayContext { tracks: Vec<Track>, index: usize },
    PlayNext(Track),
    AppendToQueue(Track),
    RestorePlayback { position_ms: u32, playing: bool },
    SetFavorite { track: Track, favorite: bool },
    SetPlaylistPinned { playlist: Playlist, pinned: bool },
    MarkPlayed(Track),
    Resume,
    Pause,
    Next,
    Previous,
    Seek(u32),
    SavePlaybackPosition { spotify_uri: String, position_ms: u32 },
}

/// A command as the contracts see it: tracks by their views and strings by
/// their text.
pub enum CommandView {
    Authenticate { generation: u64 },
    Logout { generation: u64 },
    ConfigureSpotify { generation: u64, client_id: Seq<char> },
    ResetSpotifyConfiguration { generation: u64 },
    StartRadio { request_id: u64, seed: TrackView },
    PlayContext { tracks: Seq<TrackView>, index: usize },
    PlayNext(TrackView),
    AppendToQueue(TrackView),
    RestorePlayback { position_ms: u32, playing: bool },
    SetFavorite { track: TrackView, favorite: bool },
    SetPlaylistPinned { playlist: Playlist, pinned: bool },
    MarkPlayed(TrackView),
    Resume,
    Pause,
    Next,
    Previous,
    Seek(u32),
    SavePlaybackPosition { spotify_uri: Seq<char>, position_ms: u32 },
}

impl View for Command {
    type V = CommandView;

    open spec fn view(&self) -> CommandView {
        match *self {
            Command::Authenticate { generation } => CommandView::Authenticate { generation },
            Command::Logout { generation } => CommandView::Logout { generation },
            Command::ConfigureSpotify { generation, client_id } => CommandView::ConfigureSpotify {
                generation,
                client_id: client_id@,
            },
            Command::ResetSpotifyConfiguration { generation } => CommandView::ResetSpotifyConfiguration {
                generation,
            },
            Command::StartRadio { request_id, seed } => CommandView::StartRadio {
                request_id,
                seed: seed@,
            },
            Command::PlayContext { tracks, index } => CommandView::PlayContext {
                tracks: track_views(tracks@),
                index,
            },
            Command::PlayNext(track) => CommandView::PlayNext(track@),
            Command::AppendToQueue(track) => CommandView::AppendToQueue(track@),
            Command::RestorePlayback { position_ms, playing } => CommandView::RestorePlayback {
                position_ms,
                playing,
            },
            Command::SetFavorite { track, favorite } => CommandView::SetFavorite {
                track: track@,
                favorite,
            },
            Command::SetPlaylistPinned { playlist, pinned } => CommandView::SetPlaylistPinned {
                playlist,
                pinned,
            },
            Command::MarkPlayed(track) => CommandView::MarkPlayed(track@),
            Command::Resume => CommandView::Resume,
            Command::Pause => CommandView::Pause,
            Command::Next => CommandView::Next,
            Command::Previous => CommandView::Previous,
            Command::Seek(position_ms) => CommandView::Seek(position_ms),
            Command::SavePlaybackPosition { spotify_uri, position_ms } => CommandView::SavePlaybackPosition {
                spotify_uri: spotify_uri@,
                position_ms,
            },
        }
    }
}

/// The views of a sequence of commands.
pub open spec fn command_views(commands: Seq<Command>) -> Seq<CommandView> {
    commands.map_values(|command: Command| command@)
}

/// The next id in a wrapping sequence of request ids and generations.
pub fn next_request_id(request_id: &mut u64) -> (r: u64)
    ensures
        r == (if *old(request_id) == u64::MAX { 0 } else { *old(request_id) + 1 }),
        *final(request_id) == r,
{
    *request_id = request_id.wrapping_add(1);
    *request_id
}

/// Which channel a command travels on to the worker: sign-in and sign-out on
/// a lane of their own, so a backlog of playback commands cannot hold them up.
#[derive(Clone, Copy, Debug, PartialEq, Eq, Structural)]
pub enum CommandLane {
    Control,
    Queue,
}

pub fn command_lane(command: &Command) -> (r: CommandLane)
    ensures
        r == if command is Authenticate || command is Logout {
            CommandLane::Control
        } else {
            CommandLane::Queue
        },
{
    match command {
        Command::Authenticate { .. } | Command::Logout { .. } => CommandLane::Control,
        _ => CommandLane::Queue,
    }
}

} // verus!
