//! Decisions the backend worker makes between its calls to Spotify and the
//! store: which favorites to refresh, what a held play reports when the
//! connection it waited on fails, and how a logout's cleanup is summed up.

use vstd::prelude::*;

use crate::events::{BackendEvent, ClientIdSource, Command};
use crate::model::{opt_text, Provider, Track, TrackView};

verus! {

/// Whether some credited artist has a catalog id.
pub open spec fn has_artist_id(track: TrackView) -> bool {
    exists|i: int| 0 <= i < track.artists.len() && (#[trigger] track.artists[i]).source_id is Some
}

/// A Spotify favorite saved before artist and album links were kept lacks
/// them, and is looked up in the catalog again.
pub open spec fn needs_catalog_refresh(track: TrackView) -> bool {
    &&& track.provider == Provider::Spotify
    &&& (!has_artist_id(track) || match track.album_ref {
        Some(album) => album.source_id is None,
        None => true,
    })
}

pub fn favorite_needs_catalog_refresh(track: &Track) -> (r: bool)
    ensures
        r == needs_catalog_refresh(track@),
{
    if track.provider != Provider::Spotify {
        return false;
    }
    let mut linked = false;
    let mut i: usize = 0;
    while i < track.artists.len()
        invariant
            i <= track.artists@.len(),
            linked == exists|k: int| 0 <= k < i && (#[trigger] track.artists@[k]).source_id is Some,
        decreases track.artists.len() - i,
    {
        if track.artists[i].source_id.is_some() {
            linked = true;
        }
        i = i + 1;
    }
    let album_linked = match &track.album_ref {
        Some(album) => album.source_id.is_some(),
        None => false,
    };
    !linked || !album_linked
}

/// The catalog uri to look a favorite up by: its own, or one built from its id.
pub open spec fn refresh_uri(track: TrackView) -> Seq<char> {
    match track.spotify_uri {
        Some(uri) => uri@,
        None => "spotify:track:"@ + track.source_id@,
    }
}

/// The uris of the favorites that need a catalog refresh, in order.
pub open spec fn refresh_uris(favorites: Seq<TrackView>) -> Seq<Seq<char>>
    decreases favorites.len(),
{
    if favorites.len() == 0 {
        Seq::empty()
    } else {
        let rest = refresh_uris(favorites.drop_last());
        if needs_catalog_refresh(favorites.last()) {
            rest.push(refresh_uri(favorites.last()))
        } else {
            rest
        }
    }
}

pub fn favorite_refresh_uris(favorites: &Vec<Track>) -> (r: Vec<String>)
    ensures
        r@.map_values(|uri: String| uri@) == refresh_uris(crate::model::track_views(favorites@)),
{
    let ghost views = crate::model::track_views(favorites@);
    let mut uris: Vec<String> = Vec::new();
    let mut i: usize = 0;
    while i < favorites.len()
        invariant
            i <= favorites@.len(),
            views == crate::model::track_views(favorites@),
            uris@.map_values(|uri: String| uri@) == refresh_uris(views.take(i as int)),
        decreases favorites.len() - i,
    {
        let track = &favorites[i];
        assert(views.take(i + 1).drop_last() =~= views.take(i as int));
        assert(views.take(i + 1).last() == track@);
        if favorite_needs_catalog_refresh(track) {
            let uri = match &track.spotify_uri {
                Some(uri) => uri.clone(),
                None => {
                    let mut uri = String::from_str("spotify:track:");
                    uri.append(track.source_id.as_str());
                    uri
                },
            };
            uris.push(uri);
            assert(uris@.map_values(|uri: String| uri@) =~= refresh_uris(views.take(i as int)).push(
                refresh_uri(track@),
            ));
        }
        i = i + 1;
    }
    assert(views.take(favorites.len() as int) =~= views);
    uris
}

pub open spec fn not_connected_message(error: Seq<char>) -> Seq<char> {
    "Spotify playback is not connected: "@ + error
}

/// What a play held for a connection reports once that connection failed:
/// the track it asked for failed, and playback settled. No held play, no report.
pub fn held_play_failure(pending: Option<(Vec<Track>, usize)>, error: &str) -> (r: Vec<BackendEvent>)
    ensures
        pending is None ==> r@.len() == 0,
        pending matches Some((tracks, index)) ==> {
            &&& r@.len() == 2
            &&& r@[0] matches BackendEvent::TrackFailed { spotify_uri, error: message } && {
                &&& spotify_uri@ == (if index < tracks@.len() {
                    match opt_text(tracks@[index as int].spotify_uri) {
                        Some(uri) => uri,
                        None => Seq::empty(),
                    }
                } else {
                    Seq::empty()
                })
                &&& message@ == not_connected_message(error@)
            }
            &&& r@[1] is PlaybackSettled
        },
{
    let mut events: Vec<BackendEvent> = Vec::new();
    match pending {
        None => events,
        Some((tracks, index)) => {
            let spotify_uri = if index < tracks.len() {
                match &tracks[index].spotify_uri {
                    Some(uri) => uri.clone(),
                    None => String::new(),
                }
            } else {
                String::new()
            };
            let mut message = String::from_str("Spotify playback is not connected: ");
            message.append(error);
            events.push(BackendEvent::TrackFailed { spotify_uri, error: message });
            events.push(BackendEvent::PlaybackSettled);
            events
        },
    }
}

/// The errors joined by `"; "`.
pub open spec fn joined(errors: Seq<Seq<char>>) -> Seq<char>
    decreases errors.len(),
{
    if errors.len() == 0 {
        Seq::empty()
    } else if errors.len() == 1 {
        errors[0]
    } else {
        joined(errors.drop_last()) + "; "@ + errors.last()
    }
}

/// A logout runs every cleanup step and reports the ones that failed together.
pub fn logout_outcome(errors: Vec<String>) -> (r: Result<(), String>)
    ensures
        errors@.len() == 0 ==> r is Ok,
        errors@.len() > 0 ==> (r matches Err(message) && message@ == "logout cleanup failed: "@ + joined(
            errors@.map_values(|e: String| e@),
        )),
{
    if errors.len() == 0 {
        return Ok(());
    }
    let ghost texts = errors@.map_values(|e: String| e@);
    let mut message = String::from_str("logout cleanup failed: ");
    let mut i: usize = 0;
    while i < errors.len()
        invariant
            i <= errors@.len(),
            texts == errors@.map_values(|e: String| e@),
            message@ == "logout cleanup failed: "@ + joined(texts.take(i as int)),
        decreases errors.len() - i,
    {
        assert(texts.take(i + 1).drop_last() =~= texts.take(i as int));
        if i > 0 {
            message.append("; ");
        }
        message.append(errors[i].as_str());
        proof {
            if i == 0 {
                assert(texts.take(1)[0] == errors@[0]@);
                assert(joined(texts.take(0)) =~= Seq::<char>::empty());
            }
        }
        assert(message@ =~= "logout cleanup failed: "@ + joined(texts.take(i + 1)));
        i = i + 1;
    }
    assert(texts.take(errors.len() as int) =~= texts);
    Err(message)
}

/// What startup does with the configured client id.
#[derive(Debug)]
pub enum StartupConfiguration {
    /// No client id anywhere: setup is required.
    Unconfigured,
    /// A valid client id to build the Spotify client from.
    Use { client_id: String, source: ClientIdSource },
    /// The environment names an invalid id, which Cadence cannot change:
    /// report it, and wait for shutdown.
    RejectEnvironment(Vec<BackendEvent>),
    /// A saved id is invalid: forget it, and ask for setup.
    ForgetSaved,
}

pub open spec fn environment_id_message() -> Seq<char> {
    "SPOTIFY_CLIENT_ID must contain 32 hexadecimal characters"@
}

/// Checks the client id startup found, by where it came from.
pub fn check_startup_configuration(configuration: Option<(String, ClientIdSource)>) -> (r: StartupConfiguration)
    ensures
        match configuration {
            None => r is Unconfigured,
            Some((client_id, source)) => if crate::text::is_client_id(client_id@) {
                r == StartupConfiguration::Use { client_id, source }
            } else if source == ClientIdSource::Environment {
                r matches StartupConfiguration::RejectEnvironment(events) && {
                    &&& events@.len() == 2
                    &&& events@[0] matches BackendEvent::SpotifyConfigured { generation, client_id: id, source: from }
                        && generation == 0 && id == client_id && from == ClientIdSource::Environment
                    &&& events@[1] matches BackendEvent::SpotifyConfigurationFailed { generation, error }
                        && generation == 0 && error@ == environment_id_message()
                }
            } else {
                r is ForgetSaved
            },
        },
{
    match configuration {
        None => StartupConfiguration::Unconfigured,
        Some((client_id, source)) => {
            if crate::text::valid_client_id(client_id.as_str()) {
                StartupConfiguration::Use { client_id, source }
            } else if source == ClientIdSource::Environment {
                let mut events: Vec<BackendEvent> = Vec::new();
                events.push(BackendEvent::SpotifyConfigured { generation: 0, client_id, source: ClientIdSource::Environment });
                events.push(
                    BackendEvent::SpotifyConfigurationFailed {
                        generation: 0,
                        error: String::from_str("SPOTIFY_CLIENT_ID must contain 32 hexadecimal characters"),
                    },
                );
                StartupConfiguration::RejectEnvironment(events)
            } else {
                StartupConfiguration::ForgetSaved
            }
        },
    }
}

pub open spec fn environment_locked_message() -> Seq<char> {
    "SPOTIFY_CLIENT_ID is configured by the environment and cannot be changed in Cadence"@
}

pub open spec fn already_configured_message() -> Seq<char> {
    "Remove the current Spotify configuration before replacing it."@
}

pub open spec fn invalid_client_id_message() -> Seq<char> {
    "Spotify Client ID must contain 32 hexadecimal characters"@
}

/// Checks a request to configure `client_id` against the configuration in
/// place: one from the environment cannot be changed, a saved one must be
/// removed first, and the id must be valid. Hands back the trimmed id.
pub fn configuration_request(current: Option<ClientIdSource>, client_id: &str) -> (r: Result<String, String>)
    ensures
        current == Some(ClientIdSource::Environment) ==> (r matches Err(error) && error@
            == environment_locked_message()),
        current == Some(ClientIdSource::Saved) ==> (r matches Err(error) && error@ == already_configured_message()),
        current is None && !crate::text::is_client_id(client_id@) ==> (r matches Err(error) && error@
            == invalid_client_id_message()),
        current is None && crate::text::is_client_id(client_id@) ==> (r matches Ok(id) && crate::text::trims(
            client_id@,
            id@,
        )),
{
    match current {
        Some(ClientIdSource::Environment) => Err(
            String::from_str("SPOTIFY_CLIENT_ID is configured by the environment and cannot be changed in Cadence"),
        ),
        Some(ClientIdSource::Saved) => Err(String::from_str("Remove the current Spotify configuration before replacing it.")),
        None => {
            if !crate::text::valid_client_id(client_id) {
                return Err(String::from_str("Spotify Client ID must contain 32 hexadecimal characters"));
            }
            Ok(crate::text::trim(client_id))
        },
    }
}

/// Checks a request to forget the configuration: one from the environment
/// cannot be reset from Cadence.
pub fn reset_request(current: Option<ClientIdSource>) -> (r: Result<(), String>)
    ensures
        current == Some(ClientIdSource::Environment) ==> (r matches Err(error) && error@
            == environment_locked_message()),
        current != Some(ClientIdSource::Environment) ==> r is Ok,
{
    if current == Some(ClientIdSource::Environment) {
        Err(String::from_str("SPOTIFY_CLIENT_ID is configured by the environment and cannot be changed in Cadence"))
    } else {
        Ok(())
    }
}

/// The track radio being built, at most one at a time.
pub struct RadioRequest {
    pub request_id: Option<u64>,
}

impl RadioRequest {
    pub fn new() -> (r: RadioRequest)
        ensures
            r.request_id is None,
    {
        RadioRequest { request_id: None }
    }

    /// Gives up the radio being built, telling the foreground when there was one.
    pub fn cancel(&mut self) -> (r: Option<BackendEvent>)
        ensures
            final(self).request_id is None,
            match old(self).request_id {
                Some(request_id) => r matches Some(BackendEvent::RadioCancelled { request_id: id }) && id == request_id,
                None => r is None,
            },
    {
        match self.request_id.take() {
            Some(request_id) => Some(BackendEvent::RadioCancelled { request_id }),
            None => None,
        }
    }

    /// Starts building radio `request_id`, giving up the one before it.
    pub fn start(&mut self, request_id: u64) -> (r: Option<BackendEvent>)
        ensures
            final(self).request_id == Some(request_id),
            match old(self).request_id {
                Some(previous) => r matches Some(BackendEvent::RadioCancelled { request_id: id }) && id == previous,
                None => r is None,
            },
    {
        let cancelled = self.cancel();
        self.request_id = Some(request_id);
        cancelled
    }

    /// The radio was built or failed; nothing is left to cancel.
    pub fn finished(&mut self)
        ensures
            final(self).request_id is None,
    {
        self.request_id = None;
    }
}


/// Where the Spotify setup stands while the backend starts: the client id
/// the client is built from, the setup request that chose it, and an id a
/// setup request offered that is being tried.
pub struct Setup {
    /// The client id in use, and where it came from.
    pub configuration: Option<(String, ClientIdSource)>,
    /// The generation of the setup request that chose the id; 0 at startup.
    pub generation: u64,
    /// An offered id being tried: its request's generation and the trimmed id.
    pub candidate: Option<(u64, String)>,
}

/// What happened since the last step of the setup.
#[derive(Debug)]
pub enum SetupEvent {
    /// The Spotify client was built from the id asked for.
    Built,
    /// Building the Spotify client failed.
    BuildFailed(String),
    /// The offered id was saved as the configuration.
    Saved,
    /// Saving the offered id failed.
    SaveFailed(String),
    /// A command arrived while setup was asked for.
    Command(Command),
}

/// What the backend does next, in order.
#[derive(Debug)]
pub enum SetupAction {
    /// Report this event to the window.
    Send(BackendEvent),
    /// Build the Spotify client from this id, with or without the cached
    /// sign-in credentials.
    Build { client_id: String, cached_credentials: bool },
    /// Save this id as the configured client id.
    Save(String),
    /// Forget the saved client id.
    ForgetSaved,
    /// Wait for the next command.
    AwaitCommand,
    /// Give up starting: the id from the environment does not work.
    Stop,
    /// Setup is done; go on with the client built. `reconfigured` says a
    /// setup request chose the id, so stored playback credentials no
    /// longer apply.
    Finish { reconfigured: bool },
}

/// The action reports a failed configuration for request `generation`.
pub open spec fn reports_failure(action: SetupAction, generation: u64, error: Seq<char>) -> bool {
    action matches SetupAction::Send(BackendEvent::SpotifyConfigurationFailed { generation: g, error: m })
        && g == generation && m@ == error
}

/// The action reports the configuration in use.
pub open spec fn reports_configured(action: SetupAction, generation: u64, client_id: Seq<char>, source: ClientIdSource) -> bool {
    action matches SetupAction::Send(BackendEvent::SpotifyConfigured { generation: g, client_id: id, source: from })
        && g == generation && id@ == client_id && from == source
}

/// Asking for setup: report that it is required, and wait for a command.
pub open spec fn asks_for_setup(actions: Seq<SetupAction>) -> bool {
    actions == seq![SetupAction::Send(BackendEvent::SetupRequired), SetupAction::AwaitCommand]
}

fn ask_for_setup(actions: &mut Vec<SetupAction>)
    ensures
        final(actions)@.len() == old(actions)@.len() + 2,
        final(actions)@.subrange(0, old(actions)@.len() as int) == old(actions)@,
        asks_for_setup(final(actions)@.subrange(old(actions)@.len() as int, final(actions)@.len() as int)),
{
    let ghost before = actions@;
    actions.push(SetupAction::Send(BackendEvent::SetupRequired));
    actions.push(SetupAction::AwaitCommand);
    assert(actions@.subrange(0, before.len() as int) =~= before);
    assert(actions@.subrange(before.len() as int, actions@.len() as int) =~= seq![
        SetupAction::Send(BackendEvent::SetupRequired),
        SetupAction::AwaitCommand,
    ]);
}

impl Setup {
    /// Starts setup from the configuration startup found (after
    /// `check_startup_configuration`): build the client from it, or ask for
    /// setup when there is none.
    pub fn begin(configuration: Option<(String, ClientIdSource)>, cached_credentials: bool) -> (r: (Setup, Vec<SetupAction>))
        ensures
            r.0.generation == 0,
            r.0.candidate is None,
            match configuration {
                Some((client_id, source)) => {
                    &&& r.0.configuration matches Some((id, from)) && id == client_id && from == source
                    &&& r.1@.len() == 1
                    &&& r.1@[0] matches SetupAction::Build { client_id: id, cached_credentials: cached }
                        && id == client_id && cached == cached_credentials
                },
                None => r.0.configuration is None && asks_for_setup(r.1@),
            },
    {
        let mut actions: Vec<SetupAction> = Vec::new();
        match configuration {
            Some((client_id, source)) => {
                actions.push(SetupAction::Build { client_id: client_id.clone(), cached_credentials });
                (Setup { configuration: Some((client_id, source)), generation: 0, candidate: None }, actions)
            },
            None => {
                ask_for_setup(&mut actions);
                assert(actions@.subrange(0, 2) =~= actions@);
                (Setup { configuration: None, generation: 0, candidate: None }, actions)
            },
        }
    }

    /// Takes what happened and says what to do next.
    pub fn step(&mut self, event: SetupEvent) -> (r: Vec<SetupAction>)
        ensures
            match event {
                SetupEvent::Built => match old(self).candidate {
                    Some((_, id)) => {
                        &&& *final(self) == *old(self)
                        &&& r@.len() == 1
                        &&& r@[0] matches SetupAction::Save(saved) && saved == id
                    },
                    None => {
                        &&& *final(self) == *old(self)
                        &&& match old(self).configuration {
                            Some((id, source)) => {
                                &&& r@.len() == 2
                                &&& reports_configured(r@[0], old(self).generation, id@, source)
                                &&& r@[1] == SetupAction::Finish { reconfigured: false }
                            },
                            None => r@.len() == 0,
                        }
                    },
                },
                SetupEvent::BuildFailed(error) => match old(self).candidate {
                    Some((generation, _)) => {
                        &&& *final(self) == (Setup { candidate: None, ..*old(self) })
                        &&& r@.len() == 3
                        &&& reports_failure(r@[0], generation, error@)
                        &&& asks_for_setup(r@.subrange(1, 3))
                    },
                    None => match old(self).configuration {
                        Some((_, ClientIdSource::Saved)) => {
                            &&& *final(self) == (Setup { configuration: None, ..*old(self) })
                            &&& r@.len() == 4
                            &&& reports_failure(r@[0], old(self).generation, error@)
                            &&& r@[1] == SetupAction::ForgetSaved
                            &&& asks_for_setup(r@.subrange(2, 4))
                        },
                        Some((_, ClientIdSource::Environment)) => {
                            &&& *final(self) == *old(self)
                            &&& r@.len() == 2
                            &&& reports_failure(r@[0], old(self).generation, error@)
                            &&& r@[1] == SetupAction::Stop
                        },
                        None => *final(self) == *old(self) && r@.len() == 0,
                    },
                },
                SetupEvent::Saved => match old(self).candidate {
                    Some((generation, id)) => {
                        &&& *final(self) == (Setup {
                            configuration: Some((id, ClientIdSource::Saved)),
                            generation,
                            candidate: None,
                        })
                        &&& r@.len() == 2
                        &&& reports_configured(r@[0], generation, id@, ClientIdSource::Saved)
                        &&& r@[1] == SetupAction::Finish { reconfigured: true }
                    },
                    None => *final(self) == *old(self) && r@.len() == 0,
                },
                SetupEvent::SaveFailed(error) => match old(self).candidate {
                    Some((generation, _)) => {
                        &&& *final(self) == (Setup { candidate: None, ..*old(self) })
                        &&& r@.len() == 3
                        &&& reports_failure(r@[0], generation, error@)
                        &&& asks_for_setup(r@.subrange(1, 3))
                    },
                    None => *final(self) == *old(self) && r@.len() == 0,
                },
                SetupEvent::Command(command) => match command {
                    Command::ConfigureSpotify { generation, client_id } => if crate::text::is_client_id(client_id@) {
                        &&& final(self).configuration == old(self).configuration
                        &&& final(self).generation == old(self).generation
                        &&& final(self).candidate matches Some((g, id)) && g == generation
                            && crate::text::trims(client_id@, id@)
                        &&& r@.len() == 1
                        &&& r@[0] matches SetupAction::Build { client_id: id, cached_credentials: cached }
                            && Some((generation, id)) == final(self).candidate && !cached
                    } else {
                        &&& *final(self) == *old(self)
                        &&& r@.len() == 3
                        &&& reports_failure(r@[0], generation, invalid_client_id_message())
                        &&& asks_for_setup(r@.subrange(1, 3))
                    },
                    _ => *final(self) == *old(self) && asks_for_setup(r@),
                },
            },
    {
        let mut actions: Vec<SetupAction> = Vec::new();
        match event {
            SetupEvent::Built => {
                match &self.candidate {
                    Some((_, id)) => {
                        actions.push(SetupAction::Save(id.clone()));
                    },
                    None => match &self.configuration {
                        Some((id, source)) => {
                            actions.push(
                                SetupAction::Send(
                                    BackendEvent::SpotifyConfigured {
                                        generation: self.generation,
                                        client_id: id.clone(),
                                        source: *source,
                                    },
                                ),
                            );
                            actions.push(SetupAction::Finish { reconfigured: false });
                        },
                        None => {},
                    },
                }
            },
            SetupEvent::BuildFailed(error) => {
                if self.candidate.is_some() {
                    let generation = match &self.candidate {
                        Some((generation, _)) => *generation,
                        None => 0,
                    };
                    self.candidate = None;
                    actions.push(SetupAction::Send(BackendEvent::SpotifyConfigurationFailed { generation, error }));
                    ask_for_setup(&mut actions);
                } else {
                    let source = match &self.configuration {
                        Some((_, source)) => Some(*source),
                        None => None,
                    };
                    match source {
                        Some(ClientIdSource::Saved) => {
                            self.configuration = None;
                            actions.push(
                                SetupAction::Send(
                                    BackendEvent::SpotifyConfigurationFailed { generation: self.generation, error },
                                ),
                            );
                            actions.push(SetupAction::ForgetSaved);
                            ask_for_setup(&mut actions);
                        },
                        Some(ClientIdSource::Environment) => {
                            actions.push(
                                SetupAction::Send(
                                    BackendEvent::SpotifyConfigurationFailed { generation: self.generation, error },
                                ),
                            );
                            actions.push(SetupAction::Stop);
                        },
                        None => {},
                    }
                }
            },
            SetupEvent::Saved => {
                match self.candidate.take() {
                    Some((generation, id)) => {
                        actions.push(
                            SetupAction::Send(
                                BackendEvent::SpotifyConfigured {
                                    generation,
                                    client_id: id.clone(),
                                    source: ClientIdSource::Saved,
                                },
                            ),
                        );
                        actions.push(SetupAction::Finish { reconfigured: true });
                        self.configuration = Some((id, ClientIdSource::Saved));
                        self.generation = generation;
                    },
                    None => {},
                }
            },
            SetupEvent::SaveFailed(error) => {
                match self.candidate.take() {
                    Some((generation, _)) => {
                        actions.push(SetupAction::Send(BackendEvent::SpotifyConfigurationFailed { generation, error }));
                        ask_for_setup(&mut actions);
                    },
                    None => {},
                }
            },
            SetupEvent::Command(command) => match command {
                Command::ConfigureSpotify { generation, client_id } => {
                    if crate::text::valid_client_id(client_id.as_str()) {
                        let id = crate::text::trim(client_id.as_str());
                        actions.push(SetupAction::Build { client_id: id.clone(), cached_credentials: false });
                        self.candidate = Some((generation, id));
                    } else {
                        actions.push(
                            SetupAction::Send(
                                BackendEvent::SpotifyConfigurationFailed {
                                    generation,
                                    error: String::from_str("Spotify Client ID must contain 32 hexadecimal characters"),
                                },
                            ),
                        );
                        ask_for_setup(&mut actions);
                    }
                },
                _ => {
                    ask_for_setup(&mut actions);
                },
            },
        }
        assert(actions@.subrange(0, actions@.len() as int) =~= actions@);
        actions
    }
}


pub open spec fn logout_busy_message() -> Seq<char> {
    "Spotify logout is still finishing"@
}

/// While a logout is running, every command but another logout is refused
/// with an error for the window. (Shutdown never reaches this check: it
/// travels beside the commands.)
pub fn refuse_during_logout(logout_running: bool, command: &Command) -> (r: Option<BackendEvent>)
    ensures
        if logout_running && !(command is Logout) {
            r matches Some(BackendEvent::Error(message)) && message@ == logout_busy_message()
        } else {
            r is None
        },
{
    if logout_running {
        match command {
            Command::Logout { .. } => None,
            _ => Some(BackendEvent::Error(String::from_str("Spotify logout is still finishing"))),
        }
    } else {
        None
    }
}

} // verus!
