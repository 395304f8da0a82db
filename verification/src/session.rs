//! The account this instance is signed in to, and how far along the
//! connect-and-authorize sequence it has got.

use vstd::prelude::*;

use crate::events::{command_views, next_request_id, BackendEvent, ClientIdSource, Command, CommandView};
use crate::model::{opt_text, UserProfile};

verus! {

/// How far the connection to the account has got.
#[derive(Clone, Copy, Debug, PartialEq, Eq, Structural)]
pub enum ConnectionState {
    Starting,
    Failed,
    SetupRequired,
    AuthorizationRequired,
    Connecting,
    Ready,
}

/// What the surrounding application has to react to when the account changes.
#[derive(Debug)]
pub enum SessionEvent {
    /// The account went away; every cached view of it must be discarded.
    LoggedOut,
    /// The catalog is loaded and usable again.
    Ready,
    /// A new account is being loaded, so navigation starts from the top.
    Restarted,
    Failed(String),
    Notice(String),
}

pub enum SessionEventView {
    LoggedOut,
    Ready,
    Restarted,
    Failed(Seq<char>),
    Notice(Seq<char>),
}

impl View for SessionEvent {
    type V = SessionEventView;

    open spec fn view(&self) -> SessionEventView {
        match *self {
            SessionEvent::LoggedOut => SessionEventView::LoggedOut,
            SessionEvent::Ready => SessionEventView::Ready,
            SessionEvent::Restarted => SessionEventView::Restarted,
            SessionEvent::Failed(error) => SessionEventView::Failed(error@),
            SessionEvent::Notice(notice) => SessionEventView::Notice(notice@),
        }
    }
}

pub open spec fn session_event_views(events: Seq<SessionEvent>) -> Seq<SessionEventView> {
    events.map_values(|event: SessionEvent| event@)
}

/// The failure reported when the backend would not take a command.
pub open spec fn busy_message() -> Seq<char> {
    "Cadence backend is busy or not running"@
}

/// The failure reported when a change of Spotify app could not begin.
pub open spec fn restart_failed_message() -> Seq<char> {
    "Unable to restart Spotify setup."@
}

pub open spec fn configure_failed_message(error: Seq<char>) -> Seq<char> {
    "Could not configure Spotify. Check the Client ID and try again. "@ + error
}

pub open spec fn reset_failed_notice(error: Seq<char>) -> Seq<char> {
    "Unable to restart Spotify setup. Check your connection and try again. "@ + error
}

pub open spec fn successor(id: u64) -> u64 {
    if id == u64::MAX {
        0
    } else {
        (id + 1) as u64
    }
}

pub struct Session {
    /// Bumped whenever the account changes, so replies to the previous
    /// account can be recognised and dropped.
    generation: u64,
    state: ConnectionState,
    client_id: Option<String>,
    client_id_source: Option<ClientIdSource>,
    setup_error: Option<String>,
    setup_needs_focus: bool,
    configuration_request_id: u64,
    pending_configuration: Option<u64>,
    configuration_blocked: bool,
    app_change_confirmation_open: bool,
    /// Where to return if restarting Spotify setup fails before it begins.
    state_before_app_change: Option<ConnectionState>,
    /// The last failure, kept so a sign-in window opened by the very event
    /// that carried it can still show it.
    last_failure: Option<String>,
    profile: Option<UserProfile>,
}

/// The session as the contracts see it.
pub struct SessionView {
    pub generation: u64,
    pub state: ConnectionState,
    pub client_id: Option<Seq<char>>,
    pub client_id_source: Option<ClientIdSource>,
    pub setup_error: Option<Seq<char>>,
    pub setup_needs_focus: bool,
    pub configuration_request_id: u64,
    pub pending_configuration: Option<u64>,
    pub configuration_blocked: bool,
    pub app_change_confirmation_open: bool,
    pub state_before_app_change: Option<ConnectionState>,
    pub last_failure: Option<Seq<char>>,
    pub profile: Option<UserProfile>,
}

impl View for Session {
    type V = SessionView;

    closed spec fn view(&self) -> SessionView {
        SessionView {
            generation: self.generation,
            state: self.state,
            client_id: opt_text(self.client_id),
            client_id_source: self.client_id_source,
            setup_error: opt_text(self.setup_error),
            setup_needs_focus: self.setup_needs_focus,
            configuration_request_id: self.configuration_request_id,
            pending_configuration: self.pending_configuration,
            configuration_blocked: self.configuration_blocked,
            app_change_confirmation_open: self.app_change_confirmation_open,
            state_before_app_change: self.state_before_app_change,
            last_failure: opt_text(self.last_failure),
            profile: self.profile,
        }
    }
}

/// What a session step asks of the surrounding application.
pub struct SessionStep {
    /// Commands to send to the backend, in order. One that is not taken is
    /// reported back through `Session::undelivered`.
    pub commands: Vec<Command>,
    /// Events for the surrounding application, in order.
    pub events: Vec<SessionEvent>,
    /// The backend event, when the surrounding application still has work for it.
    pub unhandled: Option<BackendEvent>,
}

impl SessionView {
    pub open spec fn initial() -> SessionView {
        SessionView {
            generation: 0,
            state: ConnectionState::Starting,
            client_id: None,
            client_id_source: None,
            setup_error: None,
            setup_needs_focus: true,
            configuration_request_id: 0,
            pending_configuration: None,
            configuration_blocked: false,
            app_change_confirmation_open: false,
            state_before_app_change: None,
            last_failure: None,
            profile: None,
        }
    }

    /// Signing in again: a new generation, announced and sent.
    pub open spec fn authenticated(self) -> (SessionView, Seq<CommandView>, Seq<SessionEventView>) {
        let generation = successor(self.generation);
        (
            SessionView { last_failure: None, generation, ..self },
            seq![CommandView::Authenticate { generation }],
            seq![SessionEventView::Restarted],
        )
    }

    /// A failure shown to the listener.
    pub open spec fn failed(self, error: Seq<char>) -> (SessionView, SessionEventView) {
        (SessionView { last_failure: Some(error), ..self }, SessionEventView::Failed(error))
    }

    /// The effect of one backend event: the next state, the commands sent,
    /// the events raised, and whether the backend event passes on.
    pub open spec fn step(self, event: BackendEvent) -> (SessionView, Seq<CommandView>, Seq<SessionEventView>, bool) {
        match event {
            BackendEvent::SetupRequired => (
                SessionView {
                    state: ConnectionState::SetupRequired,
                    state_before_app_change: None,
                    client_id: None,
                    client_id_source: None,
                    setup_needs_focus: true,
                    configuration_blocked: false,
                    ..self
                },
                seq![],
                seq![],
                false,
            ),
            BackendEvent::SpotifyConfigured { generation, client_id, source } => {
                let configured = SessionView {
                    client_id: Some(client_id@),
                    client_id_source: Some(source),
                    configuration_blocked: false,
                    ..self
                };
                if self.pending_configuration == Some(generation) {
                    let (signed_in, commands, events) = (SessionView {
                        pending_configuration: None,
                        state: ConnectionState::Connecting,
                        ..configured
                    }).authenticated();
                    (signed_in, commands, events, false)
                } else {
                    (configured, seq![], seq![], false)
                }
            },
            BackendEvent::SpotifyConfigurationFailed { generation, error } => {
                if generation == 0 && self.client_id_source == Some(ClientIdSource::Environment) {
                    let (failed, raised) = (SessionView {
                        state: ConnectionState::AuthorizationRequired,
                        configuration_blocked: true,
                        ..self
                    }).failed(error@);
                    (failed, seq![], seq![raised], false)
                } else if generation == 0 || self.pending_configuration == Some(generation) {
                    (
                        SessionView {
                            pending_configuration: None,
                            state: ConnectionState::SetupRequired,
                            setup_error: Some(configure_failed_message(error@)),
                            setup_needs_focus: true,
                            ..self
                        },
                        seq![],
                        seq![],
                        false,
                    )
                } else {
                    (self, seq![], seq![], false)
                }
            },
            BackendEvent::SpotifyConfigurationResetFailed(error) => (
                match self.state_before_app_change {
                    Some(previous) => SessionView {
                        state: previous,
                        state_before_app_change: None,
                        ..self
                    },
                    None => self,
                },
                seq![],
                seq![SessionEventView::Notice(reset_failed_notice(error@))],
                false,
            ),
            BackendEvent::AuthorizationRequired => (
                if self.state == ConnectionState::Connecting {
                    self
                } else {
                    SessionView { state: ConnectionState::AuthorizationRequired, ..self }
                },
                seq![],
                seq![],
                false,
            ),
            BackendEvent::LoggedOut => (
                SessionView { state: ConnectionState::AuthorizationRequired, profile: None, ..self },
                seq![],
                seq![SessionEventView::LoggedOut],
                false,
            ),
            BackendEvent::CatalogReady { generation } => if generation == self.generation {
                (
                    SessionView { state: ConnectionState::Ready, last_failure: None, ..self },
                    seq![],
                    seq![SessionEventView::Ready],
                    false,
                )
            } else {
                (self, seq![], seq![], false)
            },
            BackendEvent::ProfileLoaded { generation, profile } => (
                if generation == self.generation {
                    SessionView { profile: Some(profile), ..self }
                } else {
                    self
                },
                seq![],
                seq![],
                false,
            ),
            BackendEvent::AuthorizationFailed(error) => {
                let (failed, raised) = (SessionView {
                    state: ConnectionState::AuthorizationRequired,
                    ..self
                }).failed(error@);
                (failed, seq![], seq![raised], false)
            },
            BackendEvent::FatalError(error) => {
                let (failed, raised) = (SessionView { state: ConnectionState::Failed, ..self }).failed(
                    error@,
                );
                (failed, seq![], seq![raised], false)
            },
            BackendEvent::CatalogFailed { generation, .. } => (
                if generation == self.generation {
                    SessionView { state: ConnectionState::Ready, ..self }
                } else {
                    self
                },
                seq![],
                seq![],
                true,
            ),
            _ => (self, seq![], seq![], true),
        }
    }
}

impl Session {
    pub fn new() -> (r: Session)
        ensures
            r@ == SessionView::initial(),
    {
        Session {
            generation: 0,
            state: ConnectionState::Starting,
            client_id: None,
            client_id_source: None,
            setup_error: None,
            setup_needs_focus: true,
            configuration_request_id: 0,
            pending_configuration: None,
            configuration_blocked: false,
            app_change_confirmation_open: false,
            state_before_app_change: None,
            last_failure: None,
            profile: None,
        }
    }

    /// Puts the account back into its opening state after the worker restarted.
    pub fn restarted(&mut self)
        ensures
            final(self)@ == (SessionView { state: ConnectionState::Starting, ..old(self)@ }),
    {
        self.state = ConnectionState::Starting;
    }

    pub fn generation(&self) -> (r: u64)
        ensures
            r == self@.generation,
    {
        self.generation
    }

    pub fn state(&self) -> (r: ConnectionState)
        ensures
            r == self@.state,
    {
        self.state
    }

    pub fn is_ready(&self) -> (r: bool)
        ensures
            r == (self@.state == ConnectionState::Ready),
    {
        self.state == ConnectionState::Ready
    }

    pub fn client_id(&self) -> (r: Option<&String>)
        ensures
            match r {
                Some(id) => self@.client_id == Some(id@),
                None => self@.client_id is None,
            },
    {
        self.client_id.as_ref()
    }

    pub fn client_id_source(&self) -> (r: Option<ClientIdSource>)
        ensures
            r == self@.client_id_source,
    {
        self.client_id_source
    }

    pub fn setup_error(&self) -> (r: Option<&String>)
        ensures
            match r {
                Some(error) => self@.setup_error == Some(error@),
                None => self@.setup_error is None,
            },
    {
        self.setup_error.as_ref()
    }

    pub fn configuration_blocked(&self) -> (r: bool)
        ensures
            r == self@.configuration_blocked,
    {
        self.configuration_blocked
    }

    pub fn app_change_confirmation_open(&self) -> (r: bool)
        ensures
            r == self@.app_change_confirmation_open,
    {
        self.app_change_confirmation_open
    }

    pub fn profile(&self) -> (r: Option<&UserProfile>)
        ensures
            match r {
                Some(profile) => self@.profile == Some(*profile),
                None => self@.profile is None,
            },
    {
        self.profile.as_ref()
    }

    pub fn last_failure(&self) -> (r: Option<&String>)
        ensures
            match r {
                Some(error) => self@.last_failure == Some(error@),
                None => self@.last_failure is None,
            },
    {
        self.last_failure.as_ref()
    }

    /// Reports whether the setup field still needs focus, clearing the request.
    pub fn take_setup_focus(&mut self) -> (r: bool)
        ensures
            r == old(self)@.setup_needs_focus,
            final(self)@ == (SessionView { setup_needs_focus: false, ..old(self)@ }),
    {
        let needed = self.setup_needs_focus;
        self.setup_needs_focus = false;
        needed
    }

    pub fn set_connecting(&mut self)
        ensures
            final(self)@ == (SessionView {
                state: ConnectionState::Connecting,
                last_failure: None,
                ..old(self)@
            }),
    {
        self.state = ConnectionState::Connecting;
        self.last_failure = None;
    }

    fn fail(&mut self, error: String) -> (r: SessionEvent)
        ensures
            (final(self)@, r@) == old(self)@.failed(error@),
    {
        self.last_failure = Some(error.clone());
        SessionEvent::Failed(error)
    }

    /// Reports that the backend would not take a command this session sent.
    pub fn undelivered(&mut self) -> (r: SessionEvent)
        ensures
            (final(self)@, r@) == old(self)@.failed(busy_message()),
    {
        self.fail(String::from_str("Cadence backend is busy or not running"))
    }

    /// Signs in again under a new generation.
    pub fn authenticate(&mut self) -> (r: SessionStep)
        ensures
            ({
                let (state, commands, events) = old(self)@.authenticated();
                &&& final(self)@ == state
                &&& command_views(r.commands@) == commands
                &&& session_event_views(r.events@) == events
                &&& r.unhandled is None
            }),
    {
        self.last_failure = None;
        let generation = next_request_id(&mut self.generation);
        let mut commands: Vec<Command> = Vec::new();
        commands.push(Command::Authenticate { generation });
        let mut events: Vec<SessionEvent> = Vec::new();
        events.push(SessionEvent::Restarted);
        assert(command_views(commands@) =~= seq![CommandView::Authenticate { generation }]);
        assert(session_event_views(events@) =~= seq![SessionEventView::Restarted]);
        SessionStep { commands, events, unhandled: None }
    }

    /// Asks the backend to configure `client_id`; the session waits for the
    /// answer to this request alone.
    pub fn configure(&mut self, client_id: String) -> (r: Command)
        ensures
            ({
                let id = successor(old(self)@.configuration_request_id);
                &&& r@ == CommandView::ConfigureSpotify { generation: id, client_id: client_id@ }
                &&& final(self)@ == (SessionView {
                    setup_error: None,
                    last_failure: None,
                    state: ConnectionState::Connecting,
                    configuration_request_id: id,
                    pending_configuration: Some(id),
                    ..old(self)@
                })
            }),
    {
        self.setup_error = None;
        self.last_failure = None;
        self.state = ConnectionState::Connecting;
        let generation = next_request_id(&mut self.configuration_request_id);
        self.pending_configuration = Some(generation);
        Command::ConfigureSpotify { generation, client_id }
    }

    /// Returns to setup after the backend would not take a configuration.
    pub fn configure_undelivered(&mut self) -> (r: SessionEvent)
        ensures
            ({
                let (failed, raised) = old(self)@.failed(busy_message());
                &&& r@ == raised
                &&& final(self)@ == (SessionView {
                    pending_configuration: None,
                    state: ConnectionState::SetupRequired,
                    ..failed
                })
            }),
    {
        let raised = self.undelivered();
        self.pending_configuration = None;
        self.state = ConnectionState::SetupRequired;
        raised
    }

    pub fn reject_client_id(&mut self, error: String)
        ensures
            final(self)@ == (SessionView { setup_error: Some(error@), ..old(self)@ }),
    {
        self.setup_error = Some(error);
    }

    pub fn clear_setup_error(&mut self)
        ensures
            final(self)@ == (SessionView { setup_error: None, ..old(self)@ }),
    {
        self.setup_error = None;
    }

    pub fn request_app_change(&mut self)
        ensures
            final(self)@ == (SessionView { app_change_confirmation_open: true, ..old(self)@ }),
    {
        self.app_change_confirmation_open = true;
    }

    pub fn cancel_app_change(&mut self)
        ensures
            final(self)@ == (SessionView { app_change_confirmation_open: false, ..old(self)@ }),
    {
        self.app_change_confirmation_open = false;
    }

    /// Starts over with a different Spotify app: the current configuration is
    /// reset under a new generation, remembering where to return if the
    /// backend cannot begin.
    pub fn confirm_app_change(&mut self) -> (r: SessionStep)
        ensures
            ({
                let generation = successor(old(self)@.generation);
                &&& final(self)@ == (SessionView {
                    app_change_confirmation_open: false,
                    state: ConnectionState::Connecting,
                    generation,
                    state_before_app_change: Some(old(self)@.state),
                    ..old(self)@
                })
                &&& command_views(r.commands@) == seq![
                    CommandView::ResetSpotifyConfiguration { generation },
                ]
                &&& session_event_views(r.events@) == seq![SessionEventView::Restarted]
                &&& r.unhandled is None
            }),
    {
        self.app_change_confirmation_open = false;
        let previous = self.state;
        self.state = ConnectionState::Connecting;
        let generation = next_request_id(&mut self.generation);
        self.state_before_app_change = Some(previous);
        let mut commands: Vec<Command> = Vec::new();
        commands.push(Command::ResetSpotifyConfiguration { generation });
        let mut events: Vec<SessionEvent> = Vec::new();
        events.push(SessionEvent::Restarted);
        assert(command_views(commands@) =~= seq![
            CommandView::ResetSpotifyConfiguration { generation },
        ]);
        assert(session_event_views(events@) =~= seq![SessionEventView::Restarted]);
        SessionStep { commands, events, unhandled: None }
    }

    /// Goes back to where the app change started after the backend would not
    /// take the reset.
    pub fn app_change_undelivered(&mut self) -> (r: Vec<SessionEvent>)
        requires
            old(self)@.state_before_app_change is Some,
        ensures
            ({
                let (busy, first) = old(self)@.failed(busy_message());
                let (unable, second) = (SessionView {
                    state: old(self)@.state_before_app_change->0,
                    state_before_app_change: None,
                    ..busy
                }).failed(restart_failed_message());
                &&& final(self)@ == unable
                &&& session_event_views(r@) == seq![first, second]
            }),
    {
        let first = self.undelivered();
        match self.state_before_app_change {
            Some(previous) => {
                self.state = previous;
            },
            None => {},
        }
        self.state_before_app_change = None;
        let second = self.fail(String::from_str("Unable to restart Spotify setup."));
        let mut events: Vec<SessionEvent> = Vec::new();
        events.push(first);
        events.push(second);
        assert(session_event_views(events@) =~= seq![events@[0]@, events@[1]@]);
        events
    }

    /// Signs out under a new generation.
    pub fn logout(&mut self) -> (r: SessionStep)
        ensures
            ({
                let generation = successor(old(self)@.generation);
                &&& final(self)@ == (SessionView {
                    app_change_confirmation_open: false,
                    generation,
                    ..old(self)@
                })
                &&& command_views(r.commands@) == seq![CommandView::Logout { generation }]
                &&& session_event_views(r.events@) == seq![SessionEventView::Restarted]
                &&& r.unhandled is None
            }),
    {
        self.app_change_confirmation_open = false;
        let generation = next_request_id(&mut self.generation);
        let mut commands: Vec<Command> = Vec::new();
        commands.push(Command::Logout { generation });
        let mut events: Vec<SessionEvent> = Vec::new();
        events.push(SessionEvent::Restarted);
        assert(command_views(commands@) =~= seq![CommandView::Logout { generation }]);
        assert(session_event_views(events@) =~= seq![SessionEventView::Restarted]);
        SessionStep { commands, events, unhandled: None }
    }

    /// Applies the account half of a backend event.
    pub fn handle_backend_event(&mut self, event: BackendEvent) -> (r: SessionStep)
        ensures
            ({
                let (state, commands, events, passes) = old(self)@.step(event);
                &&& final(self)@ == state
                &&& command_views(r.commands@) == commands
                &&& session_event_views(r.events@) == events
                &&& r.unhandled == (if passes { Some(event) } else { None })
            }),
    {
        let mut events: Vec<SessionEvent> = Vec::new();
        let commands: Vec<Command> = Vec::new();
        match event {
            BackendEvent::SetupRequired => {
                self.state = ConnectionState::SetupRequired;
                self.state_before_app_change = None;
                self.client_id = None;
                self.client_id_source = None;
                self.setup_needs_focus = true;
                self.configuration_blocked = false;
            },
            BackendEvent::SpotifyConfigured { generation, client_id, source } => {
                self.client_id = Some(client_id);
                self.client_id_source = Some(source);
                self.configuration_blocked = false;
                if self.pending_configuration == Some(generation) {
                    self.pending_configuration = None;
                    self.state = ConnectionState::Connecting;
                    return self.authenticate();
                }
            },
            BackendEvent::SpotifyConfigurationFailed { generation, error } => {
                if generation == 0 && self.client_id_source == Some(ClientIdSource::Environment) {
                    self.state = ConnectionState::AuthorizationRequired;
                    self.configuration_blocked = true;
                    let raised = self.fail(error);
                    events.push(raised);
                } else if generation == 0 || self.pending_configuration == Some(generation) {
                    self.pending_configuration = None;
                    self.state = ConnectionState::SetupRequired;
                    let mut message = String::from_str(
                        "Could not configure Spotify. Check the Client ID and try again. ",
                    );
                    message.append(error.as_str());
                    self.setup_error = Some(message);
                    self.setup_needs_focus = true;
                }
            },
            BackendEvent::SpotifyConfigurationResetFailed(error) => {
                match self.state_before_app_change {
                    Some(previous) => {
                        self.state = previous;
                    },
                    None => {},
                }
                self.state_before_app_change = None;
                let mut notice = String::from_str(
                    "Unable to restart Spotify setup. Check your connection and try again. ",
                );
                notice.append(error.as_str());
                events.push(SessionEvent::Notice(notice));
            },
            BackendEvent::AuthorizationRequired => {
                if self.state != ConnectionState::Connecting {
                    self.state = ConnectionState::AuthorizationRequired;
                }
            },
            BackendEvent::LoggedOut => {
                self.state = ConnectionState::AuthorizationRequired;
                self.profile = None;
                events.push(SessionEvent::LoggedOut);
            },
            BackendEvent::CatalogReady { generation } => {
                if generation == self.generation {
                    self.state = ConnectionState::Ready;
                    self.last_failure = None;
                    events.push(SessionEvent::Ready);
                }
            },
            BackendEvent::ProfileLoaded { generation, profile } => {
                if generation == self.generation {
                    self.profile = Some(profile);
                }
            },
            BackendEvent::AuthorizationFailed(error) => {
                self.state = ConnectionState::AuthorizationRequired;
                let raised = self.fail(error);
                events.push(raised);
            },
            BackendEvent::FatalError(error) => {
                self.state = ConnectionState::Failed;
                let raised = self.fail(error);
                events.push(raised);
            },
            BackendEvent::CatalogFailed { generation, error } => {
                if generation == self.generation {
                    self.state = ConnectionState::Ready;
                }
                return SessionStep {
                    commands,
                    events,
                    unhandled: Some(BackendEvent::CatalogFailed { generation, error }),
                };
            },
            event => {
                return SessionStep { commands, events, unhandled: Some(event) };
            },
        }
        assert(command_views(commands@) =~= old(self)@.step(event).1);
        assert(session_event_views(events@) =~= old(self)@.step(event).2);
        SessionStep { commands, events, unhandled: None }
    }
}

/// An answer about the account from another generation than the current one.
pub open spec fn answers_generation(event: BackendEvent, generation: u64) -> bool {
    match event {
        BackendEvent::CatalogReady { generation: answered } => answered == generation,
        BackendEvent::ProfileLoaded { generation: answered, .. } => answered == generation,
        BackendEvent::CatalogFailed { generation: answered, .. } => answered == generation,
        _ => false,
    }
}

/// Answers to an earlier sign-in cannot touch the current one: the catalog
/// becoming ready, the profile arriving or the catalog failing for another
/// generation leave the session as it is and raise nothing.
pub proof fn lemma_stale_answers_are_ignored(session: SessionView, event: BackendEvent, generation: u64)
    requires
        answers_generation(event, generation),
        generation != session.generation,
    ensures
        ({
            let (after, commands, events, _) = session.step(event);
            after == session && commands.len() == 0 && events.len() == 0
        }),
{
}

/// Signing in again starts a new generation, so the answers still on their
/// way for the previous one are ignored once it has started.
pub proof fn lemma_signing_in_again_ignores_the_previous_sign_in(session: SessionView, event: BackendEvent)
    requires
        answers_generation(event, session.generation),
    ensures
        ({
            let (signed_in, _, _) = session.authenticated();
            let (after, commands, events, _) = signed_in.step(event);
            &&& signed_in.generation != session.generation
            &&& after == signed_in
            &&& commands.len() == 0
            &&& events.len() == 0
        }),
{
}

/// A logout always reaches the listener: the session then asks for
/// authorization and forgets the profile.
pub proof fn lemma_logout_is_always_announced(session: SessionView)
    ensures
        ({
            let (after, _, events, _) = session.step(BackendEvent::LoggedOut);
            &&& events == seq![SessionEventView::LoggedOut]
            &&& after.state == ConnectionState::AuthorizationRequired
            &&& after.profile is None
        }),
{
}

impl Session {
    /// Takes the client id typed into onboarding: a valid one, trimmed, is
    /// handed back as the configuration to send; anything else is refused
    /// with a hint and nothing is sent.
    pub fn submit_client_id(&mut self, input: &str) -> (r: Option<Command>)
        ensures
            crate::text::is_client_id(input@) ==> (r matches Some(command) && exists|client_id: Seq<char>|
                {
                    &&& crate::text::trims(input@, client_id)
                    &&& command@ == CommandView::ConfigureSpotify {
                        generation: successor(old(self)@.configuration_request_id),
                        client_id,
                    }
                    &&& final(self)@ == (SessionView {
                        setup_error: None,
                        last_failure: None,
                        state: ConnectionState::Connecting,
                        configuration_request_id: successor(old(self)@.configuration_request_id),
                        pending_configuration: Some(successor(old(self)@.configuration_request_id)),
                        ..old(self)@
                    })
                }),
            !crate::text::is_client_id(input@) ==> r is None && final(self)@ == (SessionView {
                setup_error: Some(client_id_hint()),
                ..old(self)@
            }),
    {
        let client_id = crate::text::trim(input);
        if !crate::text::valid_client_id(input) {
            self.reject_client_id(String::from_str("Enter the 32-character Client ID from your Spotify app."));
            return None;
        }
        Some(self.configure(client_id))
    }
}

pub open spec fn client_id_hint() -> Seq<char> {
    "Enter the 32-character Client ID from your Spotify app."@
}


/// Once the backend confirms the configuration the listener asked for, the
/// session signs in with it: a new generation, one authentication request
/// for that generation, and the listener is told the session restarted.
pub proof fn lemma_a_confirmed_configuration_signs_in(
    session: SessionView,
    generation: u64,
    client_id: String,
    source: ClientIdSource,
)
    requires
        session.pending_configuration == Some(generation),
    ensures
        ({
            let (after, commands, events, _) = session.step(
                BackendEvent::SpotifyConfigured { generation, client_id, source },
            );
            &&& after.generation != session.generation
            &&& after.generation == (if session.generation == u64::MAX { 0 } else { session.generation + 1 })
            &&& commands == seq![CommandView::Authenticate { generation: after.generation }]
            &&& events == seq![SessionEventView::Restarted]
            &&& after.state == ConnectionState::Connecting
            &&& after.pending_configuration is None
            &&& after.client_id == Some(client_id@)
            &&& after.client_id_source == Some(source)
        }),
{
}

} // verus!
