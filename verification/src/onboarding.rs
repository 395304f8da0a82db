//! What the sign-in window and the settings page show about the account's
//! Spotify setup.

use vstd::prelude::*;

use crate::events::ClientIdSource;
use crate::session::ConnectionState;

verus! {

/// Where the developer dashboard lives.
pub open spec fn dashboard_prefix() -> Seq<char> {
    "https://developer.spotify.com/dashboard/"@
}

/// The dashboard page of the configured app; the dashboard itself without one.
pub fn dashboard_url(client_id: Option<&String>) -> (r: String)
    ensures
        r@ == dashboard_prefix() + match client_id {
            Some(id) => id@,
            None => Seq::<char>::empty(),
        },
{
    let mut url = String::from_str("https://developer.spotify.com/dashboard/");
    if let Some(id) = client_id {
        url.append(id.as_str());
    }
    proof {
        if client_id is None {
            assert(url@ =~= dashboard_prefix() + Seq::<char>::empty());
        }
    }
    url
}

/// The screen the sign-in window shows.
#[derive(Clone, Copy, Debug, PartialEq, Eq, Structural)]
pub enum OnboardingScreen {
    /// The backend could not start.
    BackendFailure,
    /// A developer app must be set up first.
    Setup,
    /// Sign in, or wait for the sign-in on its way.
    Login,
    /// Nothing to ask yet.
    Waiting,
}

pub fn onboarding_screen(state: ConnectionState) -> (r: OnboardingScreen)
    ensures
        r == match state {
            ConnectionState::Failed => OnboardingScreen::BackendFailure,
            ConnectionState::SetupRequired => OnboardingScreen::Setup,
            ConnectionState::AuthorizationRequired | ConnectionState::Connecting => OnboardingScreen::Login,
            ConnectionState::Starting | ConnectionState::Ready => OnboardingScreen::Waiting,
        },
{
    match state {
        ConnectionState::Failed => OnboardingScreen::BackendFailure,
        ConnectionState::SetupRequired => OnboardingScreen::Setup,
        ConnectionState::AuthorizationRequired | ConnectionState::Connecting => OnboardingScreen::Login,
        ConnectionState::Starting | ConnectionState::Ready => OnboardingScreen::Waiting,
    }
}

/// What the sign-in screen offers.
#[derive(Clone, Copy, Debug, PartialEq, Eq, Structural)]
pub struct LoginOptions {
    /// The sign-in button, unless an unusable configuration blocks it.
    pub login_shown: bool,
    /// The sign-in is on its way: the button waits.
    pub login_pending: bool,
    /// A saved app can be swapped for another while not signing in.
    pub change_app: bool,
    /// An app from the environment can only be looked at.
    pub open_dashboard: bool,
}

pub fn login_options(state: ConnectionState, source: Option<ClientIdSource>, configuration_blocked: bool) -> (r: LoginOptions)
    ensures
        r == (LoginOptions {
            login_shown: !configuration_blocked,
            login_pending: state == ConnectionState::Connecting,
            change_app: state != ConnectionState::Connecting && source == Some(ClientIdSource::Saved),
            open_dashboard: source == Some(ClientIdSource::Environment),
        }),
{
    let connecting = state == ConnectionState::Connecting;
    LoginOptions {
        login_shown: !configuration_blocked,
        login_pending: connecting,
        change_app: !connecting && source == Some(ClientIdSource::Saved),
        open_dashboard: source == Some(ClientIdSource::Environment),
    }
}

/// The heading of the settings' developer app row.
pub fn developer_app_heading(source: Option<ClientIdSource>) -> (r: &'static str)
    ensures
        r@ == if source == Some(ClientIdSource::Environment) {
            "Configured by SPOTIFY_CLIENT_ID"@
        } else {
            "Spotify developer app"@
        },
{
    if source == Some(ClientIdSource::Environment) {
        "Configured by SPOTIFY_CLIENT_ID"
    } else {
        "Spotify developer app"
    }
}

} // verus!
