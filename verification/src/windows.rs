//! Which windows the session state calls for.

use vstd::prelude::*;

use crate::session::ConnectionState;

verus! {

/// Which windows a session state calls for.
#[derive(Clone, Copy, Debug, PartialEq, Eq, Structural)]
pub enum DesiredWindows {
    OnboardingOnly,
    MainOnly,
    MainWithOnboarding,
}

/// Before the session has ever been ready, onboarding stands alone. Once the
/// main window has been the listener's home, losing the session brings the
/// sign-in window up over it instead of tearing it down.
pub fn desired_windows(state: ConnectionState, has_been_ready: bool) -> (r: DesiredWindows)
    ensures
        state == ConnectionState::Ready ==> r == DesiredWindows::MainOnly,
        state != ConnectionState::Ready && has_been_ready ==> r == DesiredWindows::MainWithOnboarding,
        state != ConnectionState::Ready && !has_been_ready ==> r == DesiredWindows::OnboardingOnly,
{
    match state {
        ConnectionState::Ready => DesiredWindows::MainOnly,
        ConnectionState::Starting
        | ConnectionState::Failed
        | ConnectionState::SetupRequired
        | ConnectionState::AuthorizationRequired
        | ConnectionState::Connecting => {
            if has_been_ready {
                DesiredWindows::MainWithOnboarding
            } else {
                DesiredWindows::OnboardingOnly
            }
        },
    }
}

} // verus!
