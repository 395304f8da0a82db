//! One Cadence per account: the first launch owns the activation socket, and a
//! later one asks it to come forward instead of starting again.

use vstd::prelude::*;

verus! {

/// What binding the activation socket gave.
#[derive(Clone, Copy, Debug, PartialEq, Eq, Structural)]
pub enum BindOutcome {
    Bound,
    /// Another process, running or crashed, holds the path.
    InUse,
    Failed,
}

/// What a launch does next.
#[derive(Clone, Copy, Debug, PartialEq, Eq, Structural)]
pub enum LaunchStep {
    /// Own the socket and listen for activations.
    StartPrimary,
    /// Ask whoever holds the socket to come forward.
    RequestActivation,
    /// Another instance answered: this one exits.
    BecomeSecondary,
    /// Nobody answered: the path was left by a crash; remove it and bind again.
    RecoverStaleSocket,
    Fail,
}

pub fn after_bind(outcome: BindOutcome) -> (r: LaunchStep)
    ensures
        r == match outcome {
            BindOutcome::Bound => LaunchStep::StartPrimary,
            BindOutcome::InUse => LaunchStep::RequestActivation,
            BindOutcome::Failed => LaunchStep::Fail,
        },
{
    match outcome {
        BindOutcome::Bound => LaunchStep::StartPrimary,
        BindOutcome::InUse => LaunchStep::RequestActivation,
        BindOutcome::Failed => LaunchStep::Fail,
    }
}

pub fn after_activation_request(answered: bool) -> (r: LaunchStep)
    ensures
        r == if answered { LaunchStep::BecomeSecondary } else { LaunchStep::RecoverStaleSocket },
{
    if answered {
        LaunchStep::BecomeSecondary
    } else {
        LaunchStep::RecoverStaleSocket
    }
}

/// After removing a stale path, a second bind that fails ends the launch.
pub fn after_recovery_bind(outcome: BindOutcome) -> (r: LaunchStep)
    ensures
        r == if outcome == BindOutcome::Bound { LaunchStep::StartPrimary } else { LaunchStep::Fail },
{
    if outcome == BindOutcome::Bound {
        LaunchStep::StartPrimary
    } else {
        LaunchStep::Fail
    }
}

} // verus!
