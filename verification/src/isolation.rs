//! Isolation policy: when a capsule must run in an isolated shell.

use crate::capsule::CapsuleMode;
use vstd::prelude::*;

verus! {

/// The three signals that can force isolation.
#[derive(Debug, Clone, Copy, PartialEq, Eq, Structural)]
pub struct IsolationInput {
    pub identity_collision_detected: bool,
    pub high_risk_secret_workflow: bool,
    pub force_isolated_mode: bool,
}

/// The mode that the policy selects for `input`.
pub open spec fn selected_mode(input: IsolationInput) -> CapsuleMode {
    if input.identity_collision_detected || input.high_risk_secret_workflow
        || input.force_isolated_mode {
        CapsuleMode::IsolatedNixShell
    } else {
        CapsuleMode::HostDefault
    }
}

/// Isolated as soon as one signal is set, the host's default otherwise.
pub fn select_capsule_mode(input: &IsolationInput) -> (mode: CapsuleMode)
    ensures
        mode == selected_mode(*input),
{
    if input.identity_collision_detected || input.high_risk_secret_workflow
        || input.force_isolated_mode {
        return CapsuleMode::IsolatedNixShell;
    }
    CapsuleMode::HostDefault
}

} // verus!
