//! The cutover gate: whether a capability may pass from the legacy path to the
//! new control plane, and what that does to the flags.

use crate::flags::{with_flag, CutoverFlags, FlagName};
use crate::score::{below, in_unit_interval, is_finite, Score, ScoreView};
use crate::text::{decimal, push_decimal, text_eq, unless};
use vstd::prelude::*;

verus! {

/// What can be cut over.
#[derive(Debug, Clone, Copy, PartialEq, Eq, Structural)]
pub enum Capability {
    Routing,
    Restore,
    Attention,
}

/// What a cutover is decided on.
#[derive(Debug, PartialEq, Eq)]
pub struct CutoverInput {
    pub capability: Capability,
    pub parity_score: Score,
    pub min_parity_score: Score,
    pub critical_events: u32,
    pub max_critical_events: u32,
    pub shadow_mode_enabled: bool,
}

pub struct CutoverInputView {
    pub capability: Capability,
    pub parity_score: ScoreView,
    pub min_parity_score: ScoreView,
    pub critical_events: u32,
    pub max_critical_events: u32,
    pub shadow_mode_enabled: bool,
}

impl View for CutoverInput {
    type V = CutoverInputView;

    open spec fn view(&self) -> CutoverInputView {
        CutoverInputView {
            capability: self.capability,
            parity_score: self.parity_score@,
            min_parity_score: self.min_parity_score@,
            critical_events: self.critical_events,
            max_critical_events: self.max_critical_events,
            shadow_mode_enabled: self.shadow_mode_enabled,
        }
    }
}

impl Clone for CutoverInput {
    fn clone(&self) -> (copy: Self)
        ensures
            copy@ == self@,
    {
        CutoverInput {
            capability: self.capability,
            parity_score: self.parity_score.clone(),
            min_parity_score: self.min_parity_score.clone(),
            critical_events: self.critical_events,
            max_critical_events: self.max_critical_events,
            shadow_mode_enabled: self.shadow_mode_enabled,
        }
    }
}

/// The decision on a cutover.
#[derive(Debug, PartialEq, Eq)]
pub struct CutoverDecision {
    pub capability: Capability,
    pub allowed: bool,
    pub reasons: Vec<String>,
    pub flag_to_enable: Option<String>,
}

pub struct CutoverDecisionView {
    pub capability: Capability,
    pub allowed: bool,
    pub reasons: Seq<Seq<char>>,
    pub flag_to_enable: Option<Seq<char>>,
}

impl View for CutoverDecision {
    type V = CutoverDecisionView;

    open spec fn view(&self) -> CutoverDecisionView {
        CutoverDecisionView {
            capability: self.capability,
            allowed: self.allowed,
            reasons: self.reasons.deep_view(),
            flag_to_enable: match self.flag_to_enable {
                Some(flag) => Some(flag@),
                None => None,
            },
        }
    }
}

/// The flag of a capability.
pub open spec fn flag_of(capability: Capability) -> FlagName {
    match capability {
        Capability::Routing => FlagName::RoutingControlPlane,
        Capability::Restore => FlagName::RestoreControlPlane,
        Capability::Attention => FlagName::AttentionControlPlane,
    }
}

/// The name of the flag of a capability.
pub open spec fn flag_text(capability: Capability) -> Seq<char> {
    match capability {
        Capability::Routing => "routing_control_plane"@,
        Capability::Restore => "restore_control_plane"@,
        Capability::Attention => "attention_control_plane"@,
    }
}

/// The capability that a name stands for, if any.
pub open spec fn capability_named(name: Seq<char>) -> Option<Capability> {
    if name == "routing"@ {
        Some(Capability::Routing)
    } else if name == "restore"@ {
        Some(Capability::Restore)
    } else if name == "attention"@ {
        Some(Capability::Attention)
    } else {
        None
    }
}

/// The parity gate: both scores finite, both from 0 to 1, and the score not
/// below the threshold.
pub open spec fn parity_gate(input: CutoverInputView) -> bool {
    &&& is_finite(input.parity_score.bits)
    &&& is_finite(input.min_parity_score.bits)
    &&& in_unit_interval(input.parity_score.bits)
    &&& in_unit_interval(input.min_parity_score.bits)
    &&& !below(input.parity_score.bits, input.min_parity_score.bits)
}

/// The error gate: no more critical events than are allowed.
pub open spec fn error_gate(input: CutoverInputView) -> bool {
    input.critical_events <= input.max_critical_events
}

/// Whether every gate passes.
pub open spec fn gates_pass(input: CutoverInputView) -> bool {
    input.shadow_mode_enabled && parity_gate(input) && error_gate(input)
}

/// Why the parity gate fails: the first of its three conditions that does
/// not hold.
pub open spec fn parity_reason(input: CutoverInputView) -> Seq<char> {
    if !is_finite(input.parity_score.bits) || !is_finite(input.min_parity_score.bits) {
        "parity values must be finite"@
    } else if !in_unit_interval(input.parity_score.bits) || !in_unit_interval(
        input.min_parity_score.bits,
    ) {
        "parity values must be between 0 and 1"@
    } else {
        "parity below threshold: "@ + input.parity_score.label + " < "@
            + input.min_parity_score.label
    }
}

/// Why the error gate fails.
pub open spec fn error_reason(input: CutoverInputView) -> Seq<char> {
    "critical events exceeded: "@ + decimal(input.critical_events as nat) + " > "@ + decimal(
        input.max_critical_events as nat,
    )
}

/// One reason for each gate that fails: shadow mode, parity, errors.
pub open spec fn denial_reasons(input: CutoverInputView) -> Seq<Seq<char>> {
    unless(input.shadow_mode_enabled, "shadow_mode must be enabled"@) + unless(
        parity_gate(input),
        parity_reason(input),
    ) + unless(error_gate(input), error_reason(input))
}

/// The decision on an input.
pub open spec fn decision_of(input: CutoverInputView) -> CutoverDecisionView {
    CutoverDecisionView {
        capability: input.capability,
        allowed: gates_pass(input),
        reasons: denial_reasons(input),
        flag_to_enable: if gates_pass(input) {
            Some(flag_text(input.capability))
        } else {
            None
        },
    }
}

/// The flag of a capability.
pub fn capability_flag_name(capability: Capability) -> (flag: FlagName)
    ensures
        flag == flag_of(capability),
{
    match capability {
        Capability::Routing => FlagName::RoutingControlPlane,
        Capability::Restore => FlagName::RestoreControlPlane,
        Capability::Attention => FlagName::AttentionControlPlane,
    }
}

/// The name of the flag of a capability.
pub fn capability_flag(capability: Capability) -> (flag: &'static str)
    ensures
        flag@ == flag_text(capability),
{
    match capability {
        Capability::Routing => "routing_control_plane",
        Capability::Restore => "restore_control_plane",
        Capability::Attention => "attention_control_plane",
    }
}

/// Reads a capability from its name.
pub fn parse_capability(input: &str) -> (capability: Option<Capability>)
    ensures
        capability == capability_named(input@),
{
    if text_eq(input, "routing") {
        Some(Capability::Routing)
    } else if text_eq(input, "restore") {
        Some(Capability::Restore)
    } else if text_eq(input, "attention") {
        Some(Capability::Attention)
    } else {
        None
    }
}

/// Decides on a cutover. It is allowed exactly when shadow mode is on, the
/// parity gate passes and the error gate passes; each gate that fails gives
/// one reason, and an allowed cutover names the flag to set.
pub fn evaluate_cutover(input: &CutoverInput) -> (decision: CutoverDecision)
    ensures
        decision@ == decision_of(input@),
{
    let mut reasons: Vec<String> = Vec::new();

    if !input.shadow_mode_enabled {
        reasons.push(String::from_str("shadow_mode must be enabled"));
    }
    let ghost reasons1 = reasons.deep_view();
    assert(reasons1 =~= unless(input.shadow_mode_enabled, "shadow_mode must be enabled"@));

    if !input.parity_score.is_finite() || !input.min_parity_score.is_finite() {
        reasons.push(String::from_str("parity values must be finite"));
    } else if !input.parity_score.in_unit_interval() || !input.min_parity_score.in_unit_interval() {
        reasons.push(String::from_str("parity values must be between 0 and 1"));
    } else if input.parity_score.below(&input.min_parity_score) {
        let mut reason = String::from_str("parity below threshold: ");
        reason.append(input.parity_score.label.as_str());
        reason.append(" < ");
        reason.append(input.min_parity_score.label.as_str());
        reasons.push(reason);
    }
    let ghost reasons2 = reasons.deep_view();
    assert(reasons2 =~= reasons1 + unless(parity_gate(input@), parity_reason(input@)));

    if input.critical_events > input.max_critical_events {
        let mut reason = String::from_str("critical events exceeded: ");
        push_decimal(&mut reason, input.critical_events as u64);
        reason.append(" > ");
        push_decimal(&mut reason, input.max_critical_events as u64);
        reasons.push(reason);
    }
    assert(reasons.deep_view() =~= denial_reasons(input@));

    let allowed = reasons.len() == 0;
    let flag_to_enable = if allowed {
        Some(String::from_str(capability_flag(input.capability)))
    } else {
        None
    };
    CutoverDecision { capability: input.capability, allowed, reasons, flag_to_enable }
}

/// Sets the flag of `capability` where the decision allows the cutover, and
/// changes nothing where it does not.
pub fn apply_cutover(flags: &mut CutoverFlags, decision: &CutoverDecision, capability: Capability)
    ensures
        *final(flags) == if decision.allowed {
            with_flag(*old(flags), flag_of(capability), true)
        } else {
            *old(flags)
        },
{
    if !decision.allowed {
        return ;
    }
    flags.set(capability_flag_name(capability), true);
}

/// Clears the flag of `capability`, whatever it was.
pub fn rollback_cutover(flags: &mut CutoverFlags, capability: Capability)
    ensures
        *final(flags) == with_flag(*old(flags), flag_of(capability), false),
{
    flags.set(capability_flag_name(capability), false);
}

/// A cutover is allowed exactly when no reason is given against it.
pub proof fn lemma_allowed_iff_no_reason(input: CutoverInputView)
    ensures
        decision_of(input).allowed <==> decision_of(input).reasons.len() == 0,
        decision_of(input).allowed <==> decision_of(input).flag_to_enable is Some,
{
}

/// Applying a decision touches no flag but that of the capability, and never
/// shadow mode; a rollback after it leaves that flag cleared.
pub proof fn lemma_apply_then_rollback(flags: CutoverFlags, capability: Capability)
    ensures
        with_flag(flags, flag_of(capability), true).shadow_mode == flags.shadow_mode,
        with_flag(with_flag(flags, flag_of(capability), true), flag_of(capability), false)
            == with_flag(flags, flag_of(capability), false),
{
}

} // verus!
