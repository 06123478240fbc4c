//! The restore planner: from a request to the fixed sequence of restore steps.

use crate::capsule::{domain_of, Capsule, CapsuleView};
use vstd::prelude::*;

verus! {

/// The kind of signal that asks for a restore.
#[derive(Debug, Clone, Copy, PartialEq, Eq, Structural)]
pub enum SignalType {
    NeedsDecision,
    CriticalFailure,
    PassiveCompletion,
}

/// The surfaces that a restore brings back.
#[derive(Debug, PartialEq, Eq)]
pub struct RestoreSurfaces {
    pub terminal_cmd: String,
    pub editor_target: String,
    pub browser_url: String,
}

pub struct RestoreSurfacesView {
    pub terminal_cmd: Seq<char>,
    pub editor_target: Seq<char>,
    pub browser_url: Seq<char>,
}

impl View for RestoreSurfaces {
    type V = RestoreSurfacesView;

    open spec fn view(&self) -> RestoreSurfacesView {
        RestoreSurfacesView {
            terminal_cmd: self.terminal_cmd@,
            editor_target: self.editor_target@,
            browser_url: self.browser_url@,
        }
    }
}

impl Clone for RestoreSurfaces {
    fn clone(&self) -> (copy: Self)
        ensures
            copy@ == self@,
    {
        RestoreSurfaces {
            terminal_cmd: self.terminal_cmd.clone(),
            editor_target: self.editor_target.clone(),
            browser_url: self.browser_url.clone(),
        }
    }
}

/// One request to restore a capsule.
#[derive(Debug, PartialEq, Eq)]
pub struct RestoreRequest {
    pub capsule: Capsule,
    pub signal: SignalType,
    pub surfaces: RestoreSurfaces,
}

pub struct RestoreRequestView {
    pub capsule: CapsuleView,
    pub signal: SignalType,
    pub surfaces: RestoreSurfacesView,
}

impl View for RestoreRequest {
    type V = RestoreRequestView;

    open spec fn view(&self) -> RestoreRequestView {
        RestoreRequestView {
            capsule: self.capsule@,
            signal: self.signal,
            surfaces: self.surfaces@,
        }
    }
}

impl Clone for RestoreRequest {
    fn clone(&self) -> (copy: Self)
        ensures
            copy@ == self@,
    {
        RestoreRequest {
            capsule: self.capsule.clone(),
            signal: self.signal,
            surfaces: self.surfaces.clone(),
        }
    }
}

/// One step of a restore.
#[derive(Debug, PartialEq, Eq)]
pub enum RestoreStep {
    EnsureRouting(String),
    FocusWorkspace(u16),
    LaunchTerminal(String),
    LaunchEditor(String),
    LaunchBrowser(String),
    PresentAttention(String),
}

pub enum RestoreStepView {
    EnsureRouting(Seq<char>),
    FocusWorkspace(u16),
    LaunchTerminal(Seq<char>),
    LaunchEditor(Seq<char>),
    LaunchBrowser(Seq<char>),
    PresentAttention(Seq<char>),
}

impl View for RestoreStep {
    type V = RestoreStepView;

    open spec fn view(&self) -> RestoreStepView {
        match self {
            RestoreStep::EnsureRouting(domain) => RestoreStepView::EnsureRouting(domain@),
            RestoreStep::FocusWorkspace(workspace) => RestoreStepView::FocusWorkspace(*workspace),
            RestoreStep::LaunchTerminal(command) => RestoreStepView::LaunchTerminal(command@),
            RestoreStep::LaunchEditor(target) => RestoreStepView::LaunchEditor(target@),
            RestoreStep::LaunchBrowser(url) => RestoreStepView::LaunchBrowser(url@),
            RestoreStep::PresentAttention(level) => RestoreStepView::PresentAttention(level@),
        }
    }
}

impl DeepView for RestoreStep {
    type V = RestoreStepView;

    open spec fn deep_view(&self) -> RestoreStepView {
        self@
    }
}

impl Clone for RestoreStep {
    fn clone(&self) -> (copy: Self)
        ensures
            copy@ == self@,
    {
        match self {
            RestoreStep::EnsureRouting(domain) => RestoreStep::EnsureRouting(domain.clone()),
            RestoreStep::FocusWorkspace(workspace) => RestoreStep::FocusWorkspace(*workspace),
            RestoreStep::LaunchTerminal(command) => RestoreStep::LaunchTerminal(command.clone()),
            RestoreStep::LaunchEditor(target) => RestoreStep::LaunchEditor(target.clone()),
            RestoreStep::LaunchBrowser(url) => RestoreStep::LaunchBrowser(url.clone()),
            RestoreStep::PresentAttention(level) => RestoreStep::PresentAttention(level.clone()),
        }
    }
}

/// The plan of one restore.
#[derive(Debug, PartialEq, Eq)]
pub struct RestorePlan {
    pub capsule_id: String,
    pub signal: SignalType,
    pub target_budget_ms: u64,
    pub steps: Vec<RestoreStep>,
}

pub struct RestorePlanView {
    pub capsule_id: Seq<char>,
    pub signal: SignalType,
    pub target_budget_ms: u64,
    pub steps: Seq<RestoreStepView>,
}

impl View for RestorePlan {
    type V = RestorePlanView;

    open spec fn view(&self) -> RestorePlanView {
        RestorePlanView {
            capsule_id: self.capsule_id@,
            signal: self.signal,
            target_budget_ms: self.target_budget_ms,
            steps: self.steps.deep_view(),
        }
    }
}

/// The advisory time budget of a restore, in milliseconds.
pub const TARGET_BUDGET_MS: u64 = 9_500;

/// The wire name of a signal.
pub open spec fn signal_text(signal: SignalType) -> Seq<char> {
    match signal {
        SignalType::NeedsDecision => "needs_decision"@,
        SignalType::CriticalFailure => "critical_failure"@,
        SignalType::PassiveCompletion => "passive_completion"@,
    }
}

/// The signal that a wire name stands for, if any.
pub open spec fn signal_named(name: Seq<char>) -> Option<SignalType> {
    if name == "needs_decision"@ {
        Some(SignalType::NeedsDecision)
    } else if name == "critical_failure"@ {
        Some(SignalType::CriticalFailure)
    } else if name == "passive_completion"@ {
        Some(SignalType::PassiveCompletion)
    } else {
        None
    }
}

/// The wire name of a signal.
pub fn signal_to_str(signal: SignalType) -> (name: &'static str)
    ensures
        name@ == signal_text(signal),
{
    match signal {
        SignalType::NeedsDecision => "needs_decision",
        SignalType::CriticalFailure => "critical_failure",
        SignalType::PassiveCompletion => "passive_completion",
    }
}

/// The six steps of a restore, in their fixed order.
pub open spec fn restore_steps(request: RestoreRequestView) -> Seq<RestoreStepView> {
    seq![
        RestoreStepView::EnsureRouting(domain_of(request.capsule.slug)),
        RestoreStepView::FocusWorkspace(request.capsule.workspace),
        RestoreStepView::LaunchTerminal(request.surfaces.terminal_cmd),
        RestoreStepView::LaunchEditor(request.surfaces.editor_target),
        RestoreStepView::LaunchBrowser(request.surfaces.browser_url),
        RestoreStepView::PresentAttention(signal_text(request.signal)),
    ]
}

/// The plan for a request.
pub open spec fn restore_plan_of(request: RestoreRequestView) -> RestorePlanView {
    RestorePlanView {
        capsule_id: request.capsule.capsule_id,
        signal: request.signal,
        target_budget_ms: TARGET_BUDGET_MS,
        steps: restore_steps(request),
    }
}

/// Plans a restore: routing, workspace, terminal, editor, browser, attention,
/// in that order, under the advisory budget.
pub fn build_restore_plan(request: &RestoreRequest) -> (plan: RestorePlan)
    ensures
        plan@ == restore_plan_of(request@),
{
    let mut steps: Vec<RestoreStep> = Vec::new();
    steps.push(RestoreStep::EnsureRouting(request.capsule.domain()));
    steps.push(RestoreStep::FocusWorkspace(request.capsule.workspace));
    steps.push(RestoreStep::LaunchTerminal(request.surfaces.terminal_cmd.clone()));
    steps.push(RestoreStep::LaunchEditor(request.surfaces.editor_target.clone()));
    steps.push(RestoreStep::LaunchBrowser(request.surfaces.browser_url.clone()));
    steps.push(RestoreStep::PresentAttention(String::from_str(signal_to_str(request.signal))));
    assert(steps.deep_view() =~= restore_steps(request@));
    RestorePlan {
        capsule_id: request.capsule.capsule_id.clone(),
        signal: request.signal,
        target_budget_ms: TARGET_BUDGET_MS,
        steps,
    }
}

/// Reads a signal from its wire name; the error says which name was refused.
pub fn parse_signal(input: &str) -> (signal: Result<SignalType, String>)
    ensures
        match signal {
            Ok(s) => signal_named(input@) == Some(s),
            Err(message) => signal_named(input@) is None && message@ == "invalid signal: "@ + input@,
        },
{
    if crate::text::text_eq(input, "needs_decision") {
        Ok(SignalType::NeedsDecision)
    } else if crate::text::text_eq(input, "critical_failure") {
        Ok(SignalType::CriticalFailure)
    } else if crate::text::text_eq(input, "passive_completion") {
        Ok(SignalType::PassiveCompletion)
    } else {
        Err(crate::text::conjoin("invalid signal: ", input))
    }
}

} // verus!
