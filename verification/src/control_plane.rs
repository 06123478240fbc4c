//! The control plane's view of a restore: routing, desktop and attention in
//! one ordered execution plan.

use crate::attention::{
    channel_of, needs_ack, priority_of, AttentionChannel, AttentionEvent, AttentionPolicy,
    AttentionPriority,
};
use crate::capsule::domain_of;
use crate::restore::{
    build_restore_plan, RestoreRequest, RestoreRequestView, RestoreStep, SignalType,
    TARGET_BUDGET_MS,
};
use crate::shell::{build_niri_shell_plan, lemma_shell_plan_of_restore, NiriShellCommand};
use vstd::prelude::*;

verus! {

/// One step of an execution plan.
#[derive(Debug, PartialEq, Eq)]
pub enum ExecutionStep {
    EnsureRoute { domain: String },
    ShellFocusWorkspace(u16),
    ShellSpawnTerminal(String),
    ShellSpawnEditor(String),
    ShellSpawnBrowser(String),
    EmitAttention { priority: String, channel: String, requires_ack: bool, summary: String },
}

pub enum ExecutionStepView {
    EnsureRoute { domain: Seq<char> },
    ShellFocusWorkspace(u16),
    ShellSpawnTerminal(Seq<char>),
    ShellSpawnEditor(Seq<char>),
    ShellSpawnBrowser(Seq<char>),
    EmitAttention {
        priority: Seq<char>,
        channel: Seq<char>,
        requires_ack: bool,
        summary: Seq<char>,
    },
}

impl View for ExecutionStep {
    type V = ExecutionStepView;

    open spec fn view(&self) -> ExecutionStepView {
        match self {
            ExecutionStep::EnsureRoute { domain } => ExecutionStepView::EnsureRoute {
                domain: domain@,
            },
            ExecutionStep::ShellFocusWorkspace(workspace) => ExecutionStepView::ShellFocusWorkspace(
                *workspace,
            ),
            ExecutionStep::ShellSpawnTerminal(command) => ExecutionStepView::ShellSpawnTerminal(
                command@,
            ),
            ExecutionStep::ShellSpawnEditor(target) => ExecutionStepView::ShellSpawnEditor(target@),
            ExecutionStep::ShellSpawnBrowser(url) => ExecutionStepView::ShellSpawnBrowser(url@),
            ExecutionStep::EmitAttention {
                priority,
                channel,
                requires_ack,
                summary,
            } => ExecutionStepView::EmitAttention {
                priority: priority@,
                channel: channel@,
                requires_ack: *requires_ack,
                summary: summary@,
            },
        }
    }
}

impl DeepView for ExecutionStep {
    type V = ExecutionStepView;

    open spec fn deep_view(&self) -> ExecutionStepView {
        self@
    }
}

/// The execution plan of one restore.
#[derive(Debug, PartialEq, Eq)]
pub struct ExecutionPlan {
    pub capsule_id: String,
    pub target_budget_ms: u64,
    pub steps: Vec<ExecutionStep>,
}

pub struct ExecutionPlanView {
    pub capsule_id: Seq<char>,
    pub target_budget_ms: u64,
    pub steps: Seq<ExecutionStepView>,
}

impl View for ExecutionPlan {
    type V = ExecutionPlanView;

    open spec fn view(&self) -> ExecutionPlanView {
        ExecutionPlanView {
            capsule_id: self.capsule_id@,
            target_budget_ms: self.target_budget_ms,
            steps: self.steps.deep_view(),
        }
    }
}

/// The line that describes a signal.
pub open spec fn signal_summary(signal: SignalType) -> Seq<char> {
    match signal {
        SignalType::NeedsDecision => "decision needed"@,
        SignalType::CriticalFailure => "critical failure"@,
        SignalType::PassiveCompletion => "passive completion"@,
    }
}

/// The wire name of a priority.
pub open spec fn priority_text(priority: AttentionPriority) -> Seq<char> {
    match priority {
        AttentionPriority::Blocking => "blocking"@,
        AttentionPriority::Active => "active"@,
        AttentionPriority::Passive => "passive"@,
    }
}

/// The wire name of a channel.
pub open spec fn channel_text(channel: AttentionChannel) -> Seq<char> {
    match channel {
        AttentionChannel::BannerAndSound => "banner_and_sound"@,
        AttentionChannel::Banner => "banner"@,
        AttentionChannel::Feed => "feed"@,
    }
}

/// The six steps of an execution plan: the route, the four desktop commands
/// that open something, and the attention that the signal calls for.
pub open spec fn execution_steps(request: RestoreRequestView) -> Seq<ExecutionStepView> {
    seq![
        ExecutionStepView::EnsureRoute { domain: domain_of(request.capsule.slug) },
        ExecutionStepView::ShellFocusWorkspace(request.capsule.workspace),
        ExecutionStepView::ShellSpawnTerminal(request.surfaces.terminal_cmd),
        ExecutionStepView::ShellSpawnEditor(request.surfaces.editor_target),
        ExecutionStepView::ShellSpawnBrowser(request.surfaces.browser_url),
        ExecutionStepView::EmitAttention {
            priority: priority_text(priority_of(request.signal)),
            channel: channel_text(channel_of(request.signal)),
            requires_ack: needs_ack(request.signal),
            summary: signal_summary(request.signal),
        },
    ]
}

/// The line that describes a signal.
fn summarize_signal(signal: SignalType) -> (summary: String)
    ensures
        summary@ == signal_summary(signal),
{
    match signal {
        SignalType::NeedsDecision => String::from_str("decision needed"),
        SignalType::CriticalFailure => String::from_str("critical failure"),
        SignalType::PassiveCompletion => String::from_str("passive completion"),
    }
}

/// The wire name of the priority of a signal.
fn to_priority_label(signal: SignalType) -> (label: String)
    ensures
        label@ == priority_text(priority_of(signal)),
{
    match signal {
        SignalType::CriticalFailure => String::from_str("blocking"),
        SignalType::NeedsDecision => String::from_str("active"),
        SignalType::PassiveCompletion => String::from_str("passive"),
    }
}

/// The wire name of the channel of a signal.
fn to_channel_label(signal: SignalType) -> (label: String)
    ensures
        label@ == channel_text(channel_of(signal)),
{
    match signal {
        SignalType::CriticalFailure => String::from_str("banner_and_sound"),
        SignalType::NeedsDecision => String::from_str("banner"),
        SignalType::PassiveCompletion => String::from_str("feed"),
    }
}

/// Plans the execution of a restore: first the route, then the desktop
/// commands but for the notification, and last the attention that the policy
/// gives the signal, under the advisory budget.
pub fn build_execution_plan(request: &RestoreRequest) -> (plan: ExecutionPlan)
    ensures
        plan@ == (ExecutionPlanView {
            capsule_id: request.capsule.capsule_id@,
            target_budget_ms: TARGET_BUDGET_MS,
            steps: execution_steps(request@),
        }),
{
    let restore = build_restore_plan(request);
    let shell = build_niri_shell_plan(&restore);
    proof {
        lemma_shell_plan_of_restore(request@);
    }
    let policy = AttentionPolicy;
    let attention = policy.route(
        &AttentionEvent {
            capsule_id: request.capsule.capsule_id.clone(),
            signal: request.signal,
            summary: summarize_signal(request.signal),
        },
    );

    let mut steps: Vec<ExecutionStep> = Vec::new();
    let mut i: usize = 0;
    while i < restore.steps.len()
        invariant
            i <= restore.steps.len(),
            restore@.steps == crate::restore::restore_steps(request@),
            steps.deep_view() == execution_steps(request@).take(
                if i == 0 {
                    0int
                } else {
                    1int
                },
            ),
        decreases restore.steps.len() - i,
    {
        proof {
            let planned = crate::restore::restore_steps(request@);
            assert(restore.steps[i as int]@ == planned[i as int]);
            assert(planned.len() == 6);
            assert(planned[0] is EnsureRouting);
            assert(planned[1] is FocusWorkspace);
            assert(planned[2] is LaunchTerminal);
            assert(planned[3] is LaunchEditor);
            assert(planned[4] is LaunchBrowser);
            assert(planned[5] is PresentAttention);
        }
        match &restore.steps[i] {
            RestoreStep::EnsureRouting(domain) => {
                assert(i == 0);
                let ghost before = steps.deep_view();
                steps.push(ExecutionStep::EnsureRoute { domain: domain.clone() });
                assert(steps.deep_view() =~= before.push(
                    ExecutionStepView::EnsureRoute { domain: domain@ },
                ));
                assert(execution_steps(request@)[0] == (ExecutionStepView::EnsureRoute {
                    domain: domain@,
                }));
                assert(steps.deep_view() =~= execution_steps(request@).take(1));
            },
            _ => {},
        }
        i += 1;
    }
    assert(steps.deep_view() =~= execution_steps(request@).take(1));
    let mut k: usize = 0;
    while k < shell.commands.len()
        invariant
            k <= shell.commands.len(),
            shell@.commands == crate::shell::restore_commands(request@),
            steps.deep_view() == execution_steps(request@).take(
                if k <= 4 {
                    k + 1
                } else {
                    5int
                },
            ),
        decreases shell.commands.len() - k,
    {
        proof {
            let planned = crate::shell::restore_commands(request@);
            assert(shell.commands[k as int]@ == planned[k as int]);
            assert(planned.len() == 5);
            assert(planned[0] is FocusWorkspace);
            assert(planned[1] is SpawnTerminal);
            assert(planned[2] is SpawnEditor);
            assert(planned[3] is SpawnBrowser);
            assert(planned[4] is RaiseAttention);
        }
        let ghost before = steps.deep_view();
        match &shell.commands[k] {
            NiriShellCommand::FocusWorkspace(id) => {
                steps.push(ExecutionStep::ShellFocusWorkspace(*id));
            },
            NiriShellCommand::SpawnTerminal(cmd) => {
                steps.push(ExecutionStep::ShellSpawnTerminal(cmd.clone()));
            },
            NiriShellCommand::SpawnEditor(target) => {
                steps.push(ExecutionStep::ShellSpawnEditor(target.clone()));
            },
            NiriShellCommand::SpawnBrowser(url) => {
                steps.push(ExecutionStep::ShellSpawnBrowser(url.clone()));
            },
            NiriShellCommand::RaiseAttention(_) => {},
        }
        proof {
            if k < 4 {
                assert(steps.deep_view() =~= before.push(execution_steps(request@)[k + 1]));
            }
            assert(steps.deep_view() =~= execution_steps(request@).take(
                if k + 1 <= 4 {
                    k + 2
                } else {
                    5int
                },
            ));
        }
        k += 1;
    }
    let ghost before = steps.deep_view();
    steps.push(
        ExecutionStep::EmitAttention {
            priority: to_priority_label(request.signal),
            channel: to_channel_label(request.signal),
            requires_ack: attention.requires_ack,
            summary: attention.summary,
        },
    );
    assert(steps.deep_view() =~= before.push(execution_steps(request@)[5]));
    assert(steps.deep_view() =~= execution_steps(request@));
    ExecutionPlan {
        capsule_id: restore.capsule_id,
        target_budget_ms: restore.target_budget_ms,
        steps,
    }
}

} // verus!
