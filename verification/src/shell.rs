//! The desktop plan: the window-manager commands of a restore, their text
//! form, and an executor that stops at the first command that fails.

use crate::restore::{
    restore_steps, signal_text, RestorePlan, RestoreRequestView, RestoreStep, RestoreStepView,
};
use crate::text::{chars_of, decimal, join, joined, push_char, push_decimal};
use vstd::prelude::*;

verus! {

/// One command to the desktop.
#[derive(Debug, PartialEq, Eq)]
pub enum NiriShellCommand {
    FocusWorkspace(u16),
    SpawnTerminal(String),
    SpawnEditor(String),
    SpawnBrowser(String),
    RaiseAttention(String),
}

pub enum NiriShellCommandView {
    FocusWorkspace(u16),
    SpawnTerminal(Seq<char>),
    SpawnEditor(Seq<char>),
    SpawnBrowser(Seq<char>),
    RaiseAttention(Seq<char>),
}

impl View for NiriShellCommand {
    type V = NiriShellCommandView;

    open spec fn view(&self) -> NiriShellCommandView {
        match self {
            NiriShellCommand::FocusWorkspace(workspace) => NiriShellCommandView::FocusWorkspace(
                *workspace,
            ),
            NiriShellCommand::SpawnTerminal(command) => NiriShellCommandView::SpawnTerminal(
                command@,
            ),
            NiriShellCommand::SpawnEditor(target) => NiriShellCommandView::SpawnEditor(target@),
            NiriShellCommand::SpawnBrowser(url) => NiriShellCommandView::SpawnBrowser(url@),
            NiriShellCommand::RaiseAttention(level) => NiriShellCommandView::RaiseAttention(level@),
        }
    }
}

impl DeepView for NiriShellCommand {
    type V = NiriShellCommandView;

    open spec fn deep_view(&self) -> NiriShellCommandView {
        self@
    }
}

impl Clone for NiriShellCommand {
    fn clone(&self) -> (copy: Self)
        ensures
            copy@ == self@,
    {
        match self {
            NiriShellCommand::FocusWorkspace(workspace) => NiriShellCommand::FocusWorkspace(
                *workspace,
            ),
            NiriShellCommand::SpawnTerminal(command) => NiriShellCommand::SpawnTerminal(
                command.clone(),
            ),
            NiriShellCommand::SpawnEditor(target) => NiriShellCommand::SpawnEditor(target.clone()),
            NiriShellCommand::SpawnBrowser(url) => NiriShellCommand::SpawnBrowser(url.clone()),
            NiriShellCommand::RaiseAttention(level) => NiriShellCommand::RaiseAttention(
                level.clone(),
            ),
        }
    }
}

/// The commands of one restore, and the workspace they run on.
#[derive(Debug, PartialEq, Eq)]
pub struct NiriShellPlan {
    pub workspace: u16,
    pub commands: Vec<NiriShellCommand>,
}

pub struct NiriShellPlanView {
    pub workspace: u16,
    pub commands: Seq<NiriShellCommandView>,
}

impl View for NiriShellPlan {
    type V = NiriShellPlanView;

    open spec fn view(&self) -> NiriShellPlanView {
        NiriShellPlanView { workspace: self.workspace, commands: self.commands.deep_view() }
    }
}

/// What an executor did: the commands that ran, in order.
#[derive(Debug, PartialEq, Eq)]
pub struct ShellExecutionReport {
    pub workspace: u16,
    pub executed: Vec<NiriShellCommand>,
}

pub struct ShellExecutionReportView {
    pub workspace: u16,
    pub executed: Seq<NiriShellCommandView>,
}

impl View for ShellExecutionReport {
    type V = ShellExecutionReportView;

    open spec fn view(&self) -> ShellExecutionReportView {
        ShellExecutionReportView { workspace: self.workspace, executed: self.executed.deep_view() }
    }
}

/// The one way in which an adapter fails: the named command did not run.
#[derive(Debug, PartialEq, Eq)]
pub enum ShellAdapterError {
    CommandFailed(String),
}

impl Clone for ShellAdapterError {
    fn clone(&self) -> (copy: Self)
        ensures
            copy.name()@ == self.name()@,
    {
        match self {
            ShellAdapterError::CommandFailed(name) => ShellAdapterError::CommandFailed(
                name.clone(),
            ),
        }
    }
}

impl ShellAdapterError {
    /// The name of the command that failed.
    pub open spec fn name(&self) -> String {
        match self {
            ShellAdapterError::CommandFailed(name) => *name,
        }
    }

    /// The error as one line: `command failed: ` and the command's name.
    pub fn message(&self) -> (line: String)
        ensures
            line@ == "command failed: "@ + self.name()@,
    {
        match self {
            ShellAdapterError::CommandFailed(name) => crate::text::conjoin(
                "command failed: ",
                name.as_str(),
            ),
        }
    }
}

/// How a command went, as plain values: nothing where it ran, the name in
/// the error where it failed.
pub open spec fn failure_of(outcome: Result<(), ShellAdapterError>) -> Option<Seq<char>> {
    match outcome {
        Ok(()) => None,
        Err(error) => Some(error.name()@),
    }
}

/// What runs desktop commands. Each method runs one command and says whether
/// it ran. An adapter keeps count of what it ran: a command that ran is added
/// at the end of `ran`, a command that failed leaves `ran` as it was. What an
/// adapter may answer to a command is its own to say, in `may_answer`, and
/// every answer that it gives is one of those.
pub trait NiriAdapter {
    /// The commands that this adapter ran, in the order in which it ran them.
    spec fn ran(&self) -> Seq<NiriShellCommandView>;

    /// Whether this adapter, as it stands, may answer `command` in this way:
    /// by running it, where `failure` is nothing, or by failing with the name
    /// that `failure` holds.
    spec fn may_answer(&self, command: NiriShellCommandView, failure: Option<Seq<char>>) -> bool;

    fn focus_workspace(&mut self, workspace: u16) -> (outcome: Result<(), ShellAdapterError>)
        ensures
            old(self).may_answer(NiriShellCommandView::FocusWorkspace(workspace), failure_of(outcome)),
            outcome is Ok ==> final(self).ran() == old(self).ran().push(
                NiriShellCommandView::FocusWorkspace(workspace),
            ),
            outcome is Err ==> final(self).ran() == old(self).ran(),
    ;

    fn spawn_terminal(&mut self, command: &str) -> (outcome: Result<(), ShellAdapterError>)
        ensures
            old(self).may_answer(NiriShellCommandView::SpawnTerminal(command@), failure_of(outcome)),
            outcome is Ok ==> final(self).ran() == old(self).ran().push(
                NiriShellCommandView::SpawnTerminal(command@),
            ),
            outcome is Err ==> final(self).ran() == old(self).ran(),
    ;

    fn spawn_editor(&mut self, target: &str) -> (outcome: Result<(), ShellAdapterError>)
        ensures
            old(self).may_answer(NiriShellCommandView::SpawnEditor(target@), failure_of(outcome)),
            outcome is Ok ==> final(self).ran() == old(self).ran().push(
                NiriShellCommandView::SpawnEditor(target@),
            ),
            outcome is Err ==> final(self).ran() == old(self).ran(),
    ;

    fn spawn_browser(&mut self, url: &str) -> (outcome: Result<(), ShellAdapterError>)
        ensures
            old(self).may_answer(NiriShellCommandView::SpawnBrowser(url@), failure_of(outcome)),
            outcome is Ok ==> final(self).ran() == old(self).ran().push(
                NiriShellCommandView::SpawnBrowser(url@),
            ),
            outcome is Err ==> final(self).ran() == old(self).ran(),
    ;

    fn raise_attention(&mut self, level: &str) -> (outcome: Result<(), ShellAdapterError>)
        ensures
            old(self).may_answer(NiriShellCommandView::RaiseAttention(level@), failure_of(outcome)),
            outcome is Ok ==> final(self).ran() == old(self).ran().push(
                NiriShellCommandView::RaiseAttention(level@),
            ),
            outcome is Err ==> final(self).ran() == old(self).ran(),
    ;
}

/// The desktop commands of a list of restore steps: routing is no desktop
/// command and is left out, every other step becomes one command.
pub open spec fn shell_commands(steps: Seq<RestoreStepView>) -> Seq<NiriShellCommandView>
    decreases steps.len(),
{
    if steps.len() == 0 {
        Seq::empty()
    } else {
        let before = shell_commands(steps.drop_last());
        match steps.last() {
            RestoreStepView::EnsureRouting(_) => before,
            RestoreStepView::FocusWorkspace(workspace) => before.push(
                NiriShellCommandView::FocusWorkspace(workspace),
            ),
            RestoreStepView::LaunchTerminal(command) => before.push(
                NiriShellCommandView::SpawnTerminal(command),
            ),
            RestoreStepView::LaunchEditor(target) => before.push(
                NiriShellCommandView::SpawnEditor(target),
            ),
            RestoreStepView::LaunchBrowser(url) => before.push(
                NiriShellCommandView::SpawnBrowser(url),
            ),
            RestoreStepView::PresentAttention(level) => before.push(
                NiriShellCommandView::RaiseAttention(level),
            ),
        }
    }
}

/// The workspace of a list of restore steps: that of its last focus step, and 1
/// where it has none.
pub open spec fn shell_workspace(steps: Seq<RestoreStepView>) -> u16
    decreases steps.len(),
{
    if steps.len() == 0 {
        1
    } else {
        match steps.last() {
            RestoreStepView::FocusWorkspace(workspace) => workspace,
            _ => shell_workspace(steps.drop_last()),
        }
    }
}

/// Turns a restore plan into desktop commands.
pub fn build_niri_shell_plan(restore: &RestorePlan) -> (plan: NiriShellPlan)
    ensures
        plan@ == (NiriShellPlanView {
            workspace: shell_workspace(restore@.steps),
            commands: shell_commands(restore@.steps),
        }),
{
    let mut workspace: u16 = 1;
    let mut commands: Vec<NiriShellCommand> = Vec::new();
    let mut i: usize = 0;
    while i < restore.steps.len()
        invariant
            i <= restore.steps.len(),
            workspace == shell_workspace(restore@.steps.take(i as int)),
            commands.deep_view() == shell_commands(restore@.steps.take(i as int)),
        decreases restore.steps.len() - i,
    {
        proof {
            let upto = restore@.steps.take(i + 1);
            assert(upto.drop_last() =~= restore@.steps.take(i as int));
            assert(upto.last() == restore.steps[i as int]@);
        }
        let ghost before = commands.deep_view();
        match &restore.steps[i] {
            RestoreStep::FocusWorkspace(id) => {
                workspace = *id;
                commands.push(NiriShellCommand::FocusWorkspace(*id));
            },
            RestoreStep::LaunchTerminal(cmd) => {
                commands.push(NiriShellCommand::SpawnTerminal(cmd.clone()));
            },
            RestoreStep::LaunchEditor(target) => {
                commands.push(NiriShellCommand::SpawnEditor(target.clone()));
            },
            RestoreStep::LaunchBrowser(url) => {
                commands.push(NiriShellCommand::SpawnBrowser(url.clone()));
            },
            RestoreStep::PresentAttention(level) => {
                commands.push(NiriShellCommand::RaiseAttention(level.clone()));
            },
            RestoreStep::EnsureRouting(_) => {},
        }
        assert(commands.deep_view() =~= shell_commands(restore@.steps.take(i + 1)));
        i += 1;
    }
    assert(restore@.steps.take(restore.steps.len() as int) =~= restore@.steps);
    NiriShellPlan { workspace, commands }
}

/// `s` with every single quote written as `'"'"'`.
pub open spec fn escaped(s: Seq<char>) -> Seq<char>
    decreases s.len(),
{
    if s.len() == 0 {
        Seq::empty()
    } else if s.last() == '\'' {
        escaped(s.drop_last()) + seq!['\'', '"', '\'', '"', '\'']
    } else {
        escaped(s.drop_last()).push(s.last())
    }
}

/// `s` as one word of a shell command: escaped, between single quotes.
pub open spec fn quoted(s: Seq<char>) -> Seq<char> {
    seq!['\''] + escaped(s) + seq!['\'']
}

/// The line of the script that runs one command.
pub open spec fn rendered_line(command: NiriShellCommandView) -> Seq<char> {
    match command {
        NiriShellCommandView::FocusWorkspace(workspace) => "niri msg action focus-workspace "@
            + decimal(workspace as nat),
        NiriShellCommandView::SpawnTerminal(command) => "wezterm start -- bash -lc "@ + quoted(
            command,
        ),
        NiriShellCommandView::SpawnEditor(target) => "code "@ + quoted(target),
        NiriShellCommandView::SpawnBrowser(url) => "xdg-open "@ + quoted(url),
        NiriShellCommandView::RaiseAttention(level) => "notify-send 'Nexum Attention' "@ + quoted(
            level,
        ),
    }
}

/// The lines of the script of a list of commands.
pub open spec fn rendered_lines(commands: Seq<NiriShellCommandView>) -> Seq<Seq<char>> {
    Seq::new(commands.len(), |i: int| rendered_line(commands[i]))
}

/// The script of a list of commands: one line for each, separated by line
/// feeds.
pub open spec fn rendered_script(commands: Seq<NiriShellCommandView>) -> Seq<char> {
    joined(rendered_lines(commands), seq!['\n'])
}

/// Appends `input` to `out` as one quoted word.
fn push_quoted(out: &mut String, input: &str)
    ensures
        final(out)@ == old(out)@ + quoted(input@),
{
    let chars = chars_of(input);
    push_char(out, '\'');
    let mut i: usize = 0;
    while i < chars.len()
        invariant
            i <= chars.len(),
            out@ == old(out)@ + seq!['\''] + escaped(chars@.take(i as int)),
        decreases chars.len() - i,
    {
        proof {
            let upto = chars@.take(i + 1);
            assert(upto.drop_last() =~= chars@.take(i as int));
            assert(upto.last() == chars@[i as int]);
        }
        let ghost before = out@;
        if chars[i] == '\'' {
            push_char(out, '\'');
            push_char(out, '"');
            push_char(out, '\'');
            push_char(out, '"');
            push_char(out, '\'');
            assert(out@ =~= before + seq!['\'', '"', '\'', '"', '\'']);
        } else {
            push_char(out, chars[i]);
        }
        assert(out@ =~= old(out)@ + seq!['\''] + escaped(chars@.take(i + 1)));
        i += 1;
    }
    assert(chars@.take(chars.len() as int) =~= chars@);
    push_char(out, '\'');
    assert(out@ =~= old(out)@ + quoted(input@));
}

/// The line of the script that runs one command.
pub fn render_command(command: &NiriShellCommand) -> (line: String)
    ensures
        line@ == rendered_line(command@),
{
    match command {
        NiriShellCommand::FocusWorkspace(id) => {
            let mut line = String::from_str("niri msg action focus-workspace ");
            push_decimal(&mut line, *id as u64);
            line
        },
        NiriShellCommand::SpawnTerminal(cmd) => {
            let mut line = String::from_str("wezterm start -- bash -lc ");
            push_quoted(&mut line, cmd.as_str());
            line
        },
        NiriShellCommand::SpawnEditor(target) => {
            let mut line = String::from_str("code ");
            push_quoted(&mut line, target.as_str());
            line
        },
        NiriShellCommand::SpawnBrowser(url) => {
            let mut line = String::from_str("xdg-open ");
            push_quoted(&mut line, url.as_str());
            line
        },
        NiriShellCommand::RaiseAttention(level) => {
            let mut line = String::from_str("notify-send 'Nexum Attention' ");
            push_quoted(&mut line, level.as_str());
            line
        },
    }
}

/// Renders a plan as a script: one line for each command, every argument that
/// is free text as one quoted word.
pub fn render_shell_script(plan: &NiriShellPlan) -> (script: String)
    ensures
        script@ == rendered_script(plan@.commands),
{
    let mut lines: Vec<String> = Vec::new();
    let mut i: usize = 0;
    while i < plan.commands.len()
        invariant
            i <= plan.commands.len(),
            lines.len() == i,
            forall|j: int| 0 <= j < i ==> (#[trigger] lines[j])@ == rendered_line(plan.commands[j]@),
        decreases plan.commands.len() - i,
    {
        lines.push(render_command(&plan.commands[i]));
        i += 1;
    }
    assert(lines.deep_view() =~= rendered_lines(plan@.commands));
    proof {
        reveal_strlit("\n");
        assert("\n"@ =~= seq!['\n']);
    }
    join(&lines, "\n")
}

/// Takes note of how one command went: a command that ran joins the list of
/// executed commands, a failure is handed on and leaves the list as it is.
pub fn record_step(
    executed: &mut Vec<NiriShellCommand>,
    command: &NiriShellCommand,
    outcome: Result<(), ShellAdapterError>,
) -> (next: Result<(), ShellAdapterError>)
    ensures
        next == outcome,
        outcome is Ok ==> final(executed).deep_view() == old(executed).deep_view().push(command@),
        outcome is Err ==> *final(executed) == *old(executed),
{
    if outcome.is_ok() {
        executed.push(command.clone());
        assert(executed.deep_view() =~= old(executed).deep_view().push(command@));
    }
    outcome
}

/// Whether an adapter that ran the first `k` commands of a plan after
/// `before` may have answered the next one in this way.
pub open spec fn answered_at<A: NiriAdapter>(
    before: Seq<NiriShellCommandView>,
    commands: Seq<NiriShellCommandView>,
    k: int,
    failure: Option<Seq<char>>,
    adapter: A,
) -> bool {
    &&& 0 <= k < commands.len()
    &&& adapter.ran() == before + commands.take(k)
    &&& adapter.may_answer(commands[k], failure)
}

/// Whether some adapter of type `A` that ran the first `k` commands of a plan
/// after `before` may answer the next one in this way.
pub open spec fn could_answer<A: NiriAdapter>(
    before: Seq<NiriShellCommandView>,
    commands: Seq<NiriShellCommandView>,
    k: int,
    failure: Option<Seq<char>>,
) -> bool {
    exists|at: A| #[trigger] answered_at(before, commands, k, failure, at)
}

/// Whether an adapter of type `A` stopped a plan at one of its commands with
/// this failure, having run the commands before it and no other.
pub open spec fn stopped_at<A: NiriAdapter>(
    before: Seq<NiriShellCommandView>,
    commands: Seq<NiriShellCommandView>,
    failure: Seq<char>,
    after: Seq<NiriShellCommandView>,
) -> bool {
    exists|k: int|
        0 <= k < commands.len() && #[trigger] could_answer::<A>(before, commands, k, Some(failure))
            && after == before + commands.take(k)
}

/// Runs the commands of a plan in order on `adapter` and stops at the first
/// that fails. Each command goes to the method of its kind with its own
/// payload. Where all ran, the run succeeds, the report lists them all and
/// the adapter ran the whole plan; a plan without commands always succeeds.
/// Where one failed, the adapter's error is handed on, and the adapter ran
/// the commands before it and no other. Which command fails is the adapter's
/// to say: the run succeeds only where the adapter could run every command
/// in its turn, and fails only where it could fail the command it stopped at
/// with the error that is handed on.
pub fn execute_shell_plan<A: NiriAdapter>(plan: &NiriShellPlan, adapter: &mut A) -> (result: Result<
    ShellExecutionReport,
    ShellAdapterError,
>)
    ensures
        plan.commands.len() == 0 ==> result is Ok,
        result matches Ok(report) ==> report@ == (ShellExecutionReportView {
            workspace: plan.workspace,
            executed: plan@.commands,
        }) && final(adapter).ran() == old(adapter).ran() + plan@.commands,
        result is Ok ==> forall|k: int|
            0 <= k < plan.commands.len() ==> #[trigger] could_answer::<A>(
                old(adapter).ran(),
                plan@.commands,
                k,
                None,
            ),
        result matches Err(error) ==> stopped_at::<A>(
            old(adapter).ran(),
            plan@.commands,
            error.name()@,
            final(adapter).ran(),
        ),
{
    let mut executed: Vec<NiriShellCommand> = Vec::new();
    let mut i: usize = 0;
    assert(old(adapter).ran() + plan@.commands.take(0) =~= old(adapter).ran());
    while i < plan.commands.len()
        invariant
            i <= plan.commands.len(),
            executed.deep_view() == plan@.commands.take(i as int),
            adapter.ran() == old(adapter).ran() + plan@.commands.take(i as int),
            forall|k: int|
                0 <= k < i ==> #[trigger] could_answer::<A>(
                    old(adapter).ran(),
                    plan@.commands,
                    k,
                    None,
                ),
        decreases plan.commands.len() - i,
    {
        let command = &plan.commands[i];
        assert(command@ == plan@.commands[i as int]);
        let ghost at = *adapter;
        let outcome = match command {
            NiriShellCommand::FocusWorkspace(id) => adapter.focus_workspace(*id),
            NiriShellCommand::SpawnTerminal(cmd) => adapter.spawn_terminal(cmd.as_str()),
            NiriShellCommand::SpawnEditor(target) => adapter.spawn_editor(target.as_str()),
            NiriShellCommand::SpawnBrowser(url) => adapter.spawn_browser(url.as_str()),
            NiriShellCommand::RaiseAttention(level) => adapter.raise_attention(level.as_str()),
        };
        assert(answered_at(old(adapter).ran(), plan@.commands, i as int, failure_of(outcome), at));
        match record_step(&mut executed, command, outcome) {
            Ok(()) => {},
            Err(error) => {
                assert(answered_at(
                    old(adapter).ran(),
                    plan@.commands,
                    i as int,
                    Some(error.name()@),
                    at,
                ));
                assert(could_answer::<A>(
                    old(adapter).ran(),
                    plan@.commands,
                    i as int,
                    Some(error.name()@),
                ));
                assert(adapter.ran() == old(adapter).ran() + plan@.commands.take(i as int));
                assert(stopped_at::<A>(
                    old(adapter).ran(),
                    plan@.commands,
                    error.name()@,
                    adapter.ran(),
                ));
                return Err(error);
            },
        }
        assert(could_answer::<A>(old(adapter).ran(), plan@.commands, i as int, None));
        assert(executed.deep_view() =~= plan@.commands.take(i + 1));
        assert(adapter.ran() =~= old(adapter).ran() + plan@.commands.take(i + 1));
        i += 1;
    }
    assert(plan@.commands.take(plan.commands.len() as int) =~= plan@.commands);
    Ok(ShellExecutionReport { workspace: plan.workspace, executed })
}

/// The five desktop commands of a planned restore.
pub open spec fn restore_commands(request: RestoreRequestView) -> Seq<NiriShellCommandView> {
    seq![
        NiriShellCommandView::FocusWorkspace(request.capsule.workspace),
        NiriShellCommandView::SpawnTerminal(request.surfaces.terminal_cmd),
        NiriShellCommandView::SpawnEditor(request.surfaces.editor_target),
        NiriShellCommandView::SpawnBrowser(request.surfaces.browser_url),
        NiriShellCommandView::RaiseAttention(signal_text(request.signal)),
    ]
}

/// The desktop plan of a planned restore drops the routing step and keeps the
/// other five, in order, on the capsule's workspace.
pub proof fn lemma_shell_plan_of_restore(request: RestoreRequestView)
    ensures
        shell_commands(restore_steps(request)) == restore_commands(request),
        shell_workspace(restore_steps(request)) == request.capsule.workspace,
{
    let s6 = restore_steps(request);
    let s5 = s6.drop_last();
    let s4 = s5.drop_last();
    let s3 = s4.drop_last();
    let s2 = s3.drop_last();
    let s1 = s2.drop_last();
    let s0 = s1.drop_last();
    assert(s0.len() == 0);
    assert(shell_commands(s0) =~= Seq::empty());
    assert(shell_commands(s1) =~= Seq::empty());
    assert(shell_commands(s2) =~= restore_commands(request).take(1));
    assert(shell_commands(s3) =~= restore_commands(request).take(2));
    assert(shell_commands(s4) =~= restore_commands(request).take(3));
    assert(shell_commands(s5) =~= restore_commands(request).take(4));
    assert(shell_commands(s6) =~= restore_commands(request));
    assert(shell_workspace(s2) == request.capsule.workspace);
    assert(shell_workspace(s3) == request.capsule.workspace);
    assert(shell_workspace(s4) == request.capsule.workspace);
    assert(shell_workspace(s5) == request.capsule.workspace);
}

/// The lines of the script of a list of commands in which the browser is
/// opened as `launch` says: the first command that opens `browser_url` is
/// written as `launch`, every other command as its own line.
pub open spec fn policy_lines(
    commands: Seq<NiriShellCommandView>,
    browser_url: Seq<char>,
    launch: Seq<char>,
) -> Seq<Seq<char>>
    decreases commands.len(),
{
    if commands.len() == 0 {
        Seq::empty()
    } else {
        let before = commands.drop_last();
        policy_lines(before, browser_url, launch).push(
            if commands.last() == NiriShellCommandView::SpawnBrowser(browser_url)
                && !before.contains(NiriShellCommandView::SpawnBrowser(browser_url)) {
                launch
            } else {
                rendered_line(commands.last())
            },
        )
    }
}

/// The five lines of the script of a planned restore in which the browser is
/// opened as `launch` says.
pub open spec fn restore_lines(request: RestoreRequestView, launch: Seq<char>) -> Seq<Seq<char>> {
    seq![
        rendered_line(NiriShellCommandView::FocusWorkspace(request.capsule.workspace)),
        rendered_line(NiriShellCommandView::SpawnTerminal(request.surfaces.terminal_cmd)),
        rendered_line(NiriShellCommandView::SpawnEditor(request.surfaces.editor_target)),
        launch,
        rendered_line(NiriShellCommandView::RaiseAttention(signal_text(request.signal))),
    ]
}

/// In the script of a planned restore the browser line, and no other, is
/// the one that `launch` gives.
pub proof fn lemma_policy_lines_of_restore(request: RestoreRequestView, launch: Seq<char>)
    ensures
        policy_lines(restore_commands(request), request.surfaces.browser_url, launch)
            == restore_lines(request, launch),
{
    let url = request.surfaces.browser_url;
    let browser = NiriShellCommandView::SpawnBrowser(url);
    let c5 = restore_commands(request);
    let c4 = c5.drop_last();
    let c3 = c4.drop_last();
    let c2 = c3.drop_last();
    let c1 = c2.drop_last();
    let c0 = c1.drop_last();
    let wanted = restore_lines(request, launch);
    assert(c0.len() == 0);
    assert(c4.last() == browser);
    assert(!c3.contains(browser)) by {
        if c3.contains(browser) {
            let i = c3.index_of(browser);
            assert(c3[i] == c5[i]);
        }
    }
    assert(c4.contains(browser)) by {
        assert(c4[3] == browser);
    }
    assert(policy_lines(c0, url, launch) =~= wanted.take(0));
    assert(policy_lines(c1, url, launch) =~= wanted.take(1));
    assert(policy_lines(c2, url, launch) =~= wanted.take(2));
    assert(policy_lines(c3, url, launch) =~= wanted.take(3));
    assert(policy_lines(c4, url, launch) =~= wanted.take(4));
    assert(policy_lines(c5, url, launch) =~= wanted);
}

} // verus!
