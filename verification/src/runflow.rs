//! The restore orchestrator: what one restore plans, how it reads the answer
//! of the routing daemon, and what it reports and records.

use crate::capsule::{
    domain_of, mode_text, mode_to_str, slug_of, Capsule, CapsuleMode, CapsuleState, CapsuleView,
};
use crate::events::{EventError, EventErrorView, RuntimeEvent, RuntimeEventView};
use crate::identity::{browser_launch_command, browser_launch_text};
use crate::isolation::{select_capsule_mode, selected_mode, IsolationInput};
use crate::restore::{
    build_restore_plan, RestoreRequest, RestoreRequestView, RestoreSurfaces, RestoreSurfacesView,
    SignalType, TARGET_BUDGET_MS,
};
use crate::routing::{
    outcome_kind, outcome_kind_str, RouteCommand, RouteCommandView, RouteOutcome, RouteOutcomeView,
    RouterState,
};
use crate::runtime_meta::{
    capsule_runtime_env, process_label_of, runtime_env_keys, terminal_process_label, text_values,
};
use crate::shell::{
    build_niri_shell_plan, lemma_policy_lines_of_restore, lemma_shell_plan_of_restore,
    policy_lines, render_command, restore_lines, NiriShellCommand, NiriShellCommandView,
    NiriShellPlan,
};
use crate::store::{StoreError, StoreErrorView};
use crate::text::{conjoin, decimal, join, joined, text_eq};
use crate::tls::{TlsCertificateRecord, TlsError, TlsErrorView};
use vstd::prelude::*;

verus! {

/// The validity of the TLS material that a restore asks for, in days.
pub const RESTORE_TLS_VALIDITY_DAYS: u64 = 30;

/// What one restore is run with.
#[derive(Debug, PartialEq, Eq)]
pub struct RestoreRunInput {
    pub capsule_id: String,
    pub display_name: String,
    pub workspace: u16,
    pub signal: SignalType,
    pub terminal_cmd: String,
    pub editor_target: String,
    pub browser_url: String,
    pub route_upstream: String,
    pub routing_socket: Option<String>,
    pub identity_collision: bool,
    pub high_risk_secret_workflow: bool,
    pub force_isolated_mode: bool,
    pub capsule_db: Option<String>,
    pub tls_dir: String,
    pub events_db: String,
}

/// What one restore reports.
#[derive(Debug, PartialEq, Eq)]
pub struct RestoreRunSummary {
    pub capsule_id: String,
    pub domain: String,
    pub run_mode: String,
    pub degraded: bool,
    pub degraded_reason: Option<String>,
    pub target_budget_ms: u64,
    pub shell_script: String,
    pub tls_fingerprint_sha256: String,
    pub events_written: u32,
}

pub struct RestoreRunSummaryView {
    pub capsule_id: Seq<char>,
    pub domain: Seq<char>,
    pub run_mode: Seq<char>,
    pub degraded: bool,
    pub degraded_reason: Option<Seq<char>>,
    pub target_budget_ms: u64,
    pub shell_script: Seq<char>,
    pub tls_fingerprint_sha256: Seq<char>,
    pub events_written: u32,
}

impl View for RestoreRunSummary {
    type V = RestoreRunSummaryView;

    open spec fn view(&self) -> RestoreRunSummaryView {
        RestoreRunSummaryView {
            capsule_id: self.capsule_id@,
            domain: self.domain@,
            run_mode: self.run_mode@,
            degraded: self.degraded,
            degraded_reason: match self.degraded_reason {
                Some(reason) => Some(reason@),
                None => None,
            },
            target_budget_ms: self.target_budget_ms,
            shell_script: self.shell_script@,
            tls_fingerprint_sha256: self.tls_fingerprint_sha256@,
            events_written: self.events_written,
        }
    }
}

/// Why a restore failed.
#[derive(Debug, PartialEq, Eq)]
pub enum RunFlowError {
    Tls(TlsError),
    Events(EventError),
    Store(StoreError),
    Routing(String),
}

pub enum RunFlowErrorView {
    Tls(TlsErrorView),
    Events(EventErrorView),
    Store(StoreErrorView),
    Routing(Seq<char>),
}

impl View for RunFlowError {
    type V = RunFlowErrorView;

    open spec fn view(&self) -> RunFlowErrorView {
        match self {
            RunFlowError::Tls(error) => RunFlowErrorView::Tls(error@),
            RunFlowError::Events(error) => RunFlowErrorView::Events(error@),
            RunFlowError::Store(error) => RunFlowErrorView::Store(error@),
            RunFlowError::Routing(detail) => RunFlowErrorView::Routing(detail@),
        }
    }
}

impl RunFlowError {
    /// The error as one line.
    pub fn message(&self) -> (line: String)
        ensures
            line@ == match self@ {
                RunFlowErrorView::Tls(error) => "tls: "@ + crate::tls::tls_error_text(error),
                RunFlowErrorView::Events(error) => "events: "@ + match error {
                    EventErrorView::Db(cause) => "db: "@ + cause,
                    EventErrorView::Io(cause) => "io: "@ + cause,
                },
                RunFlowErrorView::Store(error) => "store: "@ + crate::store::store_error_text(error),
                RunFlowErrorView::Routing(detail) => "routing failed: "@ + detail,
            },
    {
        match self {
            RunFlowError::Tls(error) => conjoin("tls: ", error.message().as_str()),
            RunFlowError::Events(error) => conjoin("events: ", error.message().as_str()),
            RunFlowError::Store(error) => conjoin("store: ", error.message().as_str()),
            RunFlowError::Routing(detail) => conjoin("routing failed: ", detail.as_str()),
        }
    }
}

/// What came back from the routing daemon: its answer, or the text of the
/// transport error or timeout that kept the answer away.
#[derive(Debug, PartialEq, Eq)]
pub enum RouteReply {
    Answered(RouteOutcome),
    Failed(String),
}

pub enum RouteReplyView {
    Answered(RouteOutcomeView),
    Failed(Seq<char>),
}

impl View for RouteReply {
    type V = RouteReplyView;

    open spec fn view(&self) -> RouteReplyView {
        match self {
            RouteReply::Answered(outcome) => RouteReplyView::Answered(outcome@),
            RouteReply::Failed(detail) => RouteReplyView::Failed(detail@),
        }
    }
}

/// How the route of a restore stands: installed, or not, with the reason.
#[derive(Debug, PartialEq, Eq)]
pub enum RouteEnsureStatus {
    Ready,
    Degraded(String),
}

pub enum RouteEnsureStatusView {
    Ready,
    Degraded(Seq<char>),
}

impl View for RouteEnsureStatus {
    type V = RouteEnsureStatusView;

    open spec fn view(&self) -> RouteEnsureStatusView {
        match self {
            RouteEnsureStatus::Ready => RouteEnsureStatusView::Ready,
            RouteEnsureStatus::Degraded(reason) => RouteEnsureStatusView::Degraded(reason@),
        }
    }
}

/// The times at which the three events of a restore are written, in
/// milliseconds since the Unix epoch.
#[derive(Debug, Clone, Copy, PartialEq, Eq, Structural)]
pub struct EventStamps {
    pub start_unix_ms: u64,
    pub routing_unix_ms: u64,
    pub ready_unix_ms: u64,
}

/// The mode that a restore runs in.
pub open spec fn run_mode_of(input: &RestoreRunInput) -> CapsuleMode {
    selected_mode(
        IsolationInput {
            identity_collision_detected: input.identity_collision,
            high_risk_secret_workflow: input.high_risk_secret_workflow,
            force_isolated_mode: input.force_isolated_mode,
        },
    )
}

/// The capsule that a restore works on.
pub open spec fn run_capsule_of(input: &RestoreRunInput) -> CapsuleView {
    CapsuleView {
        capsule_id: input.capsule_id@,
        slug: slug_of(input.display_name@),
        display_name: input.display_name@,
        repo_path: Seq::empty(),
        mode: run_mode_of(input),
        state: CapsuleState::Ready,
        workspace: input.workspace,
    }
}

/// The domain of a restore.
pub open spec fn run_domain_of(input: &RestoreRunInput) -> Seq<char> {
    domain_of(slug_of(input.display_name@))
}

/// The request that a restore plans from.
pub open spec fn run_request_of(input: &RestoreRunInput) -> RestoreRequestView {
    RestoreRequestView {
        capsule: run_capsule_of(input),
        signal: input.signal,
        surfaces: RestoreSurfacesView {
            terminal_cmd: input.terminal_cmd@,
            editor_target: input.editor_target@,
            browser_url: input.browser_url@,
        },
    }
}

/// The registration that a restore asks for.
pub open spec fn register_command_of(input: &RestoreRunInput) -> RouteCommandView {
    RouteCommandView::Register {
        capsule_id: input.capsule_id@,
        domain: run_domain_of(input),
        upstream: input.route_upstream@,
    }
}

/// The capsule that a restore works on: the identity that the input gives,
/// in the mode that the isolation policy selects.
pub fn run_capsule(input: &RestoreRunInput) -> (capsule: Capsule)
    ensures
        capsule@ == run_capsule_of(input),
        capsule.well_formed(),
{
    let mode = select_capsule_mode(
        &IsolationInput {
            identity_collision_detected: input.identity_collision,
            high_risk_secret_workflow: input.high_risk_secret_workflow,
            force_isolated_mode: input.force_isolated_mode,
        },
    );
    Capsule::new(input.capsule_id.as_str(), input.display_name.as_str(), mode, input.workspace)
}

/// The registration that a restore sends to the routing daemon, or performs
/// itself where there is no daemon.
pub fn register_command(input: &RestoreRunInput) -> (command: RouteCommand)
    ensures
        command@ == register_command_of(input),
{
    let capsule = run_capsule(input);
    RouteCommand::Register {
        capsule_id: capsule.capsule_id.clone(),
        domain: capsule.domain(),
        upstream: input.route_upstream.clone(),
    }
}

/// How a reply is read. No reply means there is no daemon: the route is
/// registered in a fresh table of the restore's own, which always accepts
/// it. A reply that says `registered` makes the route ready. The daemon's
/// `domain_conflict` is the one hard failure. Every other error of the
/// daemon, every other answer, and every transport failure leave the route
/// unavailable and the run degraded.
pub open spec fn route_status_of(reply: Option<RouteReplyView>) -> Result<RouteEnsureStatusView, Seq<char>> {
    match reply {
        None => Ok(RouteEnsureStatusView::Ready),
        Some(RouteReplyView::Failed(detail)) => Ok(
            RouteEnsureStatusView::Degraded("route_unavailable: "@ + detail),
        ),
        Some(RouteReplyView::Answered(outcome)) => match outcome {
            RouteOutcomeView::Registered { .. } => Ok(RouteEnsureStatusView::Ready),
            RouteOutcomeView::Error { code, message } => if code == "domain_conflict"@ {
                Err(code + ": "@ + message)
            } else {
                Ok(
                    RouteEnsureStatusView::Degraded(
                        "route_unavailable: "@ + code + ": "@ + message,
                    ),
                )
            },
            other => Ok(
                RouteEnsureStatusView::Degraded(
                    "route_unavailable: unexpected daemon outcome: "@ + outcome_kind(other),
                ),
            ),
        },
    }
}

/// What an optional reply holds.
pub open spec fn reply_view(reply: Option<RouteReply>) -> Option<RouteReplyView> {
    match reply {
        Some(reply) => Some(reply@),
        None => None,
    }
}

/// Reads the reply to a restore's registration.
pub fn ensure_route(capsule: &Capsule, upstream: &str, reply: Option<RouteReply>) -> (result:
    Result<RouteEnsureStatus, RunFlowError>)
    ensures
        match result {
            Ok(status) => route_status_of(reply_view(reply)) == Ok::<
                RouteEnsureStatusView,
                Seq<char>,
            >(status@),
            Err(error) => route_status_of(reply_view(reply)) matches Err(detail)
                && error@ == RunFlowErrorView::Routing(detail),
        },
{
    match reply {
        Some(RouteReply::Failed(detail)) => Ok(
            RouteEnsureStatus::Degraded(conjoin("route_unavailable: ", detail.as_str())),
        ),
        Some(RouteReply::Answered(outcome)) => match outcome {
            RouteOutcome::Registered { .. } => Ok(RouteEnsureStatus::Ready),
            RouteOutcome::Error { code, message } => {
                let mut detail = code.clone();
                detail.append(": ");
                detail.append(message.as_str());
                if text_eq(code.as_str(), "domain_conflict") {
                    return Err(RunFlowError::Routing(detail));
                }
                let reason = conjoin("route_unavailable: ", detail.as_str());
                assert(reason@ =~= "route_unavailable: "@ + code@ + ": "@ + message@);
                Ok(RouteEnsureStatus::Degraded(reason))
            },
            other => Ok(
                RouteEnsureStatus::Degraded(
                    conjoin(
                        "route_unavailable: unexpected daemon outcome: ",
                        outcome_kind_str(&other),
                    ),
                ),
            ),
        },
        None => {
            let mut router = RouterState::new();
            let route = router.handle(
                RouteCommand::Register {
                    capsule_id: capsule.capsule_id.clone(),
                    domain: capsule.domain(),
                    upstream: String::from_str(upstream),
                },
            );
            match route {
                RouteOutcome::Error { message, .. } => Err(RunFlowError::Routing(message)),
                _ => Ok(RouteEnsureStatus::Ready),
            }
        },
    }
}

/// The script of a list of commands in which the browser is opened as
/// `launch` says: the line of the first command that opens `browser_url`
/// with the default opener is `launch`, every other line is the command's
/// own.
pub open spec fn with_browser_policy(
    commands: Seq<NiriShellCommandView>,
    browser_url: Seq<char>,
    launch: Seq<char>,
) -> Seq<char> {
    joined(policy_lines(commands, browser_url, launch), seq!['\n'])
}

/// The lines that tell a capsule's processes about the capsule: one export
/// for each environment variable, in ascending order of name, then the
/// export of the process label.
pub open spec fn metadata_lines(capsule: CapsuleView) -> Seq<Seq<char>> {
    seq![
        "export NEXUM_CAPSULE_DOMAIN="@ + domain_of(capsule.slug),
        "export NEXUM_CAPSULE_ID="@ + capsule.capsule_id,
        "export NEXUM_CAPSULE_SLUG="@ + capsule.slug,
        "export NEXUM_CAPSULE_WORKSPACE="@ + decimal(capsule.workspace as nat),
        "export NEXUM_PROCESS_LABEL="@ + process_label_of(capsule.capsule_id),
    ]
}

/// `script` behind the metadata lines.
pub open spec fn with_runtime_metadata(script: Seq<char>, capsule: CapsuleView) -> Seq<char> {
    joined(metadata_lines(capsule).push(script), seq!['\n'])
}

/// The browser command of a restore: what the identity policy gives for the
/// restore's URL and capsule.
pub open spec fn run_browser_command_of(input: &RestoreRunInput) -> Seq<char> {
    browser_launch_text(input.browser_url@, input.capsule_id@, input.identity_collision)
}

/// The script of a restore: the metadata lines, then one line for each
/// desktop command, where the browser line is the command that the identity
/// policy gives in place of the default opener.
pub open spec fn restore_script_of(input: &RestoreRunInput) -> Seq<char> {
    with_runtime_metadata(
        joined(restore_lines(run_request_of(input), run_browser_command_of(input)), seq!['\n']),
        run_capsule_of(input),
    )
}

/// Renders a desktop plan as a script in which the browser is opened by
/// `launch_cmd`: the line of the first command that opens `browser_url` with
/// the default opener is replaced by `launch_cmd`.
pub fn apply_browser_launch_policy(plan: &NiriShellPlan, browser_url: &str, launch_cmd: &str) -> (out:
    String)
    ensures
        out@ == with_browser_policy(plan@.commands, browser_url@, launch_cmd@),
{
    let mut lines: Vec<String> = Vec::new();
    let mut replaced = false;
    let mut i: usize = 0;
    let ghost browser = NiriShellCommandView::SpawnBrowser(browser_url@);
    while i < plan.commands.len()
        invariant
            i <= plan.commands.len(),
            browser == NiriShellCommandView::SpawnBrowser(browser_url@),
            lines.deep_view() == policy_lines(
                plan@.commands.take(i as int),
                browser_url@,
                launch_cmd@,
            ),
            replaced == plan@.commands.take(i as int).contains(browser),
        decreases plan.commands.len() - i,
    {
        let command = &plan.commands[i];
        let ghost before = plan@.commands.take(i as int);
        let ghost upto = plan@.commands.take(i + 1);
        proof {
            assert(upto.drop_last() =~= before);
            assert(upto.last() == command@);
        }
        let is_default = match command {
            NiriShellCommand::SpawnBrowser(url) => text_eq(url.as_str(), browser_url),
            _ => false,
        };
        assert(is_default == (command@ == browser));
        if is_default && !replaced {
            lines.push(String::from_str(launch_cmd));
            replaced = true;
        } else {
            lines.push(render_command(command));
        }
        proof {
            assert(lines.deep_view() =~= policy_lines(upto, browser_url@, launch_cmd@));
            if upto.contains(browser) {
                let k = upto.index_of(browser);
                if k < i {
                    assert(before[k] == browser);
                }
            }
            if before.contains(browser) {
                let k = before.index_of(browser);
                assert(upto[k] == browser);
            }
            if is_default {
                assert(upto[i as int] == browser);
            }
            assert(replaced == upto.contains(browser));
        }
        i += 1;
    }
    proof {
        assert(plan@.commands.take(plan.commands.len() as int) =~= plan@.commands);
        reveal_strlit("\n");
        assert("\n"@ =~= seq!['\n']);
    }
    join(&lines, "\n")
}

/// Puts the metadata lines of a capsule before a script.
pub fn apply_runtime_metadata(script: String, capsule: &Capsule) -> (out: String)
    ensures
        out@ == with_runtime_metadata(script@, capsule@),
{
    let env = capsule_runtime_env(capsule);
    let mut lines: Vec<String> = Vec::new();
    let n: usize = env.len();
    let mut i: usize = 0;
    proof {
        env.lemma_ordered();
    }
    while i < n
        invariant
            env.wf(),
            n == env.ordered_keys().len(),
            i <= n,
            lines.len() == i,
            forall|j: int|
                0 <= j < i ==> (#[trigger] lines[j])@ == "export "@ + env.ordered_keys()[j] + "="@
                    + env.ordered_values()[j]@,
        decreases n - i,
    {
        let mut line = String::from_str("export ");
        line.append(env.key_at(i).as_str());
        line.append("=");
        line.append(env.value_at(i).as_str());
        lines.push(line);
        i += 1;
    }
    let label = terminal_process_label(capsule.capsule_id.as_str());
    lines.push(conjoin("export NEXUM_PROCESS_LABEL=", label.as_str()));
    lines.push(script);
    proof {
        env.lemma_ordered();
        reveal_strlit("\n");
        assert("\n"@ =~= seq!['\n']);
        let keys = runtime_env_keys();
        let wanted = metadata_lines(capsule@).push(script@);
        let have = lines.deep_view();
        assert(have.len() == 6);
        assert forall|j: int| 0 <= j < 4 implies #[trigger] have[j] == wanted[j] by {
            assert(have[j] == lines[j]@);
            assert(env@.contains_key(env.ordered_keys()[j]));
            assert(text_values(env@)[keys[j]] == env@[keys[j]]@);
            reveal_strlit("export ");
            reveal_strlit("=");
            reveal_strlit("export NEXUM_CAPSULE_DOMAIN=");
            reveal_strlit("export NEXUM_CAPSULE_ID=");
            reveal_strlit("export NEXUM_CAPSULE_SLUG=");
            reveal_strlit("export NEXUM_CAPSULE_WORKSPACE=");
            reveal_strlit("NEXUM_CAPSULE_DOMAIN");
            reveal_strlit("NEXUM_CAPSULE_ID");
            reveal_strlit("NEXUM_CAPSULE_SLUG");
            reveal_strlit("NEXUM_CAPSULE_WORKSPACE");
            assert(have[j] =~= wanted[j]);
        }
        assert(have[4] == lines[4]@);
        assert(have[5] == lines[5]@);
        assert(have =~= wanted);
    }
    join(&lines, "\n")
}

/// The routing event of a restore says whether the route was ensured.
pub open spec fn routing_event_level(status: RouteEnsureStatusView) -> Seq<char> {
    match status {
        RouteEnsureStatusView::Ready => "info"@,
        RouteEnsureStatusView::Degraded(_) => "warn"@,
    }
}

/// The message of the routing event of a restore.
pub open spec fn routing_event_message(domain: Seq<char>, status: RouteEnsureStatusView) -> Seq<
    char,
> {
    match status {
        RouteEnsureStatusView::Ready => "route ensured for "@ + domain,
        RouteEnsureStatusView::Degraded(reason) => "degraded route for "@ + domain + ": "@ + reason,
    }
}

/// The three events of a restore, in the order in which they are written.
pub open spec fn restore_events_of(
    capsule_id: Seq<char>,
    domain: Seq<char>,
    status: RouteEnsureStatusView,
    stamps: EventStamps,
) -> Seq<RuntimeEventView> {
    seq![
        RuntimeEventView {
            capsule_id,
            component: "runflow"@,
            level: "info"@,
            message: "restore start"@,
            ts_unix_ms: stamps.start_unix_ms,
        },
        RuntimeEventView {
            capsule_id,
            component: "routing"@,
            level: routing_event_level(status),
            message: routing_event_message(domain, status),
            ts_unix_ms: stamps.routing_unix_ms,
        },
        RuntimeEventView {
            capsule_id,
            component: "runflow"@,
            level: "info"@,
            message: "restore plan ready"@,
            ts_unix_ms: stamps.ready_unix_ms,
        },
    ]
}

/// The three events of a restore: its start, how the route stands, and that
/// the plan is ready.
pub fn restore_events(capsule_id: &str, domain: &str, status: &RouteEnsureStatus, stamps: EventStamps) -> (events:
    Vec<RuntimeEvent>)
    ensures
        events.deep_view() == restore_events_of(capsule_id@, domain@, status@, stamps),
{
    let (level, message) = match status {
        RouteEnsureStatus::Ready => (String::from_str("info"), conjoin("route ensured for ", domain)),
        RouteEnsureStatus::Degraded(reason) => {
            let mut message = String::from_str("degraded route for ");
            message.append(domain);
            message.append(": ");
            message.append(reason.as_str());
            (String::from_str("warn"), message)
        },
    };
    let mut events: Vec<RuntimeEvent> = Vec::new();
    events.push(
        RuntimeEvent {
            capsule_id: String::from_str(capsule_id),
            component: String::from_str("runflow"),
            level: String::from_str("info"),
            message: String::from_str("restore start"),
            ts_unix_ms: stamps.start_unix_ms,
        },
    );
    events.push(
        RuntimeEvent {
            capsule_id: String::from_str(capsule_id),
            component: String::from_str("routing"),
            level,
            message,
            ts_unix_ms: stamps.routing_unix_ms,
        },
    );
    events.push(
        RuntimeEvent {
            capsule_id: String::from_str(capsule_id),
            component: String::from_str("runflow"),
            level: String::from_str("info"),
            message: String::from_str("restore plan ready"),
            ts_unix_ms: stamps.ready_unix_ms,
        },
    );
    assert(events.deep_view() =~= restore_events_of(capsule_id@, domain@, status@, stamps));
    events
}

/// What a restore comes to once the outside work is done: the summary, the
/// events to append, and the state in which the capsule is left.
#[derive(Debug, PartialEq, Eq)]
pub struct RestoreRun {
    pub summary: RestoreRunSummary,
    pub events: Vec<RuntimeEvent>,
    pub final_state: CapsuleState,
}

/// The summary of a restore whose route stands as `status` says.
pub open spec fn summary_of(
    input: &RestoreRunInput,
    fingerprint: Seq<char>,
    status: RouteEnsureStatusView,
) -> RestoreRunSummaryView {
    RestoreRunSummaryView {
        capsule_id: input.capsule_id@,
        domain: run_domain_of(input),
        run_mode: mode_text(run_mode_of(input)),
        degraded: status is Degraded,
        degraded_reason: match status {
            RouteEnsureStatusView::Ready => None,
            RouteEnsureStatusView::Degraded(reason) => Some(reason),
        },
        target_budget_ms: TARGET_BUDGET_MS,
        shell_script: restore_script_of(input),
        tls_fingerprint_sha256: fingerprint,
        events_written: 3,
    }
}

/// The state in which a restore leaves its capsule.
pub open spec fn final_state_of(status: RouteEnsureStatusView) -> CapsuleState {
    match status {
        RouteEnsureStatusView::Ready => CapsuleState::Ready,
        RouteEnsureStatusView::Degraded(_) => CapsuleState::Degraded,
    }
}

/// The state in which the capsule is left after a restore, however it
/// ended: a restore that failed leaves it degraded.
pub fn state_after(result: &Result<RestoreRun, RunFlowError>) -> (state: CapsuleState)
    ensures
        state == match result {
            Ok(run) => run.final_state,
            Err(_) => CapsuleState::Degraded,
        },
{
    match result {
        Ok(run) => run.final_state,
        Err(_) => CapsuleState::Degraded,
    }
}

/// Runs the decisions of one restore, given what the outside work brought:
/// the record of the TLS material of the capsule's domain, the reply to the
/// registration, which is there exactly where the input names a routing
/// socket, and the times for the three events. The restore fails on the daemon's `domain_conflict` and on
/// nothing else. Otherwise it reports the script, the mode that the
/// isolation policy selects and the fingerprint, is degraded exactly when
/// the route is not installed, and leaves the capsule ready or degraded
/// accordingly.
pub fn run_restore_flow(
    input: &RestoreRunInput,
    tls: &TlsCertificateRecord,
    reply: Option<RouteReply>,
    stamps: EventStamps,
) -> (result: Result<RestoreRun, RunFlowError>)
    requires
        (input.routing_socket is Some) == (reply is Some),
    ensures
        match route_status_of(reply_view(reply)) {
            Ok(status) => result matches Ok(run) && run.summary@ == summary_of(
                input,
                tls.fingerprint_sha256@,
                status,
            ) && run.events.deep_view() == restore_events_of(
                input.capsule_id@,
                run_domain_of(input),
                status,
                stamps,
            ) && run.final_state == final_state_of(status),
            Err(detail) => result matches Err(error) && error@ == RunFlowErrorView::Routing(detail),
        },
{
    let capsule = run_capsule(input);
    let request = RestoreRequest {
        capsule: capsule.clone(),
        signal: input.signal,
        surfaces: RestoreSurfaces {
            terminal_cmd: input.terminal_cmd.clone(),
            editor_target: input.editor_target.clone(),
            browser_url: input.browser_url.clone(),
        },
    };
    let restore = build_restore_plan(&request);
    let domain = capsule.domain();

    let status = match ensure_route(&capsule, input.route_upstream.as_str(), reply) {
        Ok(status) => status,
        Err(error) => {
            return Err(error);
        },
    };

    let launch = browser_launch_command(
        input.browser_url.as_str(),
        input.capsule_id.as_str(),
        input.identity_collision,
    );
    proof {
        lemma_shell_plan_of_restore(request@);
        lemma_policy_lines_of_restore(request@, launch@);
    }
    let shell_script = apply_browser_launch_policy(
        &build_niri_shell_plan(&restore),
        input.browser_url.as_str(),
        launch.as_str(),
    );
    let shell_script = apply_runtime_metadata(shell_script, &capsule);

    let events = restore_events(capsule.capsule_id.as_str(), domain.as_str(), &status, stamps);
    let (degraded, degraded_reason, final_state) = match &status {
        RouteEnsureStatus::Ready => (false, None, CapsuleState::Ready),
        RouteEnsureStatus::Degraded(reason) => (true, Some(reason.clone()), CapsuleState::Degraded),
    };
    Ok(
        RestoreRun {
            summary: RestoreRunSummary {
                capsule_id: capsule.capsule_id.clone(),
                domain,
                run_mode: String::from_str(mode_to_str(capsule.mode)),
                degraded,
                degraded_reason,
                target_budget_ms: restore.target_budget_ms,
                shell_script,
                tls_fingerprint_sha256: tls.fingerprint_sha256.clone(),
                events_written: 3,
            },
            events,
            final_state,
        },
    )
}

/// A restore fails on the daemon's `domain_conflict` and on nothing else:
/// every other reply, and no reply at all, gives a summary.
pub proof fn lemma_only_conflict_fails(reply: Option<RouteReplyView>)
    ensures
        route_status_of(reply) is Err <==> (reply matches Some(
            RouteReplyView::Answered(RouteOutcomeView::Error { code, .. }),
        ) && code == "domain_conflict"@),
{
}

/// A reply that failed in transport degrades the run: the reason starts with
/// `route_unavailable: ` and holds the failure's text, three events are
/// written, the second of them a warning, and the capsule is left degraded.
pub proof fn lemma_transport_failure_degrades(
    input: &RestoreRunInput,
    fingerprint: Seq<char>,
    detail: Seq<char>,
    stamps: EventStamps,
)
    ensures
        ({
            let status = route_status_of(Some(RouteReplyView::Failed(detail)));
            &&& status == Ok::<RouteEnsureStatusView, Seq<char>>(
                RouteEnsureStatusView::Degraded("route_unavailable: "@ + detail),
            )
            &&& summary_of(input, fingerprint, status->Ok_0).degraded
            &&& summary_of(input, fingerprint, status->Ok_0).degraded_reason == Some(
                "route_unavailable: "@ + detail,
            )
            &&& summary_of(input, fingerprint, status->Ok_0).events_written == 3
            &&& restore_events_of(input.capsule_id@, run_domain_of(input), status->Ok_0, stamps).len()
                == 3
            &&& restore_events_of(input.capsule_id@, run_domain_of(input), status->Ok_0, stamps)[1].level
                == "warn"@
            &&& final_state_of(status->Ok_0) == CapsuleState::Degraded
        }),
{
}

} // verus!
