//! The dispatcher: from a signal event to the input of a restore, the
//! attention that a batch of events calls for, and the report on a batch.

use crate::attention::{
    needs_ack, priority_of, signal_priority, signal_requires_ack, AttentionPriority,
};
use crate::capsule::{domain_of, Capsule, CapsuleView};
use crate::restore::{RestoreSurfaces, RestoreSurfacesView, SignalType};
use crate::runflow::RestoreRunInput;
use crate::store::CapsuleStore;
use crate::text::{conjoin, optional_text, reported};
use crate::text_map::{ascending, TextMap};
use vstd::prelude::*;

verus! {

/// One signal event as the dispatcher gets it.
#[derive(Debug, PartialEq, Eq)]
pub struct DispatchEvent {
    pub capsule_id: String,
    pub signal: SignalType,
    pub upstream: String,
    pub identity_collision: bool,
    pub high_risk_secret_workflow: bool,
    pub force_isolated_mode: bool,
}

pub struct DispatchEventView {
    pub capsule_id: Seq<char>,
    pub signal: SignalType,
    pub upstream: Seq<char>,
    pub identity_collision: bool,
    pub high_risk_secret_workflow: bool,
    pub force_isolated_mode: bool,
}

impl View for DispatchEvent {
    type V = DispatchEventView;

    open spec fn view(&self) -> DispatchEventView {
        DispatchEventView {
            capsule_id: self.capsule_id@,
            signal: self.signal,
            upstream: self.upstream@,
            identity_collision: self.identity_collision,
            high_risk_secret_workflow: self.high_risk_secret_workflow,
            force_isolated_mode: self.force_isolated_mode,
        }
    }
}

impl DeepView for DispatchEvent {
    type V = DispatchEventView;

    open spec fn deep_view(&self) -> DispatchEventView {
        self@
    }
}

impl Clone for DispatchEvent {
    fn clone(&self) -> (copy: Self)
        ensures
            copy@ == self@,
    {
        DispatchEvent {
            capsule_id: self.capsule_id.clone(),
            signal: self.signal,
            upstream: self.upstream.clone(),
            identity_collision: self.identity_collision,
            high_risk_secret_workflow: self.high_risk_secret_workflow,
            force_isolated_mode: self.force_isolated_mode,
        }
    }
}

/// An envelope that could not be read: a single event, or a batch. Each
/// variant holds the parser's message.
#[derive(Debug, PartialEq, Eq)]
pub enum SteadError {
    ParseJson(String),
    ParseJsonBatch(String),
}

impl SteadError {
    /// The parser's message.
    pub open spec fn detail(&self) -> Seq<char> {
        match self {
            SteadError::ParseJson(detail) => detail@,
            SteadError::ParseJsonBatch(detail) => detail@,
        }
    }

    /// The error as one line, which names the argument that was refused.
    pub fn message(&self) -> (line: String)
        ensures
            line@ == (if self is ParseJson {
                "invalid --event-json: "@
            } else {
                "invalid --events-json: "@
            }) + self.detail(),
    {
        match self {
            SteadError::ParseJson(detail) => conjoin("invalid --event-json: ", detail.as_str()),
            SteadError::ParseJsonBatch(detail) => conjoin(
                "invalid --events-json: ",
                detail.as_str(),
            ),
        }
    }
}

/// Why an event was not dispatched.
#[derive(Debug, PartialEq, Eq)]
pub enum DispatchError {
    /// The registry holds no capsule of this id.
    UnknownCapsule(String),
    /// Neither the caller nor the capsule says what to open.
    MissingSurfaces,
}

pub enum DispatchErrorView {
    UnknownCapsule(Seq<char>),
    MissingSurfaces,
}

impl View for DispatchError {
    type V = DispatchErrorView;

    open spec fn view(&self) -> DispatchErrorView {
        match self {
            DispatchError::UnknownCapsule(id) => DispatchErrorView::UnknownCapsule(id@),
            DispatchError::MissingSurfaces => DispatchErrorView::MissingSurfaces,
        }
    }
}

/// The error as one line.
pub open spec fn dispatch_error_text(error: DispatchErrorView) -> Seq<char> {
    match error {
        DispatchErrorView::UnknownCapsule(id) => "unknown capsule: "@ + id,
        DispatchErrorView::MissingSurfaces =>
            "missing restore surfaces: provide --terminal and --editor or set capsule repo_path"@,
    }
}

impl DispatchError {
    /// The error as one line.
    pub fn message(&self) -> (line: String)
        ensures
            line@ == dispatch_error_text(self@),
    {
        match self {
            DispatchError::UnknownCapsule(id) => conjoin("unknown capsule: ", id.as_str()),
            DispatchError::MissingSurfaces => String::from_str(
                "missing restore surfaces: provide --terminal and --editor or set capsule repo_path",
            ),
        }
    }
}

/// What the caller wants opened in place of what the capsule gives.
#[derive(Debug, PartialEq, Eq)]
pub struct SurfaceOverrides {
    pub terminal: Option<String>,
    pub editor: Option<String>,
    pub browser: Option<String>,
}

/// The surfaces of a restore: for each the caller's choice where there is
/// one; else a development shell in the capsule's repository, the
/// repository itself, and the capsule's domain over HTTPS. Without a
/// repository the terminal and the editor have to be the caller's.
pub open spec fn surfaces_of(capsule: CapsuleView, overrides: &SurfaceOverrides) -> Option<
    RestoreSurfacesView,
> {
    if (overrides.terminal is None || overrides.editor is None) && capsule.repo_path.len() == 0 {
        None
    } else {
        Some(
            RestoreSurfacesView {
                terminal_cmd: match overrides.terminal {
                    Some(terminal) => terminal@,
                    None => "cd "@ + capsule.repo_path + " && nix develop"@,
                },
                editor_target: match overrides.editor {
                    Some(editor) => editor@,
                    None => capsule.repo_path,
                },
                browser_url: match overrides.browser {
                    Some(browser) => browser@,
                    None => "https://"@ + domain_of(capsule.slug),
                },
            },
        )
    }
}

/// Derives the surfaces of a restore from the capsule and the caller's
/// overrides.
pub fn restore_surfaces(capsule: &Capsule, overrides: &SurfaceOverrides) -> (result: Result<
    RestoreSurfaces,
    DispatchError,
>)
    ensures
        match result {
            Ok(surfaces) => surfaces_of(capsule@, overrides) == Some(surfaces@),
            Err(error) => surfaces_of(capsule@, overrides) is None && error
                == DispatchError::MissingSurfaces,
        },
{
    let has_repo = capsule.repo_path.as_str().unicode_len() > 0;
    let terminal_cmd = match &overrides.terminal {
        Some(terminal) => terminal.clone(),
        None => {
            if !has_repo {
                return Err(DispatchError::MissingSurfaces);
            }
            let mut command = String::from_str("cd ");
            command.append(capsule.repo_path.as_str());
            command.append(" && nix develop");
            command
        },
    };
    let editor_target = match &overrides.editor {
        Some(editor) => editor.clone(),
        None => {
            if !has_repo {
                return Err(DispatchError::MissingSurfaces);
            }
            capsule.repo_path.clone()
        },
    };
    let browser_url = match &overrides.browser {
        Some(browser) => browser.clone(),
        None => {
            let domain = capsule.domain();
            conjoin("https://", domain.as_str())
        },
    };
    Ok(RestoreSurfaces { terminal_cmd, editor_target, browser_url })
}

/// Where a restore finds what it works with.
#[derive(Debug, PartialEq, Eq)]
pub struct DispatchPaths {
    pub routing_socket: Option<String>,
    pub capsule_db: String,
    pub tls_dir: String,
    pub events_db: String,
}

/// The input of the restore that an event asks for.
pub open spec fn dispatched(
    capsule: &Capsule,
    event: &DispatchEvent,
    surfaces: RestoreSurfacesView,
    paths: &DispatchPaths,
    input: &RestoreRunInput,
) -> bool {
    &&& input.capsule_id@ == capsule.capsule_id@
    &&& input.display_name@ == capsule.display_name@
    &&& input.workspace == capsule.workspace
    &&& input.signal == event.signal
    &&& input.terminal_cmd@ == surfaces.terminal_cmd
    &&& input.editor_target@ == surfaces.editor_target
    &&& input.browser_url@ == surfaces.browser_url
    &&& input.route_upstream@ == event.upstream@
    &&& optional_text(input.routing_socket) == optional_text(paths.routing_socket)
    &&& input.identity_collision == event.identity_collision
    &&& input.high_risk_secret_workflow == event.high_risk_secret_workflow
    &&& input.force_isolated_mode == event.force_isolated_mode
    &&& optional_text(input.capsule_db) == Some(paths.capsule_db@)
    &&& input.tls_dir@ == paths.tls_dir@
    &&& input.events_db@ == paths.events_db@
}

/// Turns one event into the input of a restore. The event's capsule has to
/// be in the registry, which `capsule` is the answer of; an event for an
/// unknown capsule is refused with its id, and so is one whose surfaces are
/// missing. Otherwise the restore runs on the registry's capsule, with the
/// surfaces derived for it and the event's signal, upstream and isolation
/// flags.
pub fn dispatch_stead_event(
    capsule: Option<Capsule>,
    event: &DispatchEvent,
    overrides: &SurfaceOverrides,
    paths: &DispatchPaths,
) -> (result: Result<RestoreRunInput, DispatchError>)
    ensures
        match result {
            Ok(input) => capsule matches Some(found) && surfaces_of(found@, overrides) matches Some(
                surfaces,
            ) && dispatched(&found, event, surfaces, paths, &input),
            Err(error) => match capsule {
                None => error@ == DispatchErrorView::UnknownCapsule(event.capsule_id@),
                Some(found) => surfaces_of(found@, overrides) is None && error
                    == DispatchError::MissingSurfaces,
            },
        },
{
    let capsule = match capsule {
        Some(capsule) => capsule,
        None => {
            return Err(DispatchError::UnknownCapsule(event.capsule_id.clone()));
        },
    };
    let surfaces = match restore_surfaces(&capsule, overrides) {
        Ok(surfaces) => surfaces,
        Err(error) => {
            return Err(error);
        },
    };
    Ok(
        RestoreRunInput {
            capsule_id: capsule.capsule_id.clone(),
            display_name: capsule.display_name.clone(),
            workspace: capsule.workspace,
            signal: event.signal,
            terminal_cmd: surfaces.terminal_cmd,
            editor_target: surfaces.editor_target,
            browser_url: surfaces.browser_url,
            route_upstream: event.upstream.clone(),
            routing_socket: paths.routing_socket.clone(),
            identity_collision: event.identity_collision,
            high_risk_secret_workflow: event.high_risk_secret_workflow,
            force_isolated_mode: event.force_isolated_mode,
            capsule_db: Some(paths.capsule_db.clone()),
            tls_dir: paths.tls_dir.clone(),
            events_db: paths.events_db.clone(),
        },
    )
}

/// The attention that a batch of events calls for.
#[derive(Debug, PartialEq, Eq)]
pub struct AttentionPlan {
    pub blocking: u32,
    pub active: u32,
    pub passive: u32,
    pub requires_ack_count: u32,
    pub focus_capsule_id: Option<String>,
}

pub struct AttentionPlanView {
    pub blocking: u32,
    pub active: u32,
    pub passive: u32,
    pub requires_ack_count: u32,
    pub focus_capsule_id: Option<Seq<char>>,
}

impl View for AttentionPlan {
    type V = AttentionPlanView;

    open spec fn view(&self) -> AttentionPlanView {
        AttentionPlanView {
            blocking: self.blocking,
            active: self.active,
            passive: self.passive,
            requires_ack_count: self.requires_ack_count,
            focus_capsule_id: optional_text(self.focus_capsule_id),
        }
    }
}

/// How many of the events are routed at `priority`.
pub open spec fn count_at(events: Seq<DispatchEventView>, priority: AttentionPriority) -> nat
    decreases events.len(),
{
    if events.len() == 0 {
        0
    } else {
        count_at(events.drop_last(), priority) + if priority_of(events.last().signal)
            == priority {
            1nat
        } else {
            0nat
        }
    }
}

/// How many of the events want an acknowledgement.
pub open spec fn count_acks(events: Seq<DispatchEventView>) -> nat
    decreases events.len(),
{
    if events.len() == 0 {
        0
    } else {
        count_acks(events.drop_last()) + if needs_ack(events.last().signal) {
            1nat
        } else {
            0nat
        }
    }
}

/// The capsule of the first event that is routed at `priority`.
pub open spec fn first_at(events: Seq<DispatchEventView>, priority: AttentionPriority) -> Option<
    Seq<char>,
>
    decreases events.len(),
{
    if events.len() == 0 {
        None
    } else {
        match first_at(events.drop_last(), priority) {
            Some(id) => Some(id),
            None => if priority_of(events.last().signal) == priority {
                Some(events.last().capsule_id)
            } else {
                None
            },
        }
    }
}

/// The capsule to focus: that of the first event at the highest priority
/// that the batch holds, blocking before active before passive.
pub open spec fn focus_of(events: Seq<DispatchEventView>) -> Option<Seq<char>> {
    if first_at(events, AttentionPriority::Blocking) is Some {
        first_at(events, AttentionPriority::Blocking)
    } else if first_at(events, AttentionPriority::Active) is Some {
        first_at(events, AttentionPriority::Active)
    } else {
        first_at(events, AttentionPriority::Passive)
    }
}

/// The attention plan of a batch.
pub open spec fn attention_plan_of(events: Seq<DispatchEventView>) -> AttentionPlanView {
    AttentionPlanView {
        blocking: reported(count_at(events, AttentionPriority::Blocking)),
        active: reported(count_at(events, AttentionPriority::Active)),
        passive: reported(count_at(events, AttentionPriority::Passive)),
        requires_ack_count: reported(count_acks(events)),
        focus_capsule_id: focus_of(events),
    }
}

/// Plans the attention of a batch: how many events block, how many are
/// active, how many passive, how many want an acknowledgement, and which
/// capsule to focus.
pub fn attention_plan(events: &Vec<DispatchEvent>) -> (plan: AttentionPlan)
    ensures
        plan@ == attention_plan_of(events.deep_view()),
{
    let mut blocking: u32 = 0;
    let mut active: u32 = 0;
    let mut passive: u32 = 0;
    let mut requires_ack_count: u32 = 0;
    let mut first_blocking: Option<String> = None;
    let mut first_active: Option<String> = None;
    let mut first_passive: Option<String> = None;
    let mut i: usize = 0;
    while i < events.len()
        invariant
            i <= events.len(),
            blocking == reported(count_at(events.deep_view().take(i as int), AttentionPriority::Blocking)),
            active == reported(count_at(events.deep_view().take(i as int), AttentionPriority::Active)),
            passive == reported(count_at(events.deep_view().take(i as int), AttentionPriority::Passive)),
            requires_ack_count == reported(count_acks(events.deep_view().take(i as int))),
            optional_text(first_blocking) == first_at(
                events.deep_view().take(i as int),
                AttentionPriority::Blocking,
            ),
            optional_text(first_active) == first_at(
                events.deep_view().take(i as int),
                AttentionPriority::Active,
            ),
            optional_text(first_passive) == first_at(
                events.deep_view().take(i as int),
                AttentionPriority::Passive,
            ),
        decreases events.len() - i,
    {
        let event = &events[i];
        proof {
            let upto = events.deep_view().take(i + 1);
            assert(upto.drop_last() =~= events.deep_view().take(i as int));
            assert(upto.last() == events.deep_view()[i as int]);
            assert(event@ == events.deep_view()[i as int]);
        }
        match signal_priority(event.signal) {
            AttentionPriority::Blocking => {
                blocking = blocking.saturating_add(1);
                if first_blocking.is_none() {
                    first_blocking = Some(event.capsule_id.clone());
                }
            },
            AttentionPriority::Active => {
                active = active.saturating_add(1);
                if first_active.is_none() {
                    first_active = Some(event.capsule_id.clone());
                }
            },
            AttentionPriority::Passive => {
                passive = passive.saturating_add(1);
                if first_passive.is_none() {
                    first_passive = Some(event.capsule_id.clone());
                }
            },
        }
        if signal_requires_ack(event.signal) {
            requires_ack_count = requires_ack_count.saturating_add(1);
        }
        i += 1;
    }
    assert(events.deep_view().take(events.len() as int) =~= events.deep_view());
    let focus_capsule_id = if first_blocking.is_some() {
        first_blocking
    } else if first_active.is_some() {
        first_active
    } else {
        first_passive
    };
    AttentionPlan { blocking, active, passive, requires_ack_count, focus_capsule_id }
}

/// How one event of a batch went.
#[derive(Debug, PartialEq, Eq)]
pub struct SteadBatchResult {
    pub capsule_id: String,
    pub ok: bool,
    pub error: Option<String>,
}

pub struct SteadBatchResultView {
    pub capsule_id: Seq<char>,
    pub ok: bool,
    pub error: Option<Seq<char>>,
}

impl View for SteadBatchResult {
    type V = SteadBatchResultView;

    open spec fn view(&self) -> SteadBatchResultView {
        SteadBatchResultView {
            capsule_id: self.capsule_id@,
            ok: self.ok,
            error: optional_text(self.error),
        }
    }
}

impl DeepView for SteadBatchResult {
    type V = SteadBatchResultView;

    open spec fn deep_view(&self) -> SteadBatchResultView {
        self@
    }
}

/// How a batch went.
#[derive(Debug, PartialEq, Eq)]
pub struct SteadBatchReport {
    pub processed: u32,
    pub succeeded: u32,
    pub failed: u32,
    pub results: Vec<SteadBatchResult>,
    pub attention_plan: AttentionPlan,
}

/// How many of the results are successes.
pub open spec fn count_ok(results: Seq<SteadBatchResultView>) -> nat
    decreases results.len(),
{
    if results.len() == 0 {
        0
    } else {
        count_ok(results.drop_last()) + if results.last().ok {
            1nat
        } else {
            0nat
        }
    }
}

/// The result for one event: a success, or a failure with its message.
pub fn batch_result(capsule_id: &str, outcome: Result<(), String>) -> (result: SteadBatchResult)
    ensures
        result@ == (SteadBatchResultView {
            capsule_id: capsule_id@,
            ok: outcome is Ok,
            error: match outcome {
                Ok(()) => None,
                Err(message) => Some(message@),
            },
        }),
{
    match outcome {
        Ok(()) => SteadBatchResult { capsule_id: String::from_str(capsule_id), ok: true, error: None },
        Err(message) => SteadBatchResult {
            capsule_id: String::from_str(capsule_id),
            ok: false,
            error: Some(message),
        },
    }
}

/// The results of a batch: one for each event, in the order of the events,
/// with the event's capsule and how its dispatch went.
pub open spec fn results_of(
    events: Seq<DispatchEventView>,
    outcomes: Seq<Result<(), String>>,
) -> Seq<SteadBatchResultView> {
    Seq::new(
        events.len(),
        |i: int|
            SteadBatchResultView {
                capsule_id: events[i].capsule_id,
                ok: outcomes[i] is Ok,
                error: match outcomes[i] {
                    Ok(()) => None,
                    Err(message) => Some(message@),
                },
            },
    )
}

/// Puts the outcomes of the dispatches of a batch to their events: the
/// result at each place names the capsule of the event at that place and
/// says how its dispatch went, with the message where it failed.
pub fn batch_results(events: &Vec<DispatchEvent>, outcomes: Vec<Result<(), String>>) -> (results:
    Vec<SteadBatchResult>)
    requires
        outcomes.len() == events.len(),
    ensures
        results.deep_view() == results_of(events.deep_view(), outcomes@),
{
    let mut results: Vec<SteadBatchResult> = Vec::new();
    let mut i: usize = 0;
    while i < events.len()
        invariant
            i <= events.len(),
            outcomes.len() == events.len(),
            results.len() == i,
            forall|j: int|
                0 <= j < i ==> (#[trigger] results[j])@ == results_of(
                    events.deep_view(),
                    outcomes@,
                )[j],
        decreases events.len() - i,
    {
        assert(events[i as int]@ == events.deep_view()[i as int]);
        let outcome = match &outcomes[i] {
            Ok(()) => Ok(()),
            Err(message) => Err(message.clone()),
        };
        results.push(batch_result(events[i].capsule_id.as_str(), outcome));
        i += 1;
    }
    assert(results.deep_view() =~= results_of(events.deep_view(), outcomes@));
    results
}

/// Reports on a batch: the results as they are, how many of them succeeded
/// and how many failed, and the attention that the events call for.
pub fn batch_report(results: Vec<SteadBatchResult>, events: &Vec<DispatchEvent>) -> (report:
    SteadBatchReport)
    ensures
        report.results == results,
        report.succeeded == reported(count_ok(results.deep_view())),
        report.failed == reported((results.len() - count_ok(results.deep_view())) as nat),
        report.processed == reported(results.len() as nat),
        report.attention_plan@ == attention_plan_of(events.deep_view()),
{
    let mut succeeded: u32 = 0;
    let mut failed: u32 = 0;
    let mut i: usize = 0;
    while i < results.len()
        invariant
            i <= results.len(),
            count_ok(results.deep_view().take(i as int)) <= i,
            succeeded == reported(count_ok(results.deep_view().take(i as int))),
            failed == reported((i - count_ok(results.deep_view().take(i as int))) as nat),
        decreases results.len() - i,
    {
        proof {
            let upto = results.deep_view().take(i + 1);
            assert(upto.drop_last() =~= results.deep_view().take(i as int));
            assert(upto.last() == results.deep_view()[i as int]);
            assert(results[i as int]@ == results.deep_view()[i as int]);
        }
        if results[i].ok {
            succeeded = succeeded.saturating_add(1);
        } else {
            failed = failed.saturating_add(1);
        }
        i += 1;
    }
    assert(results.deep_view().take(results.len() as int) =~= results.deep_view());
    let processed: u32 = if results.len() <= 0xFFFF_FFFF {
        results.len() as u32
    } else {
        0xFFFF_FFFF
    };
    let attention_plan = attention_plan(events);
    SteadBatchReport { processed, succeeded, failed, results, attention_plan }
}

/// What a check of a batch found.
#[derive(Debug, PartialEq, Eq)]
pub struct EventValidation {
    pub valid: bool,
    pub event_count: usize,
    pub capsule_ids: Vec<String>,
    pub missing_capsule_ids: Vec<String>,
}

/// Whether an event of the batch names the capsule.
pub open spec fn names(events: Seq<DispatchEventView>, capsule_id: Seq<char>) -> bool {
    exists|i: int| 0 <= i < events.len() && (#[trigger] events[i]).capsule_id == capsule_id
}

/// The ids among `ids` that `known` does not hold, in the order of `ids`.
pub open spec fn unknown_among(ids: Seq<Seq<char>>, known: Set<Seq<char>>) -> Seq<Seq<char>>
    decreases ids.len(),
{
    if ids.len() == 0 {
        Seq::empty()
    } else if known.contains(ids.last()) {
        unknown_among(ids.drop_last(), known)
    } else {
        unknown_among(ids.drop_last(), known).push(ids.last())
    }
}

/// Checks a batch before anything is done: how many events it holds, which
/// capsules they name, each once and in ascending order, and which of those
/// the registry does not hold. Without a registry no capsule counts as
/// missing. The batch is valid where none is missing.
pub fn validate_events(events: &Vec<DispatchEvent>, store: Option<&CapsuleStore>) -> (found:
    EventValidation)
    requires
        store matches Some(registry) ==> registry.wf(),
    ensures
        found.event_count == events.len(),
        ascending(found.capsule_ids.deep_view()),
        forall|id: Seq<char>|
            found.capsule_ids.deep_view().contains(id) <==> names(events.deep_view(), id),
        found.missing_capsule_ids.deep_view() == match store {
            Some(registry) => unknown_among(
                found.capsule_ids.deep_view(),
                registry.capsules().dom(),
            ),
            None => Seq::<Seq<char>>::empty(),
        },
        found.valid == (found.missing_capsule_ids.len() == 0),
{
    let mut seen: TextMap<bool> = TextMap::new();
    let mut i: usize = 0;
    while i < events.len()
        invariant
            i <= events.len(),
            seen.wf(),
            forall|id: Seq<char>| #[trigger]
                seen@.contains_key(id) <==> names(events.deep_view().take(i as int), id),
        decreases events.len() - i,
    {
        let ghost before = events.deep_view().take(i as int);
        let ghost after = events.deep_view().take(i + 1);
        let ghost id0 = events[i as int].capsule_id@;
        let _ = seen.insert(events[i].capsule_id.clone(), true);
        proof {
            assert(events[i as int]@ == events.deep_view()[i as int]);
            assert forall|id: Seq<char>| #[trigger] seen@.contains_key(id) <==> names(after, id) by {
                if names(after, id) {
                    let k = choose|k: int| 0 <= k < after.len() && (#[trigger] after[k]).capsule_id == id;
                    if k < i {
                        assert(before[k].capsule_id == id);
                    }
                }
                if names(before, id) {
                    let k = choose|k: int| 0 <= k < before.len() && (#[trigger] before[k]).capsule_id == id;
                    assert(after[k].capsule_id == id);
                }
                if id == id0 {
                    assert(after[i as int].capsule_id == id);
                }
            }
        }
        i += 1;
    }
    assert(events.deep_view().take(events.len() as int) =~= events.deep_view());

    let mut capsule_ids: Vec<String> = Vec::new();
    let mut missing_capsule_ids: Vec<String> = Vec::new();
    let n: usize = seen.len();
    let mut k: usize = 0;
    while k < n
        invariant
            seen.wf(),
            n == seen.ordered_keys().len(),
            k <= n,
            store matches Some(registry) ==> registry.wf(),
            capsule_ids.deep_view() == seen.ordered_keys().take(k as int),
            missing_capsule_ids.deep_view() == match store {
                Some(registry) => unknown_among(
                    seen.ordered_keys().take(k as int),
                    registry.capsules().dom(),
                ),
                None => Seq::<Seq<char>>::empty(),
            },
        decreases n - k,
    {
        let id = seen.key_at(k);
        proof {
            let upto = seen.ordered_keys().take(k + 1);
            assert(upto.drop_last() =~= seen.ordered_keys().take(k as int));
            assert(upto.last() == id@);
        }
        match store {
            Some(registry) => {
                let known = match registry.get(id.as_str()) {
                    Ok(Some(_)) => true,
                    _ => false,
                };
                if !known {
                    let ghost before = missing_capsule_ids.deep_view();
                    missing_capsule_ids.push(id.clone());
                    assert(missing_capsule_ids.deep_view() =~= before.push(id@));
                }
            },
            None => {},
        }
        let ghost before = capsule_ids.deep_view();
        capsule_ids.push(id.clone());
        assert(capsule_ids.deep_view() =~= before.push(id@));
        assert(capsule_ids.deep_view() =~= seen.ordered_keys().take(k + 1));
        k += 1;
    }
    proof {
        seen.lemma_ordered();
        assert(seen.ordered_keys().take(n as int) =~= seen.ordered_keys());
        assert forall|id: Seq<char>|
            capsule_ids.deep_view().contains(id) <==> names(events.deep_view(), id) by {
            if capsule_ids.deep_view().contains(id) {
                let at = capsule_ids.deep_view().index_of(id);
                assert(seen@.contains_key(seen.ordered_keys()[at]));
            }
            if names(events.deep_view(), id) {
                assert(seen@.contains_key(id));
            }
        }
    }
    let valid = missing_capsule_ids.len() == 0;
    EventValidation { valid, event_count: events.len(), capsule_ids, missing_capsule_ids }
}

} // verus!
