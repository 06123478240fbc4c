//! The supervisor: the registry, the event log and the flags in one report,
//! and the capsules that block a cutover.

use crate::capsule::{
    mode_text, mode_to_str, state_text, state_to_str, Capsule, CapsuleState, CapsuleView,
};
use crate::events::{of_capsule_level, recent, selected, EventFilter, EventStore, RuntimeEventView};
use crate::text::{optional_text, reported};
use crate::flags::CutoverFlags;
use vstd::prelude::*;

verus! {

/// How many critical events make a capsule a blocker where the caller names
/// no threshold.
pub const DEFAULT_CRITICAL_THRESHOLD: u32 = 1;

/// One capsule as the supervisor sees it.
#[derive(Debug, PartialEq, Eq)]
pub struct SupervisorCapsuleStatus {
    pub capsule_id: String,
    pub display_name: String,
    pub repo_path: String,
    pub mode: String,
    pub state: String,
    pub workspace: u16,
    pub critical_events: u32,
    pub last_event_level: Option<String>,
    pub last_event_message: Option<String>,
    pub last_event_ts_unix_ms: Option<u64>,
}

pub struct SupervisorCapsuleStatusView {
    pub capsule_id: Seq<char>,
    pub display_name: Seq<char>,
    pub repo_path: Seq<char>,
    pub mode: Seq<char>,
    pub state: Seq<char>,
    pub workspace: u16,
    pub critical_events: u32,
    pub last_event_level: Option<Seq<char>>,
    pub last_event_message: Option<Seq<char>>,
    pub last_event_ts_unix_ms: Option<u64>,
}

impl View for SupervisorCapsuleStatus {
    type V = SupervisorCapsuleStatusView;

    open spec fn view(&self) -> SupervisorCapsuleStatusView {
        SupervisorCapsuleStatusView {
            capsule_id: self.capsule_id@,
            display_name: self.display_name@,
            repo_path: self.repo_path@,
            mode: self.mode@,
            state: self.state@,
            workspace: self.workspace,
            critical_events: self.critical_events,
            last_event_level: optional_text(self.last_event_level),
            last_event_message: optional_text(self.last_event_message),
            last_event_ts_unix_ms: self.last_event_ts_unix_ms,
        }
    }
}

impl DeepView for SupervisorCapsuleStatus {
    type V = SupervisorCapsuleStatusView;

    open spec fn deep_view(&self) -> SupervisorCapsuleStatusView {
        self@
    }
}

/// The whole installation as the supervisor sees it.
#[derive(Debug, PartialEq, Eq)]
pub struct SupervisorStatusReport {
    pub flags: CutoverFlags,
    pub total_capsules: u32,
    pub degraded_capsules: u32,
    pub archived_capsules: u32,
    pub critical_events: u32,
    pub capsules: Vec<SupervisorCapsuleStatus>,
}

pub struct SupervisorStatusReportView {
    pub flags: CutoverFlags,
    pub total_capsules: u32,
    pub degraded_capsules: u32,
    pub archived_capsules: u32,
    pub critical_events: u32,
    pub capsules: Seq<SupervisorCapsuleStatusView>,
}

impl View for SupervisorStatusReport {
    type V = SupervisorStatusReportView;

    open spec fn view(&self) -> SupervisorStatusReportView {
        SupervisorStatusReportView {
            flags: self.flags,
            total_capsules: self.total_capsules,
            degraded_capsules: self.degraded_capsules,
            archived_capsules: self.archived_capsules,
            critical_events: self.critical_events,
            capsules: self.capsules.deep_view(),
        }
    }
}

/// A capsule that blocks a cutover, and why.
#[derive(Debug, PartialEq, Eq)]
pub struct SupervisorBlocker {
    pub capsule_id: String,
    pub state: String,
    pub critical_events: u32,
    pub reasons: Vec<String>,
}

pub struct SupervisorBlockerView {
    pub capsule_id: Seq<char>,
    pub state: Seq<char>,
    pub critical_events: u32,
    pub reasons: Seq<Seq<char>>,
}

impl View for SupervisorBlocker {
    type V = SupervisorBlockerView;

    open spec fn view(&self) -> SupervisorBlockerView {
        SupervisorBlockerView {
            capsule_id: self.capsule_id@,
            state: self.state@,
            critical_events: self.critical_events,
            reasons: self.reasons.deep_view(),
        }
    }
}

impl DeepView for SupervisorBlocker {
    type V = SupervisorBlockerView;

    open spec fn deep_view(&self) -> SupervisorBlockerView {
        self@
    }
}

/// How many critical events a capsule has, as reported.
pub open spec fn critical_count(log: Seq<RuntimeEventView>, capsule_id: Seq<char>) -> u32 {
    reported(selected(log, of_capsule_level(capsule_id, "critical"@)).len())
}

/// The newest event of a capsule, if it has one.
pub open spec fn last_event(log: Seq<RuntimeEventView>, capsule_id: Seq<char>) -> Option<
    RuntimeEventView,
> {
    let newest = recent(log, EventFilter { capsule_id: Some(capsule_id), level: None }, 1);
    if newest.len() > 0 {
        Some(newest[0])
    } else {
        None
    }
}

/// One capsule as the supervisor sees it.
pub open spec fn capsule_status_of(capsule: CapsuleView, log: Seq<RuntimeEventView>) -> SupervisorCapsuleStatusView {
    SupervisorCapsuleStatusView {
        capsule_id: capsule.capsule_id,
        display_name: capsule.display_name,
        repo_path: capsule.repo_path,
        mode: mode_text(capsule.mode),
        state: state_text(capsule.state),
        workspace: capsule.workspace,
        critical_events: critical_count(log, capsule.capsule_id),
        last_event_level: match last_event(log, capsule.capsule_id) {
            Some(event) => Some(event.level),
            None => None,
        },
        last_event_message: match last_event(log, capsule.capsule_id) {
            Some(event) => Some(event.message),
            None => None,
        },
        last_event_ts_unix_ms: match last_event(log, capsule.capsule_id) {
            Some(event) => Some(event.ts_unix_ms),
            None => None,
        },
    }
}

/// How many of the capsules are in `state`.
pub open spec fn count_in_state(capsules: Seq<CapsuleView>, state: CapsuleState) -> nat
    decreases capsules.len(),
{
    if capsules.len() == 0 {
        0
    } else {
        count_in_state(capsules.drop_last(), state) + if capsules.last().state == state {
            1nat
        } else {
            0nat
        }
    }
}

/// The critical events of all the capsules, as reported for each, summed up.
pub open spec fn critical_total(capsules: Seq<CapsuleView>, log: Seq<RuntimeEventView>) -> nat
    decreases capsules.len(),
{
    if capsules.len() == 0 {
        0
    } else {
        critical_total(capsules.drop_last(), log) + critical_count(
            log,
            capsules.last().capsule_id,
        ) as nat
    }
}

/// The report on a list of capsules.
pub open spec fn status_report_of(
    capsules: Seq<CapsuleView>,
    log: Seq<RuntimeEventView>,
    flags: CutoverFlags,
) -> SupervisorStatusReportView {
    SupervisorStatusReportView {
        flags,
        total_capsules: reported(capsules.len()),
        degraded_capsules: reported(count_in_state(capsules, CapsuleState::Degraded)),
        archived_capsules: reported(count_in_state(capsules, CapsuleState::Archived)),
        critical_events: reported(critical_total(capsules, log)),
        capsules: Seq::new(capsules.len(), |i: int| capsule_status_of(capsules[i], log)),
    }
}

/// One capsule as the supervisor sees it: what the registry holds of it, how
/// many critical events it has, and its newest event.
pub fn capsule_status(capsule: &Capsule, events: &EventStore) -> (status: SupervisorCapsuleStatus)
    ensures
        status@ == capsule_status_of(capsule@, events@),
{
    let critical_events = events.count_for_capsule_level(capsule.capsule_id.as_str(), "critical");
    let newest = events.list_recent(Some(capsule.capsule_id.as_str()), None, Some(1));
    assert(newest.deep_view().len() > 0 ==> newest.deep_view()[0] == newest[0]@);
    let (level, message, ts) = if newest.len() > 0 {
        (
            Some(newest[0].level.clone()),
            Some(newest[0].message.clone()),
            Some(newest[0].ts_unix_ms),
        )
    } else {
        (None, None, None)
    };
    SupervisorCapsuleStatus {
        capsule_id: capsule.capsule_id.clone(),
        display_name: capsule.display_name.clone(),
        repo_path: capsule.repo_path.clone(),
        mode: String::from_str(mode_to_str(capsule.mode)),
        state: String::from_str(state_to_str(capsule.state)),
        workspace: capsule.workspace,
        critical_events,
        last_event_level: level,
        last_event_message: message,
        last_event_ts_unix_ms: ts,
    }
}

/// Reports on the capsules of the registry, in the order in which it lists
/// them: each capsule with its critical events and newest event, and how
/// many capsules there are, how many of them degraded, how many archived,
/// and how many critical events in all.
pub fn supervisor_status(capsules: &Vec<Capsule>, events: &EventStore, flags: CutoverFlags) -> (report:
    SupervisorStatusReport)
    ensures
        report@ == status_report_of(capsules.deep_view(), events@, flags),
{
    let mut degraded_capsules: u32 = 0;
    let mut archived_capsules: u32 = 0;
    let mut critical_events: u32 = 0;
    let mut statuses: Vec<SupervisorCapsuleStatus> = Vec::new();
    let mut i: usize = 0;
    while i < capsules.len()
        invariant
            i <= capsules.len(),
            statuses.len() == i,
            forall|j: int|
                0 <= j < i ==> (#[trigger] statuses[j])@ == capsule_status_of(
                    capsules.deep_view()[j],
                    events@,
                ),
            degraded_capsules == reported(
                count_in_state(capsules.deep_view().take(i as int), CapsuleState::Degraded),
            ),
            archived_capsules == reported(
                count_in_state(capsules.deep_view().take(i as int), CapsuleState::Archived),
            ),
            critical_events == reported(critical_total(capsules.deep_view().take(i as int), events@)),
        decreases capsules.len() - i,
    {
        let capsule = &capsules[i];
        proof {
            let upto = capsules.deep_view().take(i + 1);
            assert(upto.drop_last() =~= capsules.deep_view().take(i as int));
            assert(upto.last() == capsules.deep_view()[i as int]);
            assert(capsule@ == capsules.deep_view()[i as int]);
        }
        match capsule.state {
            CapsuleState::Degraded => {
                degraded_capsules = degraded_capsules.saturating_add(1);
            },
            CapsuleState::Archived => {
                archived_capsules = archived_capsules.saturating_add(1);
            },
            _ => {},
        }
        let status = capsule_status(capsule, events);
        critical_events = critical_events.saturating_add(status.critical_events);
        statuses.push(status);
        i += 1;
    }
    assert(capsules.deep_view().take(capsules.len() as int) =~= capsules.deep_view());
    assert(statuses.deep_view() =~= Seq::new(
        capsules.deep_view().len(),
        |i: int| capsule_status_of(capsules.deep_view()[i], events@),
    ));
    let total_capsules: u32 = if statuses.len() <= 0xFFFF_FFFF {
        statuses.len() as u32
    } else {
        0xFFFF_FFFF
    };
    SupervisorStatusReport {
        flags,
        total_capsules,
        degraded_capsules,
        archived_capsules,
        critical_events,
        capsules: statuses,
    }
}

/// Why a capsule blocks: its state, its critical events, both or neither.
pub open spec fn blocker_reasons(capsule: CapsuleView, critical_events: u32, threshold: u32) -> Seq<
    Seq<char>,
> {
    (if capsule.state == CapsuleState::Degraded {
        seq!["state_degraded"@]
    } else {
        Seq::empty()
    }) + (if critical_events >= threshold {
        seq!["critical_events_threshold"@]
    } else {
        Seq::empty()
    })
}

/// Whether a capsule blocks: it is degraded, or it has at least `threshold`
/// critical events.
pub open spec fn is_blocker(capsule: CapsuleView, log: Seq<RuntimeEventView>, threshold: u32) -> bool {
    capsule.state == CapsuleState::Degraded || critical_count(log, capsule.capsule_id) >= threshold
}

/// The blocker that a blocking capsule makes.
pub open spec fn blocker_of(capsule: CapsuleView, log: Seq<RuntimeEventView>, threshold: u32) -> SupervisorBlockerView {
    SupervisorBlockerView {
        capsule_id: capsule.capsule_id,
        state: state_text(capsule.state),
        critical_events: critical_count(log, capsule.capsule_id),
        reasons: blocker_reasons(capsule, critical_count(log, capsule.capsule_id), threshold),
    }
}

/// The blockers among the capsules, in the order of the capsules.
pub open spec fn blockers_of(capsules: Seq<CapsuleView>, log: Seq<RuntimeEventView>, threshold: u32) -> Seq<
    SupervisorBlockerView,
>
    decreases capsules.len(),
{
    if capsules.len() == 0 {
        Seq::empty()
    } else if is_blocker(capsules.last(), log, threshold) {
        blockers_of(capsules.drop_last(), log, threshold).push(
            blocker_of(capsules.last(), log, threshold),
        )
    } else {
        blockers_of(capsules.drop_last(), log, threshold)
    }
}

/// Lists the capsules that block a cutover: those that are degraded and
/// those with at least `critical_threshold` critical events, each with its
/// reasons.
pub fn supervisor_blockers(capsules: &Vec<Capsule>, events: &EventStore, critical_threshold: u32) -> (blockers:
    Vec<SupervisorBlocker>)
    ensures
        blockers.deep_view() == blockers_of(capsules.deep_view(), events@, critical_threshold),
{
    let mut blockers: Vec<SupervisorBlocker> = Vec::new();
    let mut i: usize = 0;
    while i < capsules.len()
        invariant
            i <= capsules.len(),
            blockers.deep_view() == blockers_of(
                capsules.deep_view().take(i as int),
                events@,
                critical_threshold,
            ),
        decreases capsules.len() - i,
    {
        let capsule = &capsules[i];
        proof {
            let upto = capsules.deep_view().take(i + 1);
            assert(upto.drop_last() =~= capsules.deep_view().take(i as int));
            assert(upto.last() == capsules.deep_view()[i as int]);
            assert(capsule@ == capsules.deep_view()[i as int]);
        }
        let critical_events = events.count_for_capsule_level(
            capsule.capsule_id.as_str(),
            "critical",
        );
        let mut reasons: Vec<String> = Vec::new();
        let degraded = match capsule.state {
            CapsuleState::Degraded => true,
            _ => false,
        };
        if degraded {
            reasons.push(String::from_str("state_degraded"));
        }
        if critical_events >= critical_threshold {
            reasons.push(String::from_str("critical_events_threshold"));
        }
        assert(reasons.deep_view() =~= blocker_reasons(capsule@, critical_events, critical_threshold));
        if reasons.len() > 0 {
            let ghost before = blockers.deep_view();
            blockers.push(
                SupervisorBlocker {
                    capsule_id: capsule.capsule_id.clone(),
                    state: String::from_str(state_to_str(capsule.state)),
                    critical_events,
                    reasons,
                },
            );
            assert(blockers.deep_view() =~= before.push(
                blocker_of(capsule@, events@, critical_threshold),
            ));
        }
        i += 1;
    }
    assert(capsules.deep_view().take(capsules.len() as int) =~= capsules.deep_view());
    blockers
}

} // verus!
