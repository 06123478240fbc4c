//! The event log: an append-only sequence of runtime events, with the
//! queries that read it.

use crate::text::{conjoin, reported, text_eq};
use crate::text_map::{ascending, TextMap};
use vstd::prelude::*;

verus! {

/// One runtime event.
#[derive(Debug, PartialEq, Eq)]
pub struct RuntimeEvent {
    pub capsule_id: String,
    pub component: String,
    pub level: String,
    pub message: String,
    pub ts_unix_ms: u64,
}

pub struct RuntimeEventView {
    pub capsule_id: Seq<char>,
    pub component: Seq<char>,
    pub level: Seq<char>,
    pub message: Seq<char>,
    pub ts_unix_ms: u64,
}

impl View for RuntimeEvent {
    type V = RuntimeEventView;

    open spec fn view(&self) -> RuntimeEventView {
        RuntimeEventView {
            capsule_id: self.capsule_id@,
            component: self.component@,
            level: self.level@,
            message: self.message@,
            ts_unix_ms: self.ts_unix_ms,
        }
    }
}

impl DeepView for RuntimeEvent {
    type V = RuntimeEventView;

    open spec fn deep_view(&self) -> RuntimeEventView {
        self@
    }
}

impl Clone for RuntimeEvent {
    fn clone(&self) -> (copy: Self)
        ensures
            copy@ == self@,
    {
        RuntimeEvent {
            capsule_id: self.capsule_id.clone(),
            component: self.component.clone(),
            level: self.level.clone(),
            message: self.message.clone(),
            ts_unix_ms: self.ts_unix_ms,
        }
    }
}

/// What can go wrong with the event store. Each variant holds the text of
/// the cause.
#[derive(Debug, PartialEq, Eq)]
pub enum EventError {
    Db(String),
    Io(String),
}

pub enum EventErrorView {
    Db(Seq<char>),
    Io(Seq<char>),
}

impl View for EventError {
    type V = EventErrorView;

    open spec fn view(&self) -> EventErrorView {
        match self {
            EventError::Db(cause) => EventErrorView::Db(cause@),
            EventError::Io(cause) => EventErrorView::Io(cause@),
        }
    }
}

impl EventError {
    /// The error as one line.
    pub fn message(&self) -> (line: String)
        ensures
            line@ == match self@ {
                EventErrorView::Db(cause) => "db: "@ + cause,
                EventErrorView::Io(cause) => "io: "@ + cause,
            },
    {
        match self {
            EventError::Db(cause) => conjoin("db: ", cause.as_str()),
            EventError::Io(cause) => conjoin("io: ", cause.as_str()),
        }
    }
}

/// How many events a listing holds at most where the caller names no limit.
pub const DEFAULT_LIST_LIMIT: u32 = 500;

/// A filter on events: a capsule, a level, both or neither.
pub struct EventFilter {
    pub capsule_id: Option<Seq<char>>,
    pub level: Option<Seq<char>>,
}

/// Whether an event passes a filter.
pub open spec fn passes(event: RuntimeEventView, filter: EventFilter) -> bool {
    &&& filter.capsule_id matches Some(id) ==> event.capsule_id == id
    &&& filter.level matches Some(level) ==> event.level == level
}

/// The events of a log that pass a filter, oldest first.
pub open spec fn selected(log: Seq<RuntimeEventView>, filter: EventFilter) -> Seq<RuntimeEventView>
    decreases log.len(),
{
    if log.len() == 0 {
        Seq::empty()
    } else if passes(log.last(), filter) {
        selected(log.drop_last(), filter).push(log.last())
    } else {
        selected(log.drop_last(), filter)
    }
}

/// The newest events of a log that pass a filter, newest first, `limit` at
/// most.
pub open spec fn recent(log: Seq<RuntimeEventView>, filter: EventFilter, limit: nat) -> Seq<
    RuntimeEventView,
>
    decreases log.len(),
{
    if limit == 0 || log.len() == 0 {
        Seq::empty()
    } else if passes(log.last(), filter) {
        seq![log.last()] + recent(log.drop_last(), filter, (limit - 1) as nat)
    } else {
        recent(log.drop_last(), filter, limit)
    }
}

/// The part of `events` that starts after `offset` events and holds `limit`
/// events at most.
pub open spec fn page(events: Seq<RuntimeEventView>, limit: nat, offset: nat) -> Seq<
    RuntimeEventView,
> {
    let from = if offset <= events.len() {
        offset
    } else {
        events.len()
    };
    let to = if offset + limit <= events.len() {
        offset + limit
    } else {
        events.len()
    };
    events.subrange(from as int, to as int)
}

/// The filter that passes the events of one capsule.
pub open spec fn of_capsule(capsule_id: Seq<char>) -> EventFilter {
    EventFilter { capsule_id: Some(capsule_id), level: None }
}

/// The filter that passes the events of one capsule at one level.
pub open spec fn of_capsule_level(capsule_id: Seq<char>, level: Seq<char>) -> EventFilter {
    EventFilter { capsule_id: Some(capsule_id), level: Some(level) }
}

/// The filter that an optional capsule and an optional level make.
pub open spec fn filter_of(capsule_id: Option<&str>, level: Option<&str>) -> EventFilter {
    EventFilter {
        capsule_id: match capsule_id {
            Some(id) => Some(id@),
            None => None,
        },
        level: match level {
            Some(level) => Some(level@),
            None => None,
        },
    }
}

/// The event log.
#[derive(Debug)]
pub struct EventStore {
    events: Vec<RuntimeEvent>,
}

impl EventStore {
    /// The events, oldest first.
    pub closed spec fn view(&self) -> Seq<RuntimeEventView> {
        self.events.deep_view()
    }

    /// An empty log.
    pub fn new() -> (store: Self)
        ensures
            store@ == Seq::<RuntimeEventView>::empty(),
    {
        let store = EventStore { events: Vec::new() };
        assert(store@ =~= Seq::<RuntimeEventView>::empty());
        store
    }

    /// A log that holds `events`, oldest first.
    pub fn from_events(events: Vec<RuntimeEvent>) -> (store: Self)
        ensures
            store@ == events.deep_view(),
    {
        EventStore { events }
    }

    /// How many events the log holds.
    pub fn len(&self) -> (n: usize)
        ensures
            n == self@.len(),
    {
        self.events.len()
    }

    /// Adds an event at the end of the log.
    pub fn append(&mut self, event: RuntimeEvent)
        ensures
            final(self)@ == old(self)@.push(event@),
    {
        self.events.push(event);
        assert(self@ =~= old(self)@.push(event@));
    }

    /// Whether the event at `i` passes the filter.
    fn passes_at(&self, i: usize, capsule_id: Option<&str>, level: Option<&str>) -> (pass: bool)
        requires
            i < self@.len(),
        ensures
            pass == passes(self@[i as int], filter_of(capsule_id, level)),
    {
        let event = &self.events[i];
        assert(event@ == self@[i as int]);
        let capsule_ok = match capsule_id {
            Some(id) => text_eq(event.capsule_id.as_str(), id),
            None => true,
        };
        let level_ok = match level {
            Some(level) => text_eq(event.level.as_str(), level),
            None => true,
        };
        capsule_ok && level_ok
    }

    /// All events that pass the filter, oldest first.
    fn select(&self, capsule_id: Option<&str>, level: Option<&str>) -> (found: Vec<RuntimeEvent>)
        ensures
            found.deep_view() == selected(self@, filter_of(capsule_id, level)),
    {
        let mut found: Vec<RuntimeEvent> = Vec::new();
        let mut i: usize = 0;
        while i < self.events.len()
            invariant
                i <= self.events.len(),
                found.deep_view() == selected(self@.take(i as int), filter_of(capsule_id, level)),
            decreases self.events.len() - i,
        {
            proof {
                let upto = self@.take(i + 1);
                assert(upto.drop_last() =~= self@.take(i as int));
                assert(upto.last() == self@[i as int]);
            }
            if self.passes_at(i, capsule_id, level) {
                let ghost before = found.deep_view();
                found.push(self.events[i].clone());
                assert(found.deep_view() =~= before.push(self@[i as int]));
            }
            i += 1;
        }
        assert(self@.take(self.events.len() as int) =~= self@);
        found
    }

    /// The events of a capsule, oldest first, 500 at most.
    pub fn list_for_capsule(&self, capsule_id: &str) -> (events: Vec<RuntimeEvent>)
        ensures
            events.deep_view() == page(selected(self@, of_capsule(capsule_id@)), 500, 0),
    {
        self.list_for_capsule_paginated(capsule_id, DEFAULT_LIST_LIMIT, 0)
    }

    /// The events of a capsule, oldest first: `limit` at most, after the
    /// first `offset`.
    pub fn list_for_capsule_paginated(&self, capsule_id: &str, limit: u32, offset: u32) -> (events:
        Vec<RuntimeEvent>)
        ensures
            events.deep_view() == page(
                selected(self@, of_capsule(capsule_id@)),
                limit as nat,
                offset as nat,
            ),
    {
        let all = self.select(Some(capsule_id), None);
        let n: usize = all.len();
        let from: usize = if (offset as usize) <= n {
            offset as usize
        } else {
            n
        };
        let wanted: u64 = offset as u64 + limit as u64;
        let to: usize = if wanted <= n as u64 {
            wanted as usize
        } else {
            n
        };
        let mut events: Vec<RuntimeEvent> = Vec::new();
        let mut i: usize = from;
        while i < to
            invariant
                from <= i <= to <= all.len(),
                events.deep_view() == all.deep_view().subrange(from as int, i as int),
            decreases to - i,
        {
            let ghost before = events.deep_view();
            events.push(all[i].clone());
            assert(events.deep_view() =~= before.push(all.deep_view()[i as int]));
            assert(events.deep_view() =~= all.deep_view().subrange(from as int, i + 1));
            i += 1;
        }
        events
    }

    /// The newest events that pass the filter, newest first: `limit` at most,
    /// and 500 at most where no limit is named.
    pub fn list_recent(&self, capsule_id: Option<&str>, level: Option<&str>, limit: Option<u32>) -> (events:
        Vec<RuntimeEvent>)
        ensures
            events.deep_view() == recent(
                self@,
                filter_of(capsule_id, level),
                match limit {
                    Some(n) => n as nat,
                    None => 500,
                },
            ),
    {
        let limit: u32 = match limit {
            Some(n) => n,
            None => DEFAULT_LIST_LIMIT,
        };
        let ghost filter = filter_of(capsule_id, level);
        let mut events: Vec<RuntimeEvent> = Vec::new();
        let mut left: u32 = limit;
        let mut i: usize = self.events.len();
        assert(self@.take(i as int) =~= self@);
        while i > 0 && left > 0
            invariant
                i <= self.events.len(),
                filter == filter_of(capsule_id, level),
                recent(self@, filter, limit as nat) == events.deep_view() + recent(
                    self@.take(i as int),
                    filter,
                    left as nat,
                ),
            decreases i,
        {
            proof {
                let upto = self@.take(i as int);
                assert(upto.drop_last() =~= self@.take(i - 1));
                assert(upto.last() == self@[i - 1]);
            }
            i -= 1;
            if self.passes_at(i, capsule_id, level) {
                let ghost before = events.deep_view();
                events.push(self.events[i].clone());
                left -= 1;
                assert(events.deep_view() + recent(self@.take(i as int), filter, left as nat)
                    =~= before + (seq![self@[i as int]] + recent(
                    self@.take(i as int),
                    filter,
                    left as nat,
                )));
            }
        }
        assert(events.deep_view() + Seq::<RuntimeEventView>::empty() =~= events.deep_view());
        events
    }

    /// How many events a capsule has at a level.
    pub fn count_for_capsule_level(&self, capsule_id: &str, level: &str) -> (count: u32)
        ensures
            count == reported(selected(self@, of_capsule_level(capsule_id@, level@)).len()),
    {
        let mut count: u32 = 0;
        let mut i: usize = 0;
        let ghost filter = of_capsule_level(capsule_id@, level@);
        while i < self.events.len()
            invariant
                i <= self.events.len(),
                filter == filter_of(Some(capsule_id), Some(level)),
                count == reported(selected(self@.take(i as int), filter).len()),
            decreases self.events.len() - i,
        {
            proof {
                let upto = self@.take(i + 1);
                assert(upto.drop_last() =~= self@.take(i as int));
                assert(upto.last() == self@[i as int]);
            }
            if self.passes_at(i, Some(capsule_id), Some(level)) {
                count = count.saturating_add(1);
            }
            i += 1;
        }
        assert(self@.take(self.events.len() as int) =~= self@);
        count
    }
}

/// The events of one capsule in numbers.
#[derive(Debug, PartialEq, Eq)]
pub struct CapsuleEventSummary {
    pub capsule_id: String,
    pub total: u32,
    pub critical_events: u32,
    pub last_ts_unix_ms: u64,
}

pub struct CapsuleEventSummaryView {
    pub capsule_id: Seq<char>,
    pub total: u32,
    pub critical_events: u32,
    pub last_ts_unix_ms: u64,
}

impl View for CapsuleEventSummary {
    type V = CapsuleEventSummaryView;

    open spec fn view(&self) -> CapsuleEventSummaryView {
        CapsuleEventSummaryView {
            capsule_id: self.capsule_id@,
            total: self.total,
            critical_events: self.critical_events,
            last_ts_unix_ms: self.last_ts_unix_ms,
        }
    }
}

impl DeepView for CapsuleEventSummary {
    type V = CapsuleEventSummaryView;

    open spec fn deep_view(&self) -> CapsuleEventSummaryView {
        self@
    }
}

impl Clone for CapsuleEventSummary {
    fn clone(&self) -> (copy: Self)
        ensures
            copy@ == self@,
    {
        CapsuleEventSummary {
            capsule_id: self.capsule_id.clone(),
            total: self.total,
            critical_events: self.critical_events,
            last_ts_unix_ms: self.last_ts_unix_ms,
        }
    }
}

/// The whole log in numbers.
#[derive(Debug, PartialEq, Eq)]
pub struct EventSummary {
    pub total_events: u32,
    pub critical_events: u32,
    pub capsules: Vec<CapsuleEventSummary>,
}

pub struct EventSummaryView {
    pub total_events: u32,
    pub critical_events: u32,
    pub capsules: Seq<CapsuleEventSummaryView>,
}

impl View for EventSummary {
    type V = EventSummaryView;

    open spec fn view(&self) -> EventSummaryView {
        EventSummaryView {
            total_events: self.total_events,
            critical_events: self.critical_events,
            capsules: self.capsules.deep_view(),
        }
    }
}

/// The filter that passes the critical events of every capsule.
pub open spec fn critical() -> EventFilter {
    EventFilter { capsule_id: None, level: Some("critical"@) }
}

/// The greatest timestamp among `events`; 0 where there is none.
pub open spec fn latest_ts(events: Seq<RuntimeEventView>) -> u64
    decreases events.len(),
{
    if events.len() == 0 {
        0
    } else if events.last().ts_unix_ms >= latest_ts(events.drop_last()) {
        events.last().ts_unix_ms
    } else {
        latest_ts(events.drop_last())
    }
}

/// Whether the log holds an event of the capsule.
pub open spec fn occurs(log: Seq<RuntimeEventView>, capsule_id: Seq<char>) -> bool {
    exists|i: int| 0 <= i < log.len() && (#[trigger] log[i]).capsule_id == capsule_id
}

/// The events of one capsule in numbers: how many, how many of them
/// critical, and the latest timestamp.
pub open spec fn capsule_summary_of(log: Seq<RuntimeEventView>, capsule_id: Seq<char>) -> CapsuleEventSummaryView {
    CapsuleEventSummaryView {
        capsule_id,
        total: reported(selected(log, of_capsule(capsule_id)).len()),
        critical_events: reported(
            selected(log, of_capsule_level(capsule_id, "critical"@)).len(),
        ),
        last_ts_unix_ms: latest_ts(selected(log, of_capsule(capsule_id))),
    }
}

/// The capsules of a list of summaries.
pub open spec fn summarized_ids(capsules: Seq<CapsuleEventSummaryView>) -> Seq<Seq<char>> {
    Seq::new(capsules.len(), |i: int| capsules[i].capsule_id)
}

/// Whether `capsules` sums the log up by capsule: one summary for each
/// capsule that has an event, in ascending order of capsule id.
pub open spec fn sums_up(capsules: Seq<CapsuleEventSummaryView>, log: Seq<RuntimeEventView>) -> bool {
    &&& ascending(summarized_ids(capsules))
    &&& forall|i: int|
        0 <= i < capsules.len() ==> occurs(log, (#[trigger] capsules[i]).capsule_id) && capsules[i]
            == capsule_summary_of(log, capsules[i].capsule_id)
    &&& forall|id: Seq<char>| #[trigger]
        occurs(log, id) ==> summarized_ids(capsules).contains(id)
}

/// A capsule that has no event in the log has none that passes a filter on
/// that capsule.
pub proof fn lemma_selected_absent(log: Seq<RuntimeEventView>, filter: EventFilter, id: Seq<char>)
    requires
        filter.capsule_id == Some(id),
        !occurs(log, id),
    ensures
        selected(log, filter) == Seq::<RuntimeEventView>::empty(),
    decreases log.len(),
{
    if log.len() > 0 {
        assert(log[log.len() - 1].capsule_id != id);
        assert forall|i: int| 0 <= i < log.drop_last().len() implies (#[trigger] log.drop_last()[i]).capsule_id
            != id by {
            assert(log[i].capsule_id != id);
        }
        lemma_selected_absent(log.drop_last(), filter, id);
    }
}

impl EventStore {
    /// Sums the log up: how many events, how many of them critical, and the
    /// same for each capsule that has an event, with its latest timestamp, in
    /// ascending order of capsule id.
    pub fn summary(&self) -> (summary: EventSummary)
        ensures
            summary.total_events == reported(self@.len()),
            summary.critical_events == reported(selected(self@, critical()).len()),
            sums_up(summary@.capsules, self@),
    {
        let mut by_capsule: TextMap<CapsuleEventSummary> = TextMap::new();
        let mut critical_events: u32 = 0;
        let mut i: usize = 0;
        while i < self.events.len()
            invariant
                i <= self.events.len(),
                by_capsule.wf(),
                critical_events == reported(selected(self@.take(i as int), critical()).len()),
                forall|id: Seq<char>| #[trigger]
                    by_capsule@.contains_key(id) <==> occurs(self@.take(i as int), id),
                forall|id: Seq<char>| #[trigger]
                    by_capsule@.contains_key(id) ==> by_capsule@[id]@ == capsule_summary_of(
                        self@.take(i as int),
                        id,
                    ),
            decreases self.events.len() - i,
        {
            let event = &self.events[i];
            let ghost before = self@.take(i as int);
            let ghost after = self@.take(i + 1);
            let ghost id0 = event.capsule_id@;
            let ghost acc = by_capsule@;
            proof {
                assert(after.drop_last() =~= before);
                assert(after.last() == self@[i as int]);
                assert(event@ == self@[i as int]);
            }
            let is_critical = text_eq(event.level.as_str(), "critical");
            if is_critical {
                critical_events = critical_events.saturating_add(1);
            }
            let (total, critical_so_far, last_ts) = match by_capsule.get(event.capsule_id.as_str()) {
                Some(entry) => (entry.total, entry.critical_events, entry.last_ts_unix_ms),
                None => {
                    proof {
                        lemma_selected_absent(before, of_capsule(id0), id0);
                        lemma_selected_absent(before, of_capsule_level(id0, "critical"@), id0);
                    }
                    (0, 0, 0)
                },
            };
            let entry = CapsuleEventSummary {
                capsule_id: event.capsule_id.clone(),
                total: total.saturating_add(1),
                critical_events: if is_critical {
                    critical_so_far.saturating_add(1)
                } else {
                    critical_so_far
                },
                last_ts_unix_ms: if event.ts_unix_ms >= last_ts {
                    event.ts_unix_ms
                } else {
                    last_ts
                },
            };
            let _ = by_capsule.insert(event.capsule_id.clone(), entry);
            proof {
                let all = of_capsule(id0);
                let bad = of_capsule_level(id0, "critical"@);
                assert(passes(after.last(), all));
                assert(selected(after, all) == selected(before, all).push(after.last()));
                assert(selected(after, all).drop_last() =~= selected(before, all));
                assert(passes(after.last(), bad) == is_critical);
                if acc.contains_key(id0) {
                    assert(acc[id0]@ == capsule_summary_of(before, id0));
                }
                assert(total == reported(selected(before, all).len()));
                assert(critical_so_far == reported(selected(before, bad).len()));
                assert(last_ts == latest_ts(selected(before, all)));
                assert(entry@.total == capsule_summary_of(after, id0).total);
                assert(entry@.critical_events == capsule_summary_of(after, id0).critical_events);
                assert(entry@.last_ts_unix_ms == capsule_summary_of(after, id0).last_ts_unix_ms);
                assert(entry@ == capsule_summary_of(after, id0));
                assert forall|id: Seq<char>| #[trigger]
                    by_capsule@.contains_key(id) <==> occurs(after, id) by {
                    if occurs(after, id) {
                        let k = choose|k: int| 0 <= k < after.len() && (#[trigger] after[k]).capsule_id == id;
                        if k < i {
                            assert(before[k].capsule_id == id);
                        }
                    }
                    if occurs(before, id) {
                        let k = choose|k: int| 0 <= k < before.len() && (#[trigger] before[k]).capsule_id == id;
                        assert(after[k].capsule_id == id);
                    }
                    if id == id0 {
                        assert(after[i as int].capsule_id == id);
                    }
                }
                assert forall|id: Seq<char>| #[trigger]
                    by_capsule@.contains_key(id) implies by_capsule@[id]@ == capsule_summary_of(
                    after,
                    id,
                ) by {
                    if id != id0 {
                        assert(acc.contains_key(id));
                        assert(by_capsule@[id] == acc[id]);
                    }
                }
            }
            i += 1;
        }
        assert(self@.take(self.events.len() as int) =~= self@);

        let mut capsules: Vec<CapsuleEventSummary> = Vec::new();
        let n: usize = by_capsule.len();
        let mut k: usize = 0;
        while k < n
            invariant
                by_capsule.wf(),
                n == by_capsule.ordered_keys().len(),
                k <= n,
                capsules.len() == k,
                forall|j: int|
                    0 <= j < k ==> (#[trigger] capsules[j])@ == by_capsule@[by_capsule.ordered_keys()[j]]@,
            decreases n - k,
        {
            proof {
                by_capsule.lemma_ordered();
            }
            capsules.push(by_capsule.value_at(k).clone());
            k += 1;
        }
        proof {
            by_capsule.lemma_ordered();
            let keys = by_capsule.ordered_keys();
            let listed = capsules.deep_view();
            assert forall|j: int| 0 <= j < listed.len() implies occurs(
                self@,
                (#[trigger] listed[j]).capsule_id,
            ) && listed[j] == capsule_summary_of(self@, listed[j].capsule_id) && listed[j].capsule_id
                == keys[j] by {
                assert(listed[j] == capsules[j]@);
                assert(by_capsule@.contains_key(keys[j]));
            }
            assert(summarized_ids(listed) =~= keys);
        }
        let total_events: u32 = if self.events.len() <= 0xFFFF_FFFF {
            self.events.len() as u32
        } else {
            0xFFFF_FFFF
        };
        EventSummary { total_events, critical_events, capsules }
    }
}

} // verus!
