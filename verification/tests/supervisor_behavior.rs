use nexum::{
    capsule::{Capsule, CapsuleMode, CapsuleState},
    events::{EventStore, RuntimeEvent},
    flags::CutoverFlags,
    store::CapsuleStore,
    supervisor::{supervisor_blockers, supervisor_status, DEFAULT_CRITICAL_THRESHOLD},
};

fn event(capsule_id: &str, level: &str, message: &str, ts: u64) -> RuntimeEvent {
    RuntimeEvent {
        capsule_id: capsule_id.into(),
        component: "runflow".into(),
        level: level.into(),
        message: message.into(),
        ts_unix_ms: ts,
    }
}

fn sample() -> (Vec<Capsule>, EventStore) {
    let mut store = CapsuleStore::new();
    store
        .upsert(Capsule::new("cap-b", "Beta", CapsuleMode::IsolatedNixShell, 2).with_repo_path("/b"))
        .unwrap();
    store
        .upsert(Capsule::new("cap-a", "Alpha", CapsuleMode::HostDefault, 1))
        .unwrap();
    store
        .upsert(Capsule::new("cap-c", "Gamma", CapsuleMode::HostDefault, 3))
        .unwrap();
    store
        .transition_state("cap-a", CapsuleState::Degraded)
        .unwrap();
    store
        .transition_state("cap-c", CapsuleState::Archived)
        .unwrap();
    let mut events = EventStore::new();
    events.append(event("cap-b", "critical", "first", 1));
    events.append(event("cap-a", "info", "fine", 2));
    events.append(event("cap-b", "critical", "second", 3));
    events.append(event("cap-b", "info", "last of b", 4));
    (store.list().unwrap(), events)
}

#[test]
fn status_reports_each_capsule_with_its_events() {
    let (capsules, events) = sample();
    let report = supervisor_status(&capsules, &events, CutoverFlags::default());
    assert_eq!(report.flags, CutoverFlags::default());
    assert_eq!(report.total_capsules, 3);
    assert_eq!(report.degraded_capsules, 1);
    assert_eq!(report.archived_capsules, 1);
    assert_eq!(report.critical_events, 2);
    let ids = report
        .capsules
        .iter()
        .map(|c| c.capsule_id.as_str())
        .collect::<Vec<_>>();
    assert_eq!(ids, vec!["cap-a", "cap-b", "cap-c"]);
    let a = &report.capsules[0];
    assert_eq!(a.state, "degraded");
    assert_eq!(a.mode, "host_default");
    assert_eq!(a.critical_events, 0);
    assert_eq!(a.last_event_message.as_deref(), Some("fine"));
    assert_eq!(a.last_event_level.as_deref(), Some("info"));
    assert_eq!(a.last_event_ts_unix_ms, Some(2));
    let b = &report.capsules[1];
    assert_eq!(b.display_name, "Beta");
    assert_eq!(b.repo_path, "/b");
    assert_eq!(b.mode, "isolated_nix_shell");
    assert_eq!(b.state, "ready");
    assert_eq!(b.workspace, 2);
    assert_eq!(b.critical_events, 2);
    assert_eq!(b.last_event_message.as_deref(), Some("last of b"));
    let c = &report.capsules[2];
    assert_eq!(c.state, "archived");
    assert_eq!(c.last_event_level, None);
    assert_eq!(c.last_event_message, None);
    assert_eq!(c.last_event_ts_unix_ms, None);
}

#[test]
fn blockers_are_the_degraded_and_the_critical() {
    let (capsules, events) = sample();
    assert_eq!(DEFAULT_CRITICAL_THRESHOLD, 1);
    let blockers = supervisor_blockers(&capsules, &events, DEFAULT_CRITICAL_THRESHOLD);
    assert_eq!(blockers.len(), 2);
    assert_eq!(blockers[0].capsule_id, "cap-a");
    assert_eq!(blockers[0].state, "degraded");
    assert_eq!(blockers[0].critical_events, 0);
    assert_eq!(blockers[0].reasons, vec!["state_degraded"]);
    assert_eq!(blockers[1].capsule_id, "cap-b");
    assert_eq!(blockers[1].critical_events, 2);
    assert_eq!(blockers[1].reasons, vec!["critical_events_threshold"]);

    let blockers = supervisor_blockers(&capsules, &events, 3);
    assert_eq!(blockers.len(), 1);
    assert_eq!(blockers[0].capsule_id, "cap-a");

    // with a threshold of zero every capsule has enough critical events
    let blockers = supervisor_blockers(&capsules, &events, 0);
    assert_eq!(blockers.len(), 3);
    assert_eq!(
        blockers[0].reasons,
        vec!["state_degraded", "critical_events_threshold"]
    );
    assert!(supervisor_blockers(&Vec::new(), &events, 1).is_empty());
}
