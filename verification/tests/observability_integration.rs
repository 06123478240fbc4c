use nexum::events::{EventStore, RuntimeEvent};

fn event(capsule_id: &str, component: &str, level: &str, message: &str, ts: u64) -> RuntimeEvent {
    RuntimeEvent {
        capsule_id: capsule_id.into(),
        component: component.into(),
        level: level.into(),
        message: message.into(),
        ts_unix_ms: ts,
    }
}

#[test]
fn event_store_persists_and_lists_runtime_events() {
    let mut store = EventStore::new();
    store.append(RuntimeEvent {
        capsule_id: "cap-obs-1".into(),
        component: "routing".into(),
        level: "info".into(),
        message: "route registered".into(),
        ts_unix_ms: 1000,
    });
    store.append(RuntimeEvent {
        capsule_id: "cap-obs-1".into(),
        component: "restore".into(),
        level: "warn".into(),
        message: "browser fallback".into(),
        ts_unix_ms: 1200,
    });

    let listed = store.list_for_capsule("cap-obs-1");
    assert_eq!(listed.len(), 2);
    assert_eq!(listed[0].component, "routing");
    assert_eq!(listed[1].component, "restore");
}

#[test]
fn event_store_lists_recent_events_with_filters_and_limit() {
    let mut store = EventStore::new();
    store.append(RuntimeEvent {
        capsule_id: "cap-obs-a".into(),
        component: "routing".into(),
        level: "info".into(),
        message: "route ready".into(),
        ts_unix_ms: 1000,
    });
    store.append(RuntimeEvent {
        capsule_id: "cap-obs-a".into(),
        component: "restore".into(),
        level: "critical".into(),
        message: "restore failed".into(),
        ts_unix_ms: 1100,
    });
    store.append(RuntimeEvent {
        capsule_id: "cap-obs-b".into(),
        component: "restore".into(),
        level: "critical".into(),
        message: "another failure".into(),
        ts_unix_ms: 1200,
    });

    let listed = store.list_recent(Some("cap-obs-a"), Some("critical"), Some(5));
    assert_eq!(listed.len(), 1);
    assert_eq!(listed[0].capsule_id, "cap-obs-a");
    assert_eq!(listed[0].message, "restore failed");

    let latest = store.list_recent(None, Some("critical"), Some(1));
    assert_eq!(latest.len(), 1);
    assert_eq!(latest[0].capsule_id, "cap-obs-b");
    assert_eq!(latest[0].ts_unix_ms, 1200);
}

#[test]
fn pages_are_cut_out_of_the_events_of_one_capsule() {
    let mut store = EventStore::new();
    for i in 0..10u64 {
        store.append(event("cap-a", "c", "info", &format!("a{i}"), i));
        store.append(event("cap-b", "c", "info", &format!("b{i}"), i));
    }
    let messages = |events: Vec<RuntimeEvent>| {
        events
            .into_iter()
            .map(|e| e.message)
            .collect::<Vec<_>>()
    };
    assert_eq!(
        messages(store.list_for_capsule_paginated("cap-a", 3, 2)),
        vec!["a2", "a3", "a4"]
    );
    assert_eq!(
        messages(store.list_for_capsule_paginated("cap-a", 5, 8)),
        vec!["a8", "a9"]
    );
    assert!(store.list_for_capsule_paginated("cap-a", 5, 10).is_empty());
    assert!(store.list_for_capsule_paginated("cap-a", 0, 0).is_empty());
    assert!(store
        .list_for_capsule_paginated("cap-a", u32::MAX, u32::MAX)
        .is_empty());
    assert_eq!(
        store
            .list_for_capsule_paginated("cap-b", u32::MAX, 0)
            .len(),
        10
    );
    assert!(store.list_for_capsule("cap-c").is_empty());
    assert_eq!(store.len(), 20);
}

#[test]
fn listings_without_a_limit_hold_five_hundred_events() {
    let mut store = EventStore::new();
    for i in 0..600u64 {
        store.append(event("cap-a", "c", "info", "m", i));
    }
    let oldest = store.list_for_capsule("cap-a");
    assert_eq!(oldest.len(), 500);
    assert_eq!(oldest[0].ts_unix_ms, 0);
    assert_eq!(oldest[499].ts_unix_ms, 499);
    let newest = store.list_recent(None, None, None);
    assert_eq!(newest.len(), 500);
    assert_eq!(newest[0].ts_unix_ms, 599);
    assert_eq!(newest[499].ts_unix_ms, 100);
    assert!(store.list_recent(None, None, Some(0)).is_empty());
    assert_eq!(store.list_recent(None, None, Some(600)).len(), 600);
}

#[test]
fn summary_counts_by_capsule_in_ascending_order() {
    let mut store = EventStore::new();
    store.append(event("cap-ev-2", "routing", "warn", "route degraded", 1020));
    store.append(event("cap-ev-1", "restore", "info", "restore ready", 1000));
    store.append(event("cap-ev-1", "runflow", "critical", "restore failed", 1010));
    store.append(event("cap-ev-1", "runflow", "info", "late entry", 900));

    let summary = store.summary();
    assert_eq!(summary.total_events, 4);
    assert_eq!(summary.critical_events, 1);
    assert_eq!(summary.capsules.len(), 2);
    assert_eq!(summary.capsules[0].capsule_id, "cap-ev-1");
    assert_eq!(summary.capsules[0].total, 3);
    assert_eq!(summary.capsules[0].critical_events, 1);
    assert_eq!(summary.capsules[0].last_ts_unix_ms, 1010);
    assert_eq!(summary.capsules[1].capsule_id, "cap-ev-2");
    assert_eq!(summary.capsules[1].total, 1);
    assert_eq!(summary.capsules[1].critical_events, 0);
    assert_eq!(summary.capsules[1].last_ts_unix_ms, 1020);

    assert_eq!(store.count_for_capsule_level("cap-ev-1", "critical"), 1);
    assert_eq!(store.count_for_capsule_level("cap-ev-1", "info"), 2);
    assert_eq!(store.count_for_capsule_level("cap-ev-2", "critical"), 0);
    assert_eq!(store.count_for_capsule_level("cap-ev-3", "info"), 0);

    let empty = EventStore::new().summary();
    assert_eq!(empty.total_events, 0);
    assert!(empty.capsules.is_empty());
}
