use nexum::{
    capsule::{Capsule, CapsuleMode},
    restore::SignalType,
    stead::{
        attention_plan, batch_report, batch_result, batch_results, dispatch_stead_event,
        restore_surfaces, validate_events, DispatchError, DispatchEvent, DispatchPaths,
        SteadError, SurfaceOverrides,
    },
    store::CapsuleStore,
};

fn event(capsule_id: &str, signal: SignalType) -> DispatchEvent {
    DispatchEvent {
        capsule_id: capsule_id.into(),
        signal,
        upstream: "127.0.0.1:5100".into(),
        identity_collision: false,
        high_risk_secret_workflow: false,
        force_isolated_mode: false,
    }
}

fn no_overrides() -> SurfaceOverrides {
    SurfaceOverrides {
        terminal: None,
        editor: None,
        browser: None,
    }
}

fn paths() -> DispatchPaths {
    DispatchPaths {
        routing_socket: Some("/run/nexumd.sock".into()),
        capsule_db: "/db/capsules.sqlite3".into(),
        tls_dir: "/tls".into(),
        events_db: "/db/events.sqlite3".into(),
    }
}

#[test]
fn attention_plan_routes_priorities_and_focus() {
    let events = vec![
        event("cap-passive", SignalType::PassiveCompletion),
        event("cap-active", SignalType::NeedsDecision),
        event("cap-critical", SignalType::CriticalFailure),
        event("cap-critical-2", SignalType::CriticalFailure),
    ];
    let plan = attention_plan(&events);
    assert_eq!(plan.blocking, 2);
    assert_eq!(plan.active, 1);
    assert_eq!(plan.passive, 1);
    assert_eq!(plan.requires_ack_count, 3);
    assert_eq!(plan.focus_capsule_id.as_deref(), Some("cap-critical"));

    let plan = attention_plan(&events[..2].to_vec());
    assert_eq!(plan.focus_capsule_id.as_deref(), Some("cap-active"));
    let plan = attention_plan(&events[..1].to_vec());
    assert_eq!(plan.focus_capsule_id.as_deref(), Some("cap-passive"));
    assert_eq!(plan.requires_ack_count, 0);
    let plan = attention_plan(&Vec::new());
    assert_eq!(plan.focus_capsule_id, None);
    assert_eq!((plan.blocking, plan.active, plan.passive), (0, 0, 0));
}

#[test]
fn surfaces_come_from_the_repository_unless_overridden() {
    let capsule =
        Capsule::new("cap-1", "Search API", CapsuleMode::HostDefault, 6).with_repo_path("/w/s");
    let surfaces = restore_surfaces(&capsule, &no_overrides()).unwrap();
    assert_eq!(surfaces.terminal_cmd, "cd /w/s && nix develop");
    assert_eq!(surfaces.editor_target, "/w/s");
    assert_eq!(surfaces.browser_url, "https://search-api.nexum.local");

    let overrides = SurfaceOverrides {
        terminal: Some("htop".into()),
        editor: Some("/etc".into()),
        browser: Some("https://example.test".into()),
    };
    let surfaces = restore_surfaces(&capsule, &overrides).unwrap();
    assert_eq!(surfaces.terminal_cmd, "htop");
    assert_eq!(surfaces.editor_target, "/etc");
    assert_eq!(surfaces.browser_url, "https://example.test");

    let bare = Capsule::new("cap-2", "Bare", CapsuleMode::HostDefault, 1);
    assert_eq!(
        restore_surfaces(&bare, &no_overrides()),
        Err(DispatchError::MissingSurfaces)
    );
    let half = SurfaceOverrides {
        terminal: Some("htop".into()),
        editor: None,
        browser: None,
    };
    assert_eq!(
        restore_surfaces(&bare, &half),
        Err(DispatchError::MissingSurfaces)
    );
    let both = SurfaceOverrides {
        terminal: Some("htop".into()),
        editor: Some("/etc".into()),
        browser: None,
    };
    assert_eq!(
        restore_surfaces(&bare, &both).unwrap().browser_url,
        "https://bare.nexum.local"
    );
    assert!(DispatchError::MissingSurfaces
        .message()
        .starts_with("missing restore surfaces"));
}

#[test]
fn dispatch_builds_the_input_of_the_restore() {
    let capsule = Capsule::new("cap-known", "Known Capsule", CapsuleMode::HostDefault, 7)
        .with_repo_path("/w/known");
    let mut signal = event("cap-known", SignalType::CriticalFailure);
    signal.identity_collision = true;
    let input = dispatch_stead_event(Some(capsule), &signal, &no_overrides(), &paths()).unwrap();
    assert_eq!(input.capsule_id, "cap-known");
    assert_eq!(input.display_name, "Known Capsule");
    assert_eq!(input.workspace, 7);
    assert_eq!(input.signal, SignalType::CriticalFailure);
    assert_eq!(input.terminal_cmd, "cd /w/known && nix develop");
    assert_eq!(input.editor_target, "/w/known");
    assert_eq!(input.browser_url, "https://known-capsule.nexum.local");
    assert_eq!(input.route_upstream, "127.0.0.1:5100");
    assert_eq!(input.routing_socket.as_deref(), Some("/run/nexumd.sock"));
    assert!(input.identity_collision);
    assert!(!input.high_risk_secret_workflow);
    assert!(!input.force_isolated_mode);
    assert_eq!(input.capsule_db.as_deref(), Some("/db/capsules.sqlite3"));
    assert_eq!(input.tls_dir, "/tls");
    assert_eq!(input.events_db, "/db/events.sqlite3");

    let error = dispatch_stead_event(None, &signal, &no_overrides(), &paths()).unwrap_err();
    assert_eq!(error, DispatchError::UnknownCapsule("cap-known".into()));
    assert_eq!(error.message(), "unknown capsule: cap-known");
}

#[test]
fn batch_report_counts_results() {
    let events = vec![
        event("cap-known", SignalType::NeedsDecision),
        event("cap-missing", SignalType::CriticalFailure),
    ];
    let results = vec![
        batch_result("cap-known", Ok(())),
        batch_result("cap-missing", Err("unknown capsule: cap-missing".into())),
    ];
    let report = batch_report(results, &events);
    assert_eq!(report.processed, 2);
    assert_eq!(report.succeeded, 1);
    assert_eq!(report.failed, 1);
    assert_eq!(report.results[0].capsule_id, "cap-known");
    assert!(report.results[0].ok);
    assert_eq!(report.results[0].error, None);
    assert!(!report.results[1].ok);
    assert_eq!(
        report.results[1].error.as_deref(),
        Some("unknown capsule: cap-missing")
    );
    assert_eq!(
        report.attention_plan.focus_capsule_id.as_deref(),
        Some("cap-missing")
    );
}

#[test]
fn validation_lists_each_capsule_once_and_finds_the_missing() {
    let events = vec![
        event("cap-known", SignalType::NeedsDecision),
        event("cap-missing", SignalType::CriticalFailure),
        event("cap-missing", SignalType::PassiveCompletion),
        event("cap-absent", SignalType::PassiveCompletion),
    ];
    let found = validate_events(&events, None);
    assert!(found.valid);
    assert_eq!(found.event_count, 4);
    assert_eq!(
        found.capsule_ids,
        vec!["cap-absent", "cap-known", "cap-missing"]
    );
    assert!(found.missing_capsule_ids.is_empty());

    let mut store = CapsuleStore::new();
    store
        .upsert(Capsule::new("cap-known", "Known", CapsuleMode::HostDefault, 1))
        .unwrap();
    let found = validate_events(&events, Some(&store));
    assert!(!found.valid);
    assert_eq!(found.missing_capsule_ids, vec!["cap-absent", "cap-missing"]);
    let found = validate_events(&events[..1].to_vec(), Some(&store));
    assert!(found.valid);
    let found = validate_events(&Vec::new(), Some(&store));
    assert!(found.valid);
    assert_eq!(found.event_count, 0);
}

#[test]
fn parse_errors_name_the_argument() {
    assert_eq!(
        SteadError::ParseJson("eof".into()).message(),
        "invalid --event-json: eof"
    );
    assert_eq!(
        SteadError::ParseJsonBatch("eof".into()).message(),
        "invalid --events-json: eof"
    );
}

#[test]
fn results_stand_at_the_places_of_their_events() {
    let events = vec![
        event("cap-1", SignalType::NeedsDecision),
        event("cap-2", SignalType::CriticalFailure),
        event("cap-1", SignalType::PassiveCompletion),
    ];
    let results = batch_results(
        &events,
        vec![Ok(()), Err("unknown capsule: cap-2".into()), Ok(())],
    );
    assert_eq!(results.len(), 3);
    assert_eq!(
        results
            .iter()
            .map(|r| (r.capsule_id.as_str(), r.ok, r.error.as_deref()))
            .collect::<Vec<_>>(),
        vec![
            ("cap-1", true, None),
            ("cap-2", false, Some("unknown capsule: cap-2")),
            ("cap-1", true, None),
        ]
    );
    assert!(batch_results(&Vec::new(), Vec::new()).is_empty());
    let report = batch_report(results, &events);
    assert_eq!((report.processed, report.succeeded, report.failed), (3, 2, 1));
}
