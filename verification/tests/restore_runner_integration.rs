use nexum::{
    capsule::CapsuleState,
    events::EventStore,
    restore::SignalType,
    routing::{RouteCommand, RouteEntry, RouteOutcome},
    runflow::{
        apply_browser_launch_policy, ensure_route, register_command, run_capsule,
        run_restore_flow, state_after, EventStamps, RestoreRunInput, RouteEnsureStatus,
        RouteReply, RunFlowError,
    },
    shell::{NiriShellCommand, NiriShellPlan},
    tls::TlsCertificateRecord,
};

fn input(capsule_id: &str, name: &str, workspace: u16, url: &str) -> RestoreRunInput {
    RestoreRunInput {
        capsule_id: capsule_id.into(),
        display_name: name.into(),
        workspace,
        signal: SignalType::NeedsDecision,
        terminal_cmd: "cd /workspace/runner && nix develop".into(),
        editor_target: "/workspace/runner".into(),
        browser_url: url.into(),
        route_upstream: "127.0.0.1:4700".into(),
        routing_socket: None,
        identity_collision: false,
        high_risk_secret_workflow: false,
        force_isolated_mode: false,
        capsule_db: None,
        tls_dir: "/tmp/tls".into(),
        events_db: "/tmp/events.sqlite3".into(),
    }
}

fn tls(domain: &str) -> TlsCertificateRecord {
    TlsCertificateRecord {
        domain: domain.into(),
        cert_path: format!("/tmp/tls/{domain}.crt.pem"),
        key_path: format!("/tmp/tls/{domain}.key.pem"),
        fingerprint_sha256: "ab".repeat(32),
        created_unix_ms: 1,
        expires_unix_ms: 2,
    }
}

const STAMPS: EventStamps = EventStamps {
    start_unix_ms: 10,
    routing_unix_ms: 11,
    ready_unix_ms: 12,
};

#[test]
fn run_restore_flow_returns_script_and_persists_events() {
    let run = run_restore_flow(
        &input("cap-run-1", "Runner API", 8, "https://runner-api.nexum.local"),
        &tls("runner-api.nexum.local"),
        None,
        STAMPS,
    )
    .unwrap();
    let summary = &run.summary;

    assert_eq!(summary.capsule_id, "cap-run-1");
    assert!(summary.target_budget_ms <= 10_000);
    assert!(summary
        .shell_script
        .contains("niri msg action focus-workspace 8"));
    assert!(summary
        .shell_script
        .contains("notify-send 'Nexum Attention' 'needs_decision'"));
    assert!(summary.tls_fingerprint_sha256.len() >= 16);
    assert_eq!(summary.events_written, 3);

    let mut store = EventStore::new();
    for event in run.events {
        store.append(event);
    }
    let events = store.list_for_capsule("cap-run-1");
    assert_eq!(events.len(), 3);
    assert_eq!(events[0].message, "restore start");
    assert_eq!(events[1].message, "route ensured for runner-api.nexum.local");
    assert_eq!(events[1].level, "info");
    assert_eq!(events[1].component, "routing");
    assert_eq!(events[2].message, "restore plan ready");
    assert_eq!(
        events.iter().map(|e| e.ts_unix_ms).collect::<Vec<_>>(),
        vec![10, 11, 12]
    );
    assert_eq!(run.final_state, CapsuleState::Ready);
}

#[test]
fn the_whole_script_is_rendered_line_by_line() {
    let run = run_restore_flow(
        &input("cap-run-1", "Runner API", 8, "https://runner-api.nexum.local"),
        &tls("runner-api.nexum.local"),
        None,
        STAMPS,
    )
    .unwrap();
    assert_eq!(
        run.summary.shell_script,
        "export NEXUM_CAPSULE_DOMAIN=runner-api.nexum.local\n\
         export NEXUM_CAPSULE_ID=cap-run-1\n\
         export NEXUM_CAPSULE_SLUG=runner-api\n\
         export NEXUM_CAPSULE_WORKSPACE=8\n\
         export NEXUM_PROCESS_LABEL=nexum-terminal-cap-run-1\n\
         niri msg action focus-workspace 8\n\
         wezterm start -- bash -lc 'cd /workspace/runner && nix develop'\n\
         code '/workspace/runner'\n\
         xdg-open https://runner-api.nexum.local\n\
         notify-send 'Nexum Attention' 'needs_decision'"
    );
    assert_eq!(run.summary.domain, "runner-api.nexum.local");
    assert_eq!(run.summary.run_mode, "host_default");
    assert!(!run.summary.degraded);
    assert_eq!(run.summary.degraded_reason, None);
    assert_eq!(run.summary.target_budget_ms, 9_500);
    assert_eq!(run.summary.tls_fingerprint_sha256, "ab".repeat(32));
}

#[test]
fn run_restore_flow_degrades_when_routing_socket_is_unavailable() {
    let mut request = input(
        "cap-degraded-1",
        "Degraded Restore",
        13,
        "https://degraded-restore.nexum.local",
    );
    request.routing_socket = Some("/tmp/missing.sock".into());
    let result = run_restore_flow(
        &request,
        &tls("degraded-restore.nexum.local"),
        Some(RouteReply::Failed(
            "io: No such file or directory (os error 2)".into(),
        )),
        STAMPS,
    );
    assert_eq!(state_after(&result), CapsuleState::Degraded);
    let run = result.unwrap();
    let summary = run.summary;

    assert!(summary.degraded);
    assert!(summary
        .degraded_reason
        .as_deref()
        .unwrap()
        .contains("route_unavailable"));
    assert_eq!(
        summary.degraded_reason.as_deref(),
        Some("route_unavailable: io: No such file or directory (os error 2)")
    );
    assert_eq!(summary.events_written, 3);
    assert_eq!(run.events.len(), 3);
    assert_eq!(run.events[1].level, "warn");
    assert_eq!(
        run.events[1].message,
        "degraded route for degraded-restore.nexum.local: route_unavailable: io: No such file or directory (os error 2)"
    );
    assert_eq!(run.final_state, CapsuleState::Degraded);
}

#[test]
fn run_restore_flow_registers_route_via_daemon_socket() {
    let mut request = input(
        "cap-daemon-run",
        "Runner Daemon",
        4,
        "https://runner-daemon.nexum.local",
    );
    request.routing_socket = Some("/run/nexumd.sock".into());
    assert_eq!(
        register_command(&request),
        RouteCommand::Register {
            capsule_id: "cap-daemon-run".into(),
            domain: "runner-daemon.nexum.local".into(),
            upstream: "127.0.0.1:4700".into(),
        }
    );
    let result = run_restore_flow(
        &request,
        &tls("runner-daemon.nexum.local"),
        Some(RouteReply::Answered(RouteOutcome::Registered {
            domain: "runner-daemon.nexum.local".into(),
        })),
        STAMPS,
    );
    assert_eq!(state_after(&result), CapsuleState::Ready);
    let summary = result.unwrap().summary;
    assert_eq!(summary.domain, "runner-daemon.nexum.local");
    assert!(!summary.degraded);
}

#[test]
fn run_restore_flow_returns_error_when_daemon_reports_domain_conflict() {
    let mut request = input(
        "cap-conflict",
        "Conflict Domain",
        5,
        "https://conflict-domain.nexum.local",
    );
    request.routing_socket = Some("/run/nexumd.sock".into());
    let result = run_restore_flow(
        &request,
        &tls("conflict-domain.nexum.local"),
        Some(RouteReply::Answered(RouteOutcome::Error {
            code: "domain_conflict".into(),
            message: "domain 'conflict-domain.nexum.local' already claimed by cap-other".into(),
        })),
        STAMPS,
    );
    assert_eq!(state_after(&result), CapsuleState::Degraded);
    let error = result.unwrap_err();

    assert!(error.message().contains("domain"));
    assert!(error.message().contains("claimed"));
    assert_eq!(
        error,
        RunFlowError::Routing(
            "domain_conflict: domain 'conflict-domain.nexum.local' already claimed by cap-other"
                .into()
        )
    );
    assert_eq!(
        error.message(),
        "routing failed: domain_conflict: domain 'conflict-domain.nexum.local' already claimed by cap-other"
    );
}

#[test]
fn other_answers_of_the_daemon_degrade_the_run() {
    let request = input("cap-x", "X", 1, "https://x.nexum.local");
    let capsule = run_capsule(&request);
    let status = |reply: RouteReply| ensure_route(&capsule, "u", Some(reply)).unwrap();
    assert_eq!(
        status(RouteReply::Answered(RouteOutcome::Error {
            code: "invalid_command".into(),
            message: "bad".into()
        })),
        RouteEnsureStatus::Degraded("route_unavailable: invalid_command: bad".into())
    );
    assert_eq!(
        status(RouteReply::Answered(RouteOutcome::Health {
            status: "ok".into()
        })),
        RouteEnsureStatus::Degraded("route_unavailable: unexpected daemon outcome: health".into())
    );
    assert_eq!(
        status(RouteReply::Answered(RouteOutcome::Resolved {
            route: Some(RouteEntry {
                capsule_id: "a".into(),
                domain: "b".into(),
                upstream: "c".into(),
                tls_mode: "d".into()
            })
        })),
        RouteEnsureStatus::Degraded(
            "route_unavailable: unexpected daemon outcome: resolved".into()
        )
    );
    assert_eq!(
        status(RouteReply::Answered(RouteOutcome::Removed { removed: true })),
        RouteEnsureStatus::Degraded("route_unavailable: unexpected daemon outcome: removed".into())
    );
    assert_eq!(
        status(RouteReply::Answered(RouteOutcome::Listed { routes: vec![] })),
        RouteEnsureStatus::Degraded("route_unavailable: unexpected daemon outcome: listed".into())
    );
    assert_eq!(
        status(RouteReply::Failed("timeout".into())),
        RouteEnsureStatus::Degraded("route_unavailable: timeout".into())
    );
    assert_eq!(
        ensure_route(&capsule, "u", None),
        Ok(RouteEnsureStatus::Ready)
    );
}

#[test]
fn isolation_signals_select_the_isolated_mode() {
    let mut request = input("cap-iso", "Iso", 2, "https://iso.nexum.local");
    request.high_risk_secret_workflow = true;
    let run = run_restore_flow(&request, &tls("iso.nexum.local"), None, STAMPS).unwrap();
    assert_eq!(run.summary.run_mode, "isolated_nix_shell");
    request.high_risk_secret_workflow = false;
    request.force_isolated_mode = true;
    let run = run_restore_flow(&request, &tls("iso.nexum.local"), None, STAMPS).unwrap();
    assert_eq!(run.summary.run_mode, "isolated_nix_shell");
}

#[test]
fn identity_collision_puts_the_profile_command_in_place_of_the_default_opener() {
    let plain = input("cap-id", "Identity", 3, "https://identity.nexum.local");
    let mut collided = input("cap-id", "Identity", 3, "https://identity.nexum.local");
    collided.identity_collision = true;
    let plain = run_restore_flow(&plain, &tls("identity.nexum.local"), None, STAMPS)
        .unwrap()
        .summary;
    let collided = run_restore_flow(&collided, &tls("identity.nexum.local"), None, STAMPS)
        .unwrap()
        .summary;
    assert_eq!(plain.run_mode, "host_default");
    assert_eq!(collided.run_mode, "isolated_nix_shell");
    let plain_lines = plain.shell_script.lines().collect::<Vec<_>>();
    let collided_lines = collided.shell_script.lines().collect::<Vec<_>>();
    assert_eq!(plain_lines.len(), 10);
    assert_eq!(collided_lines.len(), 10);
    assert_eq!(plain_lines[8], "xdg-open https://identity.nexum.local");
    assert_eq!(
        collided_lines[8],
        "firefox --profile /tmp/nexum/profiles/cap-id https://identity.nexum.local"
    );
    for line in 0..10 {
        if line != 8 {
            assert_eq!(plain_lines[line], collided_lines[line]);
        }
    }
}

#[test]
fn browser_policy_replaces_the_first_default_line_only() {
    let plan = NiriShellPlan {
        workspace: 1,
        commands: vec![
            NiriShellCommand::SpawnBrowser("https://other".into()),
            NiriShellCommand::SpawnTerminal("xdg-open 'https://x'".into()),
            NiriShellCommand::SpawnBrowser("https://x".into()),
            NiriShellCommand::SpawnBrowser("https://x".into()),
        ],
    };
    assert_eq!(
        apply_browser_launch_policy(&plan, "https://x", "firefox https://x"),
        "xdg-open 'https://other'\n\
         wezterm start -- bash -lc 'xdg-open '\"'\"'https://x'\"'\"''\n\
         firefox https://x\n\
         xdg-open 'https://x'"
    );
    assert_eq!(
        apply_browser_launch_policy(&plan, "https://none", "firefox"),
        "xdg-open 'https://other'\n\
         wezterm start -- bash -lc 'xdg-open '\"'\"'https://x'\"'\"''\n\
         xdg-open 'https://x'\n\
         xdg-open 'https://x'"
    );
    let empty = NiriShellPlan {
        workspace: 1,
        commands: vec![],
    };
    assert_eq!(apply_browser_launch_policy(&empty, "https://x", "firefox"), "");
}
