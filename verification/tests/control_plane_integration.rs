use nexum::{
    capsule::{Capsule, CapsuleMode},
    control_plane::{ExecutionStep, build_execution_plan},
    restore::{RestoreRequest, RestoreSurfaces, SignalType},
};

#[test]
fn control_plane_plan_includes_routing_shell_and_attention() {
    let request = RestoreRequest {
        capsule: Capsule::new("cap-cp-1", "Search API", CapsuleMode::HostDefault, 6),
        signal: SignalType::CriticalFailure,
        surfaces: RestoreSurfaces {
            terminal_cmd: "cd /workspace/search-api && nix develop".into(),
            editor_target: "/workspace/search-api".into(),
            browser_url: "https://search-api.nexum.local/ops".into(),
        },
    };

    let execution = build_execution_plan(&request);

    assert!(execution.target_budget_ms <= 10_000);
    assert_eq!(execution.capsule_id, "cap-cp-1");
    assert!(matches!(
        execution.steps[0],
        ExecutionStep::EnsureRoute { .. }
    ));
    assert!(
        execution
            .steps
            .iter()
            .any(|step| matches!(step, ExecutionStep::ShellFocusWorkspace(6)))
    );
    assert!(execution.steps.iter().any(|step| matches!(step, ExecutionStep::ShellSpawnBrowser(url) if url == "https://search-api.nexum.local/ops")));
    assert!(execution.steps.iter().any(|step| matches!(step, ExecutionStep::EmitAttention { priority, .. } if priority == "blocking")));
}

#[test]
fn execution_plan_holds_six_steps_in_order() {
    let request = RestoreRequest {
        capsule: Capsule::new("cap-cp-2", "Agent Gateway", CapsuleMode::IsolatedNixShell, 3),
        signal: SignalType::PassiveCompletion,
        surfaces: RestoreSurfaces {
            terminal_cmd: "t".into(),
            editor_target: "e".into(),
            browser_url: "b".into(),
        },
    };
    let execution = build_execution_plan(&request);
    assert_eq!(execution.capsule_id, "cap-cp-2");
    assert_eq!(execution.target_budget_ms, 9_500);
    assert_eq!(
        execution.steps,
        vec![
            ExecutionStep::EnsureRoute {
                domain: "agent-gateway.nexum.local".into()
            },
            ExecutionStep::ShellFocusWorkspace(3),
            ExecutionStep::ShellSpawnTerminal("t".into()),
            ExecutionStep::ShellSpawnEditor("e".into()),
            ExecutionStep::ShellSpawnBrowser("b".into()),
            ExecutionStep::EmitAttention {
                priority: "passive".into(),
                channel: "feed".into(),
                requires_ack: false,
                summary: "passive completion".into(),
            },
        ]
    );
    let mut request = request;
    request.signal = SignalType::NeedsDecision;
    assert_eq!(
        build_execution_plan(&request).steps[5],
        ExecutionStep::EmitAttention {
            priority: "active".into(),
            channel: "banner".into(),
            requires_ack: true,
            summary: "decision needed".into(),
        }
    );
    request.signal = SignalType::CriticalFailure;
    assert_eq!(
        build_execution_plan(&request).steps[5],
        ExecutionStep::EmitAttention {
            priority: "blocking".into(),
            channel: "banner_and_sound".into(),
            requires_ack: true,
            summary: "critical failure".into(),
        }
    );
}
