use nexum::shell::{
    build_niri_shell_plan, execute_shell_plan, render_command, render_shell_script, NiriAdapter,
    NiriShellCommand, NiriShellCommandView, NiriShellPlan, ShellAdapterError,
};
use nexum::restore::{RestorePlan, RestoreStep, SignalType};

#[test]
fn rendered_script_has_one_line_for_each_command() {
    let plan = NiriShellPlan {
        workspace: 7,
        commands: vec![
            NiriShellCommand::FocusWorkspace(7),
            NiriShellCommand::SpawnTerminal("cd /workspace/search && nix develop".into()),
            NiriShellCommand::SpawnEditor("/workspace/search".into()),
            NiriShellCommand::SpawnBrowser("https://search.nexum.local".into()),
            NiriShellCommand::RaiseAttention("critical_failure".into()),
        ],
    };

    assert_eq!(
        render_shell_script(&plan),
        "niri msg action focus-workspace 7\n\
         wezterm start -- bash -lc 'cd /workspace/search && nix develop'\n\
         code '/workspace/search'\n\
         xdg-open 'https://search.nexum.local'\n\
         notify-send 'Nexum Attention' 'critical_failure'"
    );
    assert_eq!(
        render_shell_script(&NiriShellPlan {
            workspace: 1,
            commands: vec![]
        }),
        ""
    );
}

#[test]
fn single_quotes_are_escaped() {
    assert_eq!(
        render_command(&NiriShellCommand::SpawnEditor("it's 'x'".into())),
        "code 'it'\"'\"'s '\"'\"'x'\"'\"''"
    );
    assert_eq!(
        render_command(&NiriShellCommand::SpawnTerminal("".into())),
        "wezterm start -- bash -lc ''"
    );
    assert_eq!(
        render_command(&NiriShellCommand::FocusWorkspace(65535)),
        "niri msg action focus-workspace 65535"
    );
    assert_eq!(
        render_command(&NiriShellCommand::FocusWorkspace(0)),
        "niri msg action focus-workspace 0"
    );
}

#[test]
fn any_list_of_steps_becomes_a_plan() {
    let plan = RestorePlan {
        capsule_id: "c".into(),
        signal: SignalType::NeedsDecision,
        target_budget_ms: 1,
        steps: vec![
            RestoreStep::LaunchEditor("e".into()),
            RestoreStep::FocusWorkspace(3),
            RestoreStep::EnsureRouting("d".into()),
            RestoreStep::FocusWorkspace(4),
            RestoreStep::EnsureRouting("d2".into()),
        ],
    };
    let shell = build_niri_shell_plan(&plan);
    assert_eq!(shell.workspace, 4);
    assert_eq!(
        shell.commands,
        vec![
            NiriShellCommand::SpawnEditor("e".into()),
            NiriShellCommand::FocusWorkspace(3),
            NiriShellCommand::FocusWorkspace(4),
        ]
    );
    let empty = RestorePlan {
        capsule_id: "c".into(),
        signal: SignalType::NeedsDecision,
        target_budget_ms: 1,
        steps: vec![],
    };
    assert_eq!(build_niri_shell_plan(&empty).workspace, 1);
}

struct Yes;

impl NiriAdapter for Yes {
    fn ran(&self) -> vstd::seq::Seq<NiriShellCommandView> {
        unreachable!("a proof-only view of the adapter")
    }

    fn may_answer(
        &self,
        _: NiriShellCommandView,
        _: Option<vstd::seq::Seq<char>>,
    ) -> bool {
        unreachable!("a proof-only view of the adapter")
    }
    fn focus_workspace(&mut self, _: u16) -> Result<(), ShellAdapterError> {
        Ok(())
    }
    fn spawn_terminal(&mut self, _: &str) -> Result<(), ShellAdapterError> {
        Ok(())
    }
    fn spawn_editor(&mut self, _: &str) -> Result<(), ShellAdapterError> {
        Ok(())
    }
    fn spawn_browser(&mut self, _: &str) -> Result<(), ShellAdapterError> {
        Ok(())
    }
    fn raise_attention(&mut self, _: &str) -> Result<(), ShellAdapterError> {
        Err(ShellAdapterError::CommandFailed("attention".into()))
    }
}

#[test]
fn an_empty_plan_always_runs() {
    let report = execute_shell_plan(
        &NiriShellPlan {
            workspace: 9,
            commands: vec![],
        },
        &mut Yes,
    )
    .unwrap();
    assert_eq!(report.workspace, 9);
    assert!(report.executed.is_empty());
    let error = execute_shell_plan(
        &NiriShellPlan {
            workspace: 9,
            commands: vec![NiriShellCommand::RaiseAttention("x".into())],
        },
        &mut Yes,
    )
    .unwrap_err();
    assert_eq!(error.message(), "command failed: attention");
}
