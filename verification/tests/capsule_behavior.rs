use nexum::capsule::{
    mode_to_str, normalize_slug, parse_mode, parse_state, state_to_str, Capsule, CapsuleMode,
    CapsuleState,
};

#[test]
fn slug_is_normalized_for_domain_identity() {
    let capsule = Capsule::new("cap-1", "Alpha Project_01!", CapsuleMode::HostDefault, 3);
    assert_eq!(capsule.slug, "alpha-project-01");
    assert_eq!(capsule.domain(), "alpha-project-01.nexum.local");
}

#[test]
fn capsule_slug_is_immutable_after_rename() {
    let mut capsule = Capsule::new("cap-2", "Billing API", CapsuleMode::IsolatedNixShell, 5);
    assert_eq!(capsule.slug, "billing-api");

    capsule.rename_display_name("Billing API V2");

    assert_eq!(capsule.display_name, "Billing API V2");
    assert_eq!(capsule.slug, "billing-api");
    assert_eq!(capsule.domain(), "billing-api.nexum.local");
}

#[test]
fn slug_falls_back_when_nothing_is_left() {
    assert_eq!(normalize_slug(""), "capsule");
    assert_eq!(normalize_slug("!!!"), "capsule");
    assert_eq!(normalize_slug("--"), "capsule");
}

#[test]
fn slug_collapses_runs_and_trims_both_ends() {
    assert_eq!(normalize_slug("  Hello,   World!  "), "hello-world");
    assert_eq!(normalize_slug("a"), "a");
    assert_eq!(normalize_slug("Ünïcode Name"), "n-code-name");
    assert_eq!(normalize_slug("A_B.C/D-E"), "a-b-c-d-e");
}

#[test]
fn modes_and_states_are_read_from_their_wire_names() {
    for mode in [CapsuleMode::HostDefault, CapsuleMode::IsolatedNixShell] {
        assert_eq!(parse_mode(mode_to_str(mode)), Ok(mode));
        assert_eq!(mode_to_str(mode).parse::<CapsuleMode>(), Ok(mode));
    }
    assert_eq!(mode_to_str(CapsuleMode::HostDefault), "host_default");
    assert_eq!(mode_to_str(CapsuleMode::IsolatedNixShell), "isolated_nix_shell");
    assert_eq!(parse_mode("docker"), Err("invalid mode: docker".to_string()));
    for state in [
        CapsuleState::Creating,
        CapsuleState::Ready,
        CapsuleState::Restoring,
        CapsuleState::Degraded,
        CapsuleState::Archived,
    ] {
        assert_eq!(parse_state(state_to_str(state)), Some(state));
    }
    assert_eq!(state_to_str(CapsuleState::Restoring), "restoring");
    assert_eq!(parse_state("Ready"), None);
    assert_eq!(parse_state(""), None);
}

#[test]
fn a_new_capsule_is_ready_and_every_state_can_be_written() {
    let mut capsule = Capsule::new("cap-3", "Gamma", CapsuleMode::HostDefault, 65535);
    assert_eq!(capsule.state, CapsuleState::Ready);
    assert_eq!(capsule.repo_path, "");
    assert_eq!(capsule.workspace, 65535);
    capsule.transition_state(CapsuleState::Archived);
    assert_eq!(capsule.state, CapsuleState::Archived);
    capsule.transition_state(CapsuleState::Creating);
    assert_eq!(capsule.state, CapsuleState::Creating);
    capsule.set_repo_path("/w/gamma");
    assert_eq!(capsule.repo_path, "/w/gamma");
    let capsule = capsule.with_repo_path("/w/other");
    assert_eq!(capsule.repo_path, "/w/other");
    assert_eq!(capsule.slug, "gamma");
    assert_eq!(capsule.capsule_id, "cap-3");
}

#[test]
fn every_slug_is_safe_in_a_domain() {
    for name in [
        "Alpha Project_01!",
        "",
        "-",
        "a",
        "A",
        "0",
        "--a--",
        "a--b",
        "a b  c",
        "日本語",
        "ÀB",
        "x.y/z",
        " leading",
        "trailing ",
        "UPPER lower 123",
        "a\tb\nc",
        "....",
        "İstanbul",
    ] {
        let slug = normalize_slug(name);
        assert!(!slug.is_empty(), "{name:?}");
        assert!(
            slug.chars()
                .all(|c| c.is_ascii_lowercase() || c.is_ascii_digit() || c == '-'),
            "{name:?}"
        );
        assert!(!slug.starts_with('-'), "{name:?}");
        assert!(!slug.ends_with('-'), "{name:?}");
        assert!(!slug.contains("--"), "{name:?}");
    }
}
