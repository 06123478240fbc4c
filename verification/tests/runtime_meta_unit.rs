use nexum::{
    capsule::{Capsule, CapsuleMode},
    runtime_meta::{capsule_runtime_env, terminal_process_label},
};

#[test]
fn runtime_env_prefix_contains_capsule_scoped_metadata() {
    let capsule = Capsule::new("cap-meta-1", "Meta Capsule", CapsuleMode::HostDefault, 12);
    let env = capsule_runtime_env(&capsule);

    assert_eq!(env.get("NEXUM_CAPSULE_ID"), Some(&"cap-meta-1".to_string()));
    assert_eq!(
        env.get("NEXUM_CAPSULE_DOMAIN"),
        Some(&"meta-capsule.nexum.local".to_string())
    );
    assert_eq!(env.get("NEXUM_CAPSULE_WORKSPACE"), Some(&"12".to_string()));
}

#[test]
fn terminal_process_label_includes_capsule_id() {
    let label = terminal_process_label("cap-meta-1");
    assert_eq!(label, "nexum-terminal-cap-meta-1");
}

#[test]
fn runtime_env_is_walked_in_ascending_order_of_name() {
    let capsule = Capsule::new("cap-meta-2", "Order Check", CapsuleMode::HostDefault, 65535);
    let env = capsule_runtime_env(&capsule);
    assert_eq!(env.len(), 4);
    assert_eq!(env.key_at(0), "NEXUM_CAPSULE_DOMAIN");
    assert_eq!(env.key_at(1), "NEXUM_CAPSULE_ID");
    assert_eq!(env.key_at(2), "NEXUM_CAPSULE_SLUG");
    assert_eq!(env.key_at(3), "NEXUM_CAPSULE_WORKSPACE");
    assert_eq!(env.value_at(3), "65535");
    assert_eq!(env.get("NEXUM_CAPSULE_SLUG"), Some(&"order-check".to_string()));
    assert_eq!(env.get("NEXUM_PROCESS_LABEL"), None);
}
