use nexum::flags::{CutoverFlags, FlagName};

#[test]
fn defaults_to_shadow_mode_only() {
    let flags = CutoverFlags::default();
    assert!(flags.shadow_mode);
    assert!(!flags.routing_control_plane);
    assert!(!flags.restore_control_plane);
    assert!(!flags.attention_control_plane);
}

#[test]
fn set_changes_one_flag_and_leaves_the_others() {
    let mut flags = CutoverFlags::default();
    flags.set(FlagName::RoutingControlPlane, true);
    flags.set(FlagName::RestoreControlPlane, true);
    assert!(flags.shadow_mode);
    assert!(flags.routing_control_plane);
    assert!(flags.restore_control_plane);
    assert!(!flags.attention_control_plane);
    flags.set(FlagName::ShadowMode, false);
    assert!(!flags.get(FlagName::ShadowMode));
    assert!(flags.get(FlagName::RoutingControlPlane));
}
