//! The cutover flags: which capabilities the new control plane has taken over.

use vstd::prelude::*;

verus! {

/// The four flags.
#[derive(Debug, Clone, Copy, PartialEq, Eq, Structural)]
pub struct CutoverFlags {
    pub shadow_mode: bool,
    pub routing_control_plane: bool,
    pub restore_control_plane: bool,
    pub attention_control_plane: bool,
}

/// The name of one flag.
#[derive(Debug, Clone, Copy, PartialEq, Eq, Structural)]
pub enum FlagName {
    ShadowMode,
    RoutingControlPlane,
    RestoreControlPlane,
    AttentionControlPlane,
}

/// The flags of a fresh installation: shadow mode on, no capability cut over.
pub open spec fn default_flags() -> CutoverFlags {
    CutoverFlags {
        shadow_mode: true,
        routing_control_plane: false,
        restore_control_plane: false,
        attention_control_plane: false,
    }
}

/// `flags` with the flag `name` set to `enabled`.
pub open spec fn with_flag(flags: CutoverFlags, name: FlagName, enabled: bool) -> CutoverFlags {
    match name {
        FlagName::ShadowMode => CutoverFlags { shadow_mode: enabled, ..flags },
        FlagName::RoutingControlPlane => CutoverFlags { routing_control_plane: enabled, ..flags },
        FlagName::RestoreControlPlane => CutoverFlags { restore_control_plane: enabled, ..flags },
        FlagName::AttentionControlPlane => CutoverFlags {
            attention_control_plane: enabled,
            ..flags
        },
    }
}

/// The value of the flag `name` in `flags`.
pub open spec fn flag_value(flags: CutoverFlags, name: FlagName) -> bool {
    match name {
        FlagName::ShadowMode => flags.shadow_mode,
        FlagName::RoutingControlPlane => flags.routing_control_plane,
        FlagName::RestoreControlPlane => flags.restore_control_plane,
        FlagName::AttentionControlPlane => flags.attention_control_plane,
    }
}

/// The key of a flag in the flag file.
pub open spec fn flag_key(name: FlagName) -> Seq<char> {
    match name {
        FlagName::ShadowMode => "shadow_mode"@,
        FlagName::RoutingControlPlane => "routing_control_plane"@,
        FlagName::RestoreControlPlane => "restore_control_plane"@,
        FlagName::AttentionControlPlane => "attention_control_plane"@,
    }
}

impl Default for CutoverFlags {
    fn default() -> (flags: Self)
        ensures
            flags == default_flags(),
    {
        CutoverFlags {
            shadow_mode: true,
            routing_control_plane: false,
            restore_control_plane: false,
            attention_control_plane: false,
        }
    }
}

impl CutoverFlags {
    /// Sets one flag and leaves the others.
    pub fn set(&mut self, name: FlagName, enabled: bool)
        ensures
            *final(self) == with_flag(*old(self), name, enabled),
    {
        match name {
            FlagName::ShadowMode => self.shadow_mode = enabled,
            FlagName::RoutingControlPlane => self.routing_control_plane = enabled,
            FlagName::RestoreControlPlane => self.restore_control_plane = enabled,
            FlagName::AttentionControlPlane => self.attention_control_plane = enabled,
        }
    }

    /// The value of one flag.
    pub fn get(&self, name: FlagName) -> (enabled: bool)
        ensures
            enabled == flag_value(*self, name),
    {
        match name {
            FlagName::ShadowMode => self.shadow_mode,
            FlagName::RoutingControlPlane => self.routing_control_plane,
            FlagName::RestoreControlPlane => self.restore_control_plane,
            FlagName::AttentionControlPlane => self.attention_control_plane,
        }
    }
}

/// The key of a flag in the flag file.
pub fn flag_name_to_str(name: FlagName) -> (key: &'static str)
    ensures
        key@ == flag_key(name),
{
    match name {
        FlagName::ShadowMode => "shadow_mode",
        FlagName::RoutingControlPlane => "routing_control_plane",
        FlagName::RestoreControlPlane => "restore_control_plane",
        FlagName::AttentionControlPlane => "attention_control_plane",
    }
}

/// A flag that was set reads back as it was set, and the other flags read as
/// before.
pub proof fn lemma_set_then_get(flags: CutoverFlags, name: FlagName, enabled: bool, other: FlagName)
    ensures
        flag_value(with_flag(flags, name, enabled), name) == enabled,
        other != name ==> flag_value(with_flag(flags, name, enabled), other) == flag_value(
            flags,
            other,
        ),
{
}

} // verus!
