//! A write to one key of the config surface leaves every other key alone.
use vstd::prelude::*;
use crate::config::agent::AgentConfig;
use crate::config::keys::{Flag, Key, Number, Toggle};
use crate::config::surface::{rendered, setting, updated, Setting};

verus! {

proof fn lemma_overlay_enabled_spares(old: AgentConfig, s: Setting, new: AgentConfig, other: Key)
    requires
        updated(old, Key::Flag(Flag::OverlayEnabled), s, new),
        other != Key::Flag(Flag::OverlayEnabled),
    ensures
        setting(new, other) == setting(old, other),
{
}

proof fn lemma_overlay_multi_org_spares(old: AgentConfig, s: Setting, new: AgentConfig, other: Key)
    requires
        updated(old, Key::Flag(Flag::OverlayMultiOrg), s, new),
        other != Key::Flag(Flag::OverlayMultiOrg),
    ensures
        setting(new, other) == setting(old, other),
{
}

proof fn lemma_overlay_exit_node_enabled_spares(
    old: AgentConfig,
    s: Setting,
    new: AgentConfig,
    other: Key,
)
    requires
        updated(old, Key::Flag(Flag::OverlayExitNodeEnabled), s, new),
        other != Key::Flag(Flag::OverlayExitNodeEnabled),
    ensures
        setting(new, other) == setting(old, other),
{
}

proof fn lemma_advertise_local_subnets_spares(
    old: AgentConfig,
    s: Setting,
    new: AgentConfig,
    other: Key,
)
    requires
        updated(old, Key::Flag(Flag::AdvertiseLocalSubnets), s, new),
        other != Key::Flag(Flag::AdvertiseLocalSubnets),
    ensures
        setting(new, other) == setting(old, other),
{
}

proof fn lemma_auto_grant_session_spares(old: AgentConfig, s: Setting, new: AgentConfig, other: Key)
    requires
        updated(old, Key::Flag(Flag::AutoGrantSession), s, new),
        other != Key::Flag(Flag::AutoGrantSession),
    ensures
        setting(new, other) == setting(old, other),
{
}

proof fn lemma_enable_remote_browse_spares(
    old: AgentConfig,
    s: Setting,
    new: AgentConfig,
    other: Key,
)
    requires
        updated(old, Key::Flag(Flag::EnableRemoteBrowse), s, new),
        other != Key::Flag(Flag::EnableRemoteBrowse),
    ensures
        setting(new, other) == setting(old, other),
{
}

proof fn lemma_exec_enabled_spares(old: AgentConfig, s: Setting, new: AgentConfig, other: Key)
    requires
        updated(old, Key::Flag(Flag::ExecEnabled), s, new),
        other != Key::Flag(Flag::ExecEnabled),
    ensures
        setting(new, other) == setting(old, other),
{
}

proof fn lemma_macos_supervise_gui_worker_spares(
    old: AgentConfig,
    s: Setting,
    new: AgentConfig,
    other: Key,
)
    requires
        updated(old, Key::Flag(Flag::MacosSuperviseGuiWorker), s, new),
        other != Key::Flag(Flag::MacosSuperviseGuiWorker),
    ensures
        setting(new, other) == setting(old, other),
{
}

proof fn lemma_remote_config_enabled_spares(
    old: AgentConfig,
    s: Setting,
    new: AgentConfig,
    other: Key,
)
    requires
        updated(old, Key::Flag(Flag::RemoteConfigEnabled), s, new),
        other != Key::Flag(Flag::RemoteConfigEnabled),
    ensures
        setting(new, other) == setting(old, other),
{
}

proof fn lemma_ssh_enabled_spares(old: AgentConfig, s: Setting, new: AgentConfig, other: Key)
    requires
        updated(old, Key::Flag(Flag::SshEnabled), s, new),
        other != Key::Flag(Flag::SshEnabled),
    ensures
        setting(new, other) == setting(old, other),
{
}

proof fn lemma_ssh_activity_log_spares(old: AgentConfig, s: Setting, new: AgentConfig, other: Key)
    requires
        updated(old, Key::Flag(Flag::SshActivityLog), s, new),
        other != Key::Flag(Flag::SshActivityLog),
    ensures
        setting(new, other) == setting(old, other),
{
}

proof fn lemma_toggle_spares_toggles(t: Toggle, cfg: AgentConfig, v: Option<bool>, other: Toggle)
    requires
        other != t,
    ensures
        other.get(t.put(cfg, v)) == other.get(cfg),
{
}

proof fn lemma_toggle_spares_flags(t: Toggle, cfg: AgentConfig, v: Option<bool>, other: Flag)
    ensures
        other.get(t.put(cfg, v)) == other.get(cfg),
{
}

proof fn lemma_toggle_spares_numbers(t: Toggle, cfg: AgentConfig, v: Option<bool>, other: Number)
    ensures
        other.get(t.put(cfg, v)) == other.get(cfg),
{
}

proof fn lemma_toggle_spares_singles(t: Toggle, cfg: AgentConfig, v: Option<bool>, other: Key)
    requires
        !(other is Flag || other is Toggle || other is Number),
    ensures
        setting(t.put(cfg, v), other) == setting(cfg, other),
{
}

proof fn lemma_number_spares_numbers(n: Number, cfg: AgentConfig, v: Option<u32>, other: Number)
    requires
        other != n,
    ensures
        other.get(n.put(cfg, v)) == other.get(cfg),
{
}

proof fn lemma_number_spares_flags(n: Number, cfg: AgentConfig, v: Option<u32>, other: Flag)
    ensures
        other.get(n.put(cfg, v)) == other.get(cfg),
{
}

proof fn lemma_number_spares_toggles(n: Number, cfg: AgentConfig, v: Option<u32>, other: Toggle)
    ensures
        other.get(n.put(cfg, v)) == other.get(cfg),
{
}

proof fn lemma_number_spares_singles(n: Number, cfg: AgentConfig, v: Option<u32>, other: Key)
    requires
        !(other is Flag || other is Toggle || other is Number),
    ensures
        setting(n.put(cfg, v), other) == setting(cfg, other),
{
}

proof fn lemma_overlay_advertised_routes_spares(
    old: AgentConfig,
    s: Setting,
    new: AgentConfig,
    other: Key,
)
    requires
        updated(old, Key::OverlayAdvertisedRoutes, s, new),
        other != Key::OverlayAdvertisedRoutes,
    ensures
        setting(new, other) == setting(old, other),
{
}

proof fn lemma_overlay_exit_node_spares(old: AgentConfig, s: Setting, new: AgentConfig, other: Key)
    requires
        updated(old, Key::OverlayExitNode, s, new),
        other != Key::OverlayExitNode,
    ensures
        setting(new, other) == setting(old, other),
{
}

proof fn lemma_advertise_routes_spares(old: AgentConfig, s: Setting, new: AgentConfig, other: Key)
    requires
        updated(old, Key::AdvertiseRoutes, s, new),
        other != Key::AdvertiseRoutes,
    ensures
        setting(new, other) == setting(old, other),
{
}

proof fn lemma_power_policy_spares(old: AgentConfig, s: Setting, new: AgentConfig, other: Key)
    requires
        updated(old, Key::PowerPolicy, s, new),
        other != Key::PowerPolicy,
    ensures
        setting(new, other) == setting(old, other),
{
}

proof fn lemma_ssh_port_spares(old: AgentConfig, s: Setting, new: AgentConfig, other: Key)
    requires
        updated(old, Key::SshPort, s, new),
        other != Key::SshPort,
    ensures
        setting(new, other) == setting(old, other),
{
}

proof fn lemma_ssh_authorized_keys_spares(
    old: AgentConfig,
    s: Setting,
    new: AgentConfig,
    other: Key,
)
    requires
        updated(old, Key::SshAuthorizedKeys, s, new),
        other != Key::SshAuthorizedKeys,
    ensures
        setting(new, other) == setting(old, other),
{
}

proof fn lemma_ssh_account_mode_spares(old: AgentConfig, s: Setting, new: AgentConfig, other: Key)
    requires
        updated(old, Key::SshAccountMode, s, new),
        other != Key::SshAccountMode,
    ensures
        setting(new, other) == setting(old, other),
{
}

proof fn lemma_ssh_max_privilege_spares(old: AgentConfig, s: Setting, new: AgentConfig, other: Key)
    requires
        updated(old, Key::SshMaxPrivilege, s, new),
        other != Key::SshMaxPrivilege,
    ensures
        setting(new, other) == setting(old, other),
{
}

proof fn lemma_encoder_preference_spares(old: AgentConfig, s: Setting, new: AgentConfig, other: Key)
    requires
        updated(old, Key::EncoderPreference, s, new),
        other != Key::EncoderPreference,
    ensures
        setting(new, other) == setting(old, other),
{
}

proof fn lemma_overlay_pathmon_spares(old: AgentConfig, s: Setting, new: AgentConfig, other: Key)
    requires
        updated(old, Key::OverlayPathmon, s, new),
        other != Key::OverlayPathmon,
    ensures
        setting(new, other) == setting(old, other),
{
}

proof fn lemma_overlay_demote_spares(old: AgentConfig, s: Setting, new: AgentConfig, other: Key)
    requires
        updated(old, Key::OverlayDemote, s, new),
        other != Key::OverlayDemote,
    ensures
        setting(new, other) == setting(old, other),
{
}

proof fn lemma_overlay_rpf_spares(old: AgentConfig, s: Setting, new: AgentConfig, other: Key)
    requires
        updated(old, Key::OverlayRpf, s, new),
        other != Key::OverlayRpf,
    ensures
        setting(new, other) == setting(old, other),
{
}

proof fn lemma_netstack_socks_port_spares(
    old: AgentConfig,
    s: Setting,
    new: AgentConfig,
    other: Key,
)
    requires
        updated(old, Key::NetstackSocksPort, s, new),
        other != Key::NetstackSocksPort,
    ensures
        setting(new, other) == setting(old, other),
{
}

proof fn lemma_ice_follow_renomination_spares(
    old: AgentConfig,
    s: Setting,
    new: AgentConfig,
    other: Key,
)
    requires
        updated(old, Key::IceFollowRenomination, s, new),
        other != Key::IceFollowRenomination,
    ensures
        setting(new, other) == setting(old, other),
{
}

proof fn lemma_forward_acl_spares(old: AgentConfig, s: Setting, new: AgentConfig, other: Key)
    requires
        updated(old, Key::ForwardAcl, s, new),
        other != Key::ForwardAcl,
    ensures
        setting(new, other) == setting(old, other),
{
}

proof fn lemma_virtual_desktop_apps_spares(
    old: AgentConfig,
    s: Setting,
    new: AgentConfig,
    other: Key,
)
    requires
        updated(old, Key::VirtualDesktopApps, s, new),
        other != Key::VirtualDesktopApps,
    ensures
        setting(new, other) == setting(old, other),
{
}

/// A write to one key changes what no other key holds or shows.
pub proof fn writing_spares_other_keys(
    old: AgentConfig,
    key: Key,
    s: Setting,
    new: AgentConfig,
    other: Key,
)
    requires
        updated(old, key, s, new),
        other != key,
    ensures
        setting(new, other) == setting(old, other),
        rendered(other, setting(new, other)) == rendered(other, setting(old, other)),
{
    match key {
        Key::Flag(Flag::OverlayEnabled) => lemma_overlay_enabled_spares(old, s, new, other),
        Key::Flag(Flag::OverlayMultiOrg) => lemma_overlay_multi_org_spares(old, s, new, other),
        Key::Flag(Flag::OverlayExitNodeEnabled) => {
            lemma_overlay_exit_node_enabled_spares(old, s, new, other);
        },
        Key::Flag(Flag::AdvertiseLocalSubnets) => {
            lemma_advertise_local_subnets_spares(old, s, new, other);
        },
        Key::Flag(Flag::AutoGrantSession) => lemma_auto_grant_session_spares(old, s, new, other),
        Key::Flag(Flag::EnableRemoteBrowse) => {
            lemma_enable_remote_browse_spares(old, s, new, other);
        },
        Key::Flag(Flag::ExecEnabled) => lemma_exec_enabled_spares(old, s, new, other),
        Key::Flag(Flag::MacosSuperviseGuiWorker) => {
            lemma_macos_supervise_gui_worker_spares(old, s, new, other);
        },
        Key::Flag(Flag::RemoteConfigEnabled) => {
            lemma_remote_config_enabled_spares(old, s, new, other);
        },
        Key::Flag(Flag::SshEnabled) => lemma_ssh_enabled_spares(old, s, new, other),
        Key::Flag(Flag::SshActivityLog) => lemma_ssh_activity_log_spares(old, s, new, other),
        Key::Toggle(t) => match other {
            Key::Flag(g) => lemma_toggle_spares_flags(t, old, s->Toggle_0, g),
            Key::Toggle(u) => lemma_toggle_spares_toggles(t, old, s->Toggle_0, u),
            Key::Number(m) => lemma_toggle_spares_numbers(t, old, s->Toggle_0, m),
            _ => lemma_toggle_spares_singles(t, old, s->Toggle_0, other),
        },
        Key::Number(n) => match other {
            Key::Flag(g) => lemma_number_spares_flags(n, old, s->Number_0, g),
            Key::Toggle(u) => lemma_number_spares_toggles(n, old, s->Number_0, u),
            Key::Number(m) => lemma_number_spares_numbers(n, old, s->Number_0, m),
            _ => lemma_number_spares_singles(n, old, s->Number_0, other),
        },
        Key::OverlayAdvertisedRoutes => lemma_overlay_advertised_routes_spares(old, s, new, other),
        Key::OverlayExitNode => lemma_overlay_exit_node_spares(old, s, new, other),
        Key::AdvertiseRoutes => lemma_advertise_routes_spares(old, s, new, other),
        Key::PowerPolicy => lemma_power_policy_spares(old, s, new, other),
        Key::SshPort => lemma_ssh_port_spares(old, s, new, other),
        Key::SshAuthorizedKeys => lemma_ssh_authorized_keys_spares(old, s, new, other),
        Key::SshAccountMode => lemma_ssh_account_mode_spares(old, s, new, other),
        Key::SshMaxPrivilege => lemma_ssh_max_privilege_spares(old, s, new, other),
        Key::EncoderPreference => lemma_encoder_preference_spares(old, s, new, other),
        Key::OverlayPathmon => lemma_overlay_pathmon_spares(old, s, new, other),
        Key::OverlayDemote => lemma_overlay_demote_spares(old, s, new, other),
        Key::OverlayRpf => lemma_overlay_rpf_spares(old, s, new, other),
        Key::NetstackSocksPort => lemma_netstack_socks_port_spares(old, s, new, other),
        Key::IceFollowRenomination => lemma_ice_follow_renomination_spares(old, s, new, other),
        Key::ForwardAcl => lemma_forward_acl_spares(old, s, new, other),
        Key::VirtualDesktopApps => lemma_virtual_desktop_apps_spares(old, s, new, other),
    }
}

} // verus!
