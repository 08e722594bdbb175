//! What holds of every write to the config surface.
use vstd::prelude::*;
use crate::config::agent::AgentConfig;
use crate::config::keys::{Flag, Key, Number, Toggle};
use crate::config::surface::{setting, updated, Setting};

verus! {

proof fn lemma_overlay_enabled_held(cfg: AgentConfig, v: bool)
    ensures
        Flag::OverlayEnabled.get(Flag::OverlayEnabled.put(cfg, v)) == v,
{
}

proof fn lemma_overlay_multi_org_held(cfg: AgentConfig, v: bool)
    ensures
        Flag::OverlayMultiOrg.get(Flag::OverlayMultiOrg.put(cfg, v)) == v,
{
}

proof fn lemma_overlay_exit_node_enabled_held(cfg: AgentConfig, v: bool)
    ensures
        Flag::OverlayExitNodeEnabled.get(Flag::OverlayExitNodeEnabled.put(cfg, v)) == v,
{
}

proof fn lemma_advertise_local_subnets_held(cfg: AgentConfig, v: bool)
    ensures
        Flag::AdvertiseLocalSubnets.get(Flag::AdvertiseLocalSubnets.put(cfg, v)) == v,
{
}

proof fn lemma_auto_grant_session_held(cfg: AgentConfig, v: bool)
    ensures
        Flag::AutoGrantSession.get(Flag::AutoGrantSession.put(cfg, v)) == v,
{
}

proof fn lemma_enable_remote_browse_held(cfg: AgentConfig, v: bool)
    ensures
        Flag::EnableRemoteBrowse.get(Flag::EnableRemoteBrowse.put(cfg, v)) == v,
{
}

proof fn lemma_exec_enabled_held(cfg: AgentConfig, v: bool)
    ensures
        Flag::ExecEnabled.get(Flag::ExecEnabled.put(cfg, v)) == v,
{
}

proof fn lemma_macos_supervise_gui_worker_held(cfg: AgentConfig, v: bool)
    ensures
        Flag::MacosSuperviseGuiWorker.get(Flag::MacosSuperviseGuiWorker.put(cfg, v)) == v,
{
}

proof fn lemma_remote_config_enabled_held(cfg: AgentConfig, v: bool)
    ensures
        Flag::RemoteConfigEnabled.get(Flag::RemoteConfigEnabled.put(cfg, v)) == v,
{
}

proof fn lemma_ssh_enabled_held(cfg: AgentConfig, v: bool)
    ensures
        Flag::SshEnabled.get(Flag::SshEnabled.put(cfg, v)) == v,
{
}

proof fn lemma_ssh_activity_log_held(cfg: AgentConfig, v: bool)
    ensures
        Flag::SshActivityLog.get(Flag::SshActivityLog.put(cfg, v)) == v,
{
}

proof fn lemma_flag_held(f: Flag, cfg: AgentConfig, v: bool)
    ensures
        f.get(f.put(cfg, v)) == v,
{
    match f {
        Flag::OverlayEnabled => lemma_overlay_enabled_held(cfg, v),
        Flag::OverlayMultiOrg => lemma_overlay_multi_org_held(cfg, v),
        Flag::OverlayExitNodeEnabled => lemma_overlay_exit_node_enabled_held(cfg, v),
        Flag::AdvertiseLocalSubnets => lemma_advertise_local_subnets_held(cfg, v),
        Flag::AutoGrantSession => lemma_auto_grant_session_held(cfg, v),
        Flag::EnableRemoteBrowse => lemma_enable_remote_browse_held(cfg, v),
        Flag::ExecEnabled => lemma_exec_enabled_held(cfg, v),
        Flag::MacosSuperviseGuiWorker => lemma_macos_supervise_gui_worker_held(cfg, v),
        Flag::RemoteConfigEnabled => lemma_remote_config_enabled_held(cfg, v),
        Flag::SshEnabled => lemma_ssh_enabled_held(cfg, v),
        Flag::SshActivityLog => lemma_ssh_activity_log_held(cfg, v),
    }
}

proof fn lemma_toggle_held(t: Toggle, cfg: AgentConfig, v: Option<bool>)
    ensures
        t.get(t.put(cfg, v)) == v,
{
}

proof fn lemma_number_held(n: Number, cfg: AgentConfig, v: Option<u32>)
    ensures
        n.get(n.put(cfg, v)) == v,
{
}

/// A key holds what was written to it.
pub proof fn written_value_is_held(old: AgentConfig, key: Key, s: Setting, new: AgentConfig)
    requires
        updated(old, key, s, new),
    ensures
        setting(new, key) == s,
{
    match (key, s) {
        (Key::Flag(f), Setting::Flag(v)) => lemma_flag_held(f, old, v),
        (Key::Toggle(t), Setting::Toggle(v)) => lemma_toggle_held(t, old, v),
        (Key::Number(n), Setting::Number(v)) => lemma_number_held(n, old, v),
        _ => {},
    }
}

/// No write to the surface reaches a secret, the identity, the declared
/// routes, the org table or the crash record.
pub proof fn surface_spares_identity(old: AgentConfig, key: Key, s: Setting, new: AgentConfig)
    requires
        updated(old, key, s, new),
    ensures
        new.agent_token == old.agent_token,
        new.overlay_wg_secret_key == old.overlay_wg_secret_key,
        new.ssh_host_key == old.ssh_host_key,
        new.server_url == old.server_url,
        new.agent_id == old.agent_id,
        new.tenant_id == old.tenant_id,
        new.machine_id == old.machine_id,
        new.machine_name == old.machine_name,
        new.tunnel_routes == old.tunnel_routes,
        new.orgs == old.orgs,
        new.crash_count == old.crash_count,
        new.last_crash_unix == old.last_crash_unix,
        new.last_known_good_version == old.last_known_good_version,
{
}

} // verus!
