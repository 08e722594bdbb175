//! Each key of the config surface is the field of its own name: the field is
//! what is shown, and a write changes that field and no other.
use vstd::prelude::*;
use crate::config::agent::{AgentConfig, EncoderPreferenceChoice};
use crate::config::key_names::names_find_their_keys;
use crate::config::keys::{key_named, Flag, Key, Number, Toggle};
use crate::config::surface::{setting, updated, value_of, Setting};
use crate::num::decimal;
use crate::text::{join, opt_view, views};

verus! {

/// `overlay_enabled` is the field of that name.
pub proof fn overlay_enabled_is_its_field(old: AgentConfig, s: Setting, new: AgentConfig)
    ensures
        key_named("overlay_enabled"@) matches Some(key) && {
            &&& setting(old, key) == Setting::Flag(old.overlay_enabled)
            &&& updated(old, key, s, new) ==> {
                &&& s == Setting::Flag(new.overlay_enabled)
                &&& new == (AgentConfig { overlay_enabled: new.overlay_enabled, ..old })
            }
        },
        value_of(old, "overlay_enabled"@) == Some(
            if old.overlay_enabled {
                "true"@
            } else {
                "false"@
            },
        ),
{
    names_find_their_keys(Key::Flag(Flag::OverlayEnabled));
}

/// `overlay_multi_org` is the field of that name.
pub proof fn overlay_multi_org_is_its_field(old: AgentConfig, s: Setting, new: AgentConfig)
    ensures
        key_named("overlay_multi_org"@) matches Some(key) && {
            &&& setting(old, key) == Setting::Flag(old.overlay_multi_org)
            &&& updated(old, key, s, new) ==> {
                &&& s == Setting::Flag(new.overlay_multi_org)
                &&& new == (AgentConfig { overlay_multi_org: new.overlay_multi_org, ..old })
            }
        },
        value_of(old, "overlay_multi_org"@) == Some(
            if old.overlay_multi_org {
                "true"@
            } else {
                "false"@
            },
        ),
{
    names_find_their_keys(Key::Flag(Flag::OverlayMultiOrg));
}

/// `overlay_exit_node_enabled` is the field of that name.
pub proof fn overlay_exit_node_enabled_is_its_field(old: AgentConfig, s: Setting, new: AgentConfig)
    ensures
        key_named("overlay_exit_node_enabled"@) matches Some(key) && {
            &&& setting(old, key) == Setting::Flag(old.overlay_exit_node_enabled)
            &&& updated(old, key, s, new) ==> {
                &&& s == Setting::Flag(new.overlay_exit_node_enabled)
                &&& new == (AgentConfig {
                    overlay_exit_node_enabled: new.overlay_exit_node_enabled,
                    ..old
                })
            }
        },
        value_of(old, "overlay_exit_node_enabled"@) == Some(
            if old.overlay_exit_node_enabled {
                "true"@
            } else {
                "false"@
            },
        ),
{
    names_find_their_keys(Key::Flag(Flag::OverlayExitNodeEnabled));
}

/// `advertise_local_subnets` is the field of that name.
pub proof fn advertise_local_subnets_is_its_field(old: AgentConfig, s: Setting, new: AgentConfig)
    ensures
        key_named("advertise_local_subnets"@) matches Some(key) && {
            &&& setting(old, key) == Setting::Flag(old.advertise_local_subnets)
            &&& updated(old, key, s, new) ==> {
                &&& s == Setting::Flag(new.advertise_local_subnets)
                &&& new == (AgentConfig {
                    advertise_local_subnets: new.advertise_local_subnets,
                    ..old
                })
            }
        },
        value_of(old, "advertise_local_subnets"@) == Some(
            if old.advertise_local_subnets {
                "true"@
            } else {
                "false"@
            },
        ),
{
    names_find_their_keys(Key::Flag(Flag::AdvertiseLocalSubnets));
}

/// `auto_grant_session` is the field of that name.
pub proof fn auto_grant_session_is_its_field(old: AgentConfig, s: Setting, new: AgentConfig)
    ensures
        key_named("auto_grant_session"@) matches Some(key) && {
            &&& setting(old, key) == Setting::Flag(old.auto_grant_session)
            &&& updated(old, key, s, new) ==> {
                &&& s == Setting::Flag(new.auto_grant_session)
                &&& new == (AgentConfig { auto_grant_session: new.auto_grant_session, ..old })
            }
        },
        value_of(old, "auto_grant_session"@) == Some(
            if old.auto_grant_session {
                "true"@
            } else {
                "false"@
            },
        ),
{
    names_find_their_keys(Key::Flag(Flag::AutoGrantSession));
}

/// `enable_remote_browse` is the field of that name.
pub proof fn enable_remote_browse_is_its_field(old: AgentConfig, s: Setting, new: AgentConfig)
    ensures
        key_named("enable_remote_browse"@) matches Some(key) && {
            &&& setting(old, key) == Setting::Flag(old.enable_remote_browse)
            &&& updated(old, key, s, new) ==> {
                &&& s == Setting::Flag(new.enable_remote_browse)
                &&& new == (AgentConfig { enable_remote_browse: new.enable_remote_browse, ..old })
            }
        },
        value_of(old, "enable_remote_browse"@) == Some(
            if old.enable_remote_browse {
                "true"@
            } else {
                "false"@
            },
        ),
{
    names_find_their_keys(Key::Flag(Flag::EnableRemoteBrowse));
}

/// `exec_enabled` is the field of that name.
pub proof fn exec_enabled_is_its_field(old: AgentConfig, s: Setting, new: AgentConfig)
    ensures
        key_named("exec_enabled"@) matches Some(key) && {
            &&& setting(old, key) == Setting::Flag(old.exec_enabled)
            &&& updated(old, key, s, new) ==> {
                &&& s == Setting::Flag(new.exec_enabled)
                &&& new == (AgentConfig { exec_enabled: new.exec_enabled, ..old })
            }
        },
        value_of(old, "exec_enabled"@) == Some(
            if old.exec_enabled {
                "true"@
            } else {
                "false"@
            },
        ),
{
    names_find_their_keys(Key::Flag(Flag::ExecEnabled));
}

/// `macos_supervise_gui_worker` is the field of that name.
pub proof fn macos_supervise_gui_worker_is_its_field(old: AgentConfig, s: Setting, new: AgentConfig)
    ensures
        key_named("macos_supervise_gui_worker"@) matches Some(key) && {
            &&& setting(old, key) == Setting::Flag(old.macos_supervise_gui_worker)
            &&& updated(old, key, s, new) ==> {
                &&& s == Setting::Flag(new.macos_supervise_gui_worker)
                &&& new == (AgentConfig {
                    macos_supervise_gui_worker: new.macos_supervise_gui_worker,
                    ..old
                })
            }
        },
        value_of(old, "macos_supervise_gui_worker"@) == Some(
            if old.macos_supervise_gui_worker {
                "true"@
            } else {
                "false"@
            },
        ),
{
    names_find_their_keys(Key::Flag(Flag::MacosSuperviseGuiWorker));
}

/// `remote_config_enabled` is the field of that name.
pub proof fn remote_config_enabled_is_its_field(old: AgentConfig, s: Setting, new: AgentConfig)
    ensures
        key_named("remote_config_enabled"@) matches Some(key) && {
            &&& setting(old, key) == Setting::Flag(old.remote_config_enabled)
            &&& updated(old, key, s, new) ==> {
                &&& s == Setting::Flag(new.remote_config_enabled)
                &&& new == (AgentConfig { remote_config_enabled: new.remote_config_enabled, ..old })
            }
        },
        value_of(old, "remote_config_enabled"@) == Some(
            if old.remote_config_enabled {
                "true"@
            } else {
                "false"@
            },
        ),
{
    names_find_their_keys(Key::Flag(Flag::RemoteConfigEnabled));
}

/// `ssh_enabled` is the field of that name.
pub proof fn ssh_enabled_is_its_field(old: AgentConfig, s: Setting, new: AgentConfig)
    ensures
        key_named("ssh_enabled"@) matches Some(key) && {
            &&& setting(old, key) == Setting::Flag(old.ssh_enabled)
            &&& updated(old, key, s, new) ==> {
                &&& s == Setting::Flag(new.ssh_enabled)
                &&& new == (AgentConfig { ssh_enabled: new.ssh_enabled, ..old })
            }
        },
        value_of(old, "ssh_enabled"@) == Some(
            if old.ssh_enabled {
                "true"@
            } else {
                "false"@
            },
        ),
{
    names_find_their_keys(Key::Flag(Flag::SshEnabled));
}

/// `ssh_activity_log` is the field of that name.
pub proof fn ssh_activity_log_is_its_field(old: AgentConfig, s: Setting, new: AgentConfig)
    ensures
        key_named("ssh_activity_log"@) matches Some(key) && {
            &&& setting(old, key) == Setting::Flag(old.ssh_activity_log)
            &&& updated(old, key, s, new) ==> {
                &&& s == Setting::Flag(new.ssh_activity_log)
                &&& new == (AgentConfig { ssh_activity_log: new.ssh_activity_log, ..old })
            }
        },
        value_of(old, "ssh_activity_log"@) == Some(
            if old.ssh_activity_log {
                "true"@
            } else {
                "false"@
            },
        ),
{
    names_find_their_keys(Key::Flag(Flag::SshActivityLog));
}

/// `overlay_quic` is the field of that name.
pub proof fn overlay_quic_is_its_field(old: AgentConfig, s: Setting, new: AgentConfig)
    ensures
        key_named("overlay_quic"@) matches Some(key) && {
            &&& setting(old, key) == Setting::Toggle(old.overlay_quic)
            &&& updated(old, key, s, new) ==> {
                &&& s == Setting::Toggle(new.overlay_quic)
                &&& new == (AgentConfig { overlay_quic: new.overlay_quic, ..old })
            }
        },
        value_of(old, "overlay_quic"@) == match old.overlay_quic {
            Some(true) => Some("true"@),
            Some(false) => Some("false"@),
            None => None,
        },
{
    names_find_their_keys(Key::Toggle(Toggle::OverlayQuic));
}

/// `overlay_direct` is the field of that name.
pub proof fn overlay_direct_is_its_field(old: AgentConfig, s: Setting, new: AgentConfig)
    ensures
        key_named("overlay_direct"@) matches Some(key) && {
            &&& setting(old, key) == Setting::Toggle(old.overlay_direct)
            &&& updated(old, key, s, new) ==> {
                &&& s == Setting::Toggle(new.overlay_direct)
                &&& new == (AgentConfig { overlay_direct: new.overlay_direct, ..old })
            }
        },
        value_of(old, "overlay_direct"@) == match old.overlay_direct {
            Some(true) => Some("true"@),
            Some(false) => Some("false"@),
            None => None,
        },
{
    names_find_their_keys(Key::Toggle(Toggle::OverlayDirect));
}

/// `overlay_derp` is the field of that name.
pub proof fn overlay_derp_is_its_field(old: AgentConfig, s: Setting, new: AgentConfig)
    ensures
        key_named("overlay_derp"@) matches Some(key) && {
            &&& setting(old, key) == Setting::Toggle(old.overlay_derp)
            &&& updated(old, key, s, new) ==> {
                &&& s == Setting::Toggle(new.overlay_derp)
                &&& new == (AgentConfig { overlay_derp: new.overlay_derp, ..old })
            }
        },
        value_of(old, "overlay_derp"@) == match old.overlay_derp {
            Some(true) => Some("true"@),
            Some(false) => Some("false"@),
            None => None,
        },
{
    names_find_their_keys(Key::Toggle(Toggle::OverlayDerp));
}

/// `overlay_server_relay_strategy` is the field of that name.
pub proof fn overlay_server_relay_strategy_is_its_field(
    old: AgentConfig,
    s: Setting,
    new: AgentConfig,
)
    ensures
        key_named("overlay_server_relay_strategy"@) matches Some(key) && {
            &&& setting(old, key) == Setting::Toggle(old.overlay_server_relay_strategy)
            &&& updated(old, key, s, new) ==> {
                &&& s == Setting::Toggle(new.overlay_server_relay_strategy)
                &&& new == (AgentConfig {
                    overlay_server_relay_strategy: new.overlay_server_relay_strategy,
                    ..old
                })
            }
        },
        value_of(old, "overlay_server_relay_strategy"@) == match old.overlay_server_relay_strategy {
            Some(true) => Some("true"@),
            Some(false) => Some("false"@),
            None => None,
        },
{
    names_find_their_keys(Key::Toggle(Toggle::OverlayServerRelayStrategy));
}

/// `overlay_derp_floor` is the field of that name.
pub proof fn overlay_derp_floor_is_its_field(old: AgentConfig, s: Setting, new: AgentConfig)
    ensures
        key_named("overlay_derp_floor"@) matches Some(key) && {
            &&& setting(old, key) == Setting::Toggle(old.overlay_derp_floor)
            &&& updated(old, key, s, new) ==> {
                &&& s == Setting::Toggle(new.overlay_derp_floor)
                &&& new == (AgentConfig { overlay_derp_floor: new.overlay_derp_floor, ..old })
            }
        },
        value_of(old, "overlay_derp_floor"@) == match old.overlay_derp_floor {
            Some(true) => Some("true"@),
            Some(false) => Some("false"@),
            None => None,
        },
{
    names_find_their_keys(Key::Toggle(Toggle::OverlayDerpFloor));
}

/// `overlay_org_relay` is the field of that name.
pub proof fn overlay_org_relay_is_its_field(old: AgentConfig, s: Setting, new: AgentConfig)
    ensures
        key_named("overlay_org_relay"@) matches Some(key) && {
            &&& setting(old, key) == Setting::Toggle(old.overlay_org_relay)
            &&& updated(old, key, s, new) ==> {
                &&& s == Setting::Toggle(new.overlay_org_relay)
                &&& new == (AgentConfig { overlay_org_relay: new.overlay_org_relay, ..old })
            }
        },
        value_of(old, "overlay_org_relay"@) == match old.overlay_org_relay {
            Some(true) => Some("true"@),
            Some(false) => Some("false"@),
            None => None,
        },
{
    names_find_their_keys(Key::Toggle(Toggle::OverlayOrgRelay));
}

/// `relay_server_enabled` is the field of that name.
pub proof fn relay_server_enabled_is_its_field(old: AgentConfig, s: Setting, new: AgentConfig)
    ensures
        key_named("relay_server_enabled"@) matches Some(key) && {
            &&& setting(old, key) == Setting::Toggle(old.relay_server_enabled)
            &&& updated(old, key, s, new) ==> {
                &&& s == Setting::Toggle(new.relay_server_enabled)
                &&& new == (AgentConfig { relay_server_enabled: new.relay_server_enabled, ..old })
            }
        },
        value_of(old, "relay_server_enabled"@) == match old.relay_server_enabled {
            Some(true) => Some("true"@),
            Some(false) => Some("false"@),
            None => None,
        },
{
    names_find_their_keys(Key::Toggle(Toggle::RelayServerEnabled));
}

/// `overlay_netcheck` is the field of that name.
pub proof fn overlay_netcheck_is_its_field(old: AgentConfig, s: Setting, new: AgentConfig)
    ensures
        key_named("overlay_netcheck"@) matches Some(key) && {
            &&& setting(old, key) == Setting::Toggle(old.overlay_netcheck)
            &&& updated(old, key, s, new) ==> {
                &&& s == Setting::Toggle(new.overlay_netcheck)
                &&& new == (AgentConfig { overlay_netcheck: new.overlay_netcheck, ..old })
            }
        },
        value_of(old, "overlay_netcheck"@) == match old.overlay_netcheck {
            Some(true) => Some("true"@),
            Some(false) => Some("false"@),
            None => None,
        },
{
    names_find_their_keys(Key::Toggle(Toggle::OverlayNetcheck));
}

/// `tunnel_derp_fallback` is the field of that name.
pub proof fn tunnel_derp_fallback_is_its_field(old: AgentConfig, s: Setting, new: AgentConfig)
    ensures
        key_named("tunnel_derp_fallback"@) matches Some(key) && {
            &&& setting(old, key) == Setting::Toggle(old.tunnel_derp_fallback)
            &&& updated(old, key, s, new) ==> {
                &&& s == Setting::Toggle(new.tunnel_derp_fallback)
                &&& new == (AgentConfig { tunnel_derp_fallback: new.tunnel_derp_fallback, ..old })
            }
        },
        value_of(old, "tunnel_derp_fallback"@) == match old.tunnel_derp_fallback {
            Some(true) => Some("true"@),
            Some(false) => Some("false"@),
            None => None,
        },
{
    names_find_their_keys(Key::Toggle(Toggle::TunnelDerpFallback));
}

/// `tunnel_peers_survive_reattach` is the field of that name.
pub proof fn tunnel_peers_survive_reattach_is_its_field(
    old: AgentConfig,
    s: Setting,
    new: AgentConfig,
)
    ensures
        key_named("tunnel_peers_survive_reattach"@) matches Some(key) && {
            &&& setting(old, key) == Setting::Toggle(old.tunnel_peers_survive_reattach)
            &&& updated(old, key, s, new) ==> {
                &&& s == Setting::Toggle(new.tunnel_peers_survive_reattach)
                &&& new == (AgentConfig {
                    tunnel_peers_survive_reattach: new.tunnel_peers_survive_reattach,
                    ..old
                })
            }
        },
        value_of(old, "tunnel_peers_survive_reattach"@) == match old.tunnel_peers_survive_reattach {
            Some(true) => Some("true"@),
            Some(false) => Some("false"@),
            None => None,
        },
{
    names_find_their_keys(Key::Toggle(Toggle::TunnelPeersSurviveReattach));
}

/// `overlay_mbb` is the field of that name.
pub proof fn overlay_mbb_is_its_field(old: AgentConfig, s: Setting, new: AgentConfig)
    ensures
        key_named("overlay_mbb"@) matches Some(key) && {
            &&& setting(old, key) == Setting::Toggle(old.overlay_mbb)
            &&& updated(old, key, s, new) ==> {
                &&& s == Setting::Toggle(new.overlay_mbb)
                &&& new == (AgentConfig { overlay_mbb: new.overlay_mbb, ..old })
            }
        },
        value_of(old, "overlay_mbb"@) == match old.overlay_mbb {
            Some(true) => Some("true"@),
            Some(false) => Some("false"@),
            None => None,
        },
{
    names_find_their_keys(Key::Toggle(Toggle::OverlayMbb));
}

/// `overlay_lan_iface_filter` is the field of that name.
pub proof fn overlay_lan_iface_filter_is_its_field(old: AgentConfig, s: Setting, new: AgentConfig)
    ensures
        key_named("overlay_lan_iface_filter"@) matches Some(key) && {
            &&& setting(old, key) == Setting::Toggle(old.overlay_lan_iface_filter)
            &&& updated(old, key, s, new) ==> {
                &&& s == Setting::Toggle(new.overlay_lan_iface_filter)
                &&& new == (AgentConfig {
                    overlay_lan_iface_filter: new.overlay_lan_iface_filter,
                    ..old
                })
            }
        },
        value_of(old, "overlay_lan_iface_filter"@) == match old.overlay_lan_iface_filter {
            Some(true) => Some("true"@),
            Some(false) => Some("false"@),
            None => None,
        },
{
    names_find_their_keys(Key::Toggle(Toggle::OverlayLanIfaceFilter));
}

/// `overlay_wsl_mirrored_guard` is the field of that name.
pub proof fn overlay_wsl_mirrored_guard_is_its_field(old: AgentConfig, s: Setting, new: AgentConfig)
    ensures
        key_named("overlay_wsl_mirrored_guard"@) matches Some(key) && {
            &&& setting(old, key) == Setting::Toggle(old.overlay_wsl_mirrored_guard)
            &&& updated(old, key, s, new) ==> {
                &&& s == Setting::Toggle(new.overlay_wsl_mirrored_guard)
                &&& new == (AgentConfig {
                    overlay_wsl_mirrored_guard: new.overlay_wsl_mirrored_guard,
                    ..old
                })
            }
        },
        value_of(old, "overlay_wsl_mirrored_guard"@) == match old.overlay_wsl_mirrored_guard {
            Some(true) => Some("true"@),
            Some(false) => Some("false"@),
            None => None,
        },
{
    names_find_their_keys(Key::Toggle(Toggle::OverlayWslMirroredGuard));
}

/// `overlay_init_auth_first` is the field of that name.
pub proof fn overlay_init_auth_first_is_its_field(old: AgentConfig, s: Setting, new: AgentConfig)
    ensures
        key_named("overlay_init_auth_first"@) matches Some(key) && {
            &&& setting(old, key) == Setting::Toggle(old.overlay_init_auth_first)
            &&& updated(old, key, s, new) ==> {
                &&& s == Setting::Toggle(new.overlay_init_auth_first)
                &&& new == (AgentConfig {
                    overlay_init_auth_first: new.overlay_init_auth_first,
                    ..old
                })
            }
        },
        value_of(old, "overlay_init_auth_first"@) == match old.overlay_init_auth_first {
            Some(true) => Some("true"@),
            Some(false) => Some("false"@),
            None => None,
        },
{
    names_find_their_keys(Key::Toggle(Toggle::OverlayInitAuthFirst));
}

/// `overlay_srflx_seek` is the field of that name.
pub proof fn overlay_srflx_seek_is_its_field(old: AgentConfig, s: Setting, new: AgentConfig)
    ensures
        key_named("overlay_srflx_seek"@) matches Some(key) && {
            &&& setting(old, key) == Setting::Toggle(old.overlay_srflx_seek)
            &&& updated(old, key, s, new) ==> {
                &&& s == Setting::Toggle(new.overlay_srflx_seek)
                &&& new == (AgentConfig { overlay_srflx_seek: new.overlay_srflx_seek, ..old })
            }
        },
        value_of(old, "overlay_srflx_seek"@) == match old.overlay_srflx_seek {
            Some(true) => Some("true"@),
            Some(false) => Some("false"@),
            None => None,
        },
{
    names_find_their_keys(Key::Toggle(Toggle::OverlaySrflxSeek));
}

/// `ws_replaced_exit` is the field of that name.
pub proof fn ws_replaced_exit_is_its_field(old: AgentConfig, s: Setting, new: AgentConfig)
    ensures
        key_named("ws_replaced_exit"@) matches Some(key) && {
            &&& setting(old, key) == Setting::Toggle(old.ws_replaced_exit)
            &&& updated(old, key, s, new) ==> {
                &&& s == Setting::Toggle(new.ws_replaced_exit)
                &&& new == (AgentConfig { ws_replaced_exit: new.ws_replaced_exit, ..old })
            }
        },
        value_of(old, "ws_replaced_exit"@) == match old.ws_replaced_exit {
            Some(true) => Some("true"@),
            Some(false) => Some("false"@),
            None => None,
        },
{
    names_find_their_keys(Key::Toggle(Toggle::WsReplacedExit));
}

/// `overlay_warm_relay` is the field of that name.
pub proof fn overlay_warm_relay_is_its_field(old: AgentConfig, s: Setting, new: AgentConfig)
    ensures
        key_named("overlay_warm_relay"@) matches Some(key) && {
            &&& setting(old, key) == Setting::Toggle(old.overlay_warm_relay)
            &&& updated(old, key, s, new) ==> {
                &&& s == Setting::Toggle(new.overlay_warm_relay)
                &&& new == (AgentConfig { overlay_warm_relay: new.overlay_warm_relay, ..old })
            }
        },
        value_of(old, "overlay_warm_relay"@) == match old.overlay_warm_relay {
            Some(true) => Some("true"@),
            Some(false) => Some("false"@),
            None => None,
        },
{
    names_find_their_keys(Key::Toggle(Toggle::OverlayWarmRelay));
}

/// `overlay_quic_async` is the field of that name.
pub proof fn overlay_quic_async_is_its_field(old: AgentConfig, s: Setting, new: AgentConfig)
    ensures
        key_named("overlay_quic_async"@) matches Some(key) && {
            &&& setting(old, key) == Setting::Toggle(old.overlay_quic_async)
            &&& updated(old, key, s, new) ==> {
                &&& s == Setting::Toggle(new.overlay_quic_async)
                &&& new == (AgentConfig { overlay_quic_async: new.overlay_quic_async, ..old })
            }
        },
        value_of(old, "overlay_quic_async"@) == match old.overlay_quic_async {
            Some(true) => Some("true"@),
            Some(false) => Some("false"@),
            None => None,
        },
{
    names_find_their_keys(Key::Toggle(Toggle::OverlayQuicAsync));
}

/// `overlay_vpn_vantage` is the field of that name.
pub proof fn overlay_vpn_vantage_is_its_field(old: AgentConfig, s: Setting, new: AgentConfig)
    ensures
        key_named("overlay_vpn_vantage"@) matches Some(key) && {
            &&& setting(old, key) == Setting::Toggle(old.overlay_vpn_vantage)
            &&& updated(old, key, s, new) ==> {
                &&& s == Setting::Toggle(new.overlay_vpn_vantage)
                &&& new == (AgentConfig { overlay_vpn_vantage: new.overlay_vpn_vantage, ..old })
            }
        },
        value_of(old, "overlay_vpn_vantage"@) == match old.overlay_vpn_vantage {
            Some(true) => Some("true"@),
            Some(false) => Some("false"@),
            None => None,
        },
{
    names_find_their_keys(Key::Toggle(Toggle::OverlayVpnVantage));
}

/// `overlay_netd` is the field of that name.
pub proof fn overlay_netd_is_its_field(old: AgentConfig, s: Setting, new: AgentConfig)
    ensures
        key_named("overlay_netd"@) matches Some(key) && {
            &&& setting(old, key) == Setting::Toggle(old.overlay_netd)
            &&& updated(old, key, s, new) ==> {
                &&& s == Setting::Toggle(new.overlay_netd)
                &&& new == (AgentConfig { overlay_netd: new.overlay_netd, ..old })
            }
        },
        value_of(old, "overlay_netd"@) == match old.overlay_netd {
            Some(true) => Some("true"@),
            Some(false) => Some("false"@),
            None => None,
        },
{
    names_find_their_keys(Key::Toggle(Toggle::OverlayNetd));
}

/// `overlay_route_events` is the field of that name.
pub proof fn overlay_route_events_is_its_field(old: AgentConfig, s: Setting, new: AgentConfig)
    ensures
        key_named("overlay_route_events"@) matches Some(key) && {
            &&& setting(old, key) == Setting::Toggle(old.overlay_route_events)
            &&& updated(old, key, s, new) ==> {
                &&& s == Setting::Toggle(new.overlay_route_events)
                &&& new == (AgentConfig { overlay_route_events: new.overlay_route_events, ..old })
            }
        },
        value_of(old, "overlay_route_events"@) == match old.overlay_route_events {
            Some(true) => Some("true"@),
            Some(false) => Some("false"@),
            None => None,
        },
{
    names_find_their_keys(Key::Toggle(Toggle::OverlayRouteEvents));
}

/// `overlay_netmon` is the field of that name.
pub proof fn overlay_netmon_is_its_field(old: AgentConfig, s: Setting, new: AgentConfig)
    ensures
        key_named("overlay_netmon"@) matches Some(key) && {
            &&& setting(old, key) == Setting::Toggle(old.overlay_netmon)
            &&& updated(old, key, s, new) ==> {
                &&& s == Setting::Toggle(new.overlay_netmon)
                &&& new == (AgentConfig { overlay_netmon: new.overlay_netmon, ..old })
            }
        },
        value_of(old, "overlay_netmon"@) == match old.overlay_netmon {
            Some(true) => Some("true"@),
            Some(false) => Some("false"@),
            None => None,
        },
{
    names_find_their_keys(Key::Toggle(Toggle::OverlayNetmon));
}

/// `shared_encoder` is the field of that name.
pub proof fn shared_encoder_is_its_field(old: AgentConfig, s: Setting, new: AgentConfig)
    ensures
        key_named("shared_encoder"@) matches Some(key) && {
            &&& setting(old, key) == Setting::Toggle(old.shared_encoder)
            &&& updated(old, key, s, new) ==> {
                &&& s == Setting::Toggle(new.shared_encoder)
                &&& new == (AgentConfig { shared_encoder: new.shared_encoder, ..old })
            }
        },
        value_of(old, "shared_encoder"@) == match old.shared_encoder {
            Some(true) => Some("true"@),
            Some(false) => Some("false"@),
            None => None,
        },
{
    names_find_their_keys(Key::Toggle(Toggle::SharedEncoder));
}

/// `overlay_relay_tls` is the field of that name.
pub proof fn overlay_relay_tls_is_its_field(old: AgentConfig, s: Setting, new: AgentConfig)
    ensures
        key_named("overlay_relay_tls"@) matches Some(key) && {
            &&& setting(old, key) == Setting::Toggle(old.overlay_relay_tls)
            &&& updated(old, key, s, new) ==> {
                &&& s == Setting::Toggle(new.overlay_relay_tls)
                &&& new == (AgentConfig { overlay_relay_tls: new.overlay_relay_tls, ..old })
            }
        },
        value_of(old, "overlay_relay_tls"@) == match old.overlay_relay_tls {
            Some(true) => Some("true"@),
            Some(false) => Some("false"@),
            None => None,
        },
{
    names_find_their_keys(Key::Toggle(Toggle::OverlayRelayTls));
}

/// `overlay_shared_carrier` is the field of that name.
pub proof fn overlay_shared_carrier_is_its_field(old: AgentConfig, s: Setting, new: AgentConfig)
    ensures
        key_named("overlay_shared_carrier"@) matches Some(key) && {
            &&& setting(old, key) == Setting::Toggle(old.overlay_shared_carrier)
            &&& updated(old, key, s, new) ==> {
                &&& s == Setting::Toggle(new.overlay_shared_carrier)
                &&& new == (AgentConfig {
                    overlay_shared_carrier: new.overlay_shared_carrier,
                    ..old
                })
            }
        },
        value_of(old, "overlay_shared_carrier"@) == match old.overlay_shared_carrier {
            Some(true) => Some("true"@),
            Some(false) => Some("false"@),
            None => None,
        },
{
    names_find_their_keys(Key::Toggle(Toggle::OverlaySharedCarrier));
}

/// `overlay_roam` is the field of that name.
pub proof fn overlay_roam_is_its_field(old: AgentConfig, s: Setting, new: AgentConfig)
    ensures
        key_named("overlay_roam"@) matches Some(key) && {
            &&& setting(old, key) == Setting::Toggle(old.overlay_roam)
            &&& updated(old, key, s, new) ==> {
                &&& s == Setting::Toggle(new.overlay_roam)
                &&& new == (AgentConfig { overlay_roam: new.overlay_roam, ..old })
            }
        },
        value_of(old, "overlay_roam"@) == match old.overlay_roam {
            Some(true) => Some("true"@),
            Some(false) => Some("false"@),
            None => None,
        },
{
    names_find_their_keys(Key::Toggle(Toggle::OverlayRoam));
}

/// `overlay_plane_watchdog` is the field of that name.
pub proof fn overlay_plane_watchdog_is_its_field(old: AgentConfig, s: Setting, new: AgentConfig)
    ensures
        key_named("overlay_plane_watchdog"@) matches Some(key) && {
            &&& setting(old, key) == Setting::Toggle(old.overlay_plane_watchdog)
            &&& updated(old, key, s, new) ==> {
                &&& s == Setting::Toggle(new.overlay_plane_watchdog)
                &&& new == (AgentConfig {
                    overlay_plane_watchdog: new.overlay_plane_watchdog,
                    ..old
                })
            }
        },
        value_of(old, "overlay_plane_watchdog"@) == match old.overlay_plane_watchdog {
            Some(true) => Some("true"@),
            Some(false) => Some("false"@),
            None => None,
        },
{
    names_find_their_keys(Key::Toggle(Toggle::OverlayPlaneWatchdog));
}

/// `overlay_session_trace` is the field of that name.
pub proof fn overlay_session_trace_is_its_field(old: AgentConfig, s: Setting, new: AgentConfig)
    ensures
        key_named("overlay_session_trace"@) matches Some(key) && {
            &&& setting(old, key) == Setting::Toggle(old.overlay_session_trace)
            &&& updated(old, key, s, new) ==> {
                &&& s == Setting::Toggle(new.overlay_session_trace)
                &&& new == (AgentConfig { overlay_session_trace: new.overlay_session_trace, ..old })
            }
        },
        value_of(old, "overlay_session_trace"@) == match old.overlay_session_trace {
            Some(true) => Some("true"@),
            Some(false) => Some("false"@),
            None => None,
        },
{
    names_find_their_keys(Key::Toggle(Toggle::OverlaySessionTrace));
}

/// `overlay_disco_respond` is the field of that name.
pub proof fn overlay_disco_respond_is_its_field(old: AgentConfig, s: Setting, new: AgentConfig)
    ensures
        key_named("overlay_disco_respond"@) matches Some(key) && {
            &&& setting(old, key) == Setting::Toggle(old.overlay_disco_respond)
            &&& updated(old, key, s, new) ==> {
                &&& s == Setting::Toggle(new.overlay_disco_respond)
                &&& new == (AgentConfig { overlay_disco_respond: new.overlay_disco_respond, ..old })
            }
        },
        value_of(old, "overlay_disco_respond"@) == match old.overlay_disco_respond {
            Some(true) => Some("true"@),
            Some(false) => Some("false"@),
            None => None,
        },
{
    names_find_their_keys(Key::Toggle(Toggle::OverlayDiscoRespond));
}

/// `overlay_disco_probe` is the field of that name.
pub proof fn overlay_disco_probe_is_its_field(old: AgentConfig, s: Setting, new: AgentConfig)
    ensures
        key_named("overlay_disco_probe"@) matches Some(key) && {
            &&& setting(old, key) == Setting::Toggle(old.overlay_disco_probe)
            &&& updated(old, key, s, new) ==> {
                &&& s == Setting::Toggle(new.overlay_disco_probe)
                &&& new == (AgentConfig { overlay_disco_probe: new.overlay_disco_probe, ..old })
            }
        },
        value_of(old, "overlay_disco_probe"@) == match old.overlay_disco_probe {
            Some(true) => Some("true"@),
            Some(false) => Some("false"@),
            None => None,
        },
{
    names_find_their_keys(Key::Toggle(Toggle::OverlayDiscoProbe));
}

/// `overlay_answer_while_followed` is the field of that name.
pub proof fn overlay_answer_while_followed_is_its_field(
    old: AgentConfig,
    s: Setting,
    new: AgentConfig,
)
    ensures
        key_named("overlay_answer_while_followed"@) matches Some(key) && {
            &&& setting(old, key) == Setting::Toggle(old.overlay_answer_while_followed)
            &&& updated(old, key, s, new) ==> {
                &&& s == Setting::Toggle(new.overlay_answer_while_followed)
                &&& new == (AgentConfig {
                    overlay_answer_while_followed: new.overlay_answer_while_followed,
                    ..old
                })
            }
        },
        value_of(old, "overlay_answer_while_followed"@) == match old.overlay_answer_while_followed {
            Some(true) => Some("true"@),
            Some(false) => Some("false"@),
            None => None,
        },
{
    names_find_their_keys(Key::Toggle(Toggle::OverlayAnswerWhileFollowed));
}

/// `overlay_tun_stable_guid` is the field of that name.
pub proof fn overlay_tun_stable_guid_is_its_field(old: AgentConfig, s: Setting, new: AgentConfig)
    ensures
        key_named("overlay_tun_stable_guid"@) matches Some(key) && {
            &&& setting(old, key) == Setting::Toggle(old.overlay_tun_stable_guid)
            &&& updated(old, key, s, new) ==> {
                &&& s == Setting::Toggle(new.overlay_tun_stable_guid)
                &&& new == (AgentConfig {
                    overlay_tun_stable_guid: new.overlay_tun_stable_guid,
                    ..old
                })
            }
        },
        value_of(old, "overlay_tun_stable_guid"@) == match old.overlay_tun_stable_guid {
            Some(true) => Some("true"@),
            Some(false) => Some("false"@),
            None => None,
        },
{
    names_find_their_keys(Key::Toggle(Toggle::OverlayTunStableGuid));
}

/// `overlay_route_evict` is the field of that name.
pub proof fn overlay_route_evict_is_its_field(old: AgentConfig, s: Setting, new: AgentConfig)
    ensures
        key_named("overlay_route_evict"@) matches Some(key) && {
            &&& setting(old, key) == Setting::Toggle(old.overlay_route_evict)
            &&& updated(old, key, s, new) ==> {
                &&& s == Setting::Toggle(new.overlay_route_evict)
                &&& new == (AgentConfig { overlay_route_evict: new.overlay_route_evict, ..old })
            }
        },
        value_of(old, "overlay_route_evict"@) == match old.overlay_route_evict {
            Some(true) => Some("true"@),
            Some(false) => Some("false"@),
            None => None,
        },
{
    names_find_their_keys(Key::Toggle(Toggle::OverlayRouteEvict));
}

/// `overlay_route_reclaim` is the field of that name.
pub proof fn overlay_route_reclaim_is_its_field(old: AgentConfig, s: Setting, new: AgentConfig)
    ensures
        key_named("overlay_route_reclaim"@) matches Some(key) && {
            &&& setting(old, key) == Setting::Toggle(old.overlay_route_reclaim)
            &&& updated(old, key, s, new) ==> {
                &&& s == Setting::Toggle(new.overlay_route_reclaim)
                &&& new == (AgentConfig { overlay_route_reclaim: new.overlay_route_reclaim, ..old })
            }
        },
        value_of(old, "overlay_route_reclaim"@) == match old.overlay_route_reclaim {
            Some(true) => Some("true"@),
            Some(false) => Some("false"@),
            None => None,
        },
{
    names_find_their_keys(Key::Toggle(Toggle::OverlayRouteReclaim));
}

/// `overlay_tun_persist` is the field of that name.
pub proof fn overlay_tun_persist_is_its_field(old: AgentConfig, s: Setting, new: AgentConfig)
    ensures
        key_named("overlay_tun_persist"@) matches Some(key) && {
            &&& setting(old, key) == Setting::Toggle(old.overlay_tun_persist)
            &&& updated(old, key, s, new) ==> {
                &&& s == Setting::Toggle(new.overlay_tun_persist)
                &&& new == (AgentConfig { overlay_tun_persist: new.overlay_tun_persist, ..old })
            }
        },
        value_of(old, "overlay_tun_persist"@) == match old.overlay_tun_persist {
            Some(true) => Some("true"@),
            Some(false) => Some("false"@),
            None => None,
        },
{
    names_find_their_keys(Key::Toggle(Toggle::OverlayTunPersist));
}

/// `overlay_route_metric0` is the field of that name.
pub proof fn overlay_route_metric0_is_its_field(old: AgentConfig, s: Setting, new: AgentConfig)
    ensures
        key_named("overlay_route_metric0"@) matches Some(key) && {
            &&& setting(old, key) == Setting::Toggle(old.overlay_route_metric0)
            &&& updated(old, key, s, new) ==> {
                &&& s == Setting::Toggle(new.overlay_route_metric0)
                &&& new == (AgentConfig { overlay_route_metric0: new.overlay_route_metric0, ..old })
            }
        },
        value_of(old, "overlay_route_metric0"@) == match old.overlay_route_metric0 {
            Some(true) => Some("true"@),
            Some(false) => Some("false"@),
            None => None,
        },
{
    names_find_their_keys(Key::Toggle(Toggle::OverlayRouteMetric0));
}

/// `overlay_route_win` is the field of that name.
pub proof fn overlay_route_win_is_its_field(old: AgentConfig, s: Setting, new: AgentConfig)
    ensures
        key_named("overlay_route_win"@) matches Some(key) && {
            &&& setting(old, key) == Setting::Toggle(old.overlay_route_win)
            &&& updated(old, key, s, new) ==> {
                &&& s == Setting::Toggle(new.overlay_route_win)
                &&& new == (AgentConfig { overlay_route_win: new.overlay_route_win, ..old })
            }
        },
        value_of(old, "overlay_route_win"@) == match old.overlay_route_win {
            Some(true) => Some("true"@),
            Some(false) => Some("false"@),
            None => None,
        },
{
    names_find_their_keys(Key::Toggle(Toggle::OverlayRouteWin));
}

/// `local_turn` is the field of that name.
pub proof fn local_turn_is_its_field(old: AgentConfig, s: Setting, new: AgentConfig)
    ensures
        key_named("local_turn"@) matches Some(key) && {
            &&& setting(old, key) == Setting::Toggle(old.local_turn)
            &&& updated(old, key, s, new) ==> {
                &&& s == Setting::Toggle(new.local_turn)
                &&& new == (AgentConfig { local_turn: new.local_turn, ..old })
            }
        },
        value_of(old, "local_turn"@) == match old.local_turn {
            Some(true) => Some("true"@),
            Some(false) => Some("false"@),
            None => None,
        },
{
    names_find_their_keys(Key::Toggle(Toggle::LocalTurn));
}

/// `dns_aaaa` is the field of that name.
pub proof fn dns_aaaa_is_its_field(old: AgentConfig, s: Setting, new: AgentConfig)
    ensures
        key_named("dns_aaaa"@) matches Some(key) && {
            &&& setting(old, key) == Setting::Toggle(old.dns_aaaa)
            &&& updated(old, key, s, new) ==> {
                &&& s == Setting::Toggle(new.dns_aaaa)
                &&& new == (AgentConfig { dns_aaaa: new.dns_aaaa, ..old })
            }
        },
        value_of(old, "dns_aaaa"@) == match old.dns_aaaa {
            Some(true) => Some("true"@),
            Some(false) => Some("false"@),
            None => None,
        },
{
    names_find_their_keys(Key::Toggle(Toggle::DnsAaaa));
}

/// `magicdns_hosts` is the field of that name.
pub proof fn magicdns_hosts_is_its_field(old: AgentConfig, s: Setting, new: AgentConfig)
    ensures
        key_named("magicdns_hosts"@) matches Some(key) && {
            &&& setting(old, key) == Setting::Toggle(old.magicdns_hosts)
            &&& updated(old, key, s, new) ==> {
                &&& s == Setting::Toggle(new.magicdns_hosts)
                &&& new == (AgentConfig { magicdns_hosts: new.magicdns_hosts, ..old })
            }
        },
        value_of(old, "magicdns_hosts"@) == match old.magicdns_hosts {
            Some(true) => Some("true"@),
            Some(false) => Some("false"@),
            None => None,
        },
{
    names_find_their_keys(Key::Toggle(Toggle::MagicdnsHosts));
}

/// `auto_update` is the field of that name.
pub proof fn auto_update_is_its_field(old: AgentConfig, s: Setting, new: AgentConfig)
    ensures
        key_named("auto_update"@) matches Some(key) && {
            &&& setting(old, key) == Setting::Toggle(old.auto_update)
            &&& updated(old, key, s, new) ==> {
                &&& s == Setting::Toggle(new.auto_update)
                &&& new == (AgentConfig { auto_update: new.auto_update, ..old })
            }
        },
        value_of(old, "auto_update"@) == match old.auto_update {
            Some(true) => Some("true"@),
            Some(false) => Some("false"@),
            None => None,
        },
{
    names_find_their_keys(Key::Toggle(Toggle::AutoUpdate));
}

/// `logs_upload_disabled` is the field of that name.
pub proof fn logs_upload_disabled_is_its_field(old: AgentConfig, s: Setting, new: AgentConfig)
    ensures
        key_named("logs_upload_disabled"@) matches Some(key) && {
            &&& setting(old, key) == Setting::Toggle(old.logs_upload_disabled)
            &&& updated(old, key, s, new) ==> {
                &&& s == Setting::Toggle(new.logs_upload_disabled)
                &&& new == (AgentConfig { logs_upload_disabled: new.logs_upload_disabled, ..old })
            }
        },
        value_of(old, "logs_upload_disabled"@) == match old.logs_upload_disabled {
            Some(true) => Some("true"@),
            Some(false) => Some("false"@),
            None => None,
        },
{
    names_find_their_keys(Key::Toggle(Toggle::LogsUploadDisabled));
}

/// `nvenc_spatial_aq` is the field of that name.
pub proof fn nvenc_spatial_aq_is_its_field(old: AgentConfig, s: Setting, new: AgentConfig)
    ensures
        key_named("nvenc_spatial_aq"@) matches Some(key) && {
            &&& setting(old, key) == Setting::Toggle(old.nvenc_spatial_aq)
            &&& updated(old, key, s, new) ==> {
                &&& s == Setting::Toggle(new.nvenc_spatial_aq)
                &&& new == (AgentConfig { nvenc_spatial_aq: new.nvenc_spatial_aq, ..old })
            }
        },
        value_of(old, "nvenc_spatial_aq"@) == match old.nvenc_spatial_aq {
            Some(true) => Some("true"@),
            Some(false) => Some("false"@),
            None => None,
        },
{
    names_find_their_keys(Key::Toggle(Toggle::NvencSpatialAq));
}

/// `idle_refine` is the field of that name.
pub proof fn idle_refine_is_its_field(old: AgentConfig, s: Setting, new: AgentConfig)
    ensures
        key_named("idle_refine"@) matches Some(key) && {
            &&& setting(old, key) == Setting::Toggle(old.idle_refine)
            &&& updated(old, key, s, new) ==> {
                &&& s == Setting::Toggle(new.idle_refine)
                &&& new == (AgentConfig { idle_refine: new.idle_refine, ..old })
            }
        },
        value_of(old, "idle_refine"@) == match old.idle_refine {
            Some(true) => Some("true"@),
            Some(false) => Some("false"@),
            None => None,
        },
{
    names_find_their_keys(Key::Toggle(Toggle::IdleRefine));
}

/// `idle_refine_balanced` is the field of that name.
pub proof fn idle_refine_balanced_is_its_field(old: AgentConfig, s: Setting, new: AgentConfig)
    ensures
        key_named("idle_refine_balanced"@) matches Some(key) && {
            &&& setting(old, key) == Setting::Toggle(old.idle_refine_balanced)
            &&& updated(old, key, s, new) ==> {
                &&& s == Setting::Toggle(new.idle_refine_balanced)
                &&& new == (AgentConfig { idle_refine_balanced: new.idle_refine_balanced, ..old })
            }
        },
        value_of(old, "idle_refine_balanced"@) == match old.idle_refine_balanced {
            Some(true) => Some("true"@),
            Some(false) => Some("false"@),
            None => None,
        },
{
    names_find_their_keys(Key::Toggle(Toggle::IdleRefineBalanced));
}

/// `gpu_scale` is the field of that name.
pub proof fn gpu_scale_is_its_field(old: AgentConfig, s: Setting, new: AgentConfig)
    ensures
        key_named("gpu_scale"@) matches Some(key) && {
            &&& setting(old, key) == Setting::Toggle(old.gpu_scale)
            &&& updated(old, key, s, new) ==> {
                &&& s == Setting::Toggle(new.gpu_scale)
                &&& new == (AgentConfig { gpu_scale: new.gpu_scale, ..old })
            }
        },
        value_of(old, "gpu_scale"@) == match old.gpu_scale {
            Some(true) => Some("true"@),
            Some(false) => Some("false"@),
            None => None,
        },
{
    names_find_their_keys(Key::Toggle(Toggle::GpuScale));
}

/// `overlay_lan_capture_probe` is the field of that name.
pub proof fn overlay_lan_capture_probe_is_its_field(old: AgentConfig, s: Setting, new: AgentConfig)
    ensures
        key_named("overlay_lan_capture_probe"@) matches Some(key) && {
            &&& setting(old, key) == Setting::Toggle(old.overlay_lan_capture_probe)
            &&& updated(old, key, s, new) ==> {
                &&& s == Setting::Toggle(new.overlay_lan_capture_probe)
                &&& new == (AgentConfig {
                    overlay_lan_capture_probe: new.overlay_lan_capture_probe,
                    ..old
                })
            }
        },
        value_of(old, "overlay_lan_capture_probe"@) == match old.overlay_lan_capture_probe {
            Some(true) => Some("true"@),
            Some(false) => Some("false"@),
            None => None,
        },
{
    names_find_their_keys(Key::Toggle(Toggle::OverlayLanCaptureProbe));
}

/// `relay_ceiling_learn` is the field of that name.
pub proof fn relay_ceiling_learn_is_its_field(old: AgentConfig, s: Setting, new: AgentConfig)
    ensures
        key_named("relay_ceiling_learn"@) matches Some(key) && {
            &&& setting(old, key) == Setting::Toggle(old.relay_ceiling_learn)
            &&& updated(old, key, s, new) ==> {
                &&& s == Setting::Toggle(new.relay_ceiling_learn)
                &&& new == (AgentConfig { relay_ceiling_learn: new.relay_ceiling_learn, ..old })
            }
        },
        value_of(old, "relay_ceiling_learn"@) == match old.relay_ceiling_learn {
            Some(true) => Some("true"@),
            Some(false) => Some("false"@),
            None => None,
        },
{
    names_find_their_keys(Key::Toggle(Toggle::RelayCeilingLearn));
}

/// `drm_capture` is the field of that name.
pub proof fn drm_capture_is_its_field(old: AgentConfig, s: Setting, new: AgentConfig)
    ensures
        key_named("drm_capture"@) matches Some(key) && {
            &&& setting(old, key) == Setting::Toggle(old.drm_capture)
            &&& updated(old, key, s, new) ==> {
                &&& s == Setting::Toggle(new.drm_capture)
                &&& new == (AgentConfig { drm_capture: new.drm_capture, ..old })
            }
        },
        value_of(old, "drm_capture"@) == match old.drm_capture {
            Some(true) => Some("true"@),
            Some(false) => Some("false"@),
            None => None,
        },
{
    names_find_their_keys(Key::Toggle(Toggle::DrmCapture));
}

/// `uinput` is the field of that name.
pub proof fn uinput_is_its_field(old: AgentConfig, s: Setting, new: AgentConfig)
    ensures
        key_named("uinput"@) matches Some(key) && {
            &&& setting(old, key) == Setting::Toggle(old.uinput)
            &&& updated(old, key, s, new) ==> {
                &&& s == Setting::Toggle(new.uinput)
                &&& new == (AgentConfig { uinput: new.uinput, ..old })
            }
        },
        value_of(old, "uinput"@) == match old.uinput {
            Some(true) => Some("true"@),
            Some(false) => Some("false"@),
            None => None,
        },
{
    names_find_their_keys(Key::Toggle(Toggle::Uinput));
}

/// `portal_capture` is the field of that name.
pub proof fn portal_capture_is_its_field(old: AgentConfig, s: Setting, new: AgentConfig)
    ensures
        key_named("portal_capture"@) matches Some(key) && {
            &&& setting(old, key) == Setting::Toggle(old.portal_capture)
            &&& updated(old, key, s, new) ==> {
                &&& s == Setting::Toggle(new.portal_capture)
                &&& new == (AgentConfig { portal_capture: new.portal_capture, ..old })
            }
        },
        value_of(old, "portal_capture"@) == match old.portal_capture {
            Some(true) => Some("true"@),
            Some(false) => Some("false"@),
            None => None,
        },
{
    names_find_their_keys(Key::Toggle(Toggle::PortalCapture));
}

/// `portal_input` is the field of that name.
pub proof fn portal_input_is_its_field(old: AgentConfig, s: Setting, new: AgentConfig)
    ensures
        key_named("portal_input"@) matches Some(key) && {
            &&& setting(old, key) == Setting::Toggle(old.portal_input)
            &&& updated(old, key, s, new) ==> {
                &&& s == Setting::Toggle(new.portal_input)
                &&& new == (AgentConfig { portal_input: new.portal_input, ..old })
            }
        },
        value_of(old, "portal_input"@) == match old.portal_input {
            Some(true) => Some("true"@),
            Some(false) => Some("false"@),
            None => None,
        },
{
    names_find_their_keys(Key::Toggle(Toggle::PortalInput));
}

/// `mutter_capture` is the field of that name.
pub proof fn mutter_capture_is_its_field(old: AgentConfig, s: Setting, new: AgentConfig)
    ensures
        key_named("mutter_capture"@) matches Some(key) && {
            &&& setting(old, key) == Setting::Toggle(old.mutter_capture)
            &&& updated(old, key, s, new) ==> {
                &&& s == Setting::Toggle(new.mutter_capture)
                &&& new == (AgentConfig { mutter_capture: new.mutter_capture, ..old })
            }
        },
        value_of(old, "mutter_capture"@) == match old.mutter_capture {
            Some(true) => Some("true"@),
            Some(false) => Some("false"@),
            None => None,
        },
{
    names_find_their_keys(Key::Toggle(Toggle::MutterCapture));
}

/// `window_capture` is the field of that name.
pub proof fn window_capture_is_its_field(old: AgentConfig, s: Setting, new: AgentConfig)
    ensures
        key_named("window_capture"@) matches Some(key) && {
            &&& setting(old, key) == Setting::Toggle(old.window_capture)
            &&& updated(old, key, s, new) ==> {
                &&& s == Setting::Toggle(new.window_capture)
                &&& new == (AgentConfig { window_capture: new.window_capture, ..old })
            }
        },
        value_of(old, "window_capture"@) == match old.window_capture {
            Some(true) => Some("true"@),
            Some(false) => Some("false"@),
            None => None,
        },
{
    names_find_their_keys(Key::Toggle(Toggle::WindowCapture));
}

/// `x11_damage` is the field of that name.
pub proof fn x11_damage_is_its_field(old: AgentConfig, s: Setting, new: AgentConfig)
    ensures
        key_named("x11_damage"@) matches Some(key) && {
            &&& setting(old, key) == Setting::Toggle(old.x11_damage)
            &&& updated(old, key, s, new) ==> {
                &&& s == Setting::Toggle(new.x11_damage)
                &&& new == (AgentConfig { x11_damage: new.x11_damage, ..old })
            }
        },
        value_of(old, "x11_damage"@) == match old.x11_damage {
            Some(true) => Some("true"@),
            Some(false) => Some("false"@),
            None => None,
        },
{
    names_find_their_keys(Key::Toggle(Toggle::X11Damage));
}

/// `overlay_key_rotation` is the field of that name.
pub proof fn overlay_key_rotation_is_its_field(old: AgentConfig, s: Setting, new: AgentConfig)
    ensures
        key_named("overlay_key_rotation"@) matches Some(key) && {
            &&& setting(old, key) == Setting::Toggle(old.overlay_key_rotation)
            &&& updated(old, key, s, new) ==> {
                &&& s == Setting::Toggle(new.overlay_key_rotation)
                &&& new == (AgentConfig { overlay_key_rotation: new.overlay_key_rotation, ..old })
            }
        },
        value_of(old, "overlay_key_rotation"@) == match old.overlay_key_rotation {
            Some(true) => Some("true"@),
            Some(false) => Some("false"@),
            None => None,
        },
{
    names_find_their_keys(Key::Toggle(Toggle::OverlayKeyRotation));
}

/// `bg_rebuild` is the field of that name.
pub proof fn bg_rebuild_is_its_field(old: AgentConfig, s: Setting, new: AgentConfig)
    ensures
        key_named("bg_rebuild"@) matches Some(key) && {
            &&& setting(old, key) == Setting::Toggle(old.bg_rebuild)
            &&& updated(old, key, s, new) ==> {
                &&& s == Setting::Toggle(new.bg_rebuild)
                &&& new == (AgentConfig { bg_rebuild: new.bg_rebuild, ..old })
            }
        },
        value_of(old, "bg_rebuild"@) == match old.bg_rebuild {
            Some(true) => Some("true"@),
            Some(false) => Some("false"@),
            None => None,
        },
{
    names_find_their_keys(Key::Toggle(Toggle::BgRebuild));
}

/// `par_convert` is the field of that name.
pub proof fn par_convert_is_its_field(old: AgentConfig, s: Setting, new: AgentConfig)
    ensures
        key_named("par_convert"@) matches Some(key) && {
            &&& setting(old, key) == Setting::Toggle(old.par_convert)
            &&& updated(old, key, s, new) ==> {
                &&& s == Setting::Toggle(new.par_convert)
                &&& new == (AgentConfig { par_convert: new.par_convert, ..old })
            }
        },
        value_of(old, "par_convert"@) == match old.par_convert {
            Some(true) => Some("true"@),
            Some(false) => Some("false"@),
            None => None,
        },
{
    names_find_their_keys(Key::Toggle(Toggle::ParConvert));
}

/// `fps_pace` is the field of that name.
pub proof fn fps_pace_is_its_field(old: AgentConfig, s: Setting, new: AgentConfig)
    ensures
        key_named("fps_pace"@) matches Some(key) && {
            &&& setting(old, key) == Setting::Toggle(old.fps_pace)
            &&& updated(old, key, s, new) ==> {
                &&& s == Setting::Toggle(new.fps_pace)
                &&& new == (AgentConfig { fps_pace: new.fps_pace, ..old })
            }
        },
        value_of(old, "fps_pace"@) == match old.fps_pace {
            Some(true) => Some("true"@),
            Some(false) => Some("false"@),
            None => None,
        },
{
    names_find_their_keys(Key::Toggle(Toggle::FpsPace));
}

/// `relay_idr_thrift` is the field of that name.
pub proof fn relay_idr_thrift_is_its_field(old: AgentConfig, s: Setting, new: AgentConfig)
    ensures
        key_named("relay_idr_thrift"@) matches Some(key) && {
            &&& setting(old, key) == Setting::Toggle(old.relay_idr_thrift)
            &&& updated(old, key, s, new) ==> {
                &&& s == Setting::Toggle(new.relay_idr_thrift)
                &&& new == (AgentConfig { relay_idr_thrift: new.relay_idr_thrift, ..old })
            }
        },
        value_of(old, "relay_idr_thrift"@) == match old.relay_idr_thrift {
            Some(true) => Some("true"@),
            Some(false) => Some("false"@),
            None => None,
        },
{
    names_find_their_keys(Key::Toggle(Toggle::RelayIdrThrift));
}

/// `relay_age_feedback` is the field of that name.
pub proof fn relay_age_feedback_is_its_field(old: AgentConfig, s: Setting, new: AgentConfig)
    ensures
        key_named("relay_age_feedback"@) matches Some(key) && {
            &&& setting(old, key) == Setting::Toggle(old.relay_age_feedback)
            &&& updated(old, key, s, new) ==> {
                &&& s == Setting::Toggle(new.relay_age_feedback)
                &&& new == (AgentConfig { relay_age_feedback: new.relay_age_feedback, ..old })
            }
        },
        value_of(old, "relay_age_feedback"@) == match old.relay_age_feedback {
            Some(true) => Some("true"@),
            Some(false) => Some("false"@),
            None => None,
        },
{
    names_find_their_keys(Key::Toggle(Toggle::RelayAgeFeedback));
}

/// `measured_ceiling` is the field of that name.
pub proof fn measured_ceiling_is_its_field(old: AgentConfig, s: Setting, new: AgentConfig)
    ensures
        key_named("measured_ceiling"@) matches Some(key) && {
            &&& setting(old, key) == Setting::Toggle(old.measured_ceiling)
            &&& updated(old, key, s, new) ==> {
                &&& s == Setting::Toggle(new.measured_ceiling)
                &&& new == (AgentConfig { measured_ceiling: new.measured_ceiling, ..old })
            }
        },
        value_of(old, "measured_ceiling"@) == match old.measured_ceiling {
            Some(true) => Some("true"@),
            Some(false) => Some("false"@),
            None => None,
        },
{
    names_find_their_keys(Key::Toggle(Toggle::MeasuredCeiling));
}

/// `encoder_inplace_rate` is the field of that name.
pub proof fn encoder_inplace_rate_is_its_field(old: AgentConfig, s: Setting, new: AgentConfig)
    ensures
        key_named("encoder_inplace_rate"@) matches Some(key) && {
            &&& setting(old, key) == Setting::Toggle(old.encoder_inplace_rate)
            &&& updated(old, key, s, new) ==> {
                &&& s == Setting::Toggle(new.encoder_inplace_rate)
                &&& new == (AgentConfig { encoder_inplace_rate: new.encoder_inplace_rate, ..old })
            }
        },
        value_of(old, "encoder_inplace_rate"@) == match old.encoder_inplace_rate {
            Some(true) => Some("true"@),
            Some(false) => Some("false"@),
            None => None,
        },
{
    names_find_their_keys(Key::Toggle(Toggle::EncoderInplaceRate));
}

/// `ice_relay_tcp` is the field of that name.
pub proof fn ice_relay_tcp_is_its_field(old: AgentConfig, s: Setting, new: AgentConfig)
    ensures
        key_named("ice_relay_tcp"@) matches Some(key) && {
            &&& setting(old, key) == Setting::Toggle(old.ice_relay_tcp)
            &&& updated(old, key, s, new) ==> {
                &&& s == Setting::Toggle(new.ice_relay_tcp)
                &&& new == (AgentConfig { ice_relay_tcp: new.ice_relay_tcp, ..old })
            }
        },
        value_of(old, "ice_relay_tcp"@) == match old.ice_relay_tcp {
            Some(true) => Some("true"@),
            Some(false) => Some("false"@),
            None => None,
        },
{
    names_find_their_keys(Key::Toggle(Toggle::IceRelayTcp));
}

/// `rate_slow_start` is the field of that name.
pub proof fn rate_slow_start_is_its_field(old: AgentConfig, s: Setting, new: AgentConfig)
    ensures
        key_named("rate_slow_start"@) matches Some(key) && {
            &&& setting(old, key) == Setting::Toggle(old.rate_slow_start)
            &&& updated(old, key, s, new) ==> {
                &&& s == Setting::Toggle(new.rate_slow_start)
                &&& new == (AgentConfig { rate_slow_start: new.rate_slow_start, ..old })
            }
        },
        value_of(old, "rate_slow_start"@) == match old.rate_slow_start {
            Some(true) => Some("true"@),
            Some(false) => Some("false"@),
            None => None,
        },
{
    names_find_their_keys(Key::Toggle(Toggle::RateSlowStart));
}

/// `rate_prior_decay` is the field of that name.
pub proof fn rate_prior_decay_is_its_field(old: AgentConfig, s: Setting, new: AgentConfig)
    ensures
        key_named("rate_prior_decay"@) matches Some(key) && {
            &&& setting(old, key) == Setting::Toggle(old.rate_prior_decay)
            &&& updated(old, key, s, new) ==> {
                &&& s == Setting::Toggle(new.rate_prior_decay)
                &&& new == (AgentConfig { rate_prior_decay: new.rate_prior_decay, ..old })
            }
        },
        value_of(old, "rate_prior_decay"@) == match old.rate_prior_decay {
            Some(true) => Some("true"@),
            Some(false) => Some("false"@),
            None => None,
        },
{
    names_find_their_keys(Key::Toggle(Toggle::RatePriorDecay));
}

/// `transit_classify` is the field of that name.
pub proof fn transit_classify_is_its_field(old: AgentConfig, s: Setting, new: AgentConfig)
    ensures
        key_named("transit_classify"@) matches Some(key) && {
            &&& setting(old, key) == Setting::Toggle(old.transit_classify)
            &&& updated(old, key, s, new) ==> {
                &&& s == Setting::Toggle(new.transit_classify)
                &&& new == (AgentConfig { transit_classify: new.transit_classify, ..old })
            }
        },
        value_of(old, "transit_classify"@) == match old.transit_classify {
            Some(true) => Some("true"@),
            Some(false) => Some("false"@),
            None => None,
        },
{
    names_find_their_keys(Key::Toggle(Toggle::TransitClassify));
}

/// `transit_hold` is the field of that name.
pub proof fn transit_hold_is_its_field(old: AgentConfig, s: Setting, new: AgentConfig)
    ensures
        key_named("transit_hold"@) matches Some(key) && {
            &&& setting(old, key) == Setting::Toggle(old.transit_hold)
            &&& updated(old, key, s, new) ==> {
                &&& s == Setting::Toggle(new.transit_hold)
                &&& new == (AgentConfig { transit_hold: new.transit_hold, ..old })
            }
        },
        value_of(old, "transit_hold"@) == match old.transit_hold {
            Some(true) => Some("true"@),
            Some(false) => Some("false"@),
            None => None,
        },
{
    names_find_their_keys(Key::Toggle(Toggle::TransitHold));
}

/// `media_thread` is the field of that name.
pub proof fn media_thread_is_its_field(old: AgentConfig, s: Setting, new: AgentConfig)
    ensures
        key_named("media_thread"@) matches Some(key) && {
            &&& setting(old, key) == Setting::Toggle(old.media_thread)
            &&& updated(old, key, s, new) ==> {
                &&& s == Setting::Toggle(new.media_thread)
                &&& new == (AgentConfig { media_thread: new.media_thread, ..old })
            }
        },
        value_of(old, "media_thread"@) == match old.media_thread {
            Some(true) => Some("true"@),
            Some(false) => Some("false"@),
            None => None,
        },
{
    names_find_their_keys(Key::Toggle(Toggle::MediaThread));
}

/// `pump_stall_watch` is the field of that name.
pub proof fn pump_stall_watch_is_its_field(old: AgentConfig, s: Setting, new: AgentConfig)
    ensures
        key_named("pump_stall_watch"@) matches Some(key) && {
            &&& setting(old, key) == Setting::Toggle(old.pump_stall_watch)
            &&& updated(old, key, s, new) ==> {
                &&& s == Setting::Toggle(new.pump_stall_watch)
                &&& new == (AgentConfig { pump_stall_watch: new.pump_stall_watch, ..old })
            }
        },
        value_of(old, "pump_stall_watch"@) == match old.pump_stall_watch {
            Some(true) => Some("true"@),
            Some(false) => Some("false"@),
            None => None,
        },
{
    names_find_their_keys(Key::Toggle(Toggle::PumpStallWatch));
}

/// `bg_rebuild_constrained` is the field of that name.
pub proof fn bg_rebuild_constrained_is_its_field(old: AgentConfig, s: Setting, new: AgentConfig)
    ensures
        key_named("bg_rebuild_constrained"@) matches Some(key) && {
            &&& setting(old, key) == Setting::Toggle(old.bg_rebuild_constrained)
            &&& updated(old, key, s, new) ==> {
                &&& s == Setting::Toggle(new.bg_rebuild_constrained)
                &&& new == (AgentConfig {
                    bg_rebuild_constrained: new.bg_rebuild_constrained,
                    ..old
                })
            }
        },
        value_of(old, "bg_rebuild_constrained"@) == match old.bg_rebuild_constrained {
            Some(true) => Some("true"@),
            Some(false) => Some("false"@),
            None => None,
        },
{
    names_find_their_keys(Key::Toggle(Toggle::BgRebuildConstrained));
}

/// `slow_link_floor` is the field of that name.
pub proof fn slow_link_floor_is_its_field(old: AgentConfig, s: Setting, new: AgentConfig)
    ensures
        key_named("slow_link_floor"@) matches Some(key) && {
            &&& setting(old, key) == Setting::Toggle(old.slow_link_floor)
            &&& updated(old, key, s, new) ==> {
                &&& s == Setting::Toggle(new.slow_link_floor)
                &&& new == (AgentConfig { slow_link_floor: new.slow_link_floor, ..old })
            }
        },
        value_of(old, "slow_link_floor"@) == match old.slow_link_floor {
            Some(true) => Some("true"@),
            Some(false) => Some("false"@),
            None => None,
        },
{
    names_find_their_keys(Key::Toggle(Toggle::SlowLinkFloor));
}

/// `constrained_queue_measured` is the field of that name.
pub proof fn constrained_queue_measured_is_its_field(old: AgentConfig, s: Setting, new: AgentConfig)
    ensures
        key_named("constrained_queue_measured"@) matches Some(key) && {
            &&& setting(old, key) == Setting::Toggle(old.constrained_queue_measured)
            &&& updated(old, key, s, new) ==> {
                &&& s == Setting::Toggle(new.constrained_queue_measured)
                &&& new == (AgentConfig {
                    constrained_queue_measured: new.constrained_queue_measured,
                    ..old
                })
            }
        },
        value_of(old, "constrained_queue_measured"@) == match old.constrained_queue_measured {
            Some(true) => Some("true"@),
            Some(false) => Some("false"@),
            None => None,
        },
{
    names_find_their_keys(Key::Toggle(Toggle::ConstrainedQueueMeasured));
}

/// `seed_contradiction` is the field of that name.
pub proof fn seed_contradiction_is_its_field(old: AgentConfig, s: Setting, new: AgentConfig)
    ensures
        key_named("seed_contradiction"@) matches Some(key) && {
            &&& setting(old, key) == Setting::Toggle(old.seed_contradiction)
            &&& updated(old, key, s, new) ==> {
                &&& s == Setting::Toggle(new.seed_contradiction)
                &&& new == (AgentConfig { seed_contradiction: new.seed_contradiction, ..old })
            }
        },
        value_of(old, "seed_contradiction"@) == match old.seed_contradiction {
            Some(true) => Some("true"@),
            Some(false) => Some("false"@),
            None => None,
        },
{
    names_find_their_keys(Key::Toggle(Toggle::SeedContradiction));
}

/// `viewer_rate_clamp` is the field of that name.
pub proof fn viewer_rate_clamp_is_its_field(old: AgentConfig, s: Setting, new: AgentConfig)
    ensures
        key_named("viewer_rate_clamp"@) matches Some(key) && {
            &&& setting(old, key) == Setting::Toggle(old.viewer_rate_clamp)
            &&& updated(old, key, s, new) ==> {
                &&& s == Setting::Toggle(new.viewer_rate_clamp)
                &&& new == (AgentConfig { viewer_rate_clamp: new.viewer_rate_clamp, ..old })
            }
        },
        value_of(old, "viewer_rate_clamp"@) == match old.viewer_rate_clamp {
            Some(true) => Some("true"@),
            Some(false) => Some("false"@),
            None => None,
        },
{
    names_find_their_keys(Key::Toggle(Toggle::ViewerRateClamp));
}

/// `queue_drain` is the field of that name.
pub proof fn queue_drain_is_its_field(old: AgentConfig, s: Setting, new: AgentConfig)
    ensures
        key_named("queue_drain"@) matches Some(key) && {
            &&& setting(old, key) == Setting::Toggle(old.queue_drain)
            &&& updated(old, key, s, new) ==> {
                &&& s == Setting::Toggle(new.queue_drain)
                &&& new == (AgentConfig { queue_drain: new.queue_drain, ..old })
            }
        },
        value_of(old, "queue_drain"@) == match old.queue_drain {
            Some(true) => Some("true"@),
            Some(false) => Some("false"@),
            None => None,
        },
{
    names_find_their_keys(Key::Toggle(Toggle::QueueDrain));
}

/// `slow_link_profile` is the field of that name.
pub proof fn slow_link_profile_is_its_field(old: AgentConfig, s: Setting, new: AgentConfig)
    ensures
        key_named("slow_link_profile"@) matches Some(key) && {
            &&& setting(old, key) == Setting::Toggle(old.slow_link_profile)
            &&& updated(old, key, s, new) ==> {
                &&& s == Setting::Toggle(new.slow_link_profile)
                &&& new == (AgentConfig { slow_link_profile: new.slow_link_profile, ..old })
            }
        },
        value_of(old, "slow_link_profile"@) == match old.slow_link_profile {
            Some(true) => Some("true"@),
            Some(false) => Some("false"@),
            None => None,
        },
{
    names_find_their_keys(Key::Toggle(Toggle::SlowLinkProfile));
}

/// `area_min_bitrate` is the field of that name.
pub proof fn area_min_bitrate_is_its_field(old: AgentConfig, s: Setting, new: AgentConfig)
    ensures
        key_named("area_min_bitrate"@) matches Some(key) && {
            &&& setting(old, key) == Setting::Toggle(old.area_min_bitrate)
            &&& updated(old, key, s, new) ==> {
                &&& s == Setting::Toggle(new.area_min_bitrate)
                &&& new == (AgentConfig { area_min_bitrate: new.area_min_bitrate, ..old })
            }
        },
        value_of(old, "area_min_bitrate"@) == match old.area_min_bitrate {
            Some(true) => Some("true"@),
            Some(false) => Some("false"@),
            None => None,
        },
{
    names_find_their_keys(Key::Toggle(Toggle::AreaMinBitrate));
}

/// `priority_res_cap` is the field of that name.
pub proof fn priority_res_cap_is_its_field(old: AgentConfig, s: Setting, new: AgentConfig)
    ensures
        key_named("priority_res_cap"@) matches Some(key) && {
            &&& setting(old, key) == Setting::Toggle(old.priority_res_cap)
            &&& updated(old, key, s, new) ==> {
                &&& s == Setting::Toggle(new.priority_res_cap)
                &&& new == (AgentConfig { priority_res_cap: new.priority_res_cap, ..old })
            }
        },
        value_of(old, "priority_res_cap"@) == match old.priority_res_cap {
            Some(true) => Some("true"@),
            Some(false) => Some("false"@),
            None => None,
        },
{
    names_find_their_keys(Key::Toggle(Toggle::PriorityResCap));
}

/// `ice_warm_standby` is the field of that name.
pub proof fn ice_warm_standby_is_its_field(old: AgentConfig, s: Setting, new: AgentConfig)
    ensures
        key_named("ice_warm_standby"@) matches Some(key) && {
            &&& setting(old, key) == Setting::Toggle(old.ice_warm_standby)
            &&& updated(old, key, s, new) ==> {
                &&& s == Setting::Toggle(new.ice_warm_standby)
                &&& new == (AgentConfig { ice_warm_standby: new.ice_warm_standby, ..old })
            }
        },
        value_of(old, "ice_warm_standby"@) == match old.ice_warm_standby {
            Some(true) => Some("true"@),
            Some(false) => Some("false"@),
            None => None,
        },
{
    names_find_their_keys(Key::Toggle(Toggle::IceWarmStandby));
}

/// `ice_overlay_host_deprioritize` is the field of that name.
pub proof fn ice_overlay_host_deprioritize_is_its_field(
    old: AgentConfig,
    s: Setting,
    new: AgentConfig,
)
    ensures
        key_named("ice_overlay_host_deprioritize"@) matches Some(key) && {
            &&& setting(old, key) == Setting::Toggle(old.ice_overlay_host_deprioritize)
            &&& updated(old, key, s, new) ==> {
                &&& s == Setting::Toggle(new.ice_overlay_host_deprioritize)
                &&& new == (AgentConfig {
                    ice_overlay_host_deprioritize: new.ice_overlay_host_deprioritize,
                    ..old
                })
            }
        },
        value_of(old, "ice_overlay_host_deprioritize"@) == match old.ice_overlay_host_deprioritize {
            Some(true) => Some("true"@),
            Some(false) => Some("false"@),
            None => None,
        },
{
    names_find_their_keys(Key::Toggle(Toggle::IceOverlayHostDeprioritize));
}

/// `overlay_tier_detect` is the field of that name.
pub proof fn overlay_tier_detect_is_its_field(old: AgentConfig, s: Setting, new: AgentConfig)
    ensures
        key_named("overlay_tier_detect"@) matches Some(key) && {
            &&& setting(old, key) == Setting::Toggle(old.overlay_tier_detect)
            &&& updated(old, key, s, new) ==> {
                &&& s == Setting::Toggle(new.overlay_tier_detect)
                &&& new == (AgentConfig { overlay_tier_detect: new.overlay_tier_detect, ..old })
            }
        },
        value_of(old, "overlay_tier_detect"@) == match old.overlay_tier_detect {
            Some(true) => Some("true"@),
            Some(false) => Some("false"@),
            None => None,
        },
{
    names_find_their_keys(Key::Toggle(Toggle::OverlayTierDetect));
}

/// `overlay_rtt_q` is the field of that name.
pub proof fn overlay_rtt_q_is_its_field(old: AgentConfig, s: Setting, new: AgentConfig)
    ensures
        key_named("overlay_rtt_q"@) matches Some(key) && {
            &&& setting(old, key) == Setting::Toggle(old.overlay_rtt_q)
            &&& updated(old, key, s, new) ==> {
                &&& s == Setting::Toggle(new.overlay_rtt_q)
                &&& new == (AgentConfig { overlay_rtt_q: new.overlay_rtt_q, ..old })
            }
        },
        value_of(old, "overlay_rtt_q"@) == match old.overlay_rtt_q {
            Some(true) => Some("true"@),
            Some(false) => Some("false"@),
            None => None,
        },
{
    names_find_their_keys(Key::Toggle(Toggle::OverlayRttQ));
}

/// `overlay_upward_probe` is the field of that name.
pub proof fn overlay_upward_probe_is_its_field(old: AgentConfig, s: Setting, new: AgentConfig)
    ensures
        key_named("overlay_upward_probe"@) matches Some(key) && {
            &&& setting(old, key) == Setting::Toggle(old.overlay_upward_probe)
            &&& updated(old, key, s, new) ==> {
                &&& s == Setting::Toggle(new.overlay_upward_probe)
                &&& new == (AgentConfig { overlay_upward_probe: new.overlay_upward_probe, ..old })
            }
        },
        value_of(old, "overlay_upward_probe"@) == match old.overlay_upward_probe {
            Some(true) => Some("true"@),
            Some(false) => Some("false"@),
            None => None,
        },
{
    names_find_their_keys(Key::Toggle(Toggle::OverlayUpwardProbe));
}

/// `relay_probe` is the field of that name.
pub proof fn relay_probe_is_its_field(old: AgentConfig, s: Setting, new: AgentConfig)
    ensures
        key_named("relay_probe"@) matches Some(key) && {
            &&& setting(old, key) == Setting::Toggle(old.relay_probe)
            &&& updated(old, key, s, new) ==> {
                &&& s == Setting::Toggle(new.relay_probe)
                &&& new == (AgentConfig { relay_probe: new.relay_probe, ..old })
            }
        },
        value_of(old, "relay_probe"@) == match old.relay_probe {
            Some(true) => Some("true"@),
            Some(false) => Some("false"@),
            None => None,
        },
{
    names_find_their_keys(Key::Toggle(Toggle::RelayProbe));
}

/// `text_mod_neutralize` is the field of that name.
pub proof fn text_mod_neutralize_is_its_field(old: AgentConfig, s: Setting, new: AgentConfig)
    ensures
        key_named("text_mod_neutralize"@) matches Some(key) && {
            &&& setting(old, key) == Setting::Toggle(old.text_mod_neutralize)
            &&& updated(old, key, s, new) ==> {
                &&& s == Setting::Toggle(new.text_mod_neutralize)
                &&& new == (AgentConfig { text_mod_neutralize: new.text_mod_neutralize, ..old })
            }
        },
        value_of(old, "text_mod_neutralize"@) == match old.text_mod_neutralize {
            Some(true) => Some("true"@),
            Some(false) => Some("false"@),
            None => None,
        },
{
    names_find_their_keys(Key::Toggle(Toggle::TextModNeutralize));
}

/// `update_check_interval_h` is the field of that name.
pub proof fn update_check_interval_h_is_its_field(old: AgentConfig, s: Setting, new: AgentConfig)
    ensures
        key_named("update_check_interval_h"@) matches Some(key) && {
            &&& setting(old, key) == Setting::Number(old.update_check_interval_h)
            &&& updated(old, key, s, new) ==> {
                &&& s == Setting::Number(new.update_check_interval_h)
                &&& new == (AgentConfig {
                    update_check_interval_h: new.update_check_interval_h,
                    ..old
                })
            }
        },
        value_of(old, "update_check_interval_h"@) == match old.update_check_interval_h {
            Some(n) => Some(decimal(n as nat)),
            None => None,
        },
{
    names_find_their_keys(Key::Number(Number::UpdateCheckIntervalH));
}

/// `relay_server_port` is the field of that name.
pub proof fn relay_server_port_is_its_field(old: AgentConfig, s: Setting, new: AgentConfig)
    ensures
        key_named("relay_server_port"@) matches Some(key) && {
            &&& setting(old, key) == Setting::Number(old.relay_server_port)
            &&& updated(old, key, s, new) ==> {
                &&& s == Setting::Number(new.relay_server_port)
                &&& new == (AgentConfig { relay_server_port: new.relay_server_port, ..old })
            }
        },
        value_of(old, "relay_server_port"@) == match old.relay_server_port {
            Some(n) => Some(decimal(n as nat)),
            None => None,
        },
{
    names_find_their_keys(Key::Number(Number::RelayServerPort));
}

/// `overlay_route_tick_secs` is the field of that name.
pub proof fn overlay_route_tick_secs_is_its_field(old: AgentConfig, s: Setting, new: AgentConfig)
    ensures
        key_named("overlay_route_tick_secs"@) matches Some(key) && {
            &&& setting(old, key) == Setting::Number(old.overlay_route_tick_secs)
            &&& updated(old, key, s, new) ==> {
                &&& s == Setting::Number(new.overlay_route_tick_secs)
                &&& new == (AgentConfig {
                    overlay_route_tick_secs: new.overlay_route_tick_secs,
                    ..old
                })
            }
        },
        value_of(old, "overlay_route_tick_secs"@) == match old.overlay_route_tick_secs {
            Some(n) => Some(decimal(n as nat)),
            None => None,
        },
{
    names_find_their_keys(Key::Number(Number::OverlayRouteTickSecs));
}

/// `overlay_netmon_debounce_ms` is the field of that name.
pub proof fn overlay_netmon_debounce_ms_is_its_field(old: AgentConfig, s: Setting, new: AgentConfig)
    ensures
        key_named("overlay_netmon_debounce_ms"@) matches Some(key) && {
            &&& setting(old, key) == Setting::Number(old.overlay_netmon_debounce_ms)
            &&& updated(old, key, s, new) ==> {
                &&& s == Setting::Number(new.overlay_netmon_debounce_ms)
                &&& new == (AgentConfig {
                    overlay_netmon_debounce_ms: new.overlay_netmon_debounce_ms,
                    ..old
                })
            }
        },
        value_of(old, "overlay_netmon_debounce_ms"@) == match old.overlay_netmon_debounce_ms {
            Some(n) => Some(decimal(n as nat)),
            None => None,
        },
{
    names_find_their_keys(Key::Number(Number::OverlayNetmonDebounceMs));
}

/// `rc_max_sessions` is the field of that name.
pub proof fn rc_max_sessions_is_its_field(old: AgentConfig, s: Setting, new: AgentConfig)
    ensures
        key_named("rc_max_sessions"@) matches Some(key) && {
            &&& setting(old, key) == Setting::Number(old.rc_max_sessions)
            &&& updated(old, key, s, new) ==> {
                &&& s == Setting::Number(new.rc_max_sessions)
                &&& new == (AgentConfig { rc_max_sessions: new.rc_max_sessions, ..old })
            }
        },
        value_of(old, "rc_max_sessions"@) == match old.rc_max_sessions {
            Some(n) => Some(decimal(n as nat)),
            None => None,
        },
{
    names_find_their_keys(Key::Number(Number::RcMaxSessions));
}

/// `overlay_direct_port` is the field of that name.
pub proof fn overlay_direct_port_is_its_field(old: AgentConfig, s: Setting, new: AgentConfig)
    ensures
        key_named("overlay_direct_port"@) matches Some(key) && {
            &&& setting(old, key) == Setting::Number(old.overlay_direct_port)
            &&& updated(old, key, s, new) ==> {
                &&& s == Setting::Number(new.overlay_direct_port)
                &&& new == (AgentConfig { overlay_direct_port: new.overlay_direct_port, ..old })
            }
        },
        value_of(old, "overlay_direct_port"@) == match old.overlay_direct_port {
            Some(n) => Some(decimal(n as nat)),
            None => None,
        },
{
    names_find_their_keys(Key::Number(Number::OverlayDirectPort));
}

/// `overlay_iface_metric` is the field of that name.
pub proof fn overlay_iface_metric_is_its_field(old: AgentConfig, s: Setting, new: AgentConfig)
    ensures
        key_named("overlay_iface_metric"@) matches Some(key) && {
            &&& setting(old, key) == Setting::Number(old.overlay_iface_metric)
            &&& updated(old, key, s, new) ==> {
                &&& s == Setting::Number(new.overlay_iface_metric)
                &&& new == (AgentConfig { overlay_iface_metric: new.overlay_iface_metric, ..old })
            }
        },
        value_of(old, "overlay_iface_metric"@) == match old.overlay_iface_metric {
            Some(n) => Some(decimal(n as nat)),
            None => None,
        },
{
    names_find_their_keys(Key::Number(Number::OverlayIfaceMetric));
}

/// `rate_factor_h264` is the field of that name.
pub proof fn rate_factor_h264_is_its_field(old: AgentConfig, s: Setting, new: AgentConfig)
    ensures
        key_named("rate_factor_h264"@) matches Some(key) && {
            &&& setting(old, key) == Setting::Number(old.rate_factor_h264)
            &&& updated(old, key, s, new) ==> {
                &&& s == Setting::Number(new.rate_factor_h264)
                &&& new == (AgentConfig { rate_factor_h264: new.rate_factor_h264, ..old })
            }
        },
        value_of(old, "rate_factor_h264"@) == match old.rate_factor_h264 {
            Some(n) => Some(decimal(n as nat)),
            None => None,
        },
{
    names_find_their_keys(Key::Number(Number::RateFactorH264));
}

/// `rate_factor_hevc` is the field of that name.
pub proof fn rate_factor_hevc_is_its_field(old: AgentConfig, s: Setting, new: AgentConfig)
    ensures
        key_named("rate_factor_hevc"@) matches Some(key) && {
            &&& setting(old, key) == Setting::Number(old.rate_factor_hevc)
            &&& updated(old, key, s, new) ==> {
                &&& s == Setting::Number(new.rate_factor_hevc)
                &&& new == (AgentConfig { rate_factor_hevc: new.rate_factor_hevc, ..old })
            }
        },
        value_of(old, "rate_factor_hevc"@) == match old.rate_factor_hevc {
            Some(n) => Some(decimal(n as nat)),
            None => None,
        },
{
    names_find_their_keys(Key::Number(Number::RateFactorHevc));
}

/// `rate_factor_vp9` is the field of that name.
pub proof fn rate_factor_vp9_is_its_field(old: AgentConfig, s: Setting, new: AgentConfig)
    ensures
        key_named("rate_factor_vp9"@) matches Some(key) && {
            &&& setting(old, key) == Setting::Number(old.rate_factor_vp9)
            &&& updated(old, key, s, new) ==> {
                &&& s == Setting::Number(new.rate_factor_vp9)
                &&& new == (AgentConfig { rate_factor_vp9: new.rate_factor_vp9, ..old })
            }
        },
        value_of(old, "rate_factor_vp9"@) == match old.rate_factor_vp9 {
            Some(n) => Some(decimal(n as nat)),
            None => None,
        },
{
    names_find_their_keys(Key::Number(Number::RateFactorVp9));
}

/// `rate_factor_av1` is the field of that name.
pub proof fn rate_factor_av1_is_its_field(old: AgentConfig, s: Setting, new: AgentConfig)
    ensures
        key_named("rate_factor_av1"@) matches Some(key) && {
            &&& setting(old, key) == Setting::Number(old.rate_factor_av1)
            &&& updated(old, key, s, new) ==> {
                &&& s == Setting::Number(new.rate_factor_av1)
                &&& new == (AgentConfig { rate_factor_av1: new.rate_factor_av1, ..old })
            }
        },
        value_of(old, "rate_factor_av1"@) == match old.rate_factor_av1 {
            Some(n) => Some(decimal(n as nat)),
            None => None,
        },
{
    names_find_their_keys(Key::Number(Number::RateFactorAv1));
}

/// `lanczos_min_pct` is the field of that name.
pub proof fn lanczos_min_pct_is_its_field(old: AgentConfig, s: Setting, new: AgentConfig)
    ensures
        key_named("lanczos_min_pct"@) matches Some(key) && {
            &&& setting(old, key) == Setting::Number(old.lanczos_min_pct)
            &&& updated(old, key, s, new) ==> {
                &&& s == Setting::Number(new.lanczos_min_pct)
                &&& new == (AgentConfig { lanczos_min_pct: new.lanczos_min_pct, ..old })
            }
        },
        value_of(old, "lanczos_min_pct"@) == match old.lanczos_min_pct {
            Some(n) => Some(decimal(n as nat)),
            None => None,
        },
{
    names_find_their_keys(Key::Number(Number::LanczosMinPct));
}

/// `scale_cq_boost` is the field of that name.
pub proof fn scale_cq_boost_is_its_field(old: AgentConfig, s: Setting, new: AgentConfig)
    ensures
        key_named("scale_cq_boost"@) matches Some(key) && {
            &&& setting(old, key) == Setting::Number(old.scale_cq_boost)
            &&& updated(old, key, s, new) ==> {
                &&& s == Setting::Number(new.scale_cq_boost)
                &&& new == (AgentConfig { scale_cq_boost: new.scale_cq_boost, ..old })
            }
        },
        value_of(old, "scale_cq_boost"@) == match old.scale_cq_boost {
            Some(n) => Some(decimal(n as nat)),
            None => None,
        },
{
    names_find_their_keys(Key::Number(Number::ScaleCqBoost));
}

/// `relay_max_hi_kbps` is the field of that name.
pub proof fn relay_max_hi_kbps_is_its_field(old: AgentConfig, s: Setting, new: AgentConfig)
    ensures
        key_named("relay_max_hi_kbps"@) matches Some(key) && {
            &&& setting(old, key) == Setting::Number(old.relay_max_hi_kbps)
            &&& updated(old, key, s, new) ==> {
                &&& s == Setting::Number(new.relay_max_hi_kbps)
                &&& new == (AgentConfig { relay_max_hi_kbps: new.relay_max_hi_kbps, ..old })
            }
        },
        value_of(old, "relay_max_hi_kbps"@) == match old.relay_max_hi_kbps {
            Some(n) => Some(decimal(n as nat)),
            None => None,
        },
{
    names_find_their_keys(Key::Number(Number::RelayMaxHiKbps));
}

/// `idle_refine_max_edge` is the field of that name.
pub proof fn idle_refine_max_edge_is_its_field(old: AgentConfig, s: Setting, new: AgentConfig)
    ensures
        key_named("idle_refine_max_edge"@) matches Some(key) && {
            &&& setting(old, key) == Setting::Number(old.idle_refine_max_edge)
            &&& updated(old, key, s, new) ==> {
                &&& s == Setting::Number(new.idle_refine_max_edge)
                &&& new == (AgentConfig { idle_refine_max_edge: new.idle_refine_max_edge, ..old })
            }
        },
        value_of(old, "idle_refine_max_edge"@) == match old.idle_refine_max_edge {
            Some(n) => Some(decimal(n as nat)),
            None => None,
        },
{
    names_find_their_keys(Key::Number(Number::IdleRefineMaxEdge));
}

/// `idle_refine_min_frame_kb` is the field of that name.
pub proof fn idle_refine_min_frame_kb_is_its_field(old: AgentConfig, s: Setting, new: AgentConfig)
    ensures
        key_named("idle_refine_min_frame_kb"@) matches Some(key) && {
            &&& setting(old, key) == Setting::Number(old.idle_refine_min_frame_kb)
            &&& updated(old, key, s, new) ==> {
                &&& s == Setting::Number(new.idle_refine_min_frame_kb)
                &&& new == (AgentConfig {
                    idle_refine_min_frame_kb: new.idle_refine_min_frame_kb,
                    ..old
                })
            }
        },
        value_of(old, "idle_refine_min_frame_kb"@) == match old.idle_refine_min_frame_kb {
            Some(n) => Some(decimal(n as nat)),
            None => None,
        },
{
    names_find_their_keys(Key::Number(Number::IdleRefineMinFrameKb));
}

/// `idle_refine_major_area_permille` is the field of that name.
pub proof fn idle_refine_major_area_permille_is_its_field(
    old: AgentConfig,
    s: Setting,
    new: AgentConfig,
)
    ensures
        key_named("idle_refine_major_area_permille"@) matches Some(key) && {
            &&& setting(old, key) == Setting::Number(old.idle_refine_major_area_permille)
            &&& updated(old, key, s, new) ==> {
                &&& s == Setting::Number(new.idle_refine_major_area_permille)
                &&& new == (AgentConfig {
                    idle_refine_major_area_permille: new.idle_refine_major_area_permille,
                    ..old
                })
            }
        },
        value_of(old, "idle_refine_major_area_permille"@) == match old.idle_refine_major_area_permille {
            Some(n) => Some(decimal(n as nat)),
            None => None,
        },
{
    names_find_their_keys(Key::Number(Number::IdleRefineMajorAreaPermille));
}

/// `idle_refine_settle_ms` is the field of that name.
pub proof fn idle_refine_settle_ms_is_its_field(old: AgentConfig, s: Setting, new: AgentConfig)
    ensures
        key_named("idle_refine_settle_ms"@) matches Some(key) && {
            &&& setting(old, key) == Setting::Number(old.idle_refine_settle_ms)
            &&& updated(old, key, s, new) ==> {
                &&& s == Setting::Number(new.idle_refine_settle_ms)
                &&& new == (AgentConfig { idle_refine_settle_ms: new.idle_refine_settle_ms, ..old })
            }
        },
        value_of(old, "idle_refine_settle_ms"@) == match old.idle_refine_settle_ms {
            Some(n) => Some(decimal(n as nat)),
            None => None,
        },
{
    names_find_their_keys(Key::Number(Number::IdleRefineSettleMs));
}

/// `idle_refine_settle_constrained_ms` is the field of that name.
pub proof fn idle_refine_settle_constrained_ms_is_its_field(
    old: AgentConfig,
    s: Setting,
    new: AgentConfig,
)
    ensures
        key_named("idle_refine_settle_constrained_ms"@) matches Some(key) && {
            &&& setting(old, key) == Setting::Number(old.idle_refine_settle_constrained_ms)
            &&& updated(old, key, s, new) ==> {
                &&& s == Setting::Number(new.idle_refine_settle_constrained_ms)
                &&& new == (AgentConfig {
                    idle_refine_settle_constrained_ms: new.idle_refine_settle_constrained_ms,
                    ..old
                })
            }
        },
        value_of(old, "idle_refine_settle_constrained_ms"@) == match old.idle_refine_settle_constrained_ms {
            Some(n) => Some(decimal(n as nat)),
            None => None,
        },
{
    names_find_their_keys(Key::Number(Number::IdleRefineSettleConstrainedMs));
}

/// `constrained_cq_relief` is the field of that name.
pub proof fn constrained_cq_relief_is_its_field(old: AgentConfig, s: Setting, new: AgentConfig)
    ensures
        key_named("constrained_cq_relief"@) matches Some(key) && {
            &&& setting(old, key) == Setting::Number(old.constrained_cq_relief)
            &&& updated(old, key, s, new) ==> {
                &&& s == Setting::Number(new.constrained_cq_relief)
                &&& new == (AgentConfig { constrained_cq_relief: new.constrained_cq_relief, ..old })
            }
        },
        value_of(old, "constrained_cq_relief"@) == match old.constrained_cq_relief {
            Some(n) => Some(decimal(n as nat)),
            None => None,
        },
{
    names_find_their_keys(Key::Number(Number::ConstrainedCqRelief));
}

/// `constrained_queue_ms` is the field of that name.
pub proof fn constrained_queue_ms_is_its_field(old: AgentConfig, s: Setting, new: AgentConfig)
    ensures
        key_named("constrained_queue_ms"@) matches Some(key) && {
            &&& setting(old, key) == Setting::Number(old.constrained_queue_ms)
            &&& updated(old, key, s, new) ==> {
                &&& s == Setting::Number(new.constrained_queue_ms)
                &&& new == (AgentConfig { constrained_queue_ms: new.constrained_queue_ms, ..old })
            }
        },
        value_of(old, "constrained_queue_ms"@) == match old.constrained_queue_ms {
            Some(n) => Some(decimal(n as nat)),
            None => None,
        },
{
    names_find_their_keys(Key::Number(Number::ConstrainedQueueMs));
}

/// `constrained_hrd_pct` is the field of that name.
pub proof fn constrained_hrd_pct_is_its_field(old: AgentConfig, s: Setting, new: AgentConfig)
    ensures
        key_named("constrained_hrd_pct"@) matches Some(key) && {
            &&& setting(old, key) == Setting::Number(old.constrained_hrd_pct)
            &&& updated(old, key, s, new) ==> {
                &&& s == Setting::Number(new.constrained_hrd_pct)
                &&& new == (AgentConfig { constrained_hrd_pct: new.constrained_hrd_pct, ..old })
            }
        },
        value_of(old, "constrained_hrd_pct"@) == match old.constrained_hrd_pct {
            Some(n) => Some(decimal(n as nat)),
            None => None,
        },
{
    names_find_their_keys(Key::Number(Number::ConstrainedHrdPct));
}

/// `direct_queue_ms` is the field of that name.
pub proof fn direct_queue_ms_is_its_field(old: AgentConfig, s: Setting, new: AgentConfig)
    ensures
        key_named("direct_queue_ms"@) matches Some(key) && {
            &&& setting(old, key) == Setting::Number(old.direct_queue_ms)
            &&& updated(old, key, s, new) ==> {
                &&& s == Setting::Number(new.direct_queue_ms)
                &&& new == (AgentConfig { direct_queue_ms: new.direct_queue_ms, ..old })
            }
        },
        value_of(old, "direct_queue_ms"@) == match old.direct_queue_ms {
            Some(n) => Some(decimal(n as nat)),
            None => None,
        },
{
    names_find_their_keys(Key::Number(Number::DirectQueueMs));
}

/// `direct_hrd_pct` is the field of that name.
pub proof fn direct_hrd_pct_is_its_field(old: AgentConfig, s: Setting, new: AgentConfig)
    ensures
        key_named("direct_hrd_pct"@) matches Some(key) && {
            &&& setting(old, key) == Setting::Number(old.direct_hrd_pct)
            &&& updated(old, key, s, new) ==> {
                &&& s == Setting::Number(new.direct_hrd_pct)
                &&& new == (AgentConfig { direct_hrd_pct: new.direct_hrd_pct, ..old })
            }
        },
        value_of(old, "direct_hrd_pct"@) == match old.direct_hrd_pct {
            Some(n) => Some(decimal(n as nat)),
            None => None,
        },
{
    names_find_their_keys(Key::Number(Number::DirectHrdPct));
}

/// `send_stall_ms` is the field of that name.
pub proof fn send_stall_ms_is_its_field(old: AgentConfig, s: Setting, new: AgentConfig)
    ensures
        key_named("send_stall_ms"@) matches Some(key) && {
            &&& setting(old, key) == Setting::Number(old.send_stall_ms)
            &&& updated(old, key, s, new) ==> {
                &&& s == Setting::Number(new.send_stall_ms)
                &&& new == (AgentConfig { send_stall_ms: new.send_stall_ms, ..old })
            }
        },
        value_of(old, "send_stall_ms"@) == match old.send_stall_ms {
            Some(n) => Some(decimal(n as nat)),
            None => None,
        },
{
    names_find_their_keys(Key::Number(Number::SendStallMs));
}

/// `relay_max_kbps` is the field of that name.
pub proof fn relay_max_kbps_is_its_field(old: AgentConfig, s: Setting, new: AgentConfig)
    ensures
        key_named("relay_max_kbps"@) matches Some(key) && {
            &&& setting(old, key) == Setting::Number(old.relay_max_kbps)
            &&& updated(old, key, s, new) ==> {
                &&& s == Setting::Number(new.relay_max_kbps)
                &&& new == (AgentConfig { relay_max_kbps: new.relay_max_kbps, ..old })
            }
        },
        value_of(old, "relay_max_kbps"@) == match old.relay_max_kbps {
            Some(n) => Some(decimal(n as nat)),
            None => None,
        },
{
    names_find_their_keys(Key::Number(Number::RelayMaxKbps));
}

/// `pump_stall_warn_ms` is the field of that name.
pub proof fn pump_stall_warn_ms_is_its_field(old: AgentConfig, s: Setting, new: AgentConfig)
    ensures
        key_named("pump_stall_warn_ms"@) matches Some(key) && {
            &&& setting(old, key) == Setting::Number(old.pump_stall_warn_ms)
            &&& updated(old, key, s, new) ==> {
                &&& s == Setting::Number(new.pump_stall_warn_ms)
                &&& new == (AgentConfig { pump_stall_warn_ms: new.pump_stall_warn_ms, ..old })
            }
        },
        value_of(old, "pump_stall_warn_ms"@) == match old.pump_stall_warn_ms {
            Some(n) => Some(decimal(n as nat)),
            None => None,
        },
{
    names_find_their_keys(Key::Number(Number::PumpStallWarnMs));
}

/// `slow_link_min_bitrate` is the field of that name.
pub proof fn slow_link_min_bitrate_is_its_field(old: AgentConfig, s: Setting, new: AgentConfig)
    ensures
        key_named("slow_link_min_bitrate"@) matches Some(key) && {
            &&& setting(old, key) == Setting::Number(old.slow_link_min_bitrate)
            &&& updated(old, key, s, new) ==> {
                &&& s == Setting::Number(new.slow_link_min_bitrate)
                &&& new == (AgentConfig { slow_link_min_bitrate: new.slow_link_min_bitrate, ..old })
            }
        },
        value_of(old, "slow_link_min_bitrate"@) == match old.slow_link_min_bitrate {
            Some(n) => Some(decimal(n as nat)),
            None => None,
        },
{
    names_find_their_keys(Key::Number(Number::SlowLinkMinBitrate));
}

/// `slow_link_profile_bps` is the field of that name.
pub proof fn slow_link_profile_bps_is_its_field(old: AgentConfig, s: Setting, new: AgentConfig)
    ensures
        key_named("slow_link_profile_bps"@) matches Some(key) && {
            &&& setting(old, key) == Setting::Number(old.slow_link_profile_bps)
            &&& updated(old, key, s, new) ==> {
                &&& s == Setting::Number(new.slow_link_profile_bps)
                &&& new == (AgentConfig { slow_link_profile_bps: new.slow_link_profile_bps, ..old })
            }
        },
        value_of(old, "slow_link_profile_bps"@) == match old.slow_link_profile_bps {
            Some(n) => Some(decimal(n as nat)),
            None => None,
        },
{
    names_find_their_keys(Key::Number(Number::SlowLinkProfileBps));
}

/// `smoother_rate_pct` is the field of that name.
pub proof fn smoother_rate_pct_is_its_field(old: AgentConfig, s: Setting, new: AgentConfig)
    ensures
        key_named("smoother_rate_pct"@) matches Some(key) && {
            &&& setting(old, key) == Setting::Number(old.smoother_rate_pct)
            &&& updated(old, key, s, new) ==> {
                &&& s == Setting::Number(new.smoother_rate_pct)
                &&& new == (AgentConfig { smoother_rate_pct: new.smoother_rate_pct, ..old })
            }
        },
        value_of(old, "smoother_rate_pct"@) == match old.smoother_rate_pct {
            Some(n) => Some(decimal(n as nat)),
            None => None,
        },
{
    names_find_their_keys(Key::Number(Number::SmootherRatePct));
}

/// `balanced_rate_pct` is the field of that name.
pub proof fn balanced_rate_pct_is_its_field(old: AgentConfig, s: Setting, new: AgentConfig)
    ensures
        key_named("balanced_rate_pct"@) matches Some(key) && {
            &&& setting(old, key) == Setting::Number(old.balanced_rate_pct)
            &&& updated(old, key, s, new) ==> {
                &&& s == Setting::Number(new.balanced_rate_pct)
                &&& new == (AgentConfig { balanced_rate_pct: new.balanced_rate_pct, ..old })
            }
        },
        value_of(old, "balanced_rate_pct"@) == match old.balanced_rate_pct {
            Some(n) => Some(decimal(n as nat)),
            None => None,
        },
{
    names_find_their_keys(Key::Number(Number::BalancedRatePct));
}

/// `scale_threads` is the field of that name.
pub proof fn scale_threads_is_its_field(old: AgentConfig, s: Setting, new: AgentConfig)
    ensures
        key_named("scale_threads"@) matches Some(key) && {
            &&& setting(old, key) == Setting::Number(old.scale_threads)
            &&& updated(old, key, s, new) ==> {
                &&& s == Setting::Number(new.scale_threads)
                &&& new == (AgentConfig { scale_threads: new.scale_threads, ..old })
            }
        },
        value_of(old, "scale_threads"@) == match old.scale_threads {
            Some(n) => Some(decimal(n as nat)),
            None => None,
        },
{
    names_find_their_keys(Key::Number(Number::ScaleThreads));
}

/// `overlay_advertised_routes` is the field of that name.
pub proof fn overlay_advertised_routes_is_its_field(old: AgentConfig, s: Setting, new: AgentConfig)
    ensures
        key_named("overlay_advertised_routes"@) matches Some(key) && {
            &&& setting(old, key) == Setting::List(views(old.overlay_advertised_routes@))
            &&& updated(old, key, s, new) ==> {
                &&& s == Setting::List(views(new.overlay_advertised_routes@))
                &&& new == (AgentConfig {
                    overlay_advertised_routes: new.overlay_advertised_routes,
                    ..old
                })
            }
        },
        value_of(old, "overlay_advertised_routes"@) == Some(join(views(old.overlay_advertised_routes@), ',')),
{
    names_find_their_keys(Key::OverlayAdvertisedRoutes);
}

/// `overlay_exit_node` is the field of that name.
pub proof fn overlay_exit_node_is_its_field(old: AgentConfig, s: Setting, new: AgentConfig)
    ensures
        key_named("overlay_exit_node"@) matches Some(key) && {
            &&& setting(old, key) == Setting::Text(opt_view(old.overlay_exit_node))
            &&& updated(old, key, s, new) ==> {
                &&& s == Setting::Text(opt_view(new.overlay_exit_node))
                &&& new == (AgentConfig { overlay_exit_node: new.overlay_exit_node, ..old })
            }
        },
        value_of(old, "overlay_exit_node"@) == opt_view(old.overlay_exit_node),
{
    names_find_their_keys(Key::OverlayExitNode);
}

/// `advertise_routes` is the field of that name.
pub proof fn advertise_routes_is_its_field(old: AgentConfig, s: Setting, new: AgentConfig)
    ensures
        key_named("advertise_routes"@) matches Some(key) && {
            &&& setting(old, key) == Setting::List(views(old.advertise_routes@))
            &&& updated(old, key, s, new) ==> {
                &&& s == Setting::List(views(new.advertise_routes@))
                &&& new == (AgentConfig { advertise_routes: new.advertise_routes, ..old })
            }
        },
        value_of(old, "advertise_routes"@) == Some(join(views(old.advertise_routes@), ',')),
{
    names_find_their_keys(Key::AdvertiseRoutes);
}

/// `power_policy` is the field of that name.
pub proof fn power_policy_is_its_field(old: AgentConfig, s: Setting, new: AgentConfig)
    ensures
        key_named("power_policy"@) matches Some(key) && {
            &&& setting(old, key) == Setting::Word(old.power_policy@)
            &&& updated(old, key, s, new) ==> {
                &&& s == Setting::Word(new.power_policy@)
                &&& new == (AgentConfig { power_policy: new.power_policy, ..old })
            }
        },
        value_of(old, "power_policy"@) == Some(
            if old.power_policy@.len() == 0 {
                "never"@
            } else {
                old.power_policy@
            },
        ),
{
    names_find_their_keys(Key::PowerPolicy);
}

/// `ssh_port` is the field of that name.
pub proof fn ssh_port_is_its_field(old: AgentConfig, s: Setting, new: AgentConfig)
    ensures
        key_named("ssh_port"@) matches Some(key) && {
            &&& setting(old, key) == Setting::Port(old.ssh_port)
            &&& updated(old, key, s, new) ==> {
                &&& s == Setting::Port(new.ssh_port)
                &&& new == (AgentConfig { ssh_port: new.ssh_port, ..old })
            }
        },
        value_of(old, "ssh_port"@) == match old.ssh_port {
            Some(n) => Some(decimal(n as nat)),
            None => None,
        },
{
    names_find_their_keys(Key::SshPort);
}

/// `ssh_authorized_keys` is the field of that name.
pub proof fn ssh_authorized_keys_is_its_field(old: AgentConfig, s: Setting, new: AgentConfig)
    ensures
        key_named("ssh_authorized_keys"@) matches Some(key) && {
            &&& setting(old, key) == Setting::List(views(old.ssh_authorized_keys@))
            &&& updated(old, key, s, new) ==> {
                &&& s == Setting::List(views(new.ssh_authorized_keys@))
                &&& new == (AgentConfig { ssh_authorized_keys: new.ssh_authorized_keys, ..old })
            }
        },
        value_of(old, "ssh_authorized_keys"@) == Some(join(views(old.ssh_authorized_keys@), ',')),
{
    names_find_their_keys(Key::SshAuthorizedKeys);
}

/// `ssh_account_mode` is the field of that name.
pub proof fn ssh_account_mode_is_its_field(old: AgentConfig, s: Setting, new: AgentConfig)
    ensures
        key_named("ssh_account_mode"@) matches Some(key) && {
            &&& setting(old, key) == Setting::Text(opt_view(old.ssh_account_mode))
            &&& updated(old, key, s, new) ==> {
                &&& s == Setting::Text(opt_view(new.ssh_account_mode))
                &&& new == (AgentConfig { ssh_account_mode: new.ssh_account_mode, ..old })
            }
        },
        value_of(old, "ssh_account_mode"@) == opt_view(old.ssh_account_mode),
{
    names_find_their_keys(Key::SshAccountMode);
}

/// `ssh_max_privilege` is the field of that name.
pub proof fn ssh_max_privilege_is_its_field(old: AgentConfig, s: Setting, new: AgentConfig)
    ensures
        key_named("ssh_max_privilege"@) matches Some(key) && {
            &&& setting(old, key) == Setting::Text(opt_view(old.ssh_max_privilege))
            &&& updated(old, key, s, new) ==> {
                &&& s == Setting::Text(opt_view(new.ssh_max_privilege))
                &&& new == (AgentConfig { ssh_max_privilege: new.ssh_max_privilege, ..old })
            }
        },
        value_of(old, "ssh_max_privilege"@) == opt_view(old.ssh_max_privilege),
{
    names_find_their_keys(Key::SshMaxPrivilege);
}

/// `encoder_preference` is the field of that name.
pub proof fn encoder_preference_is_its_field(old: AgentConfig, s: Setting, new: AgentConfig)
    ensures
        key_named("encoder_preference"@) matches Some(key) && {
            &&& setting(old, key) == Setting::Encoder(old.encoder_preference)
            &&& updated(old, key, s, new) ==> {
                &&& s == Setting::Encoder(new.encoder_preference)
                &&& new == (AgentConfig { encoder_preference: new.encoder_preference, ..old })
            }
        },
        value_of(old, "encoder_preference"@) == match old.encoder_preference {
            EncoderPreferenceChoice::Auto => Some("auto"@),
            EncoderPreferenceChoice::Hardware => Some("hardware"@),
            EncoderPreferenceChoice::Software => Some("software"@),
        },
{
    names_find_their_keys(Key::EncoderPreference);
}

/// `overlay_pathmon` is the field of that name.
pub proof fn overlay_pathmon_is_its_field(old: AgentConfig, s: Setting, new: AgentConfig)
    ensures
        key_named("overlay_pathmon"@) matches Some(key) && {
            &&& setting(old, key) == Setting::Text(opt_view(old.overlay_pathmon))
            &&& updated(old, key, s, new) ==> {
                &&& s == Setting::Text(opt_view(new.overlay_pathmon))
                &&& new == (AgentConfig { overlay_pathmon: new.overlay_pathmon, ..old })
            }
        },
        value_of(old, "overlay_pathmon"@) == opt_view(old.overlay_pathmon),
{
    names_find_their_keys(Key::OverlayPathmon);
}

/// `overlay_demote` is the field of that name.
pub proof fn overlay_demote_is_its_field(old: AgentConfig, s: Setting, new: AgentConfig)
    ensures
        key_named("overlay_demote"@) matches Some(key) && {
            &&& setting(old, key) == Setting::Text(opt_view(old.overlay_demote))
            &&& updated(old, key, s, new) ==> {
                &&& s == Setting::Text(opt_view(new.overlay_demote))
                &&& new == (AgentConfig { overlay_demote: new.overlay_demote, ..old })
            }
        },
        value_of(old, "overlay_demote"@) == opt_view(old.overlay_demote),
{
    names_find_their_keys(Key::OverlayDemote);
}

/// `overlay_rpf` is the field of that name.
pub proof fn overlay_rpf_is_its_field(old: AgentConfig, s: Setting, new: AgentConfig)
    ensures
        key_named("overlay_rpf"@) matches Some(key) && {
            &&& setting(old, key) == Setting::Text(opt_view(old.overlay_rpf))
            &&& updated(old, key, s, new) ==> {
                &&& s == Setting::Text(opt_view(new.overlay_rpf))
                &&& new == (AgentConfig { overlay_rpf: new.overlay_rpf, ..old })
            }
        },
        value_of(old, "overlay_rpf"@) == opt_view(old.overlay_rpf),
{
    names_find_their_keys(Key::OverlayRpf);
}

/// `netstack_socks_port` is the field of that name.
pub proof fn netstack_socks_port_is_its_field(old: AgentConfig, s: Setting, new: AgentConfig)
    ensures
        key_named("netstack_socks_port"@) matches Some(key) && {
            &&& setting(old, key) == Setting::Port(old.netstack_socks_port)
            &&& updated(old, key, s, new) ==> {
                &&& s == Setting::Port(new.netstack_socks_port)
                &&& new == (AgentConfig { netstack_socks_port: new.netstack_socks_port, ..old })
            }
        },
        value_of(old, "netstack_socks_port"@) == match old.netstack_socks_port {
            Some(n) => Some(decimal(n as nat)),
            None => None,
        },
{
    names_find_their_keys(Key::NetstackSocksPort);
}

/// `ice_follow_renomination` is the field of that name.
pub proof fn ice_follow_renomination_is_its_field(old: AgentConfig, s: Setting, new: AgentConfig)
    ensures
        key_named("ice_follow_renomination"@) matches Some(key) && {
            &&& setting(old, key) == Setting::Toggle(old.ice_follow_renomination)
            &&& updated(old, key, s, new) ==> {
                &&& s == Setting::Toggle(new.ice_follow_renomination)
                &&& new == (AgentConfig {
                    ice_follow_renomination: new.ice_follow_renomination,
                    ..old
                })
            }
        },
        value_of(old, "ice_follow_renomination"@) == match old.ice_follow_renomination {
            Some(true) => Some("always"@),
            Some(false) => Some("never"@),
            None => None,
        },
{
    names_find_their_keys(Key::IceFollowRenomination);
}

/// `forward_acl` is the field of that name.
pub proof fn forward_acl_is_its_field(old: AgentConfig, s: Setting, new: AgentConfig)
    ensures
        key_named("forward_acl"@) matches Some(key) && {
            &&& setting(old, key) == Setting::Acl(old.forward_acl.enabled, views(old.forward_acl.allowlist@))
            &&& updated(old, key, s, new) ==> {
                &&& s == Setting::Acl(new.forward_acl.enabled, views(new.forward_acl.allowlist@))
                &&& new == (AgentConfig { forward_acl: new.forward_acl, ..old })
            }
        },
{
    names_find_their_keys(Key::ForwardAcl);
}

/// `virtual_desktop_apps` is the field of that name.
pub proof fn virtual_desktop_apps_is_its_field(old: AgentConfig, s: Setting, new: AgentConfig)
    ensures
        key_named("virtual_desktop_apps"@) matches Some(key) && {
            &&& setting(old, key) == Setting::Document(old.virtual_desktop_apps.document@)
            &&& updated(old, key, s, new) ==> {
                &&& s == Setting::Document(new.virtual_desktop_apps.document@)
                &&& new == (AgentConfig { virtual_desktop_apps: new.virtual_desktop_apps, ..old })
            }
        },
        value_of(old, "virtual_desktop_apps"@) == Some(old.virtual_desktop_apps.document@),
{
    names_find_their_keys(Key::VirtualDesktopApps);
}

} // verus!
