//! Every key of the config surface is found by its name, and no two keys
//! share one.
use vstd::prelude::*;
use crate::config::keys::{
    flag_named, key_named, number_named, single_named, toggle_named, Flag, Key, Number, Toggle,
};

verus! {

proof fn lemma_flag_names_among_flags(x: Flag)
    ensures
        flag_named(x.spec_name()@) == Some(x),
{
    reveal_strlit("overlay_enabled");
    reveal_strlit("overlay_multi_org");
    reveal_strlit("overlay_exit_node_enabled");
    reveal_strlit("advertise_local_subnets");
    reveal_strlit("auto_grant_session");
    reveal_strlit("enable_remote_browse");
    reveal_strlit("exec_enabled");
    reveal_strlit("macos_supervise_gui_worker");
    reveal_strlit("remote_config_enabled");
    reveal_strlit("ssh_enabled");
    reveal_strlit("ssh_activity_log");
    match x {
        Flag::OverlayEnabled => {
            assert("overlay_enabled"@.len() == 15 && "overlay_enabled"@[9] == 'n');
        },
        Flag::OverlayMultiOrg => {
            assert("overlay_multi_org"@.len() == 17 && "overlay_multi_org"@[8] == 'm');
        },
        Flag::OverlayExitNodeEnabled => {
            assert("overlay_exit_node_enabled"@.len() == 25 && "overlay_exit_node_enabled"@[8] == 'e');
        },
        Flag::AdvertiseLocalSubnets => {
            assert("advertise_local_subnets"@.len() == 23 && "advertise_local_subnets"@[0] == 'a');
        },
        Flag::AutoGrantSession => {
            assert("auto_grant_session"@.len() == 18 && "auto_grant_session"@[0] == 'a');
        },
        Flag::EnableRemoteBrowse => {
            assert("enable_remote_browse"@.len() == 20 && "enable_remote_browse"@[2] == 'a');
        },
        Flag::ExecEnabled => {
            assert("exec_enabled"@.len() == 12 && "exec_enabled"@[0] == 'e');
        },
        Flag::MacosSuperviseGuiWorker => {
            assert("macos_supervise_gui_worker"@.len() == 26 && "macos_supervise_gui_worker"@[0] == 'm');
        },
        Flag::RemoteConfigEnabled => {
            assert("remote_config_enabled"@.len() == 21 && "remote_config_enabled"@[0] == 'r');
        },
        Flag::SshEnabled => {
            assert("ssh_enabled"@.len() == 11 && "ssh_enabled"@[0] == 's');
        },
        Flag::SshActivityLog => {
            assert("ssh_activity_log"@.len() == 16 && "ssh_activity_log"@[8] == 'v');
        },
    }
}

proof fn lemma_toggle_names_among_flags(x: Toggle)
    ensures
        flag_named(x.spec_name()@) == None::<Flag>,
{
    reveal_strlit("overlay_enabled");
    reveal_strlit("overlay_multi_org");
    reveal_strlit("overlay_exit_node_enabled");
    reveal_strlit("advertise_local_subnets");
    reveal_strlit("auto_grant_session");
    reveal_strlit("enable_remote_browse");
    reveal_strlit("exec_enabled");
    reveal_strlit("macos_supervise_gui_worker");
    reveal_strlit("remote_config_enabled");
    reveal_strlit("ssh_enabled");
    reveal_strlit("ssh_activity_log");
    reveal_strlit("overlay_quic");
    reveal_strlit("overlay_direct");
    reveal_strlit("overlay_derp");
    reveal_strlit("overlay_server_relay_strategy");
    reveal_strlit("overlay_derp_floor");
    reveal_strlit("overlay_org_relay");
    reveal_strlit("relay_server_enabled");
    reveal_strlit("overlay_netcheck");
    reveal_strlit("tunnel_derp_fallback");
    reveal_strlit("tunnel_peers_survive_reattach");
    reveal_strlit("overlay_mbb");
    reveal_strlit("overlay_lan_iface_filter");
    reveal_strlit("overlay_wsl_mirrored_guard");
    reveal_strlit("overlay_init_auth_first");
    reveal_strlit("overlay_srflx_seek");
    reveal_strlit("ws_replaced_exit");
    reveal_strlit("overlay_warm_relay");
    reveal_strlit("overlay_quic_async");
    reveal_strlit("overlay_vpn_vantage");
    reveal_strlit("overlay_netd");
    reveal_strlit("overlay_route_events");
    reveal_strlit("overlay_netmon");
    reveal_strlit("shared_encoder");
    reveal_strlit("overlay_relay_tls");
    reveal_strlit("overlay_shared_carrier");
    reveal_strlit("overlay_roam");
    reveal_strlit("overlay_plane_watchdog");
    reveal_strlit("overlay_session_trace");
    reveal_strlit("overlay_disco_respond");
    reveal_strlit("overlay_disco_probe");
    reveal_strlit("overlay_answer_while_followed");
    reveal_strlit("overlay_tun_stable_guid");
    reveal_strlit("overlay_route_evict");
    reveal_strlit("overlay_route_reclaim");
    reveal_strlit("overlay_tun_persist");
    reveal_strlit("overlay_route_metric0");
    reveal_strlit("overlay_route_win");
    reveal_strlit("local_turn");
    reveal_strlit("dns_aaaa");
    reveal_strlit("magicdns_hosts");
    reveal_strlit("auto_update");
    reveal_strlit("logs_upload_disabled");
    reveal_strlit("nvenc_spatial_aq");
    reveal_strlit("idle_refine");
    reveal_strlit("idle_refine_balanced");
    reveal_strlit("gpu_scale");
    reveal_strlit("overlay_lan_capture_probe");
    reveal_strlit("relay_ceiling_learn");
    reveal_strlit("drm_capture");
    reveal_strlit("uinput");
    reveal_strlit("portal_capture");
    reveal_strlit("portal_input");
    reveal_strlit("mutter_capture");
    reveal_strlit("window_capture");
    reveal_strlit("x11_damage");
    reveal_strlit("overlay_key_rotation");
    reveal_strlit("bg_rebuild");
    reveal_strlit("par_convert");
    reveal_strlit("fps_pace");
    reveal_strlit("relay_idr_thrift");
    reveal_strlit("relay_age_feedback");
    reveal_strlit("measured_ceiling");
    reveal_strlit("encoder_inplace_rate");
    reveal_strlit("ice_relay_tcp");
    reveal_strlit("rate_slow_start");
    reveal_strlit("rate_prior_decay");
    reveal_strlit("transit_classify");
    reveal_strlit("transit_hold");
    reveal_strlit("media_thread");
    reveal_strlit("pump_stall_watch");
    reveal_strlit("bg_rebuild_constrained");
    reveal_strlit("slow_link_floor");
    reveal_strlit("constrained_queue_measured");
    reveal_strlit("seed_contradiction");
    reveal_strlit("viewer_rate_clamp");
    reveal_strlit("queue_drain");
    reveal_strlit("slow_link_profile");
    reveal_strlit("area_min_bitrate");
    reveal_strlit("priority_res_cap");
    reveal_strlit("ice_warm_standby");
    reveal_strlit("ice_overlay_host_deprioritize");
    reveal_strlit("overlay_tier_detect");
    reveal_strlit("overlay_rtt_q");
    reveal_strlit("overlay_upward_probe");
    reveal_strlit("relay_probe");
    reveal_strlit("text_mod_neutralize");
    match x {
        Toggle::OverlayQuic => {
            assert("overlay_quic"@.len() == 12 && "overlay_quic"@[8] == 'q');
        },
        Toggle::OverlayDirect => {
            assert("overlay_direct"@.len() == 14 && "overlay_direct"@[9] == 'i');
        },
        Toggle::OverlayDerp => {
            assert("overlay_derp"@.len() == 12 && "overlay_derp"@[8] == 'd');
        },
        Toggle::OverlayServerRelayStrategy => {
            assert("overlay_server_relay_strategy"@.len() == 29 && "overlay_server_relay_strategy"@[8] == 's');
        },
        Toggle::OverlayDerpFloor => {
            assert("overlay_derp_floor"@.len() == 18 && "overlay_derp_floor"@[8] == 'd');
        },
        Toggle::OverlayOrgRelay => {
            assert("overlay_org_relay"@.len() == 17 && "overlay_org_relay"@[8] == 'o');
        },
        Toggle::RelayServerEnabled => {
            assert("relay_server_enabled"@.len() == 20 && "relay_server_enabled"@[0] == 'r');
        },
        Toggle::OverlayNetcheck => {
            assert("overlay_netcheck"@.len() == 16 && "overlay_netcheck"@[0] == 'o');
        },
        Toggle::TunnelDerpFallback => {
            assert("tunnel_derp_fallback"@.len() == 20 && "tunnel_derp_fallback"@[0] == 't');
        },
        Toggle::TunnelPeersSurviveReattach => {
            assert("tunnel_peers_survive_reattach"@.len() == 29 && "tunnel_peers_survive_reattach"@[0] == 't');
        },
        Toggle::OverlayMbb => {
            assert("overlay_mbb"@.len() == 11 && "overlay_mbb"@[8] == 'm');
        },
        Toggle::OverlayLanIfaceFilter => {
            assert("overlay_lan_iface_filter"@.len() == 24 && "overlay_lan_iface_filter"@[0] == 'o');
        },
        Toggle::OverlayWslMirroredGuard => {
            assert("overlay_wsl_mirrored_guard"@.len() == 26 && "overlay_wsl_mirrored_guard"@[8] == 'w');
        },
        Toggle::OverlayInitAuthFirst => {
            assert("overlay_init_auth_first"@.len() == 23 && "overlay_init_auth_first"@[8] == 'i');
        },
        Toggle::OverlaySrflxSeek => {
            assert("overlay_srflx_seek"@.len() == 18 && "overlay_srflx_seek"@[8] == 's');
        },
        Toggle::WsReplacedExit => {
            assert("ws_replaced_exit"@.len() == 16 && "ws_replaced_exit"@[0] == 'w');
        },
        Toggle::OverlayWarmRelay => {
            assert("overlay_warm_relay"@.len() == 18 && "overlay_warm_relay"@[8] == 'w');
        },
        Toggle::OverlayQuicAsync => {
            assert("overlay_quic_async"@.len() == 18 && "overlay_quic_async"@[8] == 'q');
        },
        Toggle::OverlayVpnVantage => {
            assert("overlay_vpn_vantage"@.len() == 19 && "overlay_vpn_vantage"@[8] == 'v');
        },
        Toggle::OverlayNetd => {
            assert("overlay_netd"@.len() == 12 && "overlay_netd"@[10] == 't');
        },
        Toggle::OverlayRouteEvents => {
            assert("overlay_route_events"@.len() == 20 && "overlay_route_events"@[9] == 'o');
        },
        Toggle::OverlayNetmon => {
            assert("overlay_netmon"@.len() == 14 && "overlay_netmon"@[11] == 'm');
        },
        Toggle::SharedEncoder => {
            assert("shared_encoder"@.len() == 14 && "shared_encoder"@[1] == 'h');
        },
        Toggle::OverlayRelayTls => {
            assert("overlay_relay_tls"@.len() == 17 && "overlay_relay_tls"@[9] == 'e');
        },
        Toggle::OverlaySharedCarrier => {
            assert("overlay_shared_carrier"@.len() == 22 && "overlay_shared_carrier"@[8] == 's');
        },
        Toggle::OverlayRoam => {
            assert("overlay_roam"@.len() == 12 && "overlay_roam"@[11] == 'm');
        },
        Toggle::OverlayPlaneWatchdog => {
            assert("overlay_plane_watchdog"@.len() == 22 && "overlay_plane_watchdog"@[8] == 'p');
        },
        Toggle::OverlaySessionTrace => {
            assert("overlay_session_trace"@.len() == 21 && "overlay_session_trace"@[8] == 's');
        },
        Toggle::OverlayDiscoRespond => {
            assert("overlay_disco_respond"@.len() == 21 && "overlay_disco_respond"@[8] == 'd');
        },
        Toggle::OverlayDiscoProbe => {
            assert("overlay_disco_probe"@.len() == 19 && "overlay_disco_probe"@[10] == 's');
        },
        Toggle::OverlayAnswerWhileFollowed => {
            assert("overlay_answer_while_followed"@.len() == 29 && "overlay_answer_while_followed"@[8] == 'a');
        },
        Toggle::OverlayTunStableGuid => {
            assert("overlay_tun_stable_guid"@.len() == 23 && "overlay_tun_stable_guid"@[8] == 't');
        },
        Toggle::OverlayRouteEvict => {
            assert("overlay_route_evict"@.len() == 19 && "overlay_route_evict"@[8] == 'r');
        },
        Toggle::OverlayRouteReclaim => {
            assert("overlay_route_reclaim"@.len() == 21 && "overlay_route_reclaim"@[16] == 'c');
        },
        Toggle::OverlayTunPersist => {
            assert("overlay_tun_persist"@.len() == 19 && "overlay_tun_persist"@[9] == 'u');
        },
        Toggle::OverlayRouteMetric0 => {
            assert("overlay_route_metric0"@.len() == 21 && "overlay_route_metric0"@[14] == 'm');
        },
        Toggle::OverlayRouteWin => {
            assert("overlay_route_win"@.len() == 17 && "overlay_route_win"@[9] == 'o');
        },
        Toggle::LocalTurn => {
            assert("local_turn"@.len() == 10 && "local_turn"@[0] == 'l');
        },
        Toggle::DnsAaaa => {
            assert("dns_aaaa"@.len() == 8 && "dns_aaaa"@[0] == 'd');
        },
        Toggle::MagicdnsHosts => {
            assert("magicdns_hosts"@.len() == 14 && "magicdns_hosts"@[1] == 'a');
        },
        Toggle::AutoUpdate => {
            assert("auto_update"@.len() == 11 && "auto_update"@[0] == 'a');
        },
        Toggle::LogsUploadDisabled => {
            assert("logs_upload_disabled"@.len() == 20 && "logs_upload_disabled"@[0] == 'l');
        },
        Toggle::NvencSpatialAq => {
            assert("nvenc_spatial_aq"@.len() == 16 && "nvenc_spatial_aq"@[0] == 'n');
        },
        Toggle::IdleRefine => {
            assert("idle_refine"@.len() == 11 && "idle_refine"@[0] == 'i');
        },
        Toggle::IdleRefineBalanced => {
            assert("idle_refine_balanced"@.len() == 20 && "idle_refine_balanced"@[12] == 'b');
        },
        Toggle::GpuScale => {
            assert("gpu_scale"@.len() == 9);
        },
        Toggle::OverlayLanCaptureProbe => {
            assert("overlay_lan_capture_probe"@.len() == 25 && "overlay_lan_capture_probe"@[8] == 'l');
        },
        Toggle::RelayCeilingLearn => {
            assert("relay_ceiling_learn"@.len() == 19 && "relay_ceiling_learn"@[0] == 'r');
        },
        Toggle::DrmCapture => {
            assert("drm_capture"@.len() == 11 && "drm_capture"@[0] == 'd');
        },
        Toggle::Uinput => {
            assert("uinput"@.len() == 6);
        },
        Toggle::PortalCapture => {
            assert("portal_capture"@.len() == 14 && "portal_capture"@[0] == 'p');
        },
        Toggle::PortalInput => {
            assert("portal_input"@.len() == 12 && "portal_input"@[2] == 'r');
        },
        Toggle::MutterCapture => {
            assert("mutter_capture"@.len() == 14 && "mutter_capture"@[1] == 'u');
        },
        Toggle::WindowCapture => {
            assert("window_capture"@.len() == 14 && "window_capture"@[0] == 'w');
        },
        Toggle::X11Damage => {
            assert("x11_damage"@.len() == 10 && "x11_damage"@[0] == 'x');
        },
        Toggle::OverlayKeyRotation => {
            assert("overlay_key_rotation"@.len() == 20 && "overlay_key_rotation"@[8] == 'k');
        },
        Toggle::BgRebuild => {
            assert("bg_rebuild"@.len() == 10 && "bg_rebuild"@[0] == 'b');
        },
        Toggle::ParConvert => {
            assert("par_convert"@.len() == 11 && "par_convert"@[0] == 'p');
        },
        Toggle::FpsPace => {
            assert("fps_pace"@.len() == 8 && "fps_pace"@[0] == 'f');
        },
        Toggle::RelayIdrThrift => {
            assert("relay_idr_thrift"@.len() == 16 && "relay_idr_thrift"@[2] == 'l');
        },
        Toggle::RelayAgeFeedback => {
            assert("relay_age_feedback"@.len() == 18 && "relay_age_feedback"@[0] == 'r');
        },
        Toggle::MeasuredCeiling => {
            assert("measured_ceiling"@.len() == 16 && "measured_ceiling"@[0] == 'm');
        },
        Toggle::EncoderInplaceRate => {
            assert("encoder_inplace_rate"@.len() == 20 && "encoder_inplace_rate"@[2] == 'c');
        },
        Toggle::IceRelayTcp => {
            assert("ice_relay_tcp"@.len() == 13 && "ice_relay_tcp"@[0] == 'i');
        },
        Toggle::RateSlowStart => {
            assert("rate_slow_start"@.len() == 15 && "rate_slow_start"@[5] == 's');
        },
        Toggle::RatePriorDecay => {
            assert("rate_prior_decay"@.len() == 16 && "rate_prior_decay"@[8] == 'o');
        },
        Toggle::TransitClassify => {
            assert("transit_classify"@.len() == 16 && "transit_classify"@[0] == 't');
        },
        Toggle::TransitHold => {
            assert("transit_hold"@.len() == 12 && "transit_hold"@[0] == 't');
        },
        Toggle::MediaThread => {
            assert("media_thread"@.len() == 12 && "media_thread"@[0] == 'm');
        },
        Toggle::PumpStallWatch => {
            assert("pump_stall_watch"@.len() == 16 && "pump_stall_watch"@[1] == 'u');
        },
        Toggle::BgRebuildConstrained => {
            assert("bg_rebuild_constrained"@.len() == 22 && "bg_rebuild_constrained"@[0] == 'b');
        },
        Toggle::SlowLinkFloor => {
            assert("slow_link_floor"@.len() == 15 && "slow_link_floor"@[0] == 's');
        },
        Toggle::ConstrainedQueueMeasured => {
            assert("constrained_queue_measured"@.len() == 26 && "constrained_queue_measured"@[0] == 'c');
        },
        Toggle::SeedContradiction => {
            assert("seed_contradiction"@.len() == 18 && "seed_contradiction"@[0] == 's');
        },
        Toggle::ViewerRateClamp => {
            assert("viewer_rate_clamp"@.len() == 17 && "viewer_rate_clamp"@[0] == 'v');
        },
        Toggle::QueueDrain => {
            assert("queue_drain"@.len() == 11 && "queue_drain"@[0] == 'q');
        },
        Toggle::SlowLinkProfile => {
            assert("slow_link_profile"@.len() == 17 && "slow_link_profile"@[1] == 'l');
        },
        Toggle::AreaMinBitrate => {
            assert("area_min_bitrate"@.len() == 16 && "area_min_bitrate"@[5] == 'm');
        },
        Toggle::PriorityResCap => {
            assert("priority_res_cap"@.len() == 16 && "priority_res_cap"@[2] == 'i');
        },
        Toggle::IceWarmStandby => {
            assert("ice_warm_standby"@.len() == 16 && "ice_warm_standby"@[0] == 'i');
        },
        Toggle::IceOverlayHostDeprioritize => {
            assert("ice_overlay_host_deprioritize"@.len() == 29 && "ice_overlay_host_deprioritize"@[0] == 'i');
        },
        Toggle::OverlayTierDetect => {
            assert("overlay_tier_detect"@.len() == 19 && "overlay_tier_detect"@[11] == 'r');
        },
        Toggle::OverlayRttQ => {
            assert("overlay_rtt_q"@.len() == 13 && "overlay_rtt_q"@[0] == 'o');
        },
        Toggle::OverlayUpwardProbe => {
            assert("overlay_upward_probe"@.len() == 20 && "overlay_upward_probe"@[8] == 'u');
        },
        Toggle::RelayProbe => {
            assert("relay_probe"@.len() == 11 && "relay_probe"@[0] == 'r');
        },
        Toggle::TextModNeutralize => {
            assert("text_mod_neutralize"@.len() == 19 && "text_mod_neutralize"@[0] == 't');
        },
    }
}

proof fn lemma_toggle_names_among_toggles(x: Toggle)
    ensures
        toggle_named(x.spec_name()@) == Some(x),
{
    reveal_strlit("overlay_quic");
    reveal_strlit("overlay_direct");
    reveal_strlit("overlay_derp");
    reveal_strlit("overlay_server_relay_strategy");
    reveal_strlit("overlay_derp_floor");
    reveal_strlit("overlay_org_relay");
    reveal_strlit("relay_server_enabled");
    reveal_strlit("overlay_netcheck");
    reveal_strlit("tunnel_derp_fallback");
    reveal_strlit("tunnel_peers_survive_reattach");
    reveal_strlit("overlay_mbb");
    reveal_strlit("overlay_lan_iface_filter");
    reveal_strlit("overlay_wsl_mirrored_guard");
    reveal_strlit("overlay_init_auth_first");
    reveal_strlit("overlay_srflx_seek");
    reveal_strlit("ws_replaced_exit");
    reveal_strlit("overlay_warm_relay");
    reveal_strlit("overlay_quic_async");
    reveal_strlit("overlay_vpn_vantage");
    reveal_strlit("overlay_netd");
    reveal_strlit("overlay_route_events");
    reveal_strlit("overlay_netmon");
    reveal_strlit("shared_encoder");
    reveal_strlit("overlay_relay_tls");
    reveal_strlit("overlay_shared_carrier");
    reveal_strlit("overlay_roam");
    reveal_strlit("overlay_plane_watchdog");
    reveal_strlit("overlay_session_trace");
    reveal_strlit("overlay_disco_respond");
    reveal_strlit("overlay_disco_probe");
    reveal_strlit("overlay_answer_while_followed");
    reveal_strlit("overlay_tun_stable_guid");
    reveal_strlit("overlay_route_evict");
    reveal_strlit("overlay_route_reclaim");
    reveal_strlit("overlay_tun_persist");
    reveal_strlit("overlay_route_metric0");
    reveal_strlit("overlay_route_win");
    reveal_strlit("local_turn");
    reveal_strlit("dns_aaaa");
    reveal_strlit("magicdns_hosts");
    reveal_strlit("auto_update");
    reveal_strlit("logs_upload_disabled");
    reveal_strlit("nvenc_spatial_aq");
    reveal_strlit("idle_refine");
    reveal_strlit("idle_refine_balanced");
    reveal_strlit("gpu_scale");
    reveal_strlit("overlay_lan_capture_probe");
    reveal_strlit("relay_ceiling_learn");
    reveal_strlit("drm_capture");
    reveal_strlit("uinput");
    reveal_strlit("portal_capture");
    reveal_strlit("portal_input");
    reveal_strlit("mutter_capture");
    reveal_strlit("window_capture");
    reveal_strlit("x11_damage");
    reveal_strlit("overlay_key_rotation");
    reveal_strlit("bg_rebuild");
    reveal_strlit("par_convert");
    reveal_strlit("fps_pace");
    reveal_strlit("relay_idr_thrift");
    reveal_strlit("relay_age_feedback");
    reveal_strlit("measured_ceiling");
    reveal_strlit("encoder_inplace_rate");
    reveal_strlit("ice_relay_tcp");
    reveal_strlit("rate_slow_start");
    reveal_strlit("rate_prior_decay");
    reveal_strlit("transit_classify");
    reveal_strlit("transit_hold");
    reveal_strlit("media_thread");
    reveal_strlit("pump_stall_watch");
    reveal_strlit("bg_rebuild_constrained");
    reveal_strlit("slow_link_floor");
    reveal_strlit("constrained_queue_measured");
    reveal_strlit("seed_contradiction");
    reveal_strlit("viewer_rate_clamp");
    reveal_strlit("queue_drain");
    reveal_strlit("slow_link_profile");
    reveal_strlit("area_min_bitrate");
    reveal_strlit("priority_res_cap");
    reveal_strlit("ice_warm_standby");
    reveal_strlit("ice_overlay_host_deprioritize");
    reveal_strlit("overlay_tier_detect");
    reveal_strlit("overlay_rtt_q");
    reveal_strlit("overlay_upward_probe");
    reveal_strlit("relay_probe");
    reveal_strlit("text_mod_neutralize");
    match x {
        Toggle::OverlayQuic => {
            assert("overlay_quic"@.len() == 12 && "overlay_quic"@[8] == 'q');
        },
        Toggle::OverlayDirect => {
            assert("overlay_direct"@.len() == 14 && "overlay_direct"@[9] == 'i');
        },
        Toggle::OverlayDerp => {
            assert("overlay_derp"@.len() == 12 && "overlay_derp"@[8] == 'd');
        },
        Toggle::OverlayServerRelayStrategy => {
            assert("overlay_server_relay_strategy"@.len() == 29 && "overlay_server_relay_strategy"@[8] == 's');
        },
        Toggle::OverlayDerpFloor => {
            assert("overlay_derp_floor"@.len() == 18 && "overlay_derp_floor"@[8] == 'd');
        },
        Toggle::OverlayOrgRelay => {
            assert("overlay_org_relay"@.len() == 17 && "overlay_org_relay"@[8] == 'o');
        },
        Toggle::RelayServerEnabled => {
            assert("relay_server_enabled"@.len() == 20 && "relay_server_enabled"@[0] == 'r');
        },
        Toggle::OverlayNetcheck => {
            assert("overlay_netcheck"@.len() == 16 && "overlay_netcheck"@[0] == 'o');
        },
        Toggle::TunnelDerpFallback => {
            assert("tunnel_derp_fallback"@.len() == 20 && "tunnel_derp_fallback"@[0] == 't');
        },
        Toggle::TunnelPeersSurviveReattach => {
            assert("tunnel_peers_survive_reattach"@.len() == 29 && "tunnel_peers_survive_reattach"@[0] == 't');
        },
        Toggle::OverlayMbb => {
            assert("overlay_mbb"@.len() == 11 && "overlay_mbb"@[8] == 'm');
        },
        Toggle::OverlayLanIfaceFilter => {
            assert("overlay_lan_iface_filter"@.len() == 24 && "overlay_lan_iface_filter"@[0] == 'o');
        },
        Toggle::OverlayWslMirroredGuard => {
            assert("overlay_wsl_mirrored_guard"@.len() == 26 && "overlay_wsl_mirrored_guard"@[8] == 'w');
        },
        Toggle::OverlayInitAuthFirst => {
            assert("overlay_init_auth_first"@.len() == 23 && "overlay_init_auth_first"@[8] == 'i');
        },
        Toggle::OverlaySrflxSeek => {
            assert("overlay_srflx_seek"@.len() == 18 && "overlay_srflx_seek"@[8] == 's');
        },
        Toggle::WsReplacedExit => {
            assert("ws_replaced_exit"@.len() == 16 && "ws_replaced_exit"@[0] == 'w');
        },
        Toggle::OverlayWarmRelay => {
            assert("overlay_warm_relay"@.len() == 18 && "overlay_warm_relay"@[8] == 'w');
        },
        Toggle::OverlayQuicAsync => {
            assert("overlay_quic_async"@.len() == 18 && "overlay_quic_async"@[8] == 'q');
        },
        Toggle::OverlayVpnVantage => {
            assert("overlay_vpn_vantage"@.len() == 19 && "overlay_vpn_vantage"@[8] == 'v');
        },
        Toggle::OverlayNetd => {
            assert("overlay_netd"@.len() == 12 && "overlay_netd"@[10] == 't');
        },
        Toggle::OverlayRouteEvents => {
            assert("overlay_route_events"@.len() == 20 && "overlay_route_events"@[9] == 'o');
        },
        Toggle::OverlayNetmon => {
            assert("overlay_netmon"@.len() == 14 && "overlay_netmon"@[11] == 'm');
        },
        Toggle::SharedEncoder => {
            assert("shared_encoder"@.len() == 14 && "shared_encoder"@[1] == 'h');
        },
        Toggle::OverlayRelayTls => {
            assert("overlay_relay_tls"@.len() == 17 && "overlay_relay_tls"@[9] == 'e');
        },
        Toggle::OverlaySharedCarrier => {
            assert("overlay_shared_carrier"@.len() == 22 && "overlay_shared_carrier"@[8] == 's');
        },
        Toggle::OverlayRoam => {
            assert("overlay_roam"@.len() == 12 && "overlay_roam"@[11] == 'm');
        },
        Toggle::OverlayPlaneWatchdog => {
            assert("overlay_plane_watchdog"@.len() == 22 && "overlay_plane_watchdog"@[8] == 'p');
        },
        Toggle::OverlaySessionTrace => {
            assert("overlay_session_trace"@.len() == 21 && "overlay_session_trace"@[8] == 's');
        },
        Toggle::OverlayDiscoRespond => {
            assert("overlay_disco_respond"@.len() == 21 && "overlay_disco_respond"@[8] == 'd');
        },
        Toggle::OverlayDiscoProbe => {
            assert("overlay_disco_probe"@.len() == 19 && "overlay_disco_probe"@[10] == 's');
        },
        Toggle::OverlayAnswerWhileFollowed => {
            assert("overlay_answer_while_followed"@.len() == 29 && "overlay_answer_while_followed"@[8] == 'a');
        },
        Toggle::OverlayTunStableGuid => {
            assert("overlay_tun_stable_guid"@.len() == 23 && "overlay_tun_stable_guid"@[8] == 't');
        },
        Toggle::OverlayRouteEvict => {
            assert("overlay_route_evict"@.len() == 19 && "overlay_route_evict"@[8] == 'r');
        },
        Toggle::OverlayRouteReclaim => {
            assert("overlay_route_reclaim"@.len() == 21 && "overlay_route_reclaim"@[16] == 'c');
        },
        Toggle::OverlayTunPersist => {
            assert("overlay_tun_persist"@.len() == 19 && "overlay_tun_persist"@[9] == 'u');
        },
        Toggle::OverlayRouteMetric0 => {
            assert("overlay_route_metric0"@.len() == 21 && "overlay_route_metric0"@[14] == 'm');
        },
        Toggle::OverlayRouteWin => {
            assert("overlay_route_win"@.len() == 17 && "overlay_route_win"@[9] == 'o');
        },
        Toggle::LocalTurn => {
            assert("local_turn"@.len() == 10 && "local_turn"@[0] == 'l');
        },
        Toggle::DnsAaaa => {
            assert("dns_aaaa"@.len() == 8 && "dns_aaaa"@[0] == 'd');
        },
        Toggle::MagicdnsHosts => {
            assert("magicdns_hosts"@.len() == 14 && "magicdns_hosts"@[1] == 'a');
        },
        Toggle::AutoUpdate => {
            assert("auto_update"@.len() == 11 && "auto_update"@[0] == 'a');
        },
        Toggle::LogsUploadDisabled => {
            assert("logs_upload_disabled"@.len() == 20 && "logs_upload_disabled"@[0] == 'l');
        },
        Toggle::NvencSpatialAq => {
            assert("nvenc_spatial_aq"@.len() == 16 && "nvenc_spatial_aq"@[0] == 'n');
        },
        Toggle::IdleRefine => {
            assert("idle_refine"@.len() == 11 && "idle_refine"@[0] == 'i');
        },
        Toggle::IdleRefineBalanced => {
            assert("idle_refine_balanced"@.len() == 20 && "idle_refine_balanced"@[12] == 'b');
        },
        Toggle::GpuScale => {
            assert("gpu_scale"@.len() == 9);
        },
        Toggle::OverlayLanCaptureProbe => {
            assert("overlay_lan_capture_probe"@.len() == 25 && "overlay_lan_capture_probe"@[8] == 'l');
        },
        Toggle::RelayCeilingLearn => {
            assert("relay_ceiling_learn"@.len() == 19 && "relay_ceiling_learn"@[0] == 'r');
        },
        Toggle::DrmCapture => {
            assert("drm_capture"@.len() == 11 && "drm_capture"@[0] == 'd');
        },
        Toggle::Uinput => {
            assert("uinput"@.len() == 6);
        },
        Toggle::PortalCapture => {
            assert("portal_capture"@.len() == 14 && "portal_capture"@[0] == 'p');
        },
        Toggle::PortalInput => {
            assert("portal_input"@.len() == 12 && "portal_input"@[2] == 'r');
        },
        Toggle::MutterCapture => {
            assert("mutter_capture"@.len() == 14 && "mutter_capture"@[1] == 'u');
        },
        Toggle::WindowCapture => {
            assert("window_capture"@.len() == 14 && "window_capture"@[0] == 'w');
        },
        Toggle::X11Damage => {
            assert("x11_damage"@.len() == 10 && "x11_damage"@[0] == 'x');
        },
        Toggle::OverlayKeyRotation => {
            assert("overlay_key_rotation"@.len() == 20 && "overlay_key_rotation"@[8] == 'k');
        },
        Toggle::BgRebuild => {
            assert("bg_rebuild"@.len() == 10 && "bg_rebuild"@[0] == 'b');
        },
        Toggle::ParConvert => {
            assert("par_convert"@.len() == 11 && "par_convert"@[0] == 'p');
        },
        Toggle::FpsPace => {
            assert("fps_pace"@.len() == 8 && "fps_pace"@[0] == 'f');
        },
        Toggle::RelayIdrThrift => {
            assert("relay_idr_thrift"@.len() == 16 && "relay_idr_thrift"@[2] == 'l');
        },
        Toggle::RelayAgeFeedback => {
            assert("relay_age_feedback"@.len() == 18 && "relay_age_feedback"@[0] == 'r');
        },
        Toggle::MeasuredCeiling => {
            assert("measured_ceiling"@.len() == 16 && "measured_ceiling"@[0] == 'm');
        },
        Toggle::EncoderInplaceRate => {
            assert("encoder_inplace_rate"@.len() == 20 && "encoder_inplace_rate"@[2] == 'c');
        },
        Toggle::IceRelayTcp => {
            assert("ice_relay_tcp"@.len() == 13 && "ice_relay_tcp"@[0] == 'i');
        },
        Toggle::RateSlowStart => {
            assert("rate_slow_start"@.len() == 15 && "rate_slow_start"@[5] == 's');
        },
        Toggle::RatePriorDecay => {
            assert("rate_prior_decay"@.len() == 16 && "rate_prior_decay"@[8] == 'o');
        },
        Toggle::TransitClassify => {
            assert("transit_classify"@.len() == 16 && "transit_classify"@[0] == 't');
        },
        Toggle::TransitHold => {
            assert("transit_hold"@.len() == 12 && "transit_hold"@[0] == 't');
        },
        Toggle::MediaThread => {
            assert("media_thread"@.len() == 12 && "media_thread"@[0] == 'm');
        },
        Toggle::PumpStallWatch => {
            assert("pump_stall_watch"@.len() == 16 && "pump_stall_watch"@[1] == 'u');
        },
        Toggle::BgRebuildConstrained => {
            assert("bg_rebuild_constrained"@.len() == 22 && "bg_rebuild_constrained"@[0] == 'b');
        },
        Toggle::SlowLinkFloor => {
            assert("slow_link_floor"@.len() == 15 && "slow_link_floor"@[0] == 's');
        },
        Toggle::ConstrainedQueueMeasured => {
            assert("constrained_queue_measured"@.len() == 26 && "constrained_queue_measured"@[0] == 'c');
        },
        Toggle::SeedContradiction => {
            assert("seed_contradiction"@.len() == 18 && "seed_contradiction"@[0] == 's');
        },
        Toggle::ViewerRateClamp => {
            assert("viewer_rate_clamp"@.len() == 17 && "viewer_rate_clamp"@[0] == 'v');
        },
        Toggle::QueueDrain => {
            assert("queue_drain"@.len() == 11 && "queue_drain"@[0] == 'q');
        },
        Toggle::SlowLinkProfile => {
            assert("slow_link_profile"@.len() == 17 && "slow_link_profile"@[1] == 'l');
        },
        Toggle::AreaMinBitrate => {
            assert("area_min_bitrate"@.len() == 16 && "area_min_bitrate"@[5] == 'm');
        },
        Toggle::PriorityResCap => {
            assert("priority_res_cap"@.len() == 16 && "priority_res_cap"@[2] == 'i');
        },
        Toggle::IceWarmStandby => {
            assert("ice_warm_standby"@.len() == 16 && "ice_warm_standby"@[0] == 'i');
        },
        Toggle::IceOverlayHostDeprioritize => {
            assert("ice_overlay_host_deprioritize"@.len() == 29 && "ice_overlay_host_deprioritize"@[0] == 'i');
        },
        Toggle::OverlayTierDetect => {
            assert("overlay_tier_detect"@.len() == 19 && "overlay_tier_detect"@[11] == 'r');
        },
        Toggle::OverlayRttQ => {
            assert("overlay_rtt_q"@.len() == 13 && "overlay_rtt_q"@[0] == 'o');
        },
        Toggle::OverlayUpwardProbe => {
            assert("overlay_upward_probe"@.len() == 20 && "overlay_upward_probe"@[8] == 'u');
        },
        Toggle::RelayProbe => {
            assert("relay_probe"@.len() == 11 && "relay_probe"@[0] == 'r');
        },
        Toggle::TextModNeutralize => {
            assert("text_mod_neutralize"@.len() == 19 && "text_mod_neutralize"@[0] == 't');
        },
    }
}

proof fn lemma_number_names_among_flags(x: Number)
    ensures
        flag_named(x.spec_name()@) == None::<Flag>,
{
    reveal_strlit("overlay_enabled");
    reveal_strlit("overlay_multi_org");
    reveal_strlit("overlay_exit_node_enabled");
    reveal_strlit("advertise_local_subnets");
    reveal_strlit("auto_grant_session");
    reveal_strlit("enable_remote_browse");
    reveal_strlit("exec_enabled");
    reveal_strlit("macos_supervise_gui_worker");
    reveal_strlit("remote_config_enabled");
    reveal_strlit("ssh_enabled");
    reveal_strlit("ssh_activity_log");
    reveal_strlit("update_check_interval_h");
    reveal_strlit("relay_server_port");
    reveal_strlit("overlay_route_tick_secs");
    reveal_strlit("overlay_netmon_debounce_ms");
    reveal_strlit("rc_max_sessions");
    reveal_strlit("overlay_direct_port");
    reveal_strlit("overlay_iface_metric");
    reveal_strlit("rate_factor_h264");
    reveal_strlit("rate_factor_hevc");
    reveal_strlit("rate_factor_vp9");
    reveal_strlit("rate_factor_av1");
    reveal_strlit("lanczos_min_pct");
    reveal_strlit("scale_cq_boost");
    reveal_strlit("relay_max_hi_kbps");
    reveal_strlit("idle_refine_max_edge");
    reveal_strlit("idle_refine_min_frame_kb");
    reveal_strlit("idle_refine_major_area_permille");
    reveal_strlit("idle_refine_settle_ms");
    reveal_strlit("idle_refine_settle_constrained_ms");
    reveal_strlit("constrained_cq_relief");
    reveal_strlit("constrained_queue_ms");
    reveal_strlit("constrained_hrd_pct");
    reveal_strlit("direct_queue_ms");
    reveal_strlit("direct_hrd_pct");
    reveal_strlit("send_stall_ms");
    reveal_strlit("relay_max_kbps");
    reveal_strlit("pump_stall_warn_ms");
    reveal_strlit("slow_link_min_bitrate");
    reveal_strlit("slow_link_profile_bps");
    reveal_strlit("smoother_rate_pct");
    reveal_strlit("balanced_rate_pct");
    reveal_strlit("scale_threads");
    match x {
        Number::UpdateCheckIntervalH => {
            assert("update_check_interval_h"@.len() == 23 && "update_check_interval_h"@[0] == 'u');
        },
        Number::RelayServerPort => {
            assert("relay_server_port"@.len() == 17 && "relay_server_port"@[6] == 's');
        },
        Number::OverlayRouteTickSecs => {
            assert("overlay_route_tick_secs"@.len() == 23 && "overlay_route_tick_secs"@[8] == 'r');
        },
        Number::OverlayNetmonDebounceMs => {
            assert("overlay_netmon_debounce_ms"@.len() == 26 && "overlay_netmon_debounce_ms"@[10] == 't');
        },
        Number::RcMaxSessions => {
            assert("rc_max_sessions"@.len() == 15 && "rc_max_sessions"@[1] == 'c');
        },
        Number::OverlayDirectPort => {
            assert("overlay_direct_port"@.len() == 19 && "overlay_direct_port"@[10] == 'r');
        },
        Number::OverlayIfaceMetric => {
            assert("overlay_iface_metric"@.len() == 20 && "overlay_iface_metric"@[9] == 'f');
        },
        Number::RateFactorH264 => {
            assert("rate_factor_h264"@.len() == 16 && "rate_factor_h264"@[13] == '2');
        },
        Number::RateFactorHevc => {
            assert("rate_factor_hevc"@.len() == 16 && "rate_factor_hevc"@[14] == 'v');
        },
        Number::RateFactorVp9 => {
            assert("rate_factor_vp9"@.len() == 15 && "rate_factor_vp9"@[12] == 'v');
        },
        Number::RateFactorAv1 => {
            assert("rate_factor_av1"@.len() == 15 && "rate_factor_av1"@[13] == 'v');
        },
        Number::LanczosMinPct => {
            assert("lanczos_min_pct"@.len() == 15 && "lanczos_min_pct"@[0] == 'l');
        },
        Number::ScaleCqBoost => {
            assert("scale_cq_boost"@.len() == 14 && "scale_cq_boost"@[1] == 'c');
        },
        Number::RelayMaxHiKbps => {
            assert("relay_max_hi_kbps"@.len() == 17 && "relay_max_hi_kbps"@[6] == 'm');
        },
        Number::IdleRefineMaxEdge => {
            assert("idle_refine_max_edge"@.len() == 20 && "idle_refine_max_edge"@[12] == 'm');
        },
        Number::IdleRefineMinFrameKb => {
            assert("idle_refine_min_frame_kb"@.len() == 24 && "idle_refine_min_frame_kb"@[0] == 'i');
        },
        Number::IdleRefineMajorAreaPermille => {
            assert("idle_refine_major_area_permille"@.len() == 31);
        },
        Number::IdleRefineSettleMs => {
            assert("idle_refine_settle_ms"@.len() == 21 && "idle_refine_settle_ms"@[0] == 'i');
        },
        Number::IdleRefineSettleConstrainedMs => {
            assert("idle_refine_settle_constrained_ms"@.len() == 33);
        },
        Number::ConstrainedCqRelief => {
            assert("constrained_cq_relief"@.len() == 21 && "constrained_cq_relief"@[0] == 'c');
        },
        Number::ConstrainedQueueMs => {
            assert("constrained_queue_ms"@.len() == 20 && "constrained_queue_ms"@[0] == 'c');
        },
        Number::ConstrainedHrdPct => {
            assert("constrained_hrd_pct"@.len() == 19 && "constrained_hrd_pct"@[0] == 'c');
        },
        Number::DirectQueueMs => {
            assert("direct_queue_ms"@.len() == 15 && "direct_queue_ms"@[0] == 'd');
        },
        Number::DirectHrdPct => {
            assert("direct_hrd_pct"@.len() == 14 && "direct_hrd_pct"@[0] == 'd');
        },
        Number::SendStallMs => {
            assert("send_stall_ms"@.len() == 13 && "send_stall_ms"@[1] == 'e');
        },
        Number::RelayMaxKbps => {
            assert("relay_max_kbps"@.len() == 14 && "relay_max_kbps"@[0] == 'r');
        },
        Number::PumpStallWarnMs => {
            assert("pump_stall_warn_ms"@.len() == 18 && "pump_stall_warn_ms"@[0] == 'p');
        },
        Number::SlowLinkMinBitrate => {
            assert("slow_link_min_bitrate"@.len() == 21 && "slow_link_min_bitrate"@[10] == 'm');
        },
        Number::SlowLinkProfileBps => {
            assert("slow_link_profile_bps"@.len() == 21 && "slow_link_profile_bps"@[10] == 'p');
        },
        Number::SmootherRatePct => {
            assert("smoother_rate_pct"@.len() == 17 && "smoother_rate_pct"@[1] == 'm');
        },
        Number::BalancedRatePct => {
            assert("balanced_rate_pct"@.len() == 17 && "balanced_rate_pct"@[0] == 'b');
        },
        Number::ScaleThreads => {
            assert("scale_threads"@.len() == 13 && "scale_threads"@[2] == 'a');
        },
    }
}

proof fn lemma_number_names_among_toggles(x: Number)
    ensures
        toggle_named(x.spec_name()@) == None::<Toggle>,
{
    reveal_strlit("update_check_interval_h");
    reveal_strlit("overlay_quic");
    reveal_strlit("overlay_direct");
    reveal_strlit("overlay_derp");
    reveal_strlit("overlay_server_relay_strategy");
    reveal_strlit("overlay_derp_floor");
    reveal_strlit("overlay_org_relay");
    reveal_strlit("relay_server_enabled");
    reveal_strlit("relay_server_port");
    reveal_strlit("overlay_netcheck");
    reveal_strlit("tunnel_derp_fallback");
    reveal_strlit("tunnel_peers_survive_reattach");
    reveal_strlit("overlay_mbb");
    reveal_strlit("overlay_lan_iface_filter");
    reveal_strlit("overlay_wsl_mirrored_guard");
    reveal_strlit("overlay_init_auth_first");
    reveal_strlit("overlay_srflx_seek");
    reveal_strlit("ws_replaced_exit");
    reveal_strlit("overlay_warm_relay");
    reveal_strlit("overlay_quic_async");
    reveal_strlit("overlay_vpn_vantage");
    reveal_strlit("overlay_netd");
    reveal_strlit("overlay_route_events");
    reveal_strlit("overlay_route_tick_secs");
    reveal_strlit("overlay_netmon");
    reveal_strlit("overlay_netmon_debounce_ms");
    reveal_strlit("rc_max_sessions");
    reveal_strlit("overlay_direct_port");
    reveal_strlit("overlay_iface_metric");
    reveal_strlit("shared_encoder");
    reveal_strlit("overlay_relay_tls");
    reveal_strlit("overlay_shared_carrier");
    reveal_strlit("overlay_roam");
    reveal_strlit("overlay_plane_watchdog");
    reveal_strlit("overlay_session_trace");
    reveal_strlit("overlay_disco_respond");
    reveal_strlit("overlay_disco_probe");
    reveal_strlit("overlay_answer_while_followed");
    reveal_strlit("overlay_tun_stable_guid");
    reveal_strlit("overlay_route_evict");
    reveal_strlit("overlay_route_reclaim");
    reveal_strlit("overlay_tun_persist");
    reveal_strlit("overlay_route_metric0");
    reveal_strlit("overlay_route_win");
    reveal_strlit("local_turn");
    reveal_strlit("dns_aaaa");
    reveal_strlit("magicdns_hosts");
    reveal_strlit("auto_update");
    reveal_strlit("logs_upload_disabled");
    reveal_strlit("rate_factor_h264");
    reveal_strlit("rate_factor_hevc");
    reveal_strlit("rate_factor_vp9");
    reveal_strlit("rate_factor_av1");
    reveal_strlit("lanczos_min_pct");
    reveal_strlit("nvenc_spatial_aq");
    reveal_strlit("scale_cq_boost");
    reveal_strlit("idle_refine");
    reveal_strlit("idle_refine_balanced");
    reveal_strlit("gpu_scale");
    reveal_strlit("overlay_lan_capture_probe");
    reveal_strlit("relay_ceiling_learn");
    reveal_strlit("drm_capture");
    reveal_strlit("uinput");
    reveal_strlit("portal_capture");
    reveal_strlit("portal_input");
    reveal_strlit("mutter_capture");
    reveal_strlit("window_capture");
    reveal_strlit("x11_damage");
    reveal_strlit("overlay_key_rotation");
    reveal_strlit("relay_max_hi_kbps");
    reveal_strlit("idle_refine_max_edge");
    reveal_strlit("idle_refine_min_frame_kb");
    reveal_strlit("idle_refine_major_area_permille");
    reveal_strlit("idle_refine_settle_ms");
    reveal_strlit("idle_refine_settle_constrained_ms");
    reveal_strlit("constrained_cq_relief");
    reveal_strlit("constrained_queue_ms");
    reveal_strlit("constrained_hrd_pct");
    reveal_strlit("direct_queue_ms");
    reveal_strlit("direct_hrd_pct");
    reveal_strlit("bg_rebuild");
    reveal_strlit("par_convert");
    reveal_strlit("fps_pace");
    reveal_strlit("relay_idr_thrift");
    reveal_strlit("send_stall_ms");
    reveal_strlit("relay_age_feedback");
    reveal_strlit("measured_ceiling");
    reveal_strlit("encoder_inplace_rate");
    reveal_strlit("ice_relay_tcp");
    reveal_strlit("relay_max_kbps");
    reveal_strlit("rate_slow_start");
    reveal_strlit("rate_prior_decay");
    reveal_strlit("transit_classify");
    reveal_strlit("transit_hold");
    reveal_strlit("media_thread");
    reveal_strlit("pump_stall_watch");
    reveal_strlit("pump_stall_warn_ms");
    reveal_strlit("bg_rebuild_constrained");
    reveal_strlit("slow_link_floor");
    reveal_strlit("slow_link_min_bitrate");
    reveal_strlit("constrained_queue_measured");
    reveal_strlit("seed_contradiction");
    reveal_strlit("viewer_rate_clamp");
    reveal_strlit("queue_drain");
    reveal_strlit("slow_link_profile");
    reveal_strlit("slow_link_profile_bps");
    reveal_strlit("area_min_bitrate");
    reveal_strlit("priority_res_cap");
    reveal_strlit("smoother_rate_pct");
    reveal_strlit("balanced_rate_pct");
    reveal_strlit("scale_threads");
    reveal_strlit("ice_warm_standby");
    reveal_strlit("ice_overlay_host_deprioritize");
    reveal_strlit("overlay_tier_detect");
    reveal_strlit("overlay_rtt_q");
    reveal_strlit("overlay_upward_probe");
    reveal_strlit("relay_probe");
    reveal_strlit("text_mod_neutralize");
    match x {
        Number::UpdateCheckIntervalH => {
            assert("update_check_interval_h"@.len() == 23 && "update_check_interval_h"@[0] == 'u');
        },
        Number::RelayServerPort => {
            assert("relay_server_port"@.len() == 17 && "relay_server_port"@[6] == 's');
        },
        Number::OverlayRouteTickSecs => {
            assert("overlay_route_tick_secs"@.len() == 23 && "overlay_route_tick_secs"@[8] == 'r');
        },
        Number::OverlayNetmonDebounceMs => {
            assert("overlay_netmon_debounce_ms"@.len() == 26 && "overlay_netmon_debounce_ms"@[10] == 't');
        },
        Number::RcMaxSessions => {
            assert("rc_max_sessions"@.len() == 15 && "rc_max_sessions"@[1] == 'c');
        },
        Number::OverlayDirectPort => {
            assert("overlay_direct_port"@.len() == 19 && "overlay_direct_port"@[10] == 'r');
        },
        Number::OverlayIfaceMetric => {
            assert("overlay_iface_metric"@.len() == 20 && "overlay_iface_metric"@[9] == 'f');
        },
        Number::RateFactorH264 => {
            assert("rate_factor_h264"@.len() == 16 && "rate_factor_h264"@[13] == '2');
        },
        Number::RateFactorHevc => {
            assert("rate_factor_hevc"@.len() == 16 && "rate_factor_hevc"@[14] == 'v');
        },
        Number::RateFactorVp9 => {
            assert("rate_factor_vp9"@.len() == 15 && "rate_factor_vp9"@[12] == 'v');
        },
        Number::RateFactorAv1 => {
            assert("rate_factor_av1"@.len() == 15 && "rate_factor_av1"@[13] == 'v');
        },
        Number::LanczosMinPct => {
            assert("lanczos_min_pct"@.len() == 15 && "lanczos_min_pct"@[0] == 'l');
        },
        Number::ScaleCqBoost => {
            assert("scale_cq_boost"@.len() == 14 && "scale_cq_boost"@[1] == 'c');
        },
        Number::RelayMaxHiKbps => {
            assert("relay_max_hi_kbps"@.len() == 17 && "relay_max_hi_kbps"@[6] == 'm');
        },
        Number::IdleRefineMaxEdge => {
            assert("idle_refine_max_edge"@.len() == 20 && "idle_refine_max_edge"@[12] == 'm');
        },
        Number::IdleRefineMinFrameKb => {
            assert("idle_refine_min_frame_kb"@.len() == 24 && "idle_refine_min_frame_kb"@[0] == 'i');
        },
        Number::IdleRefineMajorAreaPermille => {
            assert("idle_refine_major_area_permille"@.len() == 31);
        },
        Number::IdleRefineSettleMs => {
            assert("idle_refine_settle_ms"@.len() == 21 && "idle_refine_settle_ms"@[0] == 'i');
        },
        Number::IdleRefineSettleConstrainedMs => {
            assert("idle_refine_settle_constrained_ms"@.len() == 33);
        },
        Number::ConstrainedCqRelief => {
            assert("constrained_cq_relief"@.len() == 21 && "constrained_cq_relief"@[0] == 'c');
        },
        Number::ConstrainedQueueMs => {
            assert("constrained_queue_ms"@.len() == 20 && "constrained_queue_ms"@[0] == 'c');
        },
        Number::ConstrainedHrdPct => {
            assert("constrained_hrd_pct"@.len() == 19 && "constrained_hrd_pct"@[0] == 'c');
        },
        Number::DirectQueueMs => {
            assert("direct_queue_ms"@.len() == 15 && "direct_queue_ms"@[0] == 'd');
        },
        Number::DirectHrdPct => {
            assert("direct_hrd_pct"@.len() == 14 && "direct_hrd_pct"@[0] == 'd');
        },
        Number::SendStallMs => {
            assert("send_stall_ms"@.len() == 13 && "send_stall_ms"@[1] == 'e');
        },
        Number::RelayMaxKbps => {
            assert("relay_max_kbps"@.len() == 14 && "relay_max_kbps"@[0] == 'r');
        },
        Number::PumpStallWarnMs => {
            assert("pump_stall_warn_ms"@.len() == 18 && "pump_stall_warn_ms"@[0] == 'p');
        },
        Number::SlowLinkMinBitrate => {
            assert("slow_link_min_bitrate"@.len() == 21 && "slow_link_min_bitrate"@[10] == 'm');
        },
        Number::SlowLinkProfileBps => {
            assert("slow_link_profile_bps"@.len() == 21 && "slow_link_profile_bps"@[10] == 'p');
        },
        Number::SmootherRatePct => {
            assert("smoother_rate_pct"@.len() == 17 && "smoother_rate_pct"@[1] == 'm');
        },
        Number::BalancedRatePct => {
            assert("balanced_rate_pct"@.len() == 17 && "balanced_rate_pct"@[0] == 'b');
        },
        Number::ScaleThreads => {
            assert("scale_threads"@.len() == 13 && "scale_threads"@[2] == 'a');
        },
    }
}

proof fn lemma_number_names_among_numbers(x: Number)
    ensures
        number_named(x.spec_name()@) == Some(x),
{
    reveal_strlit("update_check_interval_h");
    reveal_strlit("relay_server_port");
    reveal_strlit("overlay_route_tick_secs");
    reveal_strlit("overlay_netmon_debounce_ms");
    reveal_strlit("rc_max_sessions");
    reveal_strlit("overlay_direct_port");
    reveal_strlit("overlay_iface_metric");
    reveal_strlit("rate_factor_h264");
    reveal_strlit("rate_factor_hevc");
    reveal_strlit("rate_factor_vp9");
    reveal_strlit("rate_factor_av1");
    reveal_strlit("lanczos_min_pct");
    reveal_strlit("scale_cq_boost");
    reveal_strlit("relay_max_hi_kbps");
    reveal_strlit("idle_refine_max_edge");
    reveal_strlit("idle_refine_min_frame_kb");
    reveal_strlit("idle_refine_major_area_permille");
    reveal_strlit("idle_refine_settle_ms");
    reveal_strlit("idle_refine_settle_constrained_ms");
    reveal_strlit("constrained_cq_relief");
    reveal_strlit("constrained_queue_ms");
    reveal_strlit("constrained_hrd_pct");
    reveal_strlit("direct_queue_ms");
    reveal_strlit("direct_hrd_pct");
    reveal_strlit("send_stall_ms");
    reveal_strlit("relay_max_kbps");
    reveal_strlit("pump_stall_warn_ms");
    reveal_strlit("slow_link_min_bitrate");
    reveal_strlit("slow_link_profile_bps");
    reveal_strlit("smoother_rate_pct");
    reveal_strlit("balanced_rate_pct");
    reveal_strlit("scale_threads");
    match x {
        Number::UpdateCheckIntervalH => {
            assert("update_check_interval_h"@.len() == 23 && "update_check_interval_h"@[0] == 'u');
        },
        Number::RelayServerPort => {
            assert("relay_server_port"@.len() == 17 && "relay_server_port"@[6] == 's');
        },
        Number::OverlayRouteTickSecs => {
            assert("overlay_route_tick_secs"@.len() == 23 && "overlay_route_tick_secs"@[8] == 'r');
        },
        Number::OverlayNetmonDebounceMs => {
            assert("overlay_netmon_debounce_ms"@.len() == 26 && "overlay_netmon_debounce_ms"@[10] == 't');
        },
        Number::RcMaxSessions => {
            assert("rc_max_sessions"@.len() == 15 && "rc_max_sessions"@[1] == 'c');
        },
        Number::OverlayDirectPort => {
            assert("overlay_direct_port"@.len() == 19 && "overlay_direct_port"@[10] == 'r');
        },
        Number::OverlayIfaceMetric => {
            assert("overlay_iface_metric"@.len() == 20 && "overlay_iface_metric"@[9] == 'f');
        },
        Number::RateFactorH264 => {
            assert("rate_factor_h264"@.len() == 16 && "rate_factor_h264"@[13] == '2');
        },
        Number::RateFactorHevc => {
            assert("rate_factor_hevc"@.len() == 16 && "rate_factor_hevc"@[14] == 'v');
        },
        Number::RateFactorVp9 => {
            assert("rate_factor_vp9"@.len() == 15 && "rate_factor_vp9"@[12] == 'v');
        },
        Number::RateFactorAv1 => {
            assert("rate_factor_av1"@.len() == 15 && "rate_factor_av1"@[13] == 'v');
        },
        Number::LanczosMinPct => {
            assert("lanczos_min_pct"@.len() == 15 && "lanczos_min_pct"@[0] == 'l');
        },
        Number::ScaleCqBoost => {
            assert("scale_cq_boost"@.len() == 14 && "scale_cq_boost"@[1] == 'c');
        },
        Number::RelayMaxHiKbps => {
            assert("relay_max_hi_kbps"@.len() == 17 && "relay_max_hi_kbps"@[6] == 'm');
        },
        Number::IdleRefineMaxEdge => {
            assert("idle_refine_max_edge"@.len() == 20 && "idle_refine_max_edge"@[12] == 'm');
        },
        Number::IdleRefineMinFrameKb => {
            assert("idle_refine_min_frame_kb"@.len() == 24 && "idle_refine_min_frame_kb"@[0] == 'i');
        },
        Number::IdleRefineMajorAreaPermille => {
            assert("idle_refine_major_area_permille"@.len() == 31);
        },
        Number::IdleRefineSettleMs => {
            assert("idle_refine_settle_ms"@.len() == 21 && "idle_refine_settle_ms"@[0] == 'i');
        },
        Number::IdleRefineSettleConstrainedMs => {
            assert("idle_refine_settle_constrained_ms"@.len() == 33);
        },
        Number::ConstrainedCqRelief => {
            assert("constrained_cq_relief"@.len() == 21 && "constrained_cq_relief"@[0] == 'c');
        },
        Number::ConstrainedQueueMs => {
            assert("constrained_queue_ms"@.len() == 20 && "constrained_queue_ms"@[0] == 'c');
        },
        Number::ConstrainedHrdPct => {
            assert("constrained_hrd_pct"@.len() == 19 && "constrained_hrd_pct"@[0] == 'c');
        },
        Number::DirectQueueMs => {
            assert("direct_queue_ms"@.len() == 15 && "direct_queue_ms"@[0] == 'd');
        },
        Number::DirectHrdPct => {
            assert("direct_hrd_pct"@.len() == 14 && "direct_hrd_pct"@[0] == 'd');
        },
        Number::SendStallMs => {
            assert("send_stall_ms"@.len() == 13 && "send_stall_ms"@[1] == 'e');
        },
        Number::RelayMaxKbps => {
            assert("relay_max_kbps"@.len() == 14 && "relay_max_kbps"@[0] == 'r');
        },
        Number::PumpStallWarnMs => {
            assert("pump_stall_warn_ms"@.len() == 18 && "pump_stall_warn_ms"@[0] == 'p');
        },
        Number::SlowLinkMinBitrate => {
            assert("slow_link_min_bitrate"@.len() == 21 && "slow_link_min_bitrate"@[10] == 'm');
        },
        Number::SlowLinkProfileBps => {
            assert("slow_link_profile_bps"@.len() == 21 && "slow_link_profile_bps"@[10] == 'p');
        },
        Number::SmootherRatePct => {
            assert("smoother_rate_pct"@.len() == 17 && "smoother_rate_pct"@[1] == 'm');
        },
        Number::BalancedRatePct => {
            assert("balanced_rate_pct"@.len() == 17 && "balanced_rate_pct"@[0] == 'b');
        },
        Number::ScaleThreads => {
            assert("scale_threads"@.len() == 13 && "scale_threads"@[2] == 'a');
        },
    }
}

proof fn lemma_single_names_among_flags(x: Key)
    requires
        !(x is Flag) && !(x is Toggle) && !(x is Number),
    ensures
        flag_named(x.spec_name()@) == None::<Flag>,
{
    reveal_strlit("overlay_enabled");
    reveal_strlit("overlay_multi_org");
    reveal_strlit("overlay_advertised_routes");
    reveal_strlit("overlay_exit_node_enabled");
    reveal_strlit("overlay_exit_node");
    reveal_strlit("advertise_routes");
    reveal_strlit("advertise_local_subnets");
    reveal_strlit("auto_grant_session");
    reveal_strlit("enable_remote_browse");
    reveal_strlit("exec_enabled");
    reveal_strlit("macos_supervise_gui_worker");
    reveal_strlit("power_policy");
    reveal_strlit("remote_config_enabled");
    reveal_strlit("ssh_enabled");
    reveal_strlit("ssh_activity_log");
    reveal_strlit("ssh_port");
    reveal_strlit("ssh_authorized_keys");
    reveal_strlit("ssh_account_mode");
    reveal_strlit("ssh_max_privilege");
    reveal_strlit("encoder_preference");
    reveal_strlit("overlay_pathmon");
    reveal_strlit("overlay_demote");
    reveal_strlit("overlay_rpf");
    reveal_strlit("netstack_socks_port");
    reveal_strlit("ice_follow_renomination");
    reveal_strlit("forward_acl");
    reveal_strlit("virtual_desktop_apps");
    match x {
        Key::OverlayAdvertisedRoutes => {
            assert("overlay_advertised_routes"@.len() == 25 && "overlay_advertised_routes"@[8] == 'a');
        },
        Key::OverlayExitNode => {
            assert("overlay_exit_node"@.len() == 17 && "overlay_exit_node"@[8] == 'e');
        },
        Key::AdvertiseRoutes => {
            assert("advertise_routes"@.len() == 16 && "advertise_routes"@[1] == 'd');
        },
        Key::PowerPolicy => {
            assert("power_policy"@.len() == 12 && "power_policy"@[2] == 'w');
        },
        Key::SshPort => {
            assert("ssh_port"@.len() == 8 && "ssh_port"@[0] == 's');
        },
        Key::SshAuthorizedKeys => {
            assert("ssh_authorized_keys"@.len() == 19 && "ssh_authorized_keys"@[0] == 's');
        },
        Key::SshAccountMode => {
            assert("ssh_account_mode"@.len() == 16 && "ssh_account_mode"@[6] == 'c');
        },
        Key::SshMaxPrivilege => {
            assert("ssh_max_privilege"@.len() == 17 && "ssh_max_privilege"@[1] == 's');
        },
        Key::EncoderPreference => {
            assert("encoder_preference"@.len() == 18 && "encoder_preference"@[0] == 'e');
        },
        Key::OverlayPathmon => {
            assert("overlay_pathmon"@.len() == 15 && "overlay_pathmon"@[8] == 'p');
        },
        Key::OverlayDemote => {
            assert("overlay_demote"@.len() == 14 && "overlay_demote"@[10] == 'm');
        },
        Key::OverlayRpf => {
            assert("overlay_rpf"@.len() == 11 && "overlay_rpf"@[8] == 'r');
        },
        Key::NetstackSocksPort => {
            assert("netstack_socks_port"@.len() == 19 && "netstack_socks_port"@[0] == 'n');
        },
        Key::IceFollowRenomination => {
            assert("ice_follow_renomination"@.len() == 23 && "ice_follow_renomination"@[0] == 'i');
        },
        Key::ForwardAcl => {
            assert("forward_acl"@.len() == 11 && "forward_acl"@[0] == 'f');
        },
        Key::VirtualDesktopApps => {
            assert("virtual_desktop_apps"@.len() == 20 && "virtual_desktop_apps"@[0] == 'v');
        },
        _ => {},
    }
}

proof fn lemma_single_names_among_toggles(x: Key)
    requires
        !(x is Flag) && !(x is Toggle) && !(x is Number),
    ensures
        toggle_named(x.spec_name()@) == None::<Toggle>,
{
    reveal_strlit("overlay_advertised_routes");
    reveal_strlit("overlay_exit_node");
    reveal_strlit("advertise_routes");
    reveal_strlit("power_policy");
    reveal_strlit("ssh_port");
    reveal_strlit("ssh_authorized_keys");
    reveal_strlit("ssh_account_mode");
    reveal_strlit("ssh_max_privilege");
    reveal_strlit("encoder_preference");
    reveal_strlit("overlay_quic");
    reveal_strlit("overlay_direct");
    reveal_strlit("overlay_derp");
    reveal_strlit("overlay_server_relay_strategy");
    reveal_strlit("overlay_derp_floor");
    reveal_strlit("overlay_org_relay");
    reveal_strlit("relay_server_enabled");
    reveal_strlit("overlay_netcheck");
    reveal_strlit("tunnel_derp_fallback");
    reveal_strlit("tunnel_peers_survive_reattach");
    reveal_strlit("overlay_mbb");
    reveal_strlit("overlay_lan_iface_filter");
    reveal_strlit("overlay_wsl_mirrored_guard");
    reveal_strlit("overlay_init_auth_first");
    reveal_strlit("overlay_srflx_seek");
    reveal_strlit("ws_replaced_exit");
    reveal_strlit("overlay_warm_relay");
    reveal_strlit("overlay_quic_async");
    reveal_strlit("overlay_vpn_vantage");
    reveal_strlit("overlay_netd");
    reveal_strlit("overlay_pathmon");
    reveal_strlit("overlay_demote");
    reveal_strlit("overlay_rpf");
    reveal_strlit("overlay_route_events");
    reveal_strlit("overlay_netmon");
    reveal_strlit("netstack_socks_port");
    reveal_strlit("shared_encoder");
    reveal_strlit("overlay_relay_tls");
    reveal_strlit("overlay_shared_carrier");
    reveal_strlit("overlay_roam");
    reveal_strlit("overlay_plane_watchdog");
    reveal_strlit("overlay_session_trace");
    reveal_strlit("overlay_disco_respond");
    reveal_strlit("overlay_disco_probe");
    reveal_strlit("overlay_answer_while_followed");
    reveal_strlit("overlay_tun_stable_guid");
    reveal_strlit("overlay_route_evict");
    reveal_strlit("overlay_route_reclaim");
    reveal_strlit("overlay_tun_persist");
    reveal_strlit("overlay_route_metric0");
    reveal_strlit("overlay_route_win");
    reveal_strlit("local_turn");
    reveal_strlit("dns_aaaa");
    reveal_strlit("magicdns_hosts");
    reveal_strlit("auto_update");
    reveal_strlit("logs_upload_disabled");
    reveal_strlit("nvenc_spatial_aq");
    reveal_strlit("idle_refine");
    reveal_strlit("idle_refine_balanced");
    reveal_strlit("gpu_scale");
    reveal_strlit("overlay_lan_capture_probe");
    reveal_strlit("relay_ceiling_learn");
    reveal_strlit("drm_capture");
    reveal_strlit("uinput");
    reveal_strlit("portal_capture");
    reveal_strlit("portal_input");
    reveal_strlit("mutter_capture");
    reveal_strlit("window_capture");
    reveal_strlit("x11_damage");
    reveal_strlit("overlay_key_rotation");
    reveal_strlit("bg_rebuild");
    reveal_strlit("par_convert");
    reveal_strlit("fps_pace");
    reveal_strlit("relay_idr_thrift");
    reveal_strlit("relay_age_feedback");
    reveal_strlit("measured_ceiling");
    reveal_strlit("encoder_inplace_rate");
    reveal_strlit("ice_relay_tcp");
    reveal_strlit("rate_slow_start");
    reveal_strlit("rate_prior_decay");
    reveal_strlit("transit_classify");
    reveal_strlit("transit_hold");
    reveal_strlit("media_thread");
    reveal_strlit("pump_stall_watch");
    reveal_strlit("bg_rebuild_constrained");
    reveal_strlit("slow_link_floor");
    reveal_strlit("constrained_queue_measured");
    reveal_strlit("seed_contradiction");
    reveal_strlit("viewer_rate_clamp");
    reveal_strlit("queue_drain");
    reveal_strlit("slow_link_profile");
    reveal_strlit("area_min_bitrate");
    reveal_strlit("priority_res_cap");
    reveal_strlit("ice_follow_renomination");
    reveal_strlit("ice_warm_standby");
    reveal_strlit("ice_overlay_host_deprioritize");
    reveal_strlit("overlay_tier_detect");
    reveal_strlit("overlay_rtt_q");
    reveal_strlit("overlay_upward_probe");
    reveal_strlit("relay_probe");
    reveal_strlit("text_mod_neutralize");
    reveal_strlit("forward_acl");
    reveal_strlit("virtual_desktop_apps");
    match x {
        Key::OverlayAdvertisedRoutes => {
            assert("overlay_advertised_routes"@.len() == 25 && "overlay_advertised_routes"@[8] == 'a');
        },
        Key::OverlayExitNode => {
            assert("overlay_exit_node"@.len() == 17 && "overlay_exit_node"@[8] == 'e');
        },
        Key::AdvertiseRoutes => {
            assert("advertise_routes"@.len() == 16 && "advertise_routes"@[1] == 'd');
        },
        Key::PowerPolicy => {
            assert("power_policy"@.len() == 12 && "power_policy"@[2] == 'w');
        },
        Key::SshPort => {
            assert("ssh_port"@.len() == 8 && "ssh_port"@[0] == 's');
        },
        Key::SshAuthorizedKeys => {
            assert("ssh_authorized_keys"@.len() == 19 && "ssh_authorized_keys"@[0] == 's');
        },
        Key::SshAccountMode => {
            assert("ssh_account_mode"@.len() == 16 && "ssh_account_mode"@[6] == 'c');
        },
        Key::SshMaxPrivilege => {
            assert("ssh_max_privilege"@.len() == 17 && "ssh_max_privilege"@[1] == 's');
        },
        Key::EncoderPreference => {
            assert("encoder_preference"@.len() == 18 && "encoder_preference"@[0] == 'e');
        },
        Key::OverlayPathmon => {
            assert("overlay_pathmon"@.len() == 15 && "overlay_pathmon"@[8] == 'p');
        },
        Key::OverlayDemote => {
            assert("overlay_demote"@.len() == 14 && "overlay_demote"@[10] == 'm');
        },
        Key::OverlayRpf => {
            assert("overlay_rpf"@.len() == 11 && "overlay_rpf"@[8] == 'r');
        },
        Key::NetstackSocksPort => {
            assert("netstack_socks_port"@.len() == 19 && "netstack_socks_port"@[0] == 'n');
        },
        Key::IceFollowRenomination => {
            assert("ice_follow_renomination"@.len() == 23 && "ice_follow_renomination"@[0] == 'i');
        },
        Key::ForwardAcl => {
            assert("forward_acl"@.len() == 11 && "forward_acl"@[0] == 'f');
        },
        Key::VirtualDesktopApps => {
            assert("virtual_desktop_apps"@.len() == 20 && "virtual_desktop_apps"@[0] == 'v');
        },
        _ => {},
    }
}

proof fn lemma_single_names_among_numbers(x: Key)
    requires
        !(x is Flag) && !(x is Toggle) && !(x is Number),
    ensures
        number_named(x.spec_name()@) == None::<Number>,
{
    reveal_strlit("overlay_advertised_routes");
    reveal_strlit("overlay_exit_node");
    reveal_strlit("advertise_routes");
    reveal_strlit("power_policy");
    reveal_strlit("ssh_port");
    reveal_strlit("ssh_authorized_keys");
    reveal_strlit("ssh_account_mode");
    reveal_strlit("ssh_max_privilege");
    reveal_strlit("encoder_preference");
    reveal_strlit("update_check_interval_h");
    reveal_strlit("relay_server_port");
    reveal_strlit("overlay_pathmon");
    reveal_strlit("overlay_demote");
    reveal_strlit("overlay_rpf");
    reveal_strlit("overlay_route_tick_secs");
    reveal_strlit("overlay_netmon_debounce_ms");
    reveal_strlit("netstack_socks_port");
    reveal_strlit("rc_max_sessions");
    reveal_strlit("overlay_direct_port");
    reveal_strlit("overlay_iface_metric");
    reveal_strlit("rate_factor_h264");
    reveal_strlit("rate_factor_hevc");
    reveal_strlit("rate_factor_vp9");
    reveal_strlit("rate_factor_av1");
    reveal_strlit("lanczos_min_pct");
    reveal_strlit("scale_cq_boost");
    reveal_strlit("relay_max_hi_kbps");
    reveal_strlit("idle_refine_max_edge");
    reveal_strlit("idle_refine_min_frame_kb");
    reveal_strlit("idle_refine_major_area_permille");
    reveal_strlit("idle_refine_settle_ms");
    reveal_strlit("idle_refine_settle_constrained_ms");
    reveal_strlit("constrained_cq_relief");
    reveal_strlit("constrained_queue_ms");
    reveal_strlit("constrained_hrd_pct");
    reveal_strlit("direct_queue_ms");
    reveal_strlit("direct_hrd_pct");
    reveal_strlit("send_stall_ms");
    reveal_strlit("relay_max_kbps");
    reveal_strlit("pump_stall_warn_ms");
    reveal_strlit("slow_link_min_bitrate");
    reveal_strlit("slow_link_profile_bps");
    reveal_strlit("smoother_rate_pct");
    reveal_strlit("balanced_rate_pct");
    reveal_strlit("scale_threads");
    reveal_strlit("ice_follow_renomination");
    reveal_strlit("forward_acl");
    reveal_strlit("virtual_desktop_apps");
    match x {
        Key::OverlayAdvertisedRoutes => {
            assert("overlay_advertised_routes"@.len() == 25 && "overlay_advertised_routes"@[8] == 'a');
        },
        Key::OverlayExitNode => {
            assert("overlay_exit_node"@.len() == 17 && "overlay_exit_node"@[8] == 'e');
        },
        Key::AdvertiseRoutes => {
            assert("advertise_routes"@.len() == 16 && "advertise_routes"@[1] == 'd');
        },
        Key::PowerPolicy => {
            assert("power_policy"@.len() == 12 && "power_policy"@[2] == 'w');
        },
        Key::SshPort => {
            assert("ssh_port"@.len() == 8 && "ssh_port"@[0] == 's');
        },
        Key::SshAuthorizedKeys => {
            assert("ssh_authorized_keys"@.len() == 19 && "ssh_authorized_keys"@[0] == 's');
        },
        Key::SshAccountMode => {
            assert("ssh_account_mode"@.len() == 16 && "ssh_account_mode"@[6] == 'c');
        },
        Key::SshMaxPrivilege => {
            assert("ssh_max_privilege"@.len() == 17 && "ssh_max_privilege"@[1] == 's');
        },
        Key::EncoderPreference => {
            assert("encoder_preference"@.len() == 18 && "encoder_preference"@[0] == 'e');
        },
        Key::OverlayPathmon => {
            assert("overlay_pathmon"@.len() == 15 && "overlay_pathmon"@[8] == 'p');
        },
        Key::OverlayDemote => {
            assert("overlay_demote"@.len() == 14 && "overlay_demote"@[10] == 'm');
        },
        Key::OverlayRpf => {
            assert("overlay_rpf"@.len() == 11 && "overlay_rpf"@[8] == 'r');
        },
        Key::NetstackSocksPort => {
            assert("netstack_socks_port"@.len() == 19 && "netstack_socks_port"@[0] == 'n');
        },
        Key::IceFollowRenomination => {
            assert("ice_follow_renomination"@.len() == 23 && "ice_follow_renomination"@[0] == 'i');
        },
        Key::ForwardAcl => {
            assert("forward_acl"@.len() == 11 && "forward_acl"@[0] == 'f');
        },
        Key::VirtualDesktopApps => {
            assert("virtual_desktop_apps"@.len() == 20 && "virtual_desktop_apps"@[0] == 'v');
        },
        _ => {},
    }
}

proof fn lemma_single_names_among_singles(x: Key)
    requires
        !(x is Flag) && !(x is Toggle) && !(x is Number),
    ensures
        single_named(x.spec_name()@) == Some(x),
{
    reveal_strlit("overlay_advertised_routes");
    reveal_strlit("overlay_exit_node");
    reveal_strlit("advertise_routes");
    reveal_strlit("power_policy");
    reveal_strlit("ssh_port");
    reveal_strlit("ssh_authorized_keys");
    reveal_strlit("ssh_account_mode");
    reveal_strlit("ssh_max_privilege");
    reveal_strlit("encoder_preference");
    reveal_strlit("overlay_pathmon");
    reveal_strlit("overlay_demote");
    reveal_strlit("overlay_rpf");
    reveal_strlit("netstack_socks_port");
    reveal_strlit("ice_follow_renomination");
    reveal_strlit("forward_acl");
    reveal_strlit("virtual_desktop_apps");
    match x {
        Key::OverlayAdvertisedRoutes => {
            assert("overlay_advertised_routes"@.len() == 25 && "overlay_advertised_routes"@[8] == 'a');
        },
        Key::OverlayExitNode => {
            assert("overlay_exit_node"@.len() == 17 && "overlay_exit_node"@[8] == 'e');
        },
        Key::AdvertiseRoutes => {
            assert("advertise_routes"@.len() == 16 && "advertise_routes"@[1] == 'd');
        },
        Key::PowerPolicy => {
            assert("power_policy"@.len() == 12 && "power_policy"@[2] == 'w');
        },
        Key::SshPort => {
            assert("ssh_port"@.len() == 8 && "ssh_port"@[0] == 's');
        },
        Key::SshAuthorizedKeys => {
            assert("ssh_authorized_keys"@.len() == 19 && "ssh_authorized_keys"@[0] == 's');
        },
        Key::SshAccountMode => {
            assert("ssh_account_mode"@.len() == 16 && "ssh_account_mode"@[6] == 'c');
        },
        Key::SshMaxPrivilege => {
            assert("ssh_max_privilege"@.len() == 17 && "ssh_max_privilege"@[1] == 's');
        },
        Key::EncoderPreference => {
            assert("encoder_preference"@.len() == 18 && "encoder_preference"@[0] == 'e');
        },
        Key::OverlayPathmon => {
            assert("overlay_pathmon"@.len() == 15 && "overlay_pathmon"@[8] == 'p');
        },
        Key::OverlayDemote => {
            assert("overlay_demote"@.len() == 14 && "overlay_demote"@[10] == 'm');
        },
        Key::OverlayRpf => {
            assert("overlay_rpf"@.len() == 11 && "overlay_rpf"@[8] == 'r');
        },
        Key::NetstackSocksPort => {
            assert("netstack_socks_port"@.len() == 19 && "netstack_socks_port"@[0] == 'n');
        },
        Key::IceFollowRenomination => {
            assert("ice_follow_renomination"@.len() == 23 && "ice_follow_renomination"@[0] == 'i');
        },
        Key::ForwardAcl => {
            assert("forward_acl"@.len() == 11 && "forward_acl"@[0] == 'f');
        },
        Key::VirtualDesktopApps => {
            assert("virtual_desktop_apps"@.len() == 20 && "virtual_desktop_apps"@[0] == 'v');
        },
        _ => {},
    }
}

/// Every key is found by its name.
pub proof fn names_find_their_keys(key: Key)
    ensures
        key_named(key.spec_name()@) == Some(key),
{
    match key {
        Key::Flag(x) => {
            lemma_flag_names_among_flags(x);
        },
        Key::Toggle(x) => {
            lemma_toggle_names_among_flags(x);
            lemma_toggle_names_among_toggles(x);
        },
        Key::Number(x) => {
            lemma_number_names_among_flags(x);
            lemma_number_names_among_toggles(x);
            lemma_number_names_among_numbers(x);
        },
        _ => {
            lemma_single_names_among_flags(key);
            lemma_single_names_among_toggles(key);
            lemma_single_names_among_numbers(key);
            lemma_single_names_among_singles(key);
        },
    }
}

/// No two keys share a name.
pub proof fn names_are_unique(a: Key, b: Key)
    requires
        a.spec_name()@ == b.spec_name()@,
    ensures
        a == b,
{
    names_find_their_keys(a);
    names_find_their_keys(b);
}

} // verus!
