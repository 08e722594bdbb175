//! Secrets and the identity of a machine are no keys of the config surface.
use vstd::prelude::*;
use crate::config::keys::{
    flag_named, key_named, number_named, single_named, toggle_named, Flag, Key, Number, Toggle,
};

verus! {

/// The name of a secret, or of a part of a machine's identity.
pub open spec fn is_hidden(s: Seq<char>) -> bool {
    s == "agent_token"@ || s == "overlay_wg_secret_key"@ || s == "machine_id"@ || s
        == "machine_name"@ || s == "tunnel_routes"@
}

/// What the hidden names have and no key's name has.
spec fn looks_hidden(s: Seq<char>) -> bool {
    ||| s.len() == 10 && s[0] == 'm'
    ||| s.len() == 11 && s[1] == 'g'
    ||| s.len() == 12 && s[0] == 'm' && s[1] == 'a'
    ||| s.len() == 13 && s[1] == 'u' && s[6] == '_'
    ||| s.len() == 21 && s[8] == 'w' && s[9] == 'g'
}

proof fn lemma_hidden_names(s: Seq<char>)
    requires
        is_hidden(s),
    ensures
        looks_hidden(s),
{
    if s == "agent_token"@ {
        reveal_strlit("agent_token");
    } else if s == "overlay_wg_secret_key"@ {
        reveal_strlit("overlay_wg_secret_key");
    } else if s == "machine_id"@ {
        reveal_strlit("machine_id");
    } else if s == "machine_name"@ {
        reveal_strlit("machine_name");
    } else {
        reveal_strlit("tunnel_routes");
    }
}

proof fn lemma_flag_names_are_open(x: Flag)
    ensures
        !looks_hidden(x.spec_name()@),
{
    match x {
        Flag::OverlayEnabled => {
            reveal_strlit("overlay_enabled");
            assert("overlay_enabled"@.len() == 15);
        },
        Flag::OverlayMultiOrg => {
            reveal_strlit("overlay_multi_org");
            assert("overlay_multi_org"@.len() == 17);
        },
        Flag::OverlayExitNodeEnabled => {
            reveal_strlit("overlay_exit_node_enabled");
            assert("overlay_exit_node_enabled"@.len() == 25);
        },
        Flag::AdvertiseLocalSubnets => {
            reveal_strlit("advertise_local_subnets");
            assert("advertise_local_subnets"@.len() == 23);
        },
        Flag::AutoGrantSession => {
            reveal_strlit("auto_grant_session");
            assert("auto_grant_session"@.len() == 18);
        },
        Flag::EnableRemoteBrowse => {
            reveal_strlit("enable_remote_browse");
            assert("enable_remote_browse"@.len() == 20);
        },
        Flag::ExecEnabled => {
            reveal_strlit("exec_enabled");
            assert("exec_enabled"@.len() == 12);
        },
        Flag::MacosSuperviseGuiWorker => {
            reveal_strlit("macos_supervise_gui_worker");
            assert("macos_supervise_gui_worker"@.len() == 26);
        },
        Flag::RemoteConfigEnabled => {
            reveal_strlit("remote_config_enabled");
            assert("remote_config_enabled"@.len() == 21);
        },
        Flag::SshEnabled => {
            reveal_strlit("ssh_enabled");
            assert("ssh_enabled"@.len() == 11);
        },
        Flag::SshActivityLog => {
            reveal_strlit("ssh_activity_log");
            assert("ssh_activity_log"@.len() == 16);
        },
    }
}

proof fn lemma_named_flag(s: Seq<char>)
    ensures
        flag_named(s) matches Some(x) ==> s == x.spec_name()@,
{
}

proof fn lemma_toggle_names_are_open(x: Toggle)
    ensures
        !looks_hidden(x.spec_name()@),
{
    match x {
        Toggle::OverlayQuic => {
            reveal_strlit("overlay_quic");
            assert("overlay_quic"@.len() == 12);
        },
        Toggle::OverlayDirect => {
            reveal_strlit("overlay_direct");
            assert("overlay_direct"@.len() == 14);
        },
        Toggle::OverlayDerp => {
            reveal_strlit("overlay_derp");
            assert("overlay_derp"@.len() == 12);
        },
        Toggle::OverlayServerRelayStrategy => {
            reveal_strlit("overlay_server_relay_strategy");
            assert("overlay_server_relay_strategy"@.len() == 29);
        },
        Toggle::OverlayDerpFloor => {
            reveal_strlit("overlay_derp_floor");
            assert("overlay_derp_floor"@.len() == 18);
        },
        Toggle::OverlayOrgRelay => {
            reveal_strlit("overlay_org_relay");
            assert("overlay_org_relay"@.len() == 17);
        },
        Toggle::RelayServerEnabled => {
            reveal_strlit("relay_server_enabled");
            assert("relay_server_enabled"@.len() == 20);
        },
        Toggle::OverlayNetcheck => {
            reveal_strlit("overlay_netcheck");
            assert("overlay_netcheck"@.len() == 16);
        },
        Toggle::TunnelDerpFallback => {
            reveal_strlit("tunnel_derp_fallback");
            assert("tunnel_derp_fallback"@.len() == 20);
        },
        Toggle::TunnelPeersSurviveReattach => {
            reveal_strlit("tunnel_peers_survive_reattach");
            assert("tunnel_peers_survive_reattach"@.len() == 29);
        },
        Toggle::OverlayMbb => {
            reveal_strlit("overlay_mbb");
            assert("overlay_mbb"@.len() == 11);
        },
        Toggle::OverlayLanIfaceFilter => {
            reveal_strlit("overlay_lan_iface_filter");
            assert("overlay_lan_iface_filter"@.len() == 24);
        },
        Toggle::OverlayWslMirroredGuard => {
            reveal_strlit("overlay_wsl_mirrored_guard");
            assert("overlay_wsl_mirrored_guard"@.len() == 26);
        },
        Toggle::OverlayInitAuthFirst => {
            reveal_strlit("overlay_init_auth_first");
            assert("overlay_init_auth_first"@.len() == 23);
        },
        Toggle::OverlaySrflxSeek => {
            reveal_strlit("overlay_srflx_seek");
            assert("overlay_srflx_seek"@.len() == 18);
        },
        Toggle::WsReplacedExit => {
            reveal_strlit("ws_replaced_exit");
            assert("ws_replaced_exit"@.len() == 16);
        },
        Toggle::OverlayWarmRelay => {
            reveal_strlit("overlay_warm_relay");
            assert("overlay_warm_relay"@.len() == 18);
        },
        Toggle::OverlayQuicAsync => {
            reveal_strlit("overlay_quic_async");
            assert("overlay_quic_async"@.len() == 18);
        },
        Toggle::OverlayVpnVantage => {
            reveal_strlit("overlay_vpn_vantage");
            assert("overlay_vpn_vantage"@.len() == 19);
        },
        Toggle::OverlayNetd => {
            reveal_strlit("overlay_netd");
            assert("overlay_netd"@.len() == 12);
        },
        Toggle::OverlayRouteEvents => {
            reveal_strlit("overlay_route_events");
            assert("overlay_route_events"@.len() == 20);
        },
        Toggle::OverlayNetmon => {
            reveal_strlit("overlay_netmon");
            assert("overlay_netmon"@.len() == 14);
        },
        Toggle::SharedEncoder => {
            reveal_strlit("shared_encoder");
            assert("shared_encoder"@.len() == 14);
        },
        Toggle::OverlayRelayTls => {
            reveal_strlit("overlay_relay_tls");
            assert("overlay_relay_tls"@.len() == 17);
        },
        Toggle::OverlaySharedCarrier => {
            reveal_strlit("overlay_shared_carrier");
            assert("overlay_shared_carrier"@.len() == 22);
        },
        Toggle::OverlayRoam => {
            reveal_strlit("overlay_roam");
            assert("overlay_roam"@.len() == 12);
        },
        Toggle::OverlayPlaneWatchdog => {
            reveal_strlit("overlay_plane_watchdog");
            assert("overlay_plane_watchdog"@.len() == 22);
        },
        Toggle::OverlaySessionTrace => {
            reveal_strlit("overlay_session_trace");
            assert("overlay_session_trace"@.len() == 21);
        },
        Toggle::OverlayDiscoRespond => {
            reveal_strlit("overlay_disco_respond");
            assert("overlay_disco_respond"@.len() == 21);
        },
        Toggle::OverlayDiscoProbe => {
            reveal_strlit("overlay_disco_probe");
            assert("overlay_disco_probe"@.len() == 19);
        },
        Toggle::OverlayAnswerWhileFollowed => {
            reveal_strlit("overlay_answer_while_followed");
            assert("overlay_answer_while_followed"@.len() == 29);
        },
        Toggle::OverlayTunStableGuid => {
            reveal_strlit("overlay_tun_stable_guid");
            assert("overlay_tun_stable_guid"@.len() == 23);
        },
        Toggle::OverlayRouteEvict => {
            reveal_strlit("overlay_route_evict");
            assert("overlay_route_evict"@.len() == 19);
        },
        Toggle::OverlayRouteReclaim => {
            reveal_strlit("overlay_route_reclaim");
            assert("overlay_route_reclaim"@.len() == 21);
        },
        Toggle::OverlayTunPersist => {
            reveal_strlit("overlay_tun_persist");
            assert("overlay_tun_persist"@.len() == 19);
        },
        Toggle::OverlayRouteMetric0 => {
            reveal_strlit("overlay_route_metric0");
            assert("overlay_route_metric0"@.len() == 21);
        },
        Toggle::OverlayRouteWin => {
            reveal_strlit("overlay_route_win");
            assert("overlay_route_win"@.len() == 17);
        },
        Toggle::LocalTurn => {
            reveal_strlit("local_turn");
            assert("local_turn"@.len() == 10);
        },
        Toggle::DnsAaaa => {
            reveal_strlit("dns_aaaa");
            assert("dns_aaaa"@.len() == 8);
        },
        Toggle::MagicdnsHosts => {
            reveal_strlit("magicdns_hosts");
            assert("magicdns_hosts"@.len() == 14);
        },
        Toggle::AutoUpdate => {
            reveal_strlit("auto_update");
            assert("auto_update"@.len() == 11);
        },
        Toggle::LogsUploadDisabled => {
            reveal_strlit("logs_upload_disabled");
            assert("logs_upload_disabled"@.len() == 20);
        },
        Toggle::NvencSpatialAq => {
            reveal_strlit("nvenc_spatial_aq");
            assert("nvenc_spatial_aq"@.len() == 16);
        },
        Toggle::IdleRefine => {
            reveal_strlit("idle_refine");
            assert("idle_refine"@.len() == 11);
        },
        Toggle::IdleRefineBalanced => {
            reveal_strlit("idle_refine_balanced");
            assert("idle_refine_balanced"@.len() == 20);
        },
        Toggle::GpuScale => {
            reveal_strlit("gpu_scale");
            assert("gpu_scale"@.len() == 9);
        },
        Toggle::OverlayLanCaptureProbe => {
            reveal_strlit("overlay_lan_capture_probe");
            assert("overlay_lan_capture_probe"@.len() == 25);
        },
        Toggle::RelayCeilingLearn => {
            reveal_strlit("relay_ceiling_learn");
            assert("relay_ceiling_learn"@.len() == 19);
        },
        Toggle::DrmCapture => {
            reveal_strlit("drm_capture");
            assert("drm_capture"@.len() == 11);
        },
        Toggle::Uinput => {
            reveal_strlit("uinput");
            assert("uinput"@.len() == 6);
        },
        Toggle::PortalCapture => {
            reveal_strlit("portal_capture");
            assert("portal_capture"@.len() == 14);
        },
        Toggle::PortalInput => {
            reveal_strlit("portal_input");
            assert("portal_input"@.len() == 12);
        },
        Toggle::MutterCapture => {
            reveal_strlit("mutter_capture");
            assert("mutter_capture"@.len() == 14);
        },
        Toggle::WindowCapture => {
            reveal_strlit("window_capture");
            assert("window_capture"@.len() == 14);
        },
        Toggle::X11Damage => {
            reveal_strlit("x11_damage");
            assert("x11_damage"@.len() == 10);
        },
        Toggle::OverlayKeyRotation => {
            reveal_strlit("overlay_key_rotation");
            assert("overlay_key_rotation"@.len() == 20);
        },
        Toggle::BgRebuild => {
            reveal_strlit("bg_rebuild");
            assert("bg_rebuild"@.len() == 10);
        },
        Toggle::ParConvert => {
            reveal_strlit("par_convert");
            assert("par_convert"@.len() == 11);
        },
        Toggle::FpsPace => {
            reveal_strlit("fps_pace");
            assert("fps_pace"@.len() == 8);
        },
        Toggle::RelayIdrThrift => {
            reveal_strlit("relay_idr_thrift");
            assert("relay_idr_thrift"@.len() == 16);
        },
        Toggle::RelayAgeFeedback => {
            reveal_strlit("relay_age_feedback");
            assert("relay_age_feedback"@.len() == 18);
        },
        Toggle::MeasuredCeiling => {
            reveal_strlit("measured_ceiling");
            assert("measured_ceiling"@.len() == 16);
        },
        Toggle::EncoderInplaceRate => {
            reveal_strlit("encoder_inplace_rate");
            assert("encoder_inplace_rate"@.len() == 20);
        },
        Toggle::IceRelayTcp => {
            reveal_strlit("ice_relay_tcp");
            assert("ice_relay_tcp"@.len() == 13);
        },
        Toggle::RateSlowStart => {
            reveal_strlit("rate_slow_start");
            assert("rate_slow_start"@.len() == 15);
        },
        Toggle::RatePriorDecay => {
            reveal_strlit("rate_prior_decay");
            assert("rate_prior_decay"@.len() == 16);
        },
        Toggle::TransitClassify => {
            reveal_strlit("transit_classify");
            assert("transit_classify"@.len() == 16);
        },
        Toggle::TransitHold => {
            reveal_strlit("transit_hold");
            assert("transit_hold"@.len() == 12);
        },
        Toggle::MediaThread => {
            reveal_strlit("media_thread");
            assert("media_thread"@.len() == 12);
        },
        Toggle::PumpStallWatch => {
            reveal_strlit("pump_stall_watch");
            assert("pump_stall_watch"@.len() == 16);
        },
        Toggle::BgRebuildConstrained => {
            reveal_strlit("bg_rebuild_constrained");
            assert("bg_rebuild_constrained"@.len() == 22);
        },
        Toggle::SlowLinkFloor => {
            reveal_strlit("slow_link_floor");
            assert("slow_link_floor"@.len() == 15);
        },
        Toggle::ConstrainedQueueMeasured => {
            reveal_strlit("constrained_queue_measured");
            assert("constrained_queue_measured"@.len() == 26);
        },
        Toggle::SeedContradiction => {
            reveal_strlit("seed_contradiction");
            assert("seed_contradiction"@.len() == 18);
        },
        Toggle::ViewerRateClamp => {
            reveal_strlit("viewer_rate_clamp");
            assert("viewer_rate_clamp"@.len() == 17);
        },
        Toggle::QueueDrain => {
            reveal_strlit("queue_drain");
            assert("queue_drain"@.len() == 11);
        },
        Toggle::SlowLinkProfile => {
            reveal_strlit("slow_link_profile");
            assert("slow_link_profile"@.len() == 17);
        },
        Toggle::AreaMinBitrate => {
            reveal_strlit("area_min_bitrate");
            assert("area_min_bitrate"@.len() == 16);
        },
        Toggle::PriorityResCap => {
            reveal_strlit("priority_res_cap");
            assert("priority_res_cap"@.len() == 16);
        },
        Toggle::IceWarmStandby => {
            reveal_strlit("ice_warm_standby");
            assert("ice_warm_standby"@.len() == 16);
        },
        Toggle::IceOverlayHostDeprioritize => {
            reveal_strlit("ice_overlay_host_deprioritize");
            assert("ice_overlay_host_deprioritize"@.len() == 29);
        },
        Toggle::OverlayTierDetect => {
            reveal_strlit("overlay_tier_detect");
            assert("overlay_tier_detect"@.len() == 19);
        },
        Toggle::OverlayRttQ => {
            reveal_strlit("overlay_rtt_q");
            assert("overlay_rtt_q"@.len() == 13);
        },
        Toggle::OverlayUpwardProbe => {
            reveal_strlit("overlay_upward_probe");
            assert("overlay_upward_probe"@.len() == 20);
        },
        Toggle::RelayProbe => {
            reveal_strlit("relay_probe");
            assert("relay_probe"@.len() == 11);
        },
        Toggle::TextModNeutralize => {
            reveal_strlit("text_mod_neutralize");
            assert("text_mod_neutralize"@.len() == 19);
        },
    }
}

proof fn lemma_named_toggle(s: Seq<char>)
    ensures
        toggle_named(s) matches Some(x) ==> s == x.spec_name()@,
{
}

proof fn lemma_number_names_are_open(x: Number)
    ensures
        !looks_hidden(x.spec_name()@),
{
    match x {
        Number::UpdateCheckIntervalH => {
            reveal_strlit("update_check_interval_h");
            assert("update_check_interval_h"@.len() == 23);
        },
        Number::RelayServerPort => {
            reveal_strlit("relay_server_port");
            assert("relay_server_port"@.len() == 17);
        },
        Number::OverlayRouteTickSecs => {
            reveal_strlit("overlay_route_tick_secs");
            assert("overlay_route_tick_secs"@.len() == 23);
        },
        Number::OverlayNetmonDebounceMs => {
            reveal_strlit("overlay_netmon_debounce_ms");
            assert("overlay_netmon_debounce_ms"@.len() == 26);
        },
        Number::RcMaxSessions => {
            reveal_strlit("rc_max_sessions");
            assert("rc_max_sessions"@.len() == 15);
        },
        Number::OverlayDirectPort => {
            reveal_strlit("overlay_direct_port");
            assert("overlay_direct_port"@.len() == 19);
        },
        Number::OverlayIfaceMetric => {
            reveal_strlit("overlay_iface_metric");
            assert("overlay_iface_metric"@.len() == 20);
        },
        Number::RateFactorH264 => {
            reveal_strlit("rate_factor_h264");
            assert("rate_factor_h264"@.len() == 16);
        },
        Number::RateFactorHevc => {
            reveal_strlit("rate_factor_hevc");
            assert("rate_factor_hevc"@.len() == 16);
        },
        Number::RateFactorVp9 => {
            reveal_strlit("rate_factor_vp9");
            assert("rate_factor_vp9"@.len() == 15);
        },
        Number::RateFactorAv1 => {
            reveal_strlit("rate_factor_av1");
            assert("rate_factor_av1"@.len() == 15);
        },
        Number::LanczosMinPct => {
            reveal_strlit("lanczos_min_pct");
            assert("lanczos_min_pct"@.len() == 15);
        },
        Number::ScaleCqBoost => {
            reveal_strlit("scale_cq_boost");
            assert("scale_cq_boost"@.len() == 14);
        },
        Number::RelayMaxHiKbps => {
            reveal_strlit("relay_max_hi_kbps");
            assert("relay_max_hi_kbps"@.len() == 17);
        },
        Number::IdleRefineMaxEdge => {
            reveal_strlit("idle_refine_max_edge");
            assert("idle_refine_max_edge"@.len() == 20);
        },
        Number::IdleRefineMinFrameKb => {
            reveal_strlit("idle_refine_min_frame_kb");
            assert("idle_refine_min_frame_kb"@.len() == 24);
        },
        Number::IdleRefineMajorAreaPermille => {
            reveal_strlit("idle_refine_major_area_permille");
            assert("idle_refine_major_area_permille"@.len() == 31);
        },
        Number::IdleRefineSettleMs => {
            reveal_strlit("idle_refine_settle_ms");
            assert("idle_refine_settle_ms"@.len() == 21);
        },
        Number::IdleRefineSettleConstrainedMs => {
            reveal_strlit("idle_refine_settle_constrained_ms");
            assert("idle_refine_settle_constrained_ms"@.len() == 33);
        },
        Number::ConstrainedCqRelief => {
            reveal_strlit("constrained_cq_relief");
            assert("constrained_cq_relief"@.len() == 21);
        },
        Number::ConstrainedQueueMs => {
            reveal_strlit("constrained_queue_ms");
            assert("constrained_queue_ms"@.len() == 20);
        },
        Number::ConstrainedHrdPct => {
            reveal_strlit("constrained_hrd_pct");
            assert("constrained_hrd_pct"@.len() == 19);
        },
        Number::DirectQueueMs => {
            reveal_strlit("direct_queue_ms");
            assert("direct_queue_ms"@.len() == 15);
        },
        Number::DirectHrdPct => {
            reveal_strlit("direct_hrd_pct");
            assert("direct_hrd_pct"@.len() == 14);
        },
        Number::SendStallMs => {
            reveal_strlit("send_stall_ms");
            assert("send_stall_ms"@.len() == 13);
        },
        Number::RelayMaxKbps => {
            reveal_strlit("relay_max_kbps");
            assert("relay_max_kbps"@.len() == 14);
        },
        Number::PumpStallWarnMs => {
            reveal_strlit("pump_stall_warn_ms");
            assert("pump_stall_warn_ms"@.len() == 18);
        },
        Number::SlowLinkMinBitrate => {
            reveal_strlit("slow_link_min_bitrate");
            assert("slow_link_min_bitrate"@.len() == 21);
        },
        Number::SlowLinkProfileBps => {
            reveal_strlit("slow_link_profile_bps");
            assert("slow_link_profile_bps"@.len() == 21);
        },
        Number::SmootherRatePct => {
            reveal_strlit("smoother_rate_pct");
            assert("smoother_rate_pct"@.len() == 17);
        },
        Number::BalancedRatePct => {
            reveal_strlit("balanced_rate_pct");
            assert("balanced_rate_pct"@.len() == 17);
        },
        Number::ScaleThreads => {
            reveal_strlit("scale_threads");
            assert("scale_threads"@.len() == 13);
        },
    }
}

proof fn lemma_named_number(s: Seq<char>)
    ensures
        number_named(s) matches Some(x) ==> s == x.spec_name()@,
{
}

proof fn lemma_single_names_are_open(x: Key)
    requires
        !(x is Flag || x is Toggle || x is Number),
    ensures
        !looks_hidden(x.spec_name()@),
{
    match x {
        Key::OverlayAdvertisedRoutes => {
            reveal_strlit("overlay_advertised_routes");
            assert("overlay_advertised_routes"@.len() == 25);
        },
        Key::OverlayExitNode => {
            reveal_strlit("overlay_exit_node");
            assert("overlay_exit_node"@.len() == 17);
        },
        Key::AdvertiseRoutes => {
            reveal_strlit("advertise_routes");
            assert("advertise_routes"@.len() == 16);
        },
        Key::PowerPolicy => {
            reveal_strlit("power_policy");
            assert("power_policy"@.len() == 12);
        },
        Key::SshPort => {
            reveal_strlit("ssh_port");
            assert("ssh_port"@.len() == 8);
        },
        Key::SshAuthorizedKeys => {
            reveal_strlit("ssh_authorized_keys");
            assert("ssh_authorized_keys"@.len() == 19);
        },
        Key::SshAccountMode => {
            reveal_strlit("ssh_account_mode");
            assert("ssh_account_mode"@.len() == 16);
        },
        Key::SshMaxPrivilege => {
            reveal_strlit("ssh_max_privilege");
            assert("ssh_max_privilege"@.len() == 17);
        },
        Key::EncoderPreference => {
            reveal_strlit("encoder_preference");
            assert("encoder_preference"@.len() == 18);
        },
        Key::OverlayPathmon => {
            reveal_strlit("overlay_pathmon");
            assert("overlay_pathmon"@.len() == 15);
        },
        Key::OverlayDemote => {
            reveal_strlit("overlay_demote");
            assert("overlay_demote"@.len() == 14);
        },
        Key::OverlayRpf => {
            reveal_strlit("overlay_rpf");
            assert("overlay_rpf"@.len() == 11);
        },
        Key::NetstackSocksPort => {
            reveal_strlit("netstack_socks_port");
            assert("netstack_socks_port"@.len() == 19);
        },
        Key::IceFollowRenomination => {
            reveal_strlit("ice_follow_renomination");
            assert("ice_follow_renomination"@.len() == 23);
        },
        Key::ForwardAcl => {
            reveal_strlit("forward_acl");
            assert("forward_acl"@.len() == 11);
        },
        Key::VirtualDesktopApps => {
            reveal_strlit("virtual_desktop_apps");
            assert("virtual_desktop_apps"@.len() == 20);
        },
        _ => {},
    }
}

proof fn lemma_named_single(s: Seq<char>)
    ensures
        single_named(s) matches Some(x) ==> s == x.spec_name()@ && !(x is Flag || x is Toggle || x
            is Number),
{
}

/// No secret and no part of a machine's identity can be seen or written as a
/// key.
pub proof fn secrets_are_no_keys(s: Seq<char>)
    requires
        is_hidden(s),
    ensures
        key_named(s) is None,
{
    lemma_hidden_names(s);
    lemma_named_flag(s);
    lemma_named_toggle(s);
    lemma_named_number(s);
    lemma_named_single(s);
    match key_named(s) {
        Some(Key::Flag(x)) => lemma_flag_names_are_open(x),
        Some(Key::Toggle(x)) => lemma_toggle_names_are_open(x),
        Some(Key::Number(x)) => lemma_number_names_are_open(x),
        Some(key) => lemma_single_names_are_open(key),
        None => {},
    }
}

} // verus!
