//! The keys of the config surface: which field of [`AgentConfig`] each one
//! names, and in which order they are shown.
use vstd::prelude::*;
use crate::config::agent::AgentConfig;
use crate::config::descriptions;
use crate::text::same;

verus! {

/// A plain on/off field.
#[derive(Debug, Clone, Copy, PartialEq, Eq, Structural)]
#[allow(missing_docs)]
pub enum Flag {
    OverlayEnabled,
    OverlayMultiOrg,
    OverlayExitNodeEnabled,
    AdvertiseLocalSubnets,
    AutoGrantSession,
    EnableRemoteBrowse,
    ExecEnabled,
    MacosSuperviseGuiWorker,
    RemoteConfigEnabled,
    SshEnabled,
    SshActivityLog,
}

/// The flag that goes by a name.
pub open spec fn flag_named(s: Seq<char>) -> Option<Flag> {
    if s == "overlay_enabled"@ {
        Some(Flag::OverlayEnabled)
    } else if s == "overlay_multi_org"@ {
        Some(Flag::OverlayMultiOrg)
    } else if s == "overlay_exit_node_enabled"@ {
        Some(Flag::OverlayExitNodeEnabled)
    } else if s == "advertise_local_subnets"@ {
        Some(Flag::AdvertiseLocalSubnets)
    } else if s == "auto_grant_session"@ {
        Some(Flag::AutoGrantSession)
    } else if s == "enable_remote_browse"@ {
        Some(Flag::EnableRemoteBrowse)
    } else if s == "exec_enabled"@ {
        Some(Flag::ExecEnabled)
    } else if s == "macos_supervise_gui_worker"@ {
        Some(Flag::MacosSuperviseGuiWorker)
    } else if s == "remote_config_enabled"@ {
        Some(Flag::RemoteConfigEnabled)
    } else if s == "ssh_enabled"@ {
        Some(Flag::SshEnabled)
    } else if s == "ssh_activity_log"@ {
        Some(Flag::SshActivityLog)
    } else {
        None
    }
}

impl Flag {
    /// The name of the flag.
    pub open spec fn spec_name(self) -> &'static str {
        match self {
            Flag::OverlayEnabled => "overlay_enabled",
            Flag::OverlayMultiOrg => "overlay_multi_org",
            Flag::OverlayExitNodeEnabled => "overlay_exit_node_enabled",
            Flag::AdvertiseLocalSubnets => "advertise_local_subnets",
            Flag::AutoGrantSession => "auto_grant_session",
            Flag::EnableRemoteBrowse => "enable_remote_browse",
            Flag::ExecEnabled => "exec_enabled",
            Flag::MacosSuperviseGuiWorker => "macos_supervise_gui_worker",
            Flag::RemoteConfigEnabled => "remote_config_enabled",
            Flag::SshEnabled => "ssh_enabled",
            Flag::SshActivityLog => "ssh_activity_log",
        }
    }

    /// The field that the flag names.
    pub open spec fn get(self, cfg: AgentConfig) -> bool {
        match self {
            Flag::OverlayEnabled => cfg.overlay_enabled,
            Flag::OverlayMultiOrg => cfg.overlay_multi_org,
            Flag::OverlayExitNodeEnabled => cfg.overlay_exit_node_enabled,
            Flag::AdvertiseLocalSubnets => cfg.advertise_local_subnets,
            Flag::AutoGrantSession => cfg.auto_grant_session,
            Flag::EnableRemoteBrowse => cfg.enable_remote_browse,
            Flag::ExecEnabled => cfg.exec_enabled,
            Flag::MacosSuperviseGuiWorker => cfg.macos_supervise_gui_worker,
            Flag::RemoteConfigEnabled => cfg.remote_config_enabled,
            Flag::SshEnabled => cfg.ssh_enabled,
            Flag::SshActivityLog => cfg.ssh_activity_log,
        }
    }

    /// `cfg` with the field that the flag names set to `v`, and nothing else changed.
    pub open spec fn put(self, cfg: AgentConfig, v: bool) -> AgentConfig {
        match self {
            Flag::OverlayEnabled => AgentConfig { overlay_enabled: v, ..cfg },
            Flag::OverlayMultiOrg => AgentConfig { overlay_multi_org: v, ..cfg },
            Flag::OverlayExitNodeEnabled => AgentConfig { overlay_exit_node_enabled: v, ..cfg },
            Flag::AdvertiseLocalSubnets => AgentConfig { advertise_local_subnets: v, ..cfg },
            Flag::AutoGrantSession => AgentConfig { auto_grant_session: v, ..cfg },
            Flag::EnableRemoteBrowse => AgentConfig { enable_remote_browse: v, ..cfg },
            Flag::ExecEnabled => AgentConfig { exec_enabled: v, ..cfg },
            Flag::MacosSuperviseGuiWorker => AgentConfig { macos_supervise_gui_worker: v, ..cfg },
            Flag::RemoteConfigEnabled => AgentConfig { remote_config_enabled: v, ..cfg },
            Flag::SshEnabled => AgentConfig { ssh_enabled: v, ..cfg },
            Flag::SshActivityLog => AgentConfig { ssh_activity_log: v, ..cfg },
        }
    }

    /// The name of the flag.
    pub fn name(self) -> (r: &'static str)
        ensures
            r@ == self.spec_name()@,
    {
        match self {
            Flag::OverlayEnabled => "overlay_enabled",
            Flag::OverlayMultiOrg => "overlay_multi_org",
            Flag::OverlayExitNodeEnabled => "overlay_exit_node_enabled",
            Flag::AdvertiseLocalSubnets => "advertise_local_subnets",
            Flag::AutoGrantSession => "auto_grant_session",
            Flag::EnableRemoteBrowse => "enable_remote_browse",
            Flag::ExecEnabled => "exec_enabled",
            Flag::MacosSuperviseGuiWorker => "macos_supervise_gui_worker",
            Flag::RemoteConfigEnabled => "remote_config_enabled",
            Flag::SshEnabled => "ssh_enabled",
            Flag::SshActivityLog => "ssh_activity_log",
        }
    }

    /// The flag that goes by a name.
    pub fn named(s: &str) -> (r: Option<Flag>)
        ensures
            r == flag_named(s@),
    {
        if same(s, "overlay_enabled") {
            Some(Flag::OverlayEnabled)
        } else if same(s, "overlay_multi_org") {
            Some(Flag::OverlayMultiOrg)
        } else if same(s, "overlay_exit_node_enabled") {
            Some(Flag::OverlayExitNodeEnabled)
        } else if same(s, "advertise_local_subnets") {
            Some(Flag::AdvertiseLocalSubnets)
        } else if same(s, "auto_grant_session") {
            Some(Flag::AutoGrantSession)
        } else if same(s, "enable_remote_browse") {
            Some(Flag::EnableRemoteBrowse)
        } else if same(s, "exec_enabled") {
            Some(Flag::ExecEnabled)
        } else if same(s, "macos_supervise_gui_worker") {
            Some(Flag::MacosSuperviseGuiWorker)
        } else if same(s, "remote_config_enabled") {
            Some(Flag::RemoteConfigEnabled)
        } else if same(s, "ssh_enabled") {
            Some(Flag::SshEnabled)
        } else if same(s, "ssh_activity_log") {
            Some(Flag::SshActivityLog)
        } else {
            None
        }
    }

    /// Reads the field.
    pub fn read(self, cfg: &AgentConfig) -> (r: bool)
        ensures
            r == self.get(*cfg),
    {
        match self {
            Flag::OverlayEnabled => cfg.overlay_enabled,
            Flag::OverlayMultiOrg => cfg.overlay_multi_org,
            Flag::OverlayExitNodeEnabled => cfg.overlay_exit_node_enabled,
            Flag::AdvertiseLocalSubnets => cfg.advertise_local_subnets,
            Flag::AutoGrantSession => cfg.auto_grant_session,
            Flag::EnableRemoteBrowse => cfg.enable_remote_browse,
            Flag::ExecEnabled => cfg.exec_enabled,
            Flag::MacosSuperviseGuiWorker => cfg.macos_supervise_gui_worker,
            Flag::RemoteConfigEnabled => cfg.remote_config_enabled,
            Flag::SshEnabled => cfg.ssh_enabled,
            Flag::SshActivityLog => cfg.ssh_activity_log,
        }
    }

    /// `cfg` with the field set to `v`.
    pub fn with(self, cfg: AgentConfig, v: bool) -> (r: AgentConfig)
        ensures
            r == self.put(cfg, v),
    {
        match self {
            Flag::OverlayEnabled => AgentConfig { overlay_enabled: v, ..cfg },
            Flag::OverlayMultiOrg => AgentConfig { overlay_multi_org: v, ..cfg },
            Flag::OverlayExitNodeEnabled => AgentConfig { overlay_exit_node_enabled: v, ..cfg },
            Flag::AdvertiseLocalSubnets => AgentConfig { advertise_local_subnets: v, ..cfg },
            Flag::AutoGrantSession => AgentConfig { auto_grant_session: v, ..cfg },
            Flag::EnableRemoteBrowse => AgentConfig { enable_remote_browse: v, ..cfg },
            Flag::ExecEnabled => AgentConfig { exec_enabled: v, ..cfg },
            Flag::MacosSuperviseGuiWorker => AgentConfig { macos_supervise_gui_worker: v, ..cfg },
            Flag::RemoteConfigEnabled => AgentConfig { remote_config_enabled: v, ..cfg },
            Flag::SshEnabled => AgentConfig { ssh_enabled: v, ..cfg },
            Flag::SshActivityLog => AgentConfig { ssh_activity_log: v, ..cfg },
        }
    }

    /// What the key does, in one line.
    pub open spec fn spec_description(self) -> &'static str {
        match self {
            Flag::OverlayEnabled => descriptions::OVERLAY_ENABLED,
            Flag::OverlayMultiOrg => descriptions::OVERLAY_MULTI_ORG,
            Flag::OverlayExitNodeEnabled => descriptions::OVERLAY_EXIT_NODE_ENABLED,
            Flag::AdvertiseLocalSubnets => descriptions::ADVERTISE_LOCAL_SUBNETS,
            Flag::AutoGrantSession => descriptions::AUTO_GRANT_SESSION,
            Flag::EnableRemoteBrowse => descriptions::ENABLE_REMOTE_BROWSE,
            Flag::ExecEnabled => descriptions::EXEC_ENABLED,
            Flag::MacosSuperviseGuiWorker => descriptions::MACOS_SUPERVISE_GUI_WORKER,
            Flag::RemoteConfigEnabled => descriptions::REMOTE_CONFIG_ENABLED,
            Flag::SshEnabled => descriptions::SSH_ENABLED,
            Flag::SshActivityLog => descriptions::SSH_ACTIVITY_LOG,
        }
    }

    /// What the key does, in one line.
    pub fn description(self) -> (r: &'static str)
        ensures
            r@ == self.spec_description()@,
    {
        match self {
            Flag::OverlayEnabled => descriptions::OVERLAY_ENABLED,
            Flag::OverlayMultiOrg => descriptions::OVERLAY_MULTI_ORG,
            Flag::OverlayExitNodeEnabled => descriptions::OVERLAY_EXIT_NODE_ENABLED,
            Flag::AdvertiseLocalSubnets => descriptions::ADVERTISE_LOCAL_SUBNETS,
            Flag::AutoGrantSession => descriptions::AUTO_GRANT_SESSION,
            Flag::EnableRemoteBrowse => descriptions::ENABLE_REMOTE_BROWSE,
            Flag::ExecEnabled => descriptions::EXEC_ENABLED,
            Flag::MacosSuperviseGuiWorker => descriptions::MACOS_SUPERVISE_GUI_WORKER,
            Flag::RemoteConfigEnabled => descriptions::REMOTE_CONFIG_ENABLED,
            Flag::SshEnabled => descriptions::SSH_ENABLED,
            Flag::SshActivityLog => descriptions::SSH_ACTIVITY_LOG,
        }
    }

    /// The value of a flag that nobody set.
    pub open spec fn unset(self) -> bool {
        self == Flag::AdvertiseLocalSubnets || self == Flag::AutoGrantSession || self
            == Flag::EnableRemoteBrowse
    }

    /// The value of a flag that nobody set.
    pub fn default_value(self) -> (r: bool)
        ensures
            r == self.unset(),
    {
        match self {
            Flag::AdvertiseLocalSubnets | Flag::AutoGrantSession | Flag::EnableRemoteBrowse => true,
            _ => false,
        }
    }
}

/// A tri-state switch: on, off, or unset for the built-in default.
#[derive(Debug, Clone, Copy, PartialEq, Eq, Structural)]
#[allow(missing_docs)]
pub enum Toggle {
    OverlayQuic,
    OverlayDirect,
    OverlayDerp,
    OverlayServerRelayStrategy,
    OverlayDerpFloor,
    OverlayOrgRelay,
    RelayServerEnabled,
    OverlayNetcheck,
    TunnelDerpFallback,
    TunnelPeersSurviveReattach,
    OverlayMbb,
    OverlayLanIfaceFilter,
    OverlayWslMirroredGuard,
    OverlayInitAuthFirst,
    OverlaySrflxSeek,
    WsReplacedExit,
    OverlayWarmRelay,
    OverlayQuicAsync,
    OverlayVpnVantage,
    OverlayNetd,
    OverlayRouteEvents,
    OverlayNetmon,
    SharedEncoder,
    OverlayRelayTls,
    OverlaySharedCarrier,
    OverlayRoam,
    OverlayPlaneWatchdog,
    OverlaySessionTrace,
    OverlayDiscoRespond,
    OverlayDiscoProbe,
    OverlayAnswerWhileFollowed,
    OverlayTunStableGuid,
    OverlayRouteEvict,
    OverlayRouteReclaim,
    OverlayTunPersist,
    OverlayRouteMetric0,
    OverlayRouteWin,
    LocalTurn,
    DnsAaaa,
    MagicdnsHosts,
    AutoUpdate,
    LogsUploadDisabled,
    NvencSpatialAq,
    IdleRefine,
    IdleRefineBalanced,
    GpuScale,
    OverlayLanCaptureProbe,
    RelayCeilingLearn,
    DrmCapture,
    Uinput,
    PortalCapture,
    PortalInput,
    MutterCapture,
    WindowCapture,
    X11Damage,
    OverlayKeyRotation,
    BgRebuild,
    ParConvert,
    FpsPace,
    RelayIdrThrift,
    RelayAgeFeedback,
    MeasuredCeiling,
    EncoderInplaceRate,
    IceRelayTcp,
    RateSlowStart,
    RatePriorDecay,
    TransitClassify,
    TransitHold,
    MediaThread,
    PumpStallWatch,
    BgRebuildConstrained,
    SlowLinkFloor,
    ConstrainedQueueMeasured,
    SeedContradiction,
    ViewerRateClamp,
    QueueDrain,
    SlowLinkProfile,
    AreaMinBitrate,
    PriorityResCap,
    IceWarmStandby,
    IceOverlayHostDeprioritize,
    OverlayTierDetect,
    OverlayRttQ,
    OverlayUpwardProbe,
    RelayProbe,
    TextModNeutralize,
}

/// The switch that goes by a name.
pub open spec fn toggle_named(s: Seq<char>) -> Option<Toggle> {
    if s == "overlay_quic"@ {
        Some(Toggle::OverlayQuic)
    } else if s == "overlay_direct"@ {
        Some(Toggle::OverlayDirect)
    } else if s == "overlay_derp"@ {
        Some(Toggle::OverlayDerp)
    } else if s == "overlay_server_relay_strategy"@ {
        Some(Toggle::OverlayServerRelayStrategy)
    } else if s == "overlay_derp_floor"@ {
        Some(Toggle::OverlayDerpFloor)
    } else if s == "overlay_org_relay"@ {
        Some(Toggle::OverlayOrgRelay)
    } else if s == "relay_server_enabled"@ {
        Some(Toggle::RelayServerEnabled)
    } else if s == "overlay_netcheck"@ {
        Some(Toggle::OverlayNetcheck)
    } else if s == "tunnel_derp_fallback"@ {
        Some(Toggle::TunnelDerpFallback)
    } else if s == "tunnel_peers_survive_reattach"@ {
        Some(Toggle::TunnelPeersSurviveReattach)
    } else if s == "overlay_mbb"@ {
        Some(Toggle::OverlayMbb)
    } else if s == "overlay_lan_iface_filter"@ {
        Some(Toggle::OverlayLanIfaceFilter)
    } else if s == "overlay_wsl_mirrored_guard"@ {
        Some(Toggle::OverlayWslMirroredGuard)
    } else if s == "overlay_init_auth_first"@ {
        Some(Toggle::OverlayInitAuthFirst)
    } else if s == "overlay_srflx_seek"@ {
        Some(Toggle::OverlaySrflxSeek)
    } else if s == "ws_replaced_exit"@ {
        Some(Toggle::WsReplacedExit)
    } else if s == "overlay_warm_relay"@ {
        Some(Toggle::OverlayWarmRelay)
    } else if s == "overlay_quic_async"@ {
        Some(Toggle::OverlayQuicAsync)
    } else if s == "overlay_vpn_vantage"@ {
        Some(Toggle::OverlayVpnVantage)
    } else if s == "overlay_netd"@ {
        Some(Toggle::OverlayNetd)
    } else if s == "overlay_route_events"@ {
        Some(Toggle::OverlayRouteEvents)
    } else if s == "overlay_netmon"@ {
        Some(Toggle::OverlayNetmon)
    } else if s == "shared_encoder"@ {
        Some(Toggle::SharedEncoder)
    } else if s == "overlay_relay_tls"@ {
        Some(Toggle::OverlayRelayTls)
    } else if s == "overlay_shared_carrier"@ {
        Some(Toggle::OverlaySharedCarrier)
    } else if s == "overlay_roam"@ {
        Some(Toggle::OverlayRoam)
    } else if s == "overlay_plane_watchdog"@ {
        Some(Toggle::OverlayPlaneWatchdog)
    } else if s == "overlay_session_trace"@ {
        Some(Toggle::OverlaySessionTrace)
    } else if s == "overlay_disco_respond"@ {
        Some(Toggle::OverlayDiscoRespond)
    } else if s == "overlay_disco_probe"@ {
        Some(Toggle::OverlayDiscoProbe)
    } else if s == "overlay_answer_while_followed"@ {
        Some(Toggle::OverlayAnswerWhileFollowed)
    } else if s == "overlay_tun_stable_guid"@ {
        Some(Toggle::OverlayTunStableGuid)
    } else if s == "overlay_route_evict"@ {
        Some(Toggle::OverlayRouteEvict)
    } else if s == "overlay_route_reclaim"@ {
        Some(Toggle::OverlayRouteReclaim)
    } else if s == "overlay_tun_persist"@ {
        Some(Toggle::OverlayTunPersist)
    } else if s == "overlay_route_metric0"@ {
        Some(Toggle::OverlayRouteMetric0)
    } else if s == "overlay_route_win"@ {
        Some(Toggle::OverlayRouteWin)
    } else if s == "local_turn"@ {
        Some(Toggle::LocalTurn)
    } else if s == "dns_aaaa"@ {
        Some(Toggle::DnsAaaa)
    } else if s == "magicdns_hosts"@ {
        Some(Toggle::MagicdnsHosts)
    } else if s == "auto_update"@ {
        Some(Toggle::AutoUpdate)
    } else if s == "logs_upload_disabled"@ {
        Some(Toggle::LogsUploadDisabled)
    } else if s == "nvenc_spatial_aq"@ {
        Some(Toggle::NvencSpatialAq)
    } else if s == "idle_refine"@ {
        Some(Toggle::IdleRefine)
    } else if s == "idle_refine_balanced"@ {
        Some(Toggle::IdleRefineBalanced)
    } else if s == "gpu_scale"@ {
        Some(Toggle::GpuScale)
    } else if s == "overlay_lan_capture_probe"@ {
        Some(Toggle::OverlayLanCaptureProbe)
    } else if s == "relay_ceiling_learn"@ {
        Some(Toggle::RelayCeilingLearn)
    } else if s == "drm_capture"@ {
        Some(Toggle::DrmCapture)
    } else if s == "uinput"@ {
        Some(Toggle::Uinput)
    } else if s == "portal_capture"@ {
        Some(Toggle::PortalCapture)
    } else if s == "portal_input"@ {
        Some(Toggle::PortalInput)
    } else if s == "mutter_capture"@ {
        Some(Toggle::MutterCapture)
    } else if s == "window_capture"@ {
        Some(Toggle::WindowCapture)
    } else if s == "x11_damage"@ {
        Some(Toggle::X11Damage)
    } else if s == "overlay_key_rotation"@ {
        Some(Toggle::OverlayKeyRotation)
    } else if s == "bg_rebuild"@ {
        Some(Toggle::BgRebuild)
    } else if s == "par_convert"@ {
        Some(Toggle::ParConvert)
    } else if s == "fps_pace"@ {
        Some(Toggle::FpsPace)
    } else if s == "relay_idr_thrift"@ {
        Some(Toggle::RelayIdrThrift)
    } else if s == "relay_age_feedback"@ {
        Some(Toggle::RelayAgeFeedback)
    } else if s == "measured_ceiling"@ {
        Some(Toggle::MeasuredCeiling)
    } else if s == "encoder_inplace_rate"@ {
        Some(Toggle::EncoderInplaceRate)
    } else if s == "ice_relay_tcp"@ {
        Some(Toggle::IceRelayTcp)
    } else if s == "rate_slow_start"@ {
        Some(Toggle::RateSlowStart)
    } else if s == "rate_prior_decay"@ {
        Some(Toggle::RatePriorDecay)
    } else if s == "transit_classify"@ {
        Some(Toggle::TransitClassify)
    } else if s == "transit_hold"@ {
        Some(Toggle::TransitHold)
    } else if s == "media_thread"@ {
        Some(Toggle::MediaThread)
    } else if s == "pump_stall_watch"@ {
        Some(Toggle::PumpStallWatch)
    } else if s == "bg_rebuild_constrained"@ {
        Some(Toggle::BgRebuildConstrained)
    } else if s == "slow_link_floor"@ {
        Some(Toggle::SlowLinkFloor)
    } else if s == "constrained_queue_measured"@ {
        Some(Toggle::ConstrainedQueueMeasured)
    } else if s == "seed_contradiction"@ {
        Some(Toggle::SeedContradiction)
    } else if s == "viewer_rate_clamp"@ {
        Some(Toggle::ViewerRateClamp)
    } else if s == "queue_drain"@ {
        Some(Toggle::QueueDrain)
    } else if s == "slow_link_profile"@ {
        Some(Toggle::SlowLinkProfile)
    } else if s == "area_min_bitrate"@ {
        Some(Toggle::AreaMinBitrate)
    } else if s == "priority_res_cap"@ {
        Some(Toggle::PriorityResCap)
    } else if s == "ice_warm_standby"@ {
        Some(Toggle::IceWarmStandby)
    } else if s == "ice_overlay_host_deprioritize"@ {
        Some(Toggle::IceOverlayHostDeprioritize)
    } else if s == "overlay_tier_detect"@ {
        Some(Toggle::OverlayTierDetect)
    } else if s == "overlay_rtt_q"@ {
        Some(Toggle::OverlayRttQ)
    } else if s == "overlay_upward_probe"@ {
        Some(Toggle::OverlayUpwardProbe)
    } else if s == "relay_probe"@ {
        Some(Toggle::RelayProbe)
    } else if s == "text_mod_neutralize"@ {
        Some(Toggle::TextModNeutralize)
    } else {
        None
    }
}

impl Toggle {
    /// The name of the switch.
    pub open spec fn spec_name(self) -> &'static str {
        match self {
            Toggle::OverlayQuic => "overlay_quic",
            Toggle::OverlayDirect => "overlay_direct",
            Toggle::OverlayDerp => "overlay_derp",
            Toggle::OverlayServerRelayStrategy => "overlay_server_relay_strategy",
            Toggle::OverlayDerpFloor => "overlay_derp_floor",
            Toggle::OverlayOrgRelay => "overlay_org_relay",
            Toggle::RelayServerEnabled => "relay_server_enabled",
            Toggle::OverlayNetcheck => "overlay_netcheck",
            Toggle::TunnelDerpFallback => "tunnel_derp_fallback",
            Toggle::TunnelPeersSurviveReattach => "tunnel_peers_survive_reattach",
            Toggle::OverlayMbb => "overlay_mbb",
            Toggle::OverlayLanIfaceFilter => "overlay_lan_iface_filter",
            Toggle::OverlayWslMirroredGuard => "overlay_wsl_mirrored_guard",
            Toggle::OverlayInitAuthFirst => "overlay_init_auth_first",
            Toggle::OverlaySrflxSeek => "overlay_srflx_seek",
            Toggle::WsReplacedExit => "ws_replaced_exit",
            Toggle::OverlayWarmRelay => "overlay_warm_relay",
            Toggle::OverlayQuicAsync => "overlay_quic_async",
            Toggle::OverlayVpnVantage => "overlay_vpn_vantage",
            Toggle::OverlayNetd => "overlay_netd",
            Toggle::OverlayRouteEvents => "overlay_route_events",
            Toggle::OverlayNetmon => "overlay_netmon",
            Toggle::SharedEncoder => "shared_encoder",
            Toggle::OverlayRelayTls => "overlay_relay_tls",
            Toggle::OverlaySharedCarrier => "overlay_shared_carrier",
            Toggle::OverlayRoam => "overlay_roam",
            Toggle::OverlayPlaneWatchdog => "overlay_plane_watchdog",
            Toggle::OverlaySessionTrace => "overlay_session_trace",
            Toggle::OverlayDiscoRespond => "overlay_disco_respond",
            Toggle::OverlayDiscoProbe => "overlay_disco_probe",
            Toggle::OverlayAnswerWhileFollowed => "overlay_answer_while_followed",
            Toggle::OverlayTunStableGuid => "overlay_tun_stable_guid",
            Toggle::OverlayRouteEvict => "overlay_route_evict",
            Toggle::OverlayRouteReclaim => "overlay_route_reclaim",
            Toggle::OverlayTunPersist => "overlay_tun_persist",
            Toggle::OverlayRouteMetric0 => "overlay_route_metric0",
            Toggle::OverlayRouteWin => "overlay_route_win",
            Toggle::LocalTurn => "local_turn",
            Toggle::DnsAaaa => "dns_aaaa",
            Toggle::MagicdnsHosts => "magicdns_hosts",
            Toggle::AutoUpdate => "auto_update",
            Toggle::LogsUploadDisabled => "logs_upload_disabled",
            Toggle::NvencSpatialAq => "nvenc_spatial_aq",
            Toggle::IdleRefine => "idle_refine",
            Toggle::IdleRefineBalanced => "idle_refine_balanced",
            Toggle::GpuScale => "gpu_scale",
            Toggle::OverlayLanCaptureProbe => "overlay_lan_capture_probe",
            Toggle::RelayCeilingLearn => "relay_ceiling_learn",
            Toggle::DrmCapture => "drm_capture",
            Toggle::Uinput => "uinput",
            Toggle::PortalCapture => "portal_capture",
            Toggle::PortalInput => "portal_input",
            Toggle::MutterCapture => "mutter_capture",
            Toggle::WindowCapture => "window_capture",
            Toggle::X11Damage => "x11_damage",
            Toggle::OverlayKeyRotation => "overlay_key_rotation",
            Toggle::BgRebuild => "bg_rebuild",
            Toggle::ParConvert => "par_convert",
            Toggle::FpsPace => "fps_pace",
            Toggle::RelayIdrThrift => "relay_idr_thrift",
            Toggle::RelayAgeFeedback => "relay_age_feedback",
            Toggle::MeasuredCeiling => "measured_ceiling",
            Toggle::EncoderInplaceRate => "encoder_inplace_rate",
            Toggle::IceRelayTcp => "ice_relay_tcp",
            Toggle::RateSlowStart => "rate_slow_start",
            Toggle::RatePriorDecay => "rate_prior_decay",
            Toggle::TransitClassify => "transit_classify",
            Toggle::TransitHold => "transit_hold",
            Toggle::MediaThread => "media_thread",
            Toggle::PumpStallWatch => "pump_stall_watch",
            Toggle::BgRebuildConstrained => "bg_rebuild_constrained",
            Toggle::SlowLinkFloor => "slow_link_floor",
            Toggle::ConstrainedQueueMeasured => "constrained_queue_measured",
            Toggle::SeedContradiction => "seed_contradiction",
            Toggle::ViewerRateClamp => "viewer_rate_clamp",
            Toggle::QueueDrain => "queue_drain",
            Toggle::SlowLinkProfile => "slow_link_profile",
            Toggle::AreaMinBitrate => "area_min_bitrate",
            Toggle::PriorityResCap => "priority_res_cap",
            Toggle::IceWarmStandby => "ice_warm_standby",
            Toggle::IceOverlayHostDeprioritize => "ice_overlay_host_deprioritize",
            Toggle::OverlayTierDetect => "overlay_tier_detect",
            Toggle::OverlayRttQ => "overlay_rtt_q",
            Toggle::OverlayUpwardProbe => "overlay_upward_probe",
            Toggle::RelayProbe => "relay_probe",
            Toggle::TextModNeutralize => "text_mod_neutralize",
        }
    }

    /// The field that the switch names.
    pub open spec fn get(self, cfg: AgentConfig) -> Option<bool> {
        match self {
            Toggle::OverlayQuic => cfg.overlay_quic,
            Toggle::OverlayDirect => cfg.overlay_direct,
            Toggle::OverlayDerp => cfg.overlay_derp,
            Toggle::OverlayServerRelayStrategy => cfg.overlay_server_relay_strategy,
            Toggle::OverlayDerpFloor => cfg.overlay_derp_floor,
            Toggle::OverlayOrgRelay => cfg.overlay_org_relay,
            Toggle::RelayServerEnabled => cfg.relay_server_enabled,
            Toggle::OverlayNetcheck => cfg.overlay_netcheck,
            Toggle::TunnelDerpFallback => cfg.tunnel_derp_fallback,
            Toggle::TunnelPeersSurviveReattach => cfg.tunnel_peers_survive_reattach,
            Toggle::OverlayMbb => cfg.overlay_mbb,
            Toggle::OverlayLanIfaceFilter => cfg.overlay_lan_iface_filter,
            Toggle::OverlayWslMirroredGuard => cfg.overlay_wsl_mirrored_guard,
            Toggle::OverlayInitAuthFirst => cfg.overlay_init_auth_first,
            Toggle::OverlaySrflxSeek => cfg.overlay_srflx_seek,
            Toggle::WsReplacedExit => cfg.ws_replaced_exit,
            Toggle::OverlayWarmRelay => cfg.overlay_warm_relay,
            Toggle::OverlayQuicAsync => cfg.overlay_quic_async,
            Toggle::OverlayVpnVantage => cfg.overlay_vpn_vantage,
            Toggle::OverlayNetd => cfg.overlay_netd,
            Toggle::OverlayRouteEvents => cfg.overlay_route_events,
            Toggle::OverlayNetmon => cfg.overlay_netmon,
            Toggle::SharedEncoder => cfg.shared_encoder,
            Toggle::OverlayRelayTls => cfg.overlay_relay_tls,
            Toggle::OverlaySharedCarrier => cfg.overlay_shared_carrier,
            Toggle::OverlayRoam => cfg.overlay_roam,
            Toggle::OverlayPlaneWatchdog => cfg.overlay_plane_watchdog,
            Toggle::OverlaySessionTrace => cfg.overlay_session_trace,
            Toggle::OverlayDiscoRespond => cfg.overlay_disco_respond,
            Toggle::OverlayDiscoProbe => cfg.overlay_disco_probe,
            Toggle::OverlayAnswerWhileFollowed => cfg.overlay_answer_while_followed,
            Toggle::OverlayTunStableGuid => cfg.overlay_tun_stable_guid,
            Toggle::OverlayRouteEvict => cfg.overlay_route_evict,
            Toggle::OverlayRouteReclaim => cfg.overlay_route_reclaim,
            Toggle::OverlayTunPersist => cfg.overlay_tun_persist,
            Toggle::OverlayRouteMetric0 => cfg.overlay_route_metric0,
            Toggle::OverlayRouteWin => cfg.overlay_route_win,
            Toggle::LocalTurn => cfg.local_turn,
            Toggle::DnsAaaa => cfg.dns_aaaa,
            Toggle::MagicdnsHosts => cfg.magicdns_hosts,
            Toggle::AutoUpdate => cfg.auto_update,
            Toggle::LogsUploadDisabled => cfg.logs_upload_disabled,
            Toggle::NvencSpatialAq => cfg.nvenc_spatial_aq,
            Toggle::IdleRefine => cfg.idle_refine,
            Toggle::IdleRefineBalanced => cfg.idle_refine_balanced,
            Toggle::GpuScale => cfg.gpu_scale,
            Toggle::OverlayLanCaptureProbe => cfg.overlay_lan_capture_probe,
            Toggle::RelayCeilingLearn => cfg.relay_ceiling_learn,
            Toggle::DrmCapture => cfg.drm_capture,
            Toggle::Uinput => cfg.uinput,
            Toggle::PortalCapture => cfg.portal_capture,
            Toggle::PortalInput => cfg.portal_input,
            Toggle::MutterCapture => cfg.mutter_capture,
            Toggle::WindowCapture => cfg.window_capture,
            Toggle::X11Damage => cfg.x11_damage,
            Toggle::OverlayKeyRotation => cfg.overlay_key_rotation,
            Toggle::BgRebuild => cfg.bg_rebuild,
            Toggle::ParConvert => cfg.par_convert,
            Toggle::FpsPace => cfg.fps_pace,
            Toggle::RelayIdrThrift => cfg.relay_idr_thrift,
            Toggle::RelayAgeFeedback => cfg.relay_age_feedback,
            Toggle::MeasuredCeiling => cfg.measured_ceiling,
            Toggle::EncoderInplaceRate => cfg.encoder_inplace_rate,
            Toggle::IceRelayTcp => cfg.ice_relay_tcp,
            Toggle::RateSlowStart => cfg.rate_slow_start,
            Toggle::RatePriorDecay => cfg.rate_prior_decay,
            Toggle::TransitClassify => cfg.transit_classify,
            Toggle::TransitHold => cfg.transit_hold,
            Toggle::MediaThread => cfg.media_thread,
            Toggle::PumpStallWatch => cfg.pump_stall_watch,
            Toggle::BgRebuildConstrained => cfg.bg_rebuild_constrained,
            Toggle::SlowLinkFloor => cfg.slow_link_floor,
            Toggle::ConstrainedQueueMeasured => cfg.constrained_queue_measured,
            Toggle::SeedContradiction => cfg.seed_contradiction,
            Toggle::ViewerRateClamp => cfg.viewer_rate_clamp,
            Toggle::QueueDrain => cfg.queue_drain,
            Toggle::SlowLinkProfile => cfg.slow_link_profile,
            Toggle::AreaMinBitrate => cfg.area_min_bitrate,
            Toggle::PriorityResCap => cfg.priority_res_cap,
            Toggle::IceWarmStandby => cfg.ice_warm_standby,
            Toggle::IceOverlayHostDeprioritize => cfg.ice_overlay_host_deprioritize,
            Toggle::OverlayTierDetect => cfg.overlay_tier_detect,
            Toggle::OverlayRttQ => cfg.overlay_rtt_q,
            Toggle::OverlayUpwardProbe => cfg.overlay_upward_probe,
            Toggle::RelayProbe => cfg.relay_probe,
            Toggle::TextModNeutralize => cfg.text_mod_neutralize,
        }
    }

    /// `cfg` with the field that the switch names set to `v`, and nothing else changed.
    pub open spec fn put(self, cfg: AgentConfig, v: Option<bool>) -> AgentConfig {
        match self {
            Toggle::OverlayQuic => AgentConfig { overlay_quic: v, ..cfg },
            Toggle::OverlayDirect => AgentConfig { overlay_direct: v, ..cfg },
            Toggle::OverlayDerp => AgentConfig { overlay_derp: v, ..cfg },
            Toggle::OverlayServerRelayStrategy => AgentConfig { overlay_server_relay_strategy: v, ..cfg },
            Toggle::OverlayDerpFloor => AgentConfig { overlay_derp_floor: v, ..cfg },
            Toggle::OverlayOrgRelay => AgentConfig { overlay_org_relay: v, ..cfg },
            Toggle::RelayServerEnabled => AgentConfig { relay_server_enabled: v, ..cfg },
            Toggle::OverlayNetcheck => AgentConfig { overlay_netcheck: v, ..cfg },
            Toggle::TunnelDerpFallback => AgentConfig { tunnel_derp_fallback: v, ..cfg },
            Toggle::TunnelPeersSurviveReattach => AgentConfig { tunnel_peers_survive_reattach: v, ..cfg },
            Toggle::OverlayMbb => AgentConfig { overlay_mbb: v, ..cfg },
            Toggle::OverlayLanIfaceFilter => AgentConfig { overlay_lan_iface_filter: v, ..cfg },
            Toggle::OverlayWslMirroredGuard => AgentConfig { overlay_wsl_mirrored_guard: v, ..cfg },
            Toggle::OverlayInitAuthFirst => AgentConfig { overlay_init_auth_first: v, ..cfg },
            Toggle::OverlaySrflxSeek => AgentConfig { overlay_srflx_seek: v, ..cfg },
            Toggle::WsReplacedExit => AgentConfig { ws_replaced_exit: v, ..cfg },
            Toggle::OverlayWarmRelay => AgentConfig { overlay_warm_relay: v, ..cfg },
            Toggle::OverlayQuicAsync => AgentConfig { overlay_quic_async: v, ..cfg },
            Toggle::OverlayVpnVantage => AgentConfig { overlay_vpn_vantage: v, ..cfg },
            Toggle::OverlayNetd => AgentConfig { overlay_netd: v, ..cfg },
            Toggle::OverlayRouteEvents => AgentConfig { overlay_route_events: v, ..cfg },
            Toggle::OverlayNetmon => AgentConfig { overlay_netmon: v, ..cfg },
            Toggle::SharedEncoder => AgentConfig { shared_encoder: v, ..cfg },
            Toggle::OverlayRelayTls => AgentConfig { overlay_relay_tls: v, ..cfg },
            Toggle::OverlaySharedCarrier => AgentConfig { overlay_shared_carrier: v, ..cfg },
            Toggle::OverlayRoam => AgentConfig { overlay_roam: v, ..cfg },
            Toggle::OverlayPlaneWatchdog => AgentConfig { overlay_plane_watchdog: v, ..cfg },
            Toggle::OverlaySessionTrace => AgentConfig { overlay_session_trace: v, ..cfg },
            Toggle::OverlayDiscoRespond => AgentConfig { overlay_disco_respond: v, ..cfg },
            Toggle::OverlayDiscoProbe => AgentConfig { overlay_disco_probe: v, ..cfg },
            Toggle::OverlayAnswerWhileFollowed => AgentConfig { overlay_answer_while_followed: v, ..cfg },
            Toggle::OverlayTunStableGuid => AgentConfig { overlay_tun_stable_guid: v, ..cfg },
            Toggle::OverlayRouteEvict => AgentConfig { overlay_route_evict: v, ..cfg },
            Toggle::OverlayRouteReclaim => AgentConfig { overlay_route_reclaim: v, ..cfg },
            Toggle::OverlayTunPersist => AgentConfig { overlay_tun_persist: v, ..cfg },
            Toggle::OverlayRouteMetric0 => AgentConfig { overlay_route_metric0: v, ..cfg },
            Toggle::OverlayRouteWin => AgentConfig { overlay_route_win: v, ..cfg },
            Toggle::LocalTurn => AgentConfig { local_turn: v, ..cfg },
            Toggle::DnsAaaa => AgentConfig { dns_aaaa: v, ..cfg },
            Toggle::MagicdnsHosts => AgentConfig { magicdns_hosts: v, ..cfg },
            Toggle::AutoUpdate => AgentConfig { auto_update: v, ..cfg },
            Toggle::LogsUploadDisabled => AgentConfig { logs_upload_disabled: v, ..cfg },
            Toggle::NvencSpatialAq => AgentConfig { nvenc_spatial_aq: v, ..cfg },
            Toggle::IdleRefine => AgentConfig { idle_refine: v, ..cfg },
            Toggle::IdleRefineBalanced => AgentConfig { idle_refine_balanced: v, ..cfg },
            Toggle::GpuScale => AgentConfig { gpu_scale: v, ..cfg },
            Toggle::OverlayLanCaptureProbe => AgentConfig { overlay_lan_capture_probe: v, ..cfg },
            Toggle::RelayCeilingLearn => AgentConfig { relay_ceiling_learn: v, ..cfg },
            Toggle::DrmCapture => AgentConfig { drm_capture: v, ..cfg },
            Toggle::Uinput => AgentConfig { uinput: v, ..cfg },
            Toggle::PortalCapture => AgentConfig { portal_capture: v, ..cfg },
            Toggle::PortalInput => AgentConfig { portal_input: v, ..cfg },
            Toggle::MutterCapture => AgentConfig { mutter_capture: v, ..cfg },
            Toggle::WindowCapture => AgentConfig { window_capture: v, ..cfg },
            Toggle::X11Damage => AgentConfig { x11_damage: v, ..cfg },
            Toggle::OverlayKeyRotation => AgentConfig { overlay_key_rotation: v, ..cfg },
            Toggle::BgRebuild => AgentConfig { bg_rebuild: v, ..cfg },
            Toggle::ParConvert => AgentConfig { par_convert: v, ..cfg },
            Toggle::FpsPace => AgentConfig { fps_pace: v, ..cfg },
            Toggle::RelayIdrThrift => AgentConfig { relay_idr_thrift: v, ..cfg },
            Toggle::RelayAgeFeedback => AgentConfig { relay_age_feedback: v, ..cfg },
            Toggle::MeasuredCeiling => AgentConfig { measured_ceiling: v, ..cfg },
            Toggle::EncoderInplaceRate => AgentConfig { encoder_inplace_rate: v, ..cfg },
            Toggle::IceRelayTcp => AgentConfig { ice_relay_tcp: v, ..cfg },
            Toggle::RateSlowStart => AgentConfig { rate_slow_start: v, ..cfg },
            Toggle::RatePriorDecay => AgentConfig { rate_prior_decay: v, ..cfg },
            Toggle::TransitClassify => AgentConfig { transit_classify: v, ..cfg },
            Toggle::TransitHold => AgentConfig { transit_hold: v, ..cfg },
            Toggle::MediaThread => AgentConfig { media_thread: v, ..cfg },
            Toggle::PumpStallWatch => AgentConfig { pump_stall_watch: v, ..cfg },
            Toggle::BgRebuildConstrained => AgentConfig { bg_rebuild_constrained: v, ..cfg },
            Toggle::SlowLinkFloor => AgentConfig { slow_link_floor: v, ..cfg },
            Toggle::ConstrainedQueueMeasured => AgentConfig { constrained_queue_measured: v, ..cfg },
            Toggle::SeedContradiction => AgentConfig { seed_contradiction: v, ..cfg },
            Toggle::ViewerRateClamp => AgentConfig { viewer_rate_clamp: v, ..cfg },
            Toggle::QueueDrain => AgentConfig { queue_drain: v, ..cfg },
            Toggle::SlowLinkProfile => AgentConfig { slow_link_profile: v, ..cfg },
            Toggle::AreaMinBitrate => AgentConfig { area_min_bitrate: v, ..cfg },
            Toggle::PriorityResCap => AgentConfig { priority_res_cap: v, ..cfg },
            Toggle::IceWarmStandby => AgentConfig { ice_warm_standby: v, ..cfg },
            Toggle::IceOverlayHostDeprioritize => AgentConfig { ice_overlay_host_deprioritize: v, ..cfg },
            Toggle::OverlayTierDetect => AgentConfig { overlay_tier_detect: v, ..cfg },
            Toggle::OverlayRttQ => AgentConfig { overlay_rtt_q: v, ..cfg },
            Toggle::OverlayUpwardProbe => AgentConfig { overlay_upward_probe: v, ..cfg },
            Toggle::RelayProbe => AgentConfig { relay_probe: v, ..cfg },
            Toggle::TextModNeutralize => AgentConfig { text_mod_neutralize: v, ..cfg },
        }
    }

    /// The name of the switch.
    pub fn name(self) -> (r: &'static str)
        ensures
            r@ == self.spec_name()@,
    {
        match self {
            Toggle::OverlayQuic => "overlay_quic",
            Toggle::OverlayDirect => "overlay_direct",
            Toggle::OverlayDerp => "overlay_derp",
            Toggle::OverlayServerRelayStrategy => "overlay_server_relay_strategy",
            Toggle::OverlayDerpFloor => "overlay_derp_floor",
            Toggle::OverlayOrgRelay => "overlay_org_relay",
            Toggle::RelayServerEnabled => "relay_server_enabled",
            Toggle::OverlayNetcheck => "overlay_netcheck",
            Toggle::TunnelDerpFallback => "tunnel_derp_fallback",
            Toggle::TunnelPeersSurviveReattach => "tunnel_peers_survive_reattach",
            Toggle::OverlayMbb => "overlay_mbb",
            Toggle::OverlayLanIfaceFilter => "overlay_lan_iface_filter",
            Toggle::OverlayWslMirroredGuard => "overlay_wsl_mirrored_guard",
            Toggle::OverlayInitAuthFirst => "overlay_init_auth_first",
            Toggle::OverlaySrflxSeek => "overlay_srflx_seek",
            Toggle::WsReplacedExit => "ws_replaced_exit",
            Toggle::OverlayWarmRelay => "overlay_warm_relay",
            Toggle::OverlayQuicAsync => "overlay_quic_async",
            Toggle::OverlayVpnVantage => "overlay_vpn_vantage",
            Toggle::OverlayNetd => "overlay_netd",
            Toggle::OverlayRouteEvents => "overlay_route_events",
            Toggle::OverlayNetmon => "overlay_netmon",
            Toggle::SharedEncoder => "shared_encoder",
            Toggle::OverlayRelayTls => "overlay_relay_tls",
            Toggle::OverlaySharedCarrier => "overlay_shared_carrier",
            Toggle::OverlayRoam => "overlay_roam",
            Toggle::OverlayPlaneWatchdog => "overlay_plane_watchdog",
            Toggle::OverlaySessionTrace => "overlay_session_trace",
            Toggle::OverlayDiscoRespond => "overlay_disco_respond",
            Toggle::OverlayDiscoProbe => "overlay_disco_probe",
            Toggle::OverlayAnswerWhileFollowed => "overlay_answer_while_followed",
            Toggle::OverlayTunStableGuid => "overlay_tun_stable_guid",
            Toggle::OverlayRouteEvict => "overlay_route_evict",
            Toggle::OverlayRouteReclaim => "overlay_route_reclaim",
            Toggle::OverlayTunPersist => "overlay_tun_persist",
            Toggle::OverlayRouteMetric0 => "overlay_route_metric0",
            Toggle::OverlayRouteWin => "overlay_route_win",
            Toggle::LocalTurn => "local_turn",
            Toggle::DnsAaaa => "dns_aaaa",
            Toggle::MagicdnsHosts => "magicdns_hosts",
            Toggle::AutoUpdate => "auto_update",
            Toggle::LogsUploadDisabled => "logs_upload_disabled",
            Toggle::NvencSpatialAq => "nvenc_spatial_aq",
            Toggle::IdleRefine => "idle_refine",
            Toggle::IdleRefineBalanced => "idle_refine_balanced",
            Toggle::GpuScale => "gpu_scale",
            Toggle::OverlayLanCaptureProbe => "overlay_lan_capture_probe",
            Toggle::RelayCeilingLearn => "relay_ceiling_learn",
            Toggle::DrmCapture => "drm_capture",
            Toggle::Uinput => "uinput",
            Toggle::PortalCapture => "portal_capture",
            Toggle::PortalInput => "portal_input",
            Toggle::MutterCapture => "mutter_capture",
            Toggle::WindowCapture => "window_capture",
            Toggle::X11Damage => "x11_damage",
            Toggle::OverlayKeyRotation => "overlay_key_rotation",
            Toggle::BgRebuild => "bg_rebuild",
            Toggle::ParConvert => "par_convert",
            Toggle::FpsPace => "fps_pace",
            Toggle::RelayIdrThrift => "relay_idr_thrift",
            Toggle::RelayAgeFeedback => "relay_age_feedback",
            Toggle::MeasuredCeiling => "measured_ceiling",
            Toggle::EncoderInplaceRate => "encoder_inplace_rate",
            Toggle::IceRelayTcp => "ice_relay_tcp",
            Toggle::RateSlowStart => "rate_slow_start",
            Toggle::RatePriorDecay => "rate_prior_decay",
            Toggle::TransitClassify => "transit_classify",
            Toggle::TransitHold => "transit_hold",
            Toggle::MediaThread => "media_thread",
            Toggle::PumpStallWatch => "pump_stall_watch",
            Toggle::BgRebuildConstrained => "bg_rebuild_constrained",
            Toggle::SlowLinkFloor => "slow_link_floor",
            Toggle::ConstrainedQueueMeasured => "constrained_queue_measured",
            Toggle::SeedContradiction => "seed_contradiction",
            Toggle::ViewerRateClamp => "viewer_rate_clamp",
            Toggle::QueueDrain => "queue_drain",
            Toggle::SlowLinkProfile => "slow_link_profile",
            Toggle::AreaMinBitrate => "area_min_bitrate",
            Toggle::PriorityResCap => "priority_res_cap",
            Toggle::IceWarmStandby => "ice_warm_standby",
            Toggle::IceOverlayHostDeprioritize => "ice_overlay_host_deprioritize",
            Toggle::OverlayTierDetect => "overlay_tier_detect",
            Toggle::OverlayRttQ => "overlay_rtt_q",
            Toggle::OverlayUpwardProbe => "overlay_upward_probe",
            Toggle::RelayProbe => "relay_probe",
            Toggle::TextModNeutralize => "text_mod_neutralize",
        }
    }

    /// The switch that goes by a name.
    pub fn named(s: &str) -> (r: Option<Toggle>)
        ensures
            r == toggle_named(s@),
    {
        if same(s, "overlay_quic") {
            Some(Toggle::OverlayQuic)
        } else if same(s, "overlay_direct") {
            Some(Toggle::OverlayDirect)
        } else if same(s, "overlay_derp") {
            Some(Toggle::OverlayDerp)
        } else if same(s, "overlay_server_relay_strategy") {
            Some(Toggle::OverlayServerRelayStrategy)
        } else if same(s, "overlay_derp_floor") {
            Some(Toggle::OverlayDerpFloor)
        } else if same(s, "overlay_org_relay") {
            Some(Toggle::OverlayOrgRelay)
        } else if same(s, "relay_server_enabled") {
            Some(Toggle::RelayServerEnabled)
        } else if same(s, "overlay_netcheck") {
            Some(Toggle::OverlayNetcheck)
        } else if same(s, "tunnel_derp_fallback") {
            Some(Toggle::TunnelDerpFallback)
        } else if same(s, "tunnel_peers_survive_reattach") {
            Some(Toggle::TunnelPeersSurviveReattach)
        } else if same(s, "overlay_mbb") {
            Some(Toggle::OverlayMbb)
        } else if same(s, "overlay_lan_iface_filter") {
            Some(Toggle::OverlayLanIfaceFilter)
        } else if same(s, "overlay_wsl_mirrored_guard") {
            Some(Toggle::OverlayWslMirroredGuard)
        } else if same(s, "overlay_init_auth_first") {
            Some(Toggle::OverlayInitAuthFirst)
        } else if same(s, "overlay_srflx_seek") {
            Some(Toggle::OverlaySrflxSeek)
        } else if same(s, "ws_replaced_exit") {
            Some(Toggle::WsReplacedExit)
        } else if same(s, "overlay_warm_relay") {
            Some(Toggle::OverlayWarmRelay)
        } else if same(s, "overlay_quic_async") {
            Some(Toggle::OverlayQuicAsync)
        } else if same(s, "overlay_vpn_vantage") {
            Some(Toggle::OverlayVpnVantage)
        } else if same(s, "overlay_netd") {
            Some(Toggle::OverlayNetd)
        } else if same(s, "overlay_route_events") {
            Some(Toggle::OverlayRouteEvents)
        } else if same(s, "overlay_netmon") {
            Some(Toggle::OverlayNetmon)
        } else if same(s, "shared_encoder") {
            Some(Toggle::SharedEncoder)
        } else if same(s, "overlay_relay_tls") {
            Some(Toggle::OverlayRelayTls)
        } else if same(s, "overlay_shared_carrier") {
            Some(Toggle::OverlaySharedCarrier)
        } else if same(s, "overlay_roam") {
            Some(Toggle::OverlayRoam)
        } else if same(s, "overlay_plane_watchdog") {
            Some(Toggle::OverlayPlaneWatchdog)
        } else if same(s, "overlay_session_trace") {
            Some(Toggle::OverlaySessionTrace)
        } else if same(s, "overlay_disco_respond") {
            Some(Toggle::OverlayDiscoRespond)
        } else if same(s, "overlay_disco_probe") {
            Some(Toggle::OverlayDiscoProbe)
        } else if same(s, "overlay_answer_while_followed") {
            Some(Toggle::OverlayAnswerWhileFollowed)
        } else if same(s, "overlay_tun_stable_guid") {
            Some(Toggle::OverlayTunStableGuid)
        } else if same(s, "overlay_route_evict") {
            Some(Toggle::OverlayRouteEvict)
        } else if same(s, "overlay_route_reclaim") {
            Some(Toggle::OverlayRouteReclaim)
        } else if same(s, "overlay_tun_persist") {
            Some(Toggle::OverlayTunPersist)
        } else if same(s, "overlay_route_metric0") {
            Some(Toggle::OverlayRouteMetric0)
        } else if same(s, "overlay_route_win") {
            Some(Toggle::OverlayRouteWin)
        } else if same(s, "local_turn") {
            Some(Toggle::LocalTurn)
        } else if same(s, "dns_aaaa") {
            Some(Toggle::DnsAaaa)
        } else if same(s, "magicdns_hosts") {
            Some(Toggle::MagicdnsHosts)
        } else if same(s, "auto_update") {
            Some(Toggle::AutoUpdate)
        } else if same(s, "logs_upload_disabled") {
            Some(Toggle::LogsUploadDisabled)
        } else if same(s, "nvenc_spatial_aq") {
            Some(Toggle::NvencSpatialAq)
        } else if same(s, "idle_refine") {
            Some(Toggle::IdleRefine)
        } else if same(s, "idle_refine_balanced") {
            Some(Toggle::IdleRefineBalanced)
        } else if same(s, "gpu_scale") {
            Some(Toggle::GpuScale)
        } else if same(s, "overlay_lan_capture_probe") {
            Some(Toggle::OverlayLanCaptureProbe)
        } else if same(s, "relay_ceiling_learn") {
            Some(Toggle::RelayCeilingLearn)
        } else if same(s, "drm_capture") {
            Some(Toggle::DrmCapture)
        } else if same(s, "uinput") {
            Some(Toggle::Uinput)
        } else if same(s, "portal_capture") {
            Some(Toggle::PortalCapture)
        } else if same(s, "portal_input") {
            Some(Toggle::PortalInput)
        } else if same(s, "mutter_capture") {
            Some(Toggle::MutterCapture)
        } else if same(s, "window_capture") {
            Some(Toggle::WindowCapture)
        } else if same(s, "x11_damage") {
            Some(Toggle::X11Damage)
        } else if same(s, "overlay_key_rotation") {
            Some(Toggle::OverlayKeyRotation)
        } else if same(s, "bg_rebuild") {
            Some(Toggle::BgRebuild)
        } else if same(s, "par_convert") {
            Some(Toggle::ParConvert)
        } else if same(s, "fps_pace") {
            Some(Toggle::FpsPace)
        } else if same(s, "relay_idr_thrift") {
            Some(Toggle::RelayIdrThrift)
        } else if same(s, "relay_age_feedback") {
            Some(Toggle::RelayAgeFeedback)
        } else if same(s, "measured_ceiling") {
            Some(Toggle::MeasuredCeiling)
        } else if same(s, "encoder_inplace_rate") {
            Some(Toggle::EncoderInplaceRate)
        } else if same(s, "ice_relay_tcp") {
            Some(Toggle::IceRelayTcp)
        } else if same(s, "rate_slow_start") {
            Some(Toggle::RateSlowStart)
        } else if same(s, "rate_prior_decay") {
            Some(Toggle::RatePriorDecay)
        } else if same(s, "transit_classify") {
            Some(Toggle::TransitClassify)
        } else if same(s, "transit_hold") {
            Some(Toggle::TransitHold)
        } else if same(s, "media_thread") {
            Some(Toggle::MediaThread)
        } else if same(s, "pump_stall_watch") {
            Some(Toggle::PumpStallWatch)
        } else if same(s, "bg_rebuild_constrained") {
            Some(Toggle::BgRebuildConstrained)
        } else if same(s, "slow_link_floor") {
            Some(Toggle::SlowLinkFloor)
        } else if same(s, "constrained_queue_measured") {
            Some(Toggle::ConstrainedQueueMeasured)
        } else if same(s, "seed_contradiction") {
            Some(Toggle::SeedContradiction)
        } else if same(s, "viewer_rate_clamp") {
            Some(Toggle::ViewerRateClamp)
        } else if same(s, "queue_drain") {
            Some(Toggle::QueueDrain)
        } else if same(s, "slow_link_profile") {
            Some(Toggle::SlowLinkProfile)
        } else if same(s, "area_min_bitrate") {
            Some(Toggle::AreaMinBitrate)
        } else if same(s, "priority_res_cap") {
            Some(Toggle::PriorityResCap)
        } else if same(s, "ice_warm_standby") {
            Some(Toggle::IceWarmStandby)
        } else if same(s, "ice_overlay_host_deprioritize") {
            Some(Toggle::IceOverlayHostDeprioritize)
        } else if same(s, "overlay_tier_detect") {
            Some(Toggle::OverlayTierDetect)
        } else if same(s, "overlay_rtt_q") {
            Some(Toggle::OverlayRttQ)
        } else if same(s, "overlay_upward_probe") {
            Some(Toggle::OverlayUpwardProbe)
        } else if same(s, "relay_probe") {
            Some(Toggle::RelayProbe)
        } else if same(s, "text_mod_neutralize") {
            Some(Toggle::TextModNeutralize)
        } else {
            None
        }
    }

    /// Reads the field.
    pub fn read(self, cfg: &AgentConfig) -> (r: Option<bool>)
        ensures
            r == self.get(*cfg),
    {
        match self {
            Toggle::OverlayQuic => cfg.overlay_quic,
            Toggle::OverlayDirect => cfg.overlay_direct,
            Toggle::OverlayDerp => cfg.overlay_derp,
            Toggle::OverlayServerRelayStrategy => cfg.overlay_server_relay_strategy,
            Toggle::OverlayDerpFloor => cfg.overlay_derp_floor,
            Toggle::OverlayOrgRelay => cfg.overlay_org_relay,
            Toggle::RelayServerEnabled => cfg.relay_server_enabled,
            Toggle::OverlayNetcheck => cfg.overlay_netcheck,
            Toggle::TunnelDerpFallback => cfg.tunnel_derp_fallback,
            Toggle::TunnelPeersSurviveReattach => cfg.tunnel_peers_survive_reattach,
            Toggle::OverlayMbb => cfg.overlay_mbb,
            Toggle::OverlayLanIfaceFilter => cfg.overlay_lan_iface_filter,
            Toggle::OverlayWslMirroredGuard => cfg.overlay_wsl_mirrored_guard,
            Toggle::OverlayInitAuthFirst => cfg.overlay_init_auth_first,
            Toggle::OverlaySrflxSeek => cfg.overlay_srflx_seek,
            Toggle::WsReplacedExit => cfg.ws_replaced_exit,
            Toggle::OverlayWarmRelay => cfg.overlay_warm_relay,
            Toggle::OverlayQuicAsync => cfg.overlay_quic_async,
            Toggle::OverlayVpnVantage => cfg.overlay_vpn_vantage,
            Toggle::OverlayNetd => cfg.overlay_netd,
            Toggle::OverlayRouteEvents => cfg.overlay_route_events,
            Toggle::OverlayNetmon => cfg.overlay_netmon,
            Toggle::SharedEncoder => cfg.shared_encoder,
            Toggle::OverlayRelayTls => cfg.overlay_relay_tls,
            Toggle::OverlaySharedCarrier => cfg.overlay_shared_carrier,
            Toggle::OverlayRoam => cfg.overlay_roam,
            Toggle::OverlayPlaneWatchdog => cfg.overlay_plane_watchdog,
            Toggle::OverlaySessionTrace => cfg.overlay_session_trace,
            Toggle::OverlayDiscoRespond => cfg.overlay_disco_respond,
            Toggle::OverlayDiscoProbe => cfg.overlay_disco_probe,
            Toggle::OverlayAnswerWhileFollowed => cfg.overlay_answer_while_followed,
            Toggle::OverlayTunStableGuid => cfg.overlay_tun_stable_guid,
            Toggle::OverlayRouteEvict => cfg.overlay_route_evict,
            Toggle::OverlayRouteReclaim => cfg.overlay_route_reclaim,
            Toggle::OverlayTunPersist => cfg.overlay_tun_persist,
            Toggle::OverlayRouteMetric0 => cfg.overlay_route_metric0,
            Toggle::OverlayRouteWin => cfg.overlay_route_win,
            Toggle::LocalTurn => cfg.local_turn,
            Toggle::DnsAaaa => cfg.dns_aaaa,
            Toggle::MagicdnsHosts => cfg.magicdns_hosts,
            Toggle::AutoUpdate => cfg.auto_update,
            Toggle::LogsUploadDisabled => cfg.logs_upload_disabled,
            Toggle::NvencSpatialAq => cfg.nvenc_spatial_aq,
            Toggle::IdleRefine => cfg.idle_refine,
            Toggle::IdleRefineBalanced => cfg.idle_refine_balanced,
            Toggle::GpuScale => cfg.gpu_scale,
            Toggle::OverlayLanCaptureProbe => cfg.overlay_lan_capture_probe,
            Toggle::RelayCeilingLearn => cfg.relay_ceiling_learn,
            Toggle::DrmCapture => cfg.drm_capture,
            Toggle::Uinput => cfg.uinput,
            Toggle::PortalCapture => cfg.portal_capture,
            Toggle::PortalInput => cfg.portal_input,
            Toggle::MutterCapture => cfg.mutter_capture,
            Toggle::WindowCapture => cfg.window_capture,
            Toggle::X11Damage => cfg.x11_damage,
            Toggle::OverlayKeyRotation => cfg.overlay_key_rotation,
            Toggle::BgRebuild => cfg.bg_rebuild,
            Toggle::ParConvert => cfg.par_convert,
            Toggle::FpsPace => cfg.fps_pace,
            Toggle::RelayIdrThrift => cfg.relay_idr_thrift,
            Toggle::RelayAgeFeedback => cfg.relay_age_feedback,
            Toggle::MeasuredCeiling => cfg.measured_ceiling,
            Toggle::EncoderInplaceRate => cfg.encoder_inplace_rate,
            Toggle::IceRelayTcp => cfg.ice_relay_tcp,
            Toggle::RateSlowStart => cfg.rate_slow_start,
            Toggle::RatePriorDecay => cfg.rate_prior_decay,
            Toggle::TransitClassify => cfg.transit_classify,
            Toggle::TransitHold => cfg.transit_hold,
            Toggle::MediaThread => cfg.media_thread,
            Toggle::PumpStallWatch => cfg.pump_stall_watch,
            Toggle::BgRebuildConstrained => cfg.bg_rebuild_constrained,
            Toggle::SlowLinkFloor => cfg.slow_link_floor,
            Toggle::ConstrainedQueueMeasured => cfg.constrained_queue_measured,
            Toggle::SeedContradiction => cfg.seed_contradiction,
            Toggle::ViewerRateClamp => cfg.viewer_rate_clamp,
            Toggle::QueueDrain => cfg.queue_drain,
            Toggle::SlowLinkProfile => cfg.slow_link_profile,
            Toggle::AreaMinBitrate => cfg.area_min_bitrate,
            Toggle::PriorityResCap => cfg.priority_res_cap,
            Toggle::IceWarmStandby => cfg.ice_warm_standby,
            Toggle::IceOverlayHostDeprioritize => cfg.ice_overlay_host_deprioritize,
            Toggle::OverlayTierDetect => cfg.overlay_tier_detect,
            Toggle::OverlayRttQ => cfg.overlay_rtt_q,
            Toggle::OverlayUpwardProbe => cfg.overlay_upward_probe,
            Toggle::RelayProbe => cfg.relay_probe,
            Toggle::TextModNeutralize => cfg.text_mod_neutralize,
        }
    }

    /// `cfg` with the field set to `v`.
    pub fn with(self, cfg: AgentConfig, v: Option<bool>) -> (r: AgentConfig)
        ensures
            r == self.put(cfg, v),
    {
        match self {
            Toggle::OverlayQuic => AgentConfig { overlay_quic: v, ..cfg },
            Toggle::OverlayDirect => AgentConfig { overlay_direct: v, ..cfg },
            Toggle::OverlayDerp => AgentConfig { overlay_derp: v, ..cfg },
            Toggle::OverlayServerRelayStrategy => AgentConfig { overlay_server_relay_strategy: v, ..cfg },
            Toggle::OverlayDerpFloor => AgentConfig { overlay_derp_floor: v, ..cfg },
            Toggle::OverlayOrgRelay => AgentConfig { overlay_org_relay: v, ..cfg },
            Toggle::RelayServerEnabled => AgentConfig { relay_server_enabled: v, ..cfg },
            Toggle::OverlayNetcheck => AgentConfig { overlay_netcheck: v, ..cfg },
            Toggle::TunnelDerpFallback => AgentConfig { tunnel_derp_fallback: v, ..cfg },
            Toggle::TunnelPeersSurviveReattach => AgentConfig { tunnel_peers_survive_reattach: v, ..cfg },
            Toggle::OverlayMbb => AgentConfig { overlay_mbb: v, ..cfg },
            Toggle::OverlayLanIfaceFilter => AgentConfig { overlay_lan_iface_filter: v, ..cfg },
            Toggle::OverlayWslMirroredGuard => AgentConfig { overlay_wsl_mirrored_guard: v, ..cfg },
            Toggle::OverlayInitAuthFirst => AgentConfig { overlay_init_auth_first: v, ..cfg },
            Toggle::OverlaySrflxSeek => AgentConfig { overlay_srflx_seek: v, ..cfg },
            Toggle::WsReplacedExit => AgentConfig { ws_replaced_exit: v, ..cfg },
            Toggle::OverlayWarmRelay => AgentConfig { overlay_warm_relay: v, ..cfg },
            Toggle::OverlayQuicAsync => AgentConfig { overlay_quic_async: v, ..cfg },
            Toggle::OverlayVpnVantage => AgentConfig { overlay_vpn_vantage: v, ..cfg },
            Toggle::OverlayNetd => AgentConfig { overlay_netd: v, ..cfg },
            Toggle::OverlayRouteEvents => AgentConfig { overlay_route_events: v, ..cfg },
            Toggle::OverlayNetmon => AgentConfig { overlay_netmon: v, ..cfg },
            Toggle::SharedEncoder => AgentConfig { shared_encoder: v, ..cfg },
            Toggle::OverlayRelayTls => AgentConfig { overlay_relay_tls: v, ..cfg },
            Toggle::OverlaySharedCarrier => AgentConfig { overlay_shared_carrier: v, ..cfg },
            Toggle::OverlayRoam => AgentConfig { overlay_roam: v, ..cfg },
            Toggle::OverlayPlaneWatchdog => AgentConfig { overlay_plane_watchdog: v, ..cfg },
            Toggle::OverlaySessionTrace => AgentConfig { overlay_session_trace: v, ..cfg },
            Toggle::OverlayDiscoRespond => AgentConfig { overlay_disco_respond: v, ..cfg },
            Toggle::OverlayDiscoProbe => AgentConfig { overlay_disco_probe: v, ..cfg },
            Toggle::OverlayAnswerWhileFollowed => AgentConfig { overlay_answer_while_followed: v, ..cfg },
            Toggle::OverlayTunStableGuid => AgentConfig { overlay_tun_stable_guid: v, ..cfg },
            Toggle::OverlayRouteEvict => AgentConfig { overlay_route_evict: v, ..cfg },
            Toggle::OverlayRouteReclaim => AgentConfig { overlay_route_reclaim: v, ..cfg },
            Toggle::OverlayTunPersist => AgentConfig { overlay_tun_persist: v, ..cfg },
            Toggle::OverlayRouteMetric0 => AgentConfig { overlay_route_metric0: v, ..cfg },
            Toggle::OverlayRouteWin => AgentConfig { overlay_route_win: v, ..cfg },
            Toggle::LocalTurn => AgentConfig { local_turn: v, ..cfg },
            Toggle::DnsAaaa => AgentConfig { dns_aaaa: v, ..cfg },
            Toggle::MagicdnsHosts => AgentConfig { magicdns_hosts: v, ..cfg },
            Toggle::AutoUpdate => AgentConfig { auto_update: v, ..cfg },
            Toggle::LogsUploadDisabled => AgentConfig { logs_upload_disabled: v, ..cfg },
            Toggle::NvencSpatialAq => AgentConfig { nvenc_spatial_aq: v, ..cfg },
            Toggle::IdleRefine => AgentConfig { idle_refine: v, ..cfg },
            Toggle::IdleRefineBalanced => AgentConfig { idle_refine_balanced: v, ..cfg },
            Toggle::GpuScale => AgentConfig { gpu_scale: v, ..cfg },
            Toggle::OverlayLanCaptureProbe => AgentConfig { overlay_lan_capture_probe: v, ..cfg },
            Toggle::RelayCeilingLearn => AgentConfig { relay_ceiling_learn: v, ..cfg },
            Toggle::DrmCapture => AgentConfig { drm_capture: v, ..cfg },
            Toggle::Uinput => AgentConfig { uinput: v, ..cfg },
            Toggle::PortalCapture => AgentConfig { portal_capture: v, ..cfg },
            Toggle::PortalInput => AgentConfig { portal_input: v, ..cfg },
            Toggle::MutterCapture => AgentConfig { mutter_capture: v, ..cfg },
            Toggle::WindowCapture => AgentConfig { window_capture: v, ..cfg },
            Toggle::X11Damage => AgentConfig { x11_damage: v, ..cfg },
            Toggle::OverlayKeyRotation => AgentConfig { overlay_key_rotation: v, ..cfg },
            Toggle::BgRebuild => AgentConfig { bg_rebuild: v, ..cfg },
            Toggle::ParConvert => AgentConfig { par_convert: v, ..cfg },
            Toggle::FpsPace => AgentConfig { fps_pace: v, ..cfg },
            Toggle::RelayIdrThrift => AgentConfig { relay_idr_thrift: v, ..cfg },
            Toggle::RelayAgeFeedback => AgentConfig { relay_age_feedback: v, ..cfg },
            Toggle::MeasuredCeiling => AgentConfig { measured_ceiling: v, ..cfg },
            Toggle::EncoderInplaceRate => AgentConfig { encoder_inplace_rate: v, ..cfg },
            Toggle::IceRelayTcp => AgentConfig { ice_relay_tcp: v, ..cfg },
            Toggle::RateSlowStart => AgentConfig { rate_slow_start: v, ..cfg },
            Toggle::RatePriorDecay => AgentConfig { rate_prior_decay: v, ..cfg },
            Toggle::TransitClassify => AgentConfig { transit_classify: v, ..cfg },
            Toggle::TransitHold => AgentConfig { transit_hold: v, ..cfg },
            Toggle::MediaThread => AgentConfig { media_thread: v, ..cfg },
            Toggle::PumpStallWatch => AgentConfig { pump_stall_watch: v, ..cfg },
            Toggle::BgRebuildConstrained => AgentConfig { bg_rebuild_constrained: v, ..cfg },
            Toggle::SlowLinkFloor => AgentConfig { slow_link_floor: v, ..cfg },
            Toggle::ConstrainedQueueMeasured => AgentConfig { constrained_queue_measured: v, ..cfg },
            Toggle::SeedContradiction => AgentConfig { seed_contradiction: v, ..cfg },
            Toggle::ViewerRateClamp => AgentConfig { viewer_rate_clamp: v, ..cfg },
            Toggle::QueueDrain => AgentConfig { queue_drain: v, ..cfg },
            Toggle::SlowLinkProfile => AgentConfig { slow_link_profile: v, ..cfg },
            Toggle::AreaMinBitrate => AgentConfig { area_min_bitrate: v, ..cfg },
            Toggle::PriorityResCap => AgentConfig { priority_res_cap: v, ..cfg },
            Toggle::IceWarmStandby => AgentConfig { ice_warm_standby: v, ..cfg },
            Toggle::IceOverlayHostDeprioritize => AgentConfig { ice_overlay_host_deprioritize: v, ..cfg },
            Toggle::OverlayTierDetect => AgentConfig { overlay_tier_detect: v, ..cfg },
            Toggle::OverlayRttQ => AgentConfig { overlay_rtt_q: v, ..cfg },
            Toggle::OverlayUpwardProbe => AgentConfig { overlay_upward_probe: v, ..cfg },
            Toggle::RelayProbe => AgentConfig { relay_probe: v, ..cfg },
            Toggle::TextModNeutralize => AgentConfig { text_mod_neutralize: v, ..cfg },
        }
    }

    /// What the key does, in one line.
    pub open spec fn spec_description(self) -> &'static str {
        match self {
            Toggle::OverlayQuic => descriptions::OVERLAY_QUIC,
            Toggle::OverlayDirect => descriptions::OVERLAY_DIRECT,
            Toggle::OverlayDerp => descriptions::OVERLAY_DERP,
            Toggle::OverlayServerRelayStrategy => descriptions::OVERLAY_SERVER_RELAY_STRATEGY,
            Toggle::OverlayDerpFloor => descriptions::OVERLAY_DERP_FLOOR,
            Toggle::OverlayOrgRelay => descriptions::OVERLAY_ORG_RELAY,
            Toggle::RelayServerEnabled => descriptions::RELAY_SERVER_ENABLED,
            Toggle::OverlayNetcheck => descriptions::OVERLAY_NETCHECK,
            Toggle::TunnelDerpFallback => descriptions::TUNNEL_DERP_FALLBACK,
            Toggle::TunnelPeersSurviveReattach => descriptions::TUNNEL_PEERS_SURVIVE_REATTACH,
            Toggle::OverlayMbb => descriptions::OVERLAY_MBB,
            Toggle::OverlayLanIfaceFilter => descriptions::OVERLAY_LAN_IFACE_FILTER,
            Toggle::OverlayWslMirroredGuard => descriptions::OVERLAY_WSL_MIRRORED_GUARD,
            Toggle::OverlayInitAuthFirst => descriptions::OVERLAY_INIT_AUTH_FIRST,
            Toggle::OverlaySrflxSeek => descriptions::OVERLAY_SRFLX_SEEK,
            Toggle::WsReplacedExit => descriptions::WS_REPLACED_EXIT,
            Toggle::OverlayWarmRelay => descriptions::OVERLAY_WARM_RELAY,
            Toggle::OverlayQuicAsync => descriptions::OVERLAY_QUIC_ASYNC,
            Toggle::OverlayVpnVantage => descriptions::OVERLAY_VPN_VANTAGE,
            Toggle::OverlayNetd => descriptions::OVERLAY_NETD,
            Toggle::OverlayRouteEvents => descriptions::OVERLAY_ROUTE_EVENTS,
            Toggle::OverlayNetmon => descriptions::OVERLAY_NETMON,
            Toggle::SharedEncoder => descriptions::SHARED_ENCODER,
            Toggle::OverlayRelayTls => descriptions::OVERLAY_RELAY_TLS,
            Toggle::OverlaySharedCarrier => descriptions::OVERLAY_SHARED_CARRIER,
            Toggle::OverlayRoam => descriptions::OVERLAY_ROAM,
            Toggle::OverlayPlaneWatchdog => descriptions::OVERLAY_PLANE_WATCHDOG,
            Toggle::OverlaySessionTrace => descriptions::OVERLAY_SESSION_TRACE,
            Toggle::OverlayDiscoRespond => descriptions::OVERLAY_DISCO_RESPOND,
            Toggle::OverlayDiscoProbe => descriptions::OVERLAY_DISCO_PROBE,
            Toggle::OverlayAnswerWhileFollowed => descriptions::OVERLAY_ANSWER_WHILE_FOLLOWED,
            Toggle::OverlayTunStableGuid => descriptions::OVERLAY_TUN_STABLE_GUID,
            Toggle::OverlayRouteEvict => descriptions::OVERLAY_ROUTE_EVICT,
            Toggle::OverlayRouteReclaim => descriptions::OVERLAY_ROUTE_RECLAIM,
            Toggle::OverlayTunPersist => descriptions::OVERLAY_TUN_PERSIST,
            Toggle::OverlayRouteMetric0 => descriptions::OVERLAY_ROUTE_METRIC0,
            Toggle::OverlayRouteWin => descriptions::OVERLAY_ROUTE_WIN,
            Toggle::LocalTurn => descriptions::LOCAL_TURN,
            Toggle::DnsAaaa => descriptions::DNS_AAAA,
            Toggle::MagicdnsHosts => descriptions::MAGICDNS_HOSTS,
            Toggle::AutoUpdate => descriptions::AUTO_UPDATE,
            Toggle::LogsUploadDisabled => descriptions::LOGS_UPLOAD_DISABLED,
            Toggle::NvencSpatialAq => descriptions::NVENC_SPATIAL_AQ,
            Toggle::IdleRefine => descriptions::IDLE_REFINE,
            Toggle::IdleRefineBalanced => descriptions::IDLE_REFINE_BALANCED,
            Toggle::GpuScale => descriptions::GPU_SCALE,
            Toggle::OverlayLanCaptureProbe => descriptions::OVERLAY_LAN_CAPTURE_PROBE,
            Toggle::RelayCeilingLearn => descriptions::RELAY_CEILING_LEARN,
            Toggle::DrmCapture => descriptions::DRM_CAPTURE,
            Toggle::Uinput => descriptions::UINPUT,
            Toggle::PortalCapture => descriptions::PORTAL_CAPTURE,
            Toggle::PortalInput => descriptions::PORTAL_INPUT,
            Toggle::MutterCapture => descriptions::MUTTER_CAPTURE,
            Toggle::WindowCapture => descriptions::WINDOW_CAPTURE,
            Toggle::X11Damage => descriptions::X11_DAMAGE,
            Toggle::OverlayKeyRotation => descriptions::OVERLAY_KEY_ROTATION,
            Toggle::BgRebuild => descriptions::BG_REBUILD,
            Toggle::ParConvert => descriptions::PAR_CONVERT,
            Toggle::FpsPace => descriptions::FPS_PACE,
            Toggle::RelayIdrThrift => descriptions::RELAY_IDR_THRIFT,
            Toggle::RelayAgeFeedback => descriptions::RELAY_AGE_FEEDBACK,
            Toggle::MeasuredCeiling => descriptions::MEASURED_CEILING,
            Toggle::EncoderInplaceRate => descriptions::ENCODER_INPLACE_RATE,
            Toggle::IceRelayTcp => descriptions::ICE_RELAY_TCP,
            Toggle::RateSlowStart => descriptions::RATE_SLOW_START,
            Toggle::RatePriorDecay => descriptions::RATE_PRIOR_DECAY,
            Toggle::TransitClassify => descriptions::TRANSIT_CLASSIFY,
            Toggle::TransitHold => descriptions::TRANSIT_HOLD,
            Toggle::MediaThread => descriptions::MEDIA_THREAD,
            Toggle::PumpStallWatch => descriptions::PUMP_STALL_WATCH,
            Toggle::BgRebuildConstrained => descriptions::BG_REBUILD_CONSTRAINED,
            Toggle::SlowLinkFloor => descriptions::SLOW_LINK_FLOOR,
            Toggle::ConstrainedQueueMeasured => descriptions::CONSTRAINED_QUEUE_MEASURED,
            Toggle::SeedContradiction => descriptions::SEED_CONTRADICTION,
            Toggle::ViewerRateClamp => descriptions::VIEWER_RATE_CLAMP,
            Toggle::QueueDrain => descriptions::QUEUE_DRAIN,
            Toggle::SlowLinkProfile => descriptions::SLOW_LINK_PROFILE,
            Toggle::AreaMinBitrate => descriptions::AREA_MIN_BITRATE,
            Toggle::PriorityResCap => descriptions::PRIORITY_RES_CAP,
            Toggle::IceWarmStandby => descriptions::ICE_WARM_STANDBY,
            Toggle::IceOverlayHostDeprioritize => descriptions::ICE_OVERLAY_HOST_DEPRIORITIZE,
            Toggle::OverlayTierDetect => descriptions::OVERLAY_TIER_DETECT,
            Toggle::OverlayRttQ => descriptions::OVERLAY_RTT_Q,
            Toggle::OverlayUpwardProbe => descriptions::OVERLAY_UPWARD_PROBE,
            Toggle::RelayProbe => descriptions::RELAY_PROBE,
            Toggle::TextModNeutralize => descriptions::TEXT_MOD_NEUTRALIZE,
        }
    }

    /// What the key does, in one line.
    pub fn description(self) -> (r: &'static str)
        ensures
            r@ == self.spec_description()@,
    {
        match self {
            Toggle::OverlayQuic => descriptions::OVERLAY_QUIC,
            Toggle::OverlayDirect => descriptions::OVERLAY_DIRECT,
            Toggle::OverlayDerp => descriptions::OVERLAY_DERP,
            Toggle::OverlayServerRelayStrategy => descriptions::OVERLAY_SERVER_RELAY_STRATEGY,
            Toggle::OverlayDerpFloor => descriptions::OVERLAY_DERP_FLOOR,
            Toggle::OverlayOrgRelay => descriptions::OVERLAY_ORG_RELAY,
            Toggle::RelayServerEnabled => descriptions::RELAY_SERVER_ENABLED,
            Toggle::OverlayNetcheck => descriptions::OVERLAY_NETCHECK,
            Toggle::TunnelDerpFallback => descriptions::TUNNEL_DERP_FALLBACK,
            Toggle::TunnelPeersSurviveReattach => descriptions::TUNNEL_PEERS_SURVIVE_REATTACH,
            Toggle::OverlayMbb => descriptions::OVERLAY_MBB,
            Toggle::OverlayLanIfaceFilter => descriptions::OVERLAY_LAN_IFACE_FILTER,
            Toggle::OverlayWslMirroredGuard => descriptions::OVERLAY_WSL_MIRRORED_GUARD,
            Toggle::OverlayInitAuthFirst => descriptions::OVERLAY_INIT_AUTH_FIRST,
            Toggle::OverlaySrflxSeek => descriptions::OVERLAY_SRFLX_SEEK,
            Toggle::WsReplacedExit => descriptions::WS_REPLACED_EXIT,
            Toggle::OverlayWarmRelay => descriptions::OVERLAY_WARM_RELAY,
            Toggle::OverlayQuicAsync => descriptions::OVERLAY_QUIC_ASYNC,
            Toggle::OverlayVpnVantage => descriptions::OVERLAY_VPN_VANTAGE,
            Toggle::OverlayNetd => descriptions::OVERLAY_NETD,
            Toggle::OverlayRouteEvents => descriptions::OVERLAY_ROUTE_EVENTS,
            Toggle::OverlayNetmon => descriptions::OVERLAY_NETMON,
            Toggle::SharedEncoder => descriptions::SHARED_ENCODER,
            Toggle::OverlayRelayTls => descriptions::OVERLAY_RELAY_TLS,
            Toggle::OverlaySharedCarrier => descriptions::OVERLAY_SHARED_CARRIER,
            Toggle::OverlayRoam => descriptions::OVERLAY_ROAM,
            Toggle::OverlayPlaneWatchdog => descriptions::OVERLAY_PLANE_WATCHDOG,
            Toggle::OverlaySessionTrace => descriptions::OVERLAY_SESSION_TRACE,
            Toggle::OverlayDiscoRespond => descriptions::OVERLAY_DISCO_RESPOND,
            Toggle::OverlayDiscoProbe => descriptions::OVERLAY_DISCO_PROBE,
            Toggle::OverlayAnswerWhileFollowed => descriptions::OVERLAY_ANSWER_WHILE_FOLLOWED,
            Toggle::OverlayTunStableGuid => descriptions::OVERLAY_TUN_STABLE_GUID,
            Toggle::OverlayRouteEvict => descriptions::OVERLAY_ROUTE_EVICT,
            Toggle::OverlayRouteReclaim => descriptions::OVERLAY_ROUTE_RECLAIM,
            Toggle::OverlayTunPersist => descriptions::OVERLAY_TUN_PERSIST,
            Toggle::OverlayRouteMetric0 => descriptions::OVERLAY_ROUTE_METRIC0,
            Toggle::OverlayRouteWin => descriptions::OVERLAY_ROUTE_WIN,
            Toggle::LocalTurn => descriptions::LOCAL_TURN,
            Toggle::DnsAaaa => descriptions::DNS_AAAA,
            Toggle::MagicdnsHosts => descriptions::MAGICDNS_HOSTS,
            Toggle::AutoUpdate => descriptions::AUTO_UPDATE,
            Toggle::LogsUploadDisabled => descriptions::LOGS_UPLOAD_DISABLED,
            Toggle::NvencSpatialAq => descriptions::NVENC_SPATIAL_AQ,
            Toggle::IdleRefine => descriptions::IDLE_REFINE,
            Toggle::IdleRefineBalanced => descriptions::IDLE_REFINE_BALANCED,
            Toggle::GpuScale => descriptions::GPU_SCALE,
            Toggle::OverlayLanCaptureProbe => descriptions::OVERLAY_LAN_CAPTURE_PROBE,
            Toggle::RelayCeilingLearn => descriptions::RELAY_CEILING_LEARN,
            Toggle::DrmCapture => descriptions::DRM_CAPTURE,
            Toggle::Uinput => descriptions::UINPUT,
            Toggle::PortalCapture => descriptions::PORTAL_CAPTURE,
            Toggle::PortalInput => descriptions::PORTAL_INPUT,
            Toggle::MutterCapture => descriptions::MUTTER_CAPTURE,
            Toggle::WindowCapture => descriptions::WINDOW_CAPTURE,
            Toggle::X11Damage => descriptions::X11_DAMAGE,
            Toggle::OverlayKeyRotation => descriptions::OVERLAY_KEY_ROTATION,
            Toggle::BgRebuild => descriptions::BG_REBUILD,
            Toggle::ParConvert => descriptions::PAR_CONVERT,
            Toggle::FpsPace => descriptions::FPS_PACE,
            Toggle::RelayIdrThrift => descriptions::RELAY_IDR_THRIFT,
            Toggle::RelayAgeFeedback => descriptions::RELAY_AGE_FEEDBACK,
            Toggle::MeasuredCeiling => descriptions::MEASURED_CEILING,
            Toggle::EncoderInplaceRate => descriptions::ENCODER_INPLACE_RATE,
            Toggle::IceRelayTcp => descriptions::ICE_RELAY_TCP,
            Toggle::RateSlowStart => descriptions::RATE_SLOW_START,
            Toggle::RatePriorDecay => descriptions::RATE_PRIOR_DECAY,
            Toggle::TransitClassify => descriptions::TRANSIT_CLASSIFY,
            Toggle::TransitHold => descriptions::TRANSIT_HOLD,
            Toggle::MediaThread => descriptions::MEDIA_THREAD,
            Toggle::PumpStallWatch => descriptions::PUMP_STALL_WATCH,
            Toggle::BgRebuildConstrained => descriptions::BG_REBUILD_CONSTRAINED,
            Toggle::SlowLinkFloor => descriptions::SLOW_LINK_FLOOR,
            Toggle::ConstrainedQueueMeasured => descriptions::CONSTRAINED_QUEUE_MEASURED,
            Toggle::SeedContradiction => descriptions::SEED_CONTRADICTION,
            Toggle::ViewerRateClamp => descriptions::VIEWER_RATE_CLAMP,
            Toggle::QueueDrain => descriptions::QUEUE_DRAIN,
            Toggle::SlowLinkProfile => descriptions::SLOW_LINK_PROFILE,
            Toggle::AreaMinBitrate => descriptions::AREA_MIN_BITRATE,
            Toggle::PriorityResCap => descriptions::PRIORITY_RES_CAP,
            Toggle::IceWarmStandby => descriptions::ICE_WARM_STANDBY,
            Toggle::IceOverlayHostDeprioritize => descriptions::ICE_OVERLAY_HOST_DEPRIORITIZE,
            Toggle::OverlayTierDetect => descriptions::OVERLAY_TIER_DETECT,
            Toggle::OverlayRttQ => descriptions::OVERLAY_RTT_Q,
            Toggle::OverlayUpwardProbe => descriptions::OVERLAY_UPWARD_PROBE,
            Toggle::RelayProbe => descriptions::RELAY_PROBE,
            Toggle::TextModNeutralize => descriptions::TEXT_MOD_NEUTRALIZE,
        }
    }
}

/// A bounded number, unset for the built-in default.
#[derive(Debug, Clone, Copy, PartialEq, Eq, Structural)]
#[allow(missing_docs)]
pub enum Number {
    UpdateCheckIntervalH,
    RelayServerPort,
    OverlayRouteTickSecs,
    OverlayNetmonDebounceMs,
    RcMaxSessions,
    OverlayDirectPort,
    OverlayIfaceMetric,
    RateFactorH264,
    RateFactorHevc,
    RateFactorVp9,
    RateFactorAv1,
    LanczosMinPct,
    ScaleCqBoost,
    RelayMaxHiKbps,
    IdleRefineMaxEdge,
    IdleRefineMinFrameKb,
    IdleRefineMajorAreaPermille,
    IdleRefineSettleMs,
    IdleRefineSettleConstrainedMs,
    ConstrainedCqRelief,
    ConstrainedQueueMs,
    ConstrainedHrdPct,
    DirectQueueMs,
    DirectHrdPct,
    SendStallMs,
    RelayMaxKbps,
    PumpStallWarnMs,
    SlowLinkMinBitrate,
    SlowLinkProfileBps,
    SmootherRatePct,
    BalancedRatePct,
    ScaleThreads,
}

/// The number that goes by a name.
pub open spec fn number_named(s: Seq<char>) -> Option<Number> {
    if s == "update_check_interval_h"@ {
        Some(Number::UpdateCheckIntervalH)
    } else if s == "relay_server_port"@ {
        Some(Number::RelayServerPort)
    } else if s == "overlay_route_tick_secs"@ {
        Some(Number::OverlayRouteTickSecs)
    } else if s == "overlay_netmon_debounce_ms"@ {
        Some(Number::OverlayNetmonDebounceMs)
    } else if s == "rc_max_sessions"@ {
        Some(Number::RcMaxSessions)
    } else if s == "overlay_direct_port"@ {
        Some(Number::OverlayDirectPort)
    } else if s == "overlay_iface_metric"@ {
        Some(Number::OverlayIfaceMetric)
    } else if s == "rate_factor_h264"@ {
        Some(Number::RateFactorH264)
    } else if s == "rate_factor_hevc"@ {
        Some(Number::RateFactorHevc)
    } else if s == "rate_factor_vp9"@ {
        Some(Number::RateFactorVp9)
    } else if s == "rate_factor_av1"@ {
        Some(Number::RateFactorAv1)
    } else if s == "lanczos_min_pct"@ {
        Some(Number::LanczosMinPct)
    } else if s == "scale_cq_boost"@ {
        Some(Number::ScaleCqBoost)
    } else if s == "relay_max_hi_kbps"@ {
        Some(Number::RelayMaxHiKbps)
    } else if s == "idle_refine_max_edge"@ {
        Some(Number::IdleRefineMaxEdge)
    } else if s == "idle_refine_min_frame_kb"@ {
        Some(Number::IdleRefineMinFrameKb)
    } else if s == "idle_refine_major_area_permille"@ {
        Some(Number::IdleRefineMajorAreaPermille)
    } else if s == "idle_refine_settle_ms"@ {
        Some(Number::IdleRefineSettleMs)
    } else if s == "idle_refine_settle_constrained_ms"@ {
        Some(Number::IdleRefineSettleConstrainedMs)
    } else if s == "constrained_cq_relief"@ {
        Some(Number::ConstrainedCqRelief)
    } else if s == "constrained_queue_ms"@ {
        Some(Number::ConstrainedQueueMs)
    } else if s == "constrained_hrd_pct"@ {
        Some(Number::ConstrainedHrdPct)
    } else if s == "direct_queue_ms"@ {
        Some(Number::DirectQueueMs)
    } else if s == "direct_hrd_pct"@ {
        Some(Number::DirectHrdPct)
    } else if s == "send_stall_ms"@ {
        Some(Number::SendStallMs)
    } else if s == "relay_max_kbps"@ {
        Some(Number::RelayMaxKbps)
    } else if s == "pump_stall_warn_ms"@ {
        Some(Number::PumpStallWarnMs)
    } else if s == "slow_link_min_bitrate"@ {
        Some(Number::SlowLinkMinBitrate)
    } else if s == "slow_link_profile_bps"@ {
        Some(Number::SlowLinkProfileBps)
    } else if s == "smoother_rate_pct"@ {
        Some(Number::SmootherRatePct)
    } else if s == "balanced_rate_pct"@ {
        Some(Number::BalancedRatePct)
    } else if s == "scale_threads"@ {
        Some(Number::ScaleThreads)
    } else {
        None
    }
}

impl Number {
    /// The name of the number.
    pub open spec fn spec_name(self) -> &'static str {
        match self {
            Number::UpdateCheckIntervalH => "update_check_interval_h",
            Number::RelayServerPort => "relay_server_port",
            Number::OverlayRouteTickSecs => "overlay_route_tick_secs",
            Number::OverlayNetmonDebounceMs => "overlay_netmon_debounce_ms",
            Number::RcMaxSessions => "rc_max_sessions",
            Number::OverlayDirectPort => "overlay_direct_port",
            Number::OverlayIfaceMetric => "overlay_iface_metric",
            Number::RateFactorH264 => "rate_factor_h264",
            Number::RateFactorHevc => "rate_factor_hevc",
            Number::RateFactorVp9 => "rate_factor_vp9",
            Number::RateFactorAv1 => "rate_factor_av1",
            Number::LanczosMinPct => "lanczos_min_pct",
            Number::ScaleCqBoost => "scale_cq_boost",
            Number::RelayMaxHiKbps => "relay_max_hi_kbps",
            Number::IdleRefineMaxEdge => "idle_refine_max_edge",
            Number::IdleRefineMinFrameKb => "idle_refine_min_frame_kb",
            Number::IdleRefineMajorAreaPermille => "idle_refine_major_area_permille",
            Number::IdleRefineSettleMs => "idle_refine_settle_ms",
            Number::IdleRefineSettleConstrainedMs => "idle_refine_settle_constrained_ms",
            Number::ConstrainedCqRelief => "constrained_cq_relief",
            Number::ConstrainedQueueMs => "constrained_queue_ms",
            Number::ConstrainedHrdPct => "constrained_hrd_pct",
            Number::DirectQueueMs => "direct_queue_ms",
            Number::DirectHrdPct => "direct_hrd_pct",
            Number::SendStallMs => "send_stall_ms",
            Number::RelayMaxKbps => "relay_max_kbps",
            Number::PumpStallWarnMs => "pump_stall_warn_ms",
            Number::SlowLinkMinBitrate => "slow_link_min_bitrate",
            Number::SlowLinkProfileBps => "slow_link_profile_bps",
            Number::SmootherRatePct => "smoother_rate_pct",
            Number::BalancedRatePct => "balanced_rate_pct",
            Number::ScaleThreads => "scale_threads",
        }
    }

    /// The field that the number names.
    pub open spec fn get(self, cfg: AgentConfig) -> Option<u32> {
        match self {
            Number::UpdateCheckIntervalH => cfg.update_check_interval_h,
            Number::RelayServerPort => cfg.relay_server_port,
            Number::OverlayRouteTickSecs => cfg.overlay_route_tick_secs,
            Number::OverlayNetmonDebounceMs => cfg.overlay_netmon_debounce_ms,
            Number::RcMaxSessions => cfg.rc_max_sessions,
            Number::OverlayDirectPort => cfg.overlay_direct_port,
            Number::OverlayIfaceMetric => cfg.overlay_iface_metric,
            Number::RateFactorH264 => cfg.rate_factor_h264,
            Number::RateFactorHevc => cfg.rate_factor_hevc,
            Number::RateFactorVp9 => cfg.rate_factor_vp9,
            Number::RateFactorAv1 => cfg.rate_factor_av1,
            Number::LanczosMinPct => cfg.lanczos_min_pct,
            Number::ScaleCqBoost => cfg.scale_cq_boost,
            Number::RelayMaxHiKbps => cfg.relay_max_hi_kbps,
            Number::IdleRefineMaxEdge => cfg.idle_refine_max_edge,
            Number::IdleRefineMinFrameKb => cfg.idle_refine_min_frame_kb,
            Number::IdleRefineMajorAreaPermille => cfg.idle_refine_major_area_permille,
            Number::IdleRefineSettleMs => cfg.idle_refine_settle_ms,
            Number::IdleRefineSettleConstrainedMs => cfg.idle_refine_settle_constrained_ms,
            Number::ConstrainedCqRelief => cfg.constrained_cq_relief,
            Number::ConstrainedQueueMs => cfg.constrained_queue_ms,
            Number::ConstrainedHrdPct => cfg.constrained_hrd_pct,
            Number::DirectQueueMs => cfg.direct_queue_ms,
            Number::DirectHrdPct => cfg.direct_hrd_pct,
            Number::SendStallMs => cfg.send_stall_ms,
            Number::RelayMaxKbps => cfg.relay_max_kbps,
            Number::PumpStallWarnMs => cfg.pump_stall_warn_ms,
            Number::SlowLinkMinBitrate => cfg.slow_link_min_bitrate,
            Number::SlowLinkProfileBps => cfg.slow_link_profile_bps,
            Number::SmootherRatePct => cfg.smoother_rate_pct,
            Number::BalancedRatePct => cfg.balanced_rate_pct,
            Number::ScaleThreads => cfg.scale_threads,
        }
    }

    /// `cfg` with the field that the number names set to `v`, and nothing else changed.
    pub open spec fn put(self, cfg: AgentConfig, v: Option<u32>) -> AgentConfig {
        match self {
            Number::UpdateCheckIntervalH => AgentConfig { update_check_interval_h: v, ..cfg },
            Number::RelayServerPort => AgentConfig { relay_server_port: v, ..cfg },
            Number::OverlayRouteTickSecs => AgentConfig { overlay_route_tick_secs: v, ..cfg },
            Number::OverlayNetmonDebounceMs => AgentConfig { overlay_netmon_debounce_ms: v, ..cfg },
            Number::RcMaxSessions => AgentConfig { rc_max_sessions: v, ..cfg },
            Number::OverlayDirectPort => AgentConfig { overlay_direct_port: v, ..cfg },
            Number::OverlayIfaceMetric => AgentConfig { overlay_iface_metric: v, ..cfg },
            Number::RateFactorH264 => AgentConfig { rate_factor_h264: v, ..cfg },
            Number::RateFactorHevc => AgentConfig { rate_factor_hevc: v, ..cfg },
            Number::RateFactorVp9 => AgentConfig { rate_factor_vp9: v, ..cfg },
            Number::RateFactorAv1 => AgentConfig { rate_factor_av1: v, ..cfg },
            Number::LanczosMinPct => AgentConfig { lanczos_min_pct: v, ..cfg },
            Number::ScaleCqBoost => AgentConfig { scale_cq_boost: v, ..cfg },
            Number::RelayMaxHiKbps => AgentConfig { relay_max_hi_kbps: v, ..cfg },
            Number::IdleRefineMaxEdge => AgentConfig { idle_refine_max_edge: v, ..cfg },
            Number::IdleRefineMinFrameKb => AgentConfig { idle_refine_min_frame_kb: v, ..cfg },
            Number::IdleRefineMajorAreaPermille => AgentConfig { idle_refine_major_area_permille: v, ..cfg },
            Number::IdleRefineSettleMs => AgentConfig { idle_refine_settle_ms: v, ..cfg },
            Number::IdleRefineSettleConstrainedMs => AgentConfig { idle_refine_settle_constrained_ms: v, ..cfg },
            Number::ConstrainedCqRelief => AgentConfig { constrained_cq_relief: v, ..cfg },
            Number::ConstrainedQueueMs => AgentConfig { constrained_queue_ms: v, ..cfg },
            Number::ConstrainedHrdPct => AgentConfig { constrained_hrd_pct: v, ..cfg },
            Number::DirectQueueMs => AgentConfig { direct_queue_ms: v, ..cfg },
            Number::DirectHrdPct => AgentConfig { direct_hrd_pct: v, ..cfg },
            Number::SendStallMs => AgentConfig { send_stall_ms: v, ..cfg },
            Number::RelayMaxKbps => AgentConfig { relay_max_kbps: v, ..cfg },
            Number::PumpStallWarnMs => AgentConfig { pump_stall_warn_ms: v, ..cfg },
            Number::SlowLinkMinBitrate => AgentConfig { slow_link_min_bitrate: v, ..cfg },
            Number::SlowLinkProfileBps => AgentConfig { slow_link_profile_bps: v, ..cfg },
            Number::SmootherRatePct => AgentConfig { smoother_rate_pct: v, ..cfg },
            Number::BalancedRatePct => AgentConfig { balanced_rate_pct: v, ..cfg },
            Number::ScaleThreads => AgentConfig { scale_threads: v, ..cfg },
        }
    }

    /// The name of the number.
    pub fn name(self) -> (r: &'static str)
        ensures
            r@ == self.spec_name()@,
    {
        match self {
            Number::UpdateCheckIntervalH => "update_check_interval_h",
            Number::RelayServerPort => "relay_server_port",
            Number::OverlayRouteTickSecs => "overlay_route_tick_secs",
            Number::OverlayNetmonDebounceMs => "overlay_netmon_debounce_ms",
            Number::RcMaxSessions => "rc_max_sessions",
            Number::OverlayDirectPort => "overlay_direct_port",
            Number::OverlayIfaceMetric => "overlay_iface_metric",
            Number::RateFactorH264 => "rate_factor_h264",
            Number::RateFactorHevc => "rate_factor_hevc",
            Number::RateFactorVp9 => "rate_factor_vp9",
            Number::RateFactorAv1 => "rate_factor_av1",
            Number::LanczosMinPct => "lanczos_min_pct",
            Number::ScaleCqBoost => "scale_cq_boost",
            Number::RelayMaxHiKbps => "relay_max_hi_kbps",
            Number::IdleRefineMaxEdge => "idle_refine_max_edge",
            Number::IdleRefineMinFrameKb => "idle_refine_min_frame_kb",
            Number::IdleRefineMajorAreaPermille => "idle_refine_major_area_permille",
            Number::IdleRefineSettleMs => "idle_refine_settle_ms",
            Number::IdleRefineSettleConstrainedMs => "idle_refine_settle_constrained_ms",
            Number::ConstrainedCqRelief => "constrained_cq_relief",
            Number::ConstrainedQueueMs => "constrained_queue_ms",
            Number::ConstrainedHrdPct => "constrained_hrd_pct",
            Number::DirectQueueMs => "direct_queue_ms",
            Number::DirectHrdPct => "direct_hrd_pct",
            Number::SendStallMs => "send_stall_ms",
            Number::RelayMaxKbps => "relay_max_kbps",
            Number::PumpStallWarnMs => "pump_stall_warn_ms",
            Number::SlowLinkMinBitrate => "slow_link_min_bitrate",
            Number::SlowLinkProfileBps => "slow_link_profile_bps",
            Number::SmootherRatePct => "smoother_rate_pct",
            Number::BalancedRatePct => "balanced_rate_pct",
            Number::ScaleThreads => "scale_threads",
        }
    }

    /// The number that goes by a name.
    pub fn named(s: &str) -> (r: Option<Number>)
        ensures
            r == number_named(s@),
    {
        if same(s, "update_check_interval_h") {
            Some(Number::UpdateCheckIntervalH)
        } else if same(s, "relay_server_port") {
            Some(Number::RelayServerPort)
        } else if same(s, "overlay_route_tick_secs") {
            Some(Number::OverlayRouteTickSecs)
        } else if same(s, "overlay_netmon_debounce_ms") {
            Some(Number::OverlayNetmonDebounceMs)
        } else if same(s, "rc_max_sessions") {
            Some(Number::RcMaxSessions)
        } else if same(s, "overlay_direct_port") {
            Some(Number::OverlayDirectPort)
        } else if same(s, "overlay_iface_metric") {
            Some(Number::OverlayIfaceMetric)
        } else if same(s, "rate_factor_h264") {
            Some(Number::RateFactorH264)
        } else if same(s, "rate_factor_hevc") {
            Some(Number::RateFactorHevc)
        } else if same(s, "rate_factor_vp9") {
            Some(Number::RateFactorVp9)
        } else if same(s, "rate_factor_av1") {
            Some(Number::RateFactorAv1)
        } else if same(s, "lanczos_min_pct") {
            Some(Number::LanczosMinPct)
        } else if same(s, "scale_cq_boost") {
            Some(Number::ScaleCqBoost)
        } else if same(s, "relay_max_hi_kbps") {
            Some(Number::RelayMaxHiKbps)
        } else if same(s, "idle_refine_max_edge") {
            Some(Number::IdleRefineMaxEdge)
        } else if same(s, "idle_refine_min_frame_kb") {
            Some(Number::IdleRefineMinFrameKb)
        } else if same(s, "idle_refine_major_area_permille") {
            Some(Number::IdleRefineMajorAreaPermille)
        } else if same(s, "idle_refine_settle_ms") {
            Some(Number::IdleRefineSettleMs)
        } else if same(s, "idle_refine_settle_constrained_ms") {
            Some(Number::IdleRefineSettleConstrainedMs)
        } else if same(s, "constrained_cq_relief") {
            Some(Number::ConstrainedCqRelief)
        } else if same(s, "constrained_queue_ms") {
            Some(Number::ConstrainedQueueMs)
        } else if same(s, "constrained_hrd_pct") {
            Some(Number::ConstrainedHrdPct)
        } else if same(s, "direct_queue_ms") {
            Some(Number::DirectQueueMs)
        } else if same(s, "direct_hrd_pct") {
            Some(Number::DirectHrdPct)
        } else if same(s, "send_stall_ms") {
            Some(Number::SendStallMs)
        } else if same(s, "relay_max_kbps") {
            Some(Number::RelayMaxKbps)
        } else if same(s, "pump_stall_warn_ms") {
            Some(Number::PumpStallWarnMs)
        } else if same(s, "slow_link_min_bitrate") {
            Some(Number::SlowLinkMinBitrate)
        } else if same(s, "slow_link_profile_bps") {
            Some(Number::SlowLinkProfileBps)
        } else if same(s, "smoother_rate_pct") {
            Some(Number::SmootherRatePct)
        } else if same(s, "balanced_rate_pct") {
            Some(Number::BalancedRatePct)
        } else if same(s, "scale_threads") {
            Some(Number::ScaleThreads)
        } else {
            None
        }
    }

    /// Reads the field.
    pub fn read(self, cfg: &AgentConfig) -> (r: Option<u32>)
        ensures
            r == self.get(*cfg),
    {
        match self {
            Number::UpdateCheckIntervalH => cfg.update_check_interval_h,
            Number::RelayServerPort => cfg.relay_server_port,
            Number::OverlayRouteTickSecs => cfg.overlay_route_tick_secs,
            Number::OverlayNetmonDebounceMs => cfg.overlay_netmon_debounce_ms,
            Number::RcMaxSessions => cfg.rc_max_sessions,
            Number::OverlayDirectPort => cfg.overlay_direct_port,
            Number::OverlayIfaceMetric => cfg.overlay_iface_metric,
            Number::RateFactorH264 => cfg.rate_factor_h264,
            Number::RateFactorHevc => cfg.rate_factor_hevc,
            Number::RateFactorVp9 => cfg.rate_factor_vp9,
            Number::RateFactorAv1 => cfg.rate_factor_av1,
            Number::LanczosMinPct => cfg.lanczos_min_pct,
            Number::ScaleCqBoost => cfg.scale_cq_boost,
            Number::RelayMaxHiKbps => cfg.relay_max_hi_kbps,
            Number::IdleRefineMaxEdge => cfg.idle_refine_max_edge,
            Number::IdleRefineMinFrameKb => cfg.idle_refine_min_frame_kb,
            Number::IdleRefineMajorAreaPermille => cfg.idle_refine_major_area_permille,
            Number::IdleRefineSettleMs => cfg.idle_refine_settle_ms,
            Number::IdleRefineSettleConstrainedMs => cfg.idle_refine_settle_constrained_ms,
            Number::ConstrainedCqRelief => cfg.constrained_cq_relief,
            Number::ConstrainedQueueMs => cfg.constrained_queue_ms,
            Number::ConstrainedHrdPct => cfg.constrained_hrd_pct,
            Number::DirectQueueMs => cfg.direct_queue_ms,
            Number::DirectHrdPct => cfg.direct_hrd_pct,
            Number::SendStallMs => cfg.send_stall_ms,
            Number::RelayMaxKbps => cfg.relay_max_kbps,
            Number::PumpStallWarnMs => cfg.pump_stall_warn_ms,
            Number::SlowLinkMinBitrate => cfg.slow_link_min_bitrate,
            Number::SlowLinkProfileBps => cfg.slow_link_profile_bps,
            Number::SmootherRatePct => cfg.smoother_rate_pct,
            Number::BalancedRatePct => cfg.balanced_rate_pct,
            Number::ScaleThreads => cfg.scale_threads,
        }
    }

    /// `cfg` with the field set to `v`.
    pub fn with(self, cfg: AgentConfig, v: Option<u32>) -> (r: AgentConfig)
        ensures
            r == self.put(cfg, v),
    {
        match self {
            Number::UpdateCheckIntervalH => AgentConfig { update_check_interval_h: v, ..cfg },
            Number::RelayServerPort => AgentConfig { relay_server_port: v, ..cfg },
            Number::OverlayRouteTickSecs => AgentConfig { overlay_route_tick_secs: v, ..cfg },
            Number::OverlayNetmonDebounceMs => AgentConfig { overlay_netmon_debounce_ms: v, ..cfg },
            Number::RcMaxSessions => AgentConfig { rc_max_sessions: v, ..cfg },
            Number::OverlayDirectPort => AgentConfig { overlay_direct_port: v, ..cfg },
            Number::OverlayIfaceMetric => AgentConfig { overlay_iface_metric: v, ..cfg },
            Number::RateFactorH264 => AgentConfig { rate_factor_h264: v, ..cfg },
            Number::RateFactorHevc => AgentConfig { rate_factor_hevc: v, ..cfg },
            Number::RateFactorVp9 => AgentConfig { rate_factor_vp9: v, ..cfg },
            Number::RateFactorAv1 => AgentConfig { rate_factor_av1: v, ..cfg },
            Number::LanczosMinPct => AgentConfig { lanczos_min_pct: v, ..cfg },
            Number::ScaleCqBoost => AgentConfig { scale_cq_boost: v, ..cfg },
            Number::RelayMaxHiKbps => AgentConfig { relay_max_hi_kbps: v, ..cfg },
            Number::IdleRefineMaxEdge => AgentConfig { idle_refine_max_edge: v, ..cfg },
            Number::IdleRefineMinFrameKb => AgentConfig { idle_refine_min_frame_kb: v, ..cfg },
            Number::IdleRefineMajorAreaPermille => AgentConfig { idle_refine_major_area_permille: v, ..cfg },
            Number::IdleRefineSettleMs => AgentConfig { idle_refine_settle_ms: v, ..cfg },
            Number::IdleRefineSettleConstrainedMs => AgentConfig { idle_refine_settle_constrained_ms: v, ..cfg },
            Number::ConstrainedCqRelief => AgentConfig { constrained_cq_relief: v, ..cfg },
            Number::ConstrainedQueueMs => AgentConfig { constrained_queue_ms: v, ..cfg },
            Number::ConstrainedHrdPct => AgentConfig { constrained_hrd_pct: v, ..cfg },
            Number::DirectQueueMs => AgentConfig { direct_queue_ms: v, ..cfg },
            Number::DirectHrdPct => AgentConfig { direct_hrd_pct: v, ..cfg },
            Number::SendStallMs => AgentConfig { send_stall_ms: v, ..cfg },
            Number::RelayMaxKbps => AgentConfig { relay_max_kbps: v, ..cfg },
            Number::PumpStallWarnMs => AgentConfig { pump_stall_warn_ms: v, ..cfg },
            Number::SlowLinkMinBitrate => AgentConfig { slow_link_min_bitrate: v, ..cfg },
            Number::SlowLinkProfileBps => AgentConfig { slow_link_profile_bps: v, ..cfg },
            Number::SmootherRatePct => AgentConfig { smoother_rate_pct: v, ..cfg },
            Number::BalancedRatePct => AgentConfig { balanced_rate_pct: v, ..cfg },
            Number::ScaleThreads => AgentConfig { scale_threads: v, ..cfg },
        }
    }

    /// What the key does, in one line.
    pub open spec fn spec_description(self) -> &'static str {
        match self {
            Number::UpdateCheckIntervalH => descriptions::UPDATE_CHECK_INTERVAL_H,
            Number::RelayServerPort => descriptions::RELAY_SERVER_PORT,
            Number::OverlayRouteTickSecs => descriptions::OVERLAY_ROUTE_TICK_SECS,
            Number::OverlayNetmonDebounceMs => descriptions::OVERLAY_NETMON_DEBOUNCE_MS,
            Number::RcMaxSessions => descriptions::RC_MAX_SESSIONS,
            Number::OverlayDirectPort => descriptions::OVERLAY_DIRECT_PORT,
            Number::OverlayIfaceMetric => descriptions::OVERLAY_IFACE_METRIC,
            Number::RateFactorH264 => descriptions::RATE_FACTOR_H264,
            Number::RateFactorHevc => descriptions::RATE_FACTOR_HEVC,
            Number::RateFactorVp9 => descriptions::RATE_FACTOR_VP9,
            Number::RateFactorAv1 => descriptions::RATE_FACTOR_AV1,
            Number::LanczosMinPct => descriptions::LANCZOS_MIN_PCT,
            Number::ScaleCqBoost => descriptions::SCALE_CQ_BOOST,
            Number::RelayMaxHiKbps => descriptions::RELAY_MAX_HI_KBPS,
            Number::IdleRefineMaxEdge => descriptions::IDLE_REFINE_MAX_EDGE,
            Number::IdleRefineMinFrameKb => descriptions::IDLE_REFINE_MIN_FRAME_KB,
            Number::IdleRefineMajorAreaPermille => descriptions::IDLE_REFINE_MAJOR_AREA_PERMILLE,
            Number::IdleRefineSettleMs => descriptions::IDLE_REFINE_SETTLE_MS,
            Number::IdleRefineSettleConstrainedMs => descriptions::IDLE_REFINE_SETTLE_CONSTRAINED_MS,
            Number::ConstrainedCqRelief => descriptions::CONSTRAINED_CQ_RELIEF,
            Number::ConstrainedQueueMs => descriptions::CONSTRAINED_QUEUE_MS,
            Number::ConstrainedHrdPct => descriptions::CONSTRAINED_HRD_PCT,
            Number::DirectQueueMs => descriptions::DIRECT_QUEUE_MS,
            Number::DirectHrdPct => descriptions::DIRECT_HRD_PCT,
            Number::SendStallMs => descriptions::SEND_STALL_MS,
            Number::RelayMaxKbps => descriptions::RELAY_MAX_KBPS,
            Number::PumpStallWarnMs => descriptions::PUMP_STALL_WARN_MS,
            Number::SlowLinkMinBitrate => descriptions::SLOW_LINK_MIN_BITRATE,
            Number::SlowLinkProfileBps => descriptions::SLOW_LINK_PROFILE_BPS,
            Number::SmootherRatePct => descriptions::SMOOTHER_RATE_PCT,
            Number::BalancedRatePct => descriptions::BALANCED_RATE_PCT,
            Number::ScaleThreads => descriptions::SCALE_THREADS,
        }
    }

    /// What the key does, in one line.
    pub fn description(self) -> (r: &'static str)
        ensures
            r@ == self.spec_description()@,
    {
        match self {
            Number::UpdateCheckIntervalH => descriptions::UPDATE_CHECK_INTERVAL_H,
            Number::RelayServerPort => descriptions::RELAY_SERVER_PORT,
            Number::OverlayRouteTickSecs => descriptions::OVERLAY_ROUTE_TICK_SECS,
            Number::OverlayNetmonDebounceMs => descriptions::OVERLAY_NETMON_DEBOUNCE_MS,
            Number::RcMaxSessions => descriptions::RC_MAX_SESSIONS,
            Number::OverlayDirectPort => descriptions::OVERLAY_DIRECT_PORT,
            Number::OverlayIfaceMetric => descriptions::OVERLAY_IFACE_METRIC,
            Number::RateFactorH264 => descriptions::RATE_FACTOR_H264,
            Number::RateFactorHevc => descriptions::RATE_FACTOR_HEVC,
            Number::RateFactorVp9 => descriptions::RATE_FACTOR_VP9,
            Number::RateFactorAv1 => descriptions::RATE_FACTOR_AV1,
            Number::LanczosMinPct => descriptions::LANCZOS_MIN_PCT,
            Number::ScaleCqBoost => descriptions::SCALE_CQ_BOOST,
            Number::RelayMaxHiKbps => descriptions::RELAY_MAX_HI_KBPS,
            Number::IdleRefineMaxEdge => descriptions::IDLE_REFINE_MAX_EDGE,
            Number::IdleRefineMinFrameKb => descriptions::IDLE_REFINE_MIN_FRAME_KB,
            Number::IdleRefineMajorAreaPermille => descriptions::IDLE_REFINE_MAJOR_AREA_PERMILLE,
            Number::IdleRefineSettleMs => descriptions::IDLE_REFINE_SETTLE_MS,
            Number::IdleRefineSettleConstrainedMs => descriptions::IDLE_REFINE_SETTLE_CONSTRAINED_MS,
            Number::ConstrainedCqRelief => descriptions::CONSTRAINED_CQ_RELIEF,
            Number::ConstrainedQueueMs => descriptions::CONSTRAINED_QUEUE_MS,
            Number::ConstrainedHrdPct => descriptions::CONSTRAINED_HRD_PCT,
            Number::DirectQueueMs => descriptions::DIRECT_QUEUE_MS,
            Number::DirectHrdPct => descriptions::DIRECT_HRD_PCT,
            Number::SendStallMs => descriptions::SEND_STALL_MS,
            Number::RelayMaxKbps => descriptions::RELAY_MAX_KBPS,
            Number::PumpStallWarnMs => descriptions::PUMP_STALL_WARN_MS,
            Number::SlowLinkMinBitrate => descriptions::SLOW_LINK_MIN_BITRATE,
            Number::SlowLinkProfileBps => descriptions::SLOW_LINK_PROFILE_BPS,
            Number::SmootherRatePct => descriptions::SMOOTHER_RATE_PCT,
            Number::BalancedRatePct => descriptions::BALANCED_RATE_PCT,
            Number::ScaleThreads => descriptions::SCALE_THREADS,
        }
    }

    /// The smallest and the largest value that the number takes.
    pub open spec fn range(self) -> (u32, u32) {
        match self {
            Number::UpdateCheckIntervalH => (1, 8760),
            Number::RelayServerPort => (1, 65535),
            Number::OverlayRouteTickSecs => (2, 300),
            Number::OverlayNetmonDebounceMs => (100, 5000),
            Number::RcMaxSessions => (1, 8),
            Number::OverlayDirectPort => (0, 64759),
            Number::OverlayIfaceMetric => (0, 9999),
            Number::RateFactorH264 => (50, 400),
            Number::RateFactorHevc => (50, 400),
            Number::RateFactorVp9 => (50, 400),
            Number::RateFactorAv1 => (50, 400),
            Number::LanczosMinPct => (0, 100),
            Number::ScaleCqBoost => (0, 12),
            Number::RelayMaxHiKbps => (0, 100000),
            Number::IdleRefineMaxEdge => (0, 8192),
            Number::IdleRefineMinFrameKb => (0, 256),
            Number::IdleRefineMajorAreaPermille => (0, 1000),
            Number::IdleRefineSettleMs => (100, 5000),
            Number::IdleRefineSettleConstrainedMs => (100, 10000),
            Number::ConstrainedCqRelief => (0, 12),
            Number::ConstrainedQueueMs => (0, 2000),
            Number::ConstrainedHrdPct => (25, 200),
            Number::DirectQueueMs => (0, 2000),
            Number::DirectHrdPct => (25, 200),
            Number::SendStallMs => (0, 10000),
            Number::RelayMaxKbps => (100, 100000),
            Number::PumpStallWarnMs => (10, 5000),
            Number::SlowLinkMinBitrate => (50000, 1500000),
            Number::SlowLinkProfileBps => (0, 100000000),
            Number::SmootherRatePct => (30, 100),
            Number::BalancedRatePct => (30, 100),
            Number::ScaleThreads => (1, 8),
        }
    }

    /// The smallest and the largest value that the number takes.
    pub fn bounds(self) -> (r: (u32, u32))
        ensures
            r == self.range(),
    {
        match self {
            Number::UpdateCheckIntervalH => (1, 8760),
            Number::RelayServerPort => (1, 65535),
            Number::OverlayRouteTickSecs => (2, 300),
            Number::OverlayNetmonDebounceMs => (100, 5000),
            Number::RcMaxSessions => (1, 8),
            Number::OverlayDirectPort => (0, 64759),
            Number::OverlayIfaceMetric => (0, 9999),
            Number::RateFactorH264 => (50, 400),
            Number::RateFactorHevc => (50, 400),
            Number::RateFactorVp9 => (50, 400),
            Number::RateFactorAv1 => (50, 400),
            Number::LanczosMinPct => (0, 100),
            Number::ScaleCqBoost => (0, 12),
            Number::RelayMaxHiKbps => (0, 100000),
            Number::IdleRefineMaxEdge => (0, 8192),
            Number::IdleRefineMinFrameKb => (0, 256),
            Number::IdleRefineMajorAreaPermille => (0, 1000),
            Number::IdleRefineSettleMs => (100, 5000),
            Number::IdleRefineSettleConstrainedMs => (100, 10000),
            Number::ConstrainedCqRelief => (0, 12),
            Number::ConstrainedQueueMs => (0, 2000),
            Number::ConstrainedHrdPct => (25, 200),
            Number::DirectQueueMs => (0, 2000),
            Number::DirectHrdPct => (25, 200),
            Number::SendStallMs => (0, 10000),
            Number::RelayMaxKbps => (100, 100000),
            Number::PumpStallWarnMs => (10, 5000),
            Number::SlowLinkMinBitrate => (50000, 1500000),
            Number::SlowLinkProfileBps => (0, 100000000),
            Number::SmootherRatePct => (30, 100),
            Number::BalancedRatePct => (30, 100),
            Number::ScaleThreads => (1, 8),
        }
    }

    /// Whether editors show a number field; the other numbers are edited as text.
    pub open spec fn number_editor(self) -> bool {
        match self {
            Number::RelayServerPort
            | Number::OverlayRouteTickSecs
            | Number::OverlayNetmonDebounceMs
            | Number::RcMaxSessions
            | Number::OverlayDirectPort
            | Number::OverlayIfaceMetric
            | Number::SendStallMs
            | Number::RelayMaxKbps
            | Number::PumpStallWarnMs
            | Number::SlowLinkMinBitrate
            | Number::SlowLinkProfileBps => true,
            _ => false,
        }
    }

    /// Whether editors show a number field.
    pub fn has_number_editor(self) -> (r: bool)
        ensures
            r == self.number_editor(),
    {
        match self {
            Number::RelayServerPort
            | Number::OverlayRouteTickSecs
            | Number::OverlayNetmonDebounceMs
            | Number::RcMaxSessions
            | Number::OverlayDirectPort
            | Number::OverlayIfaceMetric
            | Number::SendStallMs
            | Number::RelayMaxKbps
            | Number::PumpStallWarnMs
            | Number::SlowLinkMinBitrate
            | Number::SlowLinkProfileBps => true,
            _ => false,
        }
    }
}

/// A key of the config surface.
#[derive(Debug, Clone, Copy, PartialEq, Eq, Structural)]
#[allow(missing_docs)]
pub enum Key {
    Flag(Flag),
    Toggle(Toggle),
    Number(Number),
    OverlayAdvertisedRoutes,
    OverlayExitNode,
    AdvertiseRoutes,
    PowerPolicy,
    SshPort,
    SshAuthorizedKeys,
    SshAccountMode,
    SshMaxPrivilege,
    EncoderPreference,
    OverlayPathmon,
    OverlayDemote,
    OverlayRpf,
    NetstackSocksPort,
    IceFollowRenomination,
    ForwardAcl,
    VirtualDesktopApps,
}

/// The key that goes by a name.
pub open spec fn key_named(s: Seq<char>) -> Option<Key> {
    match (flag_named(s), toggle_named(s), number_named(s)) {
        (Some(f), _, _) => Some(Key::Flag(f)),
        (None, Some(t), _) => Some(Key::Toggle(t)),
        (None, None, Some(n)) => Some(Key::Number(n)),
        _ => single_named(s),
    }
}

/// The key outside the three families that goes by a name.
pub open spec fn single_named(s: Seq<char>) -> Option<Key> {
    if s == "overlay_advertised_routes"@ {
        Some(Key::OverlayAdvertisedRoutes)
    } else if s == "overlay_exit_node"@ {
        Some(Key::OverlayExitNode)
    } else if s == "advertise_routes"@ {
        Some(Key::AdvertiseRoutes)
    } else if s == "power_policy"@ {
        Some(Key::PowerPolicy)
    } else if s == "ssh_port"@ {
        Some(Key::SshPort)
    } else if s == "ssh_authorized_keys"@ {
        Some(Key::SshAuthorizedKeys)
    } else if s == "ssh_account_mode"@ {
        Some(Key::SshAccountMode)
    } else if s == "ssh_max_privilege"@ {
        Some(Key::SshMaxPrivilege)
    } else if s == "encoder_preference"@ {
        Some(Key::EncoderPreference)
    } else if s == "overlay_pathmon"@ {
        Some(Key::OverlayPathmon)
    } else if s == "overlay_demote"@ {
        Some(Key::OverlayDemote)
    } else if s == "overlay_rpf"@ {
        Some(Key::OverlayRpf)
    } else if s == "netstack_socks_port"@ {
        Some(Key::NetstackSocksPort)
    } else if s == "ice_follow_renomination"@ {
        Some(Key::IceFollowRenomination)
    } else if s == "forward_acl"@ {
        Some(Key::ForwardAcl)
    } else if s == "virtual_desktop_apps"@ {
        Some(Key::VirtualDesktopApps)
    } else {
        None
    }
}

/// How many keys the surface has.
pub const KEY_COUNT: usize = 145;

/// The keys in the order in which they are shown.
pub open spec fn spec_key_at(i: int) -> Key {
    if i == 0 {
        Key::Flag(Flag::OverlayEnabled)
    } else if i == 1 {
        Key::Flag(Flag::OverlayMultiOrg)
    } else if i == 2 {
        Key::OverlayAdvertisedRoutes
    } else if i == 3 {
        Key::Flag(Flag::OverlayExitNodeEnabled)
    } else if i == 4 {
        Key::OverlayExitNode
    } else if i == 5 {
        Key::AdvertiseRoutes
    } else if i == 6 {
        Key::Flag(Flag::AdvertiseLocalSubnets)
    } else if i == 7 {
        Key::Flag(Flag::AutoGrantSession)
    } else if i == 8 {
        Key::Flag(Flag::EnableRemoteBrowse)
    } else if i == 9 {
        Key::Flag(Flag::ExecEnabled)
    } else if i == 10 {
        Key::Flag(Flag::MacosSuperviseGuiWorker)
    } else if i == 11 {
        Key::PowerPolicy
    } else if i == 12 {
        Key::Flag(Flag::RemoteConfigEnabled)
    } else if i == 13 {
        Key::Flag(Flag::SshEnabled)
    } else if i == 14 {
        Key::Flag(Flag::SshActivityLog)
    } else if i == 15 {
        Key::SshPort
    } else if i == 16 {
        Key::SshAuthorizedKeys
    } else if i == 17 {
        Key::SshAccountMode
    } else if i == 18 {
        Key::SshMaxPrivilege
    } else if i == 19 {
        Key::EncoderPreference
    } else if i == 20 {
        Key::Number(Number::UpdateCheckIntervalH)
    } else if i == 21 {
        Key::Toggle(Toggle::OverlayQuic)
    } else if i == 22 {
        Key::Toggle(Toggle::OverlayDirect)
    } else if i == 23 {
        Key::Toggle(Toggle::OverlayDerp)
    } else if i == 24 {
        Key::Toggle(Toggle::OverlayServerRelayStrategy)
    } else if i == 25 {
        Key::Toggle(Toggle::OverlayDerpFloor)
    } else if i == 26 {
        Key::Toggle(Toggle::OverlayOrgRelay)
    } else if i == 27 {
        Key::Toggle(Toggle::RelayServerEnabled)
    } else if i == 28 {
        Key::Number(Number::RelayServerPort)
    } else if i == 29 {
        Key::Toggle(Toggle::OverlayNetcheck)
    } else if i == 30 {
        Key::Toggle(Toggle::TunnelDerpFallback)
    } else if i == 31 {
        Key::Toggle(Toggle::TunnelPeersSurviveReattach)
    } else if i == 32 {
        Key::Toggle(Toggle::OverlayMbb)
    } else if i == 33 {
        Key::Toggle(Toggle::OverlayLanIfaceFilter)
    } else if i == 34 {
        Key::Toggle(Toggle::OverlayWslMirroredGuard)
    } else if i == 35 {
        Key::Toggle(Toggle::OverlayInitAuthFirst)
    } else if i == 36 {
        Key::Toggle(Toggle::OverlaySrflxSeek)
    } else if i == 37 {
        Key::Toggle(Toggle::WsReplacedExit)
    } else if i == 38 {
        Key::Toggle(Toggle::OverlayWarmRelay)
    } else if i == 39 {
        Key::Toggle(Toggle::OverlayQuicAsync)
    } else if i == 40 {
        Key::Toggle(Toggle::OverlayVpnVantage)
    } else if i == 41 {
        Key::Toggle(Toggle::OverlayNetd)
    } else if i == 42 {
        Key::OverlayPathmon
    } else if i == 43 {
        Key::OverlayDemote
    } else if i == 44 {
        Key::OverlayRpf
    } else if i == 45 {
        Key::Toggle(Toggle::OverlayRouteEvents)
    } else if i == 46 {
        Key::Number(Number::OverlayRouteTickSecs)
    } else if i == 47 {
        Key::Toggle(Toggle::OverlayNetmon)
    } else if i == 48 {
        Key::Number(Number::OverlayNetmonDebounceMs)
    } else if i == 49 {
        Key::NetstackSocksPort
    } else if i == 50 {
        Key::Number(Number::RcMaxSessions)
    } else if i == 51 {
        Key::Number(Number::OverlayDirectPort)
    } else if i == 52 {
        Key::Number(Number::OverlayIfaceMetric)
    } else if i == 53 {
        Key::Toggle(Toggle::SharedEncoder)
    } else if i == 54 {
        Key::Toggle(Toggle::OverlayRelayTls)
    } else if i == 55 {
        Key::Toggle(Toggle::OverlaySharedCarrier)
    } else if i == 56 {
        Key::Toggle(Toggle::OverlayRoam)
    } else if i == 57 {
        Key::Toggle(Toggle::OverlayPlaneWatchdog)
    } else if i == 58 {
        Key::Toggle(Toggle::OverlaySessionTrace)
    } else if i == 59 {
        Key::Toggle(Toggle::OverlayDiscoRespond)
    } else if i == 60 {
        Key::Toggle(Toggle::OverlayDiscoProbe)
    } else if i == 61 {
        Key::Toggle(Toggle::OverlayAnswerWhileFollowed)
    } else if i == 62 {
        Key::Toggle(Toggle::OverlayTunStableGuid)
    } else if i == 63 {
        Key::Toggle(Toggle::OverlayRouteEvict)
    } else if i == 64 {
        Key::Toggle(Toggle::OverlayRouteReclaim)
    } else if i == 65 {
        Key::Toggle(Toggle::OverlayTunPersist)
    } else if i == 66 {
        Key::Toggle(Toggle::OverlayRouteMetric0)
    } else if i == 67 {
        Key::Toggle(Toggle::OverlayRouteWin)
    } else if i == 68 {
        Key::Toggle(Toggle::LocalTurn)
    } else if i == 69 {
        Key::Toggle(Toggle::DnsAaaa)
    } else if i == 70 {
        Key::Toggle(Toggle::MagicdnsHosts)
    } else if i == 71 {
        Key::Toggle(Toggle::AutoUpdate)
    } else if i == 72 {
        Key::Toggle(Toggle::LogsUploadDisabled)
    } else if i == 73 {
        Key::Number(Number::RateFactorH264)
    } else if i == 74 {
        Key::Number(Number::RateFactorHevc)
    } else if i == 75 {
        Key::Number(Number::RateFactorVp9)
    } else if i == 76 {
        Key::Number(Number::RateFactorAv1)
    } else if i == 77 {
        Key::Number(Number::LanczosMinPct)
    } else if i == 78 {
        Key::Toggle(Toggle::NvencSpatialAq)
    } else if i == 79 {
        Key::Number(Number::ScaleCqBoost)
    } else if i == 80 {
        Key::Toggle(Toggle::IdleRefine)
    } else if i == 81 {
        Key::Toggle(Toggle::IdleRefineBalanced)
    } else if i == 82 {
        Key::Toggle(Toggle::GpuScale)
    } else if i == 83 {
        Key::Toggle(Toggle::OverlayLanCaptureProbe)
    } else if i == 84 {
        Key::Toggle(Toggle::RelayCeilingLearn)
    } else if i == 85 {
        Key::Toggle(Toggle::DrmCapture)
    } else if i == 86 {
        Key::Toggle(Toggle::Uinput)
    } else if i == 87 {
        Key::Toggle(Toggle::PortalCapture)
    } else if i == 88 {
        Key::Toggle(Toggle::PortalInput)
    } else if i == 89 {
        Key::Toggle(Toggle::MutterCapture)
    } else if i == 90 {
        Key::Toggle(Toggle::WindowCapture)
    } else if i == 91 {
        Key::Toggle(Toggle::X11Damage)
    } else if i == 92 {
        Key::Toggle(Toggle::OverlayKeyRotation)
    } else if i == 93 {
        Key::Number(Number::RelayMaxHiKbps)
    } else if i == 94 {
        Key::Number(Number::IdleRefineMaxEdge)
    } else if i == 95 {
        Key::Number(Number::IdleRefineMinFrameKb)
    } else if i == 96 {
        Key::Number(Number::IdleRefineMajorAreaPermille)
    } else if i == 97 {
        Key::Number(Number::IdleRefineSettleMs)
    } else if i == 98 {
        Key::Number(Number::IdleRefineSettleConstrainedMs)
    } else if i == 99 {
        Key::Number(Number::ConstrainedCqRelief)
    } else if i == 100 {
        Key::Number(Number::ConstrainedQueueMs)
    } else if i == 101 {
        Key::Number(Number::ConstrainedHrdPct)
    } else if i == 102 {
        Key::Number(Number::DirectQueueMs)
    } else if i == 103 {
        Key::Number(Number::DirectHrdPct)
    } else if i == 104 {
        Key::Toggle(Toggle::BgRebuild)
    } else if i == 105 {
        Key::Toggle(Toggle::ParConvert)
    } else if i == 106 {
        Key::Toggle(Toggle::FpsPace)
    } else if i == 107 {
        Key::Toggle(Toggle::RelayIdrThrift)
    } else if i == 108 {
        Key::Number(Number::SendStallMs)
    } else if i == 109 {
        Key::Toggle(Toggle::RelayAgeFeedback)
    } else if i == 110 {
        Key::Toggle(Toggle::MeasuredCeiling)
    } else if i == 111 {
        Key::Toggle(Toggle::EncoderInplaceRate)
    } else if i == 112 {
        Key::Toggle(Toggle::IceRelayTcp)
    } else if i == 113 {
        Key::Number(Number::RelayMaxKbps)
    } else if i == 114 {
        Key::Toggle(Toggle::RateSlowStart)
    } else if i == 115 {
        Key::Toggle(Toggle::RatePriorDecay)
    } else if i == 116 {
        Key::Toggle(Toggle::TransitClassify)
    } else if i == 117 {
        Key::Toggle(Toggle::TransitHold)
    } else if i == 118 {
        Key::Toggle(Toggle::MediaThread)
    } else if i == 119 {
        Key::Toggle(Toggle::PumpStallWatch)
    } else if i == 120 {
        Key::Number(Number::PumpStallWarnMs)
    } else if i == 121 {
        Key::Toggle(Toggle::BgRebuildConstrained)
    } else if i == 122 {
        Key::Toggle(Toggle::SlowLinkFloor)
    } else if i == 123 {
        Key::Number(Number::SlowLinkMinBitrate)
    } else if i == 124 {
        Key::Toggle(Toggle::ConstrainedQueueMeasured)
    } else if i == 125 {
        Key::Toggle(Toggle::SeedContradiction)
    } else if i == 126 {
        Key::Toggle(Toggle::ViewerRateClamp)
    } else if i == 127 {
        Key::Toggle(Toggle::QueueDrain)
    } else if i == 128 {
        Key::Toggle(Toggle::SlowLinkProfile)
    } else if i == 129 {
        Key::Number(Number::SlowLinkProfileBps)
    } else if i == 130 {
        Key::Toggle(Toggle::AreaMinBitrate)
    } else if i == 131 {
        Key::Toggle(Toggle::PriorityResCap)
    } else if i == 132 {
        Key::Number(Number::SmootherRatePct)
    } else if i == 133 {
        Key::Number(Number::BalancedRatePct)
    } else if i == 134 {
        Key::Number(Number::ScaleThreads)
    } else if i == 135 {
        Key::IceFollowRenomination
    } else if i == 136 {
        Key::Toggle(Toggle::IceWarmStandby)
    } else if i == 137 {
        Key::Toggle(Toggle::IceOverlayHostDeprioritize)
    } else if i == 138 {
        Key::Toggle(Toggle::OverlayTierDetect)
    } else if i == 139 {
        Key::Toggle(Toggle::OverlayRttQ)
    } else if i == 140 {
        Key::Toggle(Toggle::OverlayUpwardProbe)
    } else if i == 141 {
        Key::Toggle(Toggle::RelayProbe)
    } else if i == 142 {
        Key::Toggle(Toggle::TextModNeutralize)
    } else if i == 143 {
        Key::ForwardAcl
    } else {
        Key::VirtualDesktopApps
    }
}

/// The keys in the order in which they are shown.
pub fn key_at(i: usize) -> (r: Key)
    requires
        i < KEY_COUNT,
    ensures
        r == spec_key_at(i as int),
{
    match i {
        0 => Key::Flag(Flag::OverlayEnabled),
        1 => Key::Flag(Flag::OverlayMultiOrg),
        2 => Key::OverlayAdvertisedRoutes,
        3 => Key::Flag(Flag::OverlayExitNodeEnabled),
        4 => Key::OverlayExitNode,
        5 => Key::AdvertiseRoutes,
        6 => Key::Flag(Flag::AdvertiseLocalSubnets),
        7 => Key::Flag(Flag::AutoGrantSession),
        8 => Key::Flag(Flag::EnableRemoteBrowse),
        9 => Key::Flag(Flag::ExecEnabled),
        10 => Key::Flag(Flag::MacosSuperviseGuiWorker),
        11 => Key::PowerPolicy,
        12 => Key::Flag(Flag::RemoteConfigEnabled),
        13 => Key::Flag(Flag::SshEnabled),
        14 => Key::Flag(Flag::SshActivityLog),
        15 => Key::SshPort,
        16 => Key::SshAuthorizedKeys,
        17 => Key::SshAccountMode,
        18 => Key::SshMaxPrivilege,
        19 => Key::EncoderPreference,
        20 => Key::Number(Number::UpdateCheckIntervalH),
        21 => Key::Toggle(Toggle::OverlayQuic),
        22 => Key::Toggle(Toggle::OverlayDirect),
        23 => Key::Toggle(Toggle::OverlayDerp),
        24 => Key::Toggle(Toggle::OverlayServerRelayStrategy),
        25 => Key::Toggle(Toggle::OverlayDerpFloor),
        26 => Key::Toggle(Toggle::OverlayOrgRelay),
        27 => Key::Toggle(Toggle::RelayServerEnabled),
        28 => Key::Number(Number::RelayServerPort),
        29 => Key::Toggle(Toggle::OverlayNetcheck),
        30 => Key::Toggle(Toggle::TunnelDerpFallback),
        31 => Key::Toggle(Toggle::TunnelPeersSurviveReattach),
        32 => Key::Toggle(Toggle::OverlayMbb),
        33 => Key::Toggle(Toggle::OverlayLanIfaceFilter),
        34 => Key::Toggle(Toggle::OverlayWslMirroredGuard),
        35 => Key::Toggle(Toggle::OverlayInitAuthFirst),
        36 => Key::Toggle(Toggle::OverlaySrflxSeek),
        37 => Key::Toggle(Toggle::WsReplacedExit),
        38 => Key::Toggle(Toggle::OverlayWarmRelay),
        39 => Key::Toggle(Toggle::OverlayQuicAsync),
        40 => Key::Toggle(Toggle::OverlayVpnVantage),
        41 => Key::Toggle(Toggle::OverlayNetd),
        42 => Key::OverlayPathmon,
        43 => Key::OverlayDemote,
        44 => Key::OverlayRpf,
        45 => Key::Toggle(Toggle::OverlayRouteEvents),
        46 => Key::Number(Number::OverlayRouteTickSecs),
        47 => Key::Toggle(Toggle::OverlayNetmon),
        48 => Key::Number(Number::OverlayNetmonDebounceMs),
        49 => Key::NetstackSocksPort,
        50 => Key::Number(Number::RcMaxSessions),
        51 => Key::Number(Number::OverlayDirectPort),
        52 => Key::Number(Number::OverlayIfaceMetric),
        53 => Key::Toggle(Toggle::SharedEncoder),
        54 => Key::Toggle(Toggle::OverlayRelayTls),
        55 => Key::Toggle(Toggle::OverlaySharedCarrier),
        56 => Key::Toggle(Toggle::OverlayRoam),
        57 => Key::Toggle(Toggle::OverlayPlaneWatchdog),
        58 => Key::Toggle(Toggle::OverlaySessionTrace),
        59 => Key::Toggle(Toggle::OverlayDiscoRespond),
        60 => Key::Toggle(Toggle::OverlayDiscoProbe),
        61 => Key::Toggle(Toggle::OverlayAnswerWhileFollowed),
        62 => Key::Toggle(Toggle::OverlayTunStableGuid),
        63 => Key::Toggle(Toggle::OverlayRouteEvict),
        64 => Key::Toggle(Toggle::OverlayRouteReclaim),
        65 => Key::Toggle(Toggle::OverlayTunPersist),
        66 => Key::Toggle(Toggle::OverlayRouteMetric0),
        67 => Key::Toggle(Toggle::OverlayRouteWin),
        68 => Key::Toggle(Toggle::LocalTurn),
        69 => Key::Toggle(Toggle::DnsAaaa),
        70 => Key::Toggle(Toggle::MagicdnsHosts),
        71 => Key::Toggle(Toggle::AutoUpdate),
        72 => Key::Toggle(Toggle::LogsUploadDisabled),
        73 => Key::Number(Number::RateFactorH264),
        74 => Key::Number(Number::RateFactorHevc),
        75 => Key::Number(Number::RateFactorVp9),
        76 => Key::Number(Number::RateFactorAv1),
        77 => Key::Number(Number::LanczosMinPct),
        78 => Key::Toggle(Toggle::NvencSpatialAq),
        79 => Key::Number(Number::ScaleCqBoost),
        80 => Key::Toggle(Toggle::IdleRefine),
        81 => Key::Toggle(Toggle::IdleRefineBalanced),
        82 => Key::Toggle(Toggle::GpuScale),
        83 => Key::Toggle(Toggle::OverlayLanCaptureProbe),
        84 => Key::Toggle(Toggle::RelayCeilingLearn),
        85 => Key::Toggle(Toggle::DrmCapture),
        86 => Key::Toggle(Toggle::Uinput),
        87 => Key::Toggle(Toggle::PortalCapture),
        88 => Key::Toggle(Toggle::PortalInput),
        89 => Key::Toggle(Toggle::MutterCapture),
        90 => Key::Toggle(Toggle::WindowCapture),
        91 => Key::Toggle(Toggle::X11Damage),
        92 => Key::Toggle(Toggle::OverlayKeyRotation),
        93 => Key::Number(Number::RelayMaxHiKbps),
        94 => Key::Number(Number::IdleRefineMaxEdge),
        95 => Key::Number(Number::IdleRefineMinFrameKb),
        96 => Key::Number(Number::IdleRefineMajorAreaPermille),
        97 => Key::Number(Number::IdleRefineSettleMs),
        98 => Key::Number(Number::IdleRefineSettleConstrainedMs),
        99 => Key::Number(Number::ConstrainedCqRelief),
        100 => Key::Number(Number::ConstrainedQueueMs),
        101 => Key::Number(Number::ConstrainedHrdPct),
        102 => Key::Number(Number::DirectQueueMs),
        103 => Key::Number(Number::DirectHrdPct),
        104 => Key::Toggle(Toggle::BgRebuild),
        105 => Key::Toggle(Toggle::ParConvert),
        106 => Key::Toggle(Toggle::FpsPace),
        107 => Key::Toggle(Toggle::RelayIdrThrift),
        108 => Key::Number(Number::SendStallMs),
        109 => Key::Toggle(Toggle::RelayAgeFeedback),
        110 => Key::Toggle(Toggle::MeasuredCeiling),
        111 => Key::Toggle(Toggle::EncoderInplaceRate),
        112 => Key::Toggle(Toggle::IceRelayTcp),
        113 => Key::Number(Number::RelayMaxKbps),
        114 => Key::Toggle(Toggle::RateSlowStart),
        115 => Key::Toggle(Toggle::RatePriorDecay),
        116 => Key::Toggle(Toggle::TransitClassify),
        117 => Key::Toggle(Toggle::TransitHold),
        118 => Key::Toggle(Toggle::MediaThread),
        119 => Key::Toggle(Toggle::PumpStallWatch),
        120 => Key::Number(Number::PumpStallWarnMs),
        121 => Key::Toggle(Toggle::BgRebuildConstrained),
        122 => Key::Toggle(Toggle::SlowLinkFloor),
        123 => Key::Number(Number::SlowLinkMinBitrate),
        124 => Key::Toggle(Toggle::ConstrainedQueueMeasured),
        125 => Key::Toggle(Toggle::SeedContradiction),
        126 => Key::Toggle(Toggle::ViewerRateClamp),
        127 => Key::Toggle(Toggle::QueueDrain),
        128 => Key::Toggle(Toggle::SlowLinkProfile),
        129 => Key::Number(Number::SlowLinkProfileBps),
        130 => Key::Toggle(Toggle::AreaMinBitrate),
        131 => Key::Toggle(Toggle::PriorityResCap),
        132 => Key::Number(Number::SmootherRatePct),
        133 => Key::Number(Number::BalancedRatePct),
        134 => Key::Number(Number::ScaleThreads),
        135 => Key::IceFollowRenomination,
        136 => Key::Toggle(Toggle::IceWarmStandby),
        137 => Key::Toggle(Toggle::IceOverlayHostDeprioritize),
        138 => Key::Toggle(Toggle::OverlayTierDetect),
        139 => Key::Toggle(Toggle::OverlayRttQ),
        140 => Key::Toggle(Toggle::OverlayUpwardProbe),
        141 => Key::Toggle(Toggle::RelayProbe),
        142 => Key::Toggle(Toggle::TextModNeutralize),
        143 => Key::ForwardAcl,
        _ => Key::VirtualDesktopApps,
    }
}

impl Key {
    /// The name of the key.
    pub open spec fn spec_name(self) -> &'static str {
        match self {
            Key::Flag(x) => x.spec_name(),
            Key::Toggle(x) => x.spec_name(),
            Key::Number(x) => x.spec_name(),
            Key::OverlayAdvertisedRoutes => "overlay_advertised_routes",
            Key::OverlayExitNode => "overlay_exit_node",
            Key::AdvertiseRoutes => "advertise_routes",
            Key::PowerPolicy => "power_policy",
            Key::SshPort => "ssh_port",
            Key::SshAuthorizedKeys => "ssh_authorized_keys",
            Key::SshAccountMode => "ssh_account_mode",
            Key::SshMaxPrivilege => "ssh_max_privilege",
            Key::EncoderPreference => "encoder_preference",
            Key::OverlayPathmon => "overlay_pathmon",
            Key::OverlayDemote => "overlay_demote",
            Key::OverlayRpf => "overlay_rpf",
            Key::NetstackSocksPort => "netstack_socks_port",
            Key::IceFollowRenomination => "ice_follow_renomination",
            Key::ForwardAcl => "forward_acl",
            Key::VirtualDesktopApps => "virtual_desktop_apps",
        }
    }

    /// The name of the key.
    pub fn name(self) -> (r: &'static str)
        ensures
            r@ == self.spec_name()@,
    {
        match self {
            Key::Flag(x) => x.name(),
            Key::Toggle(x) => x.name(),
            Key::Number(x) => x.name(),
            Key::OverlayAdvertisedRoutes => "overlay_advertised_routes",
            Key::OverlayExitNode => "overlay_exit_node",
            Key::AdvertiseRoutes => "advertise_routes",
            Key::PowerPolicy => "power_policy",
            Key::SshPort => "ssh_port",
            Key::SshAuthorizedKeys => "ssh_authorized_keys",
            Key::SshAccountMode => "ssh_account_mode",
            Key::SshMaxPrivilege => "ssh_max_privilege",
            Key::EncoderPreference => "encoder_preference",
            Key::OverlayPathmon => "overlay_pathmon",
            Key::OverlayDemote => "overlay_demote",
            Key::OverlayRpf => "overlay_rpf",
            Key::NetstackSocksPort => "netstack_socks_port",
            Key::IceFollowRenomination => "ice_follow_renomination",
            Key::ForwardAcl => "forward_acl",
            Key::VirtualDesktopApps => "virtual_desktop_apps",
        }
    }

    /// What the key does, in one line.
    pub open spec fn spec_description(self) -> &'static str {
        match self {
            Key::Flag(x) => x.spec_description(),
            Key::Toggle(x) => x.spec_description(),
            Key::Number(x) => x.spec_description(),
            Key::OverlayAdvertisedRoutes => descriptions::OVERLAY_ADVERTISED_ROUTES,
            Key::OverlayExitNode => descriptions::OVERLAY_EXIT_NODE,
            Key::AdvertiseRoutes => descriptions::ADVERTISE_ROUTES,
            Key::PowerPolicy => descriptions::POWER_POLICY,
            Key::SshPort => descriptions::SSH_PORT,
            Key::SshAuthorizedKeys => descriptions::SSH_AUTHORIZED_KEYS,
            Key::SshAccountMode => descriptions::SSH_ACCOUNT_MODE,
            Key::SshMaxPrivilege => descriptions::SSH_MAX_PRIVILEGE,
            Key::EncoderPreference => descriptions::ENCODER_PREFERENCE,
            Key::OverlayPathmon => descriptions::OVERLAY_PATHMON,
            Key::OverlayDemote => descriptions::OVERLAY_DEMOTE,
            Key::OverlayRpf => descriptions::OVERLAY_RPF,
            Key::NetstackSocksPort => descriptions::NETSTACK_SOCKS_PORT,
            Key::IceFollowRenomination => descriptions::ICE_FOLLOW_RENOMINATION,
            Key::ForwardAcl => descriptions::FORWARD_ACL,
            Key::VirtualDesktopApps => descriptions::VIRTUAL_DESKTOP_APPS,
        }
    }

    /// What the key does, in one line.
    pub fn description(self) -> (r: &'static str)
        ensures
            r@ == self.spec_description()@,
    {
        match self {
            Key::Flag(x) => x.description(),
            Key::Toggle(x) => x.description(),
            Key::Number(x) => x.description(),
            Key::OverlayAdvertisedRoutes => descriptions::OVERLAY_ADVERTISED_ROUTES,
            Key::OverlayExitNode => descriptions::OVERLAY_EXIT_NODE,
            Key::AdvertiseRoutes => descriptions::ADVERTISE_ROUTES,
            Key::PowerPolicy => descriptions::POWER_POLICY,
            Key::SshPort => descriptions::SSH_PORT,
            Key::SshAuthorizedKeys => descriptions::SSH_AUTHORIZED_KEYS,
            Key::SshAccountMode => descriptions::SSH_ACCOUNT_MODE,
            Key::SshMaxPrivilege => descriptions::SSH_MAX_PRIVILEGE,
            Key::EncoderPreference => descriptions::ENCODER_PREFERENCE,
            Key::OverlayPathmon => descriptions::OVERLAY_PATHMON,
            Key::OverlayDemote => descriptions::OVERLAY_DEMOTE,
            Key::OverlayRpf => descriptions::OVERLAY_RPF,
            Key::NetstackSocksPort => descriptions::NETSTACK_SOCKS_PORT,
            Key::IceFollowRenomination => descriptions::ICE_FOLLOW_RENOMINATION,
            Key::ForwardAcl => descriptions::FORWARD_ACL,
            Key::VirtualDesktopApps => descriptions::VIRTUAL_DESKTOP_APPS,
        }
    }

    /// Which editor a client shows for the key.
    pub open spec fn spec_kind(self) -> &'static str {
        match self {
            Key::Flag(_) => "bool",
            Key::Toggle(_) => "tribool",
            Key::Number(x) => if x.number_editor() {
                "number"
            } else {
                "string"
            },
            Key::OverlayAdvertisedRoutes => "list",
            Key::OverlayExitNode => "string",
            Key::AdvertiseRoutes => "list",
            Key::PowerPolicy => "never|on-ac|always",
            Key::SshPort => "string",
            Key::SshAuthorizedKeys => "list",
            Key::SshAccountMode => "string",
            Key::SshMaxPrivilege => "string",
            Key::EncoderPreference => "enum:auto|hardware|software",
            Key::OverlayPathmon => "string",
            Key::OverlayDemote => "string",
            Key::OverlayRpf => "string",
            Key::NetstackSocksPort => "number",
            Key::IceFollowRenomination => "enum:auto|always|never",
            Key::ForwardAcl => "json",
            Key::VirtualDesktopApps => "json",
        }
    }

    /// Which editor a client shows for the key.
    pub fn kind(self) -> (r: &'static str)
        ensures
            r@ == self.spec_kind()@,
    {
        match self {
            Key::Flag(_) => "bool",
            Key::Toggle(_) => "tribool",
            Key::Number(x) => if x.has_number_editor() {
                "number"
            } else {
                "string"
            },
            Key::OverlayAdvertisedRoutes => "list",
            Key::OverlayExitNode => "string",
            Key::AdvertiseRoutes => "list",
            Key::PowerPolicy => "never|on-ac|always",
            Key::SshPort => "string",
            Key::SshAuthorizedKeys => "list",
            Key::SshAccountMode => "string",
            Key::SshMaxPrivilege => "string",
            Key::EncoderPreference => "enum:auto|hardware|software",
            Key::OverlayPathmon => "string",
            Key::OverlayDemote => "string",
            Key::OverlayRpf => "string",
            Key::NetstackSocksPort => "number",
            Key::IceFollowRenomination => "enum:auto|always|never",
            Key::ForwardAcl => "json",
            Key::VirtualDesktopApps => "json",
        }
    }

    /// The key that goes by a name.
    pub fn named(s: &str) -> (r: Option<Key>)
        ensures
            r == key_named(s@),
    {
        match Flag::named(s) {
            Some(f) => Some(Key::Flag(f)),
            None => match Toggle::named(s) {
                Some(t) => Some(Key::Toggle(t)),
                None => match Number::named(s) {
                    Some(n) => Some(Key::Number(n)),
                    None => single(s),
                },
            },
        }
    }
}

fn single(s: &str) -> (r: Option<Key>)
    ensures
        r == single_named(s@),
{
    if same(s, "overlay_advertised_routes") {
        Some(Key::OverlayAdvertisedRoutes)
    } else if same(s, "overlay_exit_node") {
        Some(Key::OverlayExitNode)
    } else if same(s, "advertise_routes") {
        Some(Key::AdvertiseRoutes)
    } else if same(s, "power_policy") {
        Some(Key::PowerPolicy)
    } else if same(s, "ssh_port") {
        Some(Key::SshPort)
    } else if same(s, "ssh_authorized_keys") {
        Some(Key::SshAuthorizedKeys)
    } else if same(s, "ssh_account_mode") {
        Some(Key::SshAccountMode)
    } else if same(s, "ssh_max_privilege") {
        Some(Key::SshMaxPrivilege)
    } else if same(s, "encoder_preference") {
        Some(Key::EncoderPreference)
    } else if same(s, "overlay_pathmon") {
        Some(Key::OverlayPathmon)
    } else if same(s, "overlay_demote") {
        Some(Key::OverlayDemote)
    } else if same(s, "overlay_rpf") {
        Some(Key::OverlayRpf)
    } else if same(s, "netstack_socks_port") {
        Some(Key::NetstackSocksPort)
    } else if same(s, "ice_follow_renomination") {
        Some(Key::IceFollowRenomination)
    } else if same(s, "forward_acl") {
        Some(Key::ForwardAcl)
    } else if same(s, "virtual_desktop_apps") {
        Some(Key::VirtualDesktopApps)
    } else {
        None
    }
}

} // verus!
