//! The operator knobs that reach the daemon as environment fallbacks, and the
//! machine's derived stable port.
use vstd::prelude::*;
use crate::config::agent::AgentConfig;
use crate::config::keys::{Number, Toggle};

verus! {

/// The first of the derived port bases.
pub const DERIVED_PORT_BASE: u32 = 43648;

/// How many derived port bases there are.
pub const DERIVED_PORT_SLOTS: u32 = 32;

/// How far neighbouring port bases lie apart.
pub const DERIVED_PORT_STRIDE: u32 = 8;

/// How many switches have an environment fallback.
pub const BRIDGED_BOOLS: usize = 83;

/// How many numbers have an environment fallback.
pub const BRIDGED_NUMERICS: usize = 29;

/// FNV-1a over 64 bits.
pub open spec fn fnv1a(bytes: Seq<u8>) -> u64
    decreases bytes.len(),
{
    if bytes.len() == 0 {
        0xcbf2_9ce4_8422_2325
    } else {
        (fnv1a(bytes.drop_last()) ^ bytes.last() as u64).wrapping_mul(0x0000_0100_0000_01b3)
    }
}

/// The machine's stable direct port: one of 32 bases, by the hash of the
/// machine id's UTF-8 bytes.
pub open spec fn derived_port(machine_id: Seq<char>) -> int {
    DERIVED_PORT_BASE + (fnv1a(vstd::utf8::encode_utf8(machine_id)) % 32) * 8
}

/// The machine's stable direct port.
pub fn derived_default_direct_port(machine_id: &str) -> (r: u32)
    ensures
        r == derived_port(machine_id@),
{
    let bytes: &[u8] = machine_id.as_bytes();
    let mut h: u64 = 0xcbf2_9ce4_8422_2325;
    let mut i: usize = 0;
    proof {
        assert(bytes@.take(0) =~= seq![]);
    }
    while i < bytes.len()
        invariant
            i <= bytes@.len(),
            h == fnv1a(bytes@.take(i as int)),
        decreases bytes@.len() - i,
    {
        proof {
            assert(bytes@.take(i + 1).drop_last() =~= bytes@.take(i as int));
            assert(bytes@.take(i + 1).last() == bytes@[i as int]);
        }
        h = (h ^ bytes[i] as u64).wrapping_mul(0x0000_0100_0000_01b3);
        i = i + 1;
    }
    proof {
        assert(bytes@.take(bytes@.len() as int) =~= bytes@);
    }
    let slot: u32 = (h % 32) as u32;
    DERIVED_PORT_BASE + slot * DERIVED_PORT_STRIDE
}

/// Every derived port is one of the bases: in the band, on a slot.
pub proof fn derived_port_is_a_base(machine_id: Seq<char>)
    ensures
        DERIVED_PORT_BASE <= derived_port(machine_id) <= DERIVED_PORT_BASE + (DERIVED_PORT_SLOTS
            - 1) * DERIVED_PORT_STRIDE,
        (derived_port(machine_id) - DERIVED_PORT_BASE) % (DERIVED_PORT_STRIDE as int) == 0,
{
}

/// The bridged switches and their environment suffixes, in order.
pub open spec fn spec_bool_bridge(i: int) -> (&'static str, Toggle) {
    if i == 0 {
        ("SHARED_ENCODER", Toggle::SharedEncoder)
    } else if i == 1 {
        ("AREA_MIN_BITRATE", Toggle::AreaMinBitrate)
    } else if i == 2 {
        ("MEASURED_CEILING", Toggle::MeasuredCeiling)
    } else if i == 3 {
        ("ENCODER_INPLACE_RATE", Toggle::EncoderInplaceRate)
    } else if i == 4 {
        ("ICE_RELAY_TCP", Toggle::IceRelayTcp)
    } else if i == 5 {
        ("RATE_SLOW_START", Toggle::RateSlowStart)
    } else if i == 6 {
        ("RATE_PRIOR_DECAY", Toggle::RatePriorDecay)
    } else if i == 7 {
        ("TRANSIT_CLASSIFY", Toggle::TransitClassify)
    } else if i == 8 {
        ("TRANSIT_HOLD", Toggle::TransitHold)
    } else if i == 9 {
        ("MEDIA_THREAD", Toggle::MediaThread)
    } else if i == 10 {
        ("PUMP_STALL_WATCH", Toggle::PumpStallWatch)
    } else if i == 11 {
        ("BG_REBUILD_CONSTRAINED", Toggle::BgRebuildConstrained)
    } else if i == 12 {
        ("SLOW_LINK_FLOOR", Toggle::SlowLinkFloor)
    } else if i == 13 {
        ("CONSTRAINED_QUEUE_MEASURED", Toggle::ConstrainedQueueMeasured)
    } else if i == 14 {
        ("SEED_CONTRADICTION", Toggle::SeedContradiction)
    } else if i == 15 {
        ("VIEWER_RATE_CLAMP", Toggle::ViewerRateClamp)
    } else if i == 16 {
        ("QUEUE_DRAIN", Toggle::QueueDrain)
    } else if i == 17 {
        ("SLOW_LINK_PROFILE", Toggle::SlowLinkProfile)
    } else if i == 18 {
        ("BG_REBUILD", Toggle::BgRebuild)
    } else if i == 19 {
        ("PAR_CONVERT", Toggle::ParConvert)
    } else if i == 20 {
        ("FPS_PACE", Toggle::FpsPace)
    } else if i == 21 {
        ("RELAY_IDR_THRIFT", Toggle::RelayIdrThrift)
    } else if i == 22 {
        ("RELAY_AGE_FEEDBACK", Toggle::RelayAgeFeedback)
    } else if i == 23 {
        ("PRIORITY_RES_CAP", Toggle::PriorityResCap)
    } else if i == 24 {
        ("NVENC_SPATIAL_AQ", Toggle::NvencSpatialAq)
    } else if i == 25 {
        ("IDLE_REFINE", Toggle::IdleRefine)
    } else if i == 26 {
        ("IDLE_REFINE_BALANCED", Toggle::IdleRefineBalanced)
    } else if i == 27 {
        ("GPU_SCALE", Toggle::GpuScale)
    } else if i == 28 {
        ("OVERLAY_LAN_CAPTURE_PROBE", Toggle::OverlayLanCaptureProbe)
    } else if i == 29 {
        ("RELAY_CEILING_LEARN", Toggle::RelayCeilingLearn)
    } else if i == 30 {
        ("DRM_CAPTURE", Toggle::DrmCapture)
    } else if i == 31 {
        ("UINPUT", Toggle::Uinput)
    } else if i == 32 {
        ("PORTAL_CAPTURE", Toggle::PortalCapture)
    } else if i == 33 {
        ("PORTAL_INPUT", Toggle::PortalInput)
    } else if i == 34 {
        ("MUTTER_CAPTURE", Toggle::MutterCapture)
    } else if i == 35 {
        ("WINDOW_CAPTURE", Toggle::WindowCapture)
    } else if i == 36 {
        ("X11_DAMAGE", Toggle::X11Damage)
    } else if i == 37 {
        ("OVERLAY_KEY_ROTATION", Toggle::OverlayKeyRotation)
    } else if i == 38 {
        ("OVERLAY_QUIC", Toggle::OverlayQuic)
    } else if i == 39 {
        ("OVERLAY_DIRECT", Toggle::OverlayDirect)
    } else if i == 40 {
        ("OVERLAY_DERP", Toggle::OverlayDerp)
    } else if i == 41 {
        ("OVERLAY_SERVER_RELAY_STRATEGY", Toggle::OverlayServerRelayStrategy)
    } else if i == 42 {
        ("OVERLAY_DERP_FLOOR", Toggle::OverlayDerpFloor)
    } else if i == 43 {
        ("OVERLAY_ORG_RELAY", Toggle::OverlayOrgRelay)
    } else if i == 44 {
        ("OVERLAY_NETCHECK", Toggle::OverlayNetcheck)
    } else if i == 45 {
        ("RELAY_SERVER_ENABLED", Toggle::RelayServerEnabled)
    } else if i == 46 {
        ("TUNNEL_DERP_FALLBACK", Toggle::TunnelDerpFallback)
    } else if i == 47 {
        ("TUNNEL_PEERS_SURVIVE_REATTACH", Toggle::TunnelPeersSurviveReattach)
    } else if i == 48 {
        ("OVERLAY_MBB", Toggle::OverlayMbb)
    } else if i == 49 {
        ("OVERLAY_LAN_IFACE_FILTER", Toggle::OverlayLanIfaceFilter)
    } else if i == 50 {
        ("OVERLAY_WSL_MIRRORED_GUARD", Toggle::OverlayWslMirroredGuard)
    } else if i == 51 {
        ("OVERLAY_INIT_AUTH_FIRST", Toggle::OverlayInitAuthFirst)
    } else if i == 52 {
        ("OVERLAY_SRFLX_SEEK", Toggle::OverlaySrflxSeek)
    } else if i == 53 {
        ("WS_REPLACED_EXIT", Toggle::WsReplacedExit)
    } else if i == 54 {
        ("OVERLAY_WARM_RELAY", Toggle::OverlayWarmRelay)
    } else if i == 55 {
        ("OVERLAY_QUIC_ASYNC", Toggle::OverlayQuicAsync)
    } else if i == 56 {
        ("OVERLAY_VPN_VANTAGE", Toggle::OverlayVpnVantage)
    } else if i == 57 {
        ("OVERLAY_ROUTE_EVENTS", Toggle::OverlayRouteEvents)
    } else if i == 58 {
        ("OVERLAY_NETMON", Toggle::OverlayNetmon)
    } else if i == 59 {
        ("OVERLAY_RELAY_TLS", Toggle::OverlayRelayTls)
    } else if i == 60 {
        ("OVERLAY_SHARED_CARRIER", Toggle::OverlaySharedCarrier)
    } else if i == 61 {
        ("OVERLAY_ROAM", Toggle::OverlayRoam)
    } else if i == 62 {
        ("OVERLAY_PLANE_WATCHDOG", Toggle::OverlayPlaneWatchdog)
    } else if i == 63 {
        ("OVERLAY_SESSION_TRACE", Toggle::OverlaySessionTrace)
    } else if i == 64 {
        ("OVERLAY_DISCO_RESPOND", Toggle::OverlayDiscoRespond)
    } else if i == 65 {
        ("OVERLAY_DISCO_PROBE", Toggle::OverlayDiscoProbe)
    } else if i == 66 {
        ("OVERLAY_ANSWER_WHILE_FOLLOWED", Toggle::OverlayAnswerWhileFollowed)
    } else if i == 67 {
        ("OVERLAY_TUN_STABLE_GUID", Toggle::OverlayTunStableGuid)
    } else if i == 68 {
        ("OVERLAY_ROUTE_EVICT", Toggle::OverlayRouteEvict)
    } else if i == 69 {
        ("OVERLAY_ROUTE_RECLAIM", Toggle::OverlayRouteReclaim)
    } else if i == 70 {
        ("OVERLAY_TUN_PERSIST", Toggle::OverlayTunPersist)
    } else if i == 71 {
        ("OVERLAY_ROUTE_METRIC0", Toggle::OverlayRouteMetric0)
    } else if i == 72 {
        ("OVERLAY_ROUTE_WIN", Toggle::OverlayRouteWin)
    } else if i == 73 {
        ("LOCAL_TURN", Toggle::LocalTurn)
    } else if i == 74 {
        ("DNS_AAAA", Toggle::DnsAaaa)
    } else if i == 75 {
        ("MAGICDNS_HOSTS", Toggle::MagicdnsHosts)
    } else if i == 76 {
        ("AUTO_UPDATE", Toggle::AutoUpdate)
    } else if i == 77 {
        ("LOGS_UPLOAD_DISABLED", Toggle::LogsUploadDisabled)
    } else if i == 78 {
        ("OVERLAY_TIER_DETECT", Toggle::OverlayTierDetect)
    } else if i == 79 {
        ("OVERLAY_RTT_Q", Toggle::OverlayRttQ)
    } else if i == 80 {
        ("OVERLAY_UPWARD_PROBE", Toggle::OverlayUpwardProbe)
    } else if i == 81 {
        ("RELAY_PROBE", Toggle::RelayProbe)
    } else {
        ("TEXT_MOD_NEUTRALIZE", Toggle::TextModNeutralize)
    }
}

fn bool_bridge(i: usize) -> (r: (&'static str, Toggle))
    requires
        i < BRIDGED_BOOLS,
    ensures
        r.0@ == spec_bool_bridge(i as int).0@,
        r.1 == spec_bool_bridge(i as int).1,
{
    match i {
        0 => ("SHARED_ENCODER", Toggle::SharedEncoder),
        1 => ("AREA_MIN_BITRATE", Toggle::AreaMinBitrate),
        2 => ("MEASURED_CEILING", Toggle::MeasuredCeiling),
        3 => ("ENCODER_INPLACE_RATE", Toggle::EncoderInplaceRate),
        4 => ("ICE_RELAY_TCP", Toggle::IceRelayTcp),
        5 => ("RATE_SLOW_START", Toggle::RateSlowStart),
        6 => ("RATE_PRIOR_DECAY", Toggle::RatePriorDecay),
        7 => ("TRANSIT_CLASSIFY", Toggle::TransitClassify),
        8 => ("TRANSIT_HOLD", Toggle::TransitHold),
        9 => ("MEDIA_THREAD", Toggle::MediaThread),
        10 => ("PUMP_STALL_WATCH", Toggle::PumpStallWatch),
        11 => ("BG_REBUILD_CONSTRAINED", Toggle::BgRebuildConstrained),
        12 => ("SLOW_LINK_FLOOR", Toggle::SlowLinkFloor),
        13 => ("CONSTRAINED_QUEUE_MEASURED", Toggle::ConstrainedQueueMeasured),
        14 => ("SEED_CONTRADICTION", Toggle::SeedContradiction),
        15 => ("VIEWER_RATE_CLAMP", Toggle::ViewerRateClamp),
        16 => ("QUEUE_DRAIN", Toggle::QueueDrain),
        17 => ("SLOW_LINK_PROFILE", Toggle::SlowLinkProfile),
        18 => ("BG_REBUILD", Toggle::BgRebuild),
        19 => ("PAR_CONVERT", Toggle::ParConvert),
        20 => ("FPS_PACE", Toggle::FpsPace),
        21 => ("RELAY_IDR_THRIFT", Toggle::RelayIdrThrift),
        22 => ("RELAY_AGE_FEEDBACK", Toggle::RelayAgeFeedback),
        23 => ("PRIORITY_RES_CAP", Toggle::PriorityResCap),
        24 => ("NVENC_SPATIAL_AQ", Toggle::NvencSpatialAq),
        25 => ("IDLE_REFINE", Toggle::IdleRefine),
        26 => ("IDLE_REFINE_BALANCED", Toggle::IdleRefineBalanced),
        27 => ("GPU_SCALE", Toggle::GpuScale),
        28 => ("OVERLAY_LAN_CAPTURE_PROBE", Toggle::OverlayLanCaptureProbe),
        29 => ("RELAY_CEILING_LEARN", Toggle::RelayCeilingLearn),
        30 => ("DRM_CAPTURE", Toggle::DrmCapture),
        31 => ("UINPUT", Toggle::Uinput),
        32 => ("PORTAL_CAPTURE", Toggle::PortalCapture),
        33 => ("PORTAL_INPUT", Toggle::PortalInput),
        34 => ("MUTTER_CAPTURE", Toggle::MutterCapture),
        35 => ("WINDOW_CAPTURE", Toggle::WindowCapture),
        36 => ("X11_DAMAGE", Toggle::X11Damage),
        37 => ("OVERLAY_KEY_ROTATION", Toggle::OverlayKeyRotation),
        38 => ("OVERLAY_QUIC", Toggle::OverlayQuic),
        39 => ("OVERLAY_DIRECT", Toggle::OverlayDirect),
        40 => ("OVERLAY_DERP", Toggle::OverlayDerp),
        41 => ("OVERLAY_SERVER_RELAY_STRATEGY", Toggle::OverlayServerRelayStrategy),
        42 => ("OVERLAY_DERP_FLOOR", Toggle::OverlayDerpFloor),
        43 => ("OVERLAY_ORG_RELAY", Toggle::OverlayOrgRelay),
        44 => ("OVERLAY_NETCHECK", Toggle::OverlayNetcheck),
        45 => ("RELAY_SERVER_ENABLED", Toggle::RelayServerEnabled),
        46 => ("TUNNEL_DERP_FALLBACK", Toggle::TunnelDerpFallback),
        47 => ("TUNNEL_PEERS_SURVIVE_REATTACH", Toggle::TunnelPeersSurviveReattach),
        48 => ("OVERLAY_MBB", Toggle::OverlayMbb),
        49 => ("OVERLAY_LAN_IFACE_FILTER", Toggle::OverlayLanIfaceFilter),
        50 => ("OVERLAY_WSL_MIRRORED_GUARD", Toggle::OverlayWslMirroredGuard),
        51 => ("OVERLAY_INIT_AUTH_FIRST", Toggle::OverlayInitAuthFirst),
        52 => ("OVERLAY_SRFLX_SEEK", Toggle::OverlaySrflxSeek),
        53 => ("WS_REPLACED_EXIT", Toggle::WsReplacedExit),
        54 => ("OVERLAY_WARM_RELAY", Toggle::OverlayWarmRelay),
        55 => ("OVERLAY_QUIC_ASYNC", Toggle::OverlayQuicAsync),
        56 => ("OVERLAY_VPN_VANTAGE", Toggle::OverlayVpnVantage),
        57 => ("OVERLAY_ROUTE_EVENTS", Toggle::OverlayRouteEvents),
        58 => ("OVERLAY_NETMON", Toggle::OverlayNetmon),
        59 => ("OVERLAY_RELAY_TLS", Toggle::OverlayRelayTls),
        60 => ("OVERLAY_SHARED_CARRIER", Toggle::OverlaySharedCarrier),
        61 => ("OVERLAY_ROAM", Toggle::OverlayRoam),
        62 => ("OVERLAY_PLANE_WATCHDOG", Toggle::OverlayPlaneWatchdog),
        63 => ("OVERLAY_SESSION_TRACE", Toggle::OverlaySessionTrace),
        64 => ("OVERLAY_DISCO_RESPOND", Toggle::OverlayDiscoRespond),
        65 => ("OVERLAY_DISCO_PROBE", Toggle::OverlayDiscoProbe),
        66 => ("OVERLAY_ANSWER_WHILE_FOLLOWED", Toggle::OverlayAnswerWhileFollowed),
        67 => ("OVERLAY_TUN_STABLE_GUID", Toggle::OverlayTunStableGuid),
        68 => ("OVERLAY_ROUTE_EVICT", Toggle::OverlayRouteEvict),
        69 => ("OVERLAY_ROUTE_RECLAIM", Toggle::OverlayRouteReclaim),
        70 => ("OVERLAY_TUN_PERSIST", Toggle::OverlayTunPersist),
        71 => ("OVERLAY_ROUTE_METRIC0", Toggle::OverlayRouteMetric0),
        72 => ("OVERLAY_ROUTE_WIN", Toggle::OverlayRouteWin),
        73 => ("LOCAL_TURN", Toggle::LocalTurn),
        74 => ("DNS_AAAA", Toggle::DnsAaaa),
        75 => ("MAGICDNS_HOSTS", Toggle::MagicdnsHosts),
        76 => ("AUTO_UPDATE", Toggle::AutoUpdate),
        77 => ("LOGS_UPLOAD_DISABLED", Toggle::LogsUploadDisabled),
        78 => ("OVERLAY_TIER_DETECT", Toggle::OverlayTierDetect),
        79 => ("OVERLAY_RTT_Q", Toggle::OverlayRttQ),
        80 => ("OVERLAY_UPWARD_PROBE", Toggle::OverlayUpwardProbe),
        81 => ("RELAY_PROBE", Toggle::RelayProbe),
        _ => ("TEXT_MOD_NEUTRALIZE", Toggle::TextModNeutralize),
    }
}

/// Every bridged switch with its environment suffix and its configured value.
pub fn env_bridge_bools(cfg: &AgentConfig) -> (r: Vec<(&'static str, Option<bool>)>)
    ensures
        r@.len() == BRIDGED_BOOLS,
        forall|i: int|
            0 <= i < BRIDGED_BOOLS ==> (#[trigger] r@[i]).0@ == spec_bool_bridge(i).0@ && r@[i].1
                == spec_bool_bridge(i).1.get(*cfg),
{
    let mut out: Vec<(&'static str, Option<bool>)> = Vec::new();
    let mut i: usize = 0;
    while i < BRIDGED_BOOLS
        invariant
            i <= BRIDGED_BOOLS,
            out@.len() == i,
            forall|j: int|
                0 <= j < i ==> (#[trigger] out@[j]).0@ == spec_bool_bridge(j).0@ && out@[j].1
                    == spec_bool_bridge(j).1.get(*cfg),
        decreases BRIDGED_BOOLS - i,
    {
        let (suffix, key): (&'static str, Toggle) = bool_bridge(i);
        out.push((suffix, key.read(cfg)));
        i = i + 1;
    }
    out
}

/// The suffix of a bridged switch is the upper-case name of its surface key.
pub proof fn bool_suffixes_are_key_names(i: int)
    requires
        0 <= i < BRIDGED_BOOLS,
    ensures
        crate::text::lower(spec_bool_bridge(i).0@) == spec_bool_bridge(i).1.spec_name()@,
{
    if i == 0 {
        reveal_strlit("SHARED_ENCODER");
        reveal_strlit("shared_encoder");
        assert(crate::text::lower("SHARED_ENCODER"@) =~= "shared_encoder"@);
    } else if i == 1 {
        reveal_strlit("AREA_MIN_BITRATE");
        reveal_strlit("area_min_bitrate");
        assert(crate::text::lower("AREA_MIN_BITRATE"@) =~= "area_min_bitrate"@);
    } else if i == 2 {
        reveal_strlit("MEASURED_CEILING");
        reveal_strlit("measured_ceiling");
        assert(crate::text::lower("MEASURED_CEILING"@) =~= "measured_ceiling"@);
    } else if i == 3 {
        reveal_strlit("ENCODER_INPLACE_RATE");
        reveal_strlit("encoder_inplace_rate");
        assert(crate::text::lower("ENCODER_INPLACE_RATE"@) =~= "encoder_inplace_rate"@);
    } else if i == 4 {
        reveal_strlit("ICE_RELAY_TCP");
        reveal_strlit("ice_relay_tcp");
        assert(crate::text::lower("ICE_RELAY_TCP"@) =~= "ice_relay_tcp"@);
    } else if i == 5 {
        reveal_strlit("RATE_SLOW_START");
        reveal_strlit("rate_slow_start");
        assert(crate::text::lower("RATE_SLOW_START"@) =~= "rate_slow_start"@);
    } else if i == 6 {
        reveal_strlit("RATE_PRIOR_DECAY");
        reveal_strlit("rate_prior_decay");
        assert(crate::text::lower("RATE_PRIOR_DECAY"@) =~= "rate_prior_decay"@);
    } else if i == 7 {
        reveal_strlit("TRANSIT_CLASSIFY");
        reveal_strlit("transit_classify");
        assert(crate::text::lower("TRANSIT_CLASSIFY"@) =~= "transit_classify"@);
    } else if i == 8 {
        reveal_strlit("TRANSIT_HOLD");
        reveal_strlit("transit_hold");
        assert(crate::text::lower("TRANSIT_HOLD"@) =~= "transit_hold"@);
    } else if i == 9 {
        reveal_strlit("MEDIA_THREAD");
        reveal_strlit("media_thread");
        assert(crate::text::lower("MEDIA_THREAD"@) =~= "media_thread"@);
    } else if i == 10 {
        reveal_strlit("PUMP_STALL_WATCH");
        reveal_strlit("pump_stall_watch");
        assert(crate::text::lower("PUMP_STALL_WATCH"@) =~= "pump_stall_watch"@);
    } else if i == 11 {
        reveal_strlit("BG_REBUILD_CONSTRAINED");
        reveal_strlit("bg_rebuild_constrained");
        assert(crate::text::lower("BG_REBUILD_CONSTRAINED"@) =~= "bg_rebuild_constrained"@);
    } else if i == 12 {
        reveal_strlit("SLOW_LINK_FLOOR");
        reveal_strlit("slow_link_floor");
        assert(crate::text::lower("SLOW_LINK_FLOOR"@) =~= "slow_link_floor"@);
    } else if i == 13 {
        reveal_strlit("CONSTRAINED_QUEUE_MEASURED");
        reveal_strlit("constrained_queue_measured");
        assert(crate::text::lower("CONSTRAINED_QUEUE_MEASURED"@) =~= "constrained_queue_measured"@);
    } else if i == 14 {
        reveal_strlit("SEED_CONTRADICTION");
        reveal_strlit("seed_contradiction");
        assert(crate::text::lower("SEED_CONTRADICTION"@) =~= "seed_contradiction"@);
    } else if i == 15 {
        reveal_strlit("VIEWER_RATE_CLAMP");
        reveal_strlit("viewer_rate_clamp");
        assert(crate::text::lower("VIEWER_RATE_CLAMP"@) =~= "viewer_rate_clamp"@);
    } else if i == 16 {
        reveal_strlit("QUEUE_DRAIN");
        reveal_strlit("queue_drain");
        assert(crate::text::lower("QUEUE_DRAIN"@) =~= "queue_drain"@);
    } else if i == 17 {
        reveal_strlit("SLOW_LINK_PROFILE");
        reveal_strlit("slow_link_profile");
        assert(crate::text::lower("SLOW_LINK_PROFILE"@) =~= "slow_link_profile"@);
    } else if i == 18 {
        reveal_strlit("BG_REBUILD");
        reveal_strlit("bg_rebuild");
        assert(crate::text::lower("BG_REBUILD"@) =~= "bg_rebuild"@);
    } else if i == 19 {
        reveal_strlit("PAR_CONVERT");
        reveal_strlit("par_convert");
        assert(crate::text::lower("PAR_CONVERT"@) =~= "par_convert"@);
    } else if i == 20 {
        reveal_strlit("FPS_PACE");
        reveal_strlit("fps_pace");
        assert(crate::text::lower("FPS_PACE"@) =~= "fps_pace"@);
    } else if i == 21 {
        reveal_strlit("RELAY_IDR_THRIFT");
        reveal_strlit("relay_idr_thrift");
        assert(crate::text::lower("RELAY_IDR_THRIFT"@) =~= "relay_idr_thrift"@);
    } else if i == 22 {
        reveal_strlit("RELAY_AGE_FEEDBACK");
        reveal_strlit("relay_age_feedback");
        assert(crate::text::lower("RELAY_AGE_FEEDBACK"@) =~= "relay_age_feedback"@);
    } else if i == 23 {
        reveal_strlit("PRIORITY_RES_CAP");
        reveal_strlit("priority_res_cap");
        assert(crate::text::lower("PRIORITY_RES_CAP"@) =~= "priority_res_cap"@);
    } else if i == 24 {
        reveal_strlit("NVENC_SPATIAL_AQ");
        reveal_strlit("nvenc_spatial_aq");
        assert(crate::text::lower("NVENC_SPATIAL_AQ"@) =~= "nvenc_spatial_aq"@);
    } else if i == 25 {
        reveal_strlit("IDLE_REFINE");
        reveal_strlit("idle_refine");
        assert(crate::text::lower("IDLE_REFINE"@) =~= "idle_refine"@);
    } else if i == 26 {
        reveal_strlit("IDLE_REFINE_BALANCED");
        reveal_strlit("idle_refine_balanced");
        assert(crate::text::lower("IDLE_REFINE_BALANCED"@) =~= "idle_refine_balanced"@);
    } else if i == 27 {
        reveal_strlit("GPU_SCALE");
        reveal_strlit("gpu_scale");
        assert(crate::text::lower("GPU_SCALE"@) =~= "gpu_scale"@);
    } else if i == 28 {
        reveal_strlit("OVERLAY_LAN_CAPTURE_PROBE");
        reveal_strlit("overlay_lan_capture_probe");
        assert(crate::text::lower("OVERLAY_LAN_CAPTURE_PROBE"@) =~= "overlay_lan_capture_probe"@);
    } else if i == 29 {
        reveal_strlit("RELAY_CEILING_LEARN");
        reveal_strlit("relay_ceiling_learn");
        assert(crate::text::lower("RELAY_CEILING_LEARN"@) =~= "relay_ceiling_learn"@);
    } else if i == 30 {
        reveal_strlit("DRM_CAPTURE");
        reveal_strlit("drm_capture");
        assert(crate::text::lower("DRM_CAPTURE"@) =~= "drm_capture"@);
    } else if i == 31 {
        reveal_strlit("UINPUT");
        reveal_strlit("uinput");
        assert(crate::text::lower("UINPUT"@) =~= "uinput"@);
    } else if i == 32 {
        reveal_strlit("PORTAL_CAPTURE");
        reveal_strlit("portal_capture");
        assert(crate::text::lower("PORTAL_CAPTURE"@) =~= "portal_capture"@);
    } else if i == 33 {
        reveal_strlit("PORTAL_INPUT");
        reveal_strlit("portal_input");
        assert(crate::text::lower("PORTAL_INPUT"@) =~= "portal_input"@);
    } else if i == 34 {
        reveal_strlit("MUTTER_CAPTURE");
        reveal_strlit("mutter_capture");
        assert(crate::text::lower("MUTTER_CAPTURE"@) =~= "mutter_capture"@);
    } else if i == 35 {
        reveal_strlit("WINDOW_CAPTURE");
        reveal_strlit("window_capture");
        assert(crate::text::lower("WINDOW_CAPTURE"@) =~= "window_capture"@);
    } else if i == 36 {
        reveal_strlit("X11_DAMAGE");
        reveal_strlit("x11_damage");
        assert(crate::text::lower("X11_DAMAGE"@) =~= "x11_damage"@);
    } else if i == 37 {
        reveal_strlit("OVERLAY_KEY_ROTATION");
        reveal_strlit("overlay_key_rotation");
        assert(crate::text::lower("OVERLAY_KEY_ROTATION"@) =~= "overlay_key_rotation"@);
    } else if i == 38 {
        reveal_strlit("OVERLAY_QUIC");
        reveal_strlit("overlay_quic");
        assert(crate::text::lower("OVERLAY_QUIC"@) =~= "overlay_quic"@);
    } else if i == 39 {
        reveal_strlit("OVERLAY_DIRECT");
        reveal_strlit("overlay_direct");
        assert(crate::text::lower("OVERLAY_DIRECT"@) =~= "overlay_direct"@);
    } else if i == 40 {
        reveal_strlit("OVERLAY_DERP");
        reveal_strlit("overlay_derp");
        assert(crate::text::lower("OVERLAY_DERP"@) =~= "overlay_derp"@);
    } else if i == 41 {
        reveal_strlit("OVERLAY_SERVER_RELAY_STRATEGY");
        reveal_strlit("overlay_server_relay_strategy");
        assert(crate::text::lower("OVERLAY_SERVER_RELAY_STRATEGY"@) =~= "overlay_server_relay_strategy"@);
    } else if i == 42 {
        reveal_strlit("OVERLAY_DERP_FLOOR");
        reveal_strlit("overlay_derp_floor");
        assert(crate::text::lower("OVERLAY_DERP_FLOOR"@) =~= "overlay_derp_floor"@);
    } else if i == 43 {
        reveal_strlit("OVERLAY_ORG_RELAY");
        reveal_strlit("overlay_org_relay");
        assert(crate::text::lower("OVERLAY_ORG_RELAY"@) =~= "overlay_org_relay"@);
    } else if i == 44 {
        reveal_strlit("OVERLAY_NETCHECK");
        reveal_strlit("overlay_netcheck");
        assert(crate::text::lower("OVERLAY_NETCHECK"@) =~= "overlay_netcheck"@);
    } else if i == 45 {
        reveal_strlit("RELAY_SERVER_ENABLED");
        reveal_strlit("relay_server_enabled");
        assert(crate::text::lower("RELAY_SERVER_ENABLED"@) =~= "relay_server_enabled"@);
    } else if i == 46 {
        reveal_strlit("TUNNEL_DERP_FALLBACK");
        reveal_strlit("tunnel_derp_fallback");
        assert(crate::text::lower("TUNNEL_DERP_FALLBACK"@) =~= "tunnel_derp_fallback"@);
    } else if i == 47 {
        reveal_strlit("TUNNEL_PEERS_SURVIVE_REATTACH");
        reveal_strlit("tunnel_peers_survive_reattach");
        assert(crate::text::lower("TUNNEL_PEERS_SURVIVE_REATTACH"@) =~= "tunnel_peers_survive_reattach"@);
    } else if i == 48 {
        reveal_strlit("OVERLAY_MBB");
        reveal_strlit("overlay_mbb");
        assert(crate::text::lower("OVERLAY_MBB"@) =~= "overlay_mbb"@);
    } else if i == 49 {
        reveal_strlit("OVERLAY_LAN_IFACE_FILTER");
        reveal_strlit("overlay_lan_iface_filter");
        assert(crate::text::lower("OVERLAY_LAN_IFACE_FILTER"@) =~= "overlay_lan_iface_filter"@);
    } else if i == 50 {
        reveal_strlit("OVERLAY_WSL_MIRRORED_GUARD");
        reveal_strlit("overlay_wsl_mirrored_guard");
        assert(crate::text::lower("OVERLAY_WSL_MIRRORED_GUARD"@) =~= "overlay_wsl_mirrored_guard"@);
    } else if i == 51 {
        reveal_strlit("OVERLAY_INIT_AUTH_FIRST");
        reveal_strlit("overlay_init_auth_first");
        assert(crate::text::lower("OVERLAY_INIT_AUTH_FIRST"@) =~= "overlay_init_auth_first"@);
    } else if i == 52 {
        reveal_strlit("OVERLAY_SRFLX_SEEK");
        reveal_strlit("overlay_srflx_seek");
        assert(crate::text::lower("OVERLAY_SRFLX_SEEK"@) =~= "overlay_srflx_seek"@);
    } else if i == 53 {
        reveal_strlit("WS_REPLACED_EXIT");
        reveal_strlit("ws_replaced_exit");
        assert(crate::text::lower("WS_REPLACED_EXIT"@) =~= "ws_replaced_exit"@);
    } else if i == 54 {
        reveal_strlit("OVERLAY_WARM_RELAY");
        reveal_strlit("overlay_warm_relay");
        assert(crate::text::lower("OVERLAY_WARM_RELAY"@) =~= "overlay_warm_relay"@);
    } else if i == 55 {
        reveal_strlit("OVERLAY_QUIC_ASYNC");
        reveal_strlit("overlay_quic_async");
        assert(crate::text::lower("OVERLAY_QUIC_ASYNC"@) =~= "overlay_quic_async"@);
    } else if i == 56 {
        reveal_strlit("OVERLAY_VPN_VANTAGE");
        reveal_strlit("overlay_vpn_vantage");
        assert(crate::text::lower("OVERLAY_VPN_VANTAGE"@) =~= "overlay_vpn_vantage"@);
    } else if i == 57 {
        reveal_strlit("OVERLAY_ROUTE_EVENTS");
        reveal_strlit("overlay_route_events");
        assert(crate::text::lower("OVERLAY_ROUTE_EVENTS"@) =~= "overlay_route_events"@);
    } else if i == 58 {
        reveal_strlit("OVERLAY_NETMON");
        reveal_strlit("overlay_netmon");
        assert(crate::text::lower("OVERLAY_NETMON"@) =~= "overlay_netmon"@);
    } else if i == 59 {
        reveal_strlit("OVERLAY_RELAY_TLS");
        reveal_strlit("overlay_relay_tls");
        assert(crate::text::lower("OVERLAY_RELAY_TLS"@) =~= "overlay_relay_tls"@);
    } else if i == 60 {
        reveal_strlit("OVERLAY_SHARED_CARRIER");
        reveal_strlit("overlay_shared_carrier");
        assert(crate::text::lower("OVERLAY_SHARED_CARRIER"@) =~= "overlay_shared_carrier"@);
    } else if i == 61 {
        reveal_strlit("OVERLAY_ROAM");
        reveal_strlit("overlay_roam");
        assert(crate::text::lower("OVERLAY_ROAM"@) =~= "overlay_roam"@);
    } else if i == 62 {
        reveal_strlit("OVERLAY_PLANE_WATCHDOG");
        reveal_strlit("overlay_plane_watchdog");
        assert(crate::text::lower("OVERLAY_PLANE_WATCHDOG"@) =~= "overlay_plane_watchdog"@);
    } else if i == 63 {
        reveal_strlit("OVERLAY_SESSION_TRACE");
        reveal_strlit("overlay_session_trace");
        assert(crate::text::lower("OVERLAY_SESSION_TRACE"@) =~= "overlay_session_trace"@);
    } else if i == 64 {
        reveal_strlit("OVERLAY_DISCO_RESPOND");
        reveal_strlit("overlay_disco_respond");
        assert(crate::text::lower("OVERLAY_DISCO_RESPOND"@) =~= "overlay_disco_respond"@);
    } else if i == 65 {
        reveal_strlit("OVERLAY_DISCO_PROBE");
        reveal_strlit("overlay_disco_probe");
        assert(crate::text::lower("OVERLAY_DISCO_PROBE"@) =~= "overlay_disco_probe"@);
    } else if i == 66 {
        reveal_strlit("OVERLAY_ANSWER_WHILE_FOLLOWED");
        reveal_strlit("overlay_answer_while_followed");
        assert(crate::text::lower("OVERLAY_ANSWER_WHILE_FOLLOWED"@) =~= "overlay_answer_while_followed"@);
    } else if i == 67 {
        reveal_strlit("OVERLAY_TUN_STABLE_GUID");
        reveal_strlit("overlay_tun_stable_guid");
        assert(crate::text::lower("OVERLAY_TUN_STABLE_GUID"@) =~= "overlay_tun_stable_guid"@);
    } else if i == 68 {
        reveal_strlit("OVERLAY_ROUTE_EVICT");
        reveal_strlit("overlay_route_evict");
        assert(crate::text::lower("OVERLAY_ROUTE_EVICT"@) =~= "overlay_route_evict"@);
    } else if i == 69 {
        reveal_strlit("OVERLAY_ROUTE_RECLAIM");
        reveal_strlit("overlay_route_reclaim");
        assert(crate::text::lower("OVERLAY_ROUTE_RECLAIM"@) =~= "overlay_route_reclaim"@);
    } else if i == 70 {
        reveal_strlit("OVERLAY_TUN_PERSIST");
        reveal_strlit("overlay_tun_persist");
        assert(crate::text::lower("OVERLAY_TUN_PERSIST"@) =~= "overlay_tun_persist"@);
    } else if i == 71 {
        reveal_strlit("OVERLAY_ROUTE_METRIC0");
        reveal_strlit("overlay_route_metric0");
        assert(crate::text::lower("OVERLAY_ROUTE_METRIC0"@) =~= "overlay_route_metric0"@);
    } else if i == 72 {
        reveal_strlit("OVERLAY_ROUTE_WIN");
        reveal_strlit("overlay_route_win");
        assert(crate::text::lower("OVERLAY_ROUTE_WIN"@) =~= "overlay_route_win"@);
    } else if i == 73 {
        reveal_strlit("LOCAL_TURN");
        reveal_strlit("local_turn");
        assert(crate::text::lower("LOCAL_TURN"@) =~= "local_turn"@);
    } else if i == 74 {
        reveal_strlit("DNS_AAAA");
        reveal_strlit("dns_aaaa");
        assert(crate::text::lower("DNS_AAAA"@) =~= "dns_aaaa"@);
    } else if i == 75 {
        reveal_strlit("MAGICDNS_HOSTS");
        reveal_strlit("magicdns_hosts");
        assert(crate::text::lower("MAGICDNS_HOSTS"@) =~= "magicdns_hosts"@);
    } else if i == 76 {
        reveal_strlit("AUTO_UPDATE");
        reveal_strlit("auto_update");
        assert(crate::text::lower("AUTO_UPDATE"@) =~= "auto_update"@);
    } else if i == 77 {
        reveal_strlit("LOGS_UPLOAD_DISABLED");
        reveal_strlit("logs_upload_disabled");
        assert(crate::text::lower("LOGS_UPLOAD_DISABLED"@) =~= "logs_upload_disabled"@);
    } else if i == 78 {
        reveal_strlit("OVERLAY_TIER_DETECT");
        reveal_strlit("overlay_tier_detect");
        assert(crate::text::lower("OVERLAY_TIER_DETECT"@) =~= "overlay_tier_detect"@);
    } else if i == 79 {
        reveal_strlit("OVERLAY_RTT_Q");
        reveal_strlit("overlay_rtt_q");
        assert(crate::text::lower("OVERLAY_RTT_Q"@) =~= "overlay_rtt_q"@);
    } else if i == 80 {
        reveal_strlit("OVERLAY_UPWARD_PROBE");
        reveal_strlit("overlay_upward_probe");
        assert(crate::text::lower("OVERLAY_UPWARD_PROBE"@) =~= "overlay_upward_probe"@);
    } else if i == 81 {
        reveal_strlit("RELAY_PROBE");
        reveal_strlit("relay_probe");
        assert(crate::text::lower("RELAY_PROBE"@) =~= "relay_probe"@);
    } else {
        reveal_strlit("TEXT_MOD_NEUTRALIZE");
        reveal_strlit("text_mod_neutralize");
        assert(crate::text::lower("TEXT_MOD_NEUTRALIZE"@) =~= "text_mod_neutralize"@);
    }
}

/// The bridged numbers and their environment suffixes, in order.
pub open spec fn spec_numeric_bridge(i: int) -> (&'static str, Number) {
    if i == 0 {
        ("OVERLAY_IFACE_METRIC", Number::OverlayIfaceMetric)
    } else if i == 1 {
        ("RATE_FACTOR_H264", Number::RateFactorH264)
    } else if i == 2 {
        ("RATE_FACTOR_HEVC", Number::RateFactorHevc)
    } else if i == 3 {
        ("RATE_FACTOR_VP9", Number::RateFactorVp9)
    } else if i == 4 {
        ("RATE_FACTOR_AV1", Number::RateFactorAv1)
    } else if i == 5 {
        ("LANCZOS_MIN_PCT", Number::LanczosMinPct)
    } else if i == 6 {
        ("SCALE_CQ_BOOST", Number::ScaleCqBoost)
    } else if i == 7 {
        ("IDLE_REFINE_MAX_EDGE", Number::IdleRefineMaxEdge)
    } else if i == 8 {
        ("RELAY_MAX_HI_KBPS", Number::RelayMaxHiKbps)
    } else if i == 9 {
        ("IDLE_REFINE_MIN_FRAME_KB", Number::IdleRefineMinFrameKb)
    } else if i == 10 {
        ("IDLE_REFINE_MAJOR_AREA_PERMILLE", Number::IdleRefineMajorAreaPermille)
    } else if i == 11 {
        ("IDLE_REFINE_SETTLE_MS", Number::IdleRefineSettleMs)
    } else if i == 12 {
        ("IDLE_REFINE_SETTLE_CONSTRAINED_MS", Number::IdleRefineSettleConstrainedMs)
    } else if i == 13 {
        ("CONSTRAINED_CQ_RELIEF", Number::ConstrainedCqRelief)
    } else if i == 14 {
        ("CONSTRAINED_QUEUE_MS", Number::ConstrainedQueueMs)
    } else if i == 15 {
        ("SLOW_LINK_MIN_BITRATE", Number::SlowLinkMinBitrate)
    } else if i == 16 {
        ("RELAY_MAX_KBPS", Number::RelayMaxKbps)
    } else if i == 17 {
        ("PUMP_STALL_WARN_MS", Number::PumpStallWarnMs)
    } else if i == 18 {
        ("SLOW_LINK_PROFILE_BPS", Number::SlowLinkProfileBps)
    } else if i == 19 {
        ("CONSTRAINED_HRD_PCT", Number::ConstrainedHrdPct)
    } else if i == 20 {
        ("DIRECT_QUEUE_MS", Number::DirectQueueMs)
    } else if i == 21 {
        ("DIRECT_HRD_PCT", Number::DirectHrdPct)
    } else if i == 22 {
        ("SEND_STALL_MS", Number::SendStallMs)
    } else if i == 23 {
        ("SMOOTHER_RATE_PCT", Number::SmootherRatePct)
    } else if i == 24 {
        ("BALANCED_RATE_PCT", Number::BalancedRatePct)
    } else if i == 25 {
        ("SCALE_THREADS", Number::ScaleThreads)
    } else if i == 26 {
        ("RC_MAX_SESSIONS", Number::RcMaxSessions)
    } else if i == 27 {
        ("OVERLAY_DIRECT_PORT", Number::OverlayDirectPort)
    } else {
        ("RELAY_SERVER_PORT", Number::RelayServerPort)
    }
}

fn numeric_bridge(i: usize) -> (r: (&'static str, Number))
    requires
        i < BRIDGED_NUMERICS,
    ensures
        r.0@ == spec_numeric_bridge(i as int).0@,
        r.1 == spec_numeric_bridge(i as int).1,
{
    match i {
        0 => ("OVERLAY_IFACE_METRIC", Number::OverlayIfaceMetric),
        1 => ("RATE_FACTOR_H264", Number::RateFactorH264),
        2 => ("RATE_FACTOR_HEVC", Number::RateFactorHevc),
        3 => ("RATE_FACTOR_VP9", Number::RateFactorVp9),
        4 => ("RATE_FACTOR_AV1", Number::RateFactorAv1),
        5 => ("LANCZOS_MIN_PCT", Number::LanczosMinPct),
        6 => ("SCALE_CQ_BOOST", Number::ScaleCqBoost),
        7 => ("IDLE_REFINE_MAX_EDGE", Number::IdleRefineMaxEdge),
        8 => ("RELAY_MAX_HI_KBPS", Number::RelayMaxHiKbps),
        9 => ("IDLE_REFINE_MIN_FRAME_KB", Number::IdleRefineMinFrameKb),
        10 => ("IDLE_REFINE_MAJOR_AREA_PERMILLE", Number::IdleRefineMajorAreaPermille),
        11 => ("IDLE_REFINE_SETTLE_MS", Number::IdleRefineSettleMs),
        12 => ("IDLE_REFINE_SETTLE_CONSTRAINED_MS", Number::IdleRefineSettleConstrainedMs),
        13 => ("CONSTRAINED_CQ_RELIEF", Number::ConstrainedCqRelief),
        14 => ("CONSTRAINED_QUEUE_MS", Number::ConstrainedQueueMs),
        15 => ("SLOW_LINK_MIN_BITRATE", Number::SlowLinkMinBitrate),
        16 => ("RELAY_MAX_KBPS", Number::RelayMaxKbps),
        17 => ("PUMP_STALL_WARN_MS", Number::PumpStallWarnMs),
        18 => ("SLOW_LINK_PROFILE_BPS", Number::SlowLinkProfileBps),
        19 => ("CONSTRAINED_HRD_PCT", Number::ConstrainedHrdPct),
        20 => ("DIRECT_QUEUE_MS", Number::DirectQueueMs),
        21 => ("DIRECT_HRD_PCT", Number::DirectHrdPct),
        22 => ("SEND_STALL_MS", Number::SendStallMs),
        23 => ("SMOOTHER_RATE_PCT", Number::SmootherRatePct),
        24 => ("BALANCED_RATE_PCT", Number::BalancedRatePct),
        25 => ("SCALE_THREADS", Number::ScaleThreads),
        26 => ("RC_MAX_SESSIONS", Number::RcMaxSessions),
        27 => ("OVERLAY_DIRECT_PORT", Number::OverlayDirectPort),
        _ => ("RELAY_SERVER_PORT", Number::RelayServerPort),
    }
}

/// Every bridged number with its environment suffix and its configured value.
pub fn env_bridge_numerics(cfg: &AgentConfig) -> (r: Vec<(&'static str, Option<u32>)>)
    ensures
        r@.len() == BRIDGED_NUMERICS,
        forall|i: int|
            0 <= i < BRIDGED_NUMERICS ==> (#[trigger] r@[i]).0@ == spec_numeric_bridge(i).0@ && r@[i].1
                == spec_numeric_bridge(i).1.get(*cfg),
{
    let mut out: Vec<(&'static str, Option<u32>)> = Vec::new();
    let mut i: usize = 0;
    while i < BRIDGED_NUMERICS
        invariant
            i <= BRIDGED_NUMERICS,
            out@.len() == i,
            forall|j: int|
                0 <= j < i ==> (#[trigger] out@[j]).0@ == spec_numeric_bridge(j).0@ && out@[j].1
                    == spec_numeric_bridge(j).1.get(*cfg),
        decreases BRIDGED_NUMERICS - i,
    {
        let (suffix, key): (&'static str, Number) = numeric_bridge(i);
        out.push((suffix, key.read(cfg)));
        i = i + 1;
    }
    out
}

/// The suffix of a bridged number is the upper-case name of its surface key.
pub proof fn numeric_suffixes_are_key_names(i: int)
    requires
        0 <= i < BRIDGED_NUMERICS,
    ensures
        crate::text::lower(spec_numeric_bridge(i).0@) == spec_numeric_bridge(i).1.spec_name()@,
{
    if i == 0 {
        reveal_strlit("OVERLAY_IFACE_METRIC");
        reveal_strlit("overlay_iface_metric");
        assert(crate::text::lower("OVERLAY_IFACE_METRIC"@) =~= "overlay_iface_metric"@);
    } else if i == 1 {
        reveal_strlit("RATE_FACTOR_H264");
        reveal_strlit("rate_factor_h264");
        assert(crate::text::lower("RATE_FACTOR_H264"@) =~= "rate_factor_h264"@);
    } else if i == 2 {
        reveal_strlit("RATE_FACTOR_HEVC");
        reveal_strlit("rate_factor_hevc");
        assert(crate::text::lower("RATE_FACTOR_HEVC"@) =~= "rate_factor_hevc"@);
    } else if i == 3 {
        reveal_strlit("RATE_FACTOR_VP9");
        reveal_strlit("rate_factor_vp9");
        assert(crate::text::lower("RATE_FACTOR_VP9"@) =~= "rate_factor_vp9"@);
    } else if i == 4 {
        reveal_strlit("RATE_FACTOR_AV1");
        reveal_strlit("rate_factor_av1");
        assert(crate::text::lower("RATE_FACTOR_AV1"@) =~= "rate_factor_av1"@);
    } else if i == 5 {
        reveal_strlit("LANCZOS_MIN_PCT");
        reveal_strlit("lanczos_min_pct");
        assert(crate::text::lower("LANCZOS_MIN_PCT"@) =~= "lanczos_min_pct"@);
    } else if i == 6 {
        reveal_strlit("SCALE_CQ_BOOST");
        reveal_strlit("scale_cq_boost");
        assert(crate::text::lower("SCALE_CQ_BOOST"@) =~= "scale_cq_boost"@);
    } else if i == 7 {
        reveal_strlit("IDLE_REFINE_MAX_EDGE");
        reveal_strlit("idle_refine_max_edge");
        assert(crate::text::lower("IDLE_REFINE_MAX_EDGE"@) =~= "idle_refine_max_edge"@);
    } else if i == 8 {
        reveal_strlit("RELAY_MAX_HI_KBPS");
        reveal_strlit("relay_max_hi_kbps");
        assert(crate::text::lower("RELAY_MAX_HI_KBPS"@) =~= "relay_max_hi_kbps"@);
    } else if i == 9 {
        reveal_strlit("IDLE_REFINE_MIN_FRAME_KB");
        reveal_strlit("idle_refine_min_frame_kb");
        assert(crate::text::lower("IDLE_REFINE_MIN_FRAME_KB"@) =~= "idle_refine_min_frame_kb"@);
    } else if i == 10 {
        reveal_strlit("IDLE_REFINE_MAJOR_AREA_PERMILLE");
        reveal_strlit("idle_refine_major_area_permille");
        assert(crate::text::lower("IDLE_REFINE_MAJOR_AREA_PERMILLE"@) =~= "idle_refine_major_area_permille"@);
    } else if i == 11 {
        reveal_strlit("IDLE_REFINE_SETTLE_MS");
        reveal_strlit("idle_refine_settle_ms");
        assert(crate::text::lower("IDLE_REFINE_SETTLE_MS"@) =~= "idle_refine_settle_ms"@);
    } else if i == 12 {
        reveal_strlit("IDLE_REFINE_SETTLE_CONSTRAINED_MS");
        reveal_strlit("idle_refine_settle_constrained_ms");
        assert(crate::text::lower("IDLE_REFINE_SETTLE_CONSTRAINED_MS"@) =~= "idle_refine_settle_constrained_ms"@);
    } else if i == 13 {
        reveal_strlit("CONSTRAINED_CQ_RELIEF");
        reveal_strlit("constrained_cq_relief");
        assert(crate::text::lower("CONSTRAINED_CQ_RELIEF"@) =~= "constrained_cq_relief"@);
    } else if i == 14 {
        reveal_strlit("CONSTRAINED_QUEUE_MS");
        reveal_strlit("constrained_queue_ms");
        assert(crate::text::lower("CONSTRAINED_QUEUE_MS"@) =~= "constrained_queue_ms"@);
    } else if i == 15 {
        reveal_strlit("SLOW_LINK_MIN_BITRATE");
        reveal_strlit("slow_link_min_bitrate");
        assert(crate::text::lower("SLOW_LINK_MIN_BITRATE"@) =~= "slow_link_min_bitrate"@);
    } else if i == 16 {
        reveal_strlit("RELAY_MAX_KBPS");
        reveal_strlit("relay_max_kbps");
        assert(crate::text::lower("RELAY_MAX_KBPS"@) =~= "relay_max_kbps"@);
    } else if i == 17 {
        reveal_strlit("PUMP_STALL_WARN_MS");
        reveal_strlit("pump_stall_warn_ms");
        assert(crate::text::lower("PUMP_STALL_WARN_MS"@) =~= "pump_stall_warn_ms"@);
    } else if i == 18 {
        reveal_strlit("SLOW_LINK_PROFILE_BPS");
        reveal_strlit("slow_link_profile_bps");
        assert(crate::text::lower("SLOW_LINK_PROFILE_BPS"@) =~= "slow_link_profile_bps"@);
    } else if i == 19 {
        reveal_strlit("CONSTRAINED_HRD_PCT");
        reveal_strlit("constrained_hrd_pct");
        assert(crate::text::lower("CONSTRAINED_HRD_PCT"@) =~= "constrained_hrd_pct"@);
    } else if i == 20 {
        reveal_strlit("DIRECT_QUEUE_MS");
        reveal_strlit("direct_queue_ms");
        assert(crate::text::lower("DIRECT_QUEUE_MS"@) =~= "direct_queue_ms"@);
    } else if i == 21 {
        reveal_strlit("DIRECT_HRD_PCT");
        reveal_strlit("direct_hrd_pct");
        assert(crate::text::lower("DIRECT_HRD_PCT"@) =~= "direct_hrd_pct"@);
    } else if i == 22 {
        reveal_strlit("SEND_STALL_MS");
        reveal_strlit("send_stall_ms");
        assert(crate::text::lower("SEND_STALL_MS"@) =~= "send_stall_ms"@);
    } else if i == 23 {
        reveal_strlit("SMOOTHER_RATE_PCT");
        reveal_strlit("smoother_rate_pct");
        assert(crate::text::lower("SMOOTHER_RATE_PCT"@) =~= "smoother_rate_pct"@);
    } else if i == 24 {
        reveal_strlit("BALANCED_RATE_PCT");
        reveal_strlit("balanced_rate_pct");
        assert(crate::text::lower("BALANCED_RATE_PCT"@) =~= "balanced_rate_pct"@);
    } else if i == 25 {
        reveal_strlit("SCALE_THREADS");
        reveal_strlit("scale_threads");
        assert(crate::text::lower("SCALE_THREADS"@) =~= "scale_threads"@);
    } else if i == 26 {
        reveal_strlit("RC_MAX_SESSIONS");
        reveal_strlit("rc_max_sessions");
        assert(crate::text::lower("RC_MAX_SESSIONS"@) =~= "rc_max_sessions"@);
    } else if i == 27 {
        reveal_strlit("OVERLAY_DIRECT_PORT");
        reveal_strlit("overlay_direct_port");
        assert(crate::text::lower("OVERLAY_DIRECT_PORT"@) =~= "overlay_direct_port"@);
    } else {
        reveal_strlit("RELAY_SERVER_PORT");
        reveal_strlit("relay_server_port");
        assert(crate::text::lower("RELAY_SERVER_PORT"@) =~= "relay_server_port"@);
    }
}

} // verus!
