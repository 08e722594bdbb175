//! How the environment fallbacks and the config surface hang together.
use vstd::prelude::*;
use crate::config::agent::AgentConfig;
use crate::config::bridge::{
    bool_suffixes_are_key_names, numeric_suffixes_are_key_names, spec_bool_bridge,
    spec_numeric_bridge, BRIDGED_BOOLS, BRIDGED_NUMERICS,
};
use crate::config::echo::{lemma_tight, tight};
use crate::config::key_names::{names_are_unique, names_find_their_keys};
use crate::config::keys::{key_named, Key, Number, Toggle};
use crate::config::spares::writing_spares_other_keys;
use crate::config::surface::{parsed, setting, updated, Setting};
use crate::config::surface_laws::written_value_is_held;
use crate::text::lower;

verus! {

spec fn bool_place(x: Toggle) -> int {
    match x {
        Toggle::SharedEncoder => 0,
        Toggle::AreaMinBitrate => 1,
        Toggle::MeasuredCeiling => 2,
        Toggle::EncoderInplaceRate => 3,
        Toggle::IceRelayTcp => 4,
        Toggle::RateSlowStart => 5,
        Toggle::RatePriorDecay => 6,
        Toggle::TransitClassify => 7,
        Toggle::TransitHold => 8,
        Toggle::MediaThread => 9,
        Toggle::PumpStallWatch => 10,
        Toggle::BgRebuildConstrained => 11,
        Toggle::SlowLinkFloor => 12,
        Toggle::ConstrainedQueueMeasured => 13,
        Toggle::SeedContradiction => 14,
        Toggle::ViewerRateClamp => 15,
        Toggle::QueueDrain => 16,
        Toggle::SlowLinkProfile => 17,
        Toggle::BgRebuild => 18,
        Toggle::ParConvert => 19,
        Toggle::FpsPace => 20,
        Toggle::RelayIdrThrift => 21,
        Toggle::RelayAgeFeedback => 22,
        Toggle::PriorityResCap => 23,
        Toggle::NvencSpatialAq => 24,
        Toggle::IdleRefine => 25,
        Toggle::IdleRefineBalanced => 26,
        Toggle::GpuScale => 27,
        Toggle::OverlayLanCaptureProbe => 28,
        Toggle::RelayCeilingLearn => 29,
        Toggle::DrmCapture => 30,
        Toggle::Uinput => 31,
        Toggle::PortalCapture => 32,
        Toggle::PortalInput => 33,
        Toggle::MutterCapture => 34,
        Toggle::WindowCapture => 35,
        Toggle::X11Damage => 36,
        Toggle::OverlayKeyRotation => 37,
        Toggle::OverlayQuic => 38,
        Toggle::OverlayDirect => 39,
        Toggle::OverlayDerp => 40,
        Toggle::OverlayServerRelayStrategy => 41,
        Toggle::OverlayDerpFloor => 42,
        Toggle::OverlayOrgRelay => 43,
        Toggle::OverlayNetcheck => 44,
        Toggle::RelayServerEnabled => 45,
        Toggle::TunnelDerpFallback => 46,
        Toggle::TunnelPeersSurviveReattach => 47,
        Toggle::OverlayMbb => 48,
        Toggle::OverlayLanIfaceFilter => 49,
        Toggle::OverlayWslMirroredGuard => 50,
        Toggle::OverlayInitAuthFirst => 51,
        Toggle::OverlaySrflxSeek => 52,
        Toggle::WsReplacedExit => 53,
        Toggle::OverlayWarmRelay => 54,
        Toggle::OverlayQuicAsync => 55,
        Toggle::OverlayVpnVantage => 56,
        Toggle::OverlayRouteEvents => 57,
        Toggle::OverlayNetmon => 58,
        Toggle::OverlayRelayTls => 59,
        Toggle::OverlaySharedCarrier => 60,
        Toggle::OverlayRoam => 61,
        Toggle::OverlayPlaneWatchdog => 62,
        Toggle::OverlaySessionTrace => 63,
        Toggle::OverlayDiscoRespond => 64,
        Toggle::OverlayDiscoProbe => 65,
        Toggle::OverlayAnswerWhileFollowed => 66,
        Toggle::OverlayTunStableGuid => 67,
        Toggle::OverlayRouteEvict => 68,
        Toggle::OverlayRouteReclaim => 69,
        Toggle::OverlayTunPersist => 70,
        Toggle::OverlayRouteMetric0 => 71,
        Toggle::OverlayRouteWin => 72,
        Toggle::LocalTurn => 73,
        Toggle::DnsAaaa => 74,
        Toggle::MagicdnsHosts => 75,
        Toggle::AutoUpdate => 76,
        Toggle::LogsUploadDisabled => 77,
        Toggle::OverlayTierDetect => 78,
        Toggle::OverlayRttQ => 79,
        Toggle::OverlayUpwardProbe => 80,
        Toggle::RelayProbe => 81,
        Toggle::TextModNeutralize => 82,
        _ => -1,
    }
}

proof fn lemma_bool_place(i: int)
    requires
        0 <= i < BRIDGED_BOOLS,
    ensures
        bool_place(spec_bool_bridge(i).1) == i,
{
}

/// No two bridged switches share an environment suffix or a key.
pub proof fn bool_suffixes_differ(i: int, j: int)
    requires
        0 <= i < BRIDGED_BOOLS,
        0 <= j < BRIDGED_BOOLS,
        i != j,
    ensures
        spec_bool_bridge(i).0@ != spec_bool_bridge(j).0@,
        spec_bool_bridge(i).1 != spec_bool_bridge(j).1,
{
    let a = spec_bool_bridge(i);
    let b = spec_bool_bridge(j);
    lemma_bool_place(i);
    lemma_bool_place(j);
    bool_suffixes_are_key_names(i);
    bool_suffixes_are_key_names(j);
    if a.0@ == b.0@ {
        names_are_unique(Key::Toggle(a.1), Key::Toggle(b.1));
    }
}

spec fn numeric_place(x: Number) -> int {
    match x {
        Number::OverlayIfaceMetric => 0,
        Number::RateFactorH264 => 1,
        Number::RateFactorHevc => 2,
        Number::RateFactorVp9 => 3,
        Number::RateFactorAv1 => 4,
        Number::LanczosMinPct => 5,
        Number::ScaleCqBoost => 6,
        Number::IdleRefineMaxEdge => 7,
        Number::RelayMaxHiKbps => 8,
        Number::IdleRefineMinFrameKb => 9,
        Number::IdleRefineMajorAreaPermille => 10,
        Number::IdleRefineSettleMs => 11,
        Number::IdleRefineSettleConstrainedMs => 12,
        Number::ConstrainedCqRelief => 13,
        Number::ConstrainedQueueMs => 14,
        Number::SlowLinkMinBitrate => 15,
        Number::RelayMaxKbps => 16,
        Number::PumpStallWarnMs => 17,
        Number::SlowLinkProfileBps => 18,
        Number::ConstrainedHrdPct => 19,
        Number::DirectQueueMs => 20,
        Number::DirectHrdPct => 21,
        Number::SendStallMs => 22,
        Number::SmootherRatePct => 23,
        Number::BalancedRatePct => 24,
        Number::ScaleThreads => 25,
        Number::RcMaxSessions => 26,
        Number::OverlayDirectPort => 27,
        Number::RelayServerPort => 28,
        _ => -1,
    }
}

proof fn lemma_numeric_place(i: int)
    requires
        0 <= i < BRIDGED_NUMERICS,
    ensures
        numeric_place(spec_numeric_bridge(i).1) == i,
{
}

/// No two bridged numbers share an environment suffix or a key.
pub proof fn numeric_suffixes_differ(i: int, j: int)
    requires
        0 <= i < BRIDGED_NUMERICS,
        0 <= j < BRIDGED_NUMERICS,
        i != j,
    ensures
        spec_numeric_bridge(i).0@ != spec_numeric_bridge(j).0@,
        spec_numeric_bridge(i).1 != spec_numeric_bridge(j).1,
{
    let a = spec_numeric_bridge(i);
    let b = spec_numeric_bridge(j);
    lemma_numeric_place(i);
    lemma_numeric_place(j);
    numeric_suffixes_are_key_names(i);
    numeric_suffixes_are_key_names(j);
    if a.0@ == b.0@ {
        names_are_unique(Key::Number(a.1), Key::Number(b.1));
    }
}

/// Every bridged switch is a key of the surface, under its suffix in lower
/// case, with three states: it can be switched on, switched off and cleared.
pub proof fn bridged_switches_have_keys(i: int)
    requires
        0 <= i < BRIDGED_BOOLS,
    ensures
        key_named(lower(spec_bool_bridge(i).0@)) == Some(Key::Toggle(spec_bool_bridge(i).1)),
        Key::Toggle(spec_bool_bridge(i).1).spec_kind()@ == "tribool"@,
        parsed(Key::Toggle(spec_bool_bridge(i).1), Some("1"@)) == Ok::<_, Seq<char>>(
            Setting::Toggle(Some(true)),
        ),
        parsed(Key::Toggle(spec_bool_bridge(i).1), Some("0"@)) == Ok::<_, Seq<char>>(
            Setting::Toggle(Some(false)),
        ),
        parsed(Key::Toggle(spec_bool_bridge(i).1), None) == Ok::<_, Seq<char>>(
            Setting::Toggle(None),
        ),
{
    bool_suffixes_are_key_names(i);
    names_find_their_keys(Key::Toggle(spec_bool_bridge(i).1));
    reveal_strlit("1");
    reveal_strlit("0");
    reveal_strlit("true");
    reveal_strlit("yes");
    reveal_strlit("on");
    reveal_strlit("false");
    assert(tight("1"@) && tight("0"@));
    lemma_tight("1"@);
    lemma_tight("0"@);
    assert(lower("1"@) =~= "1"@);
    assert(lower("0"@) =~= "0"@);
    assert("0"@[0] != "1"@[0]);
}

/// Every bridged number is a key of the surface, under its suffix in lower
/// case, that is edited as a number or as text.
pub proof fn bridged_numbers_have_keys(i: int)
    requires
        0 <= i < BRIDGED_NUMERICS,
    ensures
        key_named(lower(spec_numeric_bridge(i).0@)) == Some(Key::Number(spec_numeric_bridge(i).1)),
        Key::Number(spec_numeric_bridge(i).1).spec_kind()@ == "number"@ || Key::Number(
            spec_numeric_bridge(i).1,
        ).spec_kind()@ == "string"@,
{
    numeric_suffixes_are_key_names(i);
    names_find_their_keys(Key::Number(spec_numeric_bridge(i).1));
}

/// A write to a bridged switch shows in its own pair and in no other.
pub proof fn switch_write_shows_in_its_pair(
    old: AgentConfig,
    i: int,
    v: Option<bool>,
    new: AgentConfig,
    j: int,
)
    requires
        0 <= i < BRIDGED_BOOLS,
        0 <= j < BRIDGED_BOOLS,
        updated(old, Key::Toggle(spec_bool_bridge(i).1), Setting::Toggle(v), new),
    ensures
        spec_bool_bridge(j).1.get(new) == if j == i {
            v
        } else {
            spec_bool_bridge(j).1.get(old)
        },
{
    let key = Key::Toggle(spec_bool_bridge(i).1);
    let other = Key::Toggle(spec_bool_bridge(j).1);
    if i == j {
        written_value_is_held(old, key, Setting::Toggle(v), new);
    } else {
        bool_suffixes_differ(i, j);
        writing_spares_other_keys(old, key, Setting::Toggle(v), new, other);
    }
    assert(setting(new, other) == Setting::Toggle(spec_bool_bridge(j).1.get(new)));
    assert(setting(old, other) == Setting::Toggle(spec_bool_bridge(j).1.get(old)));
}

/// A write to a bridged number shows in its own pair and in no other.
pub proof fn number_write_shows_in_its_pair(
    old: AgentConfig,
    i: int,
    v: Option<u32>,
    new: AgentConfig,
    j: int,
)
    requires
        0 <= i < BRIDGED_NUMERICS,
        0 <= j < BRIDGED_NUMERICS,
        updated(old, Key::Number(spec_numeric_bridge(i).1), Setting::Number(v), new),
    ensures
        spec_numeric_bridge(j).1.get(new) == if j == i {
            v
        } else {
            spec_numeric_bridge(j).1.get(old)
        },
{
    let key = Key::Number(spec_numeric_bridge(i).1);
    let other = Key::Number(spec_numeric_bridge(j).1);
    if i == j {
        written_value_is_held(old, key, Setting::Number(v), new);
    } else {
        numeric_suffixes_differ(i, j);
        writing_spares_other_keys(old, key, Setting::Number(v), new, other);
    }
    assert(setting(new, other) == Setting::Number(spec_numeric_bridge(j).1.get(new)));
    assert(setting(old, other) == Setting::Number(spec_numeric_bridge(j).1.get(old)));
}

} // verus!
