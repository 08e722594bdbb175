//! The surface lists every key, and each one once.
use vstd::prelude::*;
use crate::config::keys::{spec_key_at, Flag, Key, Number, Toggle, KEY_COUNT};

verus! {

spec fn flag_place(x: Flag) -> int {
    match x {
        Flag::OverlayEnabled => 0,
        Flag::OverlayMultiOrg => 1,
        Flag::OverlayExitNodeEnabled => 3,
        Flag::AdvertiseLocalSubnets => 6,
        Flag::AutoGrantSession => 7,
        Flag::EnableRemoteBrowse => 8,
        Flag::ExecEnabled => 9,
        Flag::MacosSuperviseGuiWorker => 10,
        Flag::RemoteConfigEnabled => 12,
        Flag::SshEnabled => 13,
        Flag::SshActivityLog => 14,
    }
}

spec fn toggle_place(x: Toggle) -> int {
    match x {
        Toggle::OverlayQuic => 21,
        Toggle::OverlayDirect => 22,
        Toggle::OverlayDerp => 23,
        Toggle::OverlayServerRelayStrategy => 24,
        Toggle::OverlayDerpFloor => 25,
        Toggle::OverlayOrgRelay => 26,
        Toggle::RelayServerEnabled => 27,
        Toggle::OverlayNetcheck => 29,
        Toggle::TunnelDerpFallback => 30,
        Toggle::TunnelPeersSurviveReattach => 31,
        Toggle::OverlayMbb => 32,
        Toggle::OverlayLanIfaceFilter => 33,
        Toggle::OverlayWslMirroredGuard => 34,
        Toggle::OverlayInitAuthFirst => 35,
        Toggle::OverlaySrflxSeek => 36,
        Toggle::WsReplacedExit => 37,
        Toggle::OverlayWarmRelay => 38,
        Toggle::OverlayQuicAsync => 39,
        Toggle::OverlayVpnVantage => 40,
        Toggle::OverlayNetd => 41,
        Toggle::OverlayRouteEvents => 45,
        Toggle::OverlayNetmon => 47,
        Toggle::SharedEncoder => 53,
        Toggle::OverlayRelayTls => 54,
        Toggle::OverlaySharedCarrier => 55,
        Toggle::OverlayRoam => 56,
        Toggle::OverlayPlaneWatchdog => 57,
        Toggle::OverlaySessionTrace => 58,
        Toggle::OverlayDiscoRespond => 59,
        Toggle::OverlayDiscoProbe => 60,
        Toggle::OverlayAnswerWhileFollowed => 61,
        Toggle::OverlayTunStableGuid => 62,
        Toggle::OverlayRouteEvict => 63,
        Toggle::OverlayRouteReclaim => 64,
        Toggle::OverlayTunPersist => 65,
        Toggle::OverlayRouteMetric0 => 66,
        Toggle::OverlayRouteWin => 67,
        Toggle::LocalTurn => 68,
        Toggle::DnsAaaa => 69,
        Toggle::MagicdnsHosts => 70,
        Toggle::AutoUpdate => 71,
        Toggle::LogsUploadDisabled => 72,
        Toggle::NvencSpatialAq => 78,
        Toggle::IdleRefine => 80,
        Toggle::IdleRefineBalanced => 81,
        Toggle::GpuScale => 82,
        Toggle::OverlayLanCaptureProbe => 83,
        Toggle::RelayCeilingLearn => 84,
        Toggle::DrmCapture => 85,
        Toggle::Uinput => 86,
        Toggle::PortalCapture => 87,
        Toggle::PortalInput => 88,
        Toggle::MutterCapture => 89,
        Toggle::WindowCapture => 90,
        Toggle::X11Damage => 91,
        Toggle::OverlayKeyRotation => 92,
        Toggle::BgRebuild => 104,
        Toggle::ParConvert => 105,
        Toggle::FpsPace => 106,
        Toggle::RelayIdrThrift => 107,
        Toggle::RelayAgeFeedback => 109,
        Toggle::MeasuredCeiling => 110,
        Toggle::EncoderInplaceRate => 111,
        Toggle::IceRelayTcp => 112,
        Toggle::RateSlowStart => 114,
        Toggle::RatePriorDecay => 115,
        Toggle::TransitClassify => 116,
        Toggle::TransitHold => 117,
        Toggle::MediaThread => 118,
        Toggle::PumpStallWatch => 119,
        Toggle::BgRebuildConstrained => 121,
        Toggle::SlowLinkFloor => 122,
        Toggle::ConstrainedQueueMeasured => 124,
        Toggle::SeedContradiction => 125,
        Toggle::ViewerRateClamp => 126,
        Toggle::QueueDrain => 127,
        Toggle::SlowLinkProfile => 128,
        Toggle::AreaMinBitrate => 130,
        Toggle::PriorityResCap => 131,
        Toggle::IceWarmStandby => 136,
        Toggle::IceOverlayHostDeprioritize => 137,
        Toggle::OverlayTierDetect => 138,
        Toggle::OverlayRttQ => 139,
        Toggle::OverlayUpwardProbe => 140,
        Toggle::RelayProbe => 141,
        Toggle::TextModNeutralize => 142,
    }
}

spec fn number_place(x: Number) -> int {
    match x {
        Number::UpdateCheckIntervalH => 20,
        Number::RelayServerPort => 28,
        Number::OverlayRouteTickSecs => 46,
        Number::OverlayNetmonDebounceMs => 48,
        Number::RcMaxSessions => 50,
        Number::OverlayDirectPort => 51,
        Number::OverlayIfaceMetric => 52,
        Number::RateFactorH264 => 73,
        Number::RateFactorHevc => 74,
        Number::RateFactorVp9 => 75,
        Number::RateFactorAv1 => 76,
        Number::LanczosMinPct => 77,
        Number::ScaleCqBoost => 79,
        Number::RelayMaxHiKbps => 93,
        Number::IdleRefineMaxEdge => 94,
        Number::IdleRefineMinFrameKb => 95,
        Number::IdleRefineMajorAreaPermille => 96,
        Number::IdleRefineSettleMs => 97,
        Number::IdleRefineSettleConstrainedMs => 98,
        Number::ConstrainedCqRelief => 99,
        Number::ConstrainedQueueMs => 100,
        Number::ConstrainedHrdPct => 101,
        Number::DirectQueueMs => 102,
        Number::DirectHrdPct => 103,
        Number::SendStallMs => 108,
        Number::RelayMaxKbps => 113,
        Number::PumpStallWarnMs => 120,
        Number::SlowLinkMinBitrate => 123,
        Number::SlowLinkProfileBps => 129,
        Number::SmootherRatePct => 132,
        Number::BalancedRatePct => 133,
        Number::ScaleThreads => 134,
    }
}

spec fn key_place(x: Key) -> int {
    match x {
        Key::Flag(f) => flag_place(f),
        Key::Toggle(t) => toggle_place(t),
        Key::Number(n) => number_place(n),
        Key::OverlayAdvertisedRoutes => 2,
        Key::OverlayExitNode => 4,
        Key::AdvertiseRoutes => 5,
        Key::PowerPolicy => 11,
        Key::SshPort => 15,
        Key::SshAuthorizedKeys => 16,
        Key::SshAccountMode => 17,
        Key::SshMaxPrivilege => 18,
        Key::EncoderPreference => 19,
        Key::OverlayPathmon => 42,
        Key::OverlayDemote => 43,
        Key::OverlayRpf => 44,
        Key::NetstackSocksPort => 49,
        Key::IceFollowRenomination => 135,
        Key::ForwardAcl => 143,
        Key::VirtualDesktopApps => 144,
    }
}

proof fn lemma_flag_at_its_place(x: Flag)
    ensures
        0 <= flag_place(x) < KEY_COUNT,
        spec_key_at(flag_place(x)) == Key::Flag(x),
{
}

proof fn lemma_toggle_at_its_place(x: Toggle)
    ensures
        0 <= toggle_place(x) < KEY_COUNT,
        spec_key_at(toggle_place(x)) == Key::Toggle(x),
{
}

proof fn lemma_number_at_its_place(x: Number)
    ensures
        0 <= number_place(x) < KEY_COUNT,
        spec_key_at(number_place(x)) == Key::Number(x),
{
}

proof fn lemma_key_at_its_place(x: Key)
    ensures
        0 <= key_place(x) < KEY_COUNT,
        spec_key_at(key_place(x)) == x,
{
    match x {
        Key::Flag(f) => lemma_flag_at_its_place(f),
        Key::Toggle(t) => lemma_toggle_at_its_place(t),
        Key::Number(n) => lemma_number_at_its_place(n),
        _ => {},
    }
}

proof fn lemma_place_of_the_key(i: int)
    requires
        0 <= i < KEY_COUNT,
    ensures
        key_place(spec_key_at(i)) == i,
{
}

/// Every key stands in the list, at one place and no other.
pub proof fn every_key_is_listed_once(key: Key) -> (place: int)
    ensures
        0 <= place < KEY_COUNT,
        spec_key_at(place) == key,
        forall|i: int| 0 <= i < KEY_COUNT && #[trigger] spec_key_at(i) == key ==> i == place,
{
    lemma_key_at_its_place(key);
    assert forall|i: int| 0 <= i < KEY_COUNT && #[trigger] spec_key_at(i) == key implies i
        == key_place(key) by {
        lemma_place_of_the_key(i);
    }
    key_place(key)
}

} // verus!
