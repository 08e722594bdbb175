//! Which texts each key of the config surface takes, and for what.
use vstd::prelude::*;
use crate::config::agent::{AgentConfig, EncoderPreferenceChoice};
use crate::config::echo::{lemma_decimal_tight, lemma_tight};
use crate::config::key_names::names_find_their_keys;
use crate::config::keys::{key_named, Flag, Key, Number, Toggle};
use crate::config::surface::{parsed, Setting};
use crate::num::{decimal, decimal_round_trip, lemma_decimal_reads_back, parse_unsigned};
use crate::text::{given, lower, trim};

verus! {

/// `number`, written in decimal, is taken exactly from `lo` to `hi`, as that
/// number.
pub open spec fn takes_from_to(key: Option<Key>, number: nat, lo: nat, hi: nat) -> bool {
    &&& key matches Some(k)
    &&& parsed(k, Some(decimal(number))) is Ok <==> lo <= number <= hi
    &&& lo <= number <= hi ==> parsed(k, Some(decimal(number))) == Ok::<_, Seq<char>>(
        Setting::Number(Some(number as u32)),
    )
}

proof fn lemma_decimal_given(n: nat)
    ensures
        given(Some(decimal(n))) == Some(decimal(n)),
        parse_unsigned(decimal(n), u32::MAX as nat) == (if n <= u32::MAX {
            Some(n)
        } else {
            None
        }),
        parse_unsigned(decimal(n), 65535) == (if n <= 65535 {
            Some(n)
        } else {
            None
        }),
{
    lemma_decimal_tight(n);
    lemma_tight(decimal(n));
    lemma_decimal_reads_back(n);
    if n <= u32::MAX {
        decimal_round_trip(n, u32::MAX as nat);
    }
    if n <= 65535 {
        decimal_round_trip(n, 65535);
    }
    assert(crate::num::is_digit(decimal(n)[0]));
}

proof fn lemma_number_range(x: Number, n: nat)
    ensures
        takes_from_to(Some(Key::Number(x)), n, x.range().0 as nat, x.range().1 as nat),
{
    lemma_decimal_given(n);
}

/// `update_check_interval_h` goes from 1 to 8760.
pub proof fn update_check_interval_h_has_its_range(n: nat)
    ensures
        takes_from_to(key_named("update_check_interval_h"@), n, 1, 8760),
{
    names_find_their_keys(Key::Number(Number::UpdateCheckIntervalH));
    lemma_number_range(Number::UpdateCheckIntervalH, n);
}

/// `relay_server_port` goes from 1 to 65535.
pub proof fn relay_server_port_has_its_range(n: nat)
    ensures
        takes_from_to(key_named("relay_server_port"@), n, 1, 65535),
{
    names_find_their_keys(Key::Number(Number::RelayServerPort));
    lemma_number_range(Number::RelayServerPort, n);
}

/// `overlay_route_tick_secs` goes from 2 to 300.
pub proof fn overlay_route_tick_secs_has_its_range(n: nat)
    ensures
        takes_from_to(key_named("overlay_route_tick_secs"@), n, 2, 300),
{
    names_find_their_keys(Key::Number(Number::OverlayRouteTickSecs));
    lemma_number_range(Number::OverlayRouteTickSecs, n);
}

/// `overlay_netmon_debounce_ms` goes from 100 to 5000.
pub proof fn overlay_netmon_debounce_ms_has_its_range(n: nat)
    ensures
        takes_from_to(key_named("overlay_netmon_debounce_ms"@), n, 100, 5000),
{
    names_find_their_keys(Key::Number(Number::OverlayNetmonDebounceMs));
    lemma_number_range(Number::OverlayNetmonDebounceMs, n);
}

/// `rc_max_sessions` goes from 1 to 8.
pub proof fn rc_max_sessions_has_its_range(n: nat)
    ensures
        takes_from_to(key_named("rc_max_sessions"@), n, 1, 8),
{
    names_find_their_keys(Key::Number(Number::RcMaxSessions));
    lemma_number_range(Number::RcMaxSessions, n);
}

/// `overlay_direct_port` goes from 0 to 64759.
pub proof fn overlay_direct_port_has_its_range(n: nat)
    ensures
        takes_from_to(key_named("overlay_direct_port"@), n, 0, 64759),
{
    names_find_their_keys(Key::Number(Number::OverlayDirectPort));
    lemma_number_range(Number::OverlayDirectPort, n);
}

/// `overlay_iface_metric` goes from 0 to 9999.
pub proof fn overlay_iface_metric_has_its_range(n: nat)
    ensures
        takes_from_to(key_named("overlay_iface_metric"@), n, 0, 9999),
{
    names_find_their_keys(Key::Number(Number::OverlayIfaceMetric));
    lemma_number_range(Number::OverlayIfaceMetric, n);
}

/// `rate_factor_h264` goes from 50 to 400.
pub proof fn rate_factor_h264_has_its_range(n: nat)
    ensures
        takes_from_to(key_named("rate_factor_h264"@), n, 50, 400),
{
    names_find_their_keys(Key::Number(Number::RateFactorH264));
    lemma_number_range(Number::RateFactorH264, n);
}

/// `rate_factor_hevc` goes from 50 to 400.
pub proof fn rate_factor_hevc_has_its_range(n: nat)
    ensures
        takes_from_to(key_named("rate_factor_hevc"@), n, 50, 400),
{
    names_find_their_keys(Key::Number(Number::RateFactorHevc));
    lemma_number_range(Number::RateFactorHevc, n);
}

/// `rate_factor_vp9` goes from 50 to 400.
pub proof fn rate_factor_vp9_has_its_range(n: nat)
    ensures
        takes_from_to(key_named("rate_factor_vp9"@), n, 50, 400),
{
    names_find_their_keys(Key::Number(Number::RateFactorVp9));
    lemma_number_range(Number::RateFactorVp9, n);
}

/// `rate_factor_av1` goes from 50 to 400.
pub proof fn rate_factor_av1_has_its_range(n: nat)
    ensures
        takes_from_to(key_named("rate_factor_av1"@), n, 50, 400),
{
    names_find_their_keys(Key::Number(Number::RateFactorAv1));
    lemma_number_range(Number::RateFactorAv1, n);
}

/// `lanczos_min_pct` goes from 0 to 100.
pub proof fn lanczos_min_pct_has_its_range(n: nat)
    ensures
        takes_from_to(key_named("lanczos_min_pct"@), n, 0, 100),
{
    names_find_their_keys(Key::Number(Number::LanczosMinPct));
    lemma_number_range(Number::LanczosMinPct, n);
}

/// `scale_cq_boost` goes from 0 to 12.
pub proof fn scale_cq_boost_has_its_range(n: nat)
    ensures
        takes_from_to(key_named("scale_cq_boost"@), n, 0, 12),
{
    names_find_their_keys(Key::Number(Number::ScaleCqBoost));
    lemma_number_range(Number::ScaleCqBoost, n);
}

/// `relay_max_hi_kbps` goes from 0 to 100000.
pub proof fn relay_max_hi_kbps_has_its_range(n: nat)
    ensures
        takes_from_to(key_named("relay_max_hi_kbps"@), n, 0, 100000),
{
    names_find_their_keys(Key::Number(Number::RelayMaxHiKbps));
    lemma_number_range(Number::RelayMaxHiKbps, n);
}

/// `idle_refine_max_edge` goes from 0 to 8192.
pub proof fn idle_refine_max_edge_has_its_range(n: nat)
    ensures
        takes_from_to(key_named("idle_refine_max_edge"@), n, 0, 8192),
{
    names_find_their_keys(Key::Number(Number::IdleRefineMaxEdge));
    lemma_number_range(Number::IdleRefineMaxEdge, n);
}

/// `idle_refine_min_frame_kb` goes from 0 to 256.
pub proof fn idle_refine_min_frame_kb_has_its_range(n: nat)
    ensures
        takes_from_to(key_named("idle_refine_min_frame_kb"@), n, 0, 256),
{
    names_find_their_keys(Key::Number(Number::IdleRefineMinFrameKb));
    lemma_number_range(Number::IdleRefineMinFrameKb, n);
}

/// `idle_refine_major_area_permille` goes from 0 to 1000.
pub proof fn idle_refine_major_area_permille_has_its_range(n: nat)
    ensures
        takes_from_to(key_named("idle_refine_major_area_permille"@), n, 0, 1000),
{
    names_find_their_keys(Key::Number(Number::IdleRefineMajorAreaPermille));
    lemma_number_range(Number::IdleRefineMajorAreaPermille, n);
}

/// `idle_refine_settle_ms` goes from 100 to 5000.
pub proof fn idle_refine_settle_ms_has_its_range(n: nat)
    ensures
        takes_from_to(key_named("idle_refine_settle_ms"@), n, 100, 5000),
{
    names_find_their_keys(Key::Number(Number::IdleRefineSettleMs));
    lemma_number_range(Number::IdleRefineSettleMs, n);
}

/// `idle_refine_settle_constrained_ms` goes from 100 to 10000.
pub proof fn idle_refine_settle_constrained_ms_has_its_range(n: nat)
    ensures
        takes_from_to(key_named("idle_refine_settle_constrained_ms"@), n, 100, 10000),
{
    names_find_their_keys(Key::Number(Number::IdleRefineSettleConstrainedMs));
    lemma_number_range(Number::IdleRefineSettleConstrainedMs, n);
}

/// `constrained_cq_relief` goes from 0 to 12.
pub proof fn constrained_cq_relief_has_its_range(n: nat)
    ensures
        takes_from_to(key_named("constrained_cq_relief"@), n, 0, 12),
{
    names_find_their_keys(Key::Number(Number::ConstrainedCqRelief));
    lemma_number_range(Number::ConstrainedCqRelief, n);
}

/// `constrained_queue_ms` goes from 0 to 2000.
pub proof fn constrained_queue_ms_has_its_range(n: nat)
    ensures
        takes_from_to(key_named("constrained_queue_ms"@), n, 0, 2000),
{
    names_find_their_keys(Key::Number(Number::ConstrainedQueueMs));
    lemma_number_range(Number::ConstrainedQueueMs, n);
}

/// `constrained_hrd_pct` goes from 25 to 200.
pub proof fn constrained_hrd_pct_has_its_range(n: nat)
    ensures
        takes_from_to(key_named("constrained_hrd_pct"@), n, 25, 200),
{
    names_find_their_keys(Key::Number(Number::ConstrainedHrdPct));
    lemma_number_range(Number::ConstrainedHrdPct, n);
}

/// `direct_queue_ms` goes from 0 to 2000.
pub proof fn direct_queue_ms_has_its_range(n: nat)
    ensures
        takes_from_to(key_named("direct_queue_ms"@), n, 0, 2000),
{
    names_find_their_keys(Key::Number(Number::DirectQueueMs));
    lemma_number_range(Number::DirectQueueMs, n);
}

/// `direct_hrd_pct` goes from 25 to 200.
pub proof fn direct_hrd_pct_has_its_range(n: nat)
    ensures
        takes_from_to(key_named("direct_hrd_pct"@), n, 25, 200),
{
    names_find_their_keys(Key::Number(Number::DirectHrdPct));
    lemma_number_range(Number::DirectHrdPct, n);
}

/// `send_stall_ms` goes from 0 to 10000.
pub proof fn send_stall_ms_has_its_range(n: nat)
    ensures
        takes_from_to(key_named("send_stall_ms"@), n, 0, 10000),
{
    names_find_their_keys(Key::Number(Number::SendStallMs));
    lemma_number_range(Number::SendStallMs, n);
}

/// `relay_max_kbps` goes from 100 to 100000.
pub proof fn relay_max_kbps_has_its_range(n: nat)
    ensures
        takes_from_to(key_named("relay_max_kbps"@), n, 100, 100000),
{
    names_find_their_keys(Key::Number(Number::RelayMaxKbps));
    lemma_number_range(Number::RelayMaxKbps, n);
}

/// `pump_stall_warn_ms` goes from 10 to 5000.
pub proof fn pump_stall_warn_ms_has_its_range(n: nat)
    ensures
        takes_from_to(key_named("pump_stall_warn_ms"@), n, 10, 5000),
{
    names_find_their_keys(Key::Number(Number::PumpStallWarnMs));
    lemma_number_range(Number::PumpStallWarnMs, n);
}

/// `slow_link_min_bitrate` goes from 50000 to 1500000.
pub proof fn slow_link_min_bitrate_has_its_range(n: nat)
    ensures
        takes_from_to(key_named("slow_link_min_bitrate"@), n, 50000, 1500000),
{
    names_find_their_keys(Key::Number(Number::SlowLinkMinBitrate));
    lemma_number_range(Number::SlowLinkMinBitrate, n);
}

/// `slow_link_profile_bps` goes from 0 to 100000000.
pub proof fn slow_link_profile_bps_has_its_range(n: nat)
    ensures
        takes_from_to(key_named("slow_link_profile_bps"@), n, 0, 100000000),
{
    names_find_their_keys(Key::Number(Number::SlowLinkProfileBps));
    lemma_number_range(Number::SlowLinkProfileBps, n);
}

/// `smoother_rate_pct` goes from 30 to 100.
pub proof fn smoother_rate_pct_has_its_range(n: nat)
    ensures
        takes_from_to(key_named("smoother_rate_pct"@), n, 30, 100),
{
    names_find_their_keys(Key::Number(Number::SmootherRatePct));
    lemma_number_range(Number::SmootherRatePct, n);
}

/// `balanced_rate_pct` goes from 30 to 100.
pub proof fn balanced_rate_pct_has_its_range(n: nat)
    ensures
        takes_from_to(key_named("balanced_rate_pct"@), n, 30, 100),
{
    names_find_their_keys(Key::Number(Number::BalancedRatePct));
    lemma_number_range(Number::BalancedRatePct, n);
}

/// `scale_threads` goes from 1 to 8.
pub proof fn scale_threads_has_its_range(n: nat)
    ensures
        takes_from_to(key_named("scale_threads"@), n, 1, 8),
{
    names_find_their_keys(Key::Number(Number::ScaleThreads));
    lemma_number_range(Number::ScaleThreads, n);
}

/// The SSH port is any port but 0.
pub proof fn ssh_port_has_its_range(n: nat)
    ensures
        key_named("ssh_port"@) matches Some(key) && {
            &&& parsed(key, Some(decimal(n))) is Ok <==> 1 <= n <= 65535
            &&& 1 <= n <= 65535 ==> parsed(key, Some(decimal(n))) == Ok::<_, Seq<char>>(
                Setting::Port(Some(n as u16)),
            )
        },
{
    names_find_their_keys(Key::SshPort);
    lemma_decimal_given(n);
}

/// The SOCKS port is one that needs no privilege.
pub proof fn netstack_socks_port_has_its_range(n: nat)
    ensures
        key_named("netstack_socks_port"@) matches Some(key) && {
            &&& parsed(key, Some(decimal(n))) is Ok <==> 1024 <= n <= 65535
            &&& 1024 <= n <= 65535 ==> parsed(key, Some(decimal(n))) == Ok::<_, Seq<char>>(
                Setting::Port(Some(n as u16)),
            )
        },
{
    names_find_their_keys(Key::NetstackSocksPort);
    lemma_decimal_given(n);
}

/// A text that says yes.
pub open spec fn says_yes(t: Seq<char>) -> bool {
    let w = lower(trim(t));
    w == "true"@ || w == "1"@ || w == "yes"@ || w == "on"@
}

/// A text that says no.
pub open spec fn says_no(t: Seq<char>) -> bool {
    let w = lower(trim(t));
    w == "false"@ || w == "0"@ || w == "no"@ || w == "off"@
}

proof fn lemma_given_trims(t: Seq<char>)
    ensures
        trim(trim(t)) == trim(t),
        given(Some(t)) == (if trim(t).len() > 0 {
            Some(trim(t))
        } else {
            None
        }),
{
    crate::text::lemma_trim_settles(t);
}

proof fn lemma_switch_words()
    ensures
        "true"@.len() > 0 && "1"@.len() > 0 && "yes"@.len() > 0 && "on"@.len() > 0,
        "false"@.len() > 0 && "0"@.len() > 0 && "no"@.len() > 0 && "off"@.len() > 0,
        forall|t: Seq<char>| says_yes(t) ==> !#[trigger] says_no(t),
{
    reveal_strlit("true");
    reveal_strlit("1");
    reveal_strlit("yes");
    reveal_strlit("on");
    reveal_strlit("false");
    reveal_strlit("0");
    reveal_strlit("no");
    reveal_strlit("off");
    assert("true"@.len() == 4 && "1"@.len() == 1 && "yes"@.len() == 3 && "on"@.len() == 2);
    assert("false"@.len() == 5 && "0"@.len() == 1 && "no"@.len() == 2 && "off"@.len() == 3);
    assert("1"@[0] != "0"@[0] && "on"@[0] != "no"@[0] && "yes"@[0] != "off"@[0]);
}

/// A flag and a switch are on after a text that says yes, off after one that
/// says no, and take no other text but a blank one. A blank text leaves a flag
/// on or off as it is built in, and a switch unset.
pub proof fn yes_is_on_and_no_is_off(f: Flag, t: Toggle, v: Seq<char>)
    ensures
        says_yes(v) ==> parsed(Key::Flag(f), Some(v)) == Ok::<_, Seq<char>>(Setting::Flag(true)),
        says_no(v) ==> parsed(Key::Flag(f), Some(v)) == Ok::<_, Seq<char>>(Setting::Flag(false)),
        parsed(Key::Flag(f), Some(v)) is Ok <==> says_yes(v) || says_no(v) || trim(v).len() == 0,
        says_yes(v) ==> parsed(Key::Toggle(t), Some(v)) == Ok::<_, Seq<char>>(
            Setting::Toggle(Some(true)),
        ),
        says_no(v) ==> parsed(Key::Toggle(t), Some(v)) == Ok::<_, Seq<char>>(
            Setting::Toggle(Some(false)),
        ),
        trim(v).len() == 0 ==> parsed(Key::Toggle(t), Some(v)) == Ok::<_, Seq<char>>(
            Setting::Toggle(None),
        ),
        parsed(Key::Toggle(t), Some(v)) is Ok <==> says_yes(v) || says_no(v) || trim(v).len() == 0,
        parsed(Key::Toggle(t), None) == Ok::<_, Seq<char>>(Setting::Toggle(None)),
{
    lemma_given_trims(v);
    lemma_switch_words();
}

/// Nobody set anything: the tunnel advertises the local subnets, sessions are
/// granted and remote browsing is on, every other flag is off, and no switch
/// and no number is set. Clearing a key brings it back there.
pub proof fn what_nobody_set(blank: AgentConfig, f: Flag, t: Toggle, n: Number)
    requires
        blank.is_blank(),
    ensures
        f.get(blank) <==> f == Flag::AdvertiseLocalSubnets || f == Flag::AutoGrantSession || f
            == Flag::EnableRemoteBrowse,
        parsed(Key::Flag(f), None) == Ok::<_, Seq<char>>(Setting::Flag(f.get(blank))),
        t.get(blank) is None,
        n.get(blank) is None,
        blank.advertise_local_subnets,
        blank.auto_grant_session,
        blank.enable_remote_browse,
        !blank.exec_enabled,
        !blank.ssh_enabled,
        !blank.ssh_activity_log,
        !blank.remote_config_enabled,
        !blank.overlay_enabled,
        !blank.overlay_multi_org,
        !blank.overlay_exit_node_enabled,
        !blank.macos_supervise_gui_worker,
{
    crate::config::echo::clearing_restores_the_built_in(Key::Flag(f), blank);
}

proof fn lemma_lower_keeps_len(s: Seq<char>)
    ensures
        lower(s).len() == s.len(),
        lower(lower(s)) == lower(s),
{
    assert forall|i: int| 0 <= i < s.len() implies #[trigger] lower(lower(s))[i] == lower(
        s,
    )[i] by {
        assert(lower(s)[i] == crate::text::lower_char(s[i]));
    }
    assert(lower(lower(s)) =~= lower(s));
}

/// The words that `encoder_preference` takes, in any case and with white space around
/// them, and what each one stands for; it takes no other.
pub proof fn encoder_preference_has_its_words(v: Seq<char>)
    ensures
        key_named("encoder_preference"@) matches Some(key) && {
            let w = lower(trim(v));
            let r = parsed(key, Some(v));
            &&& w == "auto"@ ==> r == Ok::<_, Seq<char>>(
                Setting::Encoder(EncoderPreferenceChoice::Auto),
            )
            &&& (w == "hardware"@ || w == "hw"@ || w == "mf"@) ==> r == Ok::<_, Seq<char>>(
                Setting::Encoder(EncoderPreferenceChoice::Hardware),
            )
            &&& (w == "software"@ || w == "sw"@ || w == "openh264"@) ==> r == Ok::<_, Seq<char>>(
                Setting::Encoder(EncoderPreferenceChoice::Software),
            )
            &&& r is Ok <==> w == "hw"@ || w == "mf"@ || w == "sw"@ || w == "auto"@ || w == "hardware"@ || w == "openh264"@ || w == "software"@ || trim(v).len() == 0
        },
{
    names_find_their_keys(Key::EncoderPreference);
    lemma_given_trims(v);
    lemma_lower_keeps_len(trim(v));
    reveal_strlit("hw");
    assert("hw"@.len() == 2);
    reveal_strlit("mf");
    assert("mf"@.len() == 2);
    reveal_strlit("sw");
    assert("sw"@.len() == 2);
    reveal_strlit("auto");
    assert("auto"@.len() == 4);
    reveal_strlit("hardware");
    assert("hardware"@.len() == 8);
    reveal_strlit("openh264");
    assert("openh264"@.len() == 8);
    reveal_strlit("software");
    assert("software"@.len() == 8);
    assert("hw"@[0] != "mf"@[0]);
    assert("hw"@[0] != "sw"@[0]);
    assert("mf"@[0] != "sw"@[0]);
    assert("hardware"@[0] != "openh264"@[0]);
    assert("hardware"@[0] != "software"@[0]);
    assert("openh264"@[0] != "software"@[0]);
}

/// The words that `ice_follow_renomination` takes, in any case and with white space around
/// them, and what each one stands for; it takes no other.
pub proof fn ice_follow_renomination_has_its_words(v: Seq<char>)
    ensures
        key_named("ice_follow_renomination"@) matches Some(key) && {
            let w = lower(trim(v));
            let r = parsed(key, Some(v));
            &&& w == "auto"@ ==> r == Ok::<_, Seq<char>>(
                Setting::Toggle(None),
            )
            &&& w == "always"@ ==> r == Ok::<_, Seq<char>>(
                Setting::Toggle(Some(true)),
            )
            &&& w == "never"@ ==> r == Ok::<_, Seq<char>>(
                Setting::Toggle(Some(false)),
            )
            &&& r is Ok <==> w == "auto"@ || w == "never"@ || w == "always"@ || trim(v).len() == 0
        },
{
    names_find_their_keys(Key::IceFollowRenomination);
    lemma_given_trims(v);
    lemma_lower_keeps_len(trim(v));
    reveal_strlit("auto");
    assert("auto"@.len() == 4);
    reveal_strlit("never");
    assert("never"@.len() == 5);
    reveal_strlit("always");
    assert("always"@.len() == 6);
}

/// The words that `overlay_pathmon` takes, in any case and with white space around
/// them, and what each one stands for; it takes no other.
pub proof fn overlay_pathmon_has_its_words(v: Seq<char>)
    ensures
        key_named("overlay_pathmon"@) matches Some(key) && {
            let w = lower(trim(v));
            let r = parsed(key, Some(v));
            &&& w == "on"@ ==> r == Ok::<_, Seq<char>>(
                Setting::Text(Some("on"@)),
            )
            &&& w == "shadow"@ ==> r == Ok::<_, Seq<char>>(
                Setting::Text(Some("shadow"@)),
            )
            &&& w == "off"@ ==> r == Ok::<_, Seq<char>>(
                Setting::Text(Some("off"@)),
            )
            &&& r is Ok <==> w == "on"@ || w == "off"@ || w == "shadow"@ || trim(v).len() == 0
        },
{
    names_find_their_keys(Key::OverlayPathmon);
    lemma_given_trims(v);
    lemma_lower_keeps_len(trim(v));
    reveal_strlit("on");
    assert("on"@.len() == 2);
    reveal_strlit("off");
    assert("off"@.len() == 3);
    reveal_strlit("shadow");
    assert("shadow"@.len() == 6);
}

/// The words that `overlay_demote` takes, in any case and with white space around
/// them, and what each one stands for; it takes no other.
pub proof fn overlay_demote_has_its_words(v: Seq<char>)
    ensures
        key_named("overlay_demote"@) matches Some(key) && {
            let w = lower(trim(v));
            let r = parsed(key, Some(v));
            &&& w == "on"@ ==> r == Ok::<_, Seq<char>>(
                Setting::Text(Some("on"@)),
            )
            &&& w == "shadow"@ ==> r == Ok::<_, Seq<char>>(
                Setting::Text(Some("shadow"@)),
            )
            &&& w == "off"@ ==> r == Ok::<_, Seq<char>>(
                Setting::Text(Some("off"@)),
            )
            &&& r is Ok <==> w == "on"@ || w == "off"@ || w == "shadow"@ || trim(v).len() == 0
        },
{
    names_find_their_keys(Key::OverlayDemote);
    lemma_given_trims(v);
    lemma_lower_keeps_len(trim(v));
    reveal_strlit("on");
    assert("on"@.len() == 2);
    reveal_strlit("off");
    assert("off"@.len() == 3);
    reveal_strlit("shadow");
    assert("shadow"@.len() == 6);
}

/// The words that `overlay_rpf` takes, in any case and with white space around
/// them, and what each one stands for; it takes no other.
pub proof fn overlay_rpf_has_its_words(v: Seq<char>)
    ensures
        key_named("overlay_rpf"@) matches Some(key) && {
            let w = lower(trim(v));
            let r = parsed(key, Some(v));
            &&& w == "warn"@ ==> r == Ok::<_, Seq<char>>(
                Setting::Text(Some("warn"@)),
            )
            &&& w == "enforce"@ ==> r == Ok::<_, Seq<char>>(
                Setting::Text(Some("enforce"@)),
            )
            &&& w == "off"@ ==> r == Ok::<_, Seq<char>>(
                Setting::Text(Some("off"@)),
            )
            &&& r is Ok <==> w == "off"@ || w == "warn"@ || w == "enforce"@ || trim(v).len() == 0
        },
{
    names_find_their_keys(Key::OverlayRpf);
    lemma_given_trims(v);
    lemma_lower_keeps_len(trim(v));
    reveal_strlit("off");
    assert("off"@.len() == 3);
    reveal_strlit("warn");
    assert("warn"@.len() == 4);
    reveal_strlit("enforce");
    assert("enforce"@.len() == 7);
}

/// The words that `power_policy` takes, in any case and with white space around
/// them, and what each one stands for; it takes no other.
pub proof fn power_policy_has_its_words(v: Seq<char>)
    ensures
        key_named("power_policy"@) matches Some(key) && {
            let w = lower(trim(v));
            let r = parsed(key, Some(v));
            &&& w == "never"@ ==> r == Ok::<_, Seq<char>>(
                Setting::Word("never"@),
            )
            &&& w == "on-ac"@ ==> r == Ok::<_, Seq<char>>(
                Setting::Word("on-ac"@),
            )
            &&& w == "on_ac"@ ==> r == Ok::<_, Seq<char>>(
                Setting::Word("on_ac"@),
            )
            &&& w == "ac"@ ==> r == Ok::<_, Seq<char>>(
                Setting::Word("ac"@),
            )
            &&& w == "always"@ ==> r == Ok::<_, Seq<char>>(
                Setting::Word("always"@),
            )
            &&& r is Ok <==> w == "ac"@ || w == "never"@ || w == "on-ac"@ || w == "on_ac"@ || w == "always"@
        },
{
    names_find_their_keys(Key::PowerPolicy);
    lemma_given_trims(v);
    lemma_lower_keeps_len(trim(v));
    reveal_strlit("ac");
    assert("ac"@.len() == 2);
    reveal_strlit("never");
    assert("never"@.len() == 5);
    reveal_strlit("on-ac");
    assert("on-ac"@.len() == 5);
    reveal_strlit("on_ac");
    assert("on_ac"@.len() == 5);
    reveal_strlit("always");
    assert("always"@.len() == 6);
    assert("never"@[0] != "on-ac"@[0]);
    assert("never"@[0] != "on_ac"@[0]);
    assert("on-ac"@[2] != "on_ac"@[2]);
}

/// The account of an SSH session is the daemon's, that of whoever sits at the
/// console, or a named one; the ceiling on it is one of the first two. Either
/// is kept as it was given, without the white space around it.
pub proof fn ssh_accounts_have_their_words(v: Seq<char>, account: Seq<char>)
    requires
        account.len() > 0,
        !crate::text::is_space(account[0]),
        !crate::text::is_space(account.last()),
    ensures
        key_named("ssh_account_mode"@) matches Some(key) && {
            let w = trim(v);
            let r = parsed(key, Some(v));
            &&& r is Ok ==> r == Ok::<_, Seq<char>>(Setting::Text(given(Some(v))))
            &&& w == "daemon"@ || w == "console_user"@ ==> r is Ok
            &&& r is Ok && w.len() > 0 ==> w == "daemon"@ || w == "console_user"@ || "named:"@
                .is_prefix_of(w)
            &&& parsed(key, Some("named:"@ + account)) == Ok::<_, Seq<char>>(
                Setting::Text(Some("named:"@ + account)),
            )
            &&& parsed(key, Some("named:"@)) is Err
        },
        key_named("ssh_max_privilege"@) matches Some(key) && {
            let w = trim(v);
            let r = parsed(key, Some(v));
            &&& r is Ok ==> r == Ok::<_, Seq<char>>(Setting::Text(given(Some(v))))
            &&& r is Ok <==> w == "daemon"@ || w == "console_user"@ || w.len() == 0
        },
{
    names_find_their_keys(Key::SshAccountMode);
    names_find_their_keys(Key::SshMaxPrivilege);
    lemma_given_trims(v);
    reveal_strlit("daemon");
    reveal_strlit("console_user");
    reveal_strlit("named:");
    assert("daemon"@.len() == 6 && "console_user"@.len() == 12 && "named:"@.len() == 6);
    assert("daemon"@[0] != "named:"@[0]);
    let t = "named:"@ + account;
    lemma_tight(t);
    assert(t.subrange(0, 6) =~= "named:"@);
    assert(t.skip(6) =~= account);
    lemma_tight(account);
    lemma_tight("named:"@);
    assert("named:"@.skip(6) =~= seq![]);
    assert(trim(seq![]) =~= seq![]);
}

/// The keys that hold a text as it was given keep it without the white space
/// around it, and a blank text clears them.
pub proof fn exit_node_is_kept_as_given(v: Seq<char>)
    ensures
        key_named("overlay_exit_node"@) matches Some(key) && parsed(key, Some(v)) == Ok::<
            _,
            Seq<char>,
        >(
            Setting::Text(
                if trim(v).len() > 0 {
                    Some(trim(v))
                } else {
                    None
                },
            ),
        ),
{
    names_find_their_keys(Key::OverlayExitNode);
}

/// Which editor a key has tells what it takes: a flag takes yes and no, a
/// switch is a flag that can be unset, and a list is one of texts.
pub proof fn editors_fit_their_keys(key: Key)
    ensures
        key.spec_kind()@ == "bool"@ <==> key is Flag,
        key.spec_kind()@ == "tribool"@ <==> key is Toggle,
        key.spec_kind()@ == "number"@ ==> key is Number || key == Key::NetstackSocksPort,
        key.spec_kind()@ == "list"@ <==> key == Key::OverlayAdvertisedRoutes || key
            == Key::AdvertiseRoutes || key == Key::SshAuthorizedKeys,
        key.spec_kind()@ == "json"@ <==> key == Key::ForwardAcl || key == Key::VirtualDesktopApps,
        key.spec_kind()@ == "enum:auto|hardware|software"@ <==> key == Key::EncoderPreference,
        key.spec_kind()@ == "enum:auto|always|never"@ <==> key == Key::IceFollowRenomination,
        key.spec_kind()@ == "never|on-ac|always"@ <==> key == Key::PowerPolicy,
{
    reveal_strlit("bool");
    assert("bool"@.len() == 4);
    reveal_strlit("tribool");
    assert("tribool"@.len() == 7);
    reveal_strlit("number");
    assert("number"@.len() == 6);
    reveal_strlit("string");
    assert("string"@.len() == 6);
    reveal_strlit("list");
    assert("list"@.len() == 4);
    reveal_strlit("json");
    assert("json"@.len() == 4);
    reveal_strlit("enum:auto|hardware|software");
    assert("enum:auto|hardware|software"@.len() == 27);
    reveal_strlit("enum:auto|always|never");
    assert("enum:auto|always|never"@.len() == 22);
    reveal_strlit("never|on-ac|always");
    assert("never|on-ac|always"@.len() == 18);
    assert("bool"@[0] != "list"@[0] && "bool"@[0] != "json"@[0] && "list"@[0] != "json"@[0]);
    assert("number"@[0] != "string"@[0]);
}

} // verus!
