//! The config surface: set, echo, clear and refusal of every kind of key.
use roomler::config::agent::{test_fixture, EncoderPreferenceChoice};
use roomler::config::bridge::{env_bridge_bools, env_bridge_numerics};
use roomler::config::keys::KEY_COUNT;
use roomler::config::surface::{
    apply, current_value, entries, entry_for, MAX_OVERLAY_DIRECT_PORT_BASE,
};

#[test]
fn every_key_gets_and_applies() {
    let mut cfg = test_fixture();
    let all = entries(&cfg);
    assert_eq!(all.len(), KEY_COUNT);
    // Every listed key roundtrips through entry_for + a no-op apply
    // of its own current value (or a clear for unset optionals).
    for e in &all {
        assert!(e.restart_required);
        assert!(!e.description.is_empty());
        apply(&mut cfg, &e.key, e.value.as_deref()).expect("self-value apply");
        let echoed = entry_for(&cfg, &e.key).expect("known key");
        assert_eq!(echoed.value, e.value, "roundtrip for {}", e.key);
    }
}

#[test]
fn tribool_set_and_clear() {
    let mut cfg = test_fixture();
    apply(&mut cfg, "overlay_quic", Some("on")).unwrap();
    assert_eq!(cfg.overlay_quic, Some(true));
    assert_eq!(
        entry_for(&cfg, "overlay_quic").unwrap().value.as_deref(),
        Some("true")
    );
    apply(&mut cfg, "overlay_quic", Some("0")).unwrap();
    assert_eq!(cfg.overlay_quic, Some(false));
    apply(&mut cfg, "overlay_quic", None).unwrap();
    assert_eq!(cfg.overlay_quic, None);
    assert!(apply(&mut cfg, "overlay_quic", Some("maybe")).is_err());
}

#[test]
fn fr36_drm_capture_and_uinput_set_echo_clear() {
    let mut cfg = test_fixture();
    assert_eq!(cfg.drm_capture, None, "unset by default");
    assert_eq!(cfg.uinput, None, "unset by default");

    for key in [
        "drm_capture",
        "uinput",
        "x11_damage",
        "portal_capture",
        "portal_input",
        "mutter_capture",
        "window_capture",
    ] {
        apply(&mut cfg, key, Some("on")).unwrap();
        assert_eq!(
            entry_for(&cfg, key).unwrap().value.as_deref(),
            Some("true"),
            "{key} echoes what was set"
        );
        apply(&mut cfg, key, Some("off")).unwrap();
        assert_eq!(
            entry_for(&cfg, key).unwrap().value.as_deref(),
            Some("false")
        );
        apply(&mut cfg, key, None).unwrap();
        assert_eq!(
            entry_for(&cfg, key).unwrap().value,
            None,
            "{key} clears back to unset, which is NOT the same as false"
        );
        assert!(apply(&mut cfg, key, Some("sometimes")).is_err());
    }
    assert_eq!(cfg.drm_capture, None);
    assert_eq!(cfg.uinput, None);
}

#[test]
fn fr36_keys_are_wired_into_the_env_bridge() {
    let mut cfg = test_fixture();
    cfg.drm_capture = Some(true);
    cfg.uinput = Some(true);
    cfg.x11_damage = Some(false);
    cfg.portal_capture = Some(true);
    cfg.portal_input = Some(false);
    cfg.mutter_capture = Some(true);
    cfg.window_capture = Some(true);
    let bridged = env_bridge_bools(&cfg);
    for (name, want) in [
        ("DRM_CAPTURE", Some(true)),
        ("UINPUT", Some(true)),
        ("X11_DAMAGE", Some(false)),
        ("PORTAL_CAPTURE", Some(true)),
        ("PORTAL_INPUT", Some(false)),
        ("MUTTER_CAPTURE", Some(true)),
        ("WINDOW_CAPTURE", Some(true)),
    ] {
        let got = bridged
            .iter()
            .find(|(k, _)| *k == name)
            .unwrap_or_else(|| panic!("{name} missing from env_bridge_bools"));
        assert_eq!(got.1, want, "{name} bridges the configured value");
    }
}

#[test]
fn overlay_relay_tls_set_echo_clear() {
    let mut cfg = test_fixture();
    apply(&mut cfg, "overlay_relay_tls", Some("on")).unwrap();
    assert_eq!(cfg.overlay_relay_tls, Some(true));
    assert_eq!(
        entry_for(&cfg, "overlay_relay_tls")
            .unwrap()
            .value
            .as_deref(),
        Some("true")
    );
    apply(&mut cfg, "overlay_relay_tls", Some("0")).unwrap();
    assert_eq!(cfg.overlay_relay_tls, Some(false));
    apply(&mut cfg, "overlay_relay_tls", None).unwrap();
    assert_eq!(cfg.overlay_relay_tls, None);
    assert!(apply(&mut cfg, "overlay_relay_tls", Some("maybe")).is_err());
}

#[test]
fn overlay_shared_carrier_set_echo_clear() {
    let mut cfg = test_fixture();
    apply(&mut cfg, "overlay_shared_carrier", Some("on")).unwrap();
    assert_eq!(cfg.overlay_shared_carrier, Some(true));
    assert_eq!(
        entry_for(&cfg, "overlay_shared_carrier")
            .unwrap()
            .value
            .as_deref(),
        Some("true")
    );
    apply(&mut cfg, "overlay_shared_carrier", Some("0")).unwrap();
    assert_eq!(cfg.overlay_shared_carrier, Some(false));
    apply(&mut cfg, "overlay_shared_carrier", None).unwrap();
    assert_eq!(cfg.overlay_shared_carrier, None);
    assert!(apply(&mut cfg, "overlay_shared_carrier", Some("maybe")).is_err());
}

#[test]
fn overlay_roam_set_echo_clear() {
    let mut cfg = test_fixture();
    apply(&mut cfg, "overlay_roam", Some("off")).unwrap();
    assert_eq!(cfg.overlay_roam, Some(false));
    assert_eq!(
        entry_for(&cfg, "overlay_roam").unwrap().value.as_deref(),
        Some("false")
    );
    apply(&mut cfg, "overlay_roam", Some("1")).unwrap();
    assert_eq!(cfg.overlay_roam, Some(true));
    apply(&mut cfg, "overlay_roam", None).unwrap();
    assert_eq!(cfg.overlay_roam, None);
    assert!(apply(&mut cfg, "overlay_roam", Some("maybe")).is_err());
}

#[test]
fn overlay_plane_watchdog_set_echo_clear() {
    let mut cfg = test_fixture();
    apply(&mut cfg, "overlay_plane_watchdog", Some("off")).unwrap();
    assert_eq!(cfg.overlay_plane_watchdog, Some(false));
    assert_eq!(
        entry_for(&cfg, "overlay_plane_watchdog")
            .unwrap()
            .value
            .as_deref(),
        Some("false")
    );
    apply(&mut cfg, "overlay_plane_watchdog", Some("1")).unwrap();
    assert_eq!(cfg.overlay_plane_watchdog, Some(true));
    apply(&mut cfg, "overlay_plane_watchdog", None).unwrap();
    assert_eq!(cfg.overlay_plane_watchdog, None);
    assert!(apply(&mut cfg, "overlay_plane_watchdog", Some("maybe")).is_err());
}

#[test]
fn overlay_disco_probe_set_echo_clear() {
    let mut cfg = test_fixture();
    apply(&mut cfg, "overlay_disco_probe", Some("on")).unwrap();
    assert_eq!(cfg.overlay_disco_probe, Some(true));
    apply(&mut cfg, "overlay_disco_probe", None).unwrap();
    assert_eq!(cfg.overlay_disco_probe, None);
    assert!(apply(&mut cfg, "overlay_disco_probe", Some("maybe")).is_err());
}

#[test]
fn overlay_disco_respond_set_echo_clear() {
    let mut cfg = test_fixture();
    apply(&mut cfg, "overlay_disco_respond", Some("off")).unwrap();
    assert_eq!(cfg.overlay_disco_respond, Some(false));
    apply(&mut cfg, "overlay_disco_respond", None).unwrap();
    assert_eq!(cfg.overlay_disco_respond, None);
    assert!(apply(&mut cfg, "overlay_disco_respond", Some("maybe")).is_err());
}

#[test]
fn overlay_session_trace_set_echo_clear() {
    let mut cfg = test_fixture();
    apply(&mut cfg, "overlay_session_trace", Some("on")).unwrap();
    assert_eq!(cfg.overlay_session_trace, Some(true));
    apply(&mut cfg, "overlay_session_trace", None).unwrap();
    assert_eq!(cfg.overlay_session_trace, None);
    assert!(apply(&mut cfg, "overlay_session_trace", Some("maybe")).is_err());
}

#[test]
fn overlay_wsl_mirrored_guard_set_echo_clear() {
    let mut cfg = test_fixture();
    apply(&mut cfg, "overlay_wsl_mirrored_guard", Some("off")).unwrap();
    assert_eq!(cfg.overlay_wsl_mirrored_guard, Some(false));
    assert_eq!(
        entry_for(&cfg, "overlay_wsl_mirrored_guard")
            .unwrap()
            .value
            .as_deref(),
        Some("false")
    );
    apply(&mut cfg, "overlay_wsl_mirrored_guard", None).unwrap();
    assert_eq!(
        cfg.overlay_wsl_mirrored_guard, None,
        "clear → built-in default"
    );
    // The env bridge must carry it, or `config set` writes TOML the daemon
    // silently ignores — the exact failure the bridge test guards against.
    assert!(
        env_bridge_bools(&cfg)
            .iter()
            .any(|(k, _)| *k == "OVERLAY_WSL_MIRRORED_GUARD"),
        "key must be bridged to the daemon's env"
    );
}

#[test]
fn overlay_srflx_seek_set_echo_clear() {
    let mut cfg = test_fixture();
    apply(&mut cfg, "overlay_srflx_seek", Some("off")).unwrap();
    assert_eq!(cfg.overlay_srflx_seek, Some(false));
    assert_eq!(
        entry_for(&cfg, "overlay_srflx_seek")
            .unwrap()
            .value
            .as_deref(),
        Some("false")
    );
    apply(&mut cfg, "overlay_srflx_seek", None).unwrap();
    assert_eq!(cfg.overlay_srflx_seek, None, "clear → built-in default");
    assert!(
        env_bridge_bools(&cfg)
            .iter()
            .any(|(k, _)| *k == "OVERLAY_SRFLX_SEEK"),
        "key must be bridged to the daemon's env"
    );
}

#[test]
fn ws_replaced_exit_set_echo_clear() {
    let mut cfg = test_fixture();
    assert_eq!(cfg.ws_replaced_exit, None, "built-in default is OFF");
    apply(&mut cfg, "ws_replaced_exit", Some("on")).unwrap();
    assert_eq!(cfg.ws_replaced_exit, Some(true));
    assert_eq!(
        entry_for(&cfg, "ws_replaced_exit")
            .unwrap()
            .value
            .as_deref(),
        Some("true")
    );
    apply(&mut cfg, "ws_replaced_exit", None).unwrap();
    assert_eq!(cfg.ws_replaced_exit, None, "clear → built-in default");
    assert!(
        env_bridge_bools(&cfg)
            .iter()
            .any(|(k, _)| *k == "WS_REPLACED_EXIT"),
        "key must be bridged to the daemon's env"
    );
}

#[test]
fn overlay_warm_relay_set_echo_clear() {
    let mut cfg = test_fixture();
    assert_eq!(cfg.overlay_warm_relay, None, "built-in default is OFF");
    apply(&mut cfg, "overlay_warm_relay", Some("on")).unwrap();
    assert_eq!(cfg.overlay_warm_relay, Some(true));
    apply(&mut cfg, "overlay_warm_relay", None).unwrap();
    assert_eq!(cfg.overlay_warm_relay, None, "clear → built-in default");
    assert!(
        env_bridge_bools(&cfg)
            .iter()
            .any(|(k, _)| *k == "OVERLAY_WARM_RELAY"),
        "key must be bridged to the daemon's env"
    );
}

#[test]
fn overlay_vpn_vantage_set_echo_clear() {
    let mut cfg = test_fixture();
    assert_eq!(cfg.overlay_vpn_vantage, None, "unset → daemon default (on)");
    apply(&mut cfg, "overlay_vpn_vantage", Some("off")).unwrap();
    assert_eq!(cfg.overlay_vpn_vantage, Some(false));
    apply(&mut cfg, "overlay_vpn_vantage", None).unwrap();
    assert_eq!(cfg.overlay_vpn_vantage, None, "clear → built-in default");
    assert!(
        env_bridge_bools(&cfg)
            .iter()
            .any(|(k, _)| *k == "OVERLAY_VPN_VANTAGE"),
        "key must be bridged to the daemon's env"
    );
}

#[test]
fn overlay_quic_async_set_echo_clear() {
    let mut cfg = test_fixture();
    assert_eq!(
        cfg.overlay_quic_async, None,
        "built-in default is ON via env fallback"
    );
    apply(&mut cfg, "overlay_quic_async", Some("off")).unwrap();
    assert_eq!(cfg.overlay_quic_async, Some(false));
    apply(&mut cfg, "overlay_quic_async", None).unwrap();
    assert_eq!(cfg.overlay_quic_async, None, "clear → built-in default");
    assert!(
        env_bridge_bools(&cfg)
            .iter()
            .any(|(k, _)| *k == "OVERLAY_QUIC_ASYNC"),
        "key must be bridged to the daemon's env"
    );
}

#[test]
fn overlay_netd_set_echo_clear() {
    let mut cfg = test_fixture();
    assert_eq!(cfg.overlay_netd, None, "built-in default is OFF");
    apply(&mut cfg, "overlay_netd", Some("on")).unwrap();
    assert_eq!(cfg.overlay_netd, Some(true));
    apply(&mut cfg, "overlay_netd", None).unwrap();
    assert_eq!(cfg.overlay_netd, None, "clear → built-in default");
}

#[test]
fn overlay_init_auth_first_set_echo_clear() {
    let mut cfg = test_fixture();
    apply(&mut cfg, "overlay_init_auth_first", Some("off")).unwrap();
    assert_eq!(cfg.overlay_init_auth_first, Some(false));
    assert_eq!(
        entry_for(&cfg, "overlay_init_auth_first")
            .unwrap()
            .value
            .as_deref(),
        Some("false")
    );
    apply(&mut cfg, "overlay_init_auth_first", None).unwrap();
    assert_eq!(
        cfg.overlay_init_auth_first, None,
        "clear → built-in default"
    );
    assert!(
        env_bridge_bools(&cfg)
            .iter()
            .any(|(k, _)| *k == "OVERLAY_INIT_AUTH_FIRST"),
        "key must be bridged to the daemon's env"
    );
}

#[test]
fn overlay_lan_iface_filter_set_echo_clear() {
    let mut cfg = test_fixture();
    apply(&mut cfg, "overlay_lan_iface_filter", Some("off")).unwrap();
    assert_eq!(cfg.overlay_lan_iface_filter, Some(false));
    assert_eq!(
        entry_for(&cfg, "overlay_lan_iface_filter")
            .unwrap()
            .value
            .as_deref(),
        Some("false")
    );
    apply(&mut cfg, "overlay_lan_iface_filter", Some("1")).unwrap();
    assert_eq!(cfg.overlay_lan_iface_filter, Some(true));
    apply(&mut cfg, "overlay_lan_iface_filter", None).unwrap();
    assert_eq!(cfg.overlay_lan_iface_filter, None);
    assert!(apply(&mut cfg, "overlay_lan_iface_filter", Some("maybe")).is_err());
}

#[test]
fn overlay_tun_stable_guid_set_echo_clear() {
    let mut cfg = test_fixture();
    apply(&mut cfg, "overlay_tun_stable_guid", Some("off")).unwrap();
    assert_eq!(cfg.overlay_tun_stable_guid, Some(false));
    assert_eq!(
        entry_for(&cfg, "overlay_tun_stable_guid")
            .unwrap()
            .value
            .as_deref(),
        Some("false")
    );
    apply(&mut cfg, "overlay_tun_stable_guid", Some("1")).unwrap();
    assert_eq!(cfg.overlay_tun_stable_guid, Some(true));
    apply(&mut cfg, "overlay_tun_stable_guid", None).unwrap();
    assert_eq!(cfg.overlay_tun_stable_guid, None);
    assert!(apply(&mut cfg, "overlay_tun_stable_guid", Some("maybe")).is_err());
}

#[test]
fn overlay_route_evict_set_echo_clear() {
    let mut cfg = test_fixture();
    apply(&mut cfg, "overlay_route_evict", Some("off")).unwrap();
    assert_eq!(cfg.overlay_route_evict, Some(false));
    assert_eq!(
        entry_for(&cfg, "overlay_route_evict")
            .unwrap()
            .value
            .as_deref(),
        Some("false")
    );
    apply(&mut cfg, "overlay_route_evict", Some("1")).unwrap();
    assert_eq!(cfg.overlay_route_evict, Some(true));
    apply(&mut cfg, "overlay_route_evict", None).unwrap();
    assert_eq!(cfg.overlay_route_evict, None);
    assert!(apply(&mut cfg, "overlay_route_evict", Some("maybe")).is_err());
}

#[test]
fn env_bridge_pairs_have_surface_parity() {
    let mut cfg = test_fixture();
    let bool_suffixes: Vec<&'static str> = env_bridge_bools(&cfg)
        .iter()
        .map(|(s, _)| *s)
        .collect();
    for suffix in &bool_suffixes {
        let key = suffix.to_ascii_lowercase();
        let entry = entry_for(&cfg, &key)
            .unwrap_or_else(|| panic!("bridged suffix {suffix} has no surface key '{key}'"));
        assert_eq!(
            entry.kind, "tribool",
            "bridged bool '{key}' must be a tribool key"
        );
        apply(&mut cfg, &key, Some("1")).unwrap_or_else(|e| panic!("set {key}: {e}"));
    }
    assert!(
        env_bridge_bools(&cfg)
            .iter()
            .all(|(_, v)| *v == Some(true)),
        "every bridged bool must reflect the surface write"
    );
    for (suffix, _) in env_bridge_numerics(&cfg) {
        let key = suffix.to_ascii_lowercase();
        let entry = entry_for(&cfg, &key)
            .unwrap_or_else(|| panic!("bridged suffix {suffix} has no surface key '{key}'"));
        // Historically "string" (the rate_factor keys predate the
        // "number" editor kind); newer numerics use "number" like
        // overlay_route_tick_secs. Either is a validated numeric edit.
        assert!(
            matches!(entry.kind.as_str(), "string" | "number"),
            "bridged numeric '{key}' must be a validated string/number key, got {:?}",
            entry.kind
        );
    }
}

#[test]
fn overlay_pathmon_set_echo_clear_and_validate() {
    let mut cfg = test_fixture();
    apply(&mut cfg, "overlay_pathmon", Some("shadow")).unwrap();
    assert_eq!(cfg.overlay_pathmon.as_deref(), Some("shadow"));
    assert_eq!(
        entry_for(&cfg, "overlay_pathmon").unwrap().value.as_deref(),
        Some("shadow")
    );
    apply(&mut cfg, "overlay_pathmon", Some("ON")).unwrap();
    assert_eq!(cfg.overlay_pathmon.as_deref(), Some("on"));
    apply(&mut cfg, "overlay_pathmon", None).unwrap();
    assert_eq!(cfg.overlay_pathmon, None);
    assert!(apply(&mut cfg, "overlay_pathmon", Some("sideways")).is_err());
}

#[test]
fn overlay_rpf_set_echo_clear_and_validate() {
    let mut cfg = test_fixture();
    apply(&mut cfg, "overlay_rpf", Some("enforce")).unwrap();
    assert_eq!(cfg.overlay_rpf.as_deref(), Some("enforce"));
    assert_eq!(
        entry_for(&cfg, "overlay_rpf").unwrap().value.as_deref(),
        Some("enforce")
    );
    apply(&mut cfg, "overlay_rpf", Some("WARN")).unwrap();
    assert_eq!(cfg.overlay_rpf.as_deref(), Some("warn"));
    apply(&mut cfg, "overlay_rpf", Some("off")).unwrap();
    assert_eq!(cfg.overlay_rpf.as_deref(), Some("off"));
    apply(&mut cfg, "overlay_rpf", None).unwrap();
    assert_eq!(cfg.overlay_rpf, None);
    // `shadow` is B2's vocabulary, not this key's — reject it rather than
    // silently landing on the default.
    assert!(apply(&mut cfg, "overlay_rpf", Some("shadow")).is_err());
    assert!(apply(&mut cfg, "overlay_rpf", Some("yes")).is_err());
}

#[test]
fn overlay_demote_set_echo_clear_and_validate() {
    let mut cfg = test_fixture();
    apply(&mut cfg, "overlay_demote", Some("on")).unwrap();
    assert_eq!(cfg.overlay_demote.as_deref(), Some("on"));
    assert_eq!(
        entry_for(&cfg, "overlay_demote").unwrap().value.as_deref(),
        Some("on")
    );
    apply(&mut cfg, "overlay_demote", Some("SHADOW")).unwrap();
    assert_eq!(cfg.overlay_demote.as_deref(), Some("shadow"));
    apply(&mut cfg, "overlay_demote", None).unwrap();
    assert_eq!(cfg.overlay_demote, None);
    assert!(apply(&mut cfg, "overlay_demote", Some("maybe")).is_err());
}

#[test]
fn overlay_route_tick_secs_set_echo_clear_and_validate() {
    let mut cfg = test_fixture();
    apply(&mut cfg, "overlay_route_tick_secs", Some("120")).unwrap();
    assert_eq!(cfg.overlay_route_tick_secs, Some(120));
    assert_eq!(
        entry_for(&cfg, "overlay_route_tick_secs")
            .unwrap()
            .value
            .as_deref(),
        Some("120")
    );
    apply(&mut cfg, "overlay_route_tick_secs", None).unwrap();
    assert_eq!(cfg.overlay_route_tick_secs, None);
    assert!(apply(&mut cfg, "overlay_route_tick_secs", Some("1")).is_err());
    assert!(apply(&mut cfg, "overlay_route_tick_secs", Some("301")).is_err());
    assert!(apply(&mut cfg, "overlay_route_tick_secs", Some("fast")).is_err());
}

#[test]
fn overlay_direct_port_set_echo_clear_and_validate() {
    let mut cfg = test_fixture();
    apply(&mut cfg, "overlay_direct_port", Some("43648")).unwrap();
    assert_eq!(cfg.overlay_direct_port, Some(43648));
    assert_eq!(
        entry_for(&cfg, "overlay_direct_port")
            .unwrap()
            .value
            .as_deref(),
        Some("43648")
    );
    // 0 = explicit ephemeral opt-out; stored, not rejected.
    apply(&mut cfg, "overlay_direct_port", Some("0")).unwrap();
    assert_eq!(cfg.overlay_direct_port, Some(0));
    apply(&mut cfg, "overlay_direct_port", None).unwrap();
    assert_eq!(cfg.overlay_direct_port, None);
    // A base whose public-dial band would overflow the port space is
    // rejected (mirrors `direct::MAX_DIRECT_PORT_BASE`); garbage too.
    let max = MAX_OVERLAY_DIRECT_PORT_BASE;
    apply(&mut cfg, "overlay_direct_port", Some(&max.to_string())).unwrap();
    assert_eq!(cfg.overlay_direct_port, Some(max));
    assert!(
        apply(
            &mut cfg,
            "overlay_direct_port",
            Some(&(max + 1).to_string())
        )
        .is_err()
    );
    assert!(apply(&mut cfg, "overlay_direct_port", Some("65535")).is_err());
    assert!(apply(&mut cfg, "overlay_direct_port", Some("forty")).is_err());
}

#[test]
fn rc_max_sessions_set_echo_clear_and_validate() {
    let mut cfg = test_fixture();
    apply(&mut cfg, "rc_max_sessions", Some("3")).unwrap();
    assert_eq!(cfg.rc_max_sessions, Some(3));
    assert_eq!(
        entry_for(&cfg, "rc_max_sessions").unwrap().value.as_deref(),
        Some("3")
    );
    apply(&mut cfg, "rc_max_sessions", None).unwrap();
    assert_eq!(cfg.rc_max_sessions, None);
    assert!(apply(&mut cfg, "rc_max_sessions", Some("0")).is_err());
    assert!(apply(&mut cfg, "rc_max_sessions", Some("9")).is_err());
    assert!(apply(&mut cfg, "rc_max_sessions", Some("many")).is_err());
}

#[test]
fn shared_encoder_set_echo_clear_and_validate() {
    let mut cfg = test_fixture();
    apply(&mut cfg, "shared_encoder", Some("off")).unwrap();
    assert_eq!(cfg.shared_encoder, Some(false));
    assert_eq!(
        entry_for(&cfg, "shared_encoder").unwrap().value.as_deref(),
        Some("false")
    );
    apply(&mut cfg, "shared_encoder", Some("on")).unwrap();
    assert_eq!(cfg.shared_encoder, Some(true));
    apply(&mut cfg, "shared_encoder", None).unwrap();
    assert_eq!(cfg.shared_encoder, None);
    assert!(apply(&mut cfg, "shared_encoder", Some("maybe")).is_err());
}

#[test]
fn overlay_route_events_set_echo_clear() {
    let mut cfg = test_fixture();
    apply(&mut cfg, "overlay_route_events", Some("off")).unwrap();
    assert_eq!(cfg.overlay_route_events, Some(false));
    assert_eq!(
        entry_for(&cfg, "overlay_route_events")
            .unwrap()
            .value
            .as_deref(),
        Some("false")
    );
    apply(&mut cfg, "overlay_route_events", None).unwrap();
    assert_eq!(cfg.overlay_route_events, None);
    assert!(apply(&mut cfg, "overlay_route_events", Some("maybe")).is_err());
}

#[test]
fn rate_factor_set_echo_clear_and_validate() {
    let mut cfg = test_fixture();
    for key in [
        "rate_factor_h264",
        "rate_factor_hevc",
        "rate_factor_vp9",
        "rate_factor_av1",
    ] {
        apply(&mut cfg, key, Some("120")).unwrap();
        assert_eq!(
            entry_for(&cfg, key).unwrap().value.as_deref(),
            Some("120"),
            "set/echo for {key}"
        );
        assert!(apply(&mut cfg, key, Some("49")).is_err(), "{key} below 50");
        assert!(
            apply(&mut cfg, key, Some("401")).is_err(),
            "{key} above 400"
        );
        assert!(apply(&mut cfg, key, Some("fast")).is_err(), "{key} garbage");
        // Failed applies never partially wrote:
        assert_eq!(entry_for(&cfg, key).unwrap().value.as_deref(), Some("120"));
        apply(&mut cfg, key, None).unwrap();
        assert_eq!(entry_for(&cfg, key).unwrap().value, None, "clear {key}");
    }
}

#[test]
fn ice_follow_renomination_enum_set_echo_clear() {
    let mut cfg = test_fixture();
    apply(&mut cfg, "ice_follow_renomination", Some("always")).unwrap();
    assert_eq!(cfg.ice_follow_renomination, Some(true));
    assert_eq!(
        entry_for(&cfg, "ice_follow_renomination")
            .unwrap()
            .value
            .as_deref(),
        Some("always")
    );
    apply(&mut cfg, "ice_follow_renomination", Some("never")).unwrap();
    assert_eq!(cfg.ice_follow_renomination, Some(false));
    apply(&mut cfg, "ice_follow_renomination", Some("auto")).unwrap();
    assert_eq!(cfg.ice_follow_renomination, None);
    assert_eq!(
        entry_for(&cfg, "ice_follow_renomination").unwrap().value,
        None
    );
    assert!(apply(&mut cfg, "ice_follow_renomination", Some("on")).is_err());
}

#[test]
fn ice_and_overlay_hatch_tribools_set_echo_clear() {
    let mut cfg = test_fixture();
    for key in [
        "ice_warm_standby",
        "ice_overlay_host_deprioritize",
        "overlay_tier_detect",
        "overlay_rtt_q",
        "overlay_upward_probe",
        "relay_probe",
        "text_mod_neutralize",
    ] {
        apply(&mut cfg, key, Some("off")).unwrap();
        assert_eq!(
            entry_for(&cfg, key).unwrap().value.as_deref(),
            Some("false"),
            "set/echo for {key}"
        );
        apply(&mut cfg, key, None).unwrap();
        assert_eq!(entry_for(&cfg, key).unwrap().value, None, "clear {key}");
    }
}

#[test]
fn exec_enabled_set_echo_clear() {
    let mut cfg = test_fixture();
    assert_eq!(
        current_value(&cfg, "exec_enabled").as_deref(),
        Some("false"),
        "Fleet RPC must be off on a fresh device"
    );
    apply(&mut cfg, "exec_enabled", Some("true")).unwrap();
    assert!(cfg.exec_enabled);
    assert_eq!(
        entry_for(&cfg, "exec_enabled").unwrap().value.as_deref(),
        Some("true")
    );
    apply(&mut cfg, "exec_enabled", None).unwrap();
    assert!(!cfg.exec_enabled, "clearing must fail SAFE, not open");
    assert!(apply(&mut cfg, "exec_enabled", Some("perhaps")).is_err());
}

#[test]
fn remote_config_opt_in_defaults_off_and_clears_off() {
    let mut cfg = test_fixture();
    assert_eq!(
        current_value(&cfg, "remote_config_enabled").as_deref(),
        Some("false"),
        "a fresh device must not accept pushed config"
    );
    apply(&mut cfg, "remote_config_enabled", Some("true")).unwrap();
    assert!(cfg.remote_config_enabled);
    assert_eq!(
        entry_for(&cfg, "remote_config_enabled")
            .unwrap()
            .value
            .as_deref(),
        Some("true")
    );
    // Clearing opts back OUT. The fail-safe direction for this key is the
    // one that RESTORES the local veto.
    apply(&mut cfg, "remote_config_enabled", None).unwrap();
    assert!(
        !cfg.remote_config_enabled,
        "clearing must re-close the door"
    );
    assert!(apply(&mut cfg, "remote_config_enabled", Some("maybe")).is_err());
}


#[test]
fn bool_clear_restores_serde_default() {
    let mut cfg = test_fixture();
    apply(&mut cfg, "auto_grant_session", Some("false")).unwrap();
    assert!(!cfg.auto_grant_session);
    apply(&mut cfg, "auto_grant_session", None).unwrap();
    assert!(cfg.auto_grant_session, "default_auto_grant_session is true");
    apply(&mut cfg, "overlay_enabled", None).unwrap();
    assert!(!cfg.overlay_enabled, "overlay default is off");
}

#[test]
fn overlay_multi_org_set_echo_clear() {
    let mut cfg = test_fixture();
    assert_eq!(
        current_value(&cfg, "overlay_multi_org").as_deref(),
        Some("false")
    );
    apply(&mut cfg, "overlay_multi_org", Some("true")).unwrap();
    assert!(cfg.overlay_multi_org);
    assert_eq!(
        current_value(&cfg, "overlay_multi_org").as_deref(),
        Some("true")
    );
    apply(&mut cfg, "overlay_multi_org", None).unwrap();
    assert!(!cfg.overlay_multi_org, "multi-org TUN default is off");
}

#[test]
fn cidr_list_validates() {
    let mut cfg = test_fixture();
    apply(
        &mut cfg,
        "advertise_routes",
        Some("192.168.1.0/24, 10.0.0.0/8"),
    )
    .unwrap();
    assert_eq!(cfg.advertise_routes, vec!["192.168.1.0/24", "10.0.0.0/8"]);
    assert!(apply(&mut cfg, "advertise_routes", Some("not-a-cidr")).is_err());
    assert!(apply(&mut cfg, "advertise_routes", Some("10.0.0.0/40")).is_err());
    // Bad input never partially wrote:
    assert_eq!(cfg.advertise_routes, vec!["192.168.1.0/24", "10.0.0.0/8"]);
    apply(&mut cfg, "advertise_routes", Some("")).unwrap();
    assert!(cfg.advertise_routes.is_empty());
}

#[test]
fn json_keys_validate() {
    let mut cfg = test_fixture();
    let acl = r#"{"enabled": false, "allowlist": []}"#;
    apply(&mut cfg, "forward_acl", Some(acl)).unwrap();
    assert!(!cfg.forward_acl.enabled);
    assert!(apply(&mut cfg, "forward_acl", Some("{nope")).is_err());
    apply(&mut cfg, "forward_acl", None).unwrap();
    assert!(cfg.forward_acl.enabled, "default ACL is enabled");
}

#[test]
fn secrets_and_identity_are_not_exposed() {
    let cfg = test_fixture();
    for hidden in [
        "agent_token",
        "overlay_wg_secret_key",
        "machine_id",
        "machine_name",
        "tunnel_routes",
    ] {
        assert!(entry_for(&cfg, hidden).is_none(), "{hidden} must be hidden");
        let mut c = cfg.clone();
        assert!(apply(&mut c, hidden, Some("x")).is_err());
    }
}

#[test]
fn enum_and_interval_parse() {
    let mut cfg = test_fixture();
    apply(&mut cfg, "encoder_preference", Some("hw")).unwrap();
    assert!(matches!(
        cfg.encoder_preference,
        EncoderPreferenceChoice::Hardware
    ));
    assert!(apply(&mut cfg, "encoder_preference", Some("fast")).is_err());
    apply(&mut cfg, "update_check_interval_h", Some("168")).unwrap();
    assert_eq!(cfg.update_check_interval_h, Some(168));
    assert!(apply(&mut cfg, "update_check_interval_h", Some("0")).is_err());
    assert!(apply(&mut cfg, "update_check_interval_h", Some("nope")).is_err());
    apply(&mut cfg, "update_check_interval_h", None).unwrap();
    assert_eq!(cfg.update_check_interval_h, None);
}
#[test]
fn netstack_socks_port_set_echo_clear() {
    let mut cfg = test_fixture();
    assert_eq!(current_value(&cfg, "netstack_socks_port"), None);

    apply(&mut cfg, "netstack_socks_port", Some("41080")).unwrap();
    assert_eq!(cfg.netstack_socks_port, Some(41080));
    assert_eq!(
        current_value(&cfg, "netstack_socks_port").as_deref(),
        Some("41080")
    );

    // Privileged ports would need the daemon to bind below 1024 for a
    // loopback convenience listener — refuse rather than fail at bind.
    assert!(apply(&mut cfg, "netstack_socks_port", Some("80")).is_err());
    assert!(apply(&mut cfg, "netstack_socks_port", Some("nope")).is_err());
    assert_eq!(
        cfg.netstack_socks_port,
        Some(41080),
        "a rejected set is a no-op"
    );

    apply(&mut cfg, "netstack_socks_port", None).unwrap();
    assert_eq!(
        cfg.netstack_socks_port, None,
        "clearing returns to OS-TUN mode"
    );
}

#[test]
fn ssh_max_privilege_set_echo_clear_and_validate() {
    let mut cfg = test_fixture();
    assert_eq!(
        current_value(&cfg, "ssh_max_privilege"),
        None,
        "unset by default: arriving switched on would revoke a working config mid-roll"
    );

    apply(&mut cfg, "ssh_max_privilege", Some("console_user")).unwrap();
    assert_eq!(cfg.ssh_max_privilege.as_deref(), Some("console_user"));
    assert_eq!(
        current_value(&cfg, "ssh_max_privilege").as_deref(),
        Some("console_user")
    );

    apply(&mut cfg, "ssh_max_privilege", Some("daemon")).unwrap();
    assert_eq!(
        cfg.ssh_max_privilege.as_deref(),
        Some("daemon"),
        "explicit `daemon` is a stated no-limit, distinct from never having chosen"
    );

    // `named:` is accepted for ssh_account_mode and refused here on
    // purpose: "is named:svc-backup above or below console_user?" has no
    // answer, so it cannot bound anything.
    assert!(apply(&mut cfg, "ssh_max_privilege", Some("named:svc")).is_err());
    assert!(apply(&mut cfg, "ssh_max_privilege", Some("Console_User")).is_err());
    assert_eq!(
        cfg.ssh_max_privilege.as_deref(),
        Some("daemon"),
        "a rejected set is a no-op"
    );

    apply(&mut cfg, "ssh_max_privilege", None).unwrap();
    assert_eq!(cfg.ssh_max_privilege, None, "clearing returns to no limit");
}
