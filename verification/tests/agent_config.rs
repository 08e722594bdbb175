//! The agent configuration: secondary enrollments, crash bookkeeping, schema
//! migration.
use roomler::config::agent::{
    test_fixture, AgentConfig, EncoderPreferenceChoice, FlowKind, RouteDescriptor,
};
use roomler::config::bridge::{
    derived_default_direct_port, DERIVED_PORT_BASE, DERIVED_PORT_SLOTS, DERIVED_PORT_STRIDE,
};
use roomler::config::health::{
    mark_clean_shutdown, mark_run_starting, migrate, record_clean_run_at, record_crash_at,
    should_rollback, CURRENT_SCHEMA_VERSION,
};
use roomler::config::org::{derive_ws_url, sanitize_org_label, OrgEntry, OrgOverlayMode};
use roomler::config::org_table::promote_org_to_primary;
use roomler::config::store::{default_config_path, machine_global_config_path};

fn fixture() -> AgentConfig {
    test_fixture()
}

#[test]
fn derived_port_is_stable_in_range_and_spreads_siblings() {
    for id in ["", "a", "machine-1", "5C-80-B6-AA-BB-CC", "winhost-a-mid"] {
        let p = derived_default_direct_port(id);
        assert_eq!(p, derived_default_direct_port(id), "stable per id");
        assert!(
            (DERIVED_PORT_BASE
                ..=DERIVED_PORT_BASE + (DERIVED_PORT_SLOTS - 1) * DERIVED_PORT_STRIDE)
                .contains(&p),
            "in band: {p}"
        );
        assert_eq!(
            (p - DERIVED_PORT_BASE) % DERIVED_PORT_STRIDE,
            0,
            "on a slot: {p}"
        );
    }
    // Pinned concrete outputs (FNV-1a 64, offset basis 0xcbf29ce484222325,
    // prime 0x100000001b3): a change here IS the fleet-port migration.
    assert_eq!(derived_default_direct_port(""), 43688);
    assert_eq!(
        derived_default_direct_port("machine-1"),
        derived_default_direct_port("machine-1")
    );
    // Distinct ids usually land on distinct slots — the sibling case.
    let a = derived_default_direct_port("laptop-A");
    let b = derived_default_direct_port("laptop-B");
    assert_ne!(a, b, "the sample sibling pair must de-conflict");
}

#[test]
fn ws_url_from_https() {
    assert_eq!(
        derive_ws_url("https://roomler.live"),
        "wss://roomler.live/ws"
    );
}
#[test]
fn ws_url_from_http_localhost() {
    assert_eq!(
        derive_ws_url("http://localhost:3000"),
        "ws://localhost:3000/ws"
    );
}

#[test]
fn ws_url_strips_trailing_slash() {
    assert_eq!(
        derive_ws_url("https://roomler.live/"),
        "wss://roomler.live/ws"
    );
}

#[test]
fn machine_global_config_path_under_programdata_roomler() {
    for older in [false, true] {
        let p = machine_global_config_path("C:\\ProgramData", older);
        let s = p.to_lowercase();
        assert!(s.contains("roomler"), "path missing roomler: {s}");
        assert!(
            s.ends_with(r"roomler\roomler-agent\config.toml")
                || s.ends_with(r"roomler\roomler\config.toml"),
            "unexpected tail: {s}"
        );
        // Distinct from the per-user default (which is under %APPDATA%).
        let profile = "C:\\Users\\u\\AppData\\Roaming\\roomler\\config\\config.toml".to_string();
        let system = "/etc/roomler/config.toml".to_string();
        assert_ne!(p, default_config_path(profile, system, false, false, true));
    }
}

fn org_fixture(label: &str, tenant: &str) -> OrgEntry {
    OrgEntry {
        label: label.to_string(),
        server_url: "https://example.invalid".into(),
        ws_url: None,
        agent_token: format!("tok-{label}"),
        agent_id: format!("aid-{label}"),
        tenant_id: tenant.to_string(),
        enabled: true,
        overlay_mode: OrgOverlayMode::Off,
        overlay_wg_secret_key: None,
        overlay_wg_key_epoch: 0,
        overlay_advertised_routes: Vec::new(),
        overlay_exit_node_enabled: false,
        advertise_routes: Vec::new(),
        netstack_socks_port: None,
    }
}
#[test]
fn for_org_swaps_identity_and_forces_overlay_off() {
    let mut cfg = fixture();
    cfg.overlay_enabled = true;
    cfg.overlay_wg_secret_key = Some("PRIMARY-KEY".into());
    cfg.overlay_exit_node = Some("exit-1".into());
    cfg.tunnel_routes = vec![RouteDescriptor {
        id: "r1".into(),
        kind: FlowKind::Forward,
        node: "aid".into(),
        local: 18080,
        remote: Some("127.0.0.1:80".into()),
        transport: String::new(),
        enabled: true,
        org: None,
    }];
    let mut org = org_fixture("acme", "tid-acme");
    org.overlay_wg_secret_key = Some("ACME-KEY".into());
    org.advertise_routes = vec!["10.1.0.0/24".into()];
    cfg.orgs = vec![org.clone()];

    let oc = cfg.for_org(&org);
    // Identity comes from the entry…
    assert_eq!(oc.server_url, org.server_url);
    assert_eq!(oc.agent_token, "tok-acme");
    assert_eq!(oc.agent_id, "aid-acme");
    assert_eq!(oc.tenant_id, "tid-acme");
    // …machine identity + operator knobs are shared…
    assert_eq!(oc.machine_id, cfg.machine_id);
    assert_eq!(oc.machine_name, cfg.machine_name);
    // …the org's own WG key rides along (never the primary's)…
    assert_eq!(oc.overlay_wg_secret_key.as_deref(), Some("ACME-KEY"));
    assert_eq!(oc.advertise_routes, vec!["10.1.0.0/24".to_string()]);
    // …and the view forces the overlay + route surfaces off/empty.
    assert!(!oc.overlay_enabled, "secondary overlay must be OFF");
    assert!(!oc.overlay_exit_node_enabled);
    assert!(oc.overlay_exit_node.is_none());
    assert!(oc.tunnel_routes.is_empty());
    assert!(oc.orgs.is_empty(), "no recursive org table");
}

#[test]
fn for_org_lifts_overlay_only_under_the_p2c_gate() {
    let mut cfg = fixture();
    cfg.overlay_multi_org = true;
    let mut org = org_fixture("acme", "tid-acme");
    org.overlay_mode = OrgOverlayMode::Tun;
    org.server_url = cfg.server_url.clone(); // same control plane
    org.overlay_wg_secret_key = Some("ACME-KEY".into());

    // All four conditions hold ⇒ the secondary joins.
    assert!(cfg.for_org(&org).overlay_enabled, "full gate ⇒ ON");

    // Flag off ⇒ off, everything else unchanged.
    cfg.overlay_multi_org = false;
    assert!(!cfg.for_org(&org).overlay_enabled, "no operator opt-in");
    cfg.overlay_multi_org = true;

    // A foreign control plane can't ride the shared TUN (its blocks come
    // from a different registry — the demux would be undecidable).
    let mut foreign = org.clone();
    foreign.server_url = "https://other.invalid".into();
    assert!(!cfg.for_org(&foreign).overlay_enabled, "foreign server");

    // Netstack / off modes stay off (netstack statics are process-global).
    let mut ns = org.clone();
    ns.overlay_mode = OrgOverlayMode::Netstack;
    assert!(!cfg.for_org(&ns).overlay_enabled, "netstack secondary");
    let mut off = org.clone();
    off.overlay_mode = OrgOverlayMode::Off;
    assert!(!cfg.for_org(&off).overlay_enabled, "mode off");

    // No per-org WG key ⇒ can't join (and must never borrow the
    // primary's — cross-org pubkey correlation).
    let mut keyless = org.clone();
    keyless.overlay_wg_secret_key = None;
    let oc = cfg.for_org(&keyless);
    assert!(!oc.overlay_enabled, "keyless org stays off");
    assert!(
        oc.overlay_wg_secret_key.is_none(),
        "never the primary's key"
    );

    // Exit roles remain primary-only regardless of all that.
    let on = cfg.for_org(&org);
    assert!(!on.overlay_exit_node_enabled);
    assert!(on.overlay_exit_node.is_none());
}

#[test]
fn validate_orgs_flags_dupes_and_bad_labels() {
    let mut cfg = fixture();
    cfg.orgs = vec![
        org_fixture("acme", "tid-a"),
        org_fixture("acme", "tid-b"),    // dup label
        org_fixture("primary", "tid-c"), // reserved
        org_fixture("beta", "tid"), // duplicates the PRIMARY identity (fixture tenant "tid")
        org_fixture("gamma", "tid-a"), // dup (server, tenant) with the first entry
    ];
    let problems = cfg.validate_orgs();
    assert!(problems.iter().any(|p| p.contains("duplicate org label")));
    assert!(problems.iter().any(|p| p.contains("\"primary\"")));
    assert!(
        problems.iter().any(|p| p.contains("primary enrollment")),
        "{problems:?}"
    );
    assert!(
        problems
            .iter()
            .any(|p| p.contains("another entry's (server, tenant)")),
        "{problems:?}"
    );

    let clean = AgentConfig {
        orgs: vec![org_fixture("acme", "tid-a"), org_fixture("beta", "tid-b")],
        ..fixture()
    };
    assert!(clean.validate_orgs().is_empty());
}

#[test]
fn promote_org_swaps_identity_and_org_scoped_fields() {
    let mut cfg = fixture(); // primary: example.invalid / tid / tok
    cfg.overlay_enabled = true;
    cfg.overlay_wg_secret_key = Some("PRIM-KEY".into());
    cfg.overlay_advertised_routes = vec!["10.0.0.0/24".into()];
    cfg.overlay_exit_node = Some("exit-1".into());
    cfg.encoder_preference = EncoderPreferenceChoice::Software;
    let mut acme = org_fixture("acme", "tid-acme");
    acme.server_url = "https://acme.invalid".into();
    acme.overlay_wg_secret_key = Some("ACME-KEY".into());
    acme.advertise_routes = vec!["192.168.9.0/24".into()];
    cfg.orgs = vec![org_fixture("zeta", "tid-z"), acme];

    promote_org_to_primary(&mut cfg, "acme").unwrap();

    // Promoted identity + org-scoped fields are now the scalars…
    assert_eq!(cfg.server_url, "https://acme.invalid");
    assert_eq!(cfg.agent_token, "tok-acme");
    assert_eq!(cfg.agent_id, "aid-acme");
    assert_eq!(cfg.tenant_id, "tid-acme");
    assert_eq!(cfg.overlay_wg_secret_key.as_deref(), Some("ACME-KEY"));
    assert_eq!(cfg.advertise_routes, vec!["192.168.9.0/24".to_string()]);
    // …the TUN opt-in resets (operator re-opts explicitly)…
    assert!(!cfg.overlay_enabled);
    assert!(cfg.overlay_exit_node.is_none());
    // …operator knobs stay put…
    assert!(matches!(
        cfg.encoder_preference,
        EncoderPreferenceChoice::Software
    ));
    // …and the demoted primary sits in acme's old slot under acme's label.
    assert_eq!(cfg.orgs.len(), 2);
    assert_eq!(cfg.orgs[0].label, "zeta");
    let demoted = &cfg.orgs[1];
    assert_eq!(demoted.label, "acme");
    assert_eq!(demoted.server_url, "https://example.invalid");
    assert_eq!(demoted.tenant_id, "tid");
    assert_eq!(demoted.agent_token, "tok");
    assert_eq!(demoted.overlay_wg_secret_key.as_deref(), Some("PRIM-KEY"));
    assert_eq!(demoted.overlay_mode, OrgOverlayMode::Off);
    assert!(demoted.enabled);

    // Unknown label is a hard error, config untouched.
    assert!(promote_org_to_primary(&mut cfg, "ghost").is_err());
}

#[test]
fn sanitize_org_label_rules() {
    assert_eq!(sanitize_org_label(" Acme Corp "), Some("acme-corp".into()));
    assert_eq!(sanitize_org_label("roomler.ai"), Some("roomler-ai".into()));
    assert_eq!(sanitize_org_label("Ümlaut__x"), Some("mlaut-x".into()));
    assert_eq!(sanitize_org_label("primary"), None, "reserved");
    assert_eq!(sanitize_org_label("PRIMARY"), None, "reserved, any case");
    assert_eq!(sanitize_org_label("###"), None);
    assert_eq!(sanitize_org_label(""), None);
}

#[test]
fn effective_overlay_routes_appends_default_route_for_exit_node() {
    let mut cfg = fixture();
    // Not an exit node → advertised routes pass through unchanged.
    cfg.overlay_advertised_routes = vec!["192.168.1.0/24".into()];
    assert_eq!(
        cfg.effective_overlay_advertised_routes(),
        vec!["192.168.1.0/24".to_string()]
    );

    // Exit node → 0.0.0.0/0 unioned in, appended last.
    cfg.overlay_exit_node_enabled = true;
    assert_eq!(
        cfg.effective_overlay_advertised_routes(),
        vec!["192.168.1.0/24".to_string(), "0.0.0.0/0".to_string()]
    );

    // An explicitly-listed /0 is not duplicated.
    cfg.overlay_advertised_routes = vec!["0.0.0.0/0".into()];
    assert_eq!(
        cfg.effective_overlay_advertised_routes(),
        vec!["0.0.0.0/0".to_string()]
    );

    // Pure exit node (no subnet routes) → just the default route.
    cfg.overlay_advertised_routes = Vec::new();
    assert_eq!(
        cfg.effective_overlay_advertised_routes(),
        vec!["0.0.0.0/0".to_string()]
    );
}

#[test]
fn record_clean_run_resets_counter_and_promotes_version() {
    let mut cfg = fixture();
    cfg.crash_count = 4;
    cfg.last_crash_unix = 1_000;
    cfg.rollback_attempted = true;
    record_clean_run_at(&mut cfg, "0.1.50");
    assert_eq!(cfg.crash_count, 0);
    assert_eq!(cfg.last_crash_unix, 0);
    assert!(!cfg.rollback_attempted);
    assert_eq!(cfg.last_known_good_version.as_deref(), Some("0.1.50"));
}

#[test]
fn record_crash_starts_window_at_one() {
    let mut cfg = fixture();
    record_crash_at(&mut cfg, 1_000_000);
    assert_eq!(cfg.crash_count, 1);
    assert_eq!(cfg.last_crash_unix, 1_000_000);
}

#[test]
fn record_crash_increments_when_within_window() {
    let mut cfg = fixture();
    record_crash_at(&mut cfg, 1_000_000);
    record_crash_at(&mut cfg, 1_000_060); // +60s, in window
    record_crash_at(&mut cfg, 1_000_300); // +300s, still in window (10 min)
    assert_eq!(cfg.crash_count, 3);
    assert_eq!(cfg.last_crash_unix, 1_000_300);
}

#[test]
fn record_crash_resets_when_outside_window() {
    let mut cfg = fixture();
    record_crash_at(&mut cfg, 1_000_000);
    record_crash_at(&mut cfg, 1_000_060);
    // +700s = 11 min 40s — outside the 10-min window.
    record_crash_at(&mut cfg, 1_000_760);
    assert_eq!(cfg.crash_count, 1, "counter resets on a fresh window");
    assert_eq!(cfg.last_crash_unix, 1_000_760);
}

#[test]
fn should_rollback_false_when_no_known_good() {
    let mut cfg = fixture();
    cfg.crash_count = 5;
    cfg.last_crash_unix = 1_000_000;
    assert!(!should_rollback(&cfg, "0.1.51", 1_000_001));
}

#[test]
fn should_rollback_false_when_under_threshold() {
    let mut cfg = fixture();
    cfg.last_known_good_version = Some("0.1.50".into());
    cfg.crash_count = 2; // threshold is 3
    cfg.last_crash_unix = 1_000_000;
    assert!(!should_rollback(&cfg, "0.1.51", 1_000_001));
}

#[test]
fn should_rollback_false_when_target_equals_current() {
    // Refusing this case prevents a same-version-rollback loop.
    let mut cfg = fixture();
    cfg.last_known_good_version = Some("0.1.51".into());
    cfg.crash_count = 5;
    cfg.last_crash_unix = 1_000_000;
    assert!(!should_rollback(&cfg, "0.1.51", 1_000_001));
}

#[test]
fn should_rollback_false_when_window_expired() {
    // A flaky day that adds 3 unrelated crashes over a week
    // shouldn't trigger rollback.
    let mut cfg = fixture();
    cfg.last_known_good_version = Some("0.1.50".into());
    cfg.crash_count = 3;
    cfg.last_crash_unix = 1_000_000;
    // +700s — outside CRASH_WINDOW_SECS.
    assert!(!should_rollback(&cfg, "0.1.51", 1_000_700));
}

#[test]
fn should_rollback_true_in_active_window_above_threshold() {
    let mut cfg = fixture();
    cfg.last_known_good_version = Some("0.1.50".into());
    cfg.crash_count = 3;
    cfg.last_crash_unix = 1_000_000;
    assert!(should_rollback(&cfg, "0.1.51", 1_000_030));
}

#[test]
fn should_rollback_false_when_already_attempted() {
    let mut cfg = fixture();
    cfg.last_known_good_version = Some("0.1.50".into());
    cfg.crash_count = 5;
    cfg.last_crash_unix = 1_000_000;
    cfg.rollback_attempted = true;
    assert!(
        !should_rollback(&cfg, "0.1.51", 1_000_001),
        "must not oscillate between bad versions"
    );
}

#[test]
fn mark_run_starting_sets_unhealthy_flag() {
    let mut cfg = fixture();
    assert!(!cfg.last_run_unhealthy);
    mark_run_starting(&mut cfg);
    assert!(cfg.last_run_unhealthy);
}

#[test]
fn record_clean_run_clears_unhealthy_flag() {
    let mut cfg = fixture();
    mark_run_starting(&mut cfg);
    record_clean_run_at(&mut cfg, "0.1.50");
    assert!(!cfg.last_run_unhealthy);
    assert_eq!(cfg.last_known_good_version.as_deref(), Some("0.1.50"));
}

#[test]
fn mark_clean_shutdown_clears_only_unhealthy() {
    // Clean shutdown after 2 prior crashes shouldn't wipe the
    // counter — those still represent a crash window that the
    // 3rd crash should escalate.
    let mut cfg = fixture();
    cfg.crash_count = 2;
    cfg.last_crash_unix = 1_000_000;
    mark_run_starting(&mut cfg);
    mark_clean_shutdown(&mut cfg);
    assert!(!cfg.last_run_unhealthy);
    assert_eq!(cfg.crash_count, 2, "clean shutdown preserves crash history");
    assert_eq!(cfg.last_crash_unix, 1_000_000);
}


#[test]
fn migrate_pre_rc18_stamps_schema_version() {
    // Old config has no version field. Migration runs the rc.18
    // step set and stamps CURRENT_SCHEMA_VERSION so subsequent
    // launches no-op.
    let mut cfg = fixture();
    assert!(cfg.config_schema_version.is_none());
    let changed = migrate(&mut cfg);
    assert!(changed, "first migration must rewrite the config");
    assert_eq!(
        cfg.config_schema_version.as_deref(),
        Some(CURRENT_SCHEMA_VERSION)
    );
}

#[test]
fn migrate_same_schema_is_noop() {
    // Second launch on the same version: migrate returns false,
    // caller skips the save.
    let mut cfg = fixture();
    cfg.config_schema_version = Some(CURRENT_SCHEMA_VERSION.to_string());
    let changed = migrate(&mut cfg);
    assert!(!changed, "same-version migration must be a no-op");
}

#[test]
fn migrate_trims_trailing_slash_on_server_url() {
    let mut cfg = fixture();
    cfg.server_url = "https://example.invalid/".into();
    let changed = migrate(&mut cfg);
    assert!(changed);
    assert_eq!(cfg.server_url, "https://example.invalid");
}

#[test]
fn migrate_no_trailing_slash_to_trim() {
    // server_url already clean; ONLY the schema version stamp
    // counts as a change.
    let mut cfg = fixture();
    cfg.server_url = "https://example.invalid".into();
    let changed = migrate(&mut cfg);
    assert!(changed); // schema version stamp
    assert_eq!(cfg.server_url, "https://example.invalid");
}

#[test]
fn migrate_resets_crash_count_from_pre_rc18_branch() {
    // last_known_good_version from 0.2.x with a live crash counter:
    // those crashes happened on a different branch, the counter
    // must not trip rollback against rc.18.
    let mut cfg = fixture();
    cfg.last_known_good_version = Some("0.2.7".into());
    cfg.crash_count = 2;
    cfg.last_crash_unix = 1_700_000_000;
    let changed = migrate(&mut cfg);
    assert!(changed);
    assert_eq!(cfg.crash_count, 0);
    assert_eq!(cfg.last_crash_unix, 0);
}

#[test]
fn migrate_preserves_crash_count_for_same_branch() {
    // 0.3.x crash counter is still relevant when running 0.3.x —
    // don't wipe it.
    let mut cfg = fixture();
    cfg.last_known_good_version = Some("0.3.0-rc.16".into());
    cfg.crash_count = 1;
    cfg.last_crash_unix = 1_700_000_000;
    migrate(&mut cfg);
    assert_eq!(cfg.crash_count, 1, "0.3.x history must be preserved");
    assert_eq!(cfg.last_crash_unix, 1_700_000_000);
}
