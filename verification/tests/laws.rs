//! What holds across calls, on examples.
use roomler::config::agent::{test_fixture, AgentConfig, BUILT_IN_APPS};
use roomler::config::bridge::{
    derived_default_direct_port, env_bridge_bools, env_bridge_numerics,
};
use roomler::config::health::{
    mark_rollback_attempted, migrate, record_clean_run_at, record_crash_at, should_rollback,
    CRASH_WINDOW_SECS, CURRENT_SCHEMA_VERSION,
};
use roomler::config::org::{sanitize_org_label, OrgEntry, OrgOverlayMode};
use roomler::config::org_table::promote_org_to_primary;
use roomler::config::surface::{apply, current_value, entries, entry_for};
use roomler::enrollment::{
    apply_enrollment, apply_enrollment_minting, detect_os, enroll, enroll_url, is_loopback_authority,
    normalize_server_url, self_unenroll, unenroll_url, unique_org_label, EnrollInputs,
    EnrollOutcome, EnrollReply, OsKind,
};
use roomler::models::permissions::{
    has, ADMINISTRATOR, ALL, DEFAULT_ADMIN, DEFAULT_MEMBER, MANAGE_TENANT, SEND_MESSAGES,
    VIEW_CHANNELS,
};
use roomler::models::tenant::Plan;

fn org(label: &str, server: &str, tenant: &str) -> OrgEntry {
    OrgEntry {
        label: label.to_string(),
        server_url: server.to_string(),
        ws_url: None,
        agent_token: "t".to_string(),
        agent_id: "a".to_string(),
        tenant_id: tenant.to_string(),
        enabled: true,
        overlay_mode: OrgOverlayMode::Off,
        overlay_wg_secret_key: Some(format!("key-{label}")),
        overlay_wg_key_epoch: 1,
        overlay_advertised_routes: vec![],
        overlay_exit_node_enabled: false,
        advertise_routes: vec![],
        netstack_socks_port: None,
    }
}

fn inputs(server: &str) -> EnrollInputs<'_> {
    EnrollInputs {
        server_url: server,
        enrollment_token: "once",
        machine_id: "m-1",
        machine_name: "box",
    }
}

fn enrolled(server: &str, tenant: &str) -> AgentConfig {
    let reply = EnrollReply::Accepted {
        agent_id: "agent".to_string(),
        tenant_id: tenant.to_string(),
        agent_token: "token".to_string(),
        ephemeral: false,
    };
    enroll(&inputs(server), reply).unwrap()
}

#[test]
fn migrating_again_changes_nothing() {
    let mut c = test_fixture();
    c.server_url = "https://a.example//".to_string();
    c.config_schema_version = None;
    assert!(migrate(&mut c));
    assert_eq!(c.server_url, "https://a.example");
    assert_eq!(c.config_schema_version.as_deref(), Some(CURRENT_SCHEMA_VERSION));
    assert!(!migrate(&mut c));
}

#[test]
fn a_crash_loop_rolls_back_once() {
    let mut c = test_fixture();
    record_clean_run_at(&mut c, "1.0");
    for t in [1000, 1000 + CRASH_WINDOW_SECS, 1001 + CRASH_WINDOW_SECS] {
        assert!(!should_rollback(&c, "2.0", t));
        record_crash_at(&mut c, t);
    }
    let now = 1001 + CRASH_WINDOW_SECS;
    assert!(should_rollback(&c, "2.0", now));
    assert!(!should_rollback(&c, "1.0", now));
    assert!(!should_rollback(&c, "2.0", now + CRASH_WINDOW_SECS + 1));
    mark_rollback_attempted(&mut c);
    record_crash_at(&mut c, now);
    assert!(!should_rollback(&c, "2.0", now));
}

#[test]
fn a_clean_run_rules_out_a_rollback() {
    let mut c = test_fixture();
    c.last_known_good_version = Some("1.0".to_string());
    for t in [10, 11, 12] {
        record_crash_at(&mut c, t);
    }
    assert!(should_rollback(&c, "2.0", 12));
    record_clean_run_at(&mut c, "2.0");
    for version in ["1.0", "2.0", "3.0"] {
        assert!(!should_rollback(&c, version, 12));
    }
}

#[test]
fn a_quiet_window_counts_anew() {
    let mut c = test_fixture();
    c.last_known_good_version = Some("1.0".to_string());
    for t in [10, 11, 12] {
        record_crash_at(&mut c, t);
    }
    record_crash_at(&mut c, 13 + CRASH_WINDOW_SECS);
    assert_eq!(c.crash_count, 1);
    assert!(!should_rollback(&c, "2.0", 13 + CRASH_WINDOW_SECS));
}

#[test]
fn every_shown_value_is_read_back() {
    let mut c = test_fixture();
    let samples = [
        ("power_policy", "on-ac"),
        ("ssh_port", "2222"),
        ("overlay_quic", "off"),
        ("rate_factor_h264", "90"),
        ("encoder_preference", "software"),
        ("overlay_advertised_routes", "10.0.0.0/8, 192.168.1.0/24"),
    ];
    for (key, value) in samples {
        if apply(&mut c, key, Some(value)).is_err() {
            panic!("{key} takes {value}");
        }
        let shown = current_value(&c, key);
        apply(&mut c, key, shown.as_deref()).unwrap();
        assert_eq!(current_value(&c, key), shown, "{key}");
    }
    assert_eq!(
        current_value(&c, "overlay_advertised_routes").as_deref(),
        Some("10.0.0.0/8,192.168.1.0/24")
    );
}

#[test]
fn clearing_a_key_restores_what_is_built_in() {
    let blank = enrolled("https://a.example", "t");
    let mut c = enrolled("https://a.example", "t");
    for entry in entries(&blank) {
        apply(&mut c, &entry.key, None).unwrap();
        assert_eq!(current_value(&c, &entry.key), current_value(&blank, &entry.key));
    }
}

#[test]
fn the_surface_spares_the_identity() {
    let mut c = test_fixture();
    c.orgs = vec![org("lab", "https://lab.example", "t-2")];
    for entry in entries(&test_fixture()) {
        apply(&mut c, &entry.key, None).unwrap();
    }
    let f = test_fixture();
    assert_eq!(
        (c.agent_token, c.agent_id, c.tenant_id, c.server_url, c.machine_id),
        (f.agent_token, f.agent_id, f.tenant_id, f.server_url, f.machine_id)
    );
    assert_eq!(c.orgs.len(), 1);
    assert!(entry_for(&test_fixture(), "agent_token").is_none());
    assert!(apply(&mut test_fixture(), "agent_token", Some("x")).is_err());
}

#[test]
fn no_two_keys_share_a_name() {
    let list = entries(&test_fixture());
    for (i, a) in list.iter().enumerate() {
        for b in &list[i + 1..] {
            assert_ne!(a.key, b.key);
        }
        assert_eq!(entry_for(&test_fixture(), &a.key).unwrap().key, a.key);
    }
}

#[test]
fn bridged_variables_are_named_after_their_keys() {
    let c = test_fixture();
    let bools = env_bridge_bools(&c);
    let numerics = env_bridge_numerics(&c);
    assert_eq!((bools.len(), numerics.len()), (83, 29));
    for suffix in bools.iter().map(|p| p.0).chain(numerics.iter().map(|p| p.0)) {
        assert!(entry_for(&c, &suffix.to_lowercase()).is_some(), "{suffix}");
    }
}

#[test]
fn labels_are_normalised_once() {
    for raw in ["Acme Corp", "--x--", "a_b.c", "ÜBER", "primary", "", "0123456789".repeat(5).as_str()] {
        if let Some(l) = sanitize_org_label(raw) {
            assert!(l.len() <= 32 && !l.is_empty());
            assert_eq!(sanitize_org_label(&l).as_deref(), Some(l.as_str()));
        }
    }
    assert_eq!(sanitize_org_label("Acme Corp").as_deref(), Some("acme-corp"));
    assert_eq!(sanitize_org_label("primary"), None);
}

#[test]
fn a_table_without_problems_runs_whole() {
    let mut c = enrolled("https://a.example", "t-1");
    c.orgs = vec![
        org("lab", "https://lab.example", "t-2"),
        org("two", "https://a.example", "t-2"),
    ];
    assert!(c.validate_orgs().is_empty());
    assert!(c.partition_runnable_orgs().iter().all(|(_, p)| p.is_none()));
    c.orgs.push(org("lab", "https://c.example", "t-3"));
    c.orgs.push(org("me", "https://a.example", "t-1"));
    assert!(!c.validate_orgs().is_empty());
    let run = c.partition_runnable_orgs();
    assert_eq!(
        run.iter().map(|(_, p)| p.is_none()).collect::<Vec<bool>>(),
        vec![true, true, false, false]
    );
}

#[test]
fn promoting_an_org_twice_gives_the_primary_back() {
    let mut c = enrolled("https://a.example", "t-1");
    c.overlay_wg_secret_key = Some("mine".to_string());
    c.orgs = vec![org("lab", "https://lab.example", "t-2")];
    promote_org_to_primary(&mut c, "lab").unwrap();
    assert_eq!((c.server_url.as_str(), c.tenant_id.as_str()), ("https://lab.example", "t-2"));
    assert_eq!(c.overlay_wg_secret_key.as_deref(), Some("key-lab"));
    assert_eq!(c.orgs[0].overlay_wg_secret_key.as_deref(), Some("mine"));
    promote_org_to_primary(&mut c, "lab").unwrap();
    assert_eq!((c.server_url.as_str(), c.tenant_id.as_str()), ("https://a.example", "t-1"));
    assert_eq!(c.overlay_wg_secret_key.as_deref(), Some("mine"));
    assert!(promote_org_to_primary(&mut c, "nope").is_err());
}

#[test]
fn a_secondary_has_its_own_key() {
    let mut c = enrolled("https://a.example", "t-1");
    c.overlay_wg_secret_key = Some("mine".to_string());
    c.overlay_exit_node_enabled = true;
    let mut o = org("lab", "https://lab.example", "t-2");
    o.overlay_wg_secret_key = None;
    let view = c.for_org(&o);
    assert_eq!(view.overlay_wg_secret_key, None);
    assert!(!view.overlay_enabled && !view.overlay_exit_node_enabled);
    assert_eq!(view.machine_id, c.machine_id);
}

#[test]
fn an_entry_is_found_by_its_identity_and_changed() {
    let mut c = enrolled("https://a.example", "t-1");
    c.orgs = vec![
        org("lab", "https://lab.example", "t-2"),
        org("two", "https://lab.example", "t-3"),
    ];
    assert!(c.find_org_by_identity_mut("https://lab.example", "t-9").is_none());
    c.find_org_by_identity_mut("https://lab.example", "t-3").unwrap().enabled = false;
    assert!(c.orgs[0].enabled && !c.orgs[1].enabled);
    assert_eq!(c.enabled_secondary_orgs().len(), 1);
}

#[test]
fn urls_are_normalised_once() {
    for raw in [
        "http://a.example/",
        "http://localhost:3000//",
        "http://[::1]:3000",
        "https://a.example",
        "ftp://x",
        "",
    ] {
        let once = normalize_server_url(raw);
        assert_eq!(normalize_server_url(&once), once);
        if let Some(rest) = once.strip_prefix("http://") {
            assert!(is_loopback_authority(rest));
        }
    }
    assert_eq!(enroll_url("http://a.example/"), "https://a.example/api/agent/enroll");
    assert_eq!(
        unenroll_url("http://127.0.0.1/"),
        "http://127.0.0.1/api/agent/self/unenroll"
    );
}

#[test]
fn a_refused_enrollment_says_why() {
    let reply = EnrollReply::Rejected {
        status: "403 Forbidden".to_string(),
        body: "no".to_string(),
    };
    assert_eq!(
        enroll(&inputs("https://a.example"), reply).unwrap_err(),
        "enrollment rejected (status 403 Forbidden): no"
    );
    assert_eq!(
        self_unenroll(500, "500 Internal Server Error", "x").unwrap_err(),
        "self-unenroll rejected (status 500 Internal Server Error): x"
    );
    for gone in [200, 299, 401, 404] {
        assert!(self_unenroll(gone, "", "").is_ok());
    }
    assert!(self_unenroll(300, "", "").is_err());
    assert_eq!(detect_os("macos"), OsKind::Macos);
    assert_eq!(detect_os("freebsd"), OsKind::Linux);
}

#[test]
fn enrolling_opens_nothing_and_keeps_what_is_open() {
    let fresh = enrolled("https://a.example", "t-1");
    assert!(!fresh.exec_enabled && !fresh.ssh_enabled && !fresh.remote_config_enabled);
    let mut existing = enrolled("https://a.example", "t-1");
    existing.ssh_enabled = true;
    existing.overlay_wg_secret_key = Some("mine".to_string());
    let (c, outcome) = apply_enrollment(Some(existing), fresh, None, false).unwrap();
    assert_eq!(outcome, EnrollOutcome::RefreshedPrimary);
    assert!(c.ssh_enabled && !c.exec_enabled);
    assert_eq!(c.overlay_wg_secret_key.as_deref(), Some("mine"));
}

#[test]
fn an_appended_org_is_new_and_keeps_the_table_valid() {
    let mut existing = enrolled("https://a.example", "t-1");
    existing.orgs = vec![org("b-example", "https://x.example", "t-7")];
    let fresh = enrolled("https://b.example", "t-2");
    let minted = Some("minted".to_string());
    let (c, outcome) =
        apply_enrollment_minting(Some(existing), fresh, None, false, minted).unwrap();
    let label = "b-example-2".to_string();
    assert_eq!(outcome, EnrollOutcome::AppendedOrg { label });
    assert!(c.validate_orgs().is_empty());
    assert_eq!(c.orgs[1].overlay_wg_secret_key.as_deref(), Some("minted"));
    assert_eq!(c.server_url, "https://a.example");
}

#[test]
fn labels_are_refused_in_quotes() {
    let orgs = vec![org("lab", "https://lab.example", "t")];
    assert_eq!(
        unique_org_label(&orgs, Some("\"!\""), "https://b.example").unwrap_err(),
        "invalid --label \"\\\"!\\\"\": use lowercase letters/digits/dashes \
         (and not the reserved \"primary\")"
    );
    assert_eq!(
        unique_org_label(&orgs, Some("LAB"), "https://b.example").unwrap_err(),
        "--label \"lab\" is already in use (see `roomlerd org ls`)"
    );
    let mut taken = vec![org("b-example", "s", "t")];
    for n in 2..100 {
        taken.push(org(&format!("b-example-{n}"), "s", "t"));
    }
    assert_eq!(
        unique_org_label(&taken, None, "https://b.example").unwrap_err(),
        "could not derive a unique org label from \"https://b.example\"; pass --label"
    );
}

#[test]
fn replacing_the_primary_leaves_no_duplicate() {
    let mut existing = enrolled("https://a.example", "t-1");
    existing.orgs = vec![
        org("b", "https://b.example", "t-2"),
        org("c", "https://c.example", "t-3"),
    ];
    let fresh = enrolled("https://b.example", "t-2");
    let (c, outcome) = apply_enrollment(Some(existing), fresh, None, true).unwrap();
    assert_eq!(outcome, EnrollOutcome::ReplacedPrimary);
    assert_eq!(c.orgs.len(), 1);
    assert_eq!(c.orgs[0].label, "c");
}

#[test]
fn permissions_add_up() {
    assert!(has(ADMINISTRATOR, MANAGE_TENANT));
    assert!(!has(DEFAULT_MEMBER, MANAGE_TENANT));
    assert!(has(DEFAULT_MEMBER | MANAGE_TENANT, MANAGE_TENANT));
    assert!(has(DEFAULT_MEMBER, VIEW_CHANNELS | SEND_MESSAGES));
    assert!(!has(DEFAULT_MEMBER, VIEW_CHANNELS | MANAGE_TENANT));
    assert_eq!(DEFAULT_ADMIN | ADMINISTRATOR, ALL);
    assert_eq!(DEFAULT_ADMIN & ADMINISTRATOR, 0);
}

#[test]
fn higher_plans_allow_more() {
    let plans = [Plan::Free, Plan::Pro, Plan::Business, Plan::Enterprise];
    for pair in plans.windows(2) {
        let (a, b) = (pair[0].limits(), pair[1].limits());
        assert!(a.max_members <= b.max_members && a.storage_bytes <= b.storage_bytes);
        assert!(pair[0].price_monthly_cents() <= pair[1].price_monthly_cents());
    }
}

#[test]
fn a_write_changes_no_other_key() {
    let writes = [
        ("overlay_enabled", "true"),
        ("shared_encoder", "1"),
        ("overlay_iface_metric", "7"),
        ("overlay_exit_node", "exit"),
        ("advertise_routes", "10.0.0.0/8"),
        ("forward_acl", "{\"enabled\":false,\"allowlist\":[]}"),
    ];
    for (key, value) in writes {
        let before = test_fixture();
        let mut after = test_fixture();
        apply(&mut after, key, Some(value)).unwrap();
        for (old, new) in entries(&before).iter().zip(entries(&after).iter()) {
            assert_eq!(old.key, new.key);
            assert_eq!(old.key != key, old.value == new.value, "{} after {}", new.key, key);
        }
    }
}

#[test]
fn a_bridged_write_shows_in_its_own_pair() {
    let suffixes: Vec<&'static str> =
        env_bridge_bools(&test_fixture()).iter().map(|p| p.0).collect();
    for (i, suffix) in suffixes.iter().enumerate() {
        assert_eq!(suffixes.iter().position(|s| s == suffix), Some(i));
        let key = suffix.to_ascii_lowercase();
        let mut cfg = test_fixture();
        assert_eq!(entry_for(&cfg, &key).unwrap().kind, "tribool");
        let before = env_bridge_bools(&cfg);
        for (text, value) in [(Some("1"), Some(true)), (Some("0"), Some(false)), (None, None)] {
            apply(&mut cfg, &key, text).unwrap();
            for (j, pair) in env_bridge_bools(&cfg).iter().enumerate() {
                assert_eq!(pair.1, if i == j { value } else { before[j].1 });
            }
        }
    }
}

#[test]
fn ids_that_differ_in_one_character_get_other_ports() {
    for a in 0u8..128 {
        for b in 0u8..128 {
            let id = |c: u8| format!("laptop-{}-\u{e9}", c as char);
            assert_eq!(
                derived_default_direct_port(&id(a)) != derived_default_direct_port(&id(b)),
                a % 32 != b % 32
            );
        }
    }
}

#[test]
fn a_shown_allowlist_without_rules_is_accepted_again() {
    for on in [true, false] {
        let mut cfg = test_fixture();
        cfg.forward_acl.enabled = on;
        let shown = current_value(&cfg, "forward_acl").unwrap();
        cfg.forward_acl.enabled = !on;
        apply(&mut cfg, "forward_acl", Some(shown.as_str())).unwrap();
        assert_eq!(cfg.forward_acl.enabled, on);
        assert_eq!(current_value(&cfg, "forward_acl"), Some(shown));
    }
}

#[test]
fn an_allowlist_switch_that_is_no_boolean_is_refused() {
    let mut cfg = test_fixture();
    assert_eq!(
        apply(&mut cfg, "forward_acl", Some("{\"enabled\":\"x\"}")).unwrap_err(),
        "forward_acl: invalid JSON: invalid type: string \"x\", expected a boolean at line 1 column 3"
    );
    assert!(cfg.forward_acl.enabled);
}

#[test]
fn the_built_in_apps_are_shown_and_come_back() {
    let mut cfg = test_fixture();
    let shown = current_value(&cfg, "virtual_desktop_apps").unwrap();
    assert_eq!(shown, BUILT_IN_APPS);
    apply(&mut cfg, "virtual_desktop_apps", Some(shown.as_str())).unwrap();
    assert_eq!(current_value(&cfg, "virtual_desktop_apps"), Some(shown.clone()));
    apply(&mut cfg, "virtual_desktop_apps", Some(" { \"enabled\" : false } ")).unwrap();
    assert_eq!(
        current_value(&cfg, "virtual_desktop_apps").as_deref(),
        Some("{\"enabled\":false}")
    );
    assert!(apply(&mut cfg, "virtual_desktop_apps", Some("[]")).is_err());
    assert!(apply(&mut cfg, "virtual_desktop_apps", Some("{nope")).is_err());
    apply(&mut cfg, "virtual_desktop_apps", None).unwrap();
    assert_eq!(current_value(&cfg, "virtual_desktop_apps"), Some(shown));
}

#[test]
fn every_key_says_what_it_does() {
    assert!(entries(&test_fixture()).iter().all(|e| !e.description.is_empty()));
}
