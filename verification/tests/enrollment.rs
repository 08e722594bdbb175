//! Enrollment: server URLs, and folding an enrollment into a configuration.
use roomler::config::agent::{test_fixture, AgentConfig, EncoderPreferenceChoice};
use roomler::config::org::{OrgEntry, OrgOverlayMode};
use roomler::enrollment::{
    apply_enrollment, normalize_server_url, preserve_operator_config, EnrollOutcome,
};

#[test]
fn http_is_promoted_to_https() {
    assert_eq!(
        normalize_server_url("http://roomler.ai"),
        "https://roomler.ai"
    );
    assert_eq!(
        normalize_server_url("http://roomler.ai/"),
        "https://roomler.ai"
    );
    assert_eq!(
        normalize_server_url("http://10.0.0.5:3000"),
        "https://10.0.0.5:3000"
    );
}

#[test]
fn http_loopback_is_not_promoted() {
    // Loopback has no off-host path to MITM — keep it plaintext so a dev /
    // test / CI server on 127.0.0.1 (the integration `TestApp`) enrolls.
    assert_eq!(
        normalize_server_url("http://127.0.0.1:41003"),
        "http://127.0.0.1:41003"
    );
    assert_eq!(
        normalize_server_url("http://localhost:5001/"),
        "http://localhost:5001"
    );
    assert_eq!(
        normalize_server_url("http://[::1]:8080"),
        "http://[::1]:8080"
    );
    assert_eq!(normalize_server_url("http://127.5.5.5"), "http://127.5.5.5");
    // A non-loopback private IP is still upgraded (only loopback is exempt).
    assert_eq!(
        normalize_server_url("http://192.168.1.10:3000"),
        "https://192.168.1.10:3000"
    );
}

#[test]
fn https_is_left_alone() {
    assert_eq!(
        normalize_server_url("https://roomler.ai"),
        "https://roomler.ai"
    );
    assert_eq!(
        normalize_server_url("https://roomler.ai/"),
        "https://roomler.ai"
    );
}

#[test]
fn does_not_upgrade_unrelated_schemes_or_bare_hosts() {
    // We don't validate — the reqwest call will fail with a clearer
    // error than we could produce here. Just confirm we don't
    // accidentally rewrite these.
    assert_eq!(normalize_server_url("roomler.ai"), "roomler.ai");
    assert_eq!(normalize_server_url("file:///tmp/foo"), "file:///tmp/foo");
}

#[test]
fn preserve_operator_config_keeps_operator_state_and_takes_identity() {
    let mut existing = test_fixture();
    existing.overlay_enabled = true;
    existing.overlay_wg_secret_key = Some("OLD-WG-KEY".into());
    existing.overlay_advertised_routes = vec!["192.168.1.0/24".into()];
    existing.advertise_routes = vec!["10.9.0.0/16".into()];
    existing.encoder_preference = EncoderPreferenceChoice::Software;
    existing.auto_grant_session = false;
    existing.last_known_good_version = Some("0.3.0-rc.199".into());

    let mut fresh = test_fixture();
    fresh.server_url = "https://roomler.ai".into();
    fresh.agent_token = "NEW-TOKEN".into();
    fresh.agent_id = "NEW-AGENT-ID".into();
    fresh.tenant_id = "NEW-TENANT".into();
    fresh.machine_id = "NEW-MID".into();
    fresh.machine_name = "renamed-host".into();
    fresh.config_schema_version = Some("9".into());

    let merged = preserve_operator_config(fresh, existing);

    // The remote-config opt-in rides the `..existing` tail, and BOTH
    // directions matter: a device that opted in must not silently opt out
    // when it re-enrolls, and — the security-relevant half — re-enrolling
    // must never be a way to opt a device IN. `existing` was left at the
    // fixture default (off) above, so this also pins the default.
    assert!(
        !merged.remote_config_enabled,
        "re-enrollment must not opt a device into accepting pushed config"
    );

    // Identity comes from the fresh enrollment…
    assert_eq!(merged.server_url, "https://roomler.ai");
    assert_eq!(merged.agent_token, "NEW-TOKEN");
    assert_eq!(merged.agent_id, "NEW-AGENT-ID");
    assert_eq!(merged.tenant_id, "NEW-TENANT");
    assert_eq!(merged.machine_id, "NEW-MID");
    assert_eq!(merged.machine_name, "renamed-host");
    assert_eq!(merged.config_schema_version.as_deref(), Some("9"));

    // …and the operator state survives the re-enroll.
    assert!(merged.overlay_enabled, "overlay opt-in must survive");
    assert_eq!(
        merged.overlay_wg_secret_key.as_deref(),
        Some("OLD-WG-KEY"),
        "the WG identity must survive (no forced key rotation)"
    );
    assert_eq!(merged.overlay_advertised_routes, vec!["192.168.1.0/24"]);
    assert_eq!(merged.advertise_routes, vec!["10.9.0.0/16"]);
    assert!(matches!(
        merged.encoder_preference,
        EncoderPreferenceChoice::Software
    ));
    assert!(!merged.auto_grant_session);
    assert_eq!(
        merged.last_known_good_version.as_deref(),
        Some("0.3.0-rc.199")
    );
}


fn fresh_for(server: &str, tenant: &str, token: &str) -> AgentConfig {
    let mut f = test_fixture();
    f.server_url = server.into();
    f.tenant_id = tenant.into();
    f.agent_token = token.into();
    f.agent_id = format!("aid-{tenant}");
    f
}

fn org(label: &str, server: &str, tenant: &str) -> OrgEntry {
    OrgEntry {
        label: label.into(),
        server_url: server.into(),
        ws_url: None,
        agent_token: format!("tok-{label}"),
        agent_id: format!("aid-{label}"),
        tenant_id: tenant.into(),
        enabled: true,
        overlay_mode: OrgOverlayMode::Off,
        overlay_wg_secret_key: None,
        overlay_wg_key_epoch: 0,
        overlay_advertised_routes: Vec::new(),
        overlay_exit_node_enabled: false,
        advertise_routes: Vec::new(),
        netstack_socks_port: None,
    }
}

#[test]
fn apply_enrollment_fresh_when_no_existing() {
    let fresh = fresh_for("https://a.invalid", "t1", "tok1");
    let (cfg, outcome) = apply_enrollment(None, fresh.clone(), None, false).unwrap();
    assert_eq!(outcome, EnrollOutcome::FreshPrimary);
    assert_eq!(cfg.agent_token, fresh.agent_token);
    assert!(cfg.orgs.is_empty());
}

#[test]
fn apply_enrollment_same_identity_refreshes_primary_and_keeps_orgs() {
    let mut existing = test_fixture(); // server example.invalid / tenant tid
    existing.overlay_enabled = true;
    existing.orgs = vec![org("acme", "https://b.invalid", "t-acme")];
    let fresh = fresh_for("https://example.invalid", "tid", "NEW-TOK");
    let (cfg, outcome) = apply_enrollment(Some(existing), fresh, None, false).unwrap();
    assert_eq!(outcome, EnrollOutcome::RefreshedPrimary);
    assert_eq!(cfg.agent_token, "NEW-TOK");
    assert!(cfg.overlay_enabled, "operator state preserved");
    assert_eq!(cfg.orgs.len(), 1, "secondary enrollments must survive");
    assert_eq!(cfg.orgs[0].label, "acme");
}

#[test]
fn apply_enrollment_matching_org_refreshes_in_place() {
    let mut existing = test_fixture();
    existing.orgs = vec![org("acme", "https://b.invalid", "t-acme")];
    let fresh = fresh_for("https://b.invalid", "t-acme", "ROTATED");
    let (cfg, outcome) = apply_enrollment(Some(existing), fresh, None, false).unwrap();
    assert_eq!(
        outcome,
        EnrollOutcome::RefreshedOrg {
            label: "acme".into()
        }
    );
    assert_eq!(cfg.orgs.len(), 1);
    assert_eq!(cfg.orgs[0].agent_token, "ROTATED");
    assert_eq!(cfg.orgs[0].agent_id, "aid-t-acme");
    // The primary identity is untouched.
    assert_eq!(cfg.agent_token, "tok");
}

#[test]
fn apply_enrollment_new_identity_appends_secondary() {
    let existing = test_fixture();
    let fresh = fresh_for("https://roomler.ai", "t-new", "tok-new");
    let (cfg, outcome) = apply_enrollment(Some(existing), fresh, None, false).unwrap();
    let EnrollOutcome::AppendedOrg { label } = outcome else {
        panic!("expected append, got {outcome:?}");
    };
    assert_eq!(label, "roomler-ai", "label derives from the server host");
    assert_eq!(cfg.orgs.len(), 1);
    let entry = &cfg.orgs[0];
    assert_eq!(entry.tenant_id, "t-new");
    assert!(entry.enabled);
    assert_eq!(entry.overlay_mode, OrgOverlayMode::Off);
    // The primary is untouched — an append must never rebind it.
    assert_eq!(cfg.agent_token, "tok");
    assert_eq!(cfg.tenant_id, "tid");
}

#[test]
fn apply_enrollment_append_uses_requested_label_and_rejects_taken() {
    let mut existing = test_fixture();
    existing.orgs = vec![org("acme", "https://b.invalid", "t-acme")];
    let fresh = fresh_for("https://c.invalid", "t-c", "tok-c");
    let (cfg, outcome) = apply_enrollment(
        Some(existing.clone()),
        fresh.clone(),
        Some("Beta Corp"),
        false,
    )
    .unwrap();
    assert_eq!(
        outcome,
        EnrollOutcome::AppendedOrg {
            label: "beta-corp".into()
        }
    );
    assert_eq!(cfg.orgs.len(), 2);

    // Taken label → hard error (the operator named it deliberately).
    let err = apply_enrollment(Some(existing.clone()), fresh.clone(), Some("acme"), false)
        .unwrap_err();
    assert!(err.to_string().contains("already in use"), "{err}");
    // Reserved label → hard error.
    let err = apply_enrollment(Some(existing), fresh, Some("primary"), false).unwrap_err();
    assert!(err.to_string().contains("invalid --label"), "{err}");
}

#[test]
fn apply_enrollment_replace_rebinds_primary_and_drops_dup_entry() {
    let mut existing = test_fixture();
    existing.orgs = vec![
        org("acme", "https://b.invalid", "t-acme"),
        org("keep", "https://c.invalid", "t-keep"),
    ];
    // Replacing the primary with an identity that ALREADY exists as the
    // "acme" secondary: the secondary is dropped (no duplicate identity).
    let fresh = fresh_for("https://b.invalid", "t-acme", "tok-promoted");
    let (cfg, outcome) = apply_enrollment(Some(existing), fresh, None, true).unwrap();
    assert_eq!(outcome, EnrollOutcome::ReplacedPrimary);
    assert_eq!(cfg.server_url, "https://b.invalid");
    assert_eq!(cfg.tenant_id, "t-acme");
    assert_eq!(cfg.agent_token, "tok-promoted");
    assert_eq!(cfg.orgs.len(), 1, "the duplicate entry must be dropped");
    assert_eq!(cfg.orgs[0].label, "keep");
}

#[test]
fn apply_enrollment_appended_label_uniquifies_on_collision() {
    let mut existing = test_fixture();
    existing.orgs = vec![org("roomler-ai", "https://other.invalid", "t-x")];
    let fresh = fresh_for("https://roomler.ai", "t-y", "tok-y");
    let (_cfg, outcome) = apply_enrollment(Some(existing), fresh, None, false).unwrap();
    assert_eq!(
        outcome,
        EnrollOutcome::AppendedOrg {
            label: "roomler-ai-2".into()
        }
    );
}
