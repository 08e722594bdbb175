//! Accounts, tokens, billing, agents, releases.
use roomler::api::agent_release::{
    fetch_releases, releases_url, AgentRelease, LatestReleaseCache, CACHE_TTL_NANOS,
};
use roomler::api::auth::{
    activate, activated, activation_code, activation_url, auto_accept_invite, code_checked,
    invite_tenant, invited, login, login_allowed, login_hash, logout, me, needs_member_role,
    refresh, register, registered, signed_in, use_counted, user_activated, welcome,
    ActivateRequest, LoginBy, LoginRequest, RegisterRequest, TokenPair,
};
use roomler::api::error::{ApiError, AuthError, DaoError};
use roomler::api::extract::{auth_user, tenant_id, token, Claims, PathParams};
use roomler::api::remote_control::{
    agent_id, agent_request, build_turn_config, enroll_agent, enrolled, issue_enrollment_token, list_agents,
    new_agent, session_request, terminate_session, to_agent_response, to_session_response,
    update_agent, Agent, AgentChange, EnrollRequest, RemoteSession, UpdateAgentRequest,
};
use roomler::api::wire::Paginated;
use roomler::api::stripe::{
    parse_oid, require_manage_tenant, stripe_err, webhook, webhook_event, StripeError,
};
use roomler::enrollment::OsKind;
use roomler::models::invite::{Invite, InviteStatus};
use roomler::models::permissions::{ADMINISTRATOR, DEFAULT_MEMBER, MANAGE_TENANT};
use roomler::models::tenant::{Plan, Tenant, TenantSettings};
use roomler::models::user::{NotificationPrefs, Presence, User, UserStatusInfo};
use roomler::oid::{DateTime, ObjectId};

const ID: &str = "507f1f77bcf86cd799439011";

fn oid(n: u64) -> ObjectId {
    ObjectId { hi: 0, lo: n }
}

fn answer(e: ApiError) -> (u16, String) {
    let (status, body) = e.into_response();
    (status, body.message)
}

fn said(status: u16, m: &str) -> (u16, String) {
    (status, m.to_string())
}

fn user(hash: Option<&str>, verified: bool) -> User {
    User {
        id: Some(oid(7)),
        email: "ann@example.org".to_string(),
        username: "ann".to_string(),
        display_name: "Ann".to_string(),
        avatar: Some("/a.png".to_string()),
        password_hash: hash.map(|s| s.to_string()),
        status: UserStatusInfo { text: None, emoji: None, expires_at: None },
        presence: Presence::Offline,
        locale: "en-US".to_string(),
        timezone: "UTC".to_string(),
        is_verified: verified,
        is_mfa_enabled: false,
        last_active_at: None,
        oauth_providers: vec![],
        notification_preferences: NotificationPrefs::default(),
        created_at: DateTime { millis: 0 },
        updated_at: DateTime { millis: 0 },
        deleted_at: None,
    }
}

fn registration(name: Option<&str>, slug: Option<&str>) -> RegisterRequest {
    RegisterRequest {
        email: "ann@example.org".to_string(),
        username: "ann".to_string(),
        display_name: "Ann".to_string(),
        password: "pw".to_string(),
        tenant_name: name.map(|s| s.to_string()),
        tenant_slug: slug.map(|s| s.to_string()),
        invite_code: Some("code".to_string()),
    }
}

#[test]
fn a_registration_stores_the_hash_and_not_the_password() {
    let (n, rest) = register(registration(Some("Acme"), Some("acme")), Ok("#".to_string())).unwrap();
    assert_eq!(n.password_hash, "#");
    assert_eq!(n.username, "ann");
    assert_eq!(rest.tenant, Some(("Acme".to_string(), "acme".to_string())));
    assert_eq!(rest.invite_code.as_deref(), Some("code"));
    let (_, rest) = register(registration(Some("Acme"), None), Ok("#".to_string())).unwrap();
    assert_eq!(rest.tenant, None);
    let e = register(registration(None, None), Err(AuthError::HashError("no".to_string())))
        .unwrap_err();
    assert_eq!(answer(e), said(500, "no"));
    let (status, body) = registered();
    assert_eq!(status, 201);
    assert_eq!(
        body.message,
        "Registration successful. Please check your email to activate your account."
    );
}

#[test]
fn activation_codes_are_seven_url_safe_characters() {
    let a = activation_code();
    assert_eq!(a.len(), 7);
    assert!(a.chars().all(|c| c.is_ascii_alphanumeric() || c == '_' || c == '-'));
    let drawn: Vec<String> = (0..20).map(|_| activation_code()).collect();
    assert!(drawn.iter().any(|c| *c != a));
    assert_eq!(
        activation_url("https://r.ai", oid(7), "abc1234"),
        "https://r.ai/auth/activate?userId=000000000000000000000007&token=abc1234"
    );
}

#[test]
fn one_signs_in_by_name_or_by_address() {
    let ask = |u: Option<&str>, e: Option<&str>| LoginRequest {
        username: u.map(|s| s.to_string()),
        email: e.map(|s| s.to_string()),
        password: "pw".to_string(),
    };
    assert!(matches!(login(&ask(Some("ann"), Some("x"))), Ok(LoginBy::Username(n)) if n == "ann"));
    assert!(matches!(login(&ask(None, Some("x"))), Ok(LoginBy::Email(n)) if n == "x"));
    assert_eq!(
        answer(login(&ask(None, None)).unwrap_err()),
        said(400, "Either username or email is required")
    );
}

#[test]
fn an_unknown_name_and_a_wrong_password_are_answered_alike() {
    let unknown = login_hash(&Err(DaoError::NotFound)).unwrap_err();
    let wrong = login_allowed(&user(Some("#"), true), Ok(false)).unwrap_err();
    let a = answer(unknown);
    assert_eq!(a, said(401, "Invalid credentials"));
    assert_eq!(a, answer(wrong));
    assert_eq!(
        answer(login_hash(&Ok(user(None, true))).unwrap_err()),
        said(401, "No password set")
    );
    assert_eq!(login_hash(&Ok(user(Some("#"), true))).unwrap(), "#");
}

#[test]
fn only_an_activated_account_signs_in() {
    assert!(login_allowed(&user(Some("#"), true), Ok(true)).is_ok());
    assert_eq!(
        answer(login_allowed(&user(Some("#"), false), Ok(true)).unwrap_err()),
        said(401, "Account not activated. Please check your email for the activation link.")
    );
    assert_eq!(
        answer(login_allowed(&user(Some("#"), false), Ok(false)).unwrap_err()),
        said(401, "Invalid credentials")
    );
    assert_eq!(
        answer(
            login_allowed(&user(Some("#"), true), Err(AuthError::HashError("x".to_string())))
                .unwrap_err()
        ),
        said(500, "x")
    );
}

#[test]
fn the_cookie_lives_as_long_as_the_token() {
    let tokens = TokenPair {
        access_token: "AAA".to_string(),
        refresh_token: "RRR".to_string(),
        expires_in: 3600,
    };
    let (cookie, r) = signed_in(oid(7), &user(None, true), tokens);
    assert_eq!(
        cookie,
        "access_token=AAA; HttpOnly; Path=/; SameSite=Lax; Max-Age=3600"
    );
    let sent = cookie.split(';').next().unwrap();
    assert_eq!(token(None, Some(sent)).unwrap(), "AAA");
    assert_eq!(r.user.id, oid(7).to_hex());
    assert_eq!(r.user.avatar.as_deref(), Some("/a.png"));
    assert_eq!((r.refresh_token.as_str(), r.expires_in), ("RRR", 3600));
    assert!(r.invite_tenant.is_none());
    assert_eq!(logout(), "access_token=; HttpOnly; Path=/; SameSite=Lax; Max-Age=0");
    assert_eq!(me(&user(None, true)).email, "ann@example.org");
}

#[test]
fn a_token_without_a_user_is_not_renewed() {
    assert_eq!(refresh(ID).unwrap().to_hex(), ID);
    assert_eq!(answer(refresh("x").unwrap_err()), said(401, "Invalid user ID"));
}

#[test]
fn activation_fails_at_each_step_in_its_own_words() {
    let ask = |id: &str| ActivateRequest { user_id: id.to_string(), token: "t".to_string() };
    assert_eq!(activate(&ask(ID)).unwrap().to_hex(), ID);
    assert_eq!(answer(activate(&ask("x")).unwrap_err()), said(400, "Invalid user ID"));
    assert!(code_checked(Ok(true)).is_ok());
    assert_eq!(
        answer(code_checked(Ok(false)).unwrap_err()),
        said(400, "Invalid or expired activation token")
    );
    assert_eq!(
        answer(code_checked(Err("down".to_string())).unwrap_err()),
        said(500, "Database error: down")
    );
    assert!(user_activated(Ok(())).is_ok());
    assert_eq!(
        answer(user_activated(Err("down".to_string())).unwrap_err()),
        said(500, "Failed to activate user: down")
    );
    let w = welcome(Ok(user(None, true)), "https://r.ai").unwrap();
    assert_eq!(w.login_url, "https://r.ai/auth/login");
    assert_eq!(
        answer(welcome(Err("gone".to_string()), "").unwrap_err()),
        said(500, "User not found: gone")
    );
    assert_eq!(
        activated().message,
        "Account activated successfully. You can now sign in."
    );
}

fn invite(email: Option<&str>, roles: Vec<ObjectId>) -> Invite {
    Invite {
        id: Some(oid(1)),
        tenant_id: oid(2),
        channel_id: None,
        code: "code".to_string(),
        inviter_id: oid(3),
        target_email: email.map(|s| s.to_string()),
        target_user_id: None,
        max_uses: None,
        use_count: 0,
        expires_at: None,
        assign_role_ids: roles,
        status: InviteStatus::Active,
        created_at: DateTime { millis: 0 },
        updated_at: DateTime { millis: 0 },
    }
}

#[test]
fn an_invite_is_good_for_its_address() {
    assert!(auto_accept_invite(&invite(None, vec![]), "a@b", Ok(())).is_ok());
    assert!(auto_accept_invite(&invite(Some("a@b"), vec![]), "a@b", Ok(())).is_ok());
    assert_eq!(
        answer(auto_accept_invite(&invite(Some("a@b"), vec![]), "c@d", Ok(())).unwrap_err()),
        said(403, "This invite is for a different email address")
    );
    assert_eq!(
        answer(
            auto_accept_invite(&invite(Some("a@b"), vec![]), "c@d", Err("expired".to_string()))
                .unwrap_err()
        ),
        said(400, "expired")
    );
}

#[test]
fn an_invite_gives_its_roles_or_that_of_members() {
    let bare = invite(None, vec![]);
    assert!(needs_member_role(&bare));
    let m = invited(&bare, oid(9), Some(oid(5)));
    assert_eq!(m.role_ids, vec![oid(5)]);
    assert_eq!((m.tenant_id, m.user_id, m.invited_by), (oid(2), oid(9), Some(oid(3))));
    let given = invite(None, vec![oid(6), oid(7)]);
    assert!(!needs_member_role(&given));
    assert_eq!(invited(&given, oid(9), None).role_ids, vec![oid(6), oid(7)]);
    assert!(use_counted(Ok(())).is_ok());
    assert_eq!(answer(use_counted(Err("used up".to_string())).unwrap_err()), said(400, "used up"));
    assert_eq!(invite_tenant(tenant(1)).tenant_slug, "acme");
}

fn tenant(owner: u64) -> Tenant {
    Tenant {
        id: Some(oid(2)),
        name: "Acme".to_string(),
        slug: "acme".to_string(),
        description: None,
        icon: None,
        owner_id: oid(owner),
        plan: Plan::Pro,
        features: vec![],
        settings: TenantSettings::default(),
        billing: None,
        integrations: None,
        is_archived: false,
        created_at: DateTime { millis: 0 },
        updated_at: DateTime { millis: 0 },
        deleted_at: None,
    }
}

#[test]
fn tenants_are_shown() {
    let r = roomler::api::tenant::to_response(&tenant(4));
    assert_eq!((r.id, r.owner_id), (oid(2).to_hex(), oid(4).to_hex()));
    assert_eq!(r.plan, "Pro");
    assert_eq!(roomler::api::tenant::list(&vec![tenant(4), tenant(5)]).len(), 2);
}

#[test]
fn the_header_goes_before_the_cookies() {
    assert_eq!(token(Some("Bearer abc"), Some("access_token=x")).unwrap(), "abc");
    assert_eq!(token(Some("Basic abc"), Some("access_token=x")).unwrap(), "x");
    assert_eq!(token(None, Some("a=b;  access_token=y ; access_token=z")).unwrap(), "y");
    assert_eq!(token(Some("Bearer "), None).unwrap(), "");
    assert_eq!(answer(token(None, Some("a=b")).unwrap_err()), said(401, "No token provided"));
    assert_eq!(answer(token(None, None).unwrap_err()), said(401, "No token provided"));
    assert!(token(Some("bearer abc"), None).is_err());
}

#[test]
fn the_claims_name_the_user() {
    let c = |sub: &str| Claims {
        sub: sub.to_string(),
        email: "a@b".to_string(),
        username: "ann".to_string(),
    };
    let u = auth_user(Ok(c(ID))).unwrap();
    assert_eq!((u.user_id.to_hex().as_str(), u.username.as_str()), (ID, "ann"));
    assert_eq!((u.claims.sub.as_str(), u.claims.username.as_str()), (ID, "ann"));
    assert_eq!(u.claims.email, u.email);
    assert_eq!(
        answer(auth_user(Ok(c("x"))).unwrap_err()),
        said(401, "Invalid user ID in token")
    );
    assert_eq!(
        answer(auth_user(Err(AuthError::TokenExpired)).unwrap_err()),
        said(401, "Token expired")
    );
}

#[test]
fn the_path_names_the_tenant() {
    assert_eq!(tenant_id(PathParams::Read(Some(ID))).unwrap().0.to_hex(), ID);
    assert_eq!(
        answer(tenant_id(PathParams::Unreadable).unwrap_err()),
        said(400, "Missing path parameters")
    );
    assert_eq!(
        answer(tenant_id(PathParams::Read(None)).unwrap_err()),
        said(400, "Missing tenant_id parameter")
    );
    assert_eq!(
        answer(tenant_id(PathParams::Read(Some("x"))).unwrap_err()),
        said(400, "Invalid tenant_id format")
    );
}

#[test]
fn owners_and_managers_manage() {
    assert!(require_manage_tenant(&tenant(1), oid(1), Err(DaoError::NotFound)).is_ok());
    assert!(require_manage_tenant(&tenant(1), oid(2), Ok(MANAGE_TENANT)).is_ok());
    assert!(require_manage_tenant(&tenant(1), oid(2), Ok(ADMINISTRATOR)).is_ok());
    assert_eq!(
        answer(require_manage_tenant(&tenant(1), oid(2), Ok(DEFAULT_MEMBER)).unwrap_err()),
        said(403, "Missing MANAGE_TENANT permission")
    );
    assert_eq!(
        answer(require_manage_tenant(&tenant(1), oid(2), Err(DaoError::NotFound)).unwrap_err()).0,
        404
    );
}

#[test]
fn billing_errors_are_answered_by_their_kind() {
    assert_eq!(answer(stripe_err(StripeError::TenantNotFound)), said(404, "Tenant not found"));
    assert_eq!(
        answer(stripe_err(StripeError::NoBillingAccount)),
        said(400, "No billing account for this tenant")
    );
    assert_eq!(
        answer(stripe_err(StripeError::InvalidPlan("gold".to_string()))),
        said(400, "Invalid plan: gold")
    );
    assert_eq!(
        answer(stripe_err(StripeError::InvalidSignature)),
        said(401, "Invalid webhook signature")
    );
    assert_eq!(
        answer(stripe_err(StripeError::ApiError("x".to_string()))),
        said(500, "Stripe API error: x")
    );
    assert_eq!(answer(stripe_err(StripeError::Mongo("x".to_string()))), said(500, "x"));
    assert_eq!(parse_oid(ID).unwrap().to_hex(), ID);
    assert_eq!(answer(parse_oid("x").unwrap_err()), said(400, "Invalid ObjectId: x"));
}

#[test]
fn webhooks_are_taken_up_only_when_signed() {
    assert_eq!(webhook(Some("s".to_string())).unwrap(), "s");
    assert_eq!(
        answer(webhook(None).unwrap_err()),
        said(400, "Missing Stripe-Signature header")
    );
    assert!(webhook_event(true, Ok(())).is_ok());
    assert_eq!(
        answer(webhook_event(false, Ok(())).unwrap_err()),
        said(401, "Invalid webhook signature")
    );
    assert_eq!(
        answer(webhook_event(true, Err("eof".to_string())).unwrap_err()),
        said(400, "Invalid event payload: eof")
    );
}

#[test]
fn agents_are_enrolled_once_per_machine() {
    let t = issue_enrollment_token("tok".to_string(), "j".to_string());
    assert_eq!((t.enrollment_token.as_str(), t.expires_in, t.jti.as_str()), ("tok", 600, "j"));
    let (tid, admin) = enroll_agent(ID, ID).unwrap();
    assert_eq!(tid, admin);
    assert_eq!(
        answer(enroll_agent("x", "y").unwrap_err()),
        said(400, "Invalid tenant_id claim")
    );
    assert_eq!(
        answer(enroll_agent(ID, "y").unwrap_err()),
        said(400, "Invalid admin user id claim")
    );
    let ask = || EnrollRequest {
        enrollment_token: "tok".to_string(),
        machine_id: "m".to_string(),
        machine_name: "box".to_string(),
        os: OsKind::Linux,
        agent_version: "1".to_string(),
    };
    assert!(new_agent(tid, admin, ask(), true).is_none());
    let n = new_agent(tid, admin, ask(), false).unwrap();
    assert_eq!((n.name.as_str(), n.machine_id.as_str(), n.agent_token_hash.as_str()), ("box", "m", ""));
    assert_eq!(agent_id(Some(oid(4))).unwrap(), oid(4));
    assert_eq!(answer(agent_id(None).unwrap_err()), said(500, "agent missing _id"));
    assert_eq!(enrolled(oid(4), tid, "jwt".to_string()).agent_id, oid(4).to_hex());
}

#[test]
fn agents_and_sessions_are_shown() {
    let agent = |id| Agent {
        id,
        tenant_id: oid(1),
        owner_user_id: oid(2),
        name: "box".to_string(),
        machine_id: "m".to_string(),
        os: OsKind::Windows,
        agent_version: "1".to_string(),
        status: "\"offline\"".to_string(),
        last_seen_at: DateTime { millis: i64::MAX },
        access_policy: "{}".to_string(),
        capabilities: "{}".to_string(),
    };
    let r = to_agent_response(agent(Some(oid(3))), true);
    assert!(r.is_online);
    assert_eq!(r.last_seen_at, "9223372036854775807");
    let page = Paginated {
        items: vec![(agent(Some(oid(3))), false), (agent(Some(oid(4))), true)],
        total: 2,
        page: 1,
        per_page: 20,
        total_pages: 1,
    };
    let listed = list_agents(page);
    assert_eq!((listed.items[0].is_online, listed.items[1].is_online), (false, true));
    assert_eq!((listed.items[1].id.as_str(), listed.total), (oid(4).to_hex().as_str(), 2));
    let r = to_agent_response(agent(None), true);
    assert!(!r.is_online);
    assert_eq!(r.id, "");
    let s = to_session_response(RemoteSession {
        id: Some(oid(5)),
        agent_id: oid(3),
        tenant_id: oid(1),
        controller_user_id: oid(2),
        permissions: "1".to_string(),
        phase: "\"active\"".to_string(),
        created_at: DateTime { millis: 0 },
        started_at: Some(DateTime { millis: 1000 }),
        ended_at: None,
    });
    assert_eq!(s.created_at, "1970-01-01T00:00:00Z");
    assert_eq!(s.started_at.as_deref(), Some("1970-01-01T00:00:01Z"));
    assert_eq!(s.ended_at, None);
    assert_eq!(
        answer(agent_request(ID, "x", oid(1)).unwrap_err()),
        said(400, "Invalid agent_id")
    );
    assert_eq!(
        answer(session_request(ID, "x", oid(1)).unwrap_err()),
        said(400, "Invalid session_id")
    );
    assert_eq!(terminate_session().fields[0].0, "terminated");
}

#[test]
fn an_agent_is_renamed_before_its_policy_changes() {
    let both = update_agent(UpdateAgentRequest {
        name: Some("n".to_string()),
        access_policy: Some("{}".to_string()),
    });
    assert_eq!(both.len(), 2);
    assert!(matches!(&both[0], AgentChange::Rename(n) if n == "n"));
    assert!(matches!(&both[1], AgentChange::Policy(p) if p == "{}"));
    assert!(update_agent(UpdateAgentRequest { name: None, access_policy: None }).is_empty());
}

#[test]
fn a_bare_relay_gets_three_more_addresses() {
    let c = build_turn_config(Some("turn:relay.example.org:3478"), Some("s")).unwrap();
    assert_eq!(
        c.urls,
        vec![
            "turn:relay.example.org:3478",
            "turn:relay.example.org:3478?transport=tcp",
            "turns:relay.example.org:5349?transport=tcp",
            "turns:relay.example.org:443?transport=tcp",
        ]
    );
    assert_eq!((c.shared_secret.as_str(), c.ttl_secs), ("s", 600));
    let c = build_turn_config(Some("turn:relay.example.org:3478?transport=udp"), Some("s"));
    assert_eq!(c.unwrap().urls, vec!["turn:relay.example.org:3478?transport=udp"]);
    let c = build_turn_config(Some("turns:relay.example.org:3478"), Some("s"));
    assert_eq!(c.unwrap().urls.len(), 1);
    assert!(build_turn_config(None, Some("s")).is_none());
    assert!(build_turn_config(Some("turn:x"), None).is_none());
}

fn release(tag: &str) -> AgentRelease {
    AgentRelease {
        tag_name: tag.to_string(),
        draft: false,
        prerelease: false,
        published_at: None,
        assets: vec![],
    }
}

#[test]
fn releases_are_kept_for_an_hour_and_longer_when_they_cannot_be_fetched() {
    let mut c = LatestReleaseCache::new();
    assert!(c.fresh(0).is_none());
    let e = c.latest_release(Err("503".to_string()), 5).unwrap_err();
    assert_eq!(
        answer(e),
        said(500, "upstream releases fetch failed and no cache: 503")
    );
    assert!(c.latest_release(Ok(vec![release("v1")]), 10).is_ok());
    assert_eq!(c.fresh(10 + CACHE_TTL_NANOS - 1).unwrap()[0].tag_name, "v1");
    assert!(c.fresh(10 + CACHE_TTL_NANOS).is_none());
    let stale = c.latest_release(Err("503".to_string()), 10 + CACHE_TTL_NANOS);
    assert_eq!(stale.unwrap()[0].tag_name, "v1");
    assert_eq!(c.entry.as_ref().unwrap().1[0].tag_name, "v1");
    assert!(c.fresh(10 + CACHE_TTL_NANOS).is_none());
    assert!(c.fresh(3).is_some());
    assert_eq!(
        releases_url(),
        "https://api.github.com/repos/gjovanov/roomler-ai/releases?per_page=30"
    );
    assert!(fetch_releases(true, "200 OK").is_ok());
    assert_eq!(
        fetch_releases(false, "403 Forbidden").unwrap_err(),
        "GitHub returned 403 Forbidden"
    );
}
