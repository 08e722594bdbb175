//! Agents: enrolling them, listing them, their sessions, and the relays that
//! their connections may use.
use vstd::prelude::*;
use crate::api::error::{ApiError, DaoError, ErrorKind, bad_request, dao_answer};
use crate::api::scope::{Asked, item_asked, item_request};
use crate::api::wire::{Body, Paginated, done, said, same_place, say};
use crate::enrollment::OsKind;
use crate::oid::{DateTime, ObjectId, oid_hex, oid_parsed, time_or_millis};
use crate::text::{has_part, opt_view, replace_all, views};

verus! {

/// How long an enrollment token is good, in seconds.
pub const ENROLLMENT_TTL_SECS: u64 = 600;

/// How long the credentials for a relay are good, in seconds.
pub const TURN_TTL_SECS: u64 = 600;

/// A token that enrolls an agent.
#[derive(Debug)]
#[allow(missing_docs)]
pub struct EnrollmentTokenResponse {
    pub enrollment_token: String,
    pub expires_in: u64,
    pub jti: String,
}

/// The answer to one who asks for a token that enrolls an agent.
pub fn issue_enrollment_token(token: String, jti: String) -> (r: EnrollmentTokenResponse)
    ensures
        r.enrollment_token == token,
        r.expires_in == ENROLLMENT_TTL_SECS,
        r.jti == jti,
{
    EnrollmentTokenResponse { enrollment_token: token, expires_in: ENROLLMENT_TTL_SECS, jti }
}

/// An agent that wants to be enrolled.
#[derive(Debug)]
#[allow(missing_docs)]
pub struct EnrollRequest {
    pub enrollment_token: String,
    pub machine_id: String,
    pub machine_name: String,
    pub os: OsKind,
    pub agent_version: String,
}

/// The answer to an agent that is enrolled.
#[derive(Debug)]
#[allow(missing_docs)]
pub struct EnrollResponse {
    pub agent_id: String,
    pub tenant_id: String,
    pub agent_token: String,
}

/// Where an agent is enrolled, and by whom, as the token says.
pub open spec fn enrolled_by(tenant: Seq<char>, admin: Seq<char>) -> Result<
    (ObjectId, ObjectId),
    (ErrorKind, Seq<char>),
> {
    match oid_parsed(tenant) {
        None => Err((ErrorKind::BadRequest, "Invalid tenant_id claim"@)),
        Some(t) => match oid_parsed(admin) {
            None => Err((ErrorKind::BadRequest, "Invalid admin user id claim"@)),
            Some(a) => Ok((t, a)),
        },
    }
}

/// Where an agent is enrolled, and by whom, as the token says.
pub fn enroll_agent(tenant: &str, admin: &str) -> (r: Result<(ObjectId, ObjectId), ApiError>)
    ensures
        match r {
            Ok(p) => enrolled_by(tenant@, admin@) == Ok::<_, (ErrorKind, Seq<char>)>(p),
            Err(e) => enrolled_by(tenant@, admin@) == Err::<(ObjectId, ObjectId), _>(e@),
        },
{
    match ObjectId::parse_str(tenant) {
        None => Err(bad_request("Invalid tenant_id claim")),
        Some(t) => match ObjectId::parse_str(admin) {
            None => Err(bad_request("Invalid admin user id claim")),
            Some(a) => Ok((t, a)),
        },
    }
}

/// An agent to store.
#[derive(Debug)]
#[allow(missing_docs)]
pub struct NewAgent {
    pub tenant_id: ObjectId,
    pub owner_user_id: ObjectId,
    pub name: String,
    pub machine_id: String,
    pub os: OsKind,
    pub agent_version: String,
    pub agent_token_hash: String,
}

/// The agent to store, unless the tenant knows the machine already.
pub fn new_agent(tenant: ObjectId, admin: ObjectId, body: EnrollRequest, known: bool) -> (r: Option<
    NewAgent,
>)
    ensures
        r is None <==> known,
        r matches Some(n) ==> {
            &&& n.tenant_id == tenant
            &&& n.owner_user_id == admin
            &&& n.name == body.machine_name
            &&& n.machine_id == body.machine_id
            &&& n.os == body.os
            &&& n.agent_version == body.agent_version
            &&& n.agent_token_hash@.len() == 0
        },
{
    if known {
        None
    } else {
        Some(
            NewAgent {
                tenant_id: tenant,
                owner_user_id: admin,
                name: body.machine_name,
                machine_id: body.machine_id,
                os: body.os,
                agent_version: body.agent_version,
                agent_token_hash: String::new(),
            },
        )
    }
}

/// The id of the agent, for which a token is then made.
pub fn agent_id(stored: Option<ObjectId>) -> (r: Result<ObjectId, ApiError>)
    ensures
        match stored {
            Some(o) => r == Ok::<ObjectId, ApiError>(o),
            None => r matches Err(e) && e@ == (ErrorKind::Internal, "agent missing _id"@),
        },
{
    match stored {
        Some(o) => Ok(o),
        None => Err(ApiError::Internal("agent missing _id".to_owned())),
    }
}

/// The answer to an agent that is enrolled.
pub fn enrolled(agent: ObjectId, tenant: ObjectId, agent_token: String) -> (r: EnrollResponse)
    ensures
        r.agent_id@ == oid_hex(agent),
        r.tenant_id@ == oid_hex(tenant),
        r.agent_token == agent_token,
{
    EnrollResponse { agent_id: agent.to_hex(), tenant_id: tenant.to_hex(), agent_token }
}

/// An agent, as it is stored; its status, policy and capabilities as JSON.
#[derive(Debug)]
#[allow(missing_docs)]
pub struct Agent {
    pub id: Option<ObjectId>,
    pub tenant_id: ObjectId,
    pub owner_user_id: ObjectId,
    pub name: String,
    pub machine_id: String,
    pub os: OsKind,
    pub agent_version: String,
    pub status: String,
    pub last_seen_at: DateTime,
    pub access_policy: String,
    pub capabilities: String,
}

/// An agent, for clients; its status, policy and capabilities as JSON.
#[derive(Debug)]
#[allow(missing_docs)]
pub struct AgentResponse {
    pub id: String,
    pub tenant_id: String,
    pub owner_user_id: String,
    pub name: String,
    pub machine_id: String,
    pub os: OsKind,
    pub agent_version: String,
    pub status: String,
    pub is_online: bool,
    pub last_seen_at: String,
    pub access_policy: String,
    pub capabilities: String,
}

/// The hexadecimal form of an id, or nothing.
pub open spec fn hex_or_empty(id: Option<ObjectId>) -> Seq<char> {
    match id {
        Some(o) => oid_hex(o),
        None => seq![],
    }
}

fn hex_or_nothing(id: Option<ObjectId>) -> (r: String)
    ensures
        r@ == hex_or_empty(id),
{
    match id {
        Some(o) => o.to_hex(),
        None => String::new(),
    }
}

/// How a client sees an agent that is, or is not, connected; one without an
/// id is never online.
pub open spec fn shows_agent(r: AgentResponse, a: Agent, online: bool) -> bool {
    &&& r.id@ == hex_or_empty(a.id)
    &&& r.tenant_id@ == oid_hex(a.tenant_id)
    &&& r.owner_user_id@ == oid_hex(a.owner_user_id)
    &&& r.name == a.name
    &&& r.machine_id == a.machine_id
    &&& r.os == a.os
    &&& r.agent_version == a.agent_version
    &&& r.status == a.status
    &&& r.is_online == (a.id is Some && online)
    &&& r.last_seen_at@ == time_or_millis(a.last_seen_at)
    &&& r.access_policy == a.access_policy
    &&& r.capabilities == a.capabilities
}

/// An agent as a client sees it.
pub fn to_agent_response(a: Agent, online: bool) -> (r: AgentResponse)
    ensures
        shows_agent(r, a, online),
{
    AgentResponse {
        id: hex_or_nothing(a.id),
        tenant_id: a.tenant_id.to_hex(),
        owner_user_id: a.owner_user_id.to_hex(),
        name: a.name,
        machine_id: a.machine_id,
        os: a.os,
        agent_version: a.agent_version,
        status: a.status,
        is_online: a.id.is_some() && online,
        last_seen_at: a.last_seen_at.fmt_dt(),
        access_policy: a.access_policy,
        capabilities: a.capabilities,
    }
}

/// A page of a tenant's agents, each with whether it is connected.
pub fn list_agents(page: Paginated<(Agent, bool)>) -> (r: Paginated<AgentResponse>)
    ensures
        same_place(r, page),
        r.items@.len() == page.items@.len(),
        forall|i: int|
            0 <= i < r.items@.len() ==> shows_agent(
                #[trigger] r.items@[i],
                page.items@[i].0,
                page.items@[i].1,
            ),
{
    let ghost stored = page.items@;
    let mut items: Vec<AgentResponse> = Vec::new();
    for one in it: page.items.into_iter()
        invariant
            it.seq() == stored,
            items@.len() == it.index(),
            forall|i: int|
                0 <= i < items@.len() ==> shows_agent(
                    #[trigger] items@[i],
                    stored[i].0,
                    stored[i].1,
                ),
    {
        items.push(to_agent_response(one.0, one.1));
    }
    Paginated {
        items,
        total: page.total,
        page: page.page,
        per_page: page.per_page,
        total_pages: page.total_pages,
    }
}

/// A request on an agent of a tenant.
pub fn agent_request(tenant_id: &str, agent_id: &str, user: ObjectId) -> (r: Result<
    Asked<ObjectId>,
    ApiError,
>)
    ensures
        match r {
            Ok(a) => item_asked(tenant_id@, agent_id@, "agent_id"@, user) == Ok::<
                _,
                (ErrorKind, Seq<char>),
            >(a),
            Err(e) => item_asked(tenant_id@, agent_id@, "agent_id"@, user) == Err::<
                Asked<ObjectId>,
                _,
            >(e@),
        },
{
    item_request(tenant_id, agent_id, "agent_id", user)
}

/// What to change of an agent; its policy as JSON.
#[derive(Debug)]
#[allow(missing_docs)]
pub struct UpdateAgentRequest {
    pub name: Option<String>,
    pub access_policy: Option<String>,
}

/// One change of an agent.
#[derive(Debug)]
pub enum AgentChange {
    /// It gets a name.
    Rename(String),
    /// It gets a policy, as JSON.
    Policy(String),
}

/// The changes of an agent, in the order in which they are made.
pub fn update_agent(body: UpdateAgentRequest) -> (r: Vec<AgentChange>)
    ensures
        r@ == (match (body.name, body.access_policy) {
            (Some(n), Some(p)) => seq![AgentChange::Rename(n), AgentChange::Policy(p)],
            (Some(n), None) => seq![AgentChange::Rename(n)],
            (None, Some(p)) => seq![AgentChange::Policy(p)],
            (None, None) => seq![],
        }),
{
    let mut out: Vec<AgentChange> = Vec::new();
    match body.name {
        Some(n) => {
            out.push(AgentChange::Rename(n));
        },
        None => {},
    }
    match body.access_policy {
        Some(p) => {
            out.push(AgentChange::Policy(p));
        },
        None => {},
    }
    out
}

/// The answer to a change of an agent.
pub fn agent_updated(outcome: Result<(), DaoError>) -> (r: Result<Body, ApiError>)
    ensures
        match outcome {
            Ok(()) => r matches Ok(b) && b@ == said("updated"@, true),
            Err(e) => r matches Err(a) && a@ == dao_answer(e),
        },
{
    done("updated", outcome)
}

/// The answer to the deletion of an agent.
pub fn delete_agent(outcome: Result<(), DaoError>) -> (r: Result<Body, ApiError>)
    ensures
        match outcome {
            Ok(()) => r matches Ok(b) && b@ == said("deleted"@, true),
            Err(e) => r matches Err(a) && a@ == dao_answer(e),
        },
{
    done("deleted", outcome)
}

/// A request on a session of a tenant.
pub fn session_request(tenant_id: &str, session_id: &str, user: ObjectId) -> (r: Result<
    Asked<ObjectId>,
    ApiError,
>)
    ensures
        match r {
            Ok(a) => item_asked(tenant_id@, session_id@, "session_id"@, user) == Ok::<
                _,
                (ErrorKind, Seq<char>),
            >(a),
            Err(e) => item_asked(tenant_id@, session_id@, "session_id"@, user) == Err::<
                Asked<ObjectId>,
                _,
            >(e@),
        },
{
    item_request(tenant_id, session_id, "session_id", user)
}

/// The answer to one who ends a session.
pub fn terminate_session() -> (r: Body)
    ensures
        r@ == said("terminated"@, true),
{
    say("terminated", true)
}

/// A session, as it is stored; its permissions and its phase as JSON.
#[derive(Debug)]
#[allow(missing_docs)]
pub struct RemoteSession {
    pub id: Option<ObjectId>,
    pub agent_id: ObjectId,
    pub tenant_id: ObjectId,
    pub controller_user_id: ObjectId,
    pub permissions: String,
    pub phase: String,
    pub created_at: DateTime,
    pub started_at: Option<DateTime>,
    pub ended_at: Option<DateTime>,
}

/// A session, for clients; its permissions and its phase as JSON.
#[derive(Debug)]
#[allow(missing_docs)]
pub struct SessionResponse {
    pub id: String,
    pub agent_id: String,
    pub tenant_id: String,
    pub controller_user_id: String,
    pub permissions: String,
    pub phase: String,
    pub created_at: String,
    pub started_at: Option<String>,
    pub ended_at: Option<String>,
}

/// The text of an optional time.
pub open spec fn opt_moment(t: Option<DateTime>) -> Option<Seq<char>> {
    match t {
        Some(t) => Some(time_or_millis(t)),
        None => None,
    }
}

fn moment_of(t: Option<DateTime>) -> (r: Option<String>)
    ensures
        opt_view(r) == opt_moment(t),
{
    match t {
        Some(t) => Some(t.fmt_dt()),
        None => None,
    }
}

/// A session as a client sees it.
pub fn to_session_response(s: RemoteSession) -> (r: SessionResponse)
    ensures
        r.id@ == hex_or_empty(s.id),
        r.agent_id@ == oid_hex(s.agent_id),
        r.tenant_id@ == oid_hex(s.tenant_id),
        r.controller_user_id@ == oid_hex(s.controller_user_id),
        r.permissions == s.permissions,
        r.phase == s.phase,
        r.created_at@ == time_or_millis(s.created_at),
        opt_view(r.started_at) == opt_moment(s.started_at),
        opt_view(r.ended_at) == opt_moment(s.ended_at),
{
    SessionResponse {
        id: hex_or_nothing(s.id),
        agent_id: s.agent_id.to_hex(),
        tenant_id: s.tenant_id.to_hex(),
        controller_user_id: s.controller_user_id.to_hex(),
        permissions: s.permissions,
        phase: s.phase,
        created_at: s.created_at.fmt_dt(),
        started_at: moment_of(s.started_at),
        ended_at: moment_of(s.ended_at),
    }
}

/// The relays that a connection may use, and the secret by which credentials
/// for them are made.
#[derive(Debug)]
#[allow(missing_docs)]
pub struct TurnConfig {
    pub urls: Vec<String>,
    pub shared_secret: String,
    pub ttl_secs: u64,
}

/// A relay's address without encryption and with its transport left open: the
/// others follow from it.
pub open spec fn is_bare_turn(base: Seq<char>) -> bool {
    "turn:"@.is_prefix_of(base) && !has_part(base, "?transport="@)
}

/// The encrypted form of a relay's address, at another port, over TCP.
pub open spec fn encrypted_at(base: Seq<char>, port: Seq<char>) -> Seq<char> {
    replace_all("turns:"@ + base.skip(5), ":3478"@, port) + "?transport=tcp"@
}

/// The addresses of a relay: the one that is given, then, where that is bare,
/// the same over TCP, and encrypted over TCP at the port of TURN and at that
/// of HTTPS.
pub open spec fn relay_urls(base: Seq<char>) -> Seq<Seq<char>> {
    if is_bare_turn(base) {
        seq![
            base,
            base + "?transport=tcp"@,
            encrypted_at(base, ":5349"@),
            encrypted_at(base, ":443"@),
        ]
    } else {
        seq![base]
    }
}

fn push_url(urls: Vec<String>, url: String) -> (r: Vec<String>)
    ensures
        views(r@) == views(urls@).push(url@),
{
    let mut out: Vec<String> = urls;
    out.push(url);
    proof {
        assert(views(out@) =~= views(urls@).push(url@));
    }
    out
}

fn encrypted(base: &str, port: &str) -> (r: String)
    requires
        "turn:"@.is_prefix_of(base@),
    ensures
        r@ == encrypted_at(base@, port@),
{
    proof {
        reveal_strlit("turn:");
        reveal_strlit(":3478");
    }
    let n: usize = base.unicode_len();
    let rest: &str = base.substring_char(5, n);
    proof {
        assert(rest@ =~= base@.skip(5));
    }
    let turns: String = crate::text::cat2("turns:", rest);
    let moved: String = crate::text::replaced(turns.as_str(), ":3478", port);
    crate::text::cat2(moved.as_str(), "?transport=tcp")
}

/// The relays, where both a secret and an address are configured.
pub fn build_turn_config(url: Option<&str>, shared_secret: Option<&str>) -> (r: Option<TurnConfig>)
    ensures
        r is Some <==> url is Some && shared_secret is Some,
        r matches Some(c) ==> {
            &&& views(c.urls@) == relay_urls(url.unwrap()@)
            &&& c.shared_secret@ == shared_secret.unwrap()@
            &&& c.ttl_secs == TURN_TTL_SECS
        },
{
    match shared_secret {
        None => None,
        Some(secret) => match url {
            None => None,
            Some(base) => {
                let none: Vec<String> = Vec::new();
                proof {
                    assert(views(none@) =~= Seq::<Seq<char>>::empty());
                }
                let urls: Vec<String> = push_url(none, base.to_owned());
                let urls: Vec<String> = if crate::text::begins_with(base, "turn:")
                    && !crate::text::contains_part(base, "?transport=") {
                    let urls: Vec<String> = push_url(
                        urls,
                        crate::text::cat2(base, "?transport=tcp"),
                    );
                    let urls: Vec<String> = push_url(urls, encrypted(base, ":5349"));
                    push_url(urls, encrypted(base, ":443"))
                } else {
                    urls
                };
                Some(
                    TurnConfig {
                        urls,
                        shared_secret: secret.to_owned(),
                        ttl_secs: TURN_TTL_SECS,
                    },
                )
            },
        },
    }
}

/// The address that is configured is always the first to be tried.
pub proof fn configured_relay_comes_first(base: Seq<char>)
    ensures
        relay_urls(base).len() == 1 || relay_urls(base).len() == 4,
        relay_urls(base)[0] == base,
{
}

/// What a client sees of an agent is its own.
pub proof fn agents_show_their_own(r: AgentResponse, a: Agent, online: bool)
    requires
        shows_agent(r, a, online),
    ensures
        a.id is Some ==> crate::oid::oid_parsed(r.id@) == a.id,
        a.id is None ==> r.id@.len() == 0,
        crate::oid::oid_parsed(r.tenant_id@) == Some(a.tenant_id),
        crate::oid::oid_parsed(r.owner_user_id@) == Some(a.owner_user_id),
        r.name == a.name,
        r.machine_id == a.machine_id,
        r.os == a.os,
        r.agent_version == a.agent_version,
        r.status == a.status,
        r.is_online == (a.id is Some && online),
        r.last_seen_at@ == time_or_millis(a.last_seen_at),
        r.access_policy == a.access_policy,
        r.capabilities == a.capabilities,
{
    crate::oid::hex_round_trip(a.id.unwrap());
    crate::oid::hex_round_trip(a.tenant_id);
    crate::oid::hex_round_trip(a.owner_user_id);
}

} // verus!
