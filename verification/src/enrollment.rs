//! The one-shot enrollment exchange: what is sent, what the reply becomes, and
//! how a fresh enrollment is folded into an existing configuration.
use vstd::prelude::*;
use crate::config::agent::{blank_config, AgentConfig};
use crate::config::health::{current_schema, CURRENT_SCHEMA_VERSION};
use crate::config::org::{
    has_identity,
    identity_index,
    org_label,
    position_by_identity,
    position_by_label,
    primary_identity,
    sanitize_org_label,
    OrgEntry,
    OrgOverlayMode,
    PRIMARY_ORG_LABEL,
};
use crate::num::{decimal, to_decimal};
use crate::text::{
    before,
    cat2,
    cat3,
    debug_form,
    last,
    lower,
    lowered,
    opt_str,
    part_before,
    quoted,
    same,
    stripped,
    trim_end_char,
    trim_start_str,
    trimmed_end_char,
    trimmed_start_str,
};

verus! {

/// The operating systems that a device reports.
#[derive(Debug, Clone, Copy, PartialEq, Eq, Structural)]
pub enum OsKind {
    /// Linux, and everything that is not known.
    Linux,
    /// macOS.
    Macos,
    /// Windows.
    Windows,
}

/// What the operator supplies for an enrollment.
pub struct EnrollInputs<'a> {
    /// The server to enroll with.
    pub server_url: &'a str,
    /// The single-use enrollment token.
    pub enrollment_token: &'a str,
    /// The machine fingerprint.
    pub machine_id: &'a str,
    /// The name shown in the admin UI.
    pub machine_name: &'a str,
}

/// The server's reply to an enrollment.
#[derive(Debug)]
pub enum EnrollReply {
    /// The device was enrolled.
    Accepted {
        /// The id of the agent row.
        agent_id: String,
        /// The tenant of the enrollment token.
        tenant_id: String,
        /// The long-lived agent token.
        agent_token: String,
        /// Whether the row is temporary.
        ephemeral: bool,
    },
    /// The server refused.
    Rejected {
        /// The status line.
        status: String,
        /// The body of the reply.
        body: String,
    },
}

/// How an enrollment was folded into the configuration.
#[derive(Debug, PartialEq, Eq)]
pub enum EnrollOutcome {
    /// There was no configuration: the fresh one stands as it is.
    FreshPrimary,
    /// The primary was enrolled again: identity refreshed, operator state
    /// kept.
    RefreshedPrimary,
    /// A secondary was enrolled again: its token and agent id refreshed.
    RefreshedOrg {
        /// The label of the entry.
        label: String,
    },
    /// A new (server, tenant) pair: appended as a secondary.
    AppendedOrg {
        /// The label of the entry.
        label: String,
    },
    /// The primary was replaced by force.
    ReplacedPrimary,
}

impl Clone for EnrollOutcome {
    fn clone(&self) -> (r: Self)
        ensures
            r == *self,
    {
        match self {
            EnrollOutcome::FreshPrimary => EnrollOutcome::FreshPrimary,
            EnrollOutcome::RefreshedPrimary => EnrollOutcome::RefreshedPrimary,
            EnrollOutcome::RefreshedOrg { label } => EnrollOutcome::RefreshedOrg {
                label: label.clone(),
            },
            EnrollOutcome::AppendedOrg { label } => EnrollOutcome::AppendedOrg {
                label: label.clone(),
            },
            EnrollOutcome::ReplacedPrimary => EnrollOutcome::ReplacedPrimary,
        }
    }
}

/// The operating system that goes by a name; unknown names count as Linux.
pub fn detect_os(name: &str) -> (r: OsKind)
    ensures
        r == if name@ == "macos"@ {
            OsKind::Macos
        } else if name@ == "windows"@ {
            OsKind::Windows
        } else {
            OsKind::Linux
        },
{
    if same(name, "macos") {
        OsKind::Macos
    } else if same(name, "windows") {
        OsKind::Windows
    } else {
        OsKind::Linux
    }
}

/// The host of a `host[:port][/path]` text: without path and port, a bracketed
/// IPv6 literal without its brackets, a bare IPv6 literal whole.
pub open spec fn authority_host(after_scheme: Seq<char>) -> Seq<char> {
    let authority = before(after_scheme, '/');
    if authority.len() > 0 && authority[0] == '[' {
        before(authority.skip(1), ']')
    } else {
        let k = last(authority, ':');
        if k < 0 || authority.take(k).contains(':') {
            authority
        } else {
            authority.take(k)
        }
    }
}

/// The text names the host itself: `localhost`, or a loopback literal.
pub open spec fn loopback_authority(after_scheme: Seq<char>) -> bool {
    let host = authority_host(after_scheme);
    lower(host) == "localhost"@ || (crate::ip::ip_address(host) matches Some(a)
        && crate::ip::loopback(a))
}

/// A server URL without trailing slashes, plain `http` raised to `https`
/// unless it names the host itself.
pub open spec fn normalized_url(raw: Seq<char>) -> Seq<char> {
    let t = trim_end_char(raw, '/');
    if "http://"@.is_prefix_of(t) && !loopback_authority(t.skip("http://"@.len() as int)) {
        "https://"@ + t.skip("http://"@.len() as int)
    } else {
        t
    }
}

/// Whether a `host[:port][/path]` text names the host itself.
pub fn is_loopback_authority(after_scheme: &str) -> (r: bool)
    ensures
        r == loopback_authority(after_scheme@),
{
    let authority: &str = part_before(after_scheme, '/');
    let host: &str = host_of(authority);
    let l: String = lowered(host);
    same(l.as_str(), "localhost") || crate::ip::is_loopback_literal(host)
}

fn host_of<'a>(authority: &'a str) -> (r: &'a str)
    ensures
        r@ == if authority@.len() > 0 && authority@[0] == '[' {
            before(authority@.skip(1), ']')
        } else {
            let k = last(authority@, ':');
            if k < 0 || authority@.take(k).contains(':') {
                authority@
            } else {
                authority@.take(k)
            }
        },
{
    let cs: Vec<char> = crate::text::chars(authority);
    let n: usize = cs.len();
    if n > 0 && cs[0] == '[' {
        proof {
            assert(authority@.subrange(1, n as int) =~= authority@.skip(1));
        }
        return part_before(authority.substring_char(1, n), ']');
    }
    let mut k: usize = n;
    while k > 0 && cs[k - 1] != ':'
        invariant
            k <= n,
            n == cs@.len(),
            forall|j: int| k <= j < n ==> cs@[j] != ':',
        decreases k,
    {
        k = k - 1;
    }
    proof {
        crate::text::lemma_last_is(authority@, ':', k - 1);
    }
    if k == 0 {
        return authority;
    }
    let head: &str = authority.substring_char(0, k - 1);
    proof {
        assert(authority@.subrange(0, k - 1) =~= authority@.take(k - 1));
        crate::text::lemma_first(head@, ':');
    }
    if crate::text::find(head, ':') < k - 1 {
        authority
    } else {
        head
    }
}

/// A server URL ready to be stored and posted to.
pub fn normalize_server_url(raw: &str) -> (r: String)
    ensures
        r@ == normalized_url(raw@),
{
    let t: &str = trimmed_end_char(raw, '/');
    match stripped(t, "http://") {
        Some(rest) => if is_loopback_authority(rest) {
            t.to_owned()
        } else {
            cat2("https://", rest)
        },
        None => t.to_owned(),
    }
}

proof fn lemma_trim_end_settles(s: Seq<char>, c: char)
    ensures
        trim_end_char(trim_end_char(s, c), c) == trim_end_char(s, c),
        trim_end_char(s, c).len() > 0 ==> trim_end_char(s, c).last() != c,
    decreases s.len(),
{
    if s.len() > 0 && s.last() == c {
        lemma_trim_end_settles(s.drop_last(), c);
    }
}

/// Normalising a server URL a second time changes nothing.
pub proof fn normalizing_settles(raw: Seq<char>)
    ensures
        normalized_url(normalized_url(raw)) == normalized_url(raw),
{
    reveal_strlit("http://");
    reveal_strlit("https://");
    let t = trim_end_char(raw, '/');
    lemma_trim_end_settles(raw, '/');
    let rest = t.skip("http://"@.len() as int);
    if "http://"@.is_prefix_of(t) && !loopback_authority(rest) {
        let u = "https://"@ + rest;
        assert(rest.len() > 0) by {
            if rest.len() == 0 {
                assert(t =~= "http://"@);
                assert(t.last() == '/');
            }
        }
        assert(u.last() == t.last());
        assert(trim_end_char(u, '/') == u);
        assert(u[4] == 's');
        assert("http://"@[4] == ':');
        assert(!"http://"@.is_prefix_of(u)) by {
            if "http://"@.is_prefix_of(u) {
                assert(u.subrange(0, 7)[4] == u[4]);
            }
        }
    }
}

/// A normalised URL is plain `http` only where it names the host itself, so an
/// enrollment token never leaves the host in clear text.
pub proof fn plain_http_stays_on_the_host(raw: Seq<char>)
    ensures
        "http://"@.is_prefix_of(normalized_url(raw)) ==> loopback_authority(
            normalized_url(raw).skip("http://"@.len() as int),
        ),
{
    reveal_strlit("http://");
    reveal_strlit("https://");
    let t = trim_end_char(raw, '/');
    let rest = t.skip("http://"@.len() as int);
    if "http://"@.is_prefix_of(t) && !loopback_authority(rest) {
        let u = "https://"@ + rest;
        assert(u[4] == 's');
        if "http://"@.is_prefix_of(u) {
            assert(u.subrange(0, 7)[4] == u[4]);
            assert("http://"@[4] == ':');
        }
    }
}

/// Where the enrollment is posted.
pub fn enroll_url(server_url: &str) -> (r: String)
    ensures
        r@ == normalized_url(server_url@) + "/api/agent/enroll"@,
{
    let base: String = normalize_server_url(server_url);
    cat2(base.as_str(), "/api/agent/enroll")
}

/// Where a leaving device says goodbye.
pub fn unenroll_url(server_url: &str) -> (r: String)
    ensures
        r@ == normalized_url(server_url@) + "/api/agent/self/unenroll"@,
{
    let base: String = normalize_server_url(server_url);
    cat2(base.as_str(), "/api/agent/self/unenroll")
}

/// What the reply to a goodbye means: any success, and the replies that say
/// that the row is gone already, count as done.
pub fn self_unenroll(status: u16, status_line: &str, body: &str) -> (r: Result<(), String>)
    ensures
        200 <= status < 300 || status == 401 || status == 404 ==> r is Ok,
        !(200 <= status < 300 || status == 401 || status == 404) ==> (r matches Err(e) && e@
            == "self-unenroll rejected (status "@ + status_line@ + "): "@ + body@),
{
    if (200 <= status && status < 300) || status == 401 || status == 404 {
        Ok(())
    } else {
        let mut m: String = cat3("self-unenroll rejected (status ", status_line, "): ");
        m.append(body);
        Err(m)
    }
}

/// `r` is the configuration of a device that was just enrolled: the identity
/// of the reply, every knob at its built-in value.
pub open spec fn fresh_config(
    server_url: Seq<char>,
    machine_id: Seq<char>,
    machine_name: Seq<char>,
    agent_id: String,
    tenant_id: String,
    agent_token: String,
    ephemeral: bool,
    r: AgentConfig,
) -> bool {
    &&& r.is_blank()
    &&& r.server_url@ == normalized_url(server_url)
    &&& r.ws_url is None
    &&& r.agent_token == agent_token
    &&& r.agent_id == agent_id
    &&& r.tenant_id == tenant_id
    &&& r.machine_id@ == machine_id
    &&& r.machine_name@ == machine_name
    &&& r.ephemeral == ephemeral
    &&& current_schema(r)
}

/// What the server's reply to an enrollment becomes.
pub fn enroll(inputs: &EnrollInputs<'_>, reply: EnrollReply) -> (r: Result<AgentConfig, String>)
    ensures
        match reply {
            EnrollReply::Accepted { agent_id, tenant_id, agent_token, ephemeral } => {
                &&& r matches Ok(c)
                &&& fresh_config(
                    inputs.server_url@,
                    inputs.machine_id@,
                    inputs.machine_name@,
                    agent_id,
                    tenant_id,
                    agent_token,
                    ephemeral,
                    c,
                )
            },
            EnrollReply::Rejected { status, body } => {
                &&& r matches Err(e)
                &&& e@ == "enrollment rejected (status "@ + status@ + "): "@ + body@
            },
        },
{
    match reply {
        EnrollReply::Accepted { agent_id, tenant_id, agent_token, ephemeral } => Ok(
            blank_config(
                normalize_server_url(inputs.server_url),
                agent_token,
                agent_id,
                tenant_id,
                inputs.machine_id.to_owned(),
                inputs.machine_name.to_owned(),
                ephemeral,
                Some(CURRENT_SCHEMA_VERSION.to_owned()),
            ),
        ),
        EnrollReply::Rejected { status, body } => {
            let mut m: String = cat3("enrollment rejected (status ", status.as_str(), "): ");
            m.append(body.as_str());
            Err(m)
        },
    }
}

/// `existing` with the enrollment-owned fields of `fresh`: every operator knob
/// is kept.
pub open spec fn preserved(fresh: AgentConfig, existing: AgentConfig) -> AgentConfig {
    AgentConfig {
        server_url: fresh.server_url,
        ws_url: fresh.ws_url,
        agent_token: fresh.agent_token,
        agent_id: fresh.agent_id,
        tenant_id: fresh.tenant_id,
        machine_id: fresh.machine_id,
        machine_name: fresh.machine_name,
        ephemeral: fresh.ephemeral,
        config_schema_version: fresh.config_schema_version,
        ..existing
    }
}

/// Enrolls a machine again without resetting operator state: the existing
/// configuration with the enrollment-owned fields of the fresh one. A pinned
/// `ws_url` goes with the enrollment that it was pinned for, and whether the
/// device is temporary is what the server minted this time.
pub fn preserve_operator_config(fresh: AgentConfig, existing: AgentConfig) -> (r: AgentConfig)
    ensures
        r == preserved(fresh, existing),
{
    AgentConfig {
        server_url: fresh.server_url,
        ws_url: fresh.ws_url,
        agent_token: fresh.agent_token,
        agent_id: fresh.agent_id,
        tenant_id: fresh.tenant_id,
        machine_id: fresh.machine_id,
        machine_name: fresh.machine_name,
        ephemeral: fresh.ephemeral,
        config_schema_version: fresh.config_schema_version,
        ..existing
    }
}

/// The entries without those of an identity.
pub open spec fn without_identity(orgs: Seq<OrgEntry>, server: Seq<char>, tenant: Seq<char>) -> Seq<
    OrgEntry,
>
    decreases orgs.len(),
{
    if orgs.len() == 0 {
        seq![]
    } else {
        let rest = without_identity(orgs.drop_last(), server, tenant);
        if has_identity(orgs.last(), server, tenant) {
            rest
        } else {
            rest.push(orgs.last())
        }
    }
}

fn drop_identity(orgs: Vec<OrgEntry>, server: &str, tenant: &str) -> (r: Vec<OrgEntry>)
    ensures
        r@ == without_identity(orgs@, server@, tenant@),
{
    let mut out: Vec<OrgEntry> = orgs;
    let ghost all = orgs@;
    let mut i: usize = 0;
    let ghost mut k: int = 0;
    proof {
        assert(all.take(0) =~= seq![]);
        assert(out@ =~= seq![] + all.skip(0));
    }
    while i < out.len()
        invariant
            0 <= k <= all.len(),
            i <= out@.len(),
            i == without_identity(all.take(k), server@, tenant@).len(),
            out@ == without_identity(all.take(k), server@, tenant@) + all.skip(k),
        decreases all.len() - k,
    {
        proof {
            assert(all.take(k + 1).drop_last() =~= all.take(k));
            assert(all.take(k + 1).last() == all[k]);
            assert(out@[i as int] == all[k]);
        }
        let ghost kept = without_identity(all.take(k), server@, tenant@);
        if same(out[i].server_url.as_str(), server) && same(out[i].tenant_id.as_str(), tenant) {
            out.remove(i);
            proof {
                assert(out@ =~= kept + all.skip(k + 1));
            }
        } else {
            i = i + 1;
            proof {
                assert(out@ =~= kept.push(all[k]) + all.skip(k + 1));
            }
        }
        proof {
            k = k + 1;
        }
    }
    proof {
        assert(all.take(k) =~= all);
        assert(out@ =~= without_identity(all, server@, tenant@));
    }
    out
}

/// The label is not in use.
pub open spec fn label_free(orgs: Seq<OrgEntry>, label: Seq<char>) -> bool {
    forall|i: int| 0 <= i < orgs.len() ==> (#[trigger] orgs[i]).label@ != label
}

/// `base`, a dash and a number.
pub open spec fn numbered(base: Seq<char>, n: nat) -> Seq<char> {
    base + "-"@ + decimal(n)
}

/// The first free one of the labels numbered from `n` to 99.
pub open spec fn first_free(orgs: Seq<OrgEntry>, base: Seq<char>, n: nat) -> Option<Seq<char>>
    decreases 100 - n,
{
    if n >= 100 {
        None
    } else if label_free(orgs, numbered(base, n)) {
        Some(numbered(base, n))
    } else {
        first_free(orgs, base, n + 1)
    }
}

/// The label that a server's host makes, `org` where it makes none.
pub open spec fn host_label(server_url: Seq<char>) -> Seq<char> {
    let host = before(
        trim_start_str(trim_start_str(server_url, "https://"@), "http://"@),
        '/',
    );
    match org_label(host) {
        Some(l) => l,
        None => "org"@,
    }
}

/// The label of a new secondary: the requested one, normalised, an error where
/// it is invalid or taken; else the host's, numbered where it is taken.
pub open spec fn chosen_label(
    orgs: Seq<OrgEntry>,
    requested: Option<Seq<char>>,
    server_url: Seq<char>,
) -> Result<Seq<char>, Seq<char>> {
    match requested {
        Some(raw) => match org_label(raw) {
            None => Err(
                "invalid --label "@ + debug_form(raw)
                    + ": use lowercase letters/digits/dashes (and not the reserved "@ + debug_form(
                    PRIMARY_ORG_LABEL@,
                ) + ")"@,
            ),
            Some(l) => if label_free(orgs, l) {
                Ok(l)
            } else {
                Err("--label "@ + debug_form(l) + " is already in use (see `roomlerd org ls`)"@)
            },
        },
        None => {
            let base = host_label(server_url);
            if label_free(orgs, base) {
                Ok(base)
            } else {
                match first_free(orgs, base, 2) {
                    Some(l) => Ok(l),
                    None => Err(
                        "could not derive a unique org label from "@ + debug_form(server_url)
                            + "; pass --label"@,
                    ),
                }
            }
        },
    }
}

fn is_free(orgs: &Vec<OrgEntry>, label: &str) -> (r: bool)
    ensures
        r == label_free(orgs@, label@),
{
    position_by_label(orgs, label).is_none()
}

/// Picks the label of a new secondary.
pub fn unique_org_label(orgs: &Vec<OrgEntry>, requested: Option<&str>, server_url: &str) -> (r:
    Result<String, String>)
    ensures
        ({
            let want = chosen_label(orgs@, opt_str(requested), server_url@);
            match r {
                Ok(l) => want == Ok::<_, Seq<char>>(l@),
                Err(e) => want == Err::<Seq<char>, _>(e@),
            }
        }),
{
    match requested {
        Some(raw) => match sanitize_org_label(raw) {
            None => {
                let q: String = quoted(raw);
                let p: String = quoted(PRIMARY_ORG_LABEL);
                let mut m: String = cat3(
                    "invalid --label ",
                    q.as_str(),
                    ": use lowercase letters/digits/dashes (and not the reserved ",
                );
                m.append(p.as_str());
                m.append(")");
                Err(m)
            },
            Some(l) => if is_free(orgs, l.as_str()) {
                Ok(l)
            } else {
                let q: String = quoted(l.as_str());
                Err(cat3("--label ", q.as_str(), " is already in use (see `roomlerd org ls`)"))
            },
        },
        None => {
            let rest: &str = trimmed_start_str(
                trimmed_start_str(server_url, "https://"),
                "http://",
            );
            let base: String = match sanitize_org_label(part_before(rest, '/')) {
                Some(l) => l,
                None => "org".to_owned(),
            };
            if is_free(orgs, base.as_str()) {
                return Ok(base);
            }
            let mut n: u64 = 2;
            while n < 100
                invariant
                    2 <= n <= 100,
                    requested is None,
                    base@ == host_label(server_url@),
                    !label_free(orgs@, base@),
                    first_free(orgs@, base@, 2) == first_free(orgs@, base@, n as nat),
                decreases 100 - n,
            {
                let d: String = to_decimal(n);
                let candidate: String = cat3(base.as_str(), "-", d.as_str());
                if is_free(orgs, candidate.as_str()) {
                    return Ok(candidate);
                }
                n = n + 1;
            }
            let q: String = quoted(server_url);
            Err(cat3("could not derive a unique org label from ", q.as_str(), "; pass --label"))
        },
    }
}

/// The entry of a new secondary: enabled, its overlay off, the key that was
/// minted for it.
pub open spec fn new_entry(fresh: AgentConfig, minted: Option<String>, e: OrgEntry) -> bool {
    &&& e.server_url == fresh.server_url
    &&& e.ws_url is None
    &&& e.agent_token == fresh.agent_token
    &&& e.agent_id == fresh.agent_id
    &&& e.tenant_id == fresh.tenant_id
    &&& e.enabled
    &&& e.overlay_mode == OrgOverlayMode::Off
    &&& e.overlay_wg_secret_key == minted
    &&& e.overlay_wg_key_epoch == 0
    &&& e.overlay_advertised_routes@.len() == 0
    &&& !e.overlay_exit_node_enabled
    &&& e.advertise_routes@.len() == 0
    &&& e.netstack_socks_port is None
}

/// `r` is `existing` with its primary replaced by `fresh`, without the
/// secondaries that duplicate the new primary.
pub open spec fn replaced(fresh: AgentConfig, existing: AgentConfig, r: AgentConfig) -> bool {
    &&& r == (AgentConfig { orgs: r.orgs, ..preserved(fresh, existing) })
    &&& r.orgs@ == without_identity(existing.orgs@, fresh.server_url@, fresh.tenant_id@)
}

/// `r` is `existing` with the token and agent id of the entry at `at`
/// refreshed.
pub open spec fn refreshed_org(
    fresh: AgentConfig,
    existing: AgentConfig,
    at: int,
    r: AgentConfig,
) -> bool {
    &&& r == (AgentConfig { orgs: r.orgs, ..existing })
    &&& r.orgs@ == existing.orgs@.update(
        at,
        OrgEntry {
            agent_token: fresh.agent_token,
            agent_id: fresh.agent_id,
            ws_url: None,
            ..existing.orgs@[at]
        },
    )
}

/// `r` is `existing` with a new secondary at the end of its table.
pub open spec fn appended_org(
    fresh: AgentConfig,
    existing: AgentConfig,
    label: Seq<char>,
    minted: Option<String>,
    r: AgentConfig,
) -> bool {
    &&& r == (AgentConfig { orgs: r.orgs, ..existing })
    &&& r.orgs@.len() == existing.orgs@.len() + 1
    &&& r.orgs@.drop_last() == existing.orgs@
    &&& r.orgs@.last().label@ == label
    &&& new_entry(fresh, minted, r.orgs@.last())
}

fn refresh_entry(orgs: Vec<OrgEntry>, at: usize, agent_token: String, agent_id: String) -> (r: Vec<
    OrgEntry,
>)
    requires
        at < orgs@.len(),
    ensures
        r@ == orgs@.update(
            at as int,
            OrgEntry { agent_token, agent_id, ws_url: None, ..orgs@[at as int] },
        ),
{
    let mut out: Vec<OrgEntry> = orgs;
    let entry: OrgEntry = out.remove(at);
    out.insert(at, OrgEntry { agent_token, agent_id, ws_url: None, ..entry });
    proof {
        assert(out@ =~= orgs@.update(
            at as int,
            OrgEntry { agent_token, agent_id, ws_url: None, ..orgs@[at as int] },
        ));
    }
    out
}

fn with_refreshed(fresh: AgentConfig, existing: AgentConfig, at: usize) -> (r: AgentConfig)
    requires
        at < existing.orgs@.len(),
    ensures
        refreshed_org(fresh, existing, at as int, r),
{
    let orgs: Vec<OrgEntry> = refresh_entry(
        existing.orgs,
        at,
        fresh.agent_token,
        fresh.agent_id,
    );
    AgentConfig { orgs, ..existing }
}

fn with_appended(
    fresh: AgentConfig,
    existing: AgentConfig,
    label: String,
    minted: Option<String>,
) -> (r: AgentConfig)
    ensures
        appended_org(fresh, existing, label@, minted, r),
{
    let mut orgs: Vec<OrgEntry> = existing.orgs;
    orgs.push(
        OrgEntry {
            label,
            server_url: fresh.server_url,
            ws_url: None,
            agent_token: fresh.agent_token,
            agent_id: fresh.agent_id,
            tenant_id: fresh.tenant_id,
            enabled: true,
            overlay_mode: OrgOverlayMode::Off,
            overlay_wg_secret_key: minted,
            overlay_wg_key_epoch: 0,
            overlay_advertised_routes: Vec::new(),
            overlay_exit_node_enabled: false,
            advertise_routes: Vec::new(),
            netstack_socks_port: None,
        },
    );
    proof {
        assert(orgs@.drop_last() =~= existing.orgs@);
    }
    AgentConfig { orgs, ..existing }
}

fn with_replaced(fresh: AgentConfig, existing: AgentConfig) -> (r: AgentConfig)
    ensures
        replaced(fresh, existing, r),
{
    let merged: AgentConfig = preserve_operator_config(fresh, existing);
    let orgs: Vec<OrgEntry> = drop_identity(
        merged.orgs,
        merged.server_url.as_str(),
        merged.tenant_id.as_str(),
    );
    AgentConfig { orgs, ..merged }
}

/// What folding a fresh enrollment into an existing configuration, or into
/// none, gives: the same (server, tenant) pair refreshes the primary or a
/// secondary in place, a new pair is appended as a secondary with the key
/// that was minted for it, and `force_replace` rebinds the primary.
pub open spec fn folded(
    existing: Option<AgentConfig>,
    fresh: AgentConfig,
    requested_label: Option<Seq<char>>,
    force_replace: bool,
    minted: Option<String>,
    r: Result<(AgentConfig, EnrollOutcome), String>,
) -> bool {
    match existing {
        None => r matches Ok((c, o)) && c == fresh && o == EnrollOutcome::FreshPrimary,
        Some(e) => {
            let server = fresh.server_url@;
            let tenant = fresh.tenant_id@;
            let at = identity_index(e.orgs@, server, tenant);
            if force_replace {
                &&& r matches Ok((c, o))
                &&& o == EnrollOutcome::ReplacedPrimary
                &&& replaced(fresh, e, c)
            } else if primary_identity(e, server, tenant) {
                &&& r matches Ok((c, o))
                &&& o == EnrollOutcome::RefreshedPrimary
                &&& c == preserved(fresh, e)
            } else if at < e.orgs@.len() {
                &&& r matches Ok((c, EnrollOutcome::RefreshedOrg { label }))
                &&& label@ == e.orgs@[at].label@
                &&& refreshed_org(fresh, e, at, c)
            } else {
                match chosen_label(e.orgs@, requested_label, server) {
                    Err(m) => r matches Err(x) && x@ == m,
                    Ok(l) => {
                        &&& r matches Ok((c, EnrollOutcome::AppendedOrg { label }))
                        &&& label@ == l
                        &&& appended_org(fresh, e, l, minted, c)
                    },
                }
            }
        },
    }
}

/// Folds a fresh enrollment into an existing configuration; a new secondary
/// gets the WireGuard key `minted` for it, never another org's.
pub fn apply_enrollment_minting(
    existing: Option<AgentConfig>,
    fresh: AgentConfig,
    requested_label: Option<&str>,
    force_replace: bool,
    minted: Option<String>,
) -> (r: Result<(AgentConfig, EnrollOutcome), String>)
    ensures
        folded(existing, fresh, opt_str(requested_label), force_replace, minted, r),
{
    let existing: AgentConfig = match existing {
        None => {
            return Ok((fresh, EnrollOutcome::FreshPrimary));
        },
        Some(e) => e,
    };
    if force_replace {
        return Ok((with_replaced(fresh, existing), EnrollOutcome::ReplacedPrimary));
    }
    if existing.is_primary_identity(fresh.server_url.as_str(), fresh.tenant_id.as_str()) {
        return Ok((preserve_operator_config(fresh, existing), EnrollOutcome::RefreshedPrimary));
    }
    match position_by_identity(
        &existing.orgs,
        fresh.server_url.as_str(),
        fresh.tenant_id.as_str(),
    ) {
        Some(at) => {
            let label: String = existing.orgs[at].label.clone();
            Ok((with_refreshed(fresh, existing, at), EnrollOutcome::RefreshedOrg { label }))
        },
        None => match unique_org_label(
            &existing.orgs,
            requested_label,
            fresh.server_url.as_str(),
        ) {
            Err(e) => Err(e),
            Ok(label) => {
                let shown: String = label.clone();
                Ok(
                    (
                        with_appended(fresh, existing, label, minted),
                        EnrollOutcome::AppendedOrg { label: shown },
                    ),
                )
            },
        },
    }
}

/// Folds a fresh enrollment into an existing configuration where no overlay is
/// built in: a new secondary gets its key at its first overlay start.
pub fn apply_enrollment(
    existing: Option<AgentConfig>,
    fresh: AgentConfig,
    requested_label: Option<&str>,
    force_replace: bool,
) -> (r: Result<(AgentConfig, EnrollOutcome), String>)
    ensures
        folded(existing, fresh, opt_str(requested_label), force_replace, None, r),
{
    apply_enrollment_minting(existing, fresh, requested_label, force_replace, None)
}

} // verus!
