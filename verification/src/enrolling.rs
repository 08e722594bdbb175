//! What an enrollment changes, and what it leaves alone.
use vstd::prelude::*;
use crate::config::agent::AgentConfig;
use crate::config::keys::{Flag, Key, Number, Toggle};
use crate::config::org::{identity_index, org_label, OrgEntry, OrgOverlayMode};
use crate::config::surface::setting;
use crate::enrollment::{
    authority_host, chosen_label, folded, fresh_config, host_label, label_free, loopback_authority,
    normalized_url, preserved, without_identity, EnrollOutcome,
};
use crate::ip::{ip_address, loopback};
use crate::text::{before, lower, trim_end_char};

verus! {

proof fn lemma_kept_flag(fresh: AgentConfig, existing: AgentConfig, x: Flag)
    ensures
        x.get(preserved(fresh, existing)) == x.get(existing),
{
}

proof fn lemma_kept_toggle(fresh: AgentConfig, existing: AgentConfig, x: Toggle)
    ensures
        x.get(preserved(fresh, existing)) == x.get(existing),
{
}

proof fn lemma_kept_number(fresh: AgentConfig, existing: AgentConfig, x: Number)
    ensures
        x.get(preserved(fresh, existing)) == x.get(existing),
{
}

/// Enrolling again keeps the setting of every key.
pub proof fn enrolling_again_keeps_every_key(fresh: AgentConfig, existing: AgentConfig, key: Key)
    ensures
        setting(preserved(fresh, existing), key) == setting(existing, key),
{
    match key {
        Key::Flag(x) => lemma_kept_flag(fresh, existing, x),
        Key::Toggle(x) => lemma_kept_toggle(fresh, existing, x),
        Key::Number(x) => lemma_kept_number(fresh, existing, x),
        _ => {},
    }
}

/// Enrolling again takes the enrollment from the server's reply, and keeps the
/// keys that are secret, the declared routes, the other organisations and how
/// the machine fared.
pub proof fn enrolling_again_takes_the_enrollment(fresh: AgentConfig, existing: AgentConfig)
    ensures
        preserved(fresh, existing).server_url == fresh.server_url,
        preserved(fresh, existing).ws_url == fresh.ws_url,
        preserved(fresh, existing).agent_token == fresh.agent_token,
        preserved(fresh, existing).agent_id == fresh.agent_id,
        preserved(fresh, existing).tenant_id == fresh.tenant_id,
        preserved(fresh, existing).machine_id == fresh.machine_id,
        preserved(fresh, existing).machine_name == fresh.machine_name,
        preserved(fresh, existing).ephemeral == fresh.ephemeral,
        preserved(fresh, existing).config_schema_version == fresh.config_schema_version,
        preserved(fresh, existing).ssh_host_key == existing.ssh_host_key,
        preserved(fresh, existing).overlay_data_probe == existing.overlay_data_probe,
        preserved(fresh, existing).last_known_good_version == existing.last_known_good_version,
        preserved(fresh, existing).crash_count == existing.crash_count,
        preserved(fresh, existing).last_crash_unix == existing.last_crash_unix,
        preserved(fresh, existing).rollback_attempted == existing.rollback_attempted,
        preserved(fresh, existing).last_run_unhealthy == existing.last_run_unhealthy,
        preserved(fresh, existing).derived_org == existing.derived_org,
        preserved(fresh, existing).overlay_wg_secret_key == existing.overlay_wg_secret_key,
        preserved(fresh, existing).overlay_wg_key_epoch == existing.overlay_wg_key_epoch,
        preserved(fresh, existing).tunnel_routes == existing.tunnel_routes,
        preserved(fresh, existing).orgs == existing.orgs,
{
}

/// A fresh configuration is the reply's enrollment on this machine, and
/// nothing is set in it.
pub proof fn fresh_enrollment_is_the_reply(
    server_url: Seq<char>,
    machine_id: Seq<char>,
    machine_name: Seq<char>,
    agent_id: String,
    tenant_id: String,
    agent_token: String,
    ephemeral: bool,
    r: AgentConfig,
)
    requires
        fresh_config(
            server_url,
            machine_id,
            machine_name,
            agent_id,
            tenant_id,
            agent_token,
            ephemeral,
            r,
        ),
    ensures
        r.agent_id@ == agent_id@,
        r.tenant_id@ == tenant_id@,
        r.agent_token@ == agent_token@,
        r.machine_id@ == machine_id,
        r.machine_name@ == machine_name,
        r.ephemeral == ephemeral,
        r.server_url@ == normalized_url(server_url),
        r.ws_url is None,
        r.orgs@.len() == 0,
        r.tunnel_routes@.len() == 0,
        r.ssh_authorized_keys@.len() == 0,
        r.overlay_wg_secret_key is None,
        r.ssh_host_key is None,
        r.crash_count == 0,
        !r.rollback_attempted,
{
}

/// The configuration holds this (server, tenant) pair as its primary.
pub open spec fn is_with(cfg: AgentConfig, server: Seq<char>, tenant: Seq<char>) -> bool {
    cfg.server_url@ == server && cfg.tenant_id@ == tenant
}

/// The table has an entry of this (server, tenant) pair.
pub open spec fn table_has(orgs: Seq<OrgEntry>, server: Seq<char>, tenant: Seq<char>) -> bool {
    exists|i: int|
        0 <= i < orgs.len() && (#[trigger] orgs[i]).server_url@ == server && orgs[i].tenant_id@
            == tenant
}

proof fn lemma_identity_index(orgs: Seq<OrgEntry>, server: Seq<char>, tenant: Seq<char>)
    ensures
        0 <= identity_index(orgs, server, tenant) <= orgs.len(),
        identity_index(orgs, server, tenant) < orgs.len() <==> table_has(orgs, server, tenant),
        identity_index(orgs, server, tenant) < orgs.len() ==> ({
            let o = orgs[identity_index(orgs, server, tenant)];
            o.server_url@ == server && o.tenant_id@ == tenant
        }),
        forall|i: int|
            0 <= i < identity_index(orgs, server, tenant) ==> !((#[trigger] orgs[i]).server_url@
                == server && orgs[i].tenant_id@ == tenant),
    decreases orgs.len(),
{
    if orgs.len() > 0 && !(orgs[0].server_url@ == server && orgs[0].tenant_id@ == tenant) {
        let rest = orgs.drop_first();
        lemma_identity_index(rest, server, tenant);
        let k = identity_index(rest, server, tenant);
        if k < rest.len() {
            assert(rest[k] == orgs[k + 1]);
        }
        if table_has(orgs, server, tenant) {
            let i = choose|i: int|
                0 <= i < orgs.len() && (#[trigger] orgs[i]).server_url@ == server
                    && orgs[i].tenant_id@ == tenant;
            assert(rest[i - 1] == orgs[i]);
        }
        assert forall|i: int| 0 <= i < k + 1 implies !((#[trigger] orgs[i]).server_url@ == server
            && orgs[i].tenant_id@ == tenant) by {
            if i > 0 {
                assert(rest[i - 1] == orgs[i]);
            }
        }
    }
}

/// What becomes of an enrollment: the first one stands as it is, force rebinds
/// the primary, a pair that is known is refreshed where it stands, and a new
/// pair is appended. Only that last one can fail.
pub proof fn outcome_tells_what_was_enrolled(
    existing: Option<AgentConfig>,
    fresh: AgentConfig,
    label: Option<Seq<char>>,
    force: bool,
    minted: Option<String>,
    r: Result<(AgentConfig, EnrollOutcome), String>,
)
    requires
        folded(existing, fresh, label, force, minted, r),
    ensures
        match existing {
            None => r == Ok::<_, String>((fresh, EnrollOutcome::FreshPrimary)),
            Some(e) => {
                let known = is_with(e, fresh.server_url@, fresh.tenant_id@);
                let listed = table_has(e.orgs@, fresh.server_url@, fresh.tenant_id@);
                &&& r is Err ==> !force && !known && !listed
                &&& r matches Ok((_, o)) ==> {
                    &&& o is ReplacedPrimary <==> force
                    &&& o is RefreshedPrimary <==> !force && known
                    &&& o is RefreshedOrg <==> !force && !known && listed
                    &&& o is AppendedOrg <==> !force && !known && !listed
                }
            },
        },
{
    if let Some(e) = existing {
        lemma_identity_index(e.orgs@, fresh.server_url@, fresh.tenant_id@);
    }
}

/// After an enrollment the machine holds the pair that was enrolled, with the
/// token and the id that the server gave this time.
pub proof fn the_new_token_is_held(
    existing: Option<AgentConfig>,
    fresh: AgentConfig,
    label: Option<Seq<char>>,
    force: bool,
    minted: Option<String>,
    c: AgentConfig,
    o: EnrollOutcome,
)
    requires
        folded(existing, fresh, label, force, minted, Ok((c, o))),
    ensures
        ({
            ||| c.server_url@ == fresh.server_url@ && c.tenant_id@ == fresh.tenant_id@
                && c.agent_token@ == fresh.agent_token@ && c.agent_id@ == fresh.agent_id@
            ||| exists|i: int|
                0 <= i < c.orgs@.len() && (#[trigger] c.orgs@[i]).server_url@ == fresh.server_url@
                    && c.orgs@[i].tenant_id@ == fresh.tenant_id@ && c.orgs@[i].agent_token@
                    == fresh.agent_token@ && c.orgs@[i].agent_id@ == fresh.agent_id@
        }),
{
    if let Some(e) = existing {
        lemma_identity_index(e.orgs@, fresh.server_url@, fresh.tenant_id@);
        let at = identity_index(e.orgs@, fresh.server_url@, fresh.tenant_id@);
        if o is RefreshedOrg {
            assert(c.orgs@[at].agent_token@ == fresh.agent_token@);
        } else if o is AppendedOrg {
            assert(c.orgs@[c.orgs@.len() - 1] == c.orgs@.last());
        }
    }
}

/// `b` keeps every setting of `a`, and what the machine keeps to itself.
pub open spec fn keeps_the_machine(a: AgentConfig, b: AgentConfig, key: Key) -> bool {
    &&& setting(b, key) == setting(a, key)
    &&& b.overlay_wg_secret_key == a.overlay_wg_secret_key
    &&& b.overlay_wg_key_epoch == a.overlay_wg_key_epoch
    &&& b.ssh_host_key == a.ssh_host_key
    &&& b.tunnel_routes == a.tunnel_routes
    &&& b.crash_count == a.crash_count
    &&& b.last_known_good_version == a.last_known_good_version
}

proof fn lemma_orgs_apart(a: AgentConfig, b: AgentConfig, key: Key)
    requires
        b == (AgentConfig { orgs: b.orgs, ..a }),
    ensures
        keeps_the_machine(a, b, key),
{
}

proof fn lemma_preserved_keeps(fresh: AgentConfig, existing: AgentConfig, key: Key)
    ensures
        keeps_the_machine(existing, preserved(fresh, existing), key),
{
    enrolling_again_keeps_every_key(fresh, existing, key);
}

/// Enrolling the primary again changes no setting of the machine, and its
/// overlay key stays.
pub proof fn refreshing_the_primary_keeps_every_key(
    existing: AgentConfig,
    fresh: AgentConfig,
    label: Option<Seq<char>>,
    minted: Option<String>,
    c: AgentConfig,
    o: EnrollOutcome,
    key: Key,
)
    requires
        folded(Some(existing), fresh, label, false, minted, Ok((c, o))),
        is_with(existing, fresh.server_url@, fresh.tenant_id@),
    ensures
        keeps_the_machine(existing, c, key),
        c.orgs == existing.orgs,
{
    assert(c == preserved(fresh, existing));
    lemma_preserved_keeps(fresh, existing, key);
}

/// A forced rebind changes no setting of the machine, and its overlay key
/// stays.
pub proof fn forcing_keeps_every_key(
    existing: AgentConfig,
    fresh: AgentConfig,
    label: Option<Seq<char>>,
    minted: Option<String>,
    c: AgentConfig,
    o: EnrollOutcome,
    key: Key,
)
    requires
        folded(Some(existing), fresh, label, true, minted, Ok((c, o))),
    ensures
        keeps_the_machine(existing, c, key),
{
    lemma_orgs_apart(preserved(fresh, existing), c, key);
    lemma_preserved_keeps(fresh, existing, key);
}

/// Enrolling into a further organisation changes no setting of the machine,
/// and its overlay key stays.
pub proof fn enrolling_elsewhere_keeps_every_key(
    existing: AgentConfig,
    fresh: AgentConfig,
    label: Option<Seq<char>>,
    minted: Option<String>,
    c: AgentConfig,
    o: EnrollOutcome,
    key: Key,
)
    requires
        folded(Some(existing), fresh, label, false, minted, Ok((c, o))),
        !is_with(existing, fresh.server_url@, fresh.tenant_id@),
    ensures
        keeps_the_machine(existing, c, key),
{
    assert(c == (AgentConfig { orgs: c.orgs, ..existing }));
    lemma_orgs_apart(existing, c, key);
}

/// Enrolling into a further organisation leaves the primary enrollment alone,
/// and every entry but the one of the pair that was enrolled.
pub proof fn enrolling_elsewhere_spares_the_rest(
    existing: AgentConfig,
    fresh: AgentConfig,
    label: Option<Seq<char>>,
    minted: Option<String>,
    c: AgentConfig,
    o: EnrollOutcome,
)
    requires
        folded(Some(existing), fresh, label, false, minted, Ok((c, o))),
        !is_with(existing, fresh.server_url@, fresh.tenant_id@),
    ensures
        c.server_url == existing.server_url,
        c.ws_url == existing.ws_url,
        c.agent_token == existing.agent_token,
        c.agent_id == existing.agent_id,
        c.tenant_id == existing.tenant_id,
        c.machine_id == existing.machine_id,
        c.machine_name == existing.machine_name,
        c.ephemeral == existing.ephemeral,
        c.orgs@.len() == existing.orgs@.len() + (if o is AppendedOrg {
            1int
        } else {
            0
        }),
        forall|i: int|
            0 <= i < existing.orgs@.len() && !((#[trigger] existing.orgs@[i]).server_url@
                == fresh.server_url@ && existing.orgs@[i].tenant_id@ == fresh.tenant_id@)
                ==> c.orgs@[i] == existing.orgs@[i],
{
    lemma_identity_index(existing.orgs@, fresh.server_url@, fresh.tenant_id@);
    if o is AppendedOrg {
        assert forall|i: int| 0 <= i < existing.orgs@.len() implies c.orgs@[i]
            == #[trigger] existing.orgs@[i] by {
            assert(c.orgs@.drop_last()[i] == c.orgs@[i]);
        }
    }
}

/// Enrolling again into a further organisation refreshes its token, its agent
/// id and its signaling URL, and keeps its label and what the operator set for
/// it.
pub proof fn a_refreshed_entry_keeps_its_settings(
    existing: AgentConfig,
    fresh: AgentConfig,
    label: Option<Seq<char>>,
    minted: Option<String>,
    c: AgentConfig,
    shown: String,
)
    requires
        folded(
            Some(existing),
            fresh,
            label,
            false,
            minted,
            Ok((c, EnrollOutcome::RefreshedOrg { label: shown })),
        ),
    ensures
        exists|i: int|
            0 <= i < existing.orgs@.len() && i < c.orgs@.len() && ({
                let was = existing.orgs@[i];
                let is = #[trigger] c.orgs@[i];
                &&& was.server_url@ == fresh.server_url@
                &&& was.tenant_id@ == fresh.tenant_id@
                &&& is.agent_token@ == fresh.agent_token@
                &&& is.agent_id@ == fresh.agent_id@
                &&& is.ws_url is None
                &&& is.label@ == was.label@
                &&& shown@ == was.label@
                &&& is.server_url == was.server_url
                &&& is.tenant_id == was.tenant_id
                &&& is.enabled == was.enabled
                &&& is.overlay_mode == was.overlay_mode
                &&& is.overlay_wg_secret_key == was.overlay_wg_secret_key
                &&& is.overlay_wg_key_epoch == was.overlay_wg_key_epoch
                &&& is.overlay_advertised_routes == was.overlay_advertised_routes
                &&& is.overlay_exit_node_enabled == was.overlay_exit_node_enabled
                &&& is.advertise_routes == was.advertise_routes
                &&& is.netstack_socks_port == was.netstack_socks_port
            }),
{
    lemma_identity_index(existing.orgs@, fresh.server_url@, fresh.tenant_id@);
    let at = identity_index(existing.orgs@, fresh.server_url@, fresh.tenant_id@);
    assert(c.orgs@[at].agent_token == fresh.agent_token);
}

/// A new secondary runs under the enrollment that the server gave, with the
/// key that was minted for it; it is enabled, its overlay is off, it offers
/// nothing, and its label was free.
pub proof fn a_new_entry_offers_nothing(
    existing: AgentConfig,
    fresh: AgentConfig,
    label: Option<Seq<char>>,
    minted: Option<String>,
    c: AgentConfig,
    shown: String,
)
    requires
        folded(
            Some(existing),
            fresh,
            label,
            false,
            minted,
            Ok((c, EnrollOutcome::AppendedOrg { label: shown })),
        ),
    ensures
        c.orgs@.len() == existing.orgs@.len() + 1,
        c.orgs@.last().label@ == shown@,
        forall|i: int|
            0 <= i < existing.orgs@.len() ==> (#[trigger] existing.orgs@[i]).label@ != shown@,
        c.orgs@.last().server_url@ == fresh.server_url@,
        c.orgs@.last().tenant_id@ == fresh.tenant_id@,
        c.orgs@.last().agent_token@ == fresh.agent_token@,
        c.orgs@.last().agent_id@ == fresh.agent_id@,
        c.orgs@.last().ws_url is None,
        c.orgs@.last().enabled,
        c.orgs@.last().overlay_mode == OrgOverlayMode::Off,
        c.orgs@.last().overlay_wg_secret_key == minted,
        c.orgs@.last().overlay_wg_key_epoch == 0,
        !c.orgs@.last().overlay_exit_node_enabled,
        c.orgs@.last().overlay_advertised_routes@.len() == 0,
        c.orgs@.last().advertise_routes@.len() == 0,
        c.orgs@.last().netstack_socks_port is None,
        label matches Some(raw) ==> org_label(raw) == Some(shown@),
{
    crate::enrollment_laws::chosen_label_is_free(existing.orgs@, label, fresh.server_url@);
    lemma_identity_index(existing.orgs@, fresh.server_url@, fresh.tenant_id@);
}

/// A forced rebind makes the fresh enrollment the primary, and keeps every
/// entry of another pair, in order.
pub proof fn forcing_rebinds_the_primary(
    existing: AgentConfig,
    fresh: AgentConfig,
    label: Option<Seq<char>>,
    minted: Option<String>,
    c: AgentConfig,
    o: EnrollOutcome,
)
    requires
        folded(Some(existing), fresh, label, true, minted, Ok((c, o))),
    ensures
        c.server_url@ == fresh.server_url@,
        c.tenant_id@ == fresh.tenant_id@,
        c.agent_token@ == fresh.agent_token@,
        c.agent_id@ == fresh.agent_id@,
        c.machine_id@ == fresh.machine_id@,
        c.machine_name@ == fresh.machine_name@,
        c.orgs@ == existing.orgs@.filter(
            |e: OrgEntry| !(e.server_url@ == fresh.server_url@ && e.tenant_id@ == fresh.tenant_id@),
        ),
{
    let keep = |e: OrgEntry|
        !(e.server_url@ == fresh.server_url@ && e.tenant_id@ == fresh.tenant_id@);
    lemma_without_is_filter(existing.orgs@, fresh.server_url@, fresh.tenant_id@, keep);
}

proof fn lemma_without_is_filter(
    orgs: Seq<OrgEntry>,
    server: Seq<char>,
    tenant: Seq<char>,
    keep: spec_fn(OrgEntry) -> bool,
)
    requires
        forall|e: OrgEntry|
            #[trigger] keep(e) <==> !(e.server_url@ == server && e.tenant_id@ == tenant),
    ensures
        without_identity(orgs, server, tenant) == orgs.filter(keep),
    decreases orgs.len(),
{
    reveal(Seq::filter);
    if orgs.len() > 0 {
        lemma_without_is_filter(orgs.drop_last(), server, tenant, keep);
        assert(keep(orgs.last()) <==> !(orgs.last().server_url@ == server
            && orgs.last().tenant_id@ == tenant));
    }
}

/// A label that was asked for is the one that is used, and one that is in use
/// or is none is refused. Where none was asked for, the host's is used while
/// it is free.
pub proof fn labels_are_as_asked(orgs: Seq<OrgEntry>, raw: Seq<char>, server_url: Seq<char>)
    ensures
        chosen_label(orgs, Some(raw), server_url) is Ok <==> (org_label(raw) matches Some(l)
            && label_free(orgs, l)),
        chosen_label(orgs, Some(raw), server_url) matches Ok(l) ==> org_label(raw) == Some(l),
        label_free(orgs, host_label(server_url)) ==> chosen_label(orgs, None, server_url) == Ok::<
            _,
            Seq<char>,
        >(host_label(server_url)),
{
}

/// The host of an authority is what stands before its port and its path, and
/// between the brackets of an IPv6 literal.
pub proof fn hosts_are_without_port_and_path(
    host: Seq<char>,
    port: Seq<char>,
    path: Seq<char>,
)
    requires
        host.len() > 0,
        !host.contains('/'),
        !host.contains(']'),
        host[0] != '[',
        !port.contains('/'),
        !port.contains(':'),
    ensures
        !host.contains(':') ==> authority_host(host) == host,
        !host.contains(':') ==> authority_host(host + seq![':'] + port) == host,
        !host.contains(':') ==> authority_host(host + seq![':'] + port + seq!['/'] + path) == host,
        authority_host(seq!['['] + host + seq![']']) == host,
        authority_host(seq!['['] + host + seq![']', ':'] + port + seq!['/'] + path) == host,
{
    lemma_before(host, '/');
    let hp = host + seq![':'] + port;
    lemma_lacks(host, seq![':'], '/');
    lemma_lacks(host + seq![':'], port, '/');
    lemma_before(hp, '/');
    lemma_before_at(hp, '/', path);
    if !host.contains(':') {
        assert forall|i: int| 0 <= i < host.len() implies host[i] != ':' by {
            assert(host.contains(host[i]));
        }
        crate::text::lemma_last_is(host, ':', -1);
        assert forall|i: int| host.len() < i < hp.len() implies hp[i] != ':' by {
            assert(port.contains(port[i - host.len() - 1]));
        }
        crate::text::lemma_last_is(hp, ':', host.len() as int);
        assert(hp.take(host.len() as int) =~= host);
    }
    let b = seq!['['] + host + seq![']'];
    lemma_lacks(seq!['['], host, '/');
    lemma_lacks(seq!['['] + host, seq![']'], '/');
    lemma_before(b, '/');
    assert(b.skip(1) =~= host + seq![']'] + seq![]);
    lemma_before_at(host, ']', seq![]);
    let bp = seq!['['] + host + seq![']', ':'] + port;
    lemma_lacks(seq!['['] + host, seq![']', ':'], '/');
    lemma_lacks(seq!['['] + host + seq![']', ':'], port, '/');
    lemma_before_at(bp, '/', path);
    assert(bp.skip(1) =~= host + seq![']'] + (seq![':'] + port));
    lemma_before_at(host, ']', seq![':'] + port);
}

/// A server is on the host itself exactly where its host is `localhost`, in
/// whatever case, or an address that is the host's own, whatever its port and
/// its path.
pub proof fn the_host_itself(host: Seq<char>, port: Seq<char>, path: Seq<char>)
    requires
        host.len() > 0,
        !host.contains('/'),
        !host.contains(']'),
        !host.contains(':'),
        host[0] != '[',
        !port.contains('/'),
        !port.contains(':'),
    ensures
        loopback_authority(host) <==> lower(host) == "localhost"@ || (ip_address(host) is Some
            && loopback(ip_address(host).unwrap())),
        loopback_authority(host + seq![':'] + port + seq!['/'] + path) == loopback_authority(host),
        loopback_authority(host + seq![':'] + port) == loopback_authority(host),
        lower(host) == "localhost"@ ==> loopback_authority(host),
{
    hosts_are_without_port_and_path(host, port, path);
}

proof fn lemma_lacks(a: Seq<char>, b: Seq<char>, c: char)
    ensures
        !a.contains(c) && !b.contains(c) ==> !(a + b).contains(c),
{
    if (a + b).contains(c) {
        let i = (a + b).index_of(c);
        if i < a.len() {
            assert(a[i] == c);
        } else {
            assert(b[i - a.len()] == c);
        }
    }
}

proof fn lemma_before(s: Seq<char>, c: char)
    ensures
        !s.contains(c) ==> before(s, c) == s,
{
    crate::text::lemma_first(s, c);
    if !s.contains(c) {
        assert forall|i: int| 0 <= i < s.len() implies s[i] != c by {
            assert(s.contains(s[i]));
        }
        crate::text::lemma_first_is(s, c, s.len() as int);
        assert(s.take(s.len() as int) =~= s);
    }
}

proof fn lemma_before_at(head: Seq<char>, c: char, tail: Seq<char>)
    ensures
        !head.contains(c) ==> before(head + seq![c] + tail, c) == head,
{
    let s = head + seq![c] + tail;
    if !head.contains(c) {
        assert forall|i: int| 0 <= i < head.len() implies s[i] != c by {
            assert(head.contains(head[i]));
        }
        crate::text::lemma_first_is(s, c, head.len() as int);
        assert(s.take(head.len() as int) =~= head);
    }
}

/// A server's URL keeps its host and path: trailing slashes go, and plain
/// `http` becomes `https` exactly where it does not name the machine itself.
pub proof fn only_the_scheme_is_raised(rest: Seq<char>)
    requires
        rest.len() > 0,
        rest.last() != '/',
    ensures
        normalized_url("https://"@ + rest) == "https://"@ + rest,
        loopback_authority(rest) ==> normalized_url("http://"@ + rest) == "http://"@ + rest,
        !loopback_authority(rest) ==> normalized_url("http://"@ + rest) == "https://"@ + rest,
        normalized_url("http://"@ + rest + seq!['/']) == normalized_url("http://"@ + rest),
        normalized_url("https://"@ + rest + seq!['/']) == normalized_url("https://"@ + rest),
{
    reveal_strlit("https://");
    reveal_strlit("http://");
    let s = "https://"@ + rest;
    let p = "http://"@ + rest;
    assert(trim_end_char(s, '/') == s);
    assert(trim_end_char(p, '/') == p);
    assert((s + seq!['/']).drop_last() =~= s);
    assert((p + seq!['/']).drop_last() =~= p);
    assert(p.subrange(0, 7) =~= "http://"@);
    assert(p.skip(7) =~= rest);
    assert(!"http://"@.is_prefix_of(s)) by {
        if "http://"@.is_prefix_of(s) {
            assert(s.subrange(0, 7)[4] == s[4]);
            assert("http://"@[4] == ':' && s[4] == 's');
        }
    }
}

} // verus!
