//! What holds of a machine that runs in several organisations.
use vstd::prelude::*;
use crate::config::agent::AgentConfig;
use crate::config::keys::{Flag, Key, Number, Toggle};
use crate::config::org::{
    enabled_orgs, label_step, mode_named, mode_text, org_index, org_label, org_view, ws_url_of,
    OrgEntry, OrgOverlayMode,
};
use crate::config::org_table::{effective_routes, promoted, run_problem};
use crate::config::surface::setting;
use crate::text::{lower, lower_char, trim, trim_end_char};

verus! {

/// The organisations that run are the enabled ones, in the order of the
/// table.
pub proof fn enabled_entries_run(orgs: Seq<OrgEntry>)
    ensures
        enabled_orgs(orgs) == orgs.filter(|o: OrgEntry| o.enabled),
    decreases orgs.len(),
{
    reveal(Seq::filter);
    if orgs.len() > 0 {
        enabled_entries_run(orgs.drop_last());
    }
}

proof fn lemma_running_entry(orgs: Seq<OrgEntry>, k: int)
    requires
        0 <= k < enabled_orgs(orgs).len(),
    ensures
        enabled_orgs(orgs)[k].enabled,
        orgs.contains(enabled_orgs(orgs)[k]),
    decreases orgs.len(),
{
    let rest = orgs.drop_last();
    if k < enabled_orgs(rest).len() {
        lemma_running_entry(rest, k);
        let i = rest.index_of(enabled_orgs(orgs)[k]);
        assert(orgs[i] == rest[i]);
    } else {
        assert(orgs[orgs.len() - 1] == enabled_orgs(orgs)[k]);
    }
}

/// An organisation runs exactly where it is in the table and enabled.
pub proof fn enabled_is_what_runs(orgs: Seq<OrgEntry>, o: OrgEntry)
    ensures
        enabled_orgs(orgs).contains(o) <==> orgs.contains(o) && o.enabled,
{
    broadcast use vstd::seq_lib::group_filter_ensures;

    enabled_entries_run(orgs);
    let f = |x: OrgEntry| x.enabled;
    if orgs.contains(o) && o.enabled {
        let i = orgs.index_of(o);
        assert(f(orgs[i]));
        assert(orgs.filter(f).contains(orgs[i]));
    }
    if enabled_orgs(orgs).contains(o) {
        lemma_running_entry(orgs, enabled_orgs(orgs).index_of(o));
    }
}

/// The organisation found by a label is the first one that bears it.
pub proof fn first_label_is_found(orgs: Seq<OrgEntry>, label: Seq<char>)
    ensures
        0 <= org_index(orgs, label) <= orgs.len(),
        org_index(orgs, label) < orgs.len() ==> orgs[org_index(orgs, label)].label@ == label,
        forall|i: int|
            0 <= i < org_index(orgs, label) ==> (#[trigger] orgs[i]).label@ != label,
    decreases orgs.len(),
{
    if orgs.len() > 0 && orgs[0].label@ != label {
        let rest = orgs.drop_first();
        first_label_is_found(rest, label);
        let k = org_index(rest, label);
        if k < rest.len() {
            assert(rest[k] == orgs[k + 1]);
        }
        assert forall|i: int| 0 <= i < k + 1 implies (#[trigger] orgs[i]).label@ != label by {
            if i > 0 {
                assert(rest[i - 1] == orgs[i]);
            }
        }
    }
}

/// A mode is read from its own spelling, and from no other mode's.
pub proof fn modes_are_spelled(m: OrgOverlayMode, s: Seq<char>)
    ensures
        mode_named(mode_text(m)) == Some(m),
        mode_named(s) == Some(m) <==> lower(trim(s)) == mode_text(m),
        mode_text(OrgOverlayMode::Off) == "off"@,
        mode_text(OrgOverlayMode::Netstack) == "netstack"@,
        mode_text(OrgOverlayMode::Tun) == "tun"@,
{
    reveal_strlit("off");
    reveal_strlit("netstack");
    reveal_strlit("tun");
    assert("off"@.len() == 3 && "tun"@.len() == 3 && "netstack"@.len() == 8);
    assert("off"@[0] != "tun"@[0]);
    let t = mode_text(m);
    crate::config::echo::lemma_tight(t);
    assert(lower(t) =~= t);
}

/// The key names a field that belongs to one organisation.
pub open spec fn is_org_scoped(key: Key) -> bool {
    ||| key == Key::Flag(Flag::OverlayEnabled)
    ||| key == Key::Flag(Flag::OverlayExitNodeEnabled)
    ||| key == Key::OverlayAdvertisedRoutes
    ||| key == Key::OverlayExitNode
    ||| key == Key::AdvertiseRoutes
    ||| key == Key::NetstackSocksPort
}

proof fn lemma_view_keeps_flags(cfg: AgentConfig, org: OrgEntry, view: AgentConfig, x: Flag)
    requires
        org_view(cfg, org, view),
        !is_org_scoped(Key::Flag(x)),
    ensures
        x.get(view) == x.get(cfg),
{
}

proof fn lemma_view_keeps_toggles(cfg: AgentConfig, org: OrgEntry, view: AgentConfig, x: Toggle)
    requires
        org_view(cfg, org, view),
    ensures
        x.get(view) == x.get(cfg),
{
}

proof fn lemma_view_keeps_numbers(cfg: AgentConfig, org: OrgEntry, view: AgentConfig, x: Number)
    requires
        org_view(cfg, org, view),
    ensures
        x.get(view) == x.get(cfg),
{
}

/// A secondary runs with every knob of the machine but those that belong to
/// an organisation.
pub proof fn secondaries_share_the_knobs(
    cfg: AgentConfig,
    org: OrgEntry,
    view: AgentConfig,
    key: Key,
)
    requires
        org_view(cfg, org, view),
        !is_org_scoped(key),
    ensures
        setting(view, key) == setting(cfg, key),
{
    match key {
        Key::Flag(x) => lemma_view_keeps_flags(cfg, org, view, x),
        Key::Toggle(x) => lemma_view_keeps_toggles(cfg, org, view, x),
        Key::Number(x) => lemma_view_keeps_numbers(cfg, org, view, x),
        _ => {},
    }
}

/// A secondary runs under its own enrollment, with its own routes, port and
/// key. Its overlay is up exactly where the machine runs several, the entry
/// asks for the device, both enrollments are with one server and the entry has
/// a key. It has neither the exit role nor routes nor a table of its own, and
/// what identifies the machine and how it fared stays the machine's.
pub proof fn secondaries_run_as_themselves(cfg: AgentConfig, org: OrgEntry, view: AgentConfig)
    requires
        org_view(cfg, org, view),
    ensures
        view.server_url@ == org.server_url@,
        view.ws_url == org.ws_url,
        view.agent_token@ == org.agent_token@,
        view.agent_id@ == org.agent_id@,
        view.tenant_id@ == org.tenant_id@,
        view.overlay_wg_secret_key == org.overlay_wg_secret_key,
        view.overlay_wg_key_epoch == org.overlay_wg_key_epoch,
        view.overlay_advertised_routes@ == org.overlay_advertised_routes@,
        view.advertise_routes@ == org.advertise_routes@,
        view.netstack_socks_port == org.netstack_socks_port,
        view.overlay_enabled <==> cfg.overlay_multi_org && org.overlay_mode == OrgOverlayMode::Tun
            && org.server_url@ == cfg.server_url@ && org.overlay_wg_secret_key is Some,
        !view.overlay_exit_node_enabled,
        view.overlay_exit_node is None,
        view.tunnel_routes@.len() == 0,
        view.orgs@.len() == 0,
        view.derived_org,
        view.machine_id@ == cfg.machine_id@,
        view.machine_name@ == cfg.machine_name@,
        view.ephemeral == cfg.ephemeral,
        view.ssh_host_key == cfg.ssh_host_key,
        view.overlay_data_probe == cfg.overlay_data_probe,
        view.last_known_good_version == cfg.last_known_good_version,
        view.crash_count == cfg.crash_count,
        view.last_crash_unix == cfg.last_crash_unix,
        view.rollback_attempted == cfg.rollback_attempted,
        view.last_run_unhealthy == cfg.last_run_unhealthy,
        view.config_schema_version == cfg.config_schema_version,
{
}

/// Promoting an entry swaps two enrollments: the entry's becomes the primary,
/// the former primary's takes its place under its label, enabled with the
/// overlay off, and every other entry stays.
pub proof fn promoting_swaps_the_enrollments(old: AgentConfig, at: int, new: AgentConfig)
    requires
        0 <= at < old.orgs@.len(),
        promoted(old, at, new),
    ensures
        new.server_url@ == old.orgs@[at].server_url@,
        new.ws_url == old.orgs@[at].ws_url,
        new.agent_token@ == old.orgs@[at].agent_token@,
        new.agent_id@ == old.orgs@[at].agent_id@,
        new.tenant_id@ == old.orgs@[at].tenant_id@,
        new.overlay_wg_secret_key == old.orgs@[at].overlay_wg_secret_key,
        new.overlay_wg_key_epoch == old.orgs@[at].overlay_wg_key_epoch,
        new.overlay_advertised_routes@ == old.orgs@[at].overlay_advertised_routes@,
        new.overlay_exit_node_enabled == old.orgs@[at].overlay_exit_node_enabled,
        new.advertise_routes@ == old.orgs@[at].advertise_routes@,
        new.overlay_exit_node is None,
        !new.overlay_enabled,
        new.orgs@.len() == old.orgs@.len(),
        new.orgs@[at].label@ == old.orgs@[at].label@,
        new.orgs@[at].server_url@ == old.server_url@,
        new.orgs@[at].ws_url == old.ws_url,
        new.orgs@[at].agent_token@ == old.agent_token@,
        new.orgs@[at].agent_id@ == old.agent_id@,
        new.orgs@[at].tenant_id@ == old.tenant_id@,
        new.orgs@[at].overlay_wg_secret_key == old.overlay_wg_secret_key,
        new.orgs@[at].overlay_wg_key_epoch == old.overlay_wg_key_epoch,
        new.orgs@[at].overlay_advertised_routes@ == old.overlay_advertised_routes@,
        new.orgs@[at].overlay_exit_node_enabled == old.overlay_exit_node_enabled,
        new.orgs@[at].advertise_routes@ == old.advertise_routes@,
        new.orgs@[at].netstack_socks_port == old.orgs@[at].netstack_socks_port,
        new.orgs@[at].enabled,
        new.orgs@[at].overlay_mode == OrgOverlayMode::Off,
        forall|i: int|
            0 <= i < old.orgs@.len() && i != at ==> new.orgs@[i] == #[trigger] old.orgs@[i],
{
}

proof fn lemma_promoting_keeps_flags(old: AgentConfig, at: int, new: AgentConfig, x: Flag)
    requires
        promoted(old, at, new),
        !is_org_scoped(Key::Flag(x)),
    ensures
        x.get(new) == x.get(old),
{
}

proof fn lemma_promoting_keeps_toggles(old: AgentConfig, at: int, new: AgentConfig, x: Toggle)
    requires
        promoted(old, at, new),
    ensures
        x.get(new) == x.get(old),
{
}

proof fn lemma_promoting_keeps_numbers(old: AgentConfig, at: int, new: AgentConfig, x: Number)
    requires
        promoted(old, at, new),
    ensures
        x.get(new) == x.get(old),
{
}

/// Promoting an entry leaves the machine's knobs, its identity, its declared
/// routes and how it fared alone.
pub proof fn promoting_spares_the_machine(old: AgentConfig, at: int, new: AgentConfig, key: Key)
    requires
        promoted(old, at, new),
    ensures
        !is_org_scoped(key) || key == Key::NetstackSocksPort ==> setting(new, key) == setting(
            old,
            key,
        ),
        new.machine_id@ == old.machine_id@,
        new.machine_name@ == old.machine_name@,
        new.ephemeral == old.ephemeral,
        new.derived_org == old.derived_org,
        new.tunnel_routes == old.tunnel_routes,
        new.ssh_host_key == old.ssh_host_key,
        new.overlay_data_probe == old.overlay_data_probe,
        new.last_known_good_version == old.last_known_good_version,
        new.crash_count == old.crash_count,
        new.last_crash_unix == old.last_crash_unix,
        new.rollback_attempted == old.rollback_attempted,
        new.last_run_unhealthy == old.last_run_unhealthy,
        new.config_schema_version == old.config_schema_version,
{
    match key {
        Key::Flag(x) => {
            if !is_org_scoped(key) {
                lemma_promoting_keeps_flags(old, at, new, x);
            }
        },
        Key::Toggle(x) => lemma_promoting_keeps_toggles(old, at, new, x),
        Key::Number(x) => lemma_promoting_keeps_numbers(old, at, new, x),
        _ => {},
    }
}

/// An entry can run exactly where its label is a label in normal form that no
/// earlier entry bears, and its enrollment is neither the primary's nor that
/// of an earlier entry which holds its own label.
pub proof fn what_can_run(cfg: AgentConfig, i: int)
    requires
        0 <= i < cfg.orgs@.len(),
    ensures
        run_problem(cfg, i) is None <==> {
            let o = cfg.orgs@[i];
            &&& org_label(o.label@) == Some(o.label@)
            &&& forall|j: int| 0 <= j < i ==> (#[trigger] cfg.orgs@[j]).label@ != o.label@
            &&& !(cfg.server_url@ == o.server_url@ && cfg.tenant_id@ == o.tenant_id@)
            &&& forall|j: int|
                0 <= j < i && (#[trigger] cfg.orgs@[j]).server_url@ == o.server_url@
                    && cfg.orgs@[j].tenant_id@ == o.tenant_id@ ==> org_label(cfg.orgs@[j].label@)
                    != Some(cfg.orgs@[j].label@) || exists|k: int|
                    0 <= k < j && (#[trigger] cfg.orgs@[k]).label@ == cfg.orgs@[j].label@
        },
{
}

/// What a node advertises on the overlay begins with what is configured; an
/// exit node advertises the way to everywhere too, but not twice, and nothing
/// else is added.
pub proof fn exit_nodes_advertise_everywhere(routes: Seq<Seq<char>>, exit_node: bool)
    ensures
        routes.is_prefix_of(effective_routes(routes, exit_node)),
        !exit_node ==> effective_routes(routes, exit_node) == routes,
        exit_node ==> effective_routes(routes, exit_node).contains("0.0.0.0/0"@),
        routes.contains("0.0.0.0/0"@) ==> effective_routes(routes, exit_node) == routes,
        effective_routes(routes, exit_node).len() <= routes.len() + 1,
{
    let r = effective_routes(routes, exit_node);
    assert(r.subrange(0, routes.len() as int) =~= routes);
    if exit_node && !routes.contains("0.0.0.0/0"@) {
        assert(r[routes.len() as int] == "0.0.0.0/0"@);
    }
}

/// The signaling URL of a server is on the same host: `https` becomes `wss`,
/// `http` becomes `ws`, and `/ws` follows whatever the path is.
pub proof fn signaling_stays_on_the_host(rest: Seq<char>)
    requires
        rest.len() > 0,
        rest.last() != '/',
    ensures
        ws_url_of("https://"@ + rest) == "wss://"@ + rest + "/ws"@,
        ws_url_of("http://"@ + rest) == "ws://"@ + rest + "/ws"@,
        ws_url_of("https://"@ + rest + "/"@) == ws_url_of("https://"@ + rest),
        ws_url_of("http://"@ + rest + "/"@) == ws_url_of("http://"@ + rest),
{
    reveal_strlit("https://");
    reveal_strlit("http://");
    reveal_strlit("/");
    let s = "https://"@ + rest;
    let p = "http://"@ + rest;
    assert(trim_end_char(s, '/') == s);
    assert(trim_end_char(p, '/') == p);
    assert((s + "/"@).drop_last() =~= s);
    assert((p + "/"@).drop_last() =~= p);
    assert(s.subrange(0, 8) =~= "https://"@);
    assert(p.subrange(0, 7) =~= "http://"@);
    assert(s.skip(8) =~= rest);
    assert(p.skip(7) =~= rest);
    assert(!"https://"@.is_prefix_of(p)) by {
        if "https://"@.is_prefix_of(p) {
            assert(p.subrange(0, 8)[4] == p[4]);
            assert("https://"@[4] == 's' && p[4] == ':');
        }
    }
}

/// Every separator makes a dash, and capitals count as small letters.
pub proof fn labels_fold_separators_and_case(out: Seq<char>, c: char, d: char)
    requires
        c == ' ' || c == '_' || c == '-' || c == '.',
        d == ' ' || d == '_' || d == '-' || d == '.',
    ensures
        label_step(out, c) == label_step(out, d),
        out.len() > 0 && out.last() != '-' ==> label_step(out, c) == out.push('-'),
        forall|l: char|
            'A' <= l <= 'Z' ==> #[trigger] label_step(out, l) == label_step(out, lower_char(l)),
{
}

} // verus!
