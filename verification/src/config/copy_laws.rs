//! What copies of a configuration, and descriptions of its keys, say.
use vstd::prelude::*;
use crate::config::agent::{AgentConfig, AgentForwardAcl};
use crate::config::keys::{Flag, Key, Number, Toggle};
use crate::config::org::OrgEntry;
use crate::config::surface::{ConfigEntry, describes, rendered, setting};

verus! {

/// A copy of an entry is the entry: every part of it is the same.
pub proof fn copied_entries_are_the_same(a: OrgEntry, b: OrgEntry)
    requires
        a.alike(b),
    ensures
        b.label == a.label,
        b.server_url == a.server_url,
        b.ws_url == a.ws_url,
        b.agent_token == a.agent_token,
        b.agent_id == a.agent_id,
        b.tenant_id == a.tenant_id,
        b.enabled == a.enabled,
        b.overlay_mode == a.overlay_mode,
        b.overlay_wg_secret_key == a.overlay_wg_secret_key,
        b.overlay_wg_key_epoch == a.overlay_wg_key_epoch,
        b.overlay_advertised_routes@ == a.overlay_advertised_routes@,
        b.overlay_exit_node_enabled == a.overlay_exit_node_enabled,
        b.advertise_routes@ == a.advertise_routes@,
        b.netstack_socks_port == a.netstack_socks_port,
{
}

spec fn only_lists_differ(a: AgentConfig, b: AgentConfig) -> bool {
    b == (AgentConfig {
        ssh_authorized_keys: b.ssh_authorized_keys,
        overlay_advertised_routes: b.overlay_advertised_routes,
        advertise_routes: b.advertise_routes,
        tunnel_routes: b.tunnel_routes,
        orgs: b.orgs,
        forward_acl: b.forward_acl,
        ..a
    })
}

proof fn lemma_same_flag(a: AgentConfig, b: AgentConfig, x: Flag)
    requires
        only_lists_differ(a, b),
    ensures
        x.get(a) == x.get(b),
{
}

proof fn lemma_same_toggle(a: AgentConfig, b: AgentConfig, x: Toggle)
    requires
        only_lists_differ(a, b),
    ensures
        x.get(a) == x.get(b),
{
}

proof fn lemma_same_number(a: AgentConfig, b: AgentConfig, x: Number)
    requires
        only_lists_differ(a, b),
    ensures
        x.get(a) == x.get(b),
{
}

/// A copy of a configuration holds what it holds under every key, and is
/// enrolled where it is.
pub proof fn copies_hold_the_same(a: AgentConfig, b: AgentConfig, key: Key)
    requires
        a.alike(b),
    ensures
        setting(a, key) == setting(b, key),
        b.server_url == a.server_url,
        b.ws_url == a.ws_url,
        b.agent_token == a.agent_token,
        b.agent_id == a.agent_id,
        b.tenant_id == a.tenant_id,
        b.machine_id == a.machine_id,
        b.machine_name == a.machine_name,
        b.tunnel_routes@ == a.tunnel_routes@,
        b.orgs@.len() == a.orgs@.len(),
        forall|i: int| 0 <= i < a.orgs@.len() ==> #[trigger] a.orgs@[i].alike(b.orgs@[i]),
{
    assert(only_lists_differ(a, b));
    match key {
        Key::Flag(x) => lemma_same_flag(a, b, x),
        Key::Toggle(x) => lemma_same_toggle(a, b, x),
        Key::Number(x) => lemma_same_number(a, b, x),
        _ => {},
    }
}

/// Copied rules for forwarding are on where they were, and list what they
/// listed; rules that nobody set are on and list nothing.
pub proof fn copied_rules_are_the_same(a: AgentForwardAcl, b: AgentForwardAcl)
    ensures
        a.alike(b) <==> a.enabled == b.enabled && a.allowlist@ == b.allowlist@,
        a.is_default() <==> a.enabled && a.allowlist@.len() == 0,
{
}

/// What is shown of a key is its name, its value as a client reads it, its
/// editor and what it does; a change waits for the next start.
pub proof fn entries_describe_their_key(e: ConfigEntry, cfg: AgentConfig, key: Key)
    requires
        describes(e, cfg, key),
    ensures
        e.key@ == key.spec_name()@,
        e.value is Some <==> rendered(key, setting(cfg, key)) is Some,
        e.value matches Some(v) ==> rendered(key, setting(cfg, key)) == Some(v@),
        e.kind@ == key.spec_kind()@,
        e.description@ == key.spec_description()@,
        e.restart_required,
{
}

} // verus!
