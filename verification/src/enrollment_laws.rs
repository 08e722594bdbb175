//! What holds of every enrollment.
use vstd::prelude::*;
use crate::config::agent::AgentConfig;
use crate::config::org::{
    has_identity,
    normalised_labels_are_valid,
    primary_identity,
    valid_label,
    valid_labels_stay,
};
use crate::config::org::OrgEntry;
use crate::config::org_table::{
    entry_problems, identity_taken, is_primary, label_ok, label_taken, org_problems,
};
use crate::enrollment::{
    appended_org,
    chosen_label,
    first_free,
    host_label,
    label_free,
    numbered,
    preserved,
    replaced,
    without_identity,
};

verus! {

proof fn lemma_first_free(orgs: Seq<OrgEntry>, base: Seq<char>, n: nat)
    ensures
        first_free(orgs, base, n) matches Some(l) ==> label_free(orgs, l),
    decreases 100 - n,
{
    if n < 100 && !label_free(orgs, numbered(base, n)) {
        lemma_first_free(orgs, base, n + 1);
    }
}

/// The label of a new secondary is not in use, and a requested one has the
/// shape of a label.
pub proof fn chosen_label_is_free(
    orgs: Seq<OrgEntry>,
    requested: Option<Seq<char>>,
    server_url: Seq<char>,
)
    ensures
        chosen_label(orgs, requested, server_url) matches Ok(l) ==> label_free(orgs, l) && (
        requested is Some ==> valid_label(l)),
{
    lemma_first_free(orgs, host_label(server_url), 2);
    if let Some(raw) = requested {
        normalised_labels_are_valid(raw);
    }
}

/// Appending a secondary leaves the primary and every other entry as they
/// were.
pub proof fn appending_spares_the_rest(
    fresh: AgentConfig,
    existing: AgentConfig,
    label: Seq<char>,
    minted: Option<String>,
    r: AgentConfig,
)
    requires
        appended_org(fresh, existing, label, minted, r),
    ensures
        r.server_url == existing.server_url,
        r.agent_token == existing.agent_token,
        r.agent_id == existing.agent_id,
        r.tenant_id == existing.tenant_id,
        r.machine_name == existing.machine_name,
        r.overlay_wg_secret_key == existing.overlay_wg_secret_key,
        r.orgs@.last().overlay_wg_secret_key == minted,
        forall|i: int| 0 <= i < existing.orgs@.len() ==> r.orgs@[i] == #[trigger] existing.orgs@[i],
{
    assert forall|i: int| 0 <= i < existing.orgs@.len() implies r.orgs@[i]
        == #[trigger] existing.orgs@[i] by {
        assert(r.orgs@.drop_last()[i] == r.orgs@[i]);
    }
}

proof fn lemma_problems_of_prefix(a: AgentConfig, b: AgentConfig, n: int)
    requires
        0 <= n <= a.orgs@.len() <= b.orgs@.len(),
        a.server_url == b.server_url,
        a.tenant_id == b.tenant_id,
        forall|i: int| 0 <= i < a.orgs@.len() ==> b.orgs@[i] == #[trigger] a.orgs@[i],
    ensures
        org_problems(a, n) == org_problems(b, n),
    decreases n,
{
    if n > 0 {
        lemma_problems_of_prefix(a, b, n - 1);
        let i = n - 1;
        assert(b.orgs@[i] == a.orgs@[i]);
        assert(label_taken(a.orgs@, i) == label_taken(b.orgs@, i)) by {
            if label_taken(a.orgs@, i) {
                let j = choose|j: int|
                    0 <= j < i && (#[trigger] a.orgs@[j]).label@ == a.orgs@[i].label@;
                assert(b.orgs@[j] == a.orgs@[j]);
            }
            if label_taken(b.orgs@, i) {
                let j = choose|j: int|
                    0 <= j < i && (#[trigger] b.orgs@[j]).label@ == b.orgs@[i].label@;
                assert(b.orgs@[j] == a.orgs@[j]);
            }
        }
        let o = a.orgs@[i];
        assert(identity_taken(a.orgs@, i) == identity_taken(b.orgs@, i)) by {
            if identity_taken(a.orgs@, i) {
                let j = choose|j: int|
                    0 <= j < i && has_identity(#[trigger] a.orgs@[j], o.server_url@, o.tenant_id@);
                assert(has_identity(b.orgs@[j], o.server_url@, o.tenant_id@));
            }
            if identity_taken(b.orgs@, i) {
                let j = choose|j: int|
                    0 <= j < i && has_identity(#[trigger] b.orgs@[j], o.server_url@, o.tenant_id@);
                assert(has_identity(a.orgs@[j], o.server_url@, o.tenant_id@));
            }
        }
        assert(entry_problems(a, i) =~= entry_problems(b, i));
    }
}

/// Appending a secondary with a label of the right shape keeps the org table
/// free of problems.
pub proof fn appending_keeps_the_table_valid(
    fresh: AgentConfig,
    existing: AgentConfig,
    label: Seq<char>,
    minted: Option<String>,
    r: AgentConfig,
)
    requires
        appended_org(fresh, existing, label, minted, r),
        org_problems(existing, existing.orgs@.len() as int).len() == 0,
        label_free(existing.orgs@, label),
        valid_label(label),
        !primary_identity(existing, fresh.server_url@, fresh.tenant_id@),
        forall|i: int|
            0 <= i < existing.orgs@.len() ==> !has_identity(
                #[trigger] existing.orgs@[i],
                fresh.server_url@,
                fresh.tenant_id@,
            ),
    ensures
        org_problems(r, r.orgs@.len() as int).len() == 0,
{
    appending_spares_the_rest(fresh, existing, label, minted, r);
    let n = existing.orgs@.len() as int;
    lemma_problems_of_prefix(existing, r, n);
    valid_labels_stay(label);
    let o = r.orgs@[n];
    assert(o == r.orgs@.last());
    assert(label_ok(o));
    assert(!label_taken(r.orgs@, n)) by {
        if label_taken(r.orgs@, n) {
            let j = choose|j: int| 0 <= j < n && (#[trigger] r.orgs@[j]).label@ == o.label@;
            assert(r.orgs@[j] == existing.orgs@[j]);
        }
    }
    assert(!identity_taken(r.orgs@, n)) by {
        if identity_taken(r.orgs@, n) {
            let j = choose|j: int|
                0 <= j < n && has_identity(#[trigger] r.orgs@[j], o.server_url@, o.tenant_id@);
            assert(has_identity(existing.orgs@[j], fresh.server_url@, fresh.tenant_id@));
        }
    }
    assert(entry_problems(r, n) =~= seq![]);
    assert(org_problems(r, n + 1) == org_problems(r, n) + entry_problems(r, n));
}

/// Enrolling opens no device: a fresh configuration has every gate shut, and
/// enrolling again opens none that was shut.
pub proof fn enrolling_opens_nothing(fresh: AgentConfig, existing: AgentConfig)
    requires
        fresh.is_blank(),
    ensures
        !fresh.exec_enabled && !fresh.ssh_enabled && !fresh.remote_config_enabled
            && !fresh.overlay_enabled,
        preserved(fresh, existing).exec_enabled == existing.exec_enabled,
        preserved(fresh, existing).ssh_enabled == existing.ssh_enabled,
        preserved(fresh, existing).remote_config_enabled == existing.remote_config_enabled,
        preserved(fresh, existing).overlay_enabled == existing.overlay_enabled,
        preserved(fresh, existing).overlay_wg_secret_key == existing.overlay_wg_secret_key,
        preserved(fresh, existing).tunnel_routes == existing.tunnel_routes,
        preserved(fresh, existing).forward_acl == existing.forward_acl,
        preserved(fresh, existing).orgs == existing.orgs,
{
}

proof fn lemma_without_identity(
    orgs: Seq<OrgEntry>,
    server: Seq<char>,
    tenant: Seq<char>,
    i: int,
)
    requires
        0 <= i < without_identity(orgs, server, tenant).len(),
    ensures
        !has_identity(without_identity(orgs, server, tenant)[i], server, tenant),
    decreases orgs.len(),
{
    if orgs.len() > 0 {
        let rest = without_identity(orgs.drop_last(), server, tenant);
        if i < rest.len() {
            lemma_without_identity(orgs.drop_last(), server, tenant, i);
        }
    }
}

/// After a forced rebind no secondary duplicates the new primary.
pub proof fn replacing_leaves_no_duplicate(
    fresh: AgentConfig,
    existing: AgentConfig,
    r: AgentConfig,
    i: int,
)
    requires
        replaced(fresh, existing, r),
        0 <= i < r.orgs@.len(),
    ensures
        !is_primary(r, r.orgs@[i]),
{
    lemma_without_identity(existing.orgs@, fresh.server_url@, fresh.tenant_id@, i);
}

} // verus!
