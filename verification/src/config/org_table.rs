//! The table of secondary enrollments: which entries can run, what is wrong
//! with the others, and the swap of a secondary into the primary slot.
use vstd::prelude::*;
use crate::config::agent::{take, AgentConfig};
use crate::config::org::{
    has_identity,
    org_index,
    org_label,
    position_by_label,
    primary_identity,
    sanitize_org_label,
    OrgEntry,
    OrgOverlayMode,
    PRIMARY_ORG_LABEL,
};
use crate::text::{cat2, cat3, copy_list, debug_form, quoted, same, views};

verus! {

/// The label of the entry is its own normal form.
pub open spec fn label_ok(o: OrgEntry) -> bool {
    org_label(o.label@) == Some(o.label@)
}

/// An earlier entry has the same label.
pub open spec fn label_taken(orgs: Seq<OrgEntry>, i: int) -> bool {
    exists|j: int| 0 <= j < i && (#[trigger] orgs[j]).label@ == orgs[i].label@
}

/// The entry has the identity of the primary.
pub open spec fn is_primary(cfg: AgentConfig, o: OrgEntry) -> bool {
    primary_identity(cfg, o.server_url@, o.tenant_id@)
}

/// An earlier entry has the same identity.
pub open spec fn identity_taken(orgs: Seq<OrgEntry>, i: int) -> bool {
    exists|j: int|
        0 <= j < i && has_identity(#[trigger] orgs[j], orgs[i].server_url@, orgs[i].tenant_id@)
}

/// An earlier entry that keeps its label has the same identity.
pub open spec fn identity_claimed(orgs: Seq<OrgEntry>, i: int) -> bool {
    exists|j: int|
        0 <= j < i && has_identity(#[trigger] orgs[j], orgs[i].server_url@, orgs[i].tenant_id@)
            && label_ok(orgs[j]) && !label_taken(orgs, j)
}

/// Why the entry at `i` cannot run; `None` where it can.
pub open spec fn run_problem(cfg: AgentConfig, i: int) -> Option<Seq<char>> {
    let o = cfg.orgs@[i];
    if !label_ok(o) {
        Some("invalid org label "@ + debug_form(o.label@))
    } else if label_taken(cfg.orgs@, i) {
        Some("duplicate org label "@ + debug_form(o.label@))
    } else if is_primary(cfg, o) {
        Some("duplicates the primary enrollment"@)
    } else if identity_claimed(cfg.orgs@, i) {
        Some("duplicates another entry's (server, tenant) pair"@)
    } else {
        None
    }
}

/// Everything that is wrong with the entry at `i`.
pub open spec fn entry_problems(cfg: AgentConfig, i: int) -> Seq<Seq<char>> {
    let o = cfg.orgs@[i];
    let label = if label_ok(o) {
        seq![]
    } else {
        seq![
            "org label "@ + debug_form(o.label@)
                + " is invalid (lowercase alphanumeric + dashes, not "@ + debug_form(
                PRIMARY_ORG_LABEL@,
            ) + ")"@,
        ]
    };
    let taken = if label_taken(cfg.orgs@, i) {
        seq!["duplicate org label "@ + debug_form(o.label@)]
    } else {
        seq![]
    };
    let identity = if is_primary(cfg, o) {
        seq![
            "org "@ + debug_form(o.label@) + " duplicates the primary enrollment ("@
                + o.server_url@ + " / tenant "@ + o.tenant_id@ + ")"@,
        ]
    } else if identity_taken(cfg.orgs@, i) {
        seq![
            "org "@ + debug_form(o.label@) + " duplicates another entry's (server, tenant) pair"@,
        ]
    } else {
        seq![]
    };
    label + taken + identity
}

/// Everything that is wrong with the first `n` entries, in order.
pub open spec fn org_problems(cfg: AgentConfig, n: int) -> Seq<Seq<char>>
    decreases n,
{
    if n <= 0 {
        seq![]
    } else {
        org_problems(cfg, n - 1) + entry_problems(cfg, n - 1)
    }
}

fn earlier_label(orgs: &Vec<OrgEntry>, i: usize) -> (r: bool)
    requires
        i < orgs@.len(),
    ensures
        r == label_taken(orgs@, i as int),
{
    let mut j: usize = 0;
    while j < i
        invariant
            j <= i < orgs@.len(),
            forall|k: int| 0 <= k < j ==> (#[trigger] orgs@[k]).label@ != orgs@[i as int].label@,
        decreases i - j,
    {
        if same(orgs[j].label.as_str(), orgs[i].label.as_str()) {
            return true;
        }
        j = j + 1;
    }
    false
}

fn earlier_identity(orgs: &Vec<OrgEntry>, i: usize) -> (r: bool)
    requires
        i < orgs@.len(),
    ensures
        r == identity_taken(orgs@, i as int),
{
    let mut j: usize = 0;
    while j < i
        invariant
            j <= i < orgs@.len(),
            forall|k: int|
                0 <= k < j ==> !has_identity(
                    #[trigger] orgs@[k],
                    orgs@[i as int].server_url@,
                    orgs@[i as int].tenant_id@,
                ),
        decreases i - j,
    {
        if same(orgs[j].server_url.as_str(), orgs[i].server_url.as_str()) && same(
            orgs[j].tenant_id.as_str(),
            orgs[i].tenant_id.as_str(),
        ) {
            proof {
                assert(has_identity(
                    orgs@[j as int],
                    orgs@[i as int].server_url@,
                    orgs@[i as int].tenant_id@,
                ));
            }
            return true;
        }
        j = j + 1;
    }
    false
}

fn own_label(o: &OrgEntry) -> (r: bool)
    ensures
        r == label_ok(*o),
{
    match sanitize_org_label(o.label.as_str()) {
        Some(l) => same(l.as_str(), o.label.as_str()),
        None => false,
    }
}

fn earlier_claim(orgs: &Vec<OrgEntry>, i: usize) -> (r: bool)
    requires
        i < orgs@.len(),
    ensures
        r == identity_claimed(orgs@, i as int),
{
    let mut j: usize = 0;
    while j < i
        invariant
            j <= i < orgs@.len(),
            forall|k: int|
                0 <= k < j ==> !(has_identity(
                    #[trigger] orgs@[k],
                    orgs@[i as int].server_url@,
                    orgs@[i as int].tenant_id@,
                ) && label_ok(orgs@[k]) && !label_taken(orgs@, k)),
        decreases i - j,
    {
        if same(orgs[j].server_url.as_str(), orgs[i].server_url.as_str()) && same(
            orgs[j].tenant_id.as_str(),
            orgs[i].tenant_id.as_str(),
        ) && own_label(&orgs[j]) && !earlier_label(orgs, j) {
            proof {
                assert(has_identity(
                    orgs@[j as int],
                    orgs@[i as int].server_url@,
                    orgs@[i as int].tenant_id@,
                ));
            }
            return true;
        }
        j = j + 1;
    }
    false
}

/// The entry and its problem stand in for the one at `i`.
pub open spec fn partitioned(cfg: AgentConfig, i: int, item: (OrgEntry, Option<String>)) -> bool {
    &&& cfg.orgs@[i].alike(item.0)
    &&& crate::text::opt_view(item.1) == run_problem(cfg, i)
}

impl AgentConfig {
    fn problem_at(&self, i: usize) -> (r: Option<String>)
        requires
            i < self.orgs@.len(),
        ensures
            crate::text::opt_view(r) == run_problem(*self, i as int),
    {
        let o: &OrgEntry = &self.orgs[i];
        if !own_label(o) {
            let q: String = quoted(o.label.as_str());
            Some(cat2("invalid org label ", q.as_str()))
        } else if earlier_label(&self.orgs, i) {
            let q: String = quoted(o.label.as_str());
            Some(cat2("duplicate org label ", q.as_str()))
        } else if self.is_primary_identity(o.server_url.as_str(), o.tenant_id.as_str()) {
            Some("duplicates the primary enrollment".to_owned())
        } else if earlier_claim(&self.orgs, i) {
            Some("duplicates another entry's (server, tenant) pair".to_owned())
        } else {
            None
        }
    }

    /// Each entry of the org table with `None` where it can run, or the reason
    /// why it cannot.
    pub fn partition_runnable_orgs(&self) -> (r: Vec<(OrgEntry, Option<String>)>)
        ensures
            r@.len() == self.orgs@.len(),
            forall|i: int| 0 <= i < r@.len() ==> partitioned(*self, i, #[trigger] r@[i]),
    {
        let mut out: Vec<(OrgEntry, Option<String>)> = Vec::new();
        let mut i: usize = 0;
        while i < self.orgs.len()
            invariant
                i <= self.orgs@.len(),
                out@.len() == i,
                forall|j: int| 0 <= j < i ==> partitioned(*self, j, #[trigger] out@[j]),
            decreases self.orgs@.len() - i,
        {
            out.push((self.orgs[i].copied(), self.problem_at(i)));
            i = i + 1;
        }
        out
    }

    fn problems_at(&self, i: usize) -> (r: Vec<String>)
        requires
            i < self.orgs@.len(),
        ensures
            views(r@) == entry_problems(*self, i as int),
    {
        let o: &OrgEntry = &self.orgs[i];
        let q: String = quoted(o.label.as_str());
        let mut out: Vec<String> = Vec::new();
        if !own_label(o) {
            let p: String = quoted(PRIMARY_ORG_LABEL);
            let mut m: String = cat3(
                "org label ",
                q.as_str(),
                " is invalid (lowercase alphanumeric + dashes, not ",
            );
            m.append(p.as_str());
            m.append(")");
            out.push(m);
        }
        let ghost first = views(out@);
        if earlier_label(&self.orgs, i) {
            out.push(cat2("duplicate org label ", q.as_str()));
        }
        let ghost second = views(out@);
        if self.is_primary_identity(o.server_url.as_str(), o.tenant_id.as_str()) {
            let mut m: String = cat3(
                "org ",
                q.as_str(),
                " duplicates the primary enrollment (",
            );
            m.append(o.server_url.as_str());
            m.append(" / tenant ");
            m.append(o.tenant_id.as_str());
            m.append(")");
            out.push(m);
        } else if earlier_identity(&self.orgs, i) {
            out.push(
                cat3("org ", q.as_str(), " duplicates another entry's (server, tenant) pair"),
            );
        }
        proof {
            assert(views(out@) =~= entry_problems(*self, i as int));
        }
        out
    }

    /// Everything that is wrong with the org table, in words.
    pub fn validate_orgs(&self) -> (r: Vec<String>)
        ensures
            views(r@) == org_problems(*self, self.orgs@.len() as int),
    {
        let mut out: Vec<String> = Vec::new();
        let mut i: usize = 0;
        proof {
            assert(views(out@) =~= seq![]);
        }
        while i < self.orgs.len()
            invariant
                i <= self.orgs@.len(),
                views(out@) == org_problems(*self, i as int),
            decreases self.orgs@.len() - i,
        {
            let more: Vec<String> = self.problems_at(i);
            let ghost was = out@;
            let mut k: usize = 0;
            while k < more.len()
                invariant
                    k <= more@.len(),
                    out@ == was + more@.take(k as int),
                decreases more@.len() - k,
            {
                out.push(more[k].clone());
                proof {
                    assert(out@ =~= was + more@.take(k + 1));
                }
                k = k + 1;
            }
            proof {
                assert(more@.take(more@.len() as int) =~= more@);
                assert(views(out@) =~= views(was) + views(more@));
            }
            i = i + 1;
        }
        out
    }

    /// The CIDRs advertised on the overlay: the configured ones, and the
    /// default route last where the node is an exit node and does not list it.
    pub fn effective_overlay_advertised_routes(&self) -> (r: Vec<String>)
        ensures
            views(r@) == effective_routes(
                views(self.overlay_advertised_routes@),
                self.overlay_exit_node_enabled,
            ),
    {
        let mut routes: Vec<String> = copy_list(&self.overlay_advertised_routes);
        if self.overlay_exit_node_enabled {
            let mut i: usize = 0;
            while i < routes.len()
                invariant
                    i <= routes@.len(),
                    routes@ == self.overlay_advertised_routes@,
                    self.overlay_exit_node_enabled,
                    forall|j: int| 0 <= j < i ==> (#[trigger] routes@[j])@ != DEFAULT_ROUTE@,
                decreases routes@.len() - i,
            {
                if same(routes[i].as_str(), DEFAULT_ROUTE) {
                    proof {
                        assert(views(routes@)[i as int] == DEFAULT_ROUTE@);
                    }
                    return routes;
                }
                i = i + 1;
            }
            proof {
                if views(routes@).contains(DEFAULT_ROUTE@) {
                    let j = choose|j: int|
                        0 <= j < views(routes@).len() && views(routes@)[j] == DEFAULT_ROUTE@;
                    assert(routes@[j]@ == DEFAULT_ROUTE@);
                }
            }
            let ghost was = routes@;
            routes.push(DEFAULT_ROUTE.to_owned());
            proof {
                assert(views(routes@) =~= views(was).push(DEFAULT_ROUTE@));
            }
        }
        routes
    }

    /// The port that the in-process SSH server intercepts; a configured zero
    /// counts as unset.
    pub fn effective_ssh_port(&self) -> (r: u16)
        ensures
            r == match self.ssh_port {
                Some(p) => if p == 0 {
                    DEFAULT_SSH_PORT
                } else {
                    p
                },
                None => DEFAULT_SSH_PORT,
            },
    {
        match self.ssh_port {
            Some(p) => if p == 0 {
                DEFAULT_SSH_PORT
            } else {
                p
            },
            None => DEFAULT_SSH_PORT,
        }
    }
}

/// The route to everywhere, which an exit node advertises.
pub const DEFAULT_ROUTE: &'static str = "0.0.0.0/0";

/// The intercepted SSH port where none is configured.
pub const DEFAULT_SSH_PORT: u16 = 2222;

/// The configured routes, and the default route last where the node is an
/// exit node and does not list it.
pub open spec fn effective_routes(routes: Seq<Seq<char>>, exit_node: bool) -> Seq<Seq<char>> {
    if exit_node && !routes.contains(DEFAULT_ROUTE@) {
        routes.push(DEFAULT_ROUTE@)
    } else {
        routes
    }
}

/// The table has no problem exactly where every entry can run.
pub proof fn valid_table_runs(cfg: AgentConfig)
    ensures
        org_problems(cfg, cfg.orgs@.len() as int).len() == 0 <==> forall|i: int|
            0 <= i < cfg.orgs@.len() ==> #[trigger] run_problem(cfg, i) is None,
{
    let n = cfg.orgs@.len() as int;
    if org_problems(cfg, n).len() == 0 {
        assert forall|i: int| 0 <= i < n implies #[trigger] run_problem(cfg, i) is None by {
            lemma_no_problem_before(cfg, n, i);
            if identity_claimed(cfg.orgs@, i) {
                let o = cfg.orgs@[i];
                let j = choose|j: int|
                    0 <= j < i && has_identity(#[trigger] cfg.orgs@[j], o.server_url@, o.tenant_id@)
                        && label_ok(cfg.orgs@[j]) && !label_taken(cfg.orgs@, j);
                assert(has_identity(cfg.orgs@[j], o.server_url@, o.tenant_id@));
            }
        }
    }
    if forall|i: int| 0 <= i < n ==> #[trigger] run_problem(cfg, i) is None {
        lemma_runnable_has_no_problem(cfg, n);
    }
}

proof fn lemma_no_problem_before(cfg: AgentConfig, n: int, i: int)
    requires
        0 <= i < n,
        org_problems(cfg, n).len() == 0,
    ensures
        entry_problems(cfg, i).len() == 0,
        label_ok(cfg.orgs@[i]),
        !label_taken(cfg.orgs@, i),
        !is_primary(cfg, cfg.orgs@[i]),
        !identity_taken(cfg.orgs@, i),
    decreases n,
{
    assert(org_problems(cfg, n - 1).len() == 0);
    if i < n - 1 {
        lemma_no_problem_before(cfg, n - 1, i);
    }
}

proof fn lemma_runnable_has_no_problem(cfg: AgentConfig, n: int)
    requires
        0 <= n <= cfg.orgs@.len(),
        forall|i: int| 0 <= i < n ==> #[trigger] run_problem(cfg, i) is None,
    ensures
        org_problems(cfg, n).len() == 0,
    decreases n,
{
    if n > 0 {
        lemma_runnable_has_no_problem(cfg, n - 1);
        let i = n - 1;
        assert(run_problem(cfg, i) is None);
        if identity_taken(cfg.orgs@, i) {
            let o = cfg.orgs@[i];
            let j = choose|j: int|
                0 <= j < i && has_identity(#[trigger] cfg.orgs@[j], o.server_url@, o.tenant_id@);
            assert(run_problem(cfg, j) is None);
            assert(identity_claimed(cfg.orgs@, i));
        }
    }
}

/// The runnable entries have distinct labels and distinct identities, and
/// none has the identity of the primary.
pub proof fn runnable_entries_are_distinct(cfg: AgentConfig, i: int, j: int)
    requires
        0 <= j < i < cfg.orgs@.len(),
        run_problem(cfg, i) is None,
        run_problem(cfg, j) is None,
    ensures
        cfg.orgs@[i].label@ != cfg.orgs@[j].label@,
        !has_identity(cfg.orgs@[j], cfg.orgs@[i].server_url@, cfg.orgs@[i].tenant_id@),
        !is_primary(cfg, cfg.orgs@[i]),
{
    assert(!label_taken(cfg.orgs@, i));
    assert(!identity_claimed(cfg.orgs@, i));
}

/// `new` is `old` with the entry at `at` swapped into the primary slot: the
/// enrollment and its org-scoped fields move up, the former primary takes the
/// entry's place under the entry's label, parked with its overlay off.
pub open spec fn promoted(old: AgentConfig, at: int, new: AgentConfig) -> bool {
    let entry = old.orgs@[at];
    &&& new == (AgentConfig {
        server_url: entry.server_url,
        ws_url: entry.ws_url,
        agent_token: entry.agent_token,
        agent_id: entry.agent_id,
        tenant_id: entry.tenant_id,
        overlay_wg_secret_key: entry.overlay_wg_secret_key,
        overlay_wg_key_epoch: entry.overlay_wg_key_epoch,
        overlay_advertised_routes: entry.overlay_advertised_routes,
        overlay_exit_node_enabled: entry.overlay_exit_node_enabled,
        overlay_exit_node: None,
        advertise_routes: entry.advertise_routes,
        overlay_enabled: false,
        orgs: new.orgs,
        ..old
    })
    &&& new.orgs@ == old.orgs@.update(at, demoted(old, entry))
}

/// The former primary as an entry in the place of `entry`.
pub open spec fn demoted(old: AgentConfig, entry: OrgEntry) -> OrgEntry {
    OrgEntry {
        label: entry.label,
        server_url: old.server_url,
        ws_url: old.ws_url,
        agent_token: old.agent_token,
        agent_id: old.agent_id,
        tenant_id: old.tenant_id,
        enabled: true,
        overlay_mode: OrgOverlayMode::Off,
        overlay_wg_secret_key: old.overlay_wg_secret_key,
        overlay_wg_key_epoch: old.overlay_wg_key_epoch,
        overlay_advertised_routes: old.overlay_advertised_routes,
        overlay_exit_node_enabled: old.overlay_exit_node_enabled,
        advertise_routes: old.advertise_routes,
        netstack_socks_port: entry.netstack_socks_port,
    }
}

fn with_promoted(cfg: AgentConfig, at: usize) -> (r: AgentConfig)
    requires
        at < cfg.orgs@.len(),
    ensures
        promoted(cfg, at as int, r),
{
    let mut orgs: Vec<OrgEntry> = cfg.orgs;
    let entry: OrgEntry = orgs.remove(at);
    let parked: OrgEntry = OrgEntry {
        label: entry.label,
        server_url: cfg.server_url,
        ws_url: cfg.ws_url,
        agent_token: cfg.agent_token,
        agent_id: cfg.agent_id,
        tenant_id: cfg.tenant_id,
        enabled: true,
        overlay_mode: OrgOverlayMode::Off,
        overlay_wg_secret_key: cfg.overlay_wg_secret_key,
        overlay_wg_key_epoch: cfg.overlay_wg_key_epoch,
        overlay_advertised_routes: cfg.overlay_advertised_routes,
        overlay_exit_node_enabled: cfg.overlay_exit_node_enabled,
        advertise_routes: cfg.advertise_routes,
        netstack_socks_port: entry.netstack_socks_port,
    };
    orgs.insert(at, parked);
    proof {
        assert(orgs@ =~= cfg.orgs@.update(at as int, demoted(cfg, cfg.orgs@[at as int])));
    }
    AgentConfig {
        server_url: entry.server_url,
        ws_url: entry.ws_url,
        agent_token: entry.agent_token,
        agent_id: entry.agent_id,
        tenant_id: entry.tenant_id,
        overlay_wg_secret_key: entry.overlay_wg_secret_key,
        overlay_wg_key_epoch: entry.overlay_wg_key_epoch,
        overlay_advertised_routes: entry.overlay_advertised_routes,
        overlay_exit_node_enabled: entry.overlay_exit_node_enabled,
        overlay_exit_node: None,
        advertise_routes: entry.advertise_routes,
        overlay_enabled: false,
        orgs,
        ..cfg
    }
}

/// Swaps the secondary with a label into the primary slot; an error, and no
/// change, where no entry has the label.
pub fn promote_org_to_primary(cfg: &mut AgentConfig, label: &str) -> (r: Result<(), String>)
    ensures
        ({
            let at = org_index(old(cfg).orgs@, label@);
            if at < old(cfg).orgs@.len() {
                r is Ok && promoted(*old(cfg), at, *final(cfg))
            } else {
                &&& r matches Err(e)
                &&& e@ == "no org labelled "@ + debug_form(label@)
                    + " \u{2014} see `roomlerd org ls`"@
                &&& *final(cfg) == *old(cfg)
            }
        }),
{
    match position_by_label(&cfg.orgs, label) {
        None => {
            let q: String = quoted(label);
            Err(cat3("no org labelled ", q.as_str(), " \u{2014} see `roomlerd org ls`"))
        },
        Some(at) => {
            let taken: AgentConfig = take(cfg);
            *cfg = with_promoted(taken, at);
            Ok(())
        },
    }
}

/// Promoting the same entry twice gives the primary its enrollment back: the
/// identity and the org-scoped fields return, with the overlay off and no
/// exit node in use.
pub proof fn promoting_twice_restores(
    cfg: AgentConfig,
    at: int,
    once: AgentConfig,
    twice: AgentConfig,
)
    requires
        0 <= at < cfg.orgs@.len(),
        promoted(cfg, at, once),
        promoted(once, at, twice),
    ensures
        twice == (AgentConfig {
            overlay_enabled: false,
            overlay_exit_node: None,
            orgs: twice.orgs,
            ..cfg
        }),
        twice.orgs@ == cfg.orgs@.update(
            at,
            OrgEntry { enabled: true, overlay_mode: OrgOverlayMode::Off, ..cfg.orgs@[at] },
        ),
{
}

/// The overlay of a secondary never runs on the primary's key, and the exit
/// roles stay with the primary.
pub proof fn secondary_never_borrows(cfg: AgentConfig, org: OrgEntry, view: AgentConfig)
    requires
        crate::config::org::org_view(cfg, org, view),
    ensures
        view.overlay_wg_secret_key == org.overlay_wg_secret_key,
        view.overlay_enabled ==> cfg.overlay_multi_org && org.overlay_mode == OrgOverlayMode::Tun
            && org.server_url@ == cfg.server_url@ && view.overlay_wg_secret_key is Some,
        !view.overlay_exit_node_enabled,
        view.overlay_exit_node is None,
        view.machine_id == cfg.machine_id,
        view.machine_name == cfg.machine_name,
{
}

} // verus!
