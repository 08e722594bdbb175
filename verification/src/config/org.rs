//! Secondary enrollments: one device, several organisations.
use vstd::prelude::*;
use crate::config::agent::{take, AgentConfig};
use crate::text::{
    cat2,
    cat3,
    copy_list,
    copy_opt,
    lower,
    lower_char,
    lowered,
    opt_view,
    same,
    stripped,
    trim,
    trim_end_char,
    trim_start_char,
    trimmed,
    trimmed_end_char,
};

verus! {

/// How an organisation joins the overlay mesh.
#[derive(Debug, Clone, Copy, PartialEq, Eq, Structural)]
pub enum OrgOverlayMode {
    /// It does not join.
    Off,
    /// A userspace stack: no TUN device, no OS routes.
    Netstack,
    /// Full presence on the OS TUN device.
    Tun,
}

impl Default for OrgOverlayMode {
    fn default() -> (r: Self)
        ensures
            r == OrgOverlayMode::Off,
    {
        OrgOverlayMode::Off
    }
}

/// One secondary enrollment.
#[derive(Debug)]
pub struct OrgEntry {
    /// Operator-facing slug, unique among entries and never the reserved
    /// primary label.
    pub label: String,
    /// Base URL of this org's Roomler API.
    pub server_url: String,
    /// Derived WSS URL; recomputed from `server_url` if absent.
    pub ws_url: Option<String>,
    /// This org's long-lived agent JWT.
    pub agent_token: String,
    /// This org's server-assigned agent id.
    pub agent_id: String,
    /// This org's tenant id.
    pub tenant_id: String,
    /// A disabled org keeps its enrollment but gets no supervised loop.
    pub enabled: bool,
    /// How this org joins the overlay.
    pub overlay_mode: OrgOverlayMode,
    /// This org's own WireGuard secret; never another org's.
    pub overlay_wg_secret_key: Option<String>,
    /// This org's key epoch.
    pub overlay_wg_key_epoch: u32,
    /// CIDRs offered to this org's overlay peers.
    pub overlay_advertised_routes: Vec<String>,
    /// Whether the device offers itself to this org as an exit node.
    pub overlay_exit_node_enabled: bool,
    /// CIDRs advertised to this org's tunnel mesh.
    pub advertise_routes: Vec<String>,
    /// This org's own loopback SOCKS5 port for netstack mode.
    pub netstack_socks_port: Option<u16>,
}

impl OrgEntry {
    /// The same values throughout, the lists by their elements.
    pub open spec fn alike(self, other: OrgEntry) -> bool {
        &&& other == (OrgEntry {
            overlay_advertised_routes: other.overlay_advertised_routes,
            advertise_routes: other.advertise_routes,
            ..self
        })
        &&& self.overlay_advertised_routes@ == other.overlay_advertised_routes@
        &&& self.advertise_routes@ == other.advertise_routes@
    }

    /// A copy of the entry.
    pub fn copied(&self) -> (r: OrgEntry)
        ensures
            self.alike(r),
    {
        OrgEntry {
            label: self.label.clone(),
            server_url: self.server_url.clone(),
            ws_url: copy_opt(&self.ws_url),
            agent_token: self.agent_token.clone(),
            agent_id: self.agent_id.clone(),
            tenant_id: self.tenant_id.clone(),
            enabled: self.enabled,
            overlay_mode: self.overlay_mode,
            overlay_wg_secret_key: copy_opt(&self.overlay_wg_secret_key),
            overlay_wg_key_epoch: self.overlay_wg_key_epoch,
            overlay_advertised_routes: copy_list(&self.overlay_advertised_routes),
            overlay_exit_node_enabled: self.overlay_exit_node_enabled,
            advertise_routes: copy_list(&self.advertise_routes),
            netstack_socks_port: self.netstack_socks_port,
        }
    }
}

impl Clone for OrgEntry {
    fn clone(&self) -> (r: Self)
        ensures
            self.alike(r),
    {
        self.copied()
    }
}

/// The same entries in the same order.
pub open spec fn orgs_alike(a: Seq<OrgEntry>, b: Seq<OrgEntry>) -> bool {
    &&& a.len() == b.len()
    &&& forall|i: int| 0 <= i < a.len() ==> #[trigger] a[i].alike(b[i])
}

/// A copy of an org table.
pub fn copy_orgs(list: &Vec<OrgEntry>) -> (r: Vec<OrgEntry>)
    ensures
        orgs_alike(list@, r@),
{
    let mut out: Vec<OrgEntry> = Vec::new();
    let mut i: usize = 0;
    while i < list.len()
        invariant
            i <= list@.len(),
            out@.len() == i,
            forall|j: int| 0 <= j < i ==> #[trigger] list@[j].alike(out@[j]),
        decreases list@.len() - i,
    {
        out.push(list[i].copied());
        i = i + 1;
    }
    out
}


/// The reserved label of the primary identity.
pub const PRIMARY_ORG_LABEL: &'static str = "primary";

/// The one spelling of a mode.
pub open spec fn mode_text(m: OrgOverlayMode) -> Seq<char> {
    match m {
        OrgOverlayMode::Off => "off"@,
        OrgOverlayMode::Netstack => "netstack"@,
        OrgOverlayMode::Tun => "tun"@,
    }
}

/// The mode that an operator's word names, in any case and with white space
/// around it; nothing else is a mode.
pub open spec fn mode_named(s: Seq<char>) -> Option<OrgOverlayMode> {
    let w = lower(trim(s));
    if w == "off"@ {
        Some(OrgOverlayMode::Off)
    } else if w == "netstack"@ {
        Some(OrgOverlayMode::Netstack)
    } else if w == "tun"@ {
        Some(OrgOverlayMode::Tun)
    } else {
        None
    }
}

impl OrgOverlayMode {
    /// The one spelling of the mode.
    pub fn wire(self) -> (r: &'static str)
        ensures
            r@ == mode_text(self),
    {
        match self {
            OrgOverlayMode::Off => "off",
            OrgOverlayMode::Netstack => "netstack",
            OrgOverlayMode::Tun => "tun",
        }
    }

    /// Parses an operator-supplied mode. There is no fallback.
    pub fn parse(s: &str) -> (r: Option<OrgOverlayMode>)
        ensures
            r == mode_named(s@),
    {
        let w: String = lowered(trimmed(s));
        if same(w.as_str(), "off") {
            Some(OrgOverlayMode::Off)
        } else if same(w.as_str(), "netstack") {
            Some(OrgOverlayMode::Netstack)
        } else if same(w.as_str(), "tun") {
            Some(OrgOverlayMode::Tun)
        } else {
            None
        }
    }
}

/// The signaling URL of a server: `https` becomes `wss`, `http` becomes `ws`,
/// trailing slashes go, and `/ws` follows.
pub open spec fn ws_url_of(http_url: Seq<char>) -> Seq<char> {
    let base = trim_end_char(http_url, '/');
    let ws = if "https://"@.is_prefix_of(base) {
        "wss://"@ + base.skip("https://"@.len() as int)
    } else if "http://"@.is_prefix_of(base) {
        "ws://"@ + base.skip("http://"@.len() as int)
    } else {
        base
    };
    ws + "/ws"@
}

/// The signaling URL of a server.
pub fn derive_ws_url(http_url: &str) -> (r: String)
    ensures
        r@ == ws_url_of(http_url@),
{
    let base: &str = trimmed_end_char(http_url, '/');
    match stripped(base, "https://") {
        Some(rest) => cat3("wss://", rest, "/ws"),
        None => match stripped(base, "http://") {
            Some(rest) => cat3("ws://", rest, "/ws"),
            None => cat2(base, "/ws"),
        },
    }
}

impl OrgEntry {
    /// The org's signaling URL: the pinned one, else derived from the server.
    pub fn ws_url(&self) -> (r: String)
        ensures
            r@ == match self.ws_url {
                Some(u) => u@,
                None => ws_url_of(self.server_url@),
            },
    {
        match &self.ws_url {
            Some(u) => u.clone(),
            None => derive_ws_url(self.server_url.as_str()),
        }
    }
}

/// `a`–`z` or `0`–`9`.
pub open spec fn label_char(c: char) -> bool {
    'a' <= c <= 'z' || '0' <= c <= '9'
}

/// A character that a label turns into a dash.
pub open spec fn dash_char(c: char) -> bool {
    c == ' ' || c == '_' || c == '-' || c == '.'
}

/// A label under construction after one more character: letters and digits
/// stay, separators become single inner dashes, everything else goes.
pub open spec fn label_step(out: Seq<char>, c: char) -> Seq<char> {
    let l = lower_char(c);
    if label_char(l) {
        out.push(l)
    } else if dash_char(l) && out.len() > 0 && out.last() != '-' {
        out.push('-')
    } else {
        out
    }
}

/// The label built from the characters of `s`, at most 32 of them.
pub open spec fn label_built(s: Seq<char>) -> Seq<char>
    decreases s.len(),
{
    if s.len() == 0 {
        seq![]
    } else {
        let out = label_built(s.drop_last());
        if out.len() >= 32 {
            out
        } else {
            label_step(out, s.last())
        }
    }
}

/// `s` without the dashes at either end.
pub open spec fn undashed(s: Seq<char>) -> Seq<char> {
    trim_end_char(trim_start_char(s, '-'), '-')
}

/// The label that a text is normalised to; `None` where nothing valid is left
/// or the result is the reserved label.
pub open spec fn org_label(raw: Seq<char>) -> Option<Seq<char>> {
    let out = undashed(label_built(trim(raw)));
    if out.len() == 0 || out == PRIMARY_ORG_LABEL@ {
        None
    } else {
        Some(out)
    }
}

/// What a label looks like: one to 32 lower-case letters, digits and single
/// inner dashes, and not the reserved label.
pub open spec fn valid_label(l: Seq<char>) -> bool {
    &&& 1 <= l.len() <= 32
    &&& forall|i: int| 0 <= i < l.len() ==> label_char(#[trigger] l[i]) || l[i] == '-'
    &&& l[0] != '-'
    &&& l.last() != '-'
    &&& forall|i: int| 0 < i < l.len() && #[trigger] l[i] == '-' ==> l[i - 1] != '-'
    &&& l != PRIMARY_ORG_LABEL@
}

proof fn lemma_trim_end_char_is(s: Seq<char>, c: char, k: int)
    requires
        0 <= k <= s.len(),
        k > 0 ==> s[k - 1] != c,
        forall|i: int| k <= i < s.len() ==> s[i] == c,
    ensures
        trim_end_char(s, c) == s.take(k),
    decreases s.len() - k,
{
    if k == s.len() {
        assert(s.take(k) =~= s);
    } else {
        lemma_trim_end_char_is(s.drop_last(), c, k);
        assert(s.drop_last().take(k) =~= s.take(k));
    }
}

/// The shape of a label under construction.
spec fn label_shape(out: Seq<char>) -> bool {
    &&& out.len() <= 32
    &&& forall|i: int| 0 <= i < out.len() ==> label_char(#[trigger] out[i]) || out[i] == '-'
    &&& out.len() > 0 ==> out[0] != '-'
    &&& forall|i: int| 0 < i < out.len() && #[trigger] out[i] == '-' ==> out[i - 1] != '-'
}

proof fn lemma_label_shape(s: Seq<char>)
    ensures
        label_shape(label_built(s)),
    decreases s.len(),
{
    if s.len() > 0 {
        lemma_label_shape(s.drop_last());
    }
}

proof fn lemma_undashed(out: Seq<char>)
    requires
        label_shape(out),
    ensures
        undashed(out) == if out.len() > 0 && out.last() == '-' {
            out.drop_last()
        } else {
            out
        },
{
    assert(trim_start_char(out, '-') == out);
    if out.len() > 0 && out.last() == '-' {
        assert(out.len() > 1);
        assert(out[out.len() - 2] != '-');
        lemma_trim_end_char_is(out, '-', out.len() - 1);
        assert(out.take(out.len() - 1) =~= out.drop_last());
    } else {
        lemma_trim_end_char_is(out, '-', out.len() as int);
        assert(out.take(out.len() as int) =~= out);
    }
}

/// Every normalised label has the shape of a label.
pub proof fn normalised_labels_are_valid(raw: Seq<char>)
    ensures
        org_label(raw) matches Some(l) ==> valid_label(l),
{
    let out = label_built(trim(raw));
    lemma_label_shape(trim(raw));
    lemma_undashed(out);
}

proof fn lemma_label_keeps(l: Seq<char>, k: int)
    requires
        valid_label(l),
        0 <= k <= l.len(),
    ensures
        label_built(l.take(k)) == l.take(k),
    decreases k,
{
    if k > 0 {
        lemma_label_keeps(l, k - 1);
        assert(l.take(k).drop_last() =~= l.take(k - 1));
        assert(l.take(k).last() == l[k - 1]);
        assert(lower_char(l[k - 1]) == l[k - 1]);
        assert(l.take(k - 1).push(l[k - 1]) =~= l.take(k));
        if k > 1 {
            assert(l.take(k - 1).last() == l[k - 2]);
        }
    } else {
        assert(l.take(0) =~= seq![]);
    }
}

/// A label is its own normal form.
pub proof fn valid_labels_stay(l: Seq<char>)
    requires
        valid_label(l),
    ensures
        org_label(l) == Some(l),
{
    lemma_label_keeps(l, l.len() as int);
    assert(l.take(l.len() as int) =~= l);
    assert(!crate::text::is_space(l[0])) by {
        assert(label_char(l[0]) || l[0] == '-');
    }
    assert(!crate::text::is_space(l.last())) by {
        assert(label_char(l[l.len() - 1]) || l[l.len() - 1] == '-');
    }
    crate::text::lemma_trim_start_is(l, 0);
    assert(l.skip(0) =~= l);
    crate::text::lemma_trim_end_is(l, l.len() as int);
    lemma_label_shape(l);
    lemma_undashed(l);
}

/// Normalising a second time changes nothing.
pub proof fn normalising_settles(raw: Seq<char>)
    ensures
        org_label(raw) matches Some(l) ==> org_label(l) == Some(l),
{
    normalised_labels_are_valid(raw);
    if let Some(l) = org_label(raw) {
        valid_labels_stay(l);
    }
}

/// Normalises an operator-supplied org label: lower case, separators to
/// single dashes, everything else stripped, at most 32 characters. `None`
/// where nothing valid is left or the result is the reserved label.
pub fn sanitize_org_label(raw: &str) -> (r: Option<String>)
    ensures
        opt_view(r) == org_label(raw@),
{
    let t: &str = trimmed(raw);
    let cs: Vec<char> = crate::text::chars(t);
    let mut out: Vec<char> = Vec::new();
    let mut i: usize = 0;
    proof {
        assert(cs@.take(0) =~= seq![]);
    }
    while i < cs.len()
        invariant
            i <= cs@.len(),
            out@ == label_built(cs@.take(i as int)),
        decreases cs@.len() - i,
    {
        proof {
            assert(cs@.take(i + 1).drop_last() =~= cs@.take(i as int));
            assert(cs@.take(i + 1).last() == cs@[i as int]);
        }
        if out.len() < 32 {
            let c: char = crate::text::fold(cs[i]);
            if ('a' <= c && c <= 'z') || ('0' <= c && c <= '9') {
                out.push(c);
            } else if (c == ' ' || c == '_' || c == '-' || c == '.') && out.len() > 0 && out[out.len()
                - 1] != '-' {
                out.push('-');
            }
        }
        i = i + 1;
    }
    proof {
        assert(cs@.take(cs@.len() as int) =~= cs@);
        lemma_label_shape(cs@);
        lemma_undashed(out@);
    }
    let n: usize = if out.len() > 0 && out[out.len() - 1] == '-' {
        out.len() - 1
    } else {
        out.len()
    };
    let label: String = crate::text::string_of(&out, 0, n);
    proof {
        assert(out@.subrange(0, n as int) =~= undashed(out@));
    }
    if n == 0 || same(label.as_str(), PRIMARY_ORG_LABEL) {
        None
    } else {
        Some(label)
    }
}

/// The entries that are enabled, in order.
pub open spec fn enabled_orgs(orgs: Seq<OrgEntry>) -> Seq<OrgEntry>
    decreases orgs.len(),
{
    if orgs.len() == 0 {
        seq![]
    } else if orgs.last().enabled {
        enabled_orgs(orgs.drop_last()).push(orgs.last())
    } else {
        enabled_orgs(orgs.drop_last())
    }
}

/// The position of the first entry with a label, or the length.
pub open spec fn org_index(orgs: Seq<OrgEntry>, label: Seq<char>) -> int
    decreases orgs.len(),
{
    if orgs.len() == 0 || orgs[0].label@ == label {
        0
    } else {
        1 + org_index(orgs.drop_first(), label)
    }
}

/// `org_index` is the first position that holds the label.
pub proof fn lemma_org_index_is(orgs: Seq<OrgEntry>, label: Seq<char>, k: int)
    requires
        0 <= k <= orgs.len(),
        k < orgs.len() ==> orgs[k].label@ == label,
        forall|i: int| 0 <= i < k ==> (#[trigger] orgs[i]).label@ != label,
    ensures
        org_index(orgs, label) == k,
    decreases k,
{
    if k > 0 {
        assert(orgs[0].label@ != label);
        let rest = orgs.drop_first();
        assert forall|i: int| 0 <= i < k - 1 implies (#[trigger] rest[i]).label@ != label by {
            assert(rest[i] == orgs[i + 1]);
        }
        lemma_org_index_is(rest, label, k - 1);
    }
}

/// The enrollment identity of an entry is (`server`, `tenant`).
pub open spec fn has_identity(o: OrgEntry, server: Seq<char>, tenant: Seq<char>) -> bool {
    o.server_url@ == server && o.tenant_id@ == tenant
}

/// The position of the first entry with an identity, or the length.
pub open spec fn identity_index(orgs: Seq<OrgEntry>, server: Seq<char>, tenant: Seq<char>) -> int
    decreases orgs.len(),
{
    if orgs.len() == 0 || has_identity(orgs[0], server, tenant) {
        0
    } else {
        1 + identity_index(orgs.drop_first(), server, tenant)
    }
}

/// `identity_index` is the first position that holds the identity.
pub proof fn lemma_identity_index_is(
    orgs: Seq<OrgEntry>,
    server: Seq<char>,
    tenant: Seq<char>,
    k: int,
)
    requires
        0 <= k <= orgs.len(),
        k < orgs.len() ==> has_identity(orgs[k], server, tenant),
        forall|i: int| 0 <= i < k ==> !has_identity(#[trigger] orgs[i], server, tenant),
    ensures
        identity_index(orgs, server, tenant) == k,
    decreases k,
{
    if k > 0 {
        assert(!has_identity(orgs[0], server, tenant));
        let rest = orgs.drop_first();
        assert forall|i: int| 0 <= i < k - 1 implies !has_identity(
            #[trigger] rest[i],
            server,
            tenant,
        ) by {
            assert(rest[i] == orgs[i + 1]);
        }
        lemma_identity_index_is(rest, server, tenant, k - 1);
    }
}

/// The position of the first entry with a label.
pub(crate) fn position_by_label(orgs: &Vec<OrgEntry>, label: &str) -> (r: Option<usize>)
    ensures
        match r {
            Some(i) => i == org_index(orgs@, label@) && i < orgs@.len() && orgs@[i as int].label@
                == label@,
            None => org_index(orgs@, label@) == orgs@.len() && forall|i: int|
                0 <= i < orgs@.len() ==> (#[trigger] orgs@[i]).label@ != label@,
        },
{
    let mut i: usize = 0;
    while i < orgs.len()
        invariant
            i <= orgs@.len(),
            forall|j: int| 0 <= j < i ==> (#[trigger] orgs@[j]).label@ != label@,
        decreases orgs@.len() - i,
    {
        if same(orgs[i].label.as_str(), label) {
            proof {
                lemma_org_index_is(orgs@, label@, i as int);
            }
            return Some(i);
        }
        i = i + 1;
    }
    proof {
        lemma_org_index_is(orgs@, label@, i as int);
    }
    None
}

/// The position of the first entry with an identity.
pub(crate) fn position_by_identity(orgs: &Vec<OrgEntry>, server: &str, tenant: &str) -> (r: Option<
    usize,
>)
    ensures
        match r {
            Some(i) => i == identity_index(orgs@, server@, tenant@) && i < orgs@.len()
                && has_identity(orgs@[i as int], server@, tenant@),
            None => identity_index(orgs@, server@, tenant@) == orgs@.len() && forall|i: int|
                0 <= i < orgs@.len() ==> !has_identity(#[trigger] orgs@[i], server@, tenant@),
        },
{
    let mut i: usize = 0;
    while i < orgs.len()
        invariant
            i <= orgs@.len(),
            forall|j: int| 0 <= j < i ==> !has_identity(#[trigger] orgs@[j], server@, tenant@),
        decreases orgs@.len() - i,
    {
        if same(orgs[i].server_url.as_str(), server) && same(orgs[i].tenant_id.as_str(), tenant) {
            proof {
                lemma_identity_index_is(orgs@, server@, tenant@, i as int);
            }
            return Some(i);
        }
        i = i + 1;
    }
    proof {
        lemma_identity_index_is(orgs@, server@, tenant@, i as int);
    }
    None
}

/// The (server, tenant) pair is the primary enrollment of `cfg`.
pub open spec fn primary_identity(cfg: AgentConfig, server: Seq<char>, tenant: Seq<char>) -> bool {
    cfg.server_url@ == server && cfg.tenant_id@ == tenant
}

/// The overlay of a secondary is on: the operator opted in, the entry asks
/// for `tun`, both enrollments share a server, and the org has its own key.
pub open spec fn secondary_overlay(cfg: AgentConfig, org: OrgEntry) -> bool {
    &&& cfg.overlay_multi_org
    &&& org.overlay_mode == OrgOverlayMode::Tun
    &&& org.server_url@ == cfg.server_url@
    &&& org.overlay_wg_secret_key is Some
}

/// `r` is the configuration that the supervisor of `org` runs with: machine
/// identity and operator knobs of `cfg`, enrollment identity and org-scoped
/// fields of `org`, no exit-node role, no declared routes, no org table.
pub open spec fn org_view(cfg: AgentConfig, org: OrgEntry, r: AgentConfig) -> bool {
    &&& r == (AgentConfig {
        server_url: org.server_url,
        ws_url: org.ws_url,
        agent_token: org.agent_token,
        agent_id: org.agent_id,
        tenant_id: org.tenant_id,
        overlay_enabled: secondary_overlay(cfg, org),
        overlay_wg_secret_key: org.overlay_wg_secret_key,
        overlay_wg_key_epoch: org.overlay_wg_key_epoch,
        overlay_advertised_routes: r.overlay_advertised_routes,
        overlay_exit_node_enabled: false,
        overlay_exit_node: None,
        advertise_routes: r.advertise_routes,
        netstack_socks_port: org.netstack_socks_port,
        derived_org: true,
        tunnel_routes: r.tunnel_routes,
        orgs: r.orgs,
        ssh_authorized_keys: r.ssh_authorized_keys,
        forward_acl: r.forward_acl,
        ..cfg
    })
    &&& r.overlay_advertised_routes@ == org.overlay_advertised_routes@
    &&& r.advertise_routes@ == org.advertise_routes@
    &&& r.tunnel_routes@.len() == 0
    &&& r.orgs@.len() == 0
    &&& r.ssh_authorized_keys@ == cfg.ssh_authorized_keys@
    &&& cfg.forward_acl.alike(r.forward_acl)
}

impl AgentConfig {
    /// The signaling URL: the pinned one, else derived from the server.
    pub fn ws_url(&self) -> (r: String)
        ensures
            r@ == match self.ws_url {
                Some(u) => u@,
                None => ws_url_of(self.server_url@),
            },
    {
        match &self.ws_url {
            Some(u) => u.clone(),
            None => derive_ws_url(self.server_url.as_str()),
        }
    }

    /// The enabled secondary enrollments, in config order.
    pub fn enabled_secondary_orgs(&self) -> (r: Vec<&OrgEntry>)
        ensures
            r@.map_values(|o: &OrgEntry| *o) == enabled_orgs(self.orgs@),
            r@.map_values(|o: &OrgEntry| *o) == self.orgs@.filter(|o: OrgEntry| o.enabled),
            forall|i: int| 0 <= i < r@.len() ==> (#[trigger] r@[i]).enabled,
    {
        let mut out: Vec<&OrgEntry> = Vec::new();
        let mut i: usize = 0;
        proof {
            assert(self.orgs@.take(0) =~= seq![]);
        }
        while i < self.orgs.len()
            invariant
                i <= self.orgs@.len(),
                out@.map_values(|o: &OrgEntry| *o) == enabled_orgs(self.orgs@.take(i as int)),
                forall|j: int| 0 <= j < out@.len() ==> (#[trigger] out@[j]).enabled,
            decreases self.orgs@.len() - i,
        {
            proof {
                assert(self.orgs@.take(i + 1).drop_last() =~= self.orgs@.take(i as int));
                assert(self.orgs@.take(i + 1).last() == self.orgs@[i as int]);
            }
            if self.orgs[i].enabled {
                let ghost was = out@;
                out.push(&self.orgs[i]);
                proof {
                    assert(out@.map_values(|o: &OrgEntry| *o) =~= was.map_values(
                        |o: &OrgEntry| *o,
                    ).push(self.orgs@[i as int]));
                }
            }
            i = i + 1;
        }
        proof {
            assert(self.orgs@.take(self.orgs@.len() as int) =~= self.orgs@);
            crate::config::org_laws::enabled_entries_run(self.orgs@);
        }
        out
    }

    /// The primary's overlay participation, in the words of a secondary's
    /// `overlay_mode`.
    pub fn primary_overlay_mode(&self) -> (r: OrgOverlayMode)
        ensures
            r == if !self.overlay_enabled {
                OrgOverlayMode::Off
            } else if self.netstack_socks_port is Some {
                OrgOverlayMode::Netstack
            } else {
                OrgOverlayMode::Tun
            },
    {
        if !self.overlay_enabled {
            OrgOverlayMode::Off
        } else if self.netstack_socks_port.is_some() {
            OrgOverlayMode::Netstack
        } else {
            OrgOverlayMode::Tun
        }
    }

    /// The first secondary with a label (case-sensitive).
    pub fn find_org(&self, label: &str) -> (r: Option<&OrgEntry>)
        ensures
            match r {
                Some(o) => org_index(self.orgs@, label@) < self.orgs@.len() && *o
                    == self.orgs@[org_index(self.orgs@, label@)] && o.label@ == label@,
                None => forall|i: int|
                    0 <= i < self.orgs@.len() ==> (#[trigger] self.orgs@[i]).label@ != label@,
            },
    {
        match position_by_label(&self.orgs, label) {
            Some(i) => Some(&self.orgs[i]),
            None => None,
        }
    }

    /// The first secondary with an enrollment identity, to be changed in place;
    /// nothing else changes.
    pub fn find_org_by_identity_mut(&mut self, server_url: &str, tenant_id: &str) -> (r: Option<
        &mut OrgEntry,
    >)
        ensures
            match r {
                Some(o) => {
                    let i = identity_index(old(self).orgs@, server_url@, tenant_id@);
                    &&& 0 <= i < old(self).orgs@.len()
                    &&& *o == old(self).orgs@[i]
                    &&& has_identity(*o, server_url@, tenant_id@)
                    &&& final(self).orgs@ == old(self).orgs@.update(i, *final(o))
                    &&& *final(self) == (AgentConfig { orgs: final(self).orgs, ..*old(self) })
                },
                None => *final(self) == *old(self) && forall|i: int|
                    0 <= i < old(self).orgs@.len() ==> !has_identity(
                        #[trigger] old(self).orgs@[i],
                        server_url@,
                        tenant_id@,
                    ),
            },
    {
        match position_by_identity(&self.orgs, server_url, tenant_id) {
            Some(i) => Some(&mut self.orgs[i]),
            None => None,
        }
    }

    /// Whether the (server, tenant) pair is the primary enrollment.
    pub fn is_primary_identity(&self, server_url: &str, tenant_id: &str) -> (r: bool)
        ensures
            r == primary_identity(*self, server_url@, tenant_id@),
    {
        same(self.server_url.as_str(), server_url) && same(self.tenant_id.as_str(), tenant_id)
    }

    /// The configuration that an org supervisor runs with.
    pub fn for_org(&self, org: &OrgEntry) -> (r: AgentConfig)
        ensures
            org_view(*self, *org, r),
    {
        let overlay: bool = self.overlay_multi_org && org.overlay_mode == OrgOverlayMode::Tun
            && same(org.server_url.as_str(), self.server_url.as_str())
            && org.overlay_wg_secret_key.is_some();
        let base: AgentConfig = self.copied();
        AgentConfig {
            server_url: org.server_url.clone(),
            ws_url: copy_opt(&org.ws_url),
            agent_token: org.agent_token.clone(),
            agent_id: org.agent_id.clone(),
            tenant_id: org.tenant_id.clone(),
            overlay_enabled: overlay,
            overlay_wg_secret_key: copy_opt(&org.overlay_wg_secret_key),
            overlay_wg_key_epoch: org.overlay_wg_key_epoch,
            overlay_advertised_routes: copy_list(&org.overlay_advertised_routes),
            overlay_exit_node_enabled: false,
            overlay_exit_node: None,
            advertise_routes: copy_list(&org.advertise_routes),
            netstack_socks_port: org.netstack_socks_port,
            derived_org: true,
            tunnel_routes: Vec::new(),
            orgs: Vec::new(),
            ..base
        }
    }
}

} // verus!
