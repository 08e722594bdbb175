//! The config surface: the curated, secret-free slice of [`AgentConfig`] that
//! clients read and edit by key.
//!
//! Values travel as strings: flags as `"true"`/`"false"`, lists
//! comma-separated, structured keys as JSON documents. Secrets, identity, the
//! declared routes, the org table and the crash bookkeeping have no key here.
use vstd::prelude::*;
use crate::config::agent::{
    take, AgentConfig, AgentForwardAcl, EncoderPreferenceChoice, VirtualDesktopAppsConfig,
    BUILT_IN_APPS,
};
use crate::config::echo::lemma_tight;
use crate::config::keys::{
    key_at, key_named, spec_key_at, Flag, Key, Number, Toggle, KEY_COUNT,
};
use crate::json;
use crate::num::{decimal, parse_unsigned, parse_up_to, to_decimal};
use crate::text;
use crate::text::{
    cat2, cat3, comma_items, comma_list, copy_opt, debug_form, given, given_text, joined, lower,
    lowered, opt_str, opt_view, quoted, same, trim, trimmed, views,
};

verus! {

/// The largest `overlay_direct_port` base whose public-dial band still fits
/// under 65535.
pub const MAX_OVERLAY_DIRECT_PORT_BASE: u32 = 64_759;

/// One editable key with its current value.
#[derive(Debug)]
pub struct ConfigEntry {
    /// The key.
    pub key: String,
    /// Its current value; `None` where it is unset.
    pub value: Option<String>,
    /// Which editor a client shows.
    pub kind: String,
    /// Whether a change waits for the next start of the daemon.
    pub restart_required: bool,
    /// What the key does.
    pub description: String,
}

/// The value of a key.
pub enum Setting {
    /// A plain on/off value.
    Flag(bool),
    /// On, off, or unset.
    Toggle(Option<bool>),
    /// A number, or unset.
    Number(Option<u32>),
    /// A port, or unset.
    Port(Option<u16>),
    /// A text, or unset.
    Text(Option<Seq<char>>),
    /// A word out of a fixed set.
    Word(Seq<char>),
    /// A list of texts.
    List(Seq<Seq<char>>),
    /// An encoder choice.
    Encoder(EncoderPreferenceChoice),
    /// A forward allowlist: its switch and its rules.
    Acl(bool, Seq<Seq<char>>),
    /// A JSON document.
    Document(Seq<char>),
}

/// The value that `cfg` holds for a key.
pub open spec fn setting(cfg: AgentConfig, key: Key) -> Setting {
    match key {
        Key::Flag(f) => Setting::Flag(f.get(cfg)),
        Key::Toggle(t) => Setting::Toggle(t.get(cfg)),
        Key::Number(n) => Setting::Number(n.get(cfg)),
        Key::OverlayAdvertisedRoutes => Setting::List(views(cfg.overlay_advertised_routes@)),
        Key::OverlayExitNode => Setting::Text(opt_view(cfg.overlay_exit_node)),
        Key::AdvertiseRoutes => Setting::List(views(cfg.advertise_routes@)),
        Key::PowerPolicy => Setting::Word(cfg.power_policy@),
        Key::SshPort => Setting::Port(cfg.ssh_port),
        Key::SshAuthorizedKeys => Setting::List(views(cfg.ssh_authorized_keys@)),
        Key::SshAccountMode => Setting::Text(opt_view(cfg.ssh_account_mode)),
        Key::SshMaxPrivilege => Setting::Text(opt_view(cfg.ssh_max_privilege)),
        Key::EncoderPreference => Setting::Encoder(cfg.encoder_preference),
        Key::OverlayPathmon => Setting::Text(opt_view(cfg.overlay_pathmon)),
        Key::OverlayDemote => Setting::Text(opt_view(cfg.overlay_demote)),
        Key::OverlayRpf => Setting::Text(opt_view(cfg.overlay_rpf)),
        Key::NetstackSocksPort => Setting::Port(cfg.netstack_socks_port),
        Key::IceFollowRenomination => Setting::Toggle(cfg.ice_follow_renomination),
        Key::ForwardAcl => Setting::Acl(
            cfg.forward_acl.enabled,
            views(cfg.forward_acl.allowlist@),
        ),
        Key::VirtualDesktopApps => Setting::Document(cfg.virtual_desktop_apps.document@),
    }
}

/// `new` is `old` with the field that `key` names holding `s`; every other
/// field is as it was.
pub open spec fn updated(old: AgentConfig, key: Key, s: Setting, new: AgentConfig) -> bool {
    match key {
        Key::Flag(f) => s matches Setting::Flag(b) && new == f.put(old, b),
        Key::Toggle(t) => s matches Setting::Toggle(b) && new == t.put(old, b),
        Key::Number(n) => s matches Setting::Number(x) && new == n.put(old, x),
        Key::OverlayAdvertisedRoutes => {
            &&& new == (AgentConfig { overlay_advertised_routes: new.overlay_advertised_routes, ..old })
            &&& s == Setting::List(views(new.overlay_advertised_routes@))
        },
        Key::OverlayExitNode => {
            &&& new == (AgentConfig { overlay_exit_node: new.overlay_exit_node, ..old })
            &&& s == Setting::Text(opt_view(new.overlay_exit_node))
        },
        Key::AdvertiseRoutes => {
            &&& new == (AgentConfig { advertise_routes: new.advertise_routes, ..old })
            &&& s == Setting::List(views(new.advertise_routes@))
        },
        Key::PowerPolicy => {
            &&& new == (AgentConfig { power_policy: new.power_policy, ..old })
            &&& s == Setting::Word(new.power_policy@)
        },
        Key::SshPort => {
            &&& new == (AgentConfig { ssh_port: new.ssh_port, ..old })
            &&& s == Setting::Port(new.ssh_port)
        },
        Key::SshAuthorizedKeys => {
            &&& new == (AgentConfig { ssh_authorized_keys: new.ssh_authorized_keys, ..old })
            &&& s == Setting::List(views(new.ssh_authorized_keys@))
        },
        Key::SshAccountMode => {
            &&& new == (AgentConfig { ssh_account_mode: new.ssh_account_mode, ..old })
            &&& s == Setting::Text(opt_view(new.ssh_account_mode))
        },
        Key::SshMaxPrivilege => {
            &&& new == (AgentConfig { ssh_max_privilege: new.ssh_max_privilege, ..old })
            &&& s == Setting::Text(opt_view(new.ssh_max_privilege))
        },
        Key::EncoderPreference => {
            &&& new == (AgentConfig { encoder_preference: new.encoder_preference, ..old })
            &&& s == Setting::Encoder(new.encoder_preference)
        },
        Key::OverlayPathmon => {
            &&& new == (AgentConfig { overlay_pathmon: new.overlay_pathmon, ..old })
            &&& s == Setting::Text(opt_view(new.overlay_pathmon))
        },
        Key::OverlayDemote => {
            &&& new == (AgentConfig { overlay_demote: new.overlay_demote, ..old })
            &&& s == Setting::Text(opt_view(new.overlay_demote))
        },
        Key::OverlayRpf => {
            &&& new == (AgentConfig { overlay_rpf: new.overlay_rpf, ..old })
            &&& s == Setting::Text(opt_view(new.overlay_rpf))
        },
        Key::NetstackSocksPort => {
            &&& new == (AgentConfig { netstack_socks_port: new.netstack_socks_port, ..old })
            &&& s == Setting::Port(new.netstack_socks_port)
        },
        Key::IceFollowRenomination => {
            &&& new == (AgentConfig { ice_follow_renomination: new.ice_follow_renomination, ..old })
            &&& s == Setting::Toggle(new.ice_follow_renomination)
        },
        Key::ForwardAcl => {
            &&& new == (AgentConfig { forward_acl: new.forward_acl, ..old })
            &&& s == Setting::Acl(new.forward_acl.enabled, views(new.forward_acl.allowlist@))
        },
        Key::VirtualDesktopApps => {
            &&& new == (AgentConfig { virtual_desktop_apps: new.virtual_desktop_apps, ..old })
            &&& s == Setting::Document(new.virtual_desktop_apps.document@)
        },
    }
}

/// How a value is shown; `None` where it is unset.
pub open spec fn rendered(key: Key, s: Setting) -> Option<Seq<char>> {
    match s {
        Setting::Flag(b) => Some(bool_text(b)),
        Setting::Toggle(None) => None,
        Setting::Toggle(Some(b)) => if key == Key::IceFollowRenomination {
            Some(
                if b {
                    "always"@
                } else {
                    "never"@
                },
            )
        } else {
            Some(bool_text(b))
        },
        Setting::Number(None) => None,
        Setting::Number(Some(n)) => Some(decimal(n as nat)),
        Setting::Port(None) => None,
        Setting::Port(Some(n)) => Some(decimal(n as nat)),
        Setting::Text(t) => t,
        Setting::Word(w) => Some(
            if w.len() == 0 {
                "never"@
            } else {
                w
            },
        ),
        Setting::List(l) => Some(text::join(l, ',')),
        Setting::Encoder(e) => Some(encoder_text(e)),
        Setting::Acl(on, rules) => Some(acl_text(on, rules)),
        Setting::Document(d) => Some(d),
    }
}

/// `true` or `false`.
pub open spec fn bool_text(b: bool) -> Seq<char> {
    if b {
        "true"@
    } else {
        "false"@
    }
}

/// The word for an encoder choice.
pub open spec fn encoder_text(e: EncoderPreferenceChoice) -> Seq<char> {
    match e {
        EncoderPreferenceChoice::Auto => "auto"@,
        EncoderPreferenceChoice::Hardware => "hardware"@,
        EncoderPreferenceChoice::Software => "software"@,
    }
}

/// The compact JSON document of a forward allowlist.
pub open spec fn acl_text(on: bool, rules: Seq<Seq<char>>) -> Seq<char> {
    "{\"enabled\":"@ + bool_text(on) + ",\"allowlist\":["@ + text::join(rules, ',') + "]}"@
}

/// What a flag's text says: `true`/`1`/`yes`/`on`, or `false`/`0`/`no`/`off`.
pub open spec fn bool_parsed(v: Seq<char>) -> Result<bool, Seq<char>> {
    let w = lower(trim(v));
    if w == "true"@ || w == "1"@ || w == "yes"@ || w == "on"@ {
        Ok(true)
    } else if w == "false"@ || w == "0"@ || w == "no"@ || w == "off"@ {
        Ok(false)
    } else {
        Err("expected true/false (got "@ + debug_form(w) + ")"@)
    }
}

/// A flag's value; nothing given means `unset`.
pub open spec fn bool_or_parsed(v: Option<Seq<char>>, unset: bool) -> Result<bool, Seq<char>> {
    match given(v) {
        None => Ok(unset),
        Some(t) => bool_parsed(t),
    }
}

/// A switch's value; nothing given means unset.
pub open spec fn tribool_parsed(v: Option<Seq<char>>) -> Result<Option<bool>, Seq<char>> {
    match given(v) {
        None => Ok(None),
        Some(t) => match bool_parsed(t) {
            Ok(b) => Ok(Some(b)),
            Err(e) => Err(e),
        },
    }
}

/// The complaint about a text that is no number.
pub open spec fn not_a_number(key: Seq<char>, v: Seq<char>) -> Seq<char> {
    key + " must be a number (got "@ + debug_form(v) + ")"@
}

/// The complaint about a number outside of `lo..=hi`.
pub open spec fn not_between(key: Seq<char>, lo: u32, hi: u32) -> Seq<char> {
    key + " must be between "@ + decimal(lo as nat) + " and "@ + decimal(hi as nat)
}

/// A number within `lo..=hi`; nothing given means unset.
pub open spec fn u32_range_parsed(
    key: Seq<char>,
    v: Option<Seq<char>>,
    lo: u32,
    hi: u32,
    outside: spec_fn(nat) -> Seq<char>,
) -> Result<Option<u32>, Seq<char>> {
    match given(v) {
        None => Ok(None),
        Some(t) => match parse_unsigned(t, u32::MAX as nat) {
            None => Err(not_a_number(key, t)),
            Some(n) => if lo <= n <= hi {
                Ok(Some(n as u32))
            } else {
                Err(outside(n))
            },
        },
    }
}

/// The complaint about a number outside of its key's range.
pub open spec fn out_of_range(key: Number, n: nat) -> Seq<char> {
    let name = key.spec_name()@;
    match key {
        Number::RateFactorH264
        | Number::RateFactorHevc
        | Number::RateFactorVp9
        | Number::RateFactorAv1 => name + " must be between 50 and 400 (percent)"@,
        Number::RelayServerPort => name + " must be 1-65535 (got "@ + decimal(n) + ")"@,
        Number::OverlayIfaceMetric => name + " must be 0..=9999 (got "@ + decimal(n) + ")"@,
        Number::OverlayDirectPort => name + " must be 0 (ephemeral) or 1-"@ + decimal(
            MAX_OVERLAY_DIRECT_PORT_BASE as nat,
        ) + " (the public-dial band must fit under 65535)"@,
        _ => not_between(name, key.range().0, key.range().1),
    }
}

/// A number's value; nothing given means unset.
pub open spec fn number_parsed(key: Number, v: Option<Seq<char>>) -> Result<
    Option<u32>,
    Seq<char>,
> {
    u32_range_parsed(
        key.spec_name()@,
        v,
        key.range().0,
        key.range().1,
        |n: nat| out_of_range(key, n),
    )
}

/// Whether a token is CIDR notation whose prefix fits its address family; the
/// complaint where it is not.
pub open spec fn cidr_checked(token: Seq<char>) -> Result<(), Seq<char>> {
    match text::split_once(token, '/') {
        None => Err(debug_form(token) + " is not CIDR notation (addr/prefix)"@),
        Some((addr, prefix)) => match crate::ip::ip_address(trim(addr)) {
            None => Err(debug_form(token) + ": bad IP address"@),
            Some(ip) => match parse_unsigned(trim(prefix), 255) {
                None => Err(debug_form(token) + ": bad prefix length"@),
                Some(bits) => {
                    let max: nat = if ip is V4 {
                        32
                    } else {
                        128
                    };
                    if bits > max {
                        Err(
                            debug_form(token) + ": prefix /"@ + decimal(bits) + " exceeds /"@
                                + decimal(max),
                        )
                    } else {
                        Ok(())
                    }
                },
            },
        },
    }
}

/// The tokens, where every one is CIDR notation; the complaint about the first
/// that is not.
pub open spec fn cidrs_checked(tokens: Seq<Seq<char>>) -> Result<Seq<Seq<char>>, Seq<char>>
    decreases tokens.len(),
{
    if tokens.len() == 0 {
        Ok(seq![])
    } else {
        match cidrs_checked(tokens.drop_last()) {
            Err(e) => Err(e),
            Ok(l) => match cidr_checked(tokens.last()) {
                Err(e) => Err(e),
                Ok(_) => Ok(l.push(tokens.last())),
            },
        }
    }
}

/// A comma-separated CIDR list; nothing given means empty.
pub open spec fn cidr_list_parsed(v: Option<Seq<char>>) -> Result<Seq<Seq<char>>, Seq<char>> {
    match v {
        None => Ok(seq![]),
        Some(t) => cidrs_checked(comma_items(t)),
    }
}

/// One of three modes, in lower case; nothing given means unset.
pub open spec fn mode_parsed(
    v: Option<Seq<char>>,
    a: Seq<char>,
    b: Seq<char>,
    c: Seq<char>,
    complaint: Seq<char>,
) -> Result<Option<Seq<char>>, Seq<char>> {
    match given(v) {
        None => Ok(None),
        Some(t) => if lower(t) == a || lower(t) == b || lower(t) == c {
            Ok(Some(lower(t)))
        } else {
            Err(complaint)
        },
    }
}

/// The SSH port: 1 to 65535; nothing given means unset.
pub open spec fn ssh_port_parsed(v: Option<Seq<char>>) -> Result<Option<u16>, Seq<char>> {
    match given(v) {
        None => Ok(None),
        Some(t) => match parse_unsigned(t, 65535) {
            None => Err("ssh_port must be a number (got "@ + debug_form(t) + ")"@),
            Some(n) => if n == 0 {
                Err("ssh_port must be between 1 and 65535"@)
            } else {
                Ok(Some(n as u16))
            },
        },
    }
}

/// The SOCKS port: 1024 to 65535; nothing given means unset.
pub open spec fn socks_port_parsed(v: Option<Seq<char>>) -> Result<Option<u16>, Seq<char>> {
    match given(v) {
        None => Ok(None),
        Some(t) => match parse_unsigned(t, 65535) {
            None => Err("netstack_socks_port must be a port number (got "@ + debug_form(t) + ")"@),
            Some(n) => if n < 1024 {
                Err("netstack_socks_port must be >= 1024 (it binds a loopback listener)"@)
            } else {
                Ok(Some(n as u16))
            },
        },
    }
}

/// Whether a text names an account mode: `daemon`, `console_user`, or
/// `named:` and an account.
pub open spec fn account_mode(t: Seq<char>) -> bool {
    ||| t == "daemon"@
    ||| t == "console_user"@
    ||| "named:"@.is_prefix_of(t) && trim(t.skip("named:"@.len() as int)).len() > 0
}

/// The account mode; nothing given means unset.
pub open spec fn account_mode_parsed(v: Option<Seq<char>>) -> Result<
    Option<Seq<char>>,
    Seq<char>,
> {
    match given(v) {
        None => Ok(None),
        Some(t) => if account_mode(t) {
            Ok(Some(t))
        } else {
            Err(
                "ssh_account_mode must be daemon | console_user | named:<account> (got "@
                    + debug_form(t) + ")"@,
            )
        },
    }
}

/// The privilege ceiling; nothing given means unset.
pub open spec fn max_privilege_parsed(v: Option<Seq<char>>) -> Result<
    Option<Seq<char>>,
    Seq<char>,
> {
    match given(v) {
        None => Ok(None),
        Some(t) => if t == "daemon"@ || t == "console_user"@ {
            Ok(Some(t))
        } else {
            Err(
                "ssh_max_privilege must be daemon | console_user (got "@ + debug_form(t)
                    + "); empty means no device-side limit"@,
            )
        },
    }
}

/// The power policy; nothing given means `never`.
pub open spec fn power_policy_parsed(v: Option<Seq<char>>) -> Result<Seq<char>, Seq<char>> {
    let w = lower(
        trim(
            match v {
                Some(t) => t,
                None => "never"@,
            },
        ),
    );
    if w == "never"@ || w == "on-ac"@ || w == "on_ac"@ || w == "ac"@ || w == "always"@ {
        Ok(w)
    } else {
        Err("power_policy must be one of never | on-ac | always (got "@ + debug_form(w) + ")"@)
    }
}

/// The encoder choice; nothing given means `auto`.
pub open spec fn encoder_parsed(v: Option<Seq<char>>) -> Result<
    EncoderPreferenceChoice,
    Seq<char>,
> {
    match given(v) {
        None => Ok(EncoderPreferenceChoice::Auto),
        Some(t) => {
            let w = lower(t);
            if w == "auto"@ {
                Ok(EncoderPreferenceChoice::Auto)
            } else if w == "hardware"@ || w == "hw"@ || w == "mf"@ {
                Ok(EncoderPreferenceChoice::Hardware)
            } else if w == "software"@ || w == "sw"@ || w == "openh264"@ {
                Ok(EncoderPreferenceChoice::Software)
            } else {
                Err(
                    "encoder_preference must be auto|hardware|software (got "@ + debug_form(w)
                        + ")"@,
                )
            }
        },
    }
}

/// The renomination policy; nothing given means `auto`, which is unset.
pub open spec fn renomination_parsed(v: Option<Seq<char>>) -> Result<Option<bool>, Seq<char>> {
    match given(v) {
        None => Ok(None),
        Some(t) => {
            let w = lower(t);
            if w == "auto"@ {
                Ok(None)
            } else if w == "always"@ {
                Ok(Some(true))
            } else if w == "never"@ {
                Ok(Some(false))
            } else {
                Err(
                    "ice_follow_renomination must be auto|always|never (got "@ + debug_form(w)
                        + ")"@,
                )
            }
        },
    }
}

/// The switch and the text of the rules in the members of an allowlist
/// document. A missing switch is on.
pub open spec fn acl_members(list: Seq<(Seq<char>, Seq<char>)>) -> Result<
    (bool, Option<Seq<char>>),
    Seq<char>,
> {
    let rules = json::member(list, "allowlist"@);
    match json::member(list, "enabled"@) {
        None => Ok((true, rules)),
        Some(t) => if t == "true"@ {
            Ok((true, rules))
        } else if t == "false"@ {
            Ok((false, rules))
        } else {
            match json::json_flag(t) {
                Ok(b) => Ok((b, rules)),
                Err(e) => Err(e),
            }
        },
    }
}

/// The forward allowlist of a JSON document; missing rules are none.
pub open spec fn acl_document(t: Seq<char>) -> Result<(bool, Seq<Seq<char>>), Seq<char>> {
    match json::json_members(t) {
        Err(e) => Err(e),
        Ok(list) => match acl_members(list) {
            Err(e) => Err(e),
            Ok((on, None)) => Ok((on, seq![])),
            Ok((on, Some(rules))) => match json::json_items(rules) {
                Err(e) => Err(e),
                Ok(l) => Ok((on, l)),
            },
        },
    }
}

/// The forward allowlist; nothing given means enabled with no rules.
pub open spec fn acl_parsed(v: Option<Seq<char>>) -> Result<(bool, Seq<Seq<char>>), Seq<char>> {
    match given(v) {
        None => Ok((true, seq![])),
        Some(t) => match acl_document(t) {
            Err(e) => Err("forward_acl: invalid JSON: "@ + e),
            Ok(a) => Ok(a),
        },
    }
}

/// The apps document in compact form; nothing given means the built-in set,
/// whose own text stays as it is.
pub open spec fn apps_parsed(v: Option<Seq<char>>) -> Result<Seq<char>, Seq<char>> {
    match given(v) {
        None => Ok(BUILT_IN_APPS@),
        Some(t) => if t == BUILT_IN_APPS@ {
            Ok(t)
        } else {
            match json::json_compact(t) {
                Err(e) => Err("virtual_desktop_apps: invalid JSON: "@ + e),
                Ok(c) => if "{"@.is_prefix_of(c) {
                    Ok(c)
                } else {
                    Err("virtual_desktop_apps: invalid JSON: "@ + "expected an object"@)
                },
            }
        },
    }
}

/// What a key makes of a text; `None` clears the key to its built-in value.
pub open spec fn parsed(key: Key, v: Option<Seq<char>>) -> Result<Setting, Seq<char>> {
    match key {
        Key::Flag(f) => match bool_or_parsed(v, f.unset()) {
            Ok(b) => Ok(Setting::Flag(b)),
            Err(e) => Err(e),
        },
        Key::Toggle(_) => match tribool_parsed(v) {
            Ok(b) => Ok(Setting::Toggle(b)),
            Err(e) => Err(e),
        },
        Key::Number(n) => match number_parsed(n, v) {
            Ok(x) => Ok(Setting::Number(x)),
            Err(e) => Err(e),
        },
        Key::OverlayAdvertisedRoutes | Key::AdvertiseRoutes => match cidr_list_parsed(v) {
            Ok(l) => Ok(Setting::List(l)),
            Err(e) => Err(e),
        },
        Key::OverlayExitNode => Ok(Setting::Text(given(v))),
        Key::PowerPolicy => match power_policy_parsed(v) {
            Ok(w) => Ok(Setting::Word(w)),
            Err(e) => Err(e),
        },
        Key::SshPort => match ssh_port_parsed(v) {
            Ok(p) => Ok(Setting::Port(p)),
            Err(e) => Err(e),
        },
        Key::SshAuthorizedKeys => Ok(
            Setting::List(
                match v {
                    Some(t) => comma_items(t),
                    None => seq![],
                },
            ),
        ),
        Key::SshAccountMode => match account_mode_parsed(v) {
            Ok(t) => Ok(Setting::Text(t)),
            Err(e) => Err(e),
        },
        Key::SshMaxPrivilege => match max_privilege_parsed(v) {
            Ok(t) => Ok(Setting::Text(t)),
            Err(e) => Err(e),
        },
        Key::EncoderPreference => match encoder_parsed(v) {
            Ok(x) => Ok(Setting::Encoder(x)),
            Err(e) => Err(e),
        },
        Key::OverlayPathmon => match mode_parsed(
            v,
            "on"@,
            "shadow"@,
            "off"@,
            "overlay_pathmon must be on | shadow | off"@,
        ) {
            Ok(t) => Ok(Setting::Text(t)),
            Err(e) => Err(e),
        },
        Key::OverlayDemote => match mode_parsed(
            v,
            "on"@,
            "shadow"@,
            "off"@,
            "overlay_demote must be on | shadow | off"@,
        ) {
            Ok(t) => Ok(Setting::Text(t)),
            Err(e) => Err(e),
        },
        Key::OverlayRpf => match mode_parsed(
            v,
            "warn"@,
            "enforce"@,
            "off"@,
            "overlay_rpf must be warn | enforce | off"@,
        ) {
            Ok(t) => Ok(Setting::Text(t)),
            Err(e) => Err(e),
        },
        Key::NetstackSocksPort => match socks_port_parsed(v) {
            Ok(p) => Ok(Setting::Port(p)),
            Err(e) => Err(e),
        },
        Key::IceFollowRenomination => match renomination_parsed(v) {
            Ok(b) => Ok(Setting::Toggle(b)),
            Err(e) => Err(e),
        },
        Key::ForwardAcl => match acl_parsed(v) {
            Ok((on, l)) => Ok(Setting::Acl(on, l)),
            Err(e) => Err(e),
        },
        Key::VirtualDesktopApps => match apps_parsed(v) {
            Ok(t) => Ok(Setting::Document(t)),
            Err(e) => Err(e),
        },
    }
}

/// The complaint about a name that is no key of the surface.
pub open spec fn unknown_key(name: Seq<char>) -> Seq<char> {
    "unknown or non-editable config key "@ + debug_form(name)
}


/// `true` or `false`.
pub fn fmt_bool(b: bool) -> (r: String)
    ensures
        r@ == bool_text(b),
{
    if b {
        "true".to_owned()
    } else {
        "false".to_owned()
    }
}

/// `true`/`1`/`yes`/`on` and `false`/`0`/`no`/`off`, in any case.
pub fn parse_bool(v: &str) -> (r: Result<bool, String>)
    ensures
        match r {
            Ok(b) => bool_parsed(v@) == Ok::<_, Seq<char>>(b),
            Err(e) => bool_parsed(v@) == Err::<bool, _>(e@),
        },
{
    let w: String = lowered(trimmed(v));
    let s: &str = w.as_str();
    if same(s, "true") || same(s, "1") || same(s, "yes") || same(s, "on") {
        Ok(true)
    } else if same(s, "false") || same(s, "0") || same(s, "no") || same(s, "off") {
        Ok(false)
    } else {
        let q: String = quoted(s);
        Err(cat3("expected true/false (got ", q.as_str(), ")"))
    }
}

/// A plain flag: nothing given clears it to `default`.
pub fn parse_bool_or(v: Option<&str>, default: bool) -> (r: Result<bool, String>)
    ensures
        match r {
            Ok(b) => bool_or_parsed(opt_str(v), default) == Ok::<_, Seq<char>>(b),
            Err(e) => bool_or_parsed(opt_str(v), default) == Err::<bool, _>(e@),
        },
{
    match given_text(v) {
        None => Ok(default),
        Some(t) => parse_bool(t),
    }
}

/// A tri-state switch: nothing given clears it.
pub fn parse_tribool(v: Option<&str>) -> (r: Result<Option<bool>, String>)
    ensures
        match r {
            Ok(b) => tribool_parsed(opt_str(v)) == Ok::<_, Seq<char>>(b),
            Err(e) => tribool_parsed(opt_str(v)) == Err::<Option<bool>, _>(e@),
        },
{
    match given_text(v) {
        None => Ok(None),
        Some(t) => match parse_bool(t) {
            Ok(b) => Ok(Some(b)),
            Err(e) => Err(e),
        },
    }
}

fn number_complaint(key: &str, v: &str) -> (r: String)
    ensures
        r@ == not_a_number(key@, v@),
{
    let mut out: String = cat2(key, " must be a number (got ");
    let q: String = quoted(v);
    out.append(q.as_str());
    out.append(")");
    out
}

fn between_complaint(key: &str, lo: u32, hi: u32) -> (r: String)
    ensures
        r@ == not_between(key@, lo, hi),
{
    let mut out: String = cat2(key, " must be between ");
    let a: String = to_decimal(lo as u64);
    let b: String = to_decimal(hi as u64);
    out.append(a.as_str());
    out.append(" and ");
    out.append(b.as_str());
    out
}

/// A bounded number: nothing given clears it, otherwise it lies in `lo..=hi`.
pub fn parse_u32_range(key: &str, value: Option<&str>, lo: u32, hi: u32) -> (r: Result<
    Option<u32>,
    String,
>)
    ensures
        ({
            let want = u32_range_parsed(
                key@,
                opt_str(value),
                lo,
                hi,
                |n: nat| not_between(key@, lo, hi),
            );
            match r {
                Ok(n) => want == Ok::<_, Seq<char>>(n),
                Err(e) => want == Err::<Option<u32>, _>(e@),
            }
        }),
{
    match given_text(value) {
        None => Ok(None),
        Some(v) => match parse_up_to(v, u32::MAX) {
            None => Err(number_complaint(key, v)),
            Some(n) => if lo <= n && n <= hi {
                Ok(Some(n))
            } else {
                Err(between_complaint(key, lo, hi))
            },
        },
    }
}

/// A rate factor: nothing given clears it, otherwise it is 50–400 percent.
pub fn parse_rate_factor(key: &str, value: Option<&str>) -> (r: Result<Option<u32>, String>)
    ensures
        ({
            let want = u32_range_parsed(
                key@,
                opt_str(value),
                50,
                400,
                |n: nat| key@ + " must be between 50 and 400 (percent)"@,
            );
            match r {
                Ok(n) => want == Ok::<_, Seq<char>>(n),
                Err(e) => want == Err::<Option<u32>, _>(e@),
            }
        }),
{
    match given_text(value) {
        None => Ok(None),
        Some(v) => match parse_up_to(v, u32::MAX) {
            None => Err(number_complaint(key, v)),
            Some(n) => if 50 <= n && n <= 400 {
                Ok(Some(n))
            } else {
                Err(cat2(key, " must be between 50 and 400 (percent)"))
            },
        },
    }
}

fn range_complaint(key: Number, n: u32) -> (r: String)
    ensures
        r@ == out_of_range(key, n as nat),
{
    let name: &str = key.name();
    match key {
        Number::RateFactorH264
        | Number::RateFactorHevc
        | Number::RateFactorVp9
        | Number::RateFactorAv1 => cat2(name, " must be between 50 and 400 (percent)"),
        Number::RelayServerPort => {
            let d: String = to_decimal(n as u64);
            let mut out: String = cat2(name, " must be 1-65535 (got ");
            out.append(d.as_str());
            out.append(")");
            out
        },
        Number::OverlayIfaceMetric => {
            let d: String = to_decimal(n as u64);
            let mut out: String = cat2(name, " must be 0..=9999 (got ");
            out.append(d.as_str());
            out.append(")");
            out
        },
        Number::OverlayDirectPort => {
            let d: String = to_decimal(MAX_OVERLAY_DIRECT_PORT_BASE as u64);
            let mut out: String = cat2(name, " must be 0 (ephemeral) or 1-");
            out.append(d.as_str());
            out.append(" (the public-dial band must fit under 65535)");
            out
        },
        _ => {
            let (lo, hi): (u32, u32) = key.bounds();
            between_complaint(name, lo, hi)
        },
    }
}

fn number_value(key: Number, value: Option<&str>) -> (r: Result<Option<u32>, String>)
    ensures
        match r {
            Ok(n) => number_parsed(key, opt_str(value)) == Ok::<_, Seq<char>>(n),
            Err(e) => number_parsed(key, opt_str(value)) == Err::<Option<u32>, _>(e@),
        },
{
    let (lo, hi): (u32, u32) = key.bounds();
    match given_text(value) {
        None => Ok(None),
        Some(v) => match parse_up_to(v, u32::MAX) {
            None => Err(number_complaint(key.name(), v)),
            Some(n) => if lo <= n && n <= hi {
                Ok(Some(n))
            } else {
                Err(range_complaint(key, n))
            },
        },
    }
}

fn check_cidr(token: &str) -> (r: Result<(), String>)
    ensures
        match r {
            Ok(_) => cidr_checked(token@) == Ok::<_, Seq<char>>(()),
            Err(e) => cidr_checked(token@) == Err::<(), _>(e@),
        },
{
    let q: String = quoted(token);
    match text::parts_once(token, '/') {
        None => Err(cat2(q.as_str(), " is not CIDR notation (addr/prefix)")),
        Some((addr, prefix)) => match crate::ip::max_prefix(trimmed(addr)) {
            None => Err(cat2(q.as_str(), ": bad IP address")),
            Some(max) => match parse_up_to(trimmed(prefix), 255) {
                None => Err(cat2(q.as_str(), ": bad prefix length")),
                Some(bits) => if bits > max {
                    let mut out: String = cat2(q.as_str(), ": prefix /");
                    let b: String = to_decimal(bits as u64);
                    let m: String = to_decimal(max as u64);
                    out.append(b.as_str());
                    out.append(" exceeds /");
                    out.append(m.as_str());
                    Err(out)
                } else {
                    Ok(())
                },
            },
        },
    }
}

proof fn lemma_first_bad_cidr(tokens: Seq<Seq<char>>, k: int, e: Seq<char>)
    requires
        0 <= k <= tokens.len(),
        cidrs_checked(tokens.take(k)) == Err::<Seq<Seq<char>>, _>(e),
    ensures
        cidrs_checked(tokens) == Err::<Seq<Seq<char>>, _>(e),
    decreases tokens.len() - k,
{
    if k == tokens.len() {
        assert(tokens.take(k) =~= tokens);
    } else {
        assert(tokens.take(k + 1).drop_last() =~= tokens.take(k));
        lemma_first_bad_cidr(tokens, k + 1, e);
    }
}

/// A comma-separated CIDR list; nothing given clears it.
pub fn parse_cidr_list(v: Option<&str>) -> (r: Result<Vec<String>, String>)
    ensures
        match r {
            Ok(l) => cidr_list_parsed(opt_str(v)) == Ok::<_, Seq<char>>(views(l@)),
            Err(e) => cidr_list_parsed(opt_str(v)) == Err::<Seq<Seq<char>>, _>(e@),
        },
{
    let given: &str = match v {
        None => {
            let none: Vec<String> = Vec::new();
            proof {
                assert(views(none@) =~= seq![]);
            }
            return Ok(none);
        },
        Some(t) => t,
    };
    let tokens: Vec<String> = comma_list(given);
    let ghost all = views(tokens@);
    let mut i: usize = 0;
    proof {
        assert(all.take(0) =~= seq![]);
    }
    while i < tokens.len()
        invariant
            i <= tokens@.len(),
            all == views(tokens@),
            all == comma_items(given@),
            v == Some(given),
            cidrs_checked(all.take(i as int)) == Ok::<_, Seq<char>>(all.take(i as int)),
        decreases tokens@.len() - i,
    {
        proof {
            assert(all.take(i + 1).drop_last() =~= all.take(i as int));
            assert(all.take(i + 1).last() == tokens@[i as int]@);
            assert(all.take(i as int).push(tokens@[i as int]@) =~= all.take(i + 1));
        }
        match check_cidr(tokens[i].as_str()) {
            Ok(_) => {},
            Err(e) => {
                proof {
                    lemma_first_bad_cidr(all, i + 1, e@);
                }
                return Err(e);
            },
        }
        i = i + 1;
    }
    proof {
        assert(all.take(all.len() as int) =~= all);
    }
    Ok(tokens)
}

/// Whether a comma-separated CIDR list would be accepted, without a config to
/// write it to.
pub fn validate_cidr_list(v: &str) -> (r: Result<(), String>)
    ensures
        match r {
            Ok(_) => cidr_list_parsed(Some(v@)) is Ok,
            Err(e) => cidr_list_parsed(Some(v@)) == Err::<Seq<Seq<char>>, _>(e@),
        },
{
    match parse_cidr_list(Some(v)) {
        Ok(_) => Ok(()),
        Err(e) => Err(e),
    }
}

fn mode_value(v: Option<&str>, a: &str, b: &str, c: &str, complaint: &str) -> (r: Result<
    Option<String>,
    String,
>)
    ensures
        ({
            let want = mode_parsed(opt_str(v), a@, b@, c@, complaint@);
            match r {
                Ok(t) => want == Ok::<_, Seq<char>>(opt_view(t)),
                Err(e) => want == Err::<Option<Seq<char>>, _>(e@),
            }
        }),
{
    match given_text(v) {
        None => Ok(None),
        Some(t) => {
            let w: String = lowered(t);
            if same(w.as_str(), a) || same(w.as_str(), b) || same(w.as_str(), c) {
                Ok(Some(w))
            } else {
                Err(complaint.to_owned())
            }
        },
    }
}

fn ssh_port_value(v: Option<&str>) -> (r: Result<Option<u16>, String>)
    ensures
        match r {
            Ok(p) => ssh_port_parsed(opt_str(v)) == Ok::<_, Seq<char>>(p),
            Err(e) => ssh_port_parsed(opt_str(v)) == Err::<Option<u16>, _>(e@),
        },
{
    match given_text(v) {
        None => Ok(None),
        Some(t) => match parse_up_to(t, 65535) {
            None => {
                let q: String = quoted(t);
                Err(cat3("ssh_port must be a number (got ", q.as_str(), ")"))
            },
            Some(n) => if n == 0 {
                Err("ssh_port must be between 1 and 65535".to_owned())
            } else {
                Ok(Some(n as u16))
            },
        },
    }
}

fn socks_port_value(v: Option<&str>) -> (r: Result<Option<u16>, String>)
    ensures
        match r {
            Ok(p) => socks_port_parsed(opt_str(v)) == Ok::<_, Seq<char>>(p),
            Err(e) => socks_port_parsed(opt_str(v)) == Err::<Option<u16>, _>(e@),
        },
{
    match given_text(v) {
        None => Ok(None),
        Some(t) => match parse_up_to(t, 65535) {
            None => {
                let q: String = quoted(t);
                Err(cat3("netstack_socks_port must be a port number (got ", q.as_str(), ")"))
            },
            Some(n) => if n < 1024 {
                Err(
                    "netstack_socks_port must be >= 1024 (it binds a loopback listener)".to_owned(),
                )
            } else {
                Ok(Some(n as u16))
            },
        },
    }
}

fn account_mode_value(v: Option<&str>) -> (r: Result<Option<String>, String>)
    ensures
        match r {
            Ok(t) => account_mode_parsed(opt_str(v)) == Ok::<_, Seq<char>>(opt_view(t)),
            Err(e) => account_mode_parsed(opt_str(v)) == Err::<Option<Seq<char>>, _>(e@),
        },
{
    match given_text(v) {
        None => Ok(None),
        Some(t) => {
            let named: bool = match text::stripped(t, "named:") {
                Some(a) => !trimmed(a).is_empty(),
                None => false,
            };
            if same(t, "daemon") || same(t, "console_user") || named {
                Ok(Some(t.to_owned()))
            } else {
                let q: String = quoted(t);
                Err(
                    cat3(
                        "ssh_account_mode must be daemon | console_user | named:<account> (got ",
                        q.as_str(),
                        ")",
                    ),
                )
            }
        },
    }
}

fn max_privilege_value(v: Option<&str>) -> (r: Result<Option<String>, String>)
    ensures
        match r {
            Ok(t) => max_privilege_parsed(opt_str(v)) == Ok::<_, Seq<char>>(opt_view(t)),
            Err(e) => max_privilege_parsed(opt_str(v)) == Err::<Option<Seq<char>>, _>(e@),
        },
{
    match given_text(v) {
        None => Ok(None),
        Some(t) => if same(t, "daemon") || same(t, "console_user") {
            Ok(Some(t.to_owned()))
        } else {
            let q: String = quoted(t);
            Err(
                cat3(
                    "ssh_max_privilege must be daemon | console_user (got ",
                    q.as_str(),
                    "); empty means no device-side limit",
                ),
            )
        },
    }
}

fn power_policy_value(v: Option<&str>) -> (r: Result<String, String>)
    ensures
        match r {
            Ok(w) => power_policy_parsed(opt_str(v)) == Ok::<_, Seq<char>>(w@),
            Err(e) => power_policy_parsed(opt_str(v)) == Err::<Seq<char>, _>(e@),
        },
{
    let t: &str = match v {
        Some(t) => t,
        None => "never",
    };
    let w: String = lowered(trimmed(t));
    let s: &str = w.as_str();
    if same(s, "never") || same(s, "on-ac") || same(s, "on_ac") || same(s, "ac") || same(
        s,
        "always",
    ) {
        Ok(w)
    } else {
        let q: String = quoted(s);
        Err(cat3("power_policy must be one of never | on-ac | always (got ", q.as_str(), ")"))
    }
}

fn encoder_value(v: Option<&str>) -> (r: Result<EncoderPreferenceChoice, String>)
    ensures
        match r {
            Ok(x) => encoder_parsed(opt_str(v)) == Ok::<_, Seq<char>>(x),
            Err(e) => encoder_parsed(opt_str(v)) == Err::<EncoderPreferenceChoice, _>(e@),
        },
{
    match given_text(v) {
        None => Ok(EncoderPreferenceChoice::Auto),
        Some(t) => {
            let w: String = lowered(t);
            let s: &str = w.as_str();
            if same(s, "auto") {
                Ok(EncoderPreferenceChoice::Auto)
            } else if same(s, "hardware") || same(s, "hw") || same(s, "mf") {
                Ok(EncoderPreferenceChoice::Hardware)
            } else if same(s, "software") || same(s, "sw") || same(s, "openh264") {
                Ok(EncoderPreferenceChoice::Software)
            } else {
                let q: String = quoted(s);
                Err(
                    cat3("encoder_preference must be auto|hardware|software (got ", q.as_str(), ")"),
                )
            }
        },
    }
}

fn renomination_value(v: Option<&str>) -> (r: Result<Option<bool>, String>)
    ensures
        match r {
            Ok(b) => renomination_parsed(opt_str(v)) == Ok::<_, Seq<char>>(b),
            Err(e) => renomination_parsed(opt_str(v)) == Err::<Option<bool>, _>(e@),
        },
{
    match given_text(v) {
        None => Ok(None),
        Some(t) => {
            let w: String = lowered(t);
            let s: &str = w.as_str();
            if same(s, "auto") {
                Ok(None)
            } else if same(s, "always") {
                Ok(Some(true))
            } else if same(s, "never") {
                Ok(Some(false))
            } else {
                let q: String = quoted(s);
                Err(
                    cat3(
                        "ice_follow_renomination must be auto|always|never (got ",
                        q.as_str(),
                        ")",
                    ),
                )
            }
        },
    }
}

/// The switch and the text of the rules in the members of an allowlist
/// document.
pub fn forward_acl_members(list: &Vec<(String, String)>) -> (r: Result<
    (bool, Option<String>),
    String,
>)
    ensures
        ({
            let want = acl_members(json::member_views(list@));
            match r {
                Ok((on, rules)) => want == Ok::<_, Seq<char>>((on, opt_view(rules))),
                Err(e) => want == Err::<(bool, Option<Seq<char>>), _>(e@),
            }
        }),
{
    let rules: Option<String> = match json::member_text(list, "allowlist") {
        Some(t) => Some(t.to_owned()),
        None => None,
    };
    match json::member_text(list, "enabled") {
        None => Ok((true, rules)),
        Some(t) => match json::flag(t) {
            Ok(b) => Ok((b, rules)),
            Err(e) => Err(e),
        },
    }
}

/// The text of an allowlist without rules.
proof fn lemma_bare_acl(on: bool)
    ensures
        acl_text(on, seq![]) == json::bare_acl(bool_text(on)),
        acl_text(on, seq![]).len() > 0,
        acl_text(on, seq![])[0] == '{',
        acl_text(on, seq![]).last() == '}',
{
    reveal_strlit("{\"enabled\":");
    reveal_strlit(",\"allowlist\":[");
    reveal_strlit(",\"allowlist\":[]}");
    reveal_strlit("]}");
    assert(text::join(seq![], ',') =~= seq![]);
    assert(acl_text(on, seq![]) =~= json::bare_acl(bool_text(on)));
}

/// The forward allowlist of a JSON document. The text that is shown for one
/// without rules is read as that.
pub fn parse_forward_acl(t: &str) -> (r: Result<AgentForwardAcl, String>)
    ensures
        match r {
            Ok(a) => acl_document(t@) == Ok::<_, Seq<char>>((a.enabled, views(a.allowlist@))),
            Err(e) => acl_document(t@) == Err::<(bool, Seq<Seq<char>>), _>(e@),
        },
        forall|on: bool|
            t@ == #[trigger] acl_text(on, seq![]) ==> (r matches Ok(a) && a.enabled == on
                && a.allowlist@.len() == 0),
{
    proof {
        reveal_strlit("true");
        reveal_strlit("false");
        assert("true"@.len() != "false"@.len());
        lemma_bare_acl(true);
        lemma_bare_acl(false);
    }
    let list: Vec<(String, String)> = match json::members(t) {
        Ok(l) => l,
        Err(e) => {
            return Err(e);
        },
    };
    match forward_acl_members(&list) {
        Err(e) => Err(e),
        Ok((enabled, None)) => {
            let allowlist: Vec<String> = Vec::new();
            proof {
                assert(views(allowlist@) =~= seq![]);
            }
            Ok(AgentForwardAcl { enabled, allowlist })
        },
        Ok((enabled, Some(rules))) => match json::items(rules.as_str()) {
            Ok(allowlist) => Ok(AgentForwardAcl { enabled, allowlist }),
            Err(e) => Err(e),
        },
    }
}

fn acl_value(v: Option<&str>) -> (r: Result<AgentForwardAcl, String>)
    ensures
        match r {
            Ok(a) => acl_parsed(opt_str(v)) == Ok::<_, Seq<char>>(
                (a.enabled, views(a.allowlist@)),
            ),
            Err(e) => acl_parsed(opt_str(v)) == Err::<(bool, Seq<Seq<char>>), _>(e@),
        },
        forall|on: bool|
            opt_str(v) == Some(#[trigger] acl_text(on, seq![])) ==> acl_parsed(opt_str(v)) == Ok::<
                (bool, Seq<Seq<char>>),
                Seq<char>,
            >((on, seq![])),
{
    proof {
        lemma_bare_acl(true);
        lemma_bare_acl(false);
        if let Some(t) = v {
            if t@ == acl_text(true, seq![]) || t@ == acl_text(false, seq![]) {
                lemma_tight(t@);
            }
        }
    }
    match given_text(v) {
        None => {
            let a: AgentForwardAcl = AgentForwardAcl::default();
            proof {
                assert(views(a.allowlist@) =~= seq![]);
            }
            Ok(a)
        },
        Some(t) => match parse_forward_acl(t) {
            Ok(a) => {
                proof {
                    if a.allowlist@.len() == 0 {
                        assert(views(a.allowlist@) =~= seq![]);
                    }
                }
                Ok(a)
            },
            Err(e) => Err(cat2("forward_acl: invalid JSON: ", e.as_str())),
        },
    }
}

fn apps_value(v: Option<&str>) -> (r: Result<String, String>)
    ensures
        match r {
            Ok(t) => apps_parsed(opt_str(v)) == Ok::<_, Seq<char>>(t@),
            Err(e) => apps_parsed(opt_str(v)) == Err::<Seq<char>, _>(e@),
        },
{
    match given_text(v) {
        None => Ok(BUILT_IN_APPS.to_owned()),
        Some(t) => {
            if same(t, BUILT_IN_APPS) {
                return Ok(t.to_owned());
            }
            match json::compact(t) {
                Err(e) => Err(cat2("virtual_desktop_apps: invalid JSON: ", e.as_str())),
                Ok(c) => if text::begins_with(c.as_str(), "{") {
                    Ok(c)
                } else {
                    Err(cat2("virtual_desktop_apps: invalid JSON: ", "expected an object"))
                },
            }
        },
    }
}

/// A value ready to be stored under a key.
enum SettingValue {
    Flag(bool),
    Toggle(Option<bool>),
    Number(Option<u32>),
    Port(Option<u16>),
    Text(Option<String>),
    Word(String),
    List(Vec<String>),
    Encoder(EncoderPreferenceChoice),
    Acl(AgentForwardAcl),
    Document(String),
}

impl SettingValue {
    spec fn model(self) -> Setting {
        match self {
            SettingValue::Flag(b) => Setting::Flag(b),
            SettingValue::Toggle(b) => Setting::Toggle(b),
            SettingValue::Number(n) => Setting::Number(n),
            SettingValue::Port(p) => Setting::Port(p),
            SettingValue::Text(t) => Setting::Text(opt_view(t)),
            SettingValue::Word(w) => Setting::Word(w@),
            SettingValue::List(l) => Setting::List(views(l@)),
            SettingValue::Encoder(e) => Setting::Encoder(e),
            SettingValue::Acl(a) => Setting::Acl(a.enabled, views(a.allowlist@)),
            SettingValue::Document(d) => Setting::Document(d@),
        }
    }
}

/// The value is of the sort that the key holds.
spec fn fits(key: Key, s: Setting) -> bool {
    match key {
        Key::Flag(_) => s is Flag,
        Key::Toggle(_) => s is Toggle,
        Key::Number(_) => s is Number,
        Key::OverlayAdvertisedRoutes | Key::AdvertiseRoutes | Key::SshAuthorizedKeys => s is List,
        Key::OverlayExitNode
        | Key::SshAccountMode
        | Key::SshMaxPrivilege
        | Key::OverlayPathmon
        | Key::OverlayDemote
        | Key::OverlayRpf => s is Text,
        Key::VirtualDesktopApps => s is Document,
        Key::PowerPolicy => s is Word,
        Key::SshPort | Key::NetstackSocksPort => s is Port,
        Key::EncoderPreference => s is Encoder,
        Key::IceFollowRenomination => s is Toggle,
        Key::ForwardAcl => s is Acl,
    }
}

fn read_value(key: Key, v: Option<&str>) -> (r: Result<SettingValue, String>)
    ensures
        match r {
            Ok(s) => parsed(key, opt_str(v)) == Ok::<_, Seq<char>>(s.model()) && fits(
                key,
                s.model(),
            ),
            Err(e) => parsed(key, opt_str(v)) == Err::<Setting, _>(e@),
        },
        forall|on: bool|
            key == Key::ForwardAcl && opt_str(v) == Some(#[trigger] acl_text(on, seq![])) ==> parsed(key, opt_str(v))
                == Ok::<Setting, Seq<char>>(Setting::Acl(on, seq![])),
{
    match key {
        Key::Flag(f) => Ok(SettingValue::Flag(parse_bool_or(v, f.default_value())?)),
        Key::Toggle(_) => Ok(SettingValue::Toggle(parse_tribool(v)?)),
        Key::Number(n) => Ok(SettingValue::Number(number_value(n, v)?)),
        Key::OverlayAdvertisedRoutes | Key::AdvertiseRoutes => Ok(
            SettingValue::List(parse_cidr_list(v)?),
        ),
        Key::OverlayExitNode => Ok(
            SettingValue::Text(
                match given_text(v) {
                    Some(t) => Some(t.to_owned()),
                    None => None,
                },
            ),
        ),
        Key::PowerPolicy => Ok(SettingValue::Word(power_policy_value(v)?)),
        Key::SshPort => Ok(SettingValue::Port(ssh_port_value(v)?)),
        Key::SshAuthorizedKeys => Ok(
            SettingValue::List(
                match v {
                    Some(t) => comma_list(t),
                    None => {
                        let none: Vec<String> = Vec::new();
                        proof {
                            assert(views(none@) =~= seq![]);
                        }
                        none
                    },
                },
            ),
        ),
        Key::SshAccountMode => Ok(SettingValue::Text(account_mode_value(v)?)),
        Key::SshMaxPrivilege => Ok(SettingValue::Text(max_privilege_value(v)?)),
        Key::EncoderPreference => Ok(SettingValue::Encoder(encoder_value(v)?)),
        Key::OverlayPathmon => Ok(
            SettingValue::Text(
                mode_value(v, "on", "shadow", "off", "overlay_pathmon must be on | shadow | off")?,
            ),
        ),
        Key::OverlayDemote => Ok(
            SettingValue::Text(
                mode_value(v, "on", "shadow", "off", "overlay_demote must be on | shadow | off")?,
            ),
        ),
        Key::OverlayRpf => Ok(
            SettingValue::Text(
                mode_value(v, "warn", "enforce", "off", "overlay_rpf must be warn | enforce | off")?,
            ),
        ),
        Key::NetstackSocksPort => Ok(SettingValue::Port(socks_port_value(v)?)),
        Key::IceFollowRenomination => Ok(SettingValue::Toggle(renomination_value(v)?)),
        Key::ForwardAcl => Ok(SettingValue::Acl(acl_value(v)?)),
        Key::VirtualDesktopApps => Ok(SettingValue::Document(apps_value(v)?)),
    }
}

fn stored(cfg: AgentConfig, key: Key, s: SettingValue) -> (r: AgentConfig)
    requires
        fits(key, s.model()),
    ensures
        updated(cfg, key, s.model(), r),
{
    match (key, s) {
        (Key::Flag(f), SettingValue::Flag(b)) => f.with(cfg, b),
        (Key::Toggle(t), SettingValue::Toggle(b)) => t.with(cfg, b),
        (Key::Number(n), SettingValue::Number(x)) => n.with(cfg, x),
        (Key::OverlayAdvertisedRoutes, SettingValue::List(l)) => AgentConfig {
            overlay_advertised_routes: l,
            ..cfg
        },
        (Key::OverlayExitNode, SettingValue::Text(t)) => AgentConfig {
            overlay_exit_node: t,
            ..cfg
        },
        (Key::AdvertiseRoutes, SettingValue::List(l)) => AgentConfig { advertise_routes: l, ..cfg },
        (Key::PowerPolicy, SettingValue::Word(w)) => AgentConfig { power_policy: w, ..cfg },
        (Key::SshPort, SettingValue::Port(p)) => AgentConfig { ssh_port: p, ..cfg },
        (Key::SshAuthorizedKeys, SettingValue::List(l)) => AgentConfig {
            ssh_authorized_keys: l,
            ..cfg
        },
        (Key::SshAccountMode, SettingValue::Text(t)) => AgentConfig { ssh_account_mode: t, ..cfg },
        (Key::SshMaxPrivilege, SettingValue::Text(t)) => AgentConfig {
            ssh_max_privilege: t,
            ..cfg
        },
        (Key::EncoderPreference, SettingValue::Encoder(e)) => AgentConfig {
            encoder_preference: e,
            ..cfg
        },
        (Key::OverlayPathmon, SettingValue::Text(t)) => AgentConfig { overlay_pathmon: t, ..cfg },
        (Key::OverlayDemote, SettingValue::Text(t)) => AgentConfig { overlay_demote: t, ..cfg },
        (Key::OverlayRpf, SettingValue::Text(t)) => AgentConfig { overlay_rpf: t, ..cfg },
        (Key::NetstackSocksPort, SettingValue::Port(p)) => AgentConfig {
            netstack_socks_port: p,
            ..cfg
        },
        (Key::IceFollowRenomination, SettingValue::Toggle(b)) => AgentConfig {
            ice_follow_renomination: b,
            ..cfg
        },
        (Key::ForwardAcl, SettingValue::Acl(a)) => AgentConfig { forward_acl: a, ..cfg },
        (Key::VirtualDesktopApps, SettingValue::Document(t)) => AgentConfig {
            virtual_desktop_apps: VirtualDesktopAppsConfig { document: t },
            ..cfg
        },
        _ => cfg,
    }
}

/// Parses, checks and writes one key. `None` clears the key to its built-in
/// value. Where the value is refused nothing is written.
pub fn apply(cfg: &mut AgentConfig, key: &str, value: Option<&str>) -> (r: Result<(), String>)
    ensures
        match key_named(key@) {
            None => {
                &&& r matches Err(e)
                &&& e@ == unknown_key(key@)
                &&& *final(cfg) == *old(cfg)
            },
            Some(k) => match parsed(k, opt_str(value)) {
                Err(m) => {
                    &&& r matches Err(e)
                    &&& e@ == m
                    &&& *final(cfg) == *old(cfg)
                },
                Ok(s) => {
                    &&& r is Ok
                    &&& updated(*old(cfg), k, s, *final(cfg))
                },
            },
        },
        forall|on: bool|
            key_named(key@) == Some(Key::ForwardAcl) && opt_str(value) == Some(#[trigger] acl_text(on, seq![])) ==> r is Ok
                && setting(*final(cfg), Key::ForwardAcl) == Setting::Acl(on, seq![]),
{
    let k: Key = match Key::named(key) {
        Some(k) => k,
        None => {
            let q: String = quoted(key);
            return Err(cat2("unknown or non-editable config key ", q.as_str()));
        },
    };
    let s: SettingValue = match read_value(k, value) {
        Ok(s) => s,
        Err(e) => {
            return Err(e);
        },
    };
    let taken: AgentConfig = take(cfg);
    *cfg = stored(taken, k, s);
    Ok(())
}

fn text_of(t: &Option<String>) -> (r: Option<String>)
    ensures
        opt_view(r) == opt_view(*t),
{
    copy_opt(t)
}

fn number_text(n: Option<u32>) -> (r: Option<String>)
    ensures
        opt_view(r) == match n {
            Some(x) => Some(decimal(x as nat)),
            None => None,
        },
{
    match n {
        Some(x) => Some(to_decimal(x as u64)),
        None => None,
    }
}

fn toggle_text(b: Option<bool>) -> (r: Option<String>)
    ensures
        opt_view(r) == match b {
            Some(x) => Some(bool_text(x)),
            None => None,
        },
{
    match b {
        Some(x) => Some(fmt_bool(x)),
        None => None,
    }
}

fn port_text(n: Option<u16>) -> (r: Option<String>)
    ensures
        opt_view(r) == match n {
            Some(x) => Some(decimal(x as nat)),
            None => None,
        },
{
    match n {
        Some(x) => Some(to_decimal(x as u64)),
        None => None,
    }
}

/// The document of a forward allowlist.
pub fn render_forward_acl(acl: &AgentForwardAcl) -> (r: String)
    ensures
        r@ == acl_text(acl.enabled, views(acl.allowlist@)),
{
    let on: String = fmt_bool(acl.enabled);
    let rules: String = joined(&acl.allowlist, ',');
    let mut out: String = cat3("{\"enabled\":", on.as_str(), ",\"allowlist\":[");
    out.append(rules.as_str());
    out.append("]}");
    out
}

/// The current value of a key as a client sees it; `None` where it is unset.
pub fn shown(cfg: &AgentConfig, key: Key) -> (r: Option<String>)
    ensures
        opt_view(r) == rendered(key, setting(*cfg, key)),
{
    match key {
        Key::Flag(f) => Some(fmt_bool(f.read(cfg))),
        Key::Toggle(t) => toggle_text(t.read(cfg)),
        Key::Number(n) => number_text(n.read(cfg)),
        Key::OverlayAdvertisedRoutes => Some(joined(&cfg.overlay_advertised_routes, ',')),
        Key::OverlayExitNode => text_of(&cfg.overlay_exit_node),
        Key::AdvertiseRoutes => Some(joined(&cfg.advertise_routes, ',')),
        Key::PowerPolicy => Some(
            if cfg.power_policy.as_str().is_empty() {
                "never".to_owned()
            } else {
                cfg.power_policy.clone()
            },
        ),
        Key::SshPort => port_text(cfg.ssh_port),
        Key::SshAuthorizedKeys => Some(joined(&cfg.ssh_authorized_keys, ',')),
        Key::SshAccountMode => text_of(&cfg.ssh_account_mode),
        Key::SshMaxPrivilege => text_of(&cfg.ssh_max_privilege),
        Key::EncoderPreference => Some(
            match cfg.encoder_preference {
                EncoderPreferenceChoice::Auto => "auto".to_owned(),
                EncoderPreferenceChoice::Hardware => "hardware".to_owned(),
                EncoderPreferenceChoice::Software => "software".to_owned(),
            },
        ),
        Key::OverlayPathmon => text_of(&cfg.overlay_pathmon),
        Key::OverlayDemote => text_of(&cfg.overlay_demote),
        Key::OverlayRpf => text_of(&cfg.overlay_rpf),
        Key::NetstackSocksPort => port_text(cfg.netstack_socks_port),
        Key::IceFollowRenomination => match cfg.ice_follow_renomination {
            Some(true) => Some("always".to_owned()),
            Some(false) => Some("never".to_owned()),
            None => None,
        },
        Key::ForwardAcl => Some(render_forward_acl(&cfg.forward_acl)),
        Key::VirtualDesktopApps => Some(cfg.virtual_desktop_apps.document.as_str().to_owned()),
    }
}

/// The current value behind a name; `None` for an unset key and for a name
/// that is no key.
pub open spec fn value_of(cfg: AgentConfig, name: Seq<char>) -> Option<Seq<char>> {
    match key_named(name) {
        Some(k) => rendered(k, setting(cfg, k)),
        None => None,
    }
}

/// The current value behind a name; `None` for an unset key and for a name
/// that is no key.
pub fn current_value(cfg: &AgentConfig, key: &str) -> (r: Option<String>)
    ensures
        opt_view(r) == value_of(*cfg, key@),
{
    match Key::named(key) {
        Some(k) => shown(cfg, k),
        None => None,
    }
}

/// The entry describes `key` as it stands in `cfg`.
pub open spec fn describes(e: ConfigEntry, cfg: AgentConfig, key: Key) -> bool {
    &&& e.key@ == key.spec_name()@
    &&& opt_view(e.value) == rendered(key, setting(cfg, key))
    &&& e.kind@ == key.spec_kind()@
    &&& e.restart_required
    &&& e.description@ == key.spec_description()@
}

fn entry(cfg: &AgentConfig, key: Key) -> (r: ConfigEntry)
    ensures
        describes(r, *cfg, key),
{
    ConfigEntry {
        key: key.name().to_owned(),
        value: shown(cfg, key),
        kind: key.kind().to_owned(),
        restart_required: true,
        description: key.description().to_owned(),
    }
}

/// The whole surface with its current values, in display order.
pub fn entries(cfg: &AgentConfig) -> (r: Vec<ConfigEntry>)
    ensures
        r@.len() == KEY_COUNT,
        forall|i: int| 0 <= i < KEY_COUNT ==> describes(#[trigger] r@[i], *cfg, spec_key_at(i)),
{
    let mut out: Vec<ConfigEntry> = Vec::new();
    let mut i: usize = 0;
    while i < KEY_COUNT
        invariant
            i <= KEY_COUNT,
            out@.len() == i,
            forall|j: int| 0 <= j < i ==> describes(#[trigger] out@[j], *cfg, spec_key_at(j)),
        decreases KEY_COUNT - i,
    {
        out.push(entry(cfg, key_at(i)));
        i = i + 1;
    }
    out
}

/// One entry by name; `None` for a name that is no key.
pub fn entry_for(cfg: &AgentConfig, key: &str) -> (r: Option<ConfigEntry>)
    ensures
        match key_named(key@) {
            Some(k) => r matches Some(e) && describes(e, *cfg, k),
            None => r is None,
        },
{
    match Key::named(key) {
        Some(k) => Some(entry(cfg, k)),
        None => None,
    }
}

} // verus!
