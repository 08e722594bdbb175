//! Which address ranges, lists of them and rules for forwarding the config
//! surface takes.
use vstd::prelude::*;
use crate::config::agent::BUILT_IN_APPS;
use crate::config::keys::Key;
use crate::config::surface::{
    Setting,
    acl_members,
    acl_parsed,
    cidr_checked,
    cidrs_checked,
    parsed,
};
use crate::ip::{IpParts, ip_address};
use crate::json::{json_compact, json_items, json_members, member};
use crate::num::parse_unsigned;
use crate::text::{comma_items, given, trim};
use crate::text_laws::cuts_are_at_the_first;

verus! {

/// A range is an address, a slash and a number of bits: at most 32 for an
/// address of four parts, at most 128 for one of eight.
pub proof fn ranges_have_an_address_and_bits(addr: Seq<char>, bits: Seq<char>)
    requires
        !addr.contains('/'),
    ensures
        cidr_checked(addr.push('/') + bits) is Ok <==> match (
            ip_address(trim(addr)),
            parse_unsigned(trim(bits), 255),
        ) {
            (Some(IpParts::V4(_)), Some(n)) => n <= 32,
            (Some(IpParts::V6(_)), Some(n)) => n <= 128,
            _ => false,
        },
        cidr_checked(addr) is Err,
{
    cuts_are_at_the_first(addr, '/', bits);
}

/// A list of ranges is taken as it is where every one of them is a range, and
/// not at all otherwise.
pub proof fn lists_are_taken_whole(tokens: Seq<Seq<char>>)
    ensures
        cidrs_checked(tokens) is Ok <==> forall|i: int|
            0 <= i < tokens.len() ==> cidr_checked(#[trigger] tokens[i]) is Ok,
        cidrs_checked(tokens) matches Ok(l) ==> l == tokens,
    decreases tokens.len(),
{
    if tokens.len() > 0 {
        let front = tokens.drop_last();
        lists_are_taken_whole(front);
        if cidrs_checked(tokens) is Ok {
            assert forall|i: int| 0 <= i < tokens.len() implies cidr_checked(
                #[trigger] tokens[i],
            ) is Ok by {
                if i < front.len() {
                    assert(front[i] == tokens[i]);
                }
            }
            assert(front.push(tokens.last()) =~= tokens);
        }
        if forall|i: int| 0 <= i < tokens.len() ==> cidr_checked(#[trigger] tokens[i]) is Ok {
            assert forall|i: int| 0 <= i < front.len() implies cidr_checked(
                #[trigger] front[i],
            ) is Ok by {
                assert(front[i] == tokens[i]);
            }
            assert(tokens.last() == tokens[tokens.len() - 1]);
        }
    }
}

/// The two keys that hold ranges take the same texts: lists every item of
/// which is a range, and they hold the items in their order.
pub proof fn advertised_ranges_are_ranges(v: Seq<char>)
    ensures
        parsed(Key::OverlayAdvertisedRoutes, Some(v)) == parsed(Key::AdvertiseRoutes, Some(v)),
        parsed(Key::AdvertiseRoutes, Some(v)) is Ok <==> forall|i: int|
            0 <= i < comma_items(v).len() ==> cidr_checked(#[trigger] comma_items(v)[i]) is Ok,
        parsed(Key::AdvertiseRoutes, Some(v)) matches Ok(s) ==> s == Setting::List(comma_items(v)),
        parsed(Key::AdvertiseRoutes, None) == Ok::<Setting, Seq<char>>(Setting::List(seq![])),
{
    lists_are_taken_whole(comma_items(v));
}

/// Keys for SSH are taken as they are given, in their order.
pub proof fn ssh_keys_are_kept_as_given(v: Seq<char>)
    ensures
        parsed(Key::SshAuthorizedKeys, Some(v)) == Ok::<Setting, Seq<char>>(
            Setting::List(comma_items(v)),
        ),
        parsed(Key::SshAuthorizedKeys, None) == Ok::<Setting, Seq<char>>(Setting::List(seq![])),
{
}

/// Without rules, forwarding is on and nothing is listed.
pub proof fn forwarding_is_on_unless_said(v: Option<Seq<char>>)
    requires
        given(v) is None,
    ensures
        acl_parsed(v) == Ok::<(bool, Seq<Seq<char>>), Seq<char>>((true, seq![])),
        parsed(Key::ForwardAcl, v) == Ok::<Setting, Seq<char>>(Setting::Acl(true, seq![])),
{
}

/// Rules for forwarding are off only where their document says so, and list
/// what stands under the name of the list.
pub proof fn rules_are_on_unless_said_off(list: Seq<(Seq<char>, Seq<char>)>)
    ensures
        member(list, "enabled"@) is None ==> acl_members(list) == Ok::<
            (bool, Option<Seq<char>>),
            Seq<char>,
        >((true, member(list, "allowlist"@))),
        member(list, "enabled"@) == Some("true"@) ==> acl_members(list) == Ok::<
            (bool, Option<Seq<char>>),
            Seq<char>,
        >((true, member(list, "allowlist"@))),
        member(list, "enabled"@) == Some("false"@) ==> acl_members(list) == Ok::<
            (bool, Option<Seq<char>>),
            Seq<char>,
        >((false, member(list, "allowlist"@))),
        acl_members(list) matches Ok((_, rules)) ==> rules == member(list, "allowlist"@),
{
    reveal_strlit("true");
    reveal_strlit("false");
    assert("true"@.len() != "false"@.len());
}

/// A document of rules is taken where it is an object whose list is a list; it
/// holds the items of that list, and none where there is no list.
pub proof fn rules_hold_their_list(v: Seq<char>, list: Seq<(Seq<char>, Seq<char>)>)
    requires
        given(Some(v)) is Some,
        json_members(given(Some(v)).unwrap()) == Ok::<Seq<(Seq<char>, Seq<char>)>, Seq<char>>(list),
        acl_members(list) is Ok,
    ensures
        member(list, "allowlist"@) is None ==> acl_parsed(Some(v)) == Ok::<
            (bool, Seq<Seq<char>>),
            Seq<char>,
        >((acl_members(list)->Ok_0.0, seq![])),
        member(list, "allowlist"@) matches Some(rules) ==> (json_items(rules) matches Ok(l)
            ==> acl_parsed(Some(v)) == Ok::<(bool, Seq<Seq<char>>), Seq<char>>(
            (acl_members(list)->Ok_0.0, l),
        )),
        member(list, "allowlist"@) matches Some(rules) ==> (json_items(rules) is Err ==> acl_parsed(
            Some(v),
        ) is Err),
{
    rules_are_on_unless_said_off(list);
}

/// A document of apps other than the built-in one is taken where it is JSON and
/// an object, and is held in its compact form.
pub proof fn apps_are_an_object(v: Seq<char>)
    requires
        given(Some(v)) is Some,
        given(Some(v)) != Some(BUILT_IN_APPS@),
    ensures
        json_compact(given(Some(v)).unwrap()) is Err ==> parsed(
            Key::VirtualDesktopApps,
            Some(v),
        ) is Err,
        json_compact(given(Some(v)).unwrap()) matches Ok(c) ==> (parsed(
            Key::VirtualDesktopApps,
            Some(v),
        ) is Ok <==> c.len() > 0 && c[0] == '{'),
        json_compact(given(Some(v)).unwrap()) matches Ok(c) ==> (parsed(
            Key::VirtualDesktopApps,
            Some(v),
        ) matches Ok(s) ==> s == Setting::Document(c)),
{
    reveal_strlit("{");
    if let Ok(c) = json_compact(given(Some(v)).unwrap()) {
        if c.len() > 0 && c[0] == '{' {
            assert(c.take(1) =~= "{"@);
            assert("{"@.is_prefix_of(c));
        }
        if "{"@.is_prefix_of(c) {
            assert("{"@[0] == c[0]);
        }
    }
}

/// Of two members of the same name the later counts, and a member is found by
/// its own name alone.
pub proof fn the_later_member_counts(
    list: Seq<(Seq<char>, Seq<char>)>,
    name: Seq<char>,
    value: Seq<char>,
    other: Seq<char>,
)
    ensures
        member(list.push((name, value)), name) == Some(value),
        other != name ==> member(list.push((name, value)), other) == member(list, other),
        member(Seq::<(Seq<char>, Seq<char>)>::empty(), name) is None,
{
    assert(list.push((name, value)).drop_last() =~= list);
}

} // verus!
