//! How entries are named, ports derived and complaints worded.
use vstd::prelude::*;
use crate::config::bridge::{derived_port, fnv1a};
use crate::config::keys::{Flag, Key, Number, Toggle};
use crate::config::org::{OrgEntry, org_label};
use crate::config::surface::{parsed, unknown_key};
use crate::enrollment::{chosen_label, first_free, host_label, label_free};
use crate::num::{decimal, parse_unsigned};
use crate::text::{before, debug_form, given, lower, trim, trim_start_str};
use crate::text_laws::cuts_are_at_the_first;

verus! {

proof fn lemma_first_free(orgs: Seq<OrgEntry>, base: Seq<char>, from: nat, n: nat)
    requires
        from <= n < 100,
        label_free(orgs, base + "-"@ + decimal(n)),
        forall|k: nat| from <= k < n ==> !label_free(orgs, base + "-"@ + #[trigger] decimal(k)),
    ensures
        first_free(orgs, base, from) == Some(base + "-"@ + decimal(n)),
    decreases n - from,
{
    if from < n {
        assert(!label_free(orgs, base + "-"@ + decimal(from)));
        lemma_first_free(orgs, base, from + 1, n);
    }
}

proof fn lemma_none_free(orgs: Seq<OrgEntry>, base: Seq<char>, from: nat)
    requires
        forall|k: nat| from <= k < 100 ==> !label_free(orgs, base + "-"@ + #[trigger] decimal(k)),
    ensures
        first_free(orgs, base, from) is None,
    decreases 100 - from,
{
    if from < 100 {
        assert(!label_free(orgs, base + "-"@ + decimal(from)));
        lemma_none_free(orgs, base, from + 1);
    }
}

/// An entry whose host's label is taken gets the label with the first number
/// from two on that is free.
pub proof fn taken_labels_are_numbered(orgs: Seq<OrgEntry>, server_url: Seq<char>, n: nat)
    requires
        !label_free(orgs, host_label(server_url)),
        2 <= n < 100,
        label_free(orgs, host_label(server_url) + "-"@ + decimal(n)),
        forall|k: nat|
            2 <= k < n ==> !label_free(
                orgs,
                host_label(server_url) + "-"@ + #[trigger] decimal(k),
            ),
    ensures
        chosen_label(orgs, None, server_url) == Ok::<Seq<char>, Seq<char>>(
            host_label(server_url) + "-"@ + decimal(n),
        ),
{
    lemma_first_free(orgs, host_label(server_url), 2, n);
}

/// Where all the numbers below a hundred are taken too, there is no label.
pub proof fn labels_run_out(orgs: Seq<OrgEntry>, server_url: Seq<char>)
    requires
        !label_free(orgs, host_label(server_url)),
        forall|k: nat|
            2 <= k < 100 ==> !label_free(
                orgs,
                host_label(server_url) + "-"@ + #[trigger] decimal(k),
            ),
    ensures
        chosen_label(orgs, None, server_url) is Err,
{
    lemma_none_free(orgs, host_label(server_url), 2);
}

proof fn lemma_prefix_goes(prefix: Seq<char>, rest: Seq<char>)
    requires
        prefix.len() > 0,
        !prefix.is_prefix_of(rest),
    ensures
        trim_start_str(prefix + rest, prefix) == rest,
        trim_start_str(rest, prefix) == rest,
{
    let s = prefix + rest;
    assert(s.take(prefix.len() as int) =~= prefix);
    assert(prefix.is_prefix_of(s));
    assert(s.skip(prefix.len() as int) =~= rest);
    assert(trim_start_str(rest, prefix) == rest);
}

/// An entry is named after its server's host, without the scheme and the path;
/// a host of which no label can be made gives the label `org`.
pub proof fn entries_are_named_after_their_host(host: Seq<char>, path: Seq<char>)
    requires
        !host.contains('/'),
        !"https://"@.is_prefix_of(host.push('/') + path),
        !"http://"@.is_prefix_of(host.push('/') + path),
    ensures
        host_label("https://"@ + (host.push('/') + path)) == (match org_label(host) {
            Some(l) => l,
            None => "org"@,
        }),
        host_label("http://"@ + (host.push('/') + path)) == (match org_label(host) {
            Some(l) => l,
            None => "org"@,
        }),
{
    reveal_strlit("https://");
    reveal_strlit("http://");
    let rest = host.push('/') + path;
    lemma_prefix_goes("https://"@, rest);
    lemma_prefix_goes("http://"@, rest);
    cuts_are_at_the_first(host, '/', path);
    let plain = "http://"@ + rest;
    if "https://"@.is_prefix_of(plain) {
        assert("https://"@[4] == plain[4]);
        assert(plain[4] == "http://"@[4]);
        assert("http://"@[4] == ':');
        assert("https://"@[4] == 's');
    }
    assert(trim_start_str(plain, "https://"@) == plain);
    assert(before(rest, '/') == host);
}

/// The hash of an id begins at the offset of its kind, and every byte goes in
/// by an exclusive or and a product with the prime.
pub proof fn hashes_go_byte_by_byte(bytes: Seq<u8>, b: u8)
    ensures
        fnv1a(Seq::<u8>::empty()) == 0xcbf2_9ce4_8422_2325,
        fnv1a(bytes.push(b)) == (fnv1a(bytes) ^ b as u64).wrapping_mul(0x0000_0100_0000_01b3),
{
    assert(bytes.push(b).drop_last() =~= bytes);
}

/// A machine's port is one of thirty-two, eight apart, by the rest of the hash
/// of its id.
pub proof fn ports_come_from_the_hash(machine_id: Seq<char>)
    ensures
        43648 <= derived_port(machine_id) < 43648 + 32 * 8,
        derived_port(machine_id) - 43648 == 8 * (fnv1a(vstd::utf8::encode_utf8(machine_id)) % 32),
{
}

/// A number that cannot be read, or that is out of its range, is refused.
pub proof fn numbers_are_in_their_range(x: Number, v: Seq<char>)
    ensures
        given(Some(v)) matches Some(t) ==> (parsed(Key::Number(x), Some(v)) is Ok <==> (
        parse_unsigned(t, u32::MAX as nat) matches Some(n) && x.range().0 <= n <= x.range().1)),
        given(Some(v)) is None ==> parsed(Key::Number(x), Some(v)) == parsed(Key::Number(x), None),
        parsed(Key::Number(x), None) is Ok,
{
}

/// A name that is no key is named in the complaint.
pub proof fn unknown_keys_are_named(name: Seq<char>)
    ensures
        unknown_key(name) == "unknown or non-editable config key "@ + debug_form(name),
{
}

/// What is no number, or a number out of its range, is complained of by the
/// name of the key: with the text that was given, or with the range.
pub proof fn number_complaints_name_the_key(x: Number, v: Seq<char>)
    ensures
        given(Some(v)) matches Some(t) ==> (parse_unsigned(t, u32::MAX as nat) is None ==> parsed(
            Key::Number(x),
            Some(v),
        )->Err_0 == x.spec_name()@ + " must be a number (got "@ + debug_form(t) + ")"@),
        given(Some(v)) matches Some(t) ==> (parse_unsigned(t, u32::MAX as nat) matches Some(n)
            ==> (x == Number::RcMaxSessions && (n < 1 || n > 8) ==> parsed(
            Key::Number(x),
            Some(v),
        )->Err_0 == x.spec_name()@ + " must be between "@ + decimal(1) + " and "@ + decimal(8))),
        given(Some(v)) matches Some(t) ==> (parse_unsigned(t, u32::MAX as nat) matches Some(n)
            ==> (x == Number::RelayServerPort && (n < 1 || n > 65535) ==> parsed(
            Key::Number(x),
            Some(v),
        )->Err_0 == x.spec_name()@ + " must be 1-65535 (got "@ + decimal(n) + ")"@)),
        given(Some(v)) matches Some(t) ==> (parse_unsigned(t, u32::MAX as nat) matches Some(n)
            ==> (x == Number::OverlayIfaceMetric && n > 9999 ==> parsed(
            Key::Number(x),
            Some(v),
        )->Err_0 == x.spec_name()@ + " must be 0..=9999 (got "@ + decimal(n) + ")"@)),
        given(Some(v)) matches Some(t) ==> (parse_unsigned(t, u32::MAX as nat) matches Some(n)
            ==> (x == Number::RateFactorH264 && (n < 50 || n > 400) ==> parsed(
            Key::Number(x),
            Some(v),
        )->Err_0 == x.spec_name()@ + " must be between 50 and 400 (percent)"@)),
{
}

/// What a key does not take is complained of with what it takes.
pub proof fn complaints_say_what_is_expected(f: Flag, t: Toggle, v: Seq<char>)
    ensures
        parsed(Key::Flag(f), Some(v)) matches Err(m) ==> m == "expected true/false (got "@
            + debug_form(lower(trim(trim(v)))) + ")"@,
        parsed(Key::Toggle(t), Some(v)) matches Err(m) ==> m == "expected true/false (got "@
            + debug_form(lower(trim(trim(v)))) + ")"@,
        parsed(Key::OverlayPathmon, Some(v)) matches Err(m) ==> m
            == "overlay_pathmon must be on | shadow | off"@,
        parsed(Key::OverlayDemote, Some(v)) matches Err(m) ==> m
            == "overlay_demote must be on | shadow | off"@,
        parsed(Key::OverlayRpf, Some(v)) matches Err(m) ==> m
            == "overlay_rpf must be warn | enforce | off"@,
        parsed(Key::EncoderPreference, Some(v)) matches Err(m) ==> m
            == "encoder_preference must be auto|hardware|software (got "@ + debug_form(
            lower(trim(v)),
        ) + ")"@,
        parsed(Key::IceFollowRenomination, Some(v)) matches Err(m) ==> m
            == "ice_follow_renomination must be auto|always|never (got "@ + debug_form(
            lower(trim(v)),
        ) + ")"@,
        parsed(Key::PowerPolicy, Some(v)) matches Err(m) ==> m
            == "power_policy must be one of never | on-ac | always (got "@ + debug_form(
            lower(trim(v)),
        ) + ")"@,
        parsed(Key::SshAccountMode, Some(v)) matches Err(m) ==> m
            == "ssh_account_mode must be daemon | console_user | named:<account> (got "@
            + debug_form(trim(v)) + ")"@,
        parsed(Key::SshMaxPrivilege, Some(v)) matches Err(m) ==> m
            == "ssh_max_privilege must be daemon | console_user (got "@ + debug_form(trim(v))
            + "); empty means no device-side limit"@,
{
}

} // verus!
