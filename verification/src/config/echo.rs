//! What the config surface shows for a key can be written back: it is
//! accepted and means the same value.
use vstd::prelude::*;
use crate::config::agent::{AgentConfig, BUILT_IN_APPS};
use crate::config::keys::{Flag, Key, Number, Toggle};
use crate::config::surface::{
    bool_or_parsed,
    bool_parsed,
    bool_text,
    cidr_list_parsed,
    cidrs_checked,
    encoder_text,
    mode_parsed,
    number_parsed,
    parsed,
    rendered,
    setting,
    Setting,
};
use crate::num::{decimal, decimal_round_trip, is_digit, lemma_decimal_reads_back};
use crate::text::{
    comma_items, first, given, is_space, join, lemma_first, lemma_first_is, lemma_trim_end_cut,
    lemma_trim_end_is, lemma_trim_settles, lemma_trim_start_cut, lemma_trim_start_is, lower,
    lower_char, nonempty_trimmed, split, trim,
};

verus! {

/// `s` begins and ends with no white space.
pub open spec fn tight(s: Seq<char>) -> bool {
    s.len() > 0 && !is_space(s[0]) && !is_space(s.last())
}

/// Trimming leaves such a text as it is.
pub proof fn lemma_tight(s: Seq<char>)
    requires
        tight(s),
    ensures
        trim(s) == s,
        given(Some(s)) == Some(s),
{
    lemma_trim_start_is(s, 0);
    assert(s.skip(0) =~= s);
    lemma_trim_end_is(s, s.len() as int);
    assert(s.take(s.len() as int) =~= s);
}

proof fn lemma_given_tight(v: Option<Seq<char>>)
    ensures
        given(v) matches Some(t) ==> tight(t),
{
    if let Some(s) = v {
        lemma_trim_settles(s);
    }
}

proof fn lemma_lower_settles(s: Seq<char>)
    ensures
        lower(lower(s)) == lower(s),
        tight(s) ==> tight(lower(s)),
{
    assert forall|i: int| 0 <= i < s.len() implies #[trigger] lower(lower(s))[i] == lower(s)[i] by {
        assert(lower(s)[i] == lower_char(s[i]));
    }
    assert(lower(lower(s)) =~= lower(s));
    if tight(s) {
        assert(lower(s)[0] == lower_char(s[0]));
        assert(lower(s).last() == lower_char(s.last()));
    }
}

proof fn lemma_words()
    ensures
        tight("true"@) && lower("true"@) == "true"@,
        tight("false"@) && lower("false"@) == "false"@,
        tight("auto"@) && lower("auto"@) == "auto"@,
        tight("hardware"@) && lower("hardware"@) == "hardware"@,
        tight("software"@) && lower("software"@) == "software"@,
        tight("always"@) && lower("always"@) == "always"@,
        tight("never"@) && lower("never"@) == "never"@,
        "false"@ != "true"@ && "false"@ != "1"@ && "false"@ != "yes"@ && "false"@ != "on"@,
        "hardware"@ != "auto"@,
        "software"@ != "auto"@ && "software"@ != "hardware"@ && "software"@ != "hw"@ && "software"@
            != "mf"@,
        "always"@ != "auto"@,
        "never"@ != "auto"@ && "never"@ != "always"@,
{
    reveal_strlit("true");
    reveal_strlit("false");
    reveal_strlit("auto");
    reveal_strlit("hardware");
    reveal_strlit("software");
    reveal_strlit("always");
    reveal_strlit("never");
    reveal_strlit("1");
    reveal_strlit("yes");
    reveal_strlit("on");
    reveal_strlit("hw");
    reveal_strlit("mf");
    assert(lower("true"@) =~= "true"@);
    assert(lower("false"@) =~= "false"@);
    assert(lower("auto"@) =~= "auto"@);
    assert(lower("hardware"@) =~= "hardware"@);
    assert(lower("software"@) =~= "software"@);
    assert(lower("always"@) =~= "always"@);
    assert(lower("never"@) =~= "never"@);
    assert("false"@.len() == 5 && "true"@.len() == 4 && "1"@.len() == 1 && "yes"@.len() == 3
        && "on"@.len() == 2);
    assert("hardware"@.len() == 8 && "auto"@.len() == 4 && "software"@.len() == 8);
    assert("hardware"@[0] == 'h' && "software"@[0] == 's');
    assert("hw"@.len() == 2 && "mf"@.len() == 2 && "always"@.len() == 6 && "never"@.len() == 5);
}

proof fn lemma_bool_echo(b: bool)
    ensures
        given(Some(bool_text(b))) == Some(bool_text(b)),
        bool_parsed(bool_text(b)) == Ok::<_, Seq<char>>(b),
{
    lemma_words();
    lemma_tight(bool_text(b));
}

/// A number in decimal begins and ends with a digit.
pub proof fn lemma_decimal_tight(n: nat)
    ensures
        tight(decimal(n)),
{
    lemma_decimal_reads_back(n);
    let d = decimal(n);
    assert(is_digit(d[0]));
    assert(is_digit(d[d.len() - 1]));
}

/// A list item: not empty, no white space at its ends, no comma in it.
pub open spec fn item(s: Seq<char>) -> bool {
    tight(s) && !s.contains(',')
}

proof fn lemma_trim_keeps_out(s: Seq<char>, c: char)
    requires
        !s.contains(c),
    ensures
        !trim(s).contains(c),
{
    let k = lemma_trim_start_cut(s);
    let t = s.skip(k);
    let m = lemma_trim_end_cut(t);
    if trim(s).contains(c) {
        let i = choose|i: int| 0 <= i < trim(s).len() && trim(s)[i] == c;
        assert(t.take(m)[i] == s[k + i]);
        assert(s[k + i] == c);
    }
}

/// No piece holds what the text was split at.
pub proof fn lemma_pieces_lack(s: Seq<char>, c: char, i: int)
    requires
        0 <= i < split(s, c).len(),
    ensures
        !split(s, c)[i].contains(c),
    decreases s.len(),
{
    lemma_first(s, c);
    if first(s, c) < s.len() {
        let head = s.take(first(s, c));
        let rest = s.skip(first(s, c) + 1);
        if i == 0 {
            assert(split(s, c)[0] == head);
            if head.contains(c) {
                let j = choose|j: int| 0 <= j < head.len() && head[j] == c;
                assert(s[j] == c);
            }
        } else {
            lemma_pieces_lack(rest, c, i - 1);
            assert(split(s, c)[i] == split(rest, c)[i - 1]);
        }
    }
}

proof fn lemma_trimmed_items(list: Seq<Seq<char>>, i: int)
    requires
        forall|j: int| 0 <= j < list.len() ==> !(#[trigger] list[j]).contains(','),
        0 <= i < nonempty_trimmed(list).len(),
    ensures
        item(nonempty_trimmed(list)[i]),
    decreases list.len(),
{
    if list.len() > 0 {
        let rest = list.drop_last();
        assert forall|j: int| 0 <= j < rest.len() implies !(#[trigger] rest[j]).contains(',') by {
            assert(rest[j] == list[j]);
        }
        if i < nonempty_trimmed(rest).len() {
            lemma_trimmed_items(rest, i);
        } else {
            let l = list.last();
            assert(l == list[list.len() - 1]);
            lemma_trim_keeps_out(l, ',');
            lemma_trim_settles(l);
        }
    }
}

/// The pieces of a comma-separated list are list items.
pub proof fn comma_items_are_items(s: Seq<char>, i: int)
    requires
        0 <= i < comma_items(s).len(),
    ensures
        item(comma_items(s)[i]),
{
    let list = split(s, ',');
    assert forall|j: int| 0 <= j < list.len() implies !(#[trigger] list[j]).contains(',') by {
        lemma_pieces_lack(s, ',', j);
    }
    lemma_trimmed_items(list, i);
}

/// A text to which a piece is added splits into one more piece.
pub proof fn lemma_split_append(s: Seq<char>, c: char, tail: Seq<char>)
    requires
        !tail.contains(c),
    ensures
        split(s.push(c) + tail, c) == split(s, c).push(tail),
    decreases s.len(),
{
    let whole = s.push(c) + tail;
    lemma_first(s, c);
    let k = first(s, c);
    lemma_first_is(whole, c, k);
    if k == s.len() {
        assert(whole.take(k) =~= s);
        assert(whole.skip(k + 1) =~= tail);
        lemma_first(tail, c);
        assert(split(tail, c) == seq![tail]);
        assert(split(whole, c) =~= split(s, c).push(tail));
    } else {
        let rest = s.skip(k + 1);
        assert(whole.take(k) =~= s.take(k));
        assert(whole.skip(k + 1) =~= rest.push(c) + tail);
        lemma_split_append(rest, c, tail);
        assert(split(whole, c) =~= split(s, c).push(tail));
    }
}

proof fn lemma_split_join(l: Seq<Seq<char>>)
    requires
        l.len() > 0,
        forall|i: int| 0 <= i < l.len() ==> item(#[trigger] l[i]),
    ensures
        split(join(l, ','), ',') == l,
    decreases l.len(),
{
    if l.len() == 1 {
        assert(item(l[0]));
        lemma_first(l[0], ',');
        assert(seq![l[0]] =~= l);
    } else {
        let init = l.drop_last();
        assert forall|i: int| 0 <= i < init.len() implies item(#[trigger] init[i]) by {
            assert(init[i] == l[i]);
        }
        lemma_split_join(init);
        assert(item(l[l.len() - 1]));
        lemma_split_append(join(init, ','), ',', l.last());
        assert(init.push(l.last()) =~= l);
    }
}

proof fn lemma_items_stay(l: Seq<Seq<char>>)
    requires
        forall|i: int| 0 <= i < l.len() ==> item(#[trigger] l[i]),
    ensures
        nonempty_trimmed(l) == l,
    decreases l.len(),
{
    if l.len() > 0 {
        let init = l.drop_last();
        assert forall|i: int| 0 <= i < init.len() implies item(#[trigger] init[i]) by {
            assert(init[i] == l[i]);
        }
        lemma_items_stay(init);
        assert(item(l[l.len() - 1]));
        lemma_tight(l.last());
        assert(init.push(l.last()) =~= l);
    }
}

/// A list that was shown reads back as the same list.
pub proof fn shown_list_reads_back(l: Seq<Seq<char>>)
    requires
        forall|i: int| 0 <= i < l.len() ==> item(#[trigger] l[i]),
    ensures
        comma_items(join(l, ',')) == l,
{
    lemma_items_stay(l);
    if l.len() > 0 {
        lemma_split_join(l);
    } else {
        let e = join(l, ',');
        assert(e =~= seq![]);
        assert(first(e, ',') == 0);
        assert(split(e, ',') == seq![e]);
        let one = seq![e];
        assert(one.drop_last() =~= seq![]);
        assert(nonempty_trimmed(one.drop_last()) =~= seq![]);
        lemma_trim_start_is(e, 0);
        assert(e.skip(0) =~= e);
        assert(trim(e).len() == 0);
        assert(nonempty_trimmed(one) =~= seq![]);
        assert(l =~= seq![]);
    }
}

proof fn lemma_checked_cidrs_stay(tokens: Seq<Seq<char>>)
    ensures
        cidrs_checked(tokens) matches Ok(l) ==> l == tokens,
    decreases tokens.len(),
{
    if tokens.len() > 0 {
        lemma_checked_cidrs_stay(tokens.drop_last());
        assert(tokens.drop_last().push(tokens.last()) =~= tokens);
    } else {
        assert(tokens =~= seq![]);
    }
}

proof fn lemma_cidr_list_echo(v: Option<Seq<char>>)
    ensures
        cidr_list_parsed(v) matches Ok(l) ==> cidr_list_parsed(Some(join(l, ',')))
            == cidr_list_parsed(v),
{
    if let Ok(l) = cidr_list_parsed(v) {
        match v {
            Some(t) => {
                lemma_checked_cidrs_stay(comma_items(t));
                assert forall|i: int| 0 <= i < l.len() implies item(#[trigger] l[i]) by {
                    comma_items_are_items(t, i);
                }
            },
            None => {},
        }
        shown_list_reads_back(l);
    }
}

proof fn lemma_mode_echo(
    v: Option<Seq<char>>,
    a: Seq<char>,
    b: Seq<char>,
    c: Seq<char>,
    complaint: Seq<char>,
)
    ensures
        mode_parsed(v, a, b, c, complaint) matches Ok(t) ==> mode_parsed(t, a, b, c, complaint)
            == mode_parsed(v, a, b, c, complaint),
{
    lemma_given_tight(v);
    if let Some(t) = given(v) {
        lemma_lower_settles(t);
        lemma_tight(lower(t));
    }
}

proof fn lemma_number_echo(n: Number, v: Option<Seq<char>>)
    ensures
        number_parsed(n, v) matches Ok(Some(x)) ==> number_parsed(n, Some(decimal(x as nat)))
            == number_parsed(n, v),
{
    if let Ok(Some(x)) = number_parsed(n, v) {
        lemma_decimal_tight(x as nat);
        lemma_tight(decimal(x as nat));
        decimal_round_trip(x as nat, u32::MAX as nat);
    }
}

/// What is shown for a written value is accepted again and means the same
/// value; where nothing is shown, clearing the key means the same. This holds
/// of every key but the two JSON documents.
pub proof fn shown_value_reads_back(key: Key, v: Option<Seq<char>>)
    requires
        key != Key::ForwardAcl,
        key != Key::VirtualDesktopApps,
    ensures
        parsed(key, v) matches Ok(s) ==> parsed(key, rendered(key, s)) == parsed(key, v),
{
    if let Ok(s) = parsed(key, v) {
        lemma_words();
        lemma_given_tight(v);
        match key {
            Key::Flag(f) => {
                if let Ok(b) = bool_or_parsed(v, f.unset()) {
                    lemma_bool_echo(b);
                }
            },
            Key::Toggle(_) => {
                lemma_bool_echo(true);
                lemma_bool_echo(false);
            },
            Key::Number(n) => lemma_number_echo(n, v),
            Key::OverlayAdvertisedRoutes | Key::AdvertiseRoutes => lemma_cidr_list_echo(v),
            Key::SshAuthorizedKeys => {
                let l = match v {
                    Some(t) => comma_items(t),
                    None => seq![],
                };
                assert forall|i: int| 0 <= i < l.len() implies item(#[trigger] l[i]) by {
                    comma_items_are_items(v->0, i);
                }
                shown_list_reads_back(l);
            },
            Key::PowerPolicy => {
                let t = match v {
                    Some(t) => t,
                    None => "never"@,
                };
                reveal_strlit("never");
                reveal_strlit("on-ac");
                reveal_strlit("on_ac");
                reveal_strlit("ac");
                reveal_strlit("always");
                let w = lower(trim(t));
                assert(w.len() > 0);
                assert(trim(t).len() > 0);
                lemma_trim_settles(t);
                lemma_lower_settles(trim(t));
                lemma_tight(w);
            },
            Key::SshPort | Key::NetstackSocksPort => {
                if let Setting::Port(Some(p)) = s {
                    lemma_decimal_tight(p as nat);
                    lemma_tight(decimal(p as nat));
                    decimal_round_trip(p as nat, 65535);
                }
            },
            Key::EncoderPreference => {
                if let Setting::Encoder(e) = s {
                    lemma_tight(encoder_text(e));
                }
            },
            Key::OverlayPathmon => lemma_mode_echo(
                v,
                "on"@,
                "shadow"@,
                "off"@,
                "overlay_pathmon must be on | shadow | off"@,
            ),
            Key::OverlayDemote => lemma_mode_echo(
                v,
                "on"@,
                "shadow"@,
                "off"@,
                "overlay_demote must be on | shadow | off"@,
            ),
            Key::OverlayRpf => lemma_mode_echo(
                v,
                "warn"@,
                "enforce"@,
                "off"@,
                "overlay_rpf must be warn | enforce | off"@,
            ),
            Key::IceFollowRenomination => {
                lemma_tight("always"@);
                lemma_tight("never"@);
            },
            Key::OverlayExitNode | Key::SshAccountMode | Key::SshMaxPrivilege => {
                if let Some(t) = given(v) {
                    lemma_tight(t);
                }
            },
            _ => {},
        }
    }
}

/// Clearing a key shows what a blank configuration shows.
pub proof fn clearing_restores_the_built_in(key: Key, blank: AgentConfig)
    requires
        blank.is_blank(),
    ensures
        parsed(key, None) matches Ok(s) && rendered(key, s) == rendered(
            key,
            setting(blank, key),
        ),
{
    lemma_words();
    match key {
        Key::PowerPolicy => {
            lemma_tight("never"@);
        },
        Key::OverlayAdvertisedRoutes => {
            assert(crate::text::views(blank.overlay_advertised_routes@) =~= seq![]);
        },
        Key::AdvertiseRoutes => {
            assert(crate::text::views(blank.advertise_routes@) =~= seq![]);
        },
        Key::SshAuthorizedKeys => {
            assert(crate::text::views(blank.ssh_authorized_keys@) =~= seq![]);
        },
        Key::ForwardAcl => {
            assert(crate::text::views(blank.forward_acl.allowlist@) =~= seq![]);
        },
        _ => {},
    }
}

/// What is shown for a built-in value is accepted, and the same is shown then.
/// For the forward allowlist this rests on how its document is read, and the
/// functions that read it promise it.
pub proof fn built_in_values_read_back(key: Key, blank: AgentConfig)
    requires
        blank.is_blank(),
        key != Key::ForwardAcl,
    ensures
        parsed(key, rendered(key, setting(blank, key))) matches Ok(s) && rendered(key, s)
            == rendered(key, setting(blank, key)),
{
    clearing_restores_the_built_in(key, blank);
    if key == Key::VirtualDesktopApps {
        reveal_strlit(
            "{\"enabled\":true,\"apps\":[{\"key\":\"bash\",\"label\":\"New bash session\",\"command\":\"tmux\"}]}",
        );
        lemma_tight(BUILT_IN_APPS@);
    } else {
        shown_value_reads_back(key, None);
    }
}

} // verus!
