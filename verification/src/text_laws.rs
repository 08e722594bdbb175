//! What splitting, trimming, folding and reading of texts come to.
use vstd::prelude::*;
use crate::config::echo::{lemma_pieces_lack, lemma_split_append};
use crate::ip::{
    IpParts,
    double_colon,
    groups,
    hex_digit,
    hex_group,
    hex_groups,
    hex_value,
    ip_address,
    ipv4,
    ipv6,
    loopback,
    octet,
    octets,
};
use crate::num::{decimal, is_digit, lemma_decimal_reads_back};
use crate::text::{
    before,
    comma_items,
    first,
    given,
    has_part,
    is_space,
    join,
    last,
    lemma_first,
    lemma_trim_end_is,
    lemma_trim_start_is,
    lower,
    lower_char,
    nonempty_trimmed,
    replace_all,
    split,
    split_once,
    trim,
    trim_end_char,
};

verus! {

proof fn lemma_join_first(list: Seq<Seq<char>>, sep: char)
    requires
        list.len() > 1,
    ensures
        join(list, sep) == list[0].push(sep) + join(list.drop_first(), sep),
    decreases list.len(),
{
    let rest = list.drop_first();
    if list.len() == 2 {
        assert(join(list.drop_last(), sep) == list[0]);
        assert(join(rest, sep) == rest[0]);
    } else {
        let init = list.drop_last();
        lemma_join_first(init, sep);
        assert(init.drop_first() =~= rest.drop_last());
        assert(init[0] == list[0]);
        let a = list[0].push(sep);
        let b = join(rest.drop_last(), sep);
        assert(rest.last() == list.last());
        assert((a + b).push(sep) + list.last() =~= a + (b.push(sep) + list.last()));
    }
}

/// The pieces of a text, with the separator between them, are the text, and no
/// piece holds a separator.
pub proof fn pieces_make_the_text(s: Seq<char>, c: char)
    ensures
        split(s, c).len() > 0,
        join(split(s, c), c) == s,
        forall|i: int| 0 <= i < split(s, c).len() ==> !(#[trigger] split(s, c)[i]).contains(c),
    decreases s.len(),
{
    lemma_first(s, c);
    let k = first(s, c);
    if k < s.len() {
        let rest = s.skip(k + 1);
        pieces_make_the_text(rest, c);
        let all = split(s, c);
        assert(all.drop_first() =~= split(rest, c));
        assert(all[0] == s.take(k));
        lemma_join_first(all, c);
        assert(s.take(k).push(c) + rest =~= s);
    }
    assert forall|i: int| 0 <= i < split(s, c).len() implies !(#[trigger] split(s, c)[i]).contains(
        c,
    ) by {
        lemma_pieces_lack(s, c, i);
    }
}

/// The items of a comma-separated list are its trimmed pieces, in order, but
/// for those of which nothing is left.
pub proof fn items_are_the_trimmed_pieces(
    s: Seq<char>,
    cut: spec_fn(Seq<char>) -> Seq<char>,
    left: spec_fn(Seq<char>) -> bool,
)
    requires
        forall|t: Seq<char>| #[trigger] cut(t) == trim(t),
        forall|t: Seq<char>| #[trigger] left(t) <==> t.len() > 0,
    ensures
        comma_items(s) == split(s, ',').map_values(cut).filter(left),
{
    lemma_items(split(s, ','), cut, left);
}

proof fn lemma_items(
    list: Seq<Seq<char>>,
    cut: spec_fn(Seq<char>) -> Seq<char>,
    left: spec_fn(Seq<char>) -> bool,
)
    requires
        forall|t: Seq<char>| #[trigger] cut(t) == trim(t),
        forall|t: Seq<char>| #[trigger] left(t) <==> t.len() > 0,
    ensures
        nonempty_trimmed(list) == list.map_values(cut).filter(left),
    decreases list.len(),
{
    reveal(Seq::filter);
    if list.len() > 0 {
        lemma_items(list.drop_last(), cut, left);
        assert(list.map_values(cut).drop_last() =~= list.drop_last().map_values(cut));
        assert(list.map_values(cut).last() == trim(list.last()));
        assert(left(trim(list.last())) <==> trim(list.last()).len() > 0);
    }
}

/// Trimming takes the white space at either end away and nothing else.
pub proof fn trimming_takes_white_space(head: Seq<char>, s: Seq<char>, tail: Seq<char>)
    requires
        forall|i: int| 0 <= i < head.len() ==> is_space(#[trigger] head[i]),
        forall|i: int| 0 <= i < tail.len() ==> is_space(#[trigger] tail[i]),
        s.len() > 0 ==> !is_space(s[0]) && !is_space(s.last()),
    ensures
        trim(head + s + tail) == s,
        s.len() > 0 ==> given(Some(head + s + tail)) == Some(s),
        s.len() == 0 ==> given(Some(head + s + tail)) is None,
        given(None) is None,
{
    let w = head + s + tail;
    if s.len() > 0 {
        assert(w[head.len() as int] == s[0]);
        lemma_trim_start_is(w, head.len() as int);
        let t = w.skip(head.len() as int);
        assert(t =~= s + tail);
        assert(t[s.len() - 1] == s.last());
        assert forall|i: int| s.len() <= i < t.len() implies is_space(t[i]) by {
            assert(t[i] == tail[i - s.len()]);
        }
        lemma_trim_end_is(t, s.len() as int);
        assert(t.take(s.len() as int) =~= s);
    } else {
        assert forall|i: int| 0 <= i < w.len() implies is_space(w[i]) by {
            if i < head.len() {
                assert(w[i] == head[i]);
            } else {
                assert(w[i] == tail[i - head.len()]);
            }
        }
        lemma_trim_start_is(w, w.len() as int);
        assert(w.skip(w.len() as int) =~= s);
        lemma_trim_end_is(s, 0);
        assert(s.take(0) =~= s);
    }
}

/// White space is what Unicode says it is: the controls from tab to carriage
/// return, the next line, and the spaces and separators.
pub proof fn white_space_is_what_it_is(c: char)
    ensures
        is_space(c) <==> {
            let n = c as u32;
            ||| 9 <= n <= 13
            ||| n == 32
            ||| n == 0x85
            ||| n == 0xa0
            ||| n == 0x1680
            ||| 0x2000 <= n <= 0x200a
            ||| n == 0x2028
            ||| n == 0x2029
            ||| n == 0x202f
            ||| n == 0x205f
            ||| n == 0x3000
        },
{
}

/// Folding changes the twenty-six capital letters to the small ones and leaves
/// every other character as it is, so it settles.
pub proof fn folding_is_by_letter(s: Seq<char>, i: int)
    requires
        0 <= i < s.len(),
    ensures
        lower(s).len() == s.len(),
        'A' <= s[i] <= 'Z' ==> lower(s)[i] as u32 == s[i] as u32 + 32,
        !('A' <= s[i] <= 'Z') ==> lower(s)[i] == s[i],
        lower_char(lower_char(s[i])) == lower_char(s[i]),
        !('A' <= lower(s)[i] <= 'Z'),
{
}

/// A text is cut at the first separator, which belongs to neither half.
pub proof fn cuts_are_at_the_first(head: Seq<char>, c: char, tail: Seq<char>)
    requires
        !head.contains(c),
    ensures
        split_once(head.push(c) + tail, c) == Some((head, tail)),
        before(head.push(c) + tail, c) == head,
        before(head, c) == head,
        split_once(head, c) is None,
{
    let s = head.push(c) + tail;
    assert(s[head.len() as int] == c);
    assert forall|i: int| 0 <= i < head.len() implies s[i] != c by {
        assert(s[i] == head[i]);
        assert(head.contains(head[i]));
    }
    crate::text::lemma_first_is(s, c, head.len() as int);
    assert(s.take(head.len() as int) =~= head);
    assert(s.skip(head.len() as int + 1) =~= tail);
    lemma_first(head, c);
    assert(head.take(head.len() as int) =~= head);
}

/// The last place of a character is where it stands and after which it does
/// not stand.
pub proof fn the_last_is_the_last(head: Seq<char>, c: char, tail: Seq<char>)
    requires
        !tail.contains(c),
    ensures
        last(head.push(c) + tail, c) == head.len(),
        last(tail, c) == -1,
{
    let s = head.push(c) + tail;
    assert forall|i: int| head.len() < i < s.len() implies s[i] != c by {
        assert(s[i] == tail[i - head.len() - 1]);
        assert(tail.contains(s[i]));
    }
    crate::text::lemma_last_is(s, c, head.len() as int);
    assert forall|i: int| -1 < i < tail.len() implies tail[i] != c by {
        assert(tail.contains(tail[i]));
    }
    crate::text::lemma_last_is(tail, c, -1);
}

/// Only the run of a character at the end is taken away, all of it.
pub proof fn runs_are_taken_from_the_end(s: Seq<char>, c: char, n: nat)
    requires
        s.len() > 0 ==> s.last() != c,
    ensures
        trim_end_char(s + Seq::new(n, |i: int| c), c) == s,
    decreases n,
{
    let w = s + Seq::new(n, |i: int| c);
    if n == 0 {
        assert(w =~= s);
    } else {
        runs_are_taken_from_the_end(s, c, (n - 1) as nat);
        assert(w.drop_last() =~= s + Seq::new((n - 1) as nat, |i: int| c));
        assert(w.last() == c);
    }
}

/// A text holds a part exactly where the part stands somewhere in it.
pub proof fn parts_stand_somewhere(head: Seq<char>, part: Seq<char>, tail: Seq<char>)
    ensures
        has_part(head + part + tail, part),
    decreases head.len(),
{
    let s = head + part + tail;
    if head.len() == 0 {
        assert(s.take(part.len() as int) =~= part);
    } else {
        assert(s.drop_first() =~= head.drop_first() + part + tail);
        parts_stand_somewhere(head.drop_first(), part, tail);
    }
}

/// Where a text holds a part, something stands before it and something after.
pub proof fn held_parts_are_found(s: Seq<char>, part: Seq<char>) -> (k: int)
    requires
        has_part(s, part),
    ensures
        0 <= k <= s.len() - part.len(),
        s.subrange(k, k + part.len()) == part,
    decreases s.len(),
{
    if part.is_prefix_of(s) {
        assert(s.subrange(0, part.len() as int) =~= part);
        0
    } else {
        let k = held_parts_are_found(s.drop_first(), part);
        assert(s.subrange(k + 1, k + 1 + part.len()) =~= s.drop_first().subrange(
            k,
            k + part.len(),
        ));
        k + 1
    }
}

/// A text without the part to be replaced stays as it is.
pub proof fn nothing_else_is_replaced(s: Seq<char>, from: Seq<char>, to: Seq<char>)
    requires
        !has_part(s, from),
    ensures
        replace_all(s, from, to) == s,
    decreases s.len(),
{
    if s.len() > 0 && from.len() > 0 {
        nothing_else_is_replaced(s.drop_first(), from, to);
        assert(seq![s[0]] + s.drop_first() =~= s);
    }
}

proof fn lemma_decimal_front(n: nat)
    ensures
        n > 0 ==> decimal(n)[0] != '0',
        n < 10 ==> decimal(n).len() == 1,
        10 <= n < 100 ==> decimal(n).len() == 2,
        100 <= n < 1000 ==> decimal(n).len() == 3,
    decreases n,
{
    if n >= 10 {
        lemma_decimal_front(n / 10);
        lemma_decimal_reads_back(n / 10);
        assert(decimal(n)[0] == decimal(n / 10)[0]);
    }
}

proof fn lemma_octet(n: nat)
    requires
        n <= 255,
    ensures
        octet(decimal(n)) == Some(n as u32),
        !decimal(n).contains('.'),
{
    lemma_decimal_reads_back(n);
    lemma_decimal_front(n);
    let d = decimal(n);
    if d.contains('.') {
        let i = choose|i: int| 0 <= i < d.len() && d[i] == '.';
        assert(is_digit(d[i]));
    }
    if n == 0 {
        assert(d.len() == 1);
    }
}

/// The dotted form of four numbers.
pub open spec fn dotted(a: nat, b: nat, c: nat, d: nat) -> Seq<char> {
    ((decimal(a).push('.') + decimal(b)).push('.') + decimal(c)).push('.') + decimal(d)
}

/// Four numbers up to 255 with dots between them are an address of four parts,
/// in their order; it is the host's own exactly where the first is 127.
pub proof fn four_numbers_are_an_address(a: nat, b: nat, c: nat, d: nat)
    requires
        a <= 255,
        b <= 255,
        c <= 255,
        d <= 255,
    ensures
        ip_address(dotted(a, b, c, d)) == Some(
            IpParts::V4(seq![a as u32, b as u32, c as u32, d as u32]),
        ),
        loopback(ip_address(dotted(a, b, c, d)).unwrap()) <==> a == 127,
{
    lemma_octet(a);
    lemma_octet(b);
    lemma_octet(c);
    lemma_octet(d);
    let s1 = decimal(a);
    let s2 = s1.push('.') + decimal(b);
    let s3 = s2.push('.') + decimal(c);
    lemma_first(s1, '.');
    assert(split(s1, '.') == seq![s1]);
    lemma_split_append(s1, '.', decimal(b));
    lemma_split_append(s2, '.', decimal(c));
    lemma_split_append(s3, '.', decimal(d));
    let ps = seq![decimal(a), decimal(b), decimal(c), decimal(d)];
    assert(split(dotted(a, b, c, d), '.') =~= ps);
    let p3 = seq![decimal(a), decimal(b), decimal(c)];
    let p2 = seq![decimal(a), decimal(b)];
    let p1 = seq![decimal(a)];
    let p0 = Seq::<Seq<char>>::empty();
    assert(ps.drop_last() =~= p3);
    assert(p3.drop_last() =~= p2);
    assert(p2.drop_last() =~= p1);
    assert(p1.drop_last() =~= p0);
    assert(octets(p0) == Some(Seq::<u32>::empty()));
    assert(octets(p1) == Some(Seq::<u32>::empty().push(a as u32)));
    assert(octets(p2) == Some(Seq::<u32>::empty().push(a as u32).push(b as u32)));
    assert(octets(p3) == Some(
        Seq::<u32>::empty().push(a as u32).push(b as u32).push(c as u32),
    ));
    let q = Seq::<u32>::empty().push(a as u32).push(b as u32).push(c as u32).push(d as u32);
    assert(octets(ps) == Some(q));
    assert(q =~= seq![a as u32, b as u32, c as u32, d as u32]);
    assert(ipv4(dotted(a, b, c, d)) == Some(q));
}

/// A part of an address of four has no leading zero, no sign and is at most
/// 255.
pub proof fn parts_of_four_are_plain(p: Seq<char>, n: nat)
    ensures
        p.len() > 0 ==> octet(seq!['0'] + p) is None,
        octet(seq!['+'] + p) is None,
        octet(Seq::<char>::empty()) is None,
        n > 255 ==> octet(decimal(n)) is None,
        octet(p) matches Some(x) ==> x <= 255,
{
    let z = seq!['0'] + p;
    assert(z[0] == '0');
    let q = seq!['+'] + p;
    assert(q[0] == '+');
    assert(!is_digit(q[0]));
    lemma_decimal_reads_back(n);
}

proof fn lemma_group(g: Seq<char>)
    requires
        1 <= g.len() <= 4,
        hex_value(g) is Some,
    ensures
        !g.contains(':'),
        hex_value(g).unwrap() <= 0xffff,
    decreases g.len(),
{
    let front = g.drop_last();
    let d = g.last();
    assert(hex_digit(d) is Some);
    assert(d != ':');
    if front.len() > 0 {
        lemma_group(front);
    }
    lemma_hex_size(g);
    if g.contains(':') {
        let i = choose|i: int| 0 <= i < g.len() && g[i] == ':';
        if i < front.len() {
            assert(front[i] == ':');
            assert(front.contains(':'));
        }
    }
}

proof fn lemma_hex_size(g: Seq<char>)
    ensures
        g.len() <= 1 ==> (hex_value(g) matches Some(v) ==> v <= 0xf),
        g.len() <= 2 ==> (hex_value(g) matches Some(v) ==> v <= 0xff),
        g.len() <= 3 ==> (hex_value(g) matches Some(v) ==> v <= 0xfff),
        g.len() <= 4 ==> (hex_value(g) matches Some(v) ==> v <= 0xffff),
    decreases g.len(),
{
    if g.len() > 0 {
        lemma_hex_size(g.drop_last());
        if g.len() == 1 {
            assert(g.drop_last() =~= Seq::<char>::empty());
        }
    }
}

/// Two colons and a group are an address of eight parts: seven zeros, then the
/// group; it is the host's own exactly where the group is one.
pub proof fn colons_and_a_group_are_an_address(g: Seq<char>)
    requires
        1 <= g.len() <= 4,
        hex_value(g) is Some,
    ensures
        ip_address("::"@ + g) == Some(
            IpParts::V6(seq![0u32, 0, 0, 0, 0, 0, 0, hex_value(g).unwrap() as u32]),
        ),
        loopback(ip_address("::"@ + g).unwrap()) <==> hex_value(g) == Some(1nat),
{
    reveal_strlit("::");
    lemma_group(g);
    let s = "::"@ + g;
    let v = hex_value(g).unwrap() as u32;
    assert(s[0] == ':' && s[1] == ':');
    assert(double_colon(s) == 0);
    assert(s.take(0) =~= Seq::<char>::empty());
    assert(s.skip(2) =~= g);
    lemma_first(g, ':');
    assert(split(g, ':') == seq![g]);
    assert(seq![g].drop_last() =~= Seq::<Seq<char>>::empty());
    assert(hex_groups(Seq::<Seq<char>>::empty()) == Some(Seq::<u32>::empty()));
    assert(groups(g, true) == Some(Seq::<u32>::empty().push(v)));
    assert(groups(s.take(0), false) == Some(Seq::<u32>::empty()));
    let all = seq![0u32, 0, 0, 0, 0, 0, 0, v];
    assert(Seq::<u32>::empty() + Seq::new(7, |i: int| 0u32) + Seq::<u32>::empty().push(v) =~= all);
    assert(ipv6(s) == Some(all));
    if split(s, '.').len() == 4 {
        pieces_make_the_text(s, '.');
        lemma_colon_in_first(s);
    }
    if hex_value(g) == Some(1nat) {
        assert(all =~= seq![0u32, 0, 0, 0, 0, 0, 0, 1]);
    } else {
        assert(all[7] != 1);
    }
}

proof fn lemma_colon_in_first(s: Seq<char>)
    requires
        s.len() > 0,
        s[0] == ':',
    ensures
        ipv4(s) is None,
{
    let ps = split(s, '.');
    lemma_first(s, '.');
    let k = first(s, '.');
    assert(k > 0);
    if k < s.len() {
        assert(ps[0] == s.take(k));
    } else {
        assert(ps[0] == s);
    }
    assert(ps[0][0] == ':');
    assert(ps[0].len() > 0);
    assert(!is_digit(ps[0][0]));
    assert(octet(ps[0]) is None);
    if ps.len() == 4 {
        lemma_octets_all(ps, 0);
    }
}

proof fn lemma_octets_all(ps: Seq<Seq<char>>, i: int)
    requires
        0 <= i < ps.len(),
        octet(ps[i]) is None,
    ensures
        octets(ps) is None,
    decreases ps.len(),
{
    if i < ps.len() - 1 {
        assert(ps.drop_last()[i] == ps[i]);
        lemma_octets_all(ps.drop_last(), i);
    }
}

proof fn lemma_no_dot_in_hex(s: Seq<char>)
    requires
        s.contains('.'),
    ensures
        hex_value(s) is None,
    decreases s.len(),
{
    let i = choose|i: int| 0 <= i < s.len() && s[i] == '.';
    if i < s.len() - 1 {
        assert(s.drop_last()[i] == '.');
        assert(s.drop_last().contains('.'));
        lemma_no_dot_in_hex(s.drop_last());
    }
}

proof fn lemma_dotted(a: nat, b: nat, c: nat, d: nat)
    requires
        a <= 255,
        b <= 255,
        c <= 255,
        d <= 255,
    ensures
        dotted(a, b, c, d).len() > 0,
        dotted(a, b, c, d).contains('.'),
        !dotted(a, b, c, d).contains(':'),
{
    lemma_decimal_reads_back(a);
    lemma_decimal_reads_back(b);
    lemma_decimal_reads_back(c);
    lemma_decimal_reads_back(d);
    let s = dotted(a, b, c, d);
    let s2 = decimal(a).push('.') + decimal(b);
    let s3 = s2.push('.') + decimal(c);
    assert(s[s3.len() as int] == '.');
    if s.contains(':') {
        let i = choose|i: int| 0 <= i < s.len() && s[i] == ':';
        if i > s3.len() {
            assert(s[i] == decimal(d)[i - s3.len() - 1]);
        } else if i < s3.len() {
            assert(s[i] == s3[i]);
            if i > s2.len() {
                assert(s3[i] == decimal(c)[i - s2.len() - 1]);
            } else if i < s2.len() {
                assert(s3[i] == s2[i]);
                if i > decimal(a).len() {
                    assert(s2[i] == decimal(b)[i - decimal(a).len() - 1]);
                } else if i < decimal(a).len() {
                    assert(s2[i] == decimal(a)[i]);
                }
            }
        }
    }
}

/// Two colons and an address of four parts are an address of eight: six zeros,
/// then the four parts, two in a group, the earlier one higher.
pub proof fn four_parts_make_two_groups(a: nat, b: nat, c: nat, d: nat)
    requires
        a <= 255,
        b <= 255,
        c <= 255,
        d <= 255,
    ensures
        ipv6("::"@ + dotted(a, b, c, d)) == Some(
            seq![0u32, 0, 0, 0, 0, 0, (a * 256 + b) as u32, (c * 256 + d) as u32],
        ),
{
    reveal_strlit("::");
    four_numbers_are_an_address(a, b, c, d);
    lemma_dotted(a, b, c, d);
    let g = dotted(a, b, c, d);
    let s = "::"@ + g;
    lemma_no_dot_in_hex(g);
    assert(s[0] == ':' && s[1] == ':');
    assert(double_colon(s) == 0);
    assert(s.take(0) =~= Seq::<char>::empty());
    assert(s.skip(2) =~= g);
    lemma_first(g, ':');
    assert(split(g, ':') == seq![g]);
    assert(seq![g].drop_last() =~= Seq::<Seq<char>>::empty());
    assert(hex_group(g) is None);
    assert(ipv4(g) == Some(seq![a as u32, b as u32, c as u32, d as u32]));
    let x = (a * 256 + b) as u32;
    let y = (c * 256 + d) as u32;
    assert(groups(g, true) == Some(Seq::<u32>::empty().push(x).push(y)));
    assert(groups(s.take(0), false) == Some(Seq::<u32>::empty()));
    assert(Seq::<u32>::empty() + Seq::new(6, |i: int| 0u32) + Seq::<u32>::empty().push(x).push(y)
        =~= seq![0u32, 0, 0, 0, 0, 0, x, y]);
}

proof fn lemma_no_double_colon(s: Seq<char>)
    requires
        forall|i: int| 0 <= i < s.len() - 1 ==> !(#[trigger] s[i] == ':' && s[i + 1] == ':'),
    ensures
        double_colon(s) == s.len(),
    decreases s.len(),
{
    if s.len() >= 2 {
        assert(!(s[0] == ':' && s[1] == ':'));
        let t = s.drop_first();
        assert forall|i: int| 0 <= i < t.len() - 1 implies !(#[trigger] t[i] == ':' && t[i + 1]
            == ':') by {
            assert(t[i] == s[i + 1]);
            assert(t[i + 1] == s[i + 2]);
            assert(!(s[i + 1] == ':' && s[i + 1 + 1] == ':'));
        }
        lemma_no_double_colon(t);
    }
}

proof fn lemma_groups_one_by_one(ps: Seq<Seq<char>>, i: int)
    requires
        forall|k: int| 0 <= k < ps.len() ==> hex_group(#[trigger] ps[k]) is Some,
    ensures
        hex_groups(ps) is Some,
        hex_groups(ps).unwrap().len() == ps.len(),
        0 <= i < ps.len() ==> hex_group(ps[i]) == Some(hex_groups(ps).unwrap()[i]),
    decreases ps.len(),
{
    if ps.len() > 0 {
        let front = ps.drop_last();
        assert forall|k: int| 0 <= k < front.len() implies hex_group(
            #[trigger] front[k],
        ) is Some by {
            assert(front[k] == ps[k]);
        }
        lemma_groups_one_by_one(front, i);
        assert(ps.last() == ps[ps.len() - 1]);
        if 0 <= i < front.len() {
            assert(front[i] == ps[i]);
        }
    }
}

/// Eight groups with single colons between them are an address of eight parts,
/// each part what its group says.
pub proof fn eight_groups_are_an_address(s: Seq<char>, i: int)
    requires
        forall|k: int| 0 <= k < s.len() - 1 ==> !(#[trigger] s[k] == ':' && s[k + 1] == ':'),
        split(s, ':').len() == 8,
        forall|k: int| 0 <= k < 8 ==> hex_group(#[trigger] split(s, ':')[k]) is Some,
        0 <= i < 8,
    ensures
        ipv6(s) is Some,
        ipv6(s).unwrap().len() == 8,
        hex_group(split(s, ':')[i]) == Some(ipv6(s).unwrap()[i]),
{
    lemma_no_double_colon(s);
    let ps = split(s, ':');
    if s.len() == 0 {
        lemma_first(s, ':');
        assert(ps == seq![s]);
    }
    let front = ps.drop_last();
    assert forall|k: int| 0 <= k < front.len() implies hex_group(#[trigger] front[k]) is Some by {
        assert(front[k] == ps[k]);
    }
    lemma_groups_one_by_one(front, i);
    assert(ps.last() == ps[7]);
    if i < 7 {
        assert(front[i] == ps[i]);
    }
}

/// An address has four parts or eight, and none of the forms that are taken
/// has another number.
pub proof fn addresses_have_their_parts(s: Seq<char>)
    ensures
        ip_address(s) matches Some(IpParts::V4(q)) ==> ipv4(s) == Some(q) && split(
            s,
            '.',
        ).len() == 4,
        ip_address(s) matches Some(IpParts::V6(g)) ==> ipv4(s) is None && ipv6(s) == Some(g)
            && g.len() == 8,
        ip_address(s) is None <==> ipv4(s) is None && ipv6(s) is None,
{
}

/// An address of four parts is the host's own exactly where it begins with
/// 127, and one of eight exactly where it is the number one.
pub proof fn the_hosts_own_addresses(q: Seq<u32>)
    ensures
        loopback(IpParts::V4(q)) <==> q[0] == 127,
        loopback(IpParts::V6(q)) <==> q.len() == 8 && q[7] == 1 && forall|i: int|
            0 <= i < 7 ==> #[trigger] q[i] == 0,
{
    if q.len() == 8 && q[7] == 1 && forall|i: int| 0 <= i < 7 ==> #[trigger] q[i] == 0 {
        assert(q =~= seq![0u32, 0, 0, 0, 0, 0, 0, 1]);
    }
    if loopback(IpParts::V6(q)) {
        assert forall|i: int| 0 <= i < 7 implies #[trigger] q[i] == 0 by {}
    }
}

} // verus!
