//! IP address literals: dotted IPv4, and IPv6 with `::` and an embedded
//! dotted tail.
use vstd::prelude::*;
use crate::num::parse_up_to;
use crate::text::{chars, pieces};

verus! {

/// One part of a dotted IPv4 address: one to three digits, no leading zero,
/// at most 255.
pub open spec fn octet(p: Seq<char>) -> Option<u32> {
    if 1 <= p.len() <= 3 && crate::num::all_digits(p) && !(p.len() > 1 && p[0] == '0')
        && crate::num::digits_value(p) <= 255 {
        Some(crate::num::digits_value(p) as u32)
    } else {
        None
    }
}

/// The values of a row of parts, where every part is an octet.
pub open spec fn octets(ps: Seq<Seq<char>>) -> Option<Seq<u32>>
    decreases ps.len(),
{
    if ps.len() == 0 {
        Some(seq![])
    } else {
        match (octets(ps.drop_last()), octet(ps.last())) {
            (Some(g), Some(x)) => Some(g.push(x)),
            _ => None,
        }
    }
}

/// The four octets of an IPv4 literal.
pub open spec fn ipv4(s: Seq<char>) -> Option<Seq<u32>> {
    let ps = crate::text::split(s, '.');
    if ps.len() == 4 {
        octets(ps)
    } else {
        None
    }
}

/// What a hexadecimal digit stands for.
pub open spec fn hex_digit(c: char) -> Option<u32> {
    if '0' <= c <= '9' {
        Some((c as u32 - 48) as u32)
    } else if 'a' <= c <= 'f' {
        Some((c as u32 - 87) as u32)
    } else if 'A' <= c <= 'F' {
        Some((c as u32 - 55) as u32)
    } else {
        None
    }
}

/// The number that a row of hexadecimal digits stands for.
pub open spec fn hex_value(s: Seq<char>) -> Option<nat>
    decreases s.len(),
{
    if s.len() == 0 {
        Some(0)
    } else {
        match (hex_value(s.drop_last()), hex_digit(s.last())) {
            (Some(v), Some(d)) => Some(v * 16 + d as nat),
            _ => None,
        }
    }
}

/// One group of an IPv6 address: one to four hexadecimal digits.
pub open spec fn hex_group(p: Seq<char>) -> Option<u32> {
    if 1 <= p.len() <= 4 {
        match hex_value(p) {
            Some(v) => Some(v as u32),
            None => None,
        }
    } else {
        None
    }
}

/// The values of a row of parts, where every part is a hexadecimal group.
pub open spec fn hex_groups(ps: Seq<Seq<char>>) -> Option<Seq<u32>>
    decreases ps.len(),
{
    if ps.len() == 0 {
        Some(seq![])
    } else {
        match (hex_groups(ps.drop_last()), hex_group(ps.last())) {
            (Some(g), Some(x)) => Some(g.push(x)),
            _ => None,
        }
    }
}

/// The groups of a colon-separated run. Where `tail` holds, the last part may
/// be a dotted IPv4 address, which makes two groups.
pub open spec fn groups(s: Seq<char>, tail: bool) -> Option<Seq<u32>> {
    if s.len() == 0 {
        Some(seq![])
    } else {
        let ps = crate::text::split(s, ':');
        match hex_groups(ps.drop_last()) {
            None => None,
            Some(g) => match hex_group(ps.last()) {
                Some(x) => Some(g.push(x)),
                None => match ipv4(ps.last()) {
                    Some(q) if tail => Some(
                        g.push((q[0] * 256 + q[1]) as u32).push((q[2] * 256 + q[3]) as u32),
                    ),
                    _ => None,
                },
            },
        }
    }
}

/// The position of the first `::`, or `s.len()` where there is none.
pub open spec fn double_colon(s: Seq<char>) -> int
    decreases s.len(),
{
    if s.len() < 2 {
        s.len() as int
    } else if s[0] == ':' && s[1] == ':' {
        0
    } else {
        1 + double_colon(s.drop_first())
    }
}

/// The eight groups of an IPv6 literal: eight written out, or a `::` that
/// stands for one or more groups of zero.
pub open spec fn ipv6(s: Seq<char>) -> Option<Seq<u32>> {
    let p = double_colon(s);
    if p >= s.len() {
        match groups(s, true) {
            Some(g) if g.len() == 8 => Some(g),
            _ => None,
        }
    } else {
        match (groups(s.take(p), false), groups(s.skip(p + 2), true)) {
            (Some(h), Some(t)) if h.len() + t.len() <= 7 => Some(
                h + Seq::new((8 - h.len() - t.len()) as nat, |i: int| 0u32) + t,
            ),
            _ => None,
        }
    }
}

/// An IP address literal, by its family and its parts.
pub enum IpParts {
    /// The four octets.
    V4(Seq<u32>),
    /// The eight groups.
    V6(Seq<u32>),
}

/// What an IP address literal denotes.
pub open spec fn ip_address(s: Seq<char>) -> Option<IpParts> {
    match ipv4(s) {
        Some(q) => Some(IpParts::V4(q)),
        None => match ipv6(s) {
            Some(g) => Some(IpParts::V6(g)),
            None => None,
        },
    }
}

/// Whether an address is the host itself: `127.0.0.0/8` or `::1`.
pub open spec fn loopback(a: IpParts) -> bool {
    match a {
        IpParts::V4(q) => q[0] == 127,
        IpParts::V6(g) => g == seq![0u32, 0, 0, 0, 0, 0, 0, 1],
    }
}

proof fn lemma_octets(ps: Seq<Seq<char>>)
    ensures
        octets(ps) matches Some(q) ==> q.len() == ps.len() && forall|i: int|
            0 <= i < q.len() ==> #[trigger] q[i] <= 255,
    decreases ps.len(),
{
    if ps.len() > 0 {
        lemma_octets(ps.drop_last());
    }
}

proof fn lemma_hex_bound(s: Seq<char>)
    requires
        s.len() <= 4,
    ensures
        hex_value(s) matches Some(v) ==> v <= 0xffff && (s.len() <= 3 ==> v <= 0xfff) && (s.len()
            <= 2 ==> v <= 0xff) && (s.len() <= 1 ==> v <= 0xf),
    decreases s.len(),
{
    if s.len() > 0 {
        lemma_hex_bound(s.drop_last());
    }
}

proof fn lemma_hex_prefix(s: Seq<char>, k: int)
    requires
        0 <= k <= s.len(),
        hex_value(s.take(k)) is None,
    ensures
        hex_value(s) is None,
    decreases s.len() - k,
{
    if k == s.len() {
        assert(s.take(k) =~= s);
    } else {
        assert(s.take(k + 1).drop_last() =~= s.take(k));
        lemma_hex_prefix(s, k + 1);
    }
}

fn parse_octet(p: &str) -> (r: Option<u32>)
    ensures
        r == octet(p@),
{
    let cs: Vec<char> = chars(p);
    let n: usize = cs.len();
    if n < 1 || n > 3 || cs[0] == '+' || (n > 1 && cs[0] == '0') {
        proof {
            if n >= 1 && cs@[0] == '+' {
                assert(!crate::num::is_digit(p@[0]));
            }
        }
        return None;
    }
    parse_up_to(p, 255)
}

/// The four octets of an IPv4 literal.
pub fn parse_ipv4(s: &str) -> (r: Option<Vec<u32>>)
    ensures
        match r {
            Some(v) => ipv4(s@) == Some(v@) && v@.len() == 4 && forall|i: int|
                0 <= i < 4 ==> #[trigger] v@[i] <= 255,
            None => ipv4(s@) is None,
        },
{
    let ps: Vec<String> = pieces(s, '.');
    let ghost pv = crate::text::views(ps@);
    if ps.len() != 4 {
        return None;
    }
    let mut out: Vec<u32> = Vec::new();
    let mut i: usize = 0;
    while i < 4
        invariant
            i <= 4,
            ps@.len() == 4,
            pv == crate::text::views(ps@),
            pv == crate::text::split(s@, '.'),
            octets(pv.take(i as int)) == Some(out@),
        decreases 4 - i,
    {
        proof {
            assert(pv.take(i + 1).drop_last() =~= pv.take(i as int));
            assert(pv.take(i + 1).last() == ps@[i as int]@);
        }
        match parse_octet(ps[i].as_str()) {
            Some(x) => {
                out.push(x);
            },
            None => {
                proof {
                    lemma_octets_prefix(pv, i + 1);
                }
                return None;
            },
        }
        i = i + 1;
    }
    proof {
        assert(pv.take(4) =~= pv);
        lemma_octets(pv);
    }
    Some(out)
}

proof fn lemma_octets_prefix(ps: Seq<Seq<char>>, k: int)
    requires
        0 <= k <= ps.len(),
        octets(ps.take(k)) is None,
    ensures
        octets(ps) is None,
    decreases ps.len() - k,
{
    if k == ps.len() {
        assert(ps.take(k) =~= ps);
    } else {
        assert(ps.take(k + 1).drop_last() =~= ps.take(k));
        lemma_octets_prefix(ps, k + 1);
    }
}

fn parse_hex_digit(c: char) -> (r: Option<u32>)
    ensures
        r == hex_digit(c),
{
    if '0' <= c && c <= '9' {
        Some(c as u32 - 48)
    } else if 'a' <= c && c <= 'f' {
        Some(c as u32 - 87)
    } else if 'A' <= c && c <= 'F' {
        Some(c as u32 - 55)
    } else {
        None
    }
}

fn parse_hex_group(p: &str) -> (r: Option<u32>)
    ensures
        r == hex_group(p@),
        r matches Some(x) ==> x <= 0xffff,
{
    let cs: Vec<char> = chars(p);
    if cs.len() < 1 || cs.len() > 4 {
        return None;
    }
    let mut value: u32 = 0;
    let mut i: usize = 0;
    proof {
        assert(p@.take(0) =~= seq![]);
    }
    while i < cs.len()
        invariant
            i <= cs@.len() <= 4,
            cs@.len() >= 1,
            cs@ == p@,
            hex_value(p@.take(i as int)) == Some(value as nat),
        decreases cs@.len() - i,
    {
        proof {
            assert(p@.take(i + 1).drop_last() =~= p@.take(i as int));
            assert(p@.take(i + 1).last() == cs@[i as int]);
            lemma_hex_bound(p@.take(i as int));
        }
        match parse_hex_digit(cs[i]) {
            Some(d) => {
                value = value * 16 + d;
            },
            None => {
                proof {
                    lemma_hex_prefix(p@, i + 1);
                }
                return None;
            },
        }
        i = i + 1;
    }
    proof {
        assert(p@.take(cs@.len() as int) =~= p@);
        lemma_hex_bound(p@);
    }
    Some(value)
}

proof fn lemma_hex_groups_prefix(ps: Seq<Seq<char>>, k: int)
    requires
        0 <= k <= ps.len(),
        hex_groups(ps.take(k)) is None,
    ensures
        hex_groups(ps) is None,
    decreases ps.len() - k,
{
    if k == ps.len() {
        assert(ps.take(k) =~= ps);
    } else {
        assert(ps.take(k + 1).drop_last() =~= ps.take(k));
        lemma_hex_groups_prefix(ps, k + 1);
    }
}

fn parse_groups(s: &str, tail: bool) -> (r: Option<Vec<u32>>)
    ensures
        match r {
            Some(v) => groups(s@, tail) == Some(v@),
            None => groups(s@, tail) is None,
        },
{
    let mut out: Vec<u32> = Vec::new();
    if s.is_empty() {
        proof {
            assert(out@ =~= seq![]);
        }
        return Some(out);
    }
    let ps: Vec<String> = pieces(s, ':');
    let ghost pv = crate::text::views(ps@);
    let n: usize = ps.len();
    proof {
        lemma_split_nonempty(s@, ':');
    }
    let mut i: usize = 0;
    while i < n - 1
        invariant
            n == ps@.len(),
            n >= 1,
            i <= n - 1,
            s@.len() > 0,
            pv == crate::text::views(ps@),
            pv == crate::text::split(s@, ':'),
            hex_groups(pv.take(i as int)) == Some(out@),
        decreases n - i,
    {
        proof {
            assert(pv.take(i + 1).drop_last() =~= pv.take(i as int));
            assert(pv.take(i + 1).last() == ps@[i as int]@);
        }
        match parse_hex_group(ps[i].as_str()) {
            Some(x) => {
                out.push(x);
            },
            None => {
                proof {
                    assert(pv.drop_last().take(i + 1) =~= pv.take(i + 1));
                    lemma_hex_groups_prefix(pv.drop_last(), i + 1);
                }
                return None;
            },
        }
        i = i + 1;
    }
    proof {
        assert(pv.take(n - 1) =~= pv.drop_last());
        assert(pv.last() == ps@[n - 1]@);
    }
    match parse_hex_group(ps[n - 1].as_str()) {
        Some(x) => {
            out.push(x);
            Some(out)
        },
        None => {
            if !tail {
                return None;
            }
            match parse_ipv4(ps[n - 1].as_str()) {
                Some(q) => {
                    out.push(q[0] * 256 + q[1]);
                    out.push(q[2] * 256 + q[3]);
                    Some(out)
                },
                None => None,
            }
        },
    }
}

proof fn lemma_split_nonempty(s: Seq<char>, c: char)
    ensures
        crate::text::split(s, c).len() >= 1,
{
}

fn find_double_colon(s: &str) -> (r: usize)
    ensures
        r == double_colon(s@),
        r <= s@.len(),
        r < s@.len() ==> r + 2 <= s@.len(),
{
    let cs: Vec<char> = chars(s);
    let n: usize = cs.len();
    let mut i: usize = 0;
    proof {
        assert(s@.skip(0) =~= s@);
    }
    while n - i >= 2 && !(cs[i] == ':' && cs[i + 1] == ':')
        invariant
            n == cs@.len(),
            cs@ == s@,
            i <= n,
            double_colon(s@) == i + double_colon(s@.skip(i as int)),
        decreases n - i,
    {
        proof {
            let t = s@.skip(i as int);
            assert(t[0] == s@[i as int]);
            assert(t[1] == s@[i + 1]);
            assert(t.drop_first() =~= s@.skip(i + 1));
        }
        i = i + 1;
    }
    if n - i >= 2 {
        proof {
            let t = s@.skip(i as int);
            assert(t[0] == s@[i as int]);
            assert(t[1] == s@[i + 1]);
        }
        i
    } else {
        n
    }
}

/// The eight groups of an IPv6 literal.
pub fn parse_ipv6(s: &str) -> (r: Option<Vec<u32>>)
    ensures
        match r {
            Some(v) => ipv6(s@) == Some(v@) && v@.len() == 8,
            None => ipv6(s@) is None,
        },
{
    let p: usize = find_double_colon(s);
    let n: usize = s.unicode_len();
    if p == n {
        match parse_groups(s, true) {
            Some(g) => {
                if g.len() == 8 {
                    Some(g)
                } else {
                    None
                }
            },
            None => None,
        }
    } else {
        proof {
            assert(s@.subrange(0, p as int) =~= s@.take(p as int));
            assert(s@.subrange(p + 2, n as int) =~= s@.skip(p + 2));
        }
        let head: Vec<u32> = match parse_groups(s.substring_char(0, p), false) {
            Some(h) => h,
            None => {
                return None;
            },
        };
        let tail: Vec<u32> = match parse_groups(s.substring_char(p + 2, n), true) {
            Some(t) => t,
            None => {
                return None;
            },
        };
        if head.len() > 7 || tail.len() > 7 - head.len() {
            return None;
        }
        Some(filled(head, tail))
    }
}

fn filled(head: Vec<u32>, tail: Vec<u32>) -> (r: Vec<u32>)
    requires
        head@.len() + tail@.len() <= 7,
    ensures
        r@ == head@ + Seq::new((8 - head@.len() - tail@.len()) as nat, |i: int| 0u32) + tail@,
        r@.len() == 8,
{
    let mut out: Vec<u32> = head;
    let zeros: usize = 8 - out.len() - tail.len();
    let mut i: usize = 0;
    while i < zeros
        invariant
            i <= zeros,
            out@ == head@ + Seq::new(i as nat, |j: int| 0u32),
        decreases zeros - i,
    {
        out.push(0);
        proof {
            assert(out@ =~= head@ + Seq::new((i + 1) as nat, |j: int| 0u32));
        }
        i = i + 1;
    }
    let ghost mid = out@;
    let mut k: usize = 0;
    while k < tail.len()
        invariant
            k <= tail@.len(),
            out@ == mid + tail@.take(k as int),
        decreases tail@.len() - k,
    {
        out.push(tail[k]);
        proof {
            assert(out@ =~= mid + tail@.take(k + 1));
        }
        k = k + 1;
    }
    proof {
        assert(tail@.take(tail@.len() as int) =~= tail@);
        assert(zeros == 8 - head@.len() - tail@.len());
    }
    out
}

/// The family of an address, with the largest prefix length it admits.
pub fn max_prefix(s: &str) -> (r: Option<u32>)
    ensures
        r == match ip_address(s@) {
            Some(IpParts::V4(_)) => Some(32u32),
            Some(IpParts::V6(_)) => Some(128u32),
            None => None,
        },
{
    match parse_ipv4(s) {
        Some(_) => Some(32),
        None => match parse_ipv6(s) {
            Some(_) => Some(128),
            None => None,
        },
    }
}

/// Whether `s` is the literal of an address of the host itself.
pub fn is_loopback_literal(s: &str) -> (r: bool)
    ensures
        r == (ip_address(s@) matches Some(a) && loopback(a)),
{
    match parse_ipv4(s) {
        Some(q) => q[0] == 127,
        None => match parse_ipv6(s) {
            Some(g) => {
                let r: bool = g[0] == 0 && g[1] == 0 && g[2] == 0 && g[3] == 0 && g[4] == 0 && g[5]
                    == 0 && g[6] == 0 && g[7] == 1;
                proof {
                    let one = seq![0u32, 0, 0, 0, 0, 0, 0, 1];
                    if r {
                        assert(g@ =~= one);
                    } else {
                        assert(one[0] == 0 && one[1] == 0 && one[2] == 0 && one[3] == 0 && one[4]
                            == 0 && one[5] == 0 && one[6] == 0 && one[7] == 1);
                    }
                }
                r
            },
            None => false,
        },
    }
}

} // verus!
