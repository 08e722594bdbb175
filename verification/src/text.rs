//! Text primitives over `Seq<char>`: trimming, splitting, joining, case folding.
//!
//! Every executable function here states its result as a function of the
//! characters of its arguments.
use vstd::prelude::*;

verus! {

/// Appends one character to the end of a string, as `String::push` documents.
pub assume_specification[ String::push ](s: &mut String, c: char)
    ensures
        final(s)@ == old(s)@.push(c),
;

/// The escaped, double-quoted form that `{:?}` gives a string.
pub uninterp spec fn debug_form(s: Seq<char>) -> Seq<char>;

/// `format!("{:?}", s)`: the string's `Debug` form, which depends on the
/// string alone. Which characters are escaped, and how, is not stated.
#[verifier::external_body]
pub(crate) fn quoted(s: &str) -> (r: String)
    ensures
        r@ == debug_form(s@),
{
    format!("{:?}", s)
}

/// The characters of each string of a list.
pub open spec fn views(list: Seq<String>) -> Seq<Seq<char>> {
    list.map_values(|s: String| s@)
}

/// The characters of an optional string.
pub open spec fn opt_view(s: Option<String>) -> Option<Seq<char>> {
    match s {
        Some(t) => Some(t@),
        None => None,
    }
}

/// The characters of an optional string slice.
pub open spec fn opt_str(s: Option<&str>) -> Option<Seq<char>> {
    match s {
        Some(t) => Some(t@),
        None => None,
    }
}

/// Unicode `White_Space`.
pub open spec fn is_space(c: char) -> bool {
    ||| '\u{9}' <= c <= '\u{d}'
    ||| c == ' '
    ||| c == '\u{85}'
    ||| c == '\u{a0}'
    ||| c == '\u{1680}'
    ||| '\u{2000}' <= c <= '\u{200a}'
    ||| c == '\u{2028}'
    ||| c == '\u{2029}'
    ||| c == '\u{202f}'
    ||| c == '\u{205f}'
    ||| c == '\u{3000}'
}

/// `s` without its leading white space.
pub open spec fn trim_start(s: Seq<char>) -> Seq<char>
    decreases s.len(),
{
    if s.len() > 0 && is_space(s[0]) {
        trim_start(s.drop_first())
    } else {
        s
    }
}

/// `s` without its trailing white space.
pub open spec fn trim_end(s: Seq<char>) -> Seq<char>
    decreases s.len(),
{
    if s.len() > 0 && is_space(s.last()) {
        trim_end(s.drop_last())
    } else {
        s
    }
}

/// `s` without the white space at either end.
pub open spec fn trim(s: Seq<char>) -> Seq<char> {
    trim_end(trim_start(s))
}

/// `s` without the run of `c` at its end.
pub open spec fn trim_end_char(s: Seq<char>, c: char) -> Seq<char>
    decreases s.len(),
{
    if s.len() > 0 && s.last() == c {
        trim_end_char(s.drop_last(), c)
    } else {
        s
    }
}

/// `s` without the run of `c` at its start.
pub open spec fn trim_start_char(s: Seq<char>, c: char) -> Seq<char>
    decreases s.len(),
{
    if s.len() > 0 && s[0] == c {
        trim_start_char(s.drop_first(), c)
    } else {
        s
    }
}

/// `s` without the repetitions of the non-empty `prefix` at its start.
pub open spec fn trim_start_str(s: Seq<char>, prefix: Seq<char>) -> Seq<char>
    decreases s.len(),
{
    if prefix.len() > 0 && prefix.is_prefix_of(s) {
        trim_start_str(s.skip(prefix.len() as int), prefix)
    } else {
        s
    }
}

/// A character with `A`–`Z` folded to `a`–`z`.
pub open spec fn lower_char(c: char) -> char {
    if 'A' <= c <= 'Z' {
        (c as u8 + 32) as char
    } else {
        c
    }
}

/// `s` with `A`–`Z` folded to `a`–`z`.
pub open spec fn lower(s: Seq<char>) -> Seq<char> {
    s.map_values(|c: char| lower_char(c))
}

/// The position of the first `c` in `s`, or `s.len()` where there is none.
pub open spec fn first(s: Seq<char>, c: char) -> int
    decreases s.len(),
{
    if s.len() == 0 || s[0] == c {
        0
    } else {
        1 + first(s.drop_first(), c)
    }
}

/// The position of the last `c` in `s`, or `-1` where there is none.
pub open spec fn last(s: Seq<char>, c: char) -> int
    decreases s.len(),
{
    if s.len() == 0 {
        -1
    } else if s.last() == c {
        s.len() - 1
    } else {
        last(s.drop_last(), c)
    }
}

/// `s` up to the first `c`, all of `s` where there is none.
pub open spec fn before(s: Seq<char>, c: char) -> Seq<char> {
    s.take(first(s, c))
}

/// What stands before and after the first `c`.
pub open spec fn split_once(s: Seq<char>, c: char) -> Option<(Seq<char>, Seq<char>)> {
    if first(s, c) < s.len() {
        Some((s.take(first(s, c)), s.skip(first(s, c) + 1)))
    } else {
        None
    }
}

/// The pieces of `s` between the occurrences of `c`; one more than there are
/// occurrences.
pub open spec fn split(s: Seq<char>, c: char) -> Seq<Seq<char>>
    decreases s.len(),
    via split_decreases
{
    if first(s, c) >= s.len() {
        seq![s]
    } else {
        seq![before(s, c)] + split(s.skip(first(s, c) + 1), c)
    }
}

#[via_fn]
proof fn split_decreases(s: Seq<char>, c: char) {
    lemma_first(s, c);
}

/// The pieces of `list` in order with `sep` between neighbours.
pub open spec fn join(list: Seq<Seq<char>>, sep: char) -> Seq<char>
    decreases list.len(),
{
    if list.len() == 0 {
        seq![]
    } else if list.len() == 1 {
        list[0]
    } else {
        join(list.drop_last(), sep).push(sep) + list.last()
    }
}

/// The trimmed, non-empty pieces of a comma-separated list.
pub open spec fn comma_items(s: Seq<char>) -> Seq<Seq<char>> {
    nonempty_trimmed(split(s, ','))
}

/// The trimmed pieces of `list`, without those that trim to nothing.
pub open spec fn nonempty_trimmed(list: Seq<Seq<char>>) -> Seq<Seq<char>>
    decreases list.len(),
{
    if list.len() == 0 {
        seq![]
    } else {
        let rest = nonempty_trimmed(list.drop_last());
        let t = trim(list.last());
        if t.len() > 0 {
            rest.push(t)
        } else {
            rest
        }
    }
}

/// What an operator typed for a key, trimmed; `None` where nothing is left.
pub open spec fn given(value: Option<Seq<char>>) -> Option<Seq<char>> {
    match value {
        Some(v) => if trim(v).len() > 0 {
            Some(trim(v))
        } else {
            None
        },
        None => None,
    }
}

/// `first` is where `c` first stands.
pub proof fn lemma_first(s: Seq<char>, c: char)
    ensures
        0 <= first(s, c) <= s.len(),
        first(s, c) < s.len() ==> s[first(s, c)] == c,
        forall|i: int| 0 <= i < first(s, c) ==> s[i] != c,
        s.contains(c) <==> first(s, c) < s.len(),
    decreases s.len(),
{
    if s.len() == 0 || s[0] == c {
    } else {
        lemma_first(s.drop_first(), c);
        assert forall|i: int| 0 <= i < first(s, c) implies s[i] != c by {
            if i > 0 {
                assert(s[i] == s.drop_first()[i - 1]);
            }
        }
    }
    if first(s, c) >= s.len() && s.contains(c) {
        let i = choose|i: int| 0 <= i < s.len() && s[i] == c;
        assert(s[i] != c);
    }
}

/// A position is `first` where `c` stands there, or it is the end, and `c`
/// stands nowhere before.
pub proof fn lemma_first_is(s: Seq<char>, c: char, k: int)
    requires
        0 <= k <= s.len(),
        k < s.len() ==> s[k] == c,
        forall|i: int| 0 <= i < k ==> s[i] != c,
    ensures
        first(s, c) == k,
{
    lemma_first(s, c);
    if first(s, c) < k {
        assert(s[first(s, c)] != c);
    }
}

/// A position is `last` where `c` stands there and nowhere after.
pub proof fn lemma_last_is(s: Seq<char>, c: char, k: int)
    requires
        -1 <= k < s.len(),
        k >= 0 ==> s[k] == c,
        forall|i: int| k < i < s.len() ==> s[i] != c,
    ensures
        last(s, c) == k,
    decreases s.len(),
{
    if s.len() == 0 || k == s.len() - 1 {
    } else {
        assert(s.last() != c);
        lemma_last_is(s.drop_last(), c, k);
    }
}

/// `trim_start` cuts at the first character that is no white space.
pub proof fn lemma_trim_start_is(s: Seq<char>, k: int)
    requires
        0 <= k <= s.len(),
        forall|i: int| 0 <= i < k ==> is_space(s[i]),
        k < s.len() ==> !is_space(s[k]),
    ensures
        trim_start(s) == s.skip(k),
    decreases k,
{
    if k == 0 {
        assert(s.skip(0) =~= s);
    } else {
        assert(is_space(s[0]));
        lemma_trim_start_is(s.drop_first(), k - 1);
        assert(s.drop_first().skip(k - 1) =~= s.skip(k));
    }
}

/// `trim_end` cuts after the last character that is no white space.
pub proof fn lemma_trim_end_is(s: Seq<char>, k: int)
    requires
        0 <= k <= s.len(),
        forall|i: int| k <= i < s.len() ==> is_space(s[i]),
        k > 0 ==> !is_space(s[k - 1]),
    ensures
        trim_end(s) == s.take(k),
    decreases s.len() - k,
{
    if k == s.len() {
        assert(s.take(k) =~= s);
    } else {
        assert(is_space(s.last()));
        lemma_trim_end_is(s.drop_last(), k);
        assert(s.drop_last().take(k) =~= s.take(k));
    }
}

/// Trimming a second time changes nothing, and the ends of what is left are
/// no white space.
pub proof fn lemma_trim_settles(s: Seq<char>)
    ensures
        trim(trim(s)) == trim(s),
        trim(s).len() > 0 ==> !is_space(trim(s)[0]) && !is_space(trim(s).last()),
{
    let k = lemma_trim_start_cut(s);
    let t = trim_start(s);
    let m = lemma_trim_end_cut(t);
    let u = trim(s);
    assert(u =~= t.take(m));
    if m > 0 {
        assert(u[0] == t[0]);
        assert(t[0] == s[k]);
    }
    lemma_trim_start_is(u, 0);
    assert(u.skip(0) =~= u);
    lemma_trim_end_is(u, u.len() as int);
    assert(u.take(u.len() as int) =~= u);
}

/// Where `trim_start` cuts.
pub proof fn lemma_trim_start_cut(s: Seq<char>) -> (k: int)
    ensures
        0 <= k <= s.len(),
        trim_start(s) == s.skip(k),
        k < s.len() ==> !is_space(s[k]),
        forall|i: int| 0 <= i < k ==> is_space(s[i]),
    decreases s.len(),
{
    if s.len() > 0 && is_space(s[0]) {
        let k = lemma_trim_start_cut(s.drop_first());
        assert(s.drop_first().skip(k) =~= s.skip(k + 1));
        assert forall|i: int| 0 <= i < k + 1 implies is_space(s[i]) by {
            if i > 0 {
                assert(s[i] == s.drop_first()[i - 1]);
            }
        }
        if k + 1 < s.len() {
            assert(s[k + 1] == s.drop_first()[k]);
        }
        k + 1
    } else {
        assert(s.skip(0) =~= s);
        0
    }
}

/// Where `trim_end` cuts.
pub proof fn lemma_trim_end_cut(s: Seq<char>) -> (k: int)
    ensures
        0 <= k <= s.len(),
        trim_end(s) == s.take(k),
        k > 0 ==> !is_space(s[k - 1]),
        forall|i: int| k <= i < s.len() ==> is_space(s[i]),
    decreases s.len(),
{
    if s.len() > 0 && is_space(s.last()) {
        let k = lemma_trim_end_cut(s.drop_last());
        assert(s.drop_last().take(k) =~= s.take(k));
        assert forall|i: int| k <= i < s.len() implies is_space(s[i]) by {
            if i < s.len() - 1 {
                assert(s[i] == s.drop_last()[i]);
            }
        }
        k
    } else {
        assert(s.take(s.len() as int) =~= s);
        s.len() as int
    }
}

/// The characters of `s`.
pub fn chars(s: &str) -> (r: Vec<char>)
    ensures
        r@ == s@,
{
    let mut out: Vec<char> = Vec::new();
    for c in it: s.chars()
        invariant
            it.seq() == s@,
            out@ == s@.take(it.index() as int),
    {
        out.push(c);
    }
    out
}

/// The string made of the characters `from..to`.
pub fn string_of(cs: &Vec<char>, from: usize, to: usize) -> (r: String)
    requires
        from <= to <= cs@.len(),
    ensures
        r@ == cs@.subrange(from as int, to as int),
{
    let mut out: String = String::new();
    let mut i: usize = from;
    while i < to
        invariant
            from <= i <= to <= cs@.len(),
            out@ == cs@.subrange(from as int, i as int),
        decreases to - i,
    {
        out.push(cs[i]);
        i = i + 1;
    }
    out
}

/// Whether two strings hold the same characters.
pub fn same(a: &str, b: &str) -> (r: bool)
    ensures
        r == (a@ == b@),
{
    let x: Vec<char> = chars(a);
    let y: Vec<char> = chars(b);
    same_chars(&x, &y)
}

fn same_chars(x: &Vec<char>, y: &Vec<char>) -> (r: bool)
    ensures
        r == (x@ == y@),
{
    if x.len() != y.len() {
        return false;
    }
    let mut i: usize = 0;
    while i < x.len()
        invariant
            i <= x@.len(),
            x@.len() == y@.len(),
            forall|j: int| 0 <= j < i ==> x@[j] == y@[j],
        decreases x@.len() - i,
    {
        if x[i] != y[i] {
            return false;
        }
        i = i + 1;
    }
    proof {
        assert(x@ =~= y@);
    }
    true
}

/// Whether `c` is white space.
pub fn is_whitespace(c: char) -> (r: bool)
    ensures
        r == is_space(c),
{
    ('\u{9}' <= c && c <= '\u{d}') || c == ' ' || c == '\u{85}' || c == '\u{a0}' || c == '\u{1680}'
        || ('\u{2000}' <= c && c <= '\u{200a}') || c == '\u{2028}' || c == '\u{2029}' || c
        == '\u{202f}' || c == '\u{205f}' || c == '\u{3000}'
}

/// `s` without the white space at either end.
pub fn trimmed<'a>(s: &'a str) -> (r: &'a str)
    ensures
        r@ == trim(s@),
{
    let cs: Vec<char> = chars(s);
    let mut i: usize = 0;
    while i < cs.len() && is_whitespace(cs[i])
        invariant
            i <= cs@.len(),
            forall|j: int| 0 <= j < i ==> is_space(cs@[j]),
        decreases cs@.len() - i,
    {
        i = i + 1;
    }
    proof {
        lemma_trim_start_is(s@, i as int);
    }
    let mut k: usize = cs.len();
    while k > i && is_whitespace(cs[k - 1])
        invariant
            i <= k <= cs@.len(),
            forall|j: int| k <= j < cs@.len() ==> is_space(cs@[j]),
        decreases k,
    {
        k = k - 1;
    }
    proof {
        let t = s@.skip(i as int);
        lemma_trim_end_is(t, k - i);
        assert(t.take(k - i) =~= s@.subrange(i as int, k as int));
    }
    s.substring_char(i, k)
}

/// `s` without the run of `c` at its end.
pub fn trimmed_end_char<'a>(s: &'a str, c: char) -> (r: &'a str)
    ensures
        r@ == trim_end_char(s@, c),
{
    let cs: Vec<char> = chars(s);
    let mut k: usize = cs.len();
    proof {
        assert(s@.take(s@.len() as int) =~= s@);
    }
    while k > 0 && cs[k - 1] == c
        invariant
            k <= cs@.len(),
            cs@ == s@,
            trim_end_char(s@, c) == trim_end_char(s@.take(k as int), c),
        decreases k,
    {
        proof {
            assert(s@.take(k as int).drop_last() =~= s@.take(k - 1));
        }
        k = k - 1;
    }
    proof {
        assert(s@.take(k as int) =~= s@.subrange(0, k as int));
    }
    s.substring_char(0, k)
}

/// `s` with `A`–`Z` folded to `a`–`z`.
pub fn lowered(s: &str) -> (r: String)
    ensures
        r@ == lower(s@),
{
    let mut out: String = String::new();
    for c in it: s.chars()
        invariant
            it.seq() == s@,
            out@ == lower(s@).take(it.index() as int),
    {
        out.push(fold(c));
    }
    out
}

/// `c` with `A`–`Z` folded to `a`–`z`.
pub fn fold(c: char) -> (r: char)
    ensures
        r == lower_char(c),
{
    if 'A' <= c && c <= 'Z' {
        (c as u8 + 32) as char
    } else {
        c
    }
}

/// Whether `s` begins with `p`.
pub fn begins_with(s: &str, p: &str) -> (r: bool)
    ensures
        r == p@.is_prefix_of(s@),
{
    let a: Vec<char> = chars(s);
    let b: Vec<char> = chars(p);
    if b.len() > a.len() {
        return false;
    }
    let mut i: usize = 0;
    while i < b.len()
        invariant
            i <= b@.len() <= a@.len(),
            a@ == s@,
            b@ == p@,
            forall|j: int| 0 <= j < i ==> a@[j] == b@[j],
        decreases b@.len() - i,
    {
        if a[i] != b[i] {
            proof {
                assert(s@.subrange(0, p@.len() as int)[i as int] != p@[i as int]);
            }
            return false;
        }
        i = i + 1;
    }
    true
}

/// Whether `s` ends with `p`.
pub fn ends_with(s: &str, p: &str) -> (r: bool)
    ensures
        r == p@.is_suffix_of(s@),
{
    let a: Vec<char> = chars(s);
    let b: Vec<char> = chars(p);
    if b.len() > a.len() {
        return false;
    }
    let n: usize = a.len();
    let from: usize = n - b.len();
    let mut i: usize = 0;
    while i < b.len()
        invariant
            n == a@.len(),
            i <= b@.len() <= a@.len(),
            from == a@.len() - b@.len(),
            a@ == s@,
            b@ == p@,
            forall|j: int| 0 <= j < i ==> a@[from + j] == b@[j],
        decreases b@.len() - i,
    {
        if a[from + i] != b[i] {
            proof {
                assert(s@.subrange(from as int, s@.len() as int)[i as int] != p@[i as int]);
            }
            return false;
        }
        i = i + 1;
    }
    proof {
        assert(p@ =~= s@.subrange(from as int, s@.len() as int));
    }
    true
}

/// What follows the prefix `p` of `s`, where `s` begins with it.
pub fn stripped<'a>(s: &'a str, p: &str) -> (r: Option<&'a str>)
    ensures
        match r {
            Some(t) => p@.is_prefix_of(s@) && t@ == s@.skip(p@.len() as int),
            None => !p@.is_prefix_of(s@),
        },
{
    if begins_with(s, p) {
        let n: usize = p.unicode_len();
        let m: usize = s.unicode_len();
        Some(s.substring_char(n, m))
    } else {
        None
    }
}

/// `s` without the repetitions of `prefix` at its start.
pub fn trimmed_start_str<'a>(s: &'a str, prefix: &str) -> (r: &'a str)
    ensures
        r@ == trim_start_str(s@, prefix@),
{
    let n: usize = prefix.unicode_len();
    let mut rest: &str = s;
    if n == 0 {
        return s;
    }
    while begins_with(rest, prefix)
        invariant
            n == prefix@.len(),
            n > 0,
            trim_start_str(s@, prefix@) == trim_start_str(rest@, prefix@),
        decreases rest@.len(),
    {
        let m: usize = rest.unicode_len();
        rest = rest.substring_char(n, m);
    }
    rest
}

/// What stands before the first `c` of `s`, all of `s` where there is none.
pub fn part_before<'a>(s: &'a str, c: char) -> (r: &'a str)
    ensures
        r@ == before(s@, c),
{
    let k: usize = find(s, c);
    proof {
        assert(s@.subrange(0, k as int) =~= s@.take(k as int));
    }
    s.substring_char(0, k)
}

/// The position of the first `c` of `s`, its length where there is none.
pub fn find(s: &str, c: char) -> (r: usize)
    ensures
        r == first(s@, c),
        r <= s@.len(),
{
    let cs: Vec<char> = chars(s);
    let mut k: usize = 0;
    while k < cs.len() && cs[k] != c
        invariant
            k <= cs@.len(),
            forall|j: int| 0 <= j < k ==> cs@[j] != c,
        decreases cs@.len() - k,
    {
        k = k + 1;
    }
    proof {
        lemma_first_is(s@, c, k as int);
    }
    k
}

/// What stands before and after the first `c` of `s`.
pub fn parts_once<'a>(s: &'a str, c: char) -> (r: Option<(&'a str, &'a str)>)
    ensures
        match r {
            Some((a, b)) => split_once(s@, c) == Some((a@, b@)),
            None => split_once(s@, c) is None,
        },
{
    let k: usize = find(s, c);
    let n: usize = s.unicode_len();
    if k < n {
        proof {
            assert(s@.subrange(0, k as int) =~= s@.take(k as int));
            assert(s@.subrange(k + 1, n as int) =~= s@.skip(k + 1));
        }
        Some((s.substring_char(0, k), s.substring_char(k + 1, n)))
    } else {
        None
    }
}

/// The trimmed, non-empty pieces of a comma-separated list.
pub fn comma_list(s: &str) -> (r: Vec<String>)
    ensures
        views(r@) == comma_items(s@),
{
    let pieces: Vec<String> = pieces(s, ',');
    let mut out: Vec<String> = Vec::new();
    let mut i: usize = 0;
    while i < pieces.len()
        invariant
            i <= pieces@.len(),
            views(out@) == nonempty_trimmed(views(pieces@).take(i as int)),
        decreases pieces@.len() - i,
    {
        let t: &str = trimmed(pieces[i].as_str());
        proof {
            let l = views(pieces@).take(i + 1);
            assert(l.drop_last() =~= views(pieces@).take(i as int));
            assert(l.last() == pieces@[i as int]@);
        }
        if !t.is_empty() {
            let ghost was = out@;
            out.push(t.to_owned());
            proof {
                assert(views(out@) =~= views(was).push(t@));
            }
        }
        i = i + 1;
    }
    proof {
        assert(views(pieces@).take(pieces@.len() as int) =~= views(pieces@));
    }
    out
}

/// The pieces of `s` between the occurrences of `c`.
pub fn pieces(s: &str, c: char) -> (r: Vec<String>)
    ensures
        views(r@) == split(s@, c),
{
    let cs: Vec<char> = chars(s);
    let mut out: Vec<String> = Vec::new();
    let mut from: usize = 0;
    let mut k: usize = 0;
    proof {
        assert(s@.skip(0) =~= s@);
        assert(views(out@) =~= Seq::<Seq<char>>::empty());
        assert(Seq::<Seq<char>>::empty() + split(s@, c) =~= split(s@, c));
    }
    while k < cs.len()
        invariant
            from <= k <= cs@.len(),
            cs@ == s@,
            forall|j: int| from <= j < k ==> cs@[j] != c,
            views(out@) + split(s@.skip(from as int), c) == split(s@, c),
        decreases cs@.len() - k,
    {
        if cs[k] == c {
            let ghost was = out@;
            let ghost rest = s@.skip(from as int);
            proof {
                assert forall|j: int| 0 <= j < k - from implies rest[j] != c by {
                    assert(rest[j] == cs@[from + j]);
                }
                lemma_first_is(rest, c, k - from);
                assert(rest.skip(k - from + 1) =~= s@.skip(k + 1));
                assert(before(rest, c) =~= s@.subrange(from as int, k as int));
            }
            out.push(string_of(&cs, from, k));
            proof {
                assert(views(out@) =~= views(was).push(s@.subrange(from as int, k as int)));
                assert(views(was) + (seq![before(rest, c)] + split(s@.skip(k + 1), c)) =~= views(
                    out@,
                ) + split(s@.skip(k + 1), c));
            }
            from = k + 1;
        }
        k = k + 1;
    }
    let ghost was = out@;
    let ghost rest = s@.skip(from as int);
    proof {
        assert forall|j: int| 0 <= j < rest.len() implies rest[j] != c by {
            assert(rest[j] == cs@[from + j]);
        }
        lemma_first_is(rest, c, rest.len() as int);
        assert(rest =~= s@.subrange(from as int, k as int));
    }
    out.push(string_of(&cs, from, k));
    proof {
        assert(views(out@) =~= views(was) + seq![rest]);
    }
    out
}

/// The pieces of `list` in order with `sep` between neighbours.
pub fn joined(list: &Vec<String>, sep: char) -> (r: String)
    ensures
        r@ == join(views(list@), sep),
{
    let mut out: String = String::new();
    let mut i: usize = 0;
    while i < list.len()
        invariant
            i <= list@.len(),
            out@ == join(views(list@).take(i as int), sep),
        decreases list@.len() - i,
    {
        proof {
            let l = views(list@).take(i + 1);
            assert(l.drop_last() =~= views(list@).take(i as int));
            assert(l.last() == list@[i as int]@);
        }
        if i > 0 {
            out.push(sep);
        }
        out.append(list[i].as_str());
        proof {
            if i == 0 {
                assert(Seq::<char>::empty() + list@[0]@ =~= list@[0]@);
            }
        }
        i = i + 1;
    }
    proof {
        assert(views(list@).take(list@.len() as int) =~= views(list@));
    }
    out
}

/// The trimmed value, where something is left of it.
pub fn given_text<'a>(value: Option<&'a str>) -> (r: Option<&'a str>)
    ensures
        opt_str(r) == given(opt_str(value)),
{
    match value {
        None => None,
        Some(v) => {
            let t: &str = trimmed(v);
            if t.is_empty() {
                None
            } else {
                Some(t)
            }
        },
    }
}

/// Two pieces in a row.
pub fn cat2(a: &str, b: &str) -> (r: String)
    ensures
        r@ == a@ + b@,
{
    let mut out: String = a.to_owned();
    out.append(b);
    out
}

/// Three pieces in a row.
pub fn cat3(a: &str, b: &str, c: &str) -> (r: String)
    ensures
        r@ == a@ + b@ + c@,
{
    let mut out: String = cat2(a, b);
    out.append(c);
    out
}

/// A copy of a list of strings.
pub fn copy_list(list: &Vec<String>) -> (r: Vec<String>)
    ensures
        r@ == list@,
{
    let mut out: Vec<String> = Vec::new();
    let mut i: usize = 0;
    while i < list.len()
        invariant
            i <= list@.len(),
            out@ == list@.take(i as int),
        decreases list@.len() - i,
    {
        out.push(list[i].clone());
        i = i + 1;
    }
    proof {
        assert(list@.take(list@.len() as int) =~= list@);
    }
    out
}

/// A copy of an optional string.
pub fn copy_opt(s: &Option<String>) -> (r: Option<String>)
    ensures
        r == *s,
{
    match s {
        Some(t) => Some(t.clone()),
        None => None,
    }
}

/// `part` stands somewhere in `s`.
pub open spec fn has_part(s: Seq<char>, part: Seq<char>) -> bool
    decreases s.len(),
{
    part.is_prefix_of(s) || (s.len() > 0 && has_part(s.drop_first(), part))
}

/// `s` with every occurrence of the non-empty `from` replaced by `to`, from
/// left to right.
pub open spec fn replace_all(s: Seq<char>, from: Seq<char>, to: Seq<char>) -> Seq<char>
    decreases s.len(),
{
    if s.len() == 0 || from.len() == 0 {
        s
    } else if from.is_prefix_of(s) {
        to + replace_all(s.skip(from.len() as int), from, to)
    } else {
        seq![s[0]] + replace_all(s.drop_first(), from, to)
    }
}

/// Whether `part` stands at position `k` of `s`.
fn stands_at(s: &Vec<char>, part: &Vec<char>, k: usize) -> (r: bool)
    requires
        k <= s@.len(),
    ensures
        r == part@.is_prefix_of(s@.skip(k as int)),
{
    let n: usize = s.len();
    if part.len() > n - k {
        return false;
    }
    let mut i: usize = 0;
    let ghost rest = s@.skip(k as int);
    while i < part.len()
        invariant
            n == s@.len(),
            k <= n,
            i <= part@.len() <= n - k,
            rest == s@.skip(k as int),
            forall|j: int| 0 <= j < i ==> rest[j] == part@[j],
        decreases part@.len() - i,
    {
        proof {
            assert(rest[i as int] == s@[k + i]);
        }
        if s[k + i] != part[i] {
            proof {
                assert(rest.subrange(0, part@.len() as int)[i as int] != part@[i as int]);
            }
            return false;
        }
        i = i + 1;
    }
    proof {
        assert(part@ =~= rest.subrange(0, part@.len() as int));
    }
    true
}

/// Whether `part` stands somewhere in `s`.
pub fn contains_part(s: &str, part: &str) -> (r: bool)
    ensures
        r == has_part(s@, part@),
{
    let a: Vec<char> = chars(s);
    let b: Vec<char> = chars(part);
    let mut k: usize = 0;
    proof {
        assert(a@.skip(0) =~= a@);
    }
    while k < a.len()
        invariant
            k <= a@.len(),
            a@ == s@,
            b@ == part@,
            has_part(s@, part@) == has_part(a@.skip(k as int), part@),
        decreases a@.len() - k,
    {
        if stands_at(&a, &b, k) {
            return true;
        }
        proof {
            assert(a@.skip(k as int).drop_first() =~= a@.skip(k + 1));
        }
        k = k + 1;
    }
    stands_at(&a, &b, k)
}

/// `s` with every occurrence of the non-empty `from` replaced by `to`.
pub fn replaced(s: &str, from: &str, to: &str) -> (r: String)
    requires
        from@.len() > 0,
    ensures
        r@ == replace_all(s@, from@, to@),
{
    let a: Vec<char> = chars(s);
    let b: Vec<char> = chars(from);
    let mut out: String = String::new();
    let mut k: usize = 0;
    proof {
        assert(a@.skip(0) =~= a@);
        assert(Seq::<char>::empty() + replace_all(s@, from@, to@) =~= replace_all(
            s@,
            from@,
            to@,
        ));
    }
    while k < a.len()
        invariant
            k <= a@.len(),
            a@ == s@,
            b@ == from@,
            from@.len() > 0,
            out@ + replace_all(a@.skip(k as int), from@, to@) == replace_all(s@, from@, to@),
        decreases a@.len() - k,
    {
        let ghost rest = a@.skip(k as int);
        if stands_at(&a, &b, k) {
            let ghost was = out@;
            out.append(to);
            proof {
                assert(rest.skip(from@.len() as int) =~= a@.skip(k + from@.len()));
                assert(was + (to@ + replace_all(rest.skip(from@.len() as int), from@, to@)) =~= out@
                    + replace_all(a@.skip(k + from@.len()), from@, to@));
            }
            k = k + b.len();
        } else {
            let ghost was = out@;
            out.push(a[k]);
            proof {
                assert(rest.drop_first() =~= a@.skip(k + 1));
                assert(was + (seq![rest[0]] + replace_all(rest.drop_first(), from@, to@)) =~= out@
                    + replace_all(a@.skip(k + 1), from@, to@));
            }
            k = k + 1;
        }
    }
    proof {
        assert(a@.skip(k as int) =~= Seq::<char>::empty());
        assert(out@ + Seq::<char>::empty() =~= out@);
    }
    out
}

} // verus!
