//! Object ids and timestamps as the database has them.
use vstd::prelude::*;
use crate::ip::{hex_digit, hex_value};

verus! {

/// A 12-byte object id: the first four bytes and the last eight, each
/// big-endian.
#[derive(Debug, Clone, Copy, PartialEq, Eq, Structural)]
pub struct ObjectId {
    /// The first four bytes.
    pub hi: u32,
    /// The last eight bytes.
    pub lo: u64,
}

/// The id as a number below 2⁹⁶.
pub open spec fn oid_value(o: ObjectId) -> nat {
    (o.hi * 0x1_0000_0000_0000_0000 + o.lo) as nat
}

/// The id with a number below 2⁹⁶.
pub open spec fn oid_of(n: nat) -> ObjectId {
    ObjectId {
        hi: (n / 0x1_0000_0000_0000_0000) as u32,
        lo: (n % 0x1_0000_0000_0000_0000) as u64,
    }
}

/// The lower-case hexadecimal digit of a number below sixteen.
pub open spec fn hex_char(d: nat) -> char {
    if d < 10 {
        (48 + d) as u8 as char
    } else {
        (87 + d) as u8 as char
    }
}

/// The last `k` hexadecimal digits of `n`.
pub open spec fn hex_digits(n: nat, k: nat) -> Seq<char>
    decreases k,
{
    if k == 0 {
        seq![]
    } else {
        hex_digits(n / 16, (k - 1) as nat).push(hex_char(n % 16))
    }
}

/// The 24 hexadecimal digits of an id.
pub open spec fn oid_hex(o: ObjectId) -> Seq<char> {
    hex_digits(oid_value(o), 24)
}

/// The id that 24 hexadecimal digits of either case write; nothing else is an
/// id.
pub open spec fn oid_parsed(s: Seq<char>) -> Option<ObjectId> {
    match hex_value(s) {
        Some(v) if s.len() == 24 => Some(oid_of(v)),
        _ => None,
    }
}

/// The RFC 3339 form of a time in milliseconds since the epoch, where the
/// calendar has one.
pub uninterp spec fn rfc3339_form(millis: i64) -> Option<Seq<char>>;

/// `bson::oid::ObjectId::parse_str`: the id that a text writes, which is one
/// exactly where the text is 24 hexadecimal digits.
#[verifier::external_body]
fn bson_parse(s: &str) -> (r: Option<ObjectId>)
    ensures
        r == oid_parsed(s@),
{
    match bson::oid::ObjectId::parse_str(s) {
        Ok(o) => {
            let b = o.bytes();
            let hi = u32::from_be_bytes([b[0], b[1], b[2], b[3]]);
            let lo = u64::from_be_bytes([b[4], b[5], b[6], b[7], b[8], b[9], b[10], b[11]]);
            Some(ObjectId { hi, lo })
        },
        Err(_) => None,
    }
}

/// `bson::oid::ObjectId::to_hex`: the 24 lower-case hexadecimal digits of an
/// id.
#[verifier::external_body]
fn bson_hex(o: ObjectId) -> (r: String)
    ensures
        r@ == oid_hex(o),
{
    let h = o.hi.to_be_bytes();
    let l = o.lo.to_be_bytes();
    bson::oid::ObjectId::from_bytes(
        [h[0], h[1], h[2], h[3], l[0], l[1], l[2], l[3], l[4], l[5], l[6], l[7]],
    ).to_hex()
}

/// `bson::DateTime::try_to_rfc3339_string`: the RFC 3339 form of a time, which
/// depends on the time alone. How it is written is not stated.
#[verifier::external_body]
fn bson_rfc3339(millis: i64) -> (r: Option<String>)
    ensures
        crate::text::opt_view(r) == rfc3339_form(millis),
{
    bson::DateTime::from_millis(millis).try_to_rfc3339_string().ok()
}

impl ObjectId {
    /// The id that a text writes.
    pub fn parse_str(s: &str) -> (r: Option<ObjectId>)
        ensures
            r == oid_parsed(s@),
    {
        bson_parse(s)
    }

    /// The 24 hexadecimal digits of the id.
    pub fn to_hex(self) -> (r: String)
        ensures
            r@ == oid_hex(self),
    {
        bson_hex(self)
    }

    /// Whether the id stands before another in the order of their bytes.
    pub fn before(self, other: ObjectId) -> (r: bool)
        ensures
            r == (oid_value(self) < oid_value(other)),
    {
        self.hi < other.hi || (self.hi == other.hi && self.lo < other.lo)
    }
}

/// A time in milliseconds since the epoch.
#[derive(Debug, Clone, Copy, PartialEq, Eq, Structural)]
pub struct DateTime {
    /// Milliseconds since the epoch.
    pub millis: i64,
}

/// The RFC 3339 form of a time; empty where it has none.
pub open spec fn time_text(t: DateTime) -> Seq<char> {
    match rfc3339_form(t.millis) {
        Some(s) => s,
        None => seq![],
    }
}

/// The RFC 3339 form of a time; its milliseconds in decimal where it has none.
pub open spec fn time_or_millis(t: DateTime) -> Seq<char> {
    match rfc3339_form(t.millis) {
        Some(s) => s,
        None => if t.millis < 0 {
            "-"@ + crate::num::decimal((-t.millis) as nat)
        } else {
            crate::num::decimal(t.millis as nat)
        },
    }
}

impl DateTime {
    /// The RFC 3339 form; empty where there is none.
    pub fn to_text(self) -> (r: String)
        ensures
            r@ == time_text(self),
    {
        match bson_rfc3339(self.millis) {
            Some(s) => s,
            None => String::new(),
        }
    }

    /// The RFC 3339 form; the milliseconds where there is none.
    pub fn fmt_dt(self) -> (r: String)
        ensures
            r@ == time_or_millis(self),
    {
        text_or_millis(bson_rfc3339(self.millis), self.millis)
    }
}

/// A time's text, or its milliseconds in decimal where it has none.
pub fn text_or_millis(text: Option<String>, millis: i64) -> (r: String)
    ensures
        match text {
            Some(s) => r == s,
            None => r@ == if millis < 0 {
                "-"@ + crate::num::decimal((-millis) as nat)
            } else {
                crate::num::decimal(millis as nat)
            },
        },
{
    match text {
        Some(s) => s,
        None => {
            if millis < 0 {
                let n: u64 = (-(millis + 1)) as u64 + 1;
                let d: String = crate::num::to_decimal(n);
                crate::text::cat2("-", d.as_str())
            } else {
                crate::num::to_decimal(millis as u64)
            }
        },
    }
}

proof fn lemma_hex_char_reads_back(d: nat)
    requires
        d < 16,
    ensures
        hex_digit(hex_char(d)) == Some(d as u32),
{
}

spec fn pow16(k: nat) -> nat
    decreases k,
{
    if k == 0 {
        1
    } else {
        16 * pow16((k - 1) as nat)
    }
}

proof fn lemma_hex_digits_read_back(n: nat, k: nat)
    requires
        n < pow16(k),
    ensures
        hex_digits(n, k).len() == k,
        hex_value(hex_digits(n, k)) == Some(n),
    decreases k,
{
    if k > 0 {
        lemma_hex_digits_read_back(n / 16, (k - 1) as nat);
        lemma_hex_char_reads_back(n % 16);
        let s = hex_digits(n, k);
        assert(s.drop_last() =~= hex_digits(n / 16, (k - 1) as nat));
    }
}

proof fn lemma_pow16()
    ensures
        pow16(24) == 0x1_0000_0000_0000_0000_0000_0000,
{
    reveal_with_fuel(pow16, 25);
}

/// What an id is written as is read back as the same id.
pub proof fn hex_round_trip(o: ObjectId)
    ensures
        oid_parsed(oid_hex(o)) == Some(o),
{
    lemma_pow16();
    lemma_hex_digits_read_back(oid_value(o), 24);
}

/// Ids that are written alike are the same id.
pub proof fn hex_is_unique(a: ObjectId, b: ObjectId)
    requires
        oid_hex(a) == oid_hex(b),
    ensures
        a == b,
{
    hex_round_trip(a);
    hex_round_trip(b);
}

/// The hexadecimal form of an id is of twenty-four digits, with small letters.
pub proof fn hex_is_in_small_letters(o: ObjectId, i: int)
    requires
        0 <= i < oid_hex(o).len(),
    ensures
        oid_hex(o).len() == 24,
        '0' <= oid_hex(o)[i] <= '9' || 'a' <= oid_hex(o)[i] <= 'f',
{
    lemma_small_letters(oid_value(o), 24, i);
}

proof fn lemma_small_letters(n: nat, k: nat, i: int)
    ensures
        hex_digits(n, k).len() == k,
        0 <= i < k ==> '0' <= hex_digits(n, k)[i] <= '9' || 'a' <= hex_digits(n, k)[i] <= 'f',
    decreases k,
{
    if k > 0 {
        lemma_small_letters(n / 16, (k - 1) as nat, i);
    }
}

/// The hexadecimal form of an id is the number that the id is, its high part
/// first.
pub proof fn hex_is_the_number(o: ObjectId)
    ensures
        hex_value(oid_hex(o)) == Some((o.hi * 0x1_0000_0000_0000_0000 + o.lo) as nat),
{
    lemma_pow16();
    lemma_hex_digits_read_back(oid_value(o), 24);
}

/// A time that has no text is told as nothing, or as its milliseconds.
pub proof fn times_without_a_text(t: DateTime)
    ensures
        rfc3339_form(t.millis) is None ==> time_text(t).len() == 0,
        rfc3339_form(t.millis) is None && t.millis >= 0 ==> time_or_millis(t)
            == crate::num::decimal(t.millis as nat),
        rfc3339_form(t.millis) is None && t.millis < 0 ==> time_or_millis(t) == "-"@
            + crate::num::decimal((-t.millis) as nat),
        rfc3339_form(t.millis) matches Some(s) ==> time_text(t) == s && time_or_millis(t) == s,
{
}

} // verus!
