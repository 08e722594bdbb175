//! How the derived port tells machines apart.
use vstd::prelude::*;
use vstd::utf8::{encode_scalar, encode_utf8};
use crate::config::bridge::{derived_port, fnv1a};

verus! {

/// The low five bits of a product with the prime depend on the low five bits
/// of the other factor alone.
proof fn lemma_prime_low(a: u64)
    ensures
        a.wrapping_mul(0x0000_0100_0000_01b3) % 32 == (19 * (a % 32)) % 32,
{
    let m: int = a.wrapping_mul(0x0000_0100_0000_01b3) as int;
    let product: int = a * 0x0000_0100_0000_01b3int;
    let q: int = a as int / 32;
    let r: int = a as int % 32;
    let k: int = product / 0x1_0000_0000_0000_0000int;
    assert(m == product % 0x1_0000_0000_0000_0000int);
    assert(product == 0x1_0000_0000_0000_0000int * k + m);
    assert(a as int == 32 * q + r);
    let t: int = q * 0x0000_0100_0000_01b3int + r * 0x0000_0008_0000_000dint - k
        * 0x0800_0000_0000_0000int;
    assert(m == 32 * t + 19 * r);
    vstd::arithmetic::div_mod::lemma_mod_multiples_vanish(t, 19 * r, 32);
}

/// Multiplying by the prime tells the low five bits apart as they were.
proof fn lemma_prime_keeps_apart(a: u64, b: u64)
    ensures
        a % 32 == b % 32 <==> a.wrapping_mul(0x0000_0100_0000_01b3) % 32 == b.wrapping_mul(
            0x0000_0100_0000_01b3,
        ) % 32,
{
    let r: u32 = (a % 32) as u32;
    let s: u32 = (b % 32) as u32;
    assert(r == s <==> (19 * r) % 32 == (19 * s) % 32) by (bit_vector)
        requires
            r < 32,
            s < 32,
    ;
    lemma_prime_low(a);
    lemma_prime_low(b);
}

proof fn lemma_step_keeps_apart(a: u64, b: u64, x: u64)
    ensures
        a % 32 == b % 32 <==> (a ^ x).wrapping_mul(0x0000_0100_0000_01b3) % 32 == (b
            ^ x).wrapping_mul(0x0000_0100_0000_01b3) % 32,
{
    assert(a % 32 == b % 32 <==> (a ^ x) % 32 == (b ^ x) % 32) by (bit_vector);
    lemma_prime_keeps_apart(a ^ x, b ^ x);
}

proof fn lemma_tail_keeps_apart(p: Seq<u8>, q: Seq<u8>, tail: Seq<u8>)
    ensures
        fnv1a(p) % 32 == fnv1a(q) % 32 <==> fnv1a(p + tail) % 32 == fnv1a(q + tail) % 32,
    decreases tail.len(),
{
    if tail.len() == 0 {
        assert(p + tail =~= p);
        assert(q + tail =~= q);
    } else {
        let rest = tail.drop_last();
        lemma_tail_keeps_apart(p, q, rest);
        assert((p + tail).drop_last() =~= p + rest);
        assert((q + tail).drop_last() =~= q + rest);
        lemma_step_keeps_apart(fnv1a(p + rest), fnv1a(q + rest), tail.last() as u64);
    }
}

proof fn lemma_encode_append(a: Seq<char>, b: Seq<char>)
    ensures
        encode_utf8(a + b) == encode_utf8(a) + encode_utf8(b),
    decreases a.len(),
{
    if a.len() == 0 {
        assert(a + b =~= b);
    } else {
        assert((a + b).drop_first() =~= a.drop_first() + b);
        lemma_encode_append(a.drop_first(), b);
    }
    assert(encode_utf8(a + b) =~= encode_utf8(a) + encode_utf8(b));
}

proof fn lemma_encode_ascii(c: char)
    requires
        c as u32 <= 0x7f,
    ensures
        encode_utf8(seq![c]) == seq![c as u8],
{
    reveal_with_fuel(encode_utf8, 2);
    let u: u32 = c as u32;
    assert(seq![c].drop_first() =~= Seq::<char>::empty());
    assert(u <= 0x7f ==> (u & 0x7f) as u8 == u as u8) by (bit_vector);
    assert(encode_scalar(u) =~= seq![c as u8]);
    assert(encode_utf8(seq![c]) =~= seq![c as u8]);
}

/// Two machine ids that differ in one ASCII character get different ports
/// exactly where the low five bits of the two characters differ.
pub proof fn close_ids_get_other_ports(pre: Seq<char>, c: char, d: char, post: Seq<char>)
    requires
        c as u32 <= 0x7f,
        d as u32 <= 0x7f,
    ensures
        derived_port(pre + seq![c] + post) != derived_port(pre + seq![d] + post) <==> c as u32 % 32
            != d as u32 % 32,
{
    let p = encode_utf8(pre);
    let x: u64 = c as u8 as u64;
    let y: u64 = d as u8 as u64;
    let h: u64 = fnv1a(p);
    lemma_encode_append(pre, seq![c]);
    lemma_encode_append(pre + seq![c], post);
    lemma_encode_append(pre, seq![d]);
    lemma_encode_append(pre + seq![d], post);
    lemma_encode_ascii(c);
    lemma_encode_ascii(d);
    assert((p + seq![c as u8]).drop_last() =~= p);
    assert((p + seq![d as u8]).drop_last() =~= p);
    assert((h ^ x) % 32 == (h ^ y) % 32 <==> x % 32 == y % 32) by (bit_vector);
    lemma_prime_keeps_apart(h ^ x, h ^ y);
    lemma_tail_keeps_apart(p + seq![c as u8], p + seq![d as u8], encode_utf8(post));
}

} // verus!
