//! Byte-level helpers: integers spread over bytes, and XOR checksums.

use vstd::prelude::*;
use vstd::slice::*;

verus! {

/// The XOR of all bytes of `s`.
pub open spec fn xor_all(s: Seq<u8>) -> u8
    decreases s.len(),
{
    if s.len() == 0 {
        0
    } else {
        xor_all(s.drop_last()) ^ s.last()
    }
}

/// XOR of `buf[from..to]`.
pub fn xor_range(buf: &[u8], from: usize, to: usize) -> (r: u8)
    requires
        from <= to <= buf@.len(),
    ensures
        r == xor_all(buf@.subrange(from as int, to as int)),
{
    let mut acc: u8 = 0;
    let mut i: usize = from;
    while i < to
        invariant
            from <= i <= to <= buf@.len(),
            acc == xor_all(buf@.subrange(from as int, i as int)),
        decreases to - i,
    {
        acc = acc ^ buf[i];
        proof {
            let s = buf@.subrange(from as int, i + 1);
            assert(s.drop_last() =~= buf@.subrange(from as int, i as int));
        }
        i = i + 1;
    }
    acc
}

/// The value of a big-endian byte pair.
pub open spec fn be16(hi: u8, lo: u8) -> int {
    hi as int * 256 + lo as int
}

/// Reads a big-endian byte pair.
pub fn u16_be(hi: u8, lo: u8) -> (r: u16)
    ensures
        r == be16(hi, lo),
{
    (hi as u16) * 256 + lo as u16
}

/// High byte of `v`.
pub fn hi_byte(v: u16) -> (r: u8)
    ensures
        r == v / 256,
{
    (v / 256) as u8
}

/// Low byte of `v`.
pub fn lo_byte(v: u16) -> (r: u8)
    ensures
        r == v % 256,
{
    (v % 256) as u8
}

/// Two to the power of `n`.
pub open spec fn two(n: nat) -> nat
    decreases n,
{
    if n == 0 {
        1
    } else {
        2 * two((n - 1) as nat)
    }
}

/// Bit `i` of `v`, counted from the least significant.
pub open spec fn bit(v: nat, i: nat) -> bool {
    (v / two(i)) % 2 == 1
}

/// Powers of two are positive.
pub(crate) proof fn two_is_positive(n: nat)
    ensures
        two(n) > 0,
    decreases n,
{
    if n > 0 {
        two_is_positive((n - 1) as nat);
    }
}

/// Dividing by the first power of two changes nothing.
pub(crate) proof fn nothing_is_halved(v: nat)
    ensures
        v / two(0) == v,
{
    vstd::arithmetic::div_mod::lemma_div_basics(v as int);
}

/// Dividing by a power of two and once more by two divides by the next power.
pub(crate) proof fn halves_add_up(v: nat, n: nat)
    ensures
        (v / two(n)) / 2 == v / two(n + 1),
{
    two_is_positive(n);
    vstd::arithmetic::div_mod::lemma_div_denominator(v as int, two(n) as int, 2);
    assert(two(n) * 2 == two(n + 1));
}

/// The signed value of a byte.
pub open spec fn signed(b: u8) -> int {
    if b < 128 {
        b as int
    } else {
        b - 256
    }
}

/// Reads a byte as a signed value.
pub fn as_signed(b: u8) -> (r: i8)
    ensures
        r == signed(b),
{
    if b < 128 {
        b as i8
    } else {
        (b as i16 - 256) as i8
    }
}

/// The byte that holds a signed value.
pub open spec fn unsigned(v: i8) -> u8 {
    if v >= 0 {
        v as u8
    } else {
        (v + 256) as u8
    }
}

/// Writes a signed value as a byte.
pub fn as_unsigned(v: i8) -> (r: u8)
    ensures
        r == unsigned(v),
{
    if v >= 0 {
        v as u8
    } else {
        (v as i16 + 256) as u8
    }
}

/// Reads bit `i` of a byte.
pub fn test_bit(b: u8, i: u8) -> (r: bool)
    requires
        i < 8,
    ensures
        r == bit(b as nat, i as nat),
{
    let mut rest: u8 = b;
    let mut k: u8 = 0;
    proof {
        nothing_is_halved(b as nat);
    }
    while k < i
        invariant
            k <= i,
            rest == b as nat / two(k as nat),
        decreases i - k,
    {
        proof {
            halves_add_up(b as nat, k as nat);
        }
        rest = rest / 2;
        k = k + 1;
    }
    rest % 2 == 1
}

/// The checksum of a joined text is that of its parts together, that of one byte is the
/// byte, and nothing has the checksum zero: so no byte is left out and none counts twice.
pub proof fn checksums_add_up(a: Seq<u8>, b: Seq<u8>, x: u8)
    ensures
        xor_all(Seq::empty()) == 0,
        xor_all(seq![x]) == x,
        xor_all(a.push(x)) == xor_all(a) ^ x,
        xor_all(a + b) == xor_all(a) ^ xor_all(b),
    decreases b.len(),
{
    assert(seq![x].drop_last() =~= Seq::empty());
    assert(0u8 ^ x == x) by (bit_vector);
    assert(a.push(x).drop_last() =~= a);
    let p = xor_all(a);
    if b.len() == 0 {
        assert(a + b =~= a);
        assert(p ^ 0 == p) by (bit_vector);
    } else {
        checksums_add_up(a, b.drop_last(), x);
        assert((a + b).drop_last() =~= a + b.drop_last());
        let q = xor_all(b.drop_last());
        let l = b.last();
        assert((p ^ q) ^ l == p ^ (q ^ l)) by (bit_vector);
    }
}

/// A number is the same before and after it is split into its high and low byte.
pub proof fn halves_make_the_number(v: u16, hi: u8, lo: u8, r: u16)
    requires
        call_ensures(hi_byte, (v,), hi),
        call_ensures(lo_byte, (v,), lo),
        call_ensures(u16_be, (hi, lo), r),
    ensures
        r == v,
        256 * hi + lo == v,
{
}

/// A byte read as a signed value keeps its value below 128 and loses 256 from there on, and
/// is written back as the same byte.
pub proof fn signed_bytes_round_trip(b: u8, v: i8, w: u8)
    requires
        call_ensures(as_signed, (b,), v),
        call_ensures(as_unsigned, (v,), w),
    ensures
        w == b,
        b < 128 ==> v == b,
        b >= 128 ==> v == b - 256,
{
}

/// Bit `i` of a byte is what is left of it by `i` halvings, odd or even.
pub proof fn bits_are_tested_from_below(b: u8, i: u8, r: bool)
    requires
        call_ensures(test_bit, (b, i), r),
        i < 8,
    ensures
        r <==> (b >> i) & 1 == 1,
{
    reveal_with_fuel(two, 9);
    assert((b >> 0u8) == b && (b >> 1u8) == b / 2 && (b >> 2u8) == b / 4 && (b >> 3u8) == b / 8 && (b
        >> 4u8) == b / 16 && (b >> 5u8) == b / 32 && (b >> 6u8) == b / 64 && (b >> 7u8) == b / 128)
        by (bit_vector);
    let s = b >> i;
    assert(s & 1 == s % 2) by (bit_vector);
    assert(b as nat / two(i as nat) == s as nat);
}

} // verus!
