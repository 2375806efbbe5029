//! The checksum of onboard profiles: CRC-16/CCITT-FALSE.

use vstd::prelude::*;

verus! {

/// The checksum of nothing.
pub const CRC_START: u16 = 0xFFFF;

/// The generator polynomial without its leading term.
pub const CRC_POLY: u16 = 0x1021;

/// One bit of polynomial division.
pub open spec fn crc_bit(crc: u16) -> u16 {
    if crc & 0x8000u16 != 0 {
        (crc << 1u16) ^ 0x1021u16
    } else {
        crc << 1u16
    }
}

/// `n` bits of polynomial division.
pub open spec fn crc_bits(crc: u16, n: nat) -> u16
    decreases n,
{
    if n == 0 {
        crc
    } else {
        crc_bit(crc_bits(crc, (n - 1) as nat))
    }
}

/// The checksum with one more byte.
pub open spec fn crc_byte(crc: u16, b: u8) -> u16 {
    crc_bits(crc ^ ((b as u16) << 8u16), 8)
}

/// The checksum of `data` behind what gave `start`.
pub open spec fn crc_from(start: u16, data: Seq<u8>) -> u16
    decreases data.len(),
{
    if data.len() == 0 {
        start
    } else {
        crc_byte(crc_from(start, data.drop_last()), data.last())
    }
}

/// The checksum of `data`.
pub open spec fn crc_of(data: Seq<u8>) -> u16 {
    crc_from(CRC_START, data)
}

/// Computes the checksum.
pub fn crc16(data: &[u8]) -> (r: u16)
    ensures
        r == crc_of(data@),
{
    proof {
        assert(data@.take(data@.len() as int) =~= data@);
    }
    crc16_prefix(data, data.len())
}

/// Computes the checksum of the first `len` bytes.
pub fn crc16_prefix(data: &[u8], len: usize) -> (r: u16)
    requires
        len <= data@.len(),
    ensures
        r == crc_of(data@.take(len as int)),
{
    let mut crc: u16 = CRC_START;
    let mut i: usize = 0;
    while i < len
        invariant
            i <= len <= data@.len(),
            crc == crc_of(data@.take(i as int)),
        decreases len - i,
    {
        let ghost before = crc;
        crc = crc ^ ((data[i] as u16) << 8u16);
        let ghost start = crc;
        let mut k: u8 = 0;
        while k < 8
            invariant
                k <= 8,
                crc == crc_bits(start, k as nat),
            decreases 8 - k,
        {
            if crc & 0x8000 != 0 {
                crc = (crc << 1u16) ^ CRC_POLY;
            } else {
                crc = crc << 1u16;
            }
            k = k + 1;
        }
        proof {
            assert(data@.take(i + 1).drop_last() =~= data@.take(i as int));
            assert(crc == crc_byte(before, data@[i as int]));
        }
        i = i + 1;
    }
    crc
}

/// A checksum does not depend on how the data was divided.
pub proof fn checksums_continue(start: u16, a: Seq<u8>, b: Seq<u8>)
    ensures
        crc_from(start, a + b) == crc_from(crc_from(start, a), b),
    decreases b.len(),
{
    if b.len() == 0 {
        assert(a + b =~= a);
    } else {
        assert((a + b).drop_last() =~= a + b.drop_last());
        checksums_continue(start, a, b.drop_last());
    }
}

/// Division of a value whose upper byte is empty moves its lower byte up.
proof fn lemma_low_byte_moves_up(v: u16)
    requires
        v < 256,
    ensures
        crc_bits(v, 8) == v << 8u16,
{
    reveal_with_fuel(crc_bits, 9);
    assert(crc_bits(v, 8) == crc_bit(
        crc_bit(crc_bit(crc_bit(crc_bit(crc_bit(crc_bit(crc_bit(v))))))),
    ));
    assert(v < 256 ==> (v & 0x8000u16 == 0) && ((v << 1u16) & 0x8000u16 == 0) && ((v << 2u16)
        & 0x8000u16 == 0) && ((v << 3u16) & 0x8000u16 == 0) && ((v << 4u16) & 0x8000u16 == 0) && ((
    v << 5u16) & 0x8000u16 == 0) && ((v << 6u16) & 0x8000u16 == 0) && ((v << 7u16) & 0x8000u16
        == 0) && ((v << 1u16) << 1u16 == v << 2u16) && ((v << 2u16) << 1u16 == v << 3u16) && ((v
        << 3u16) << 1u16 == v << 4u16) && ((v << 4u16) << 1u16 == v << 5u16) && ((v << 5u16)
        << 1u16 == v << 6u16) && ((v << 6u16) << 1u16 == v << 7u16) && ((v << 7u16) << 1u16 == v
        << 8u16)) by (bit_vector);
}

/// Data followed by its own checksum, most significant byte first, has checksum zero.
pub proof fn checksummed_data_closes_to_zero(data: Seq<u8>)
    ensures
        crc_of(data.push((crc_of(data) / 256) as u8).push((crc_of(data) % 256) as u8)) == 0,
{
    let c = crc_of(data);
    let hi = (c / 256) as u8;
    let lo = (c % 256) as u8;
    let one = data.push(hi);
    let two = one.push(lo);
    assert(one.drop_last() =~= data);
    assert(two.drop_last() =~= one);
    let x = c ^ ((hi as u16) << 8u16);
    assert(x == c % 256) by {
        let h = hi as u16;
        assert(h == c / 256 ==> c ^ (h << 8u16) == c % 256) by (bit_vector);
    }
    lemma_low_byte_moves_up(x);
    let y = x << 8u16;
    assert(crc_of(one) == y);
    let z = y ^ ((lo as u16) << 8u16);
    assert(z == 0) by {
        let l = lo as u16;
        assert(l == x ==> (x << 8u16) ^ (l << 8u16) == 0) by (bit_vector);
    }
    lemma_low_byte_moves_up(z);
    assert(0u16 << 8u16 == 0u16) by (bit_vector);
}

/// One bit of division loses nothing.
proof fn lemma_bit_is_injective(a: u16, b: u16)
    requires
        crc_bit(a) == crc_bit(b),
    ensures
        a == b,
{
    assert((if a & 0x8000u16 != 0 {
        (a << 1u16) ^ 0x1021u16
    } else {
        a << 1u16
    }) == (if b & 0x8000u16 != 0 {
        (b << 1u16) ^ 0x1021u16
    } else {
        b << 1u16
    }) ==> a == b) by (bit_vector);
}

/// Any number of bits of division loses nothing.
proof fn lemma_bits_are_injective(a: u16, b: u16, n: nat)
    requires
        crc_bits(a, n) == crc_bits(b, n),
    ensures
        a == b,
    decreases n,
{
    if n > 0 {
        lemma_bit_is_injective(crc_bits(a, (n - 1) as nat), crc_bits(b, (n - 1) as nat));
        lemma_bits_are_injective(a, b, (n - 1) as nat);
    }
}

/// Different checksums stay different whatever follows.
proof fn lemma_data_is_injective(a: u16, b: u16, data: Seq<u8>)
    requires
        crc_from(a, data) == crc_from(b, data),
    ensures
        a == b,
    decreases data.len(),
{
    if data.len() > 0 {
        let x = crc_from(a, data.drop_last());
        let y = crc_from(b, data.drop_last());
        let w = (data.last() as u16) << 8u16;
        lemma_bits_are_injective(x ^ w, y ^ w, 8);
        assert(x ^ w == y ^ w ==> x == y) by (bit_vector);
        lemma_data_is_injective(a, b, data.drop_last());
    }
}

/// Changing one byte always changes the checksum.
pub proof fn checksum_detects_a_changed_byte(data: Seq<u8>, i: int, b: u8)
    requires
        0 <= i < data.len(),
        data[i] != b,
    ensures
        crc_of(data.update(i, b)) != crc_of(data),
{
    let head = data.take(i);
    let rest = data.skip(i + 1);
    let old_byte = data[i];
    assert(data =~= head.push(old_byte) + rest);
    assert(data.update(i, b) =~= head.push(b) + rest);
    checksums_continue(CRC_START, head.push(old_byte), rest);
    checksums_continue(CRC_START, head.push(b), rest);
    if crc_of(data.update(i, b)) == crc_of(data) {
        lemma_data_is_injective(crc_of(head.push(old_byte)), crc_of(head.push(b)), rest);
        assert(head.push(old_byte).drop_last() =~= head);
        assert(head.push(b).drop_last() =~= head);
        let c = crc_of(head);
        let x = (old_byte as u16) << 8u16;
        let y = (b as u16) << 8u16;
        lemma_bits_are_injective(c ^ x, c ^ y, 8);
        assert(c ^ ((old_byte as u16) << 8u16) == c ^ ((b as u16) << 8u16) ==> old_byte == b)
            by (bit_vector);
    }
}

/// The checksum starts from all ones, and every bit shifts it to the left by one place; where
/// a one falls out on the left, the places 12, 5 and 0 are flipped.
pub proof fn checksums_divide_by_the_polynomial(crc: u16, data: Seq<u8>, b: u8)
    ensures
        crc_of(Seq::empty()) == 65535,
        crc < 0x8000 ==> crc_bit(crc) == 2 * crc,
        crc >= 0x8000 ==> crc_bit(crc) == ((2 * crc - 65536) as u16) ^ ((1u16 << 12u16) | (1u16 << 5u16) | 1u16),
        crc_of(data.push(b)) == crc_byte(crc_of(data), b),
        crc_byte(crc, b) == crc_bit(
            crc_bit(crc_bit(crc_bit(crc_bit(crc_bit(crc_bit(crc_bit(crc ^ ((b as u16) << 8u16)))))))),
        ),
{
    assert(crc & 0x8000u16 == 0 <==> crc < 0x8000) by (bit_vector);
    assert(crc < 0x8000 ==> crc << 1u16 == 2 * crc) by (bit_vector);
    assert(crc >= 0x8000 ==> crc << 1u16 == 2 * crc - 65536) by (bit_vector);
    assert((1u16 << 12u16) | (1u16 << 5u16) | 1u16 == 0x1021u16) by (bit_vector);
    assert(data.push(b).drop_last() =~= data);
    reveal_with_fuel(crc_bits, 9);
}

/// A checksum covers every byte it is asked to cover and no other.
pub proof fn checksums_cover_their_bytes(data: &[u8], len: usize, whole: u16, part: u16)
    requires
        call_ensures(crc16, (data,), whole),
        call_ensures(crc16_prefix, (data, len), part),
        len <= data@.len(),
    ensures
        whole == crc_of(data@),
        len == data@.len() ==> part == whole,
        whole == crc_from(part, data@.skip(len as int)),
        len == 0 ==> part == 65535,
{
    assert(data@ =~= data@.take(len as int) + data@.skip(len as int));
    checksums_continue(CRC_START, data@.take(len as int), data@.skip(len as int));
    if len == data@.len() {
        assert(data@.take(len as int) =~= data@);
    }
}

} // verus!
