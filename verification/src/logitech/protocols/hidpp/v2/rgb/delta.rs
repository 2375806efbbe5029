//! Runs of keys as differences from key to key, packed into few bits. Frames do not use
//! this form; it is offered for devices that are known to take it.

use crate::bytes::two;
use crate::logitech::protocols::hidpp::v2::rgb::per_key::{channel, views};
use crate::logitech::protocols::hidpp::{build_packet, packet};
use crate::rgb::RgbColor;
use vstd::prelude::*;

verus! {

/// The lowest `n` bits of `v`, most significant first.
pub open spec fn low_bits(v: nat, n: nat) -> Seq<bool>
    decreases n,
{
    if n == 0 {
        Seq::empty()
    } else {
        low_bits(v / 2, (n - 1) as nat).push(v % 2 == 1)
    }
}

/// The number that bits stand for, most significant first.
pub open spec fn bits_value(bits: Seq<bool>) -> nat
    decreases bits.len(),
{
    if bits.len() == 0 {
        0
    } else {
        2 * bits_value(bits.drop_last()) + if bits.last() {
            1nat
        } else {
            0nat
        }
    }
}

/// Eight bits from a position on; past the end they are zeros.
pub open spec fn window(bits: Seq<bool>, at: int) -> Seq<bool> {
    Seq::new(8, |j: int| at + j < bits.len() && bits[at + j])
}

/// Bits packed into bytes; zeros fill the last one.
pub open spec fn packed(bits: Seq<bool>) -> Seq<u8> {
    Seq::new((bits.len() + 7) / 8, |i: int| bits_value(window(bits, 8 * i)) as u8)
}

/// Low bits have the length asked for.
proof fn lemma_low_bits_len(v: nat, n: nat)
    ensures
        low_bits(v, n).len() == n,
    decreases n,
{
    if n > 0 {
        lemma_low_bits_len(v / 2, (n - 1) as nat);
    }
}

/// Numbers that fit keep their value.
proof fn lemma_value_of_low_bits(v: nat, n: nat)
    requires
        v < two(n),
    ensures
        bits_value(low_bits(v, n)) == v,
    decreases n,
{
    if n > 0 {
        lemma_value_of_low_bits(v / 2, (n - 1) as nat);
        assert(low_bits(v, n).drop_last() =~= low_bits(v / 2, (n - 1) as nat));
    }
}

/// Bits of two numbers behind each other are those of one number.
proof fn lemma_join(v: nat, w: nat, n: nat, k: nat)
    requires
        w < two(k),
    ensures
        low_bits(v * two(k) + w, n + k) == low_bits(v, n) + low_bits(w, k),
    decreases k,
{
    if k == 0 {
        assert(low_bits(v, n) + low_bits(w, k) =~= low_bits(v, n));
        assert(v * two(k) + w == v) by (nonlinear_arith)
            requires
                two(k) == 1,
                w == 0,
        ;
    } else {
        let h = two((k - 1) as nat);
        let x = v * two(k) + w;
        assert(x == 2 * (v * h) + w) by (nonlinear_arith)
            requires
                x == v * two(k) + w,
                two(k) == 2 * h,
        ;
        assert(x / 2 == v * h + w / 2);
        assert(x % 2 == w % 2);
        lemma_join(v, w / 2, n, (k - 1) as nat);
        assert((n + k - 1) as nat == n + (k - 1) as nat);
        assert(low_bits(x, n + k) == low_bits(x / 2, (n + k - 1) as nat).push(x % 2 == 1));
        assert(low_bits(v, n) + low_bits(w, k) =~= (low_bits(v, n) + low_bits(
            w / 2,
            (k - 1) as nat,
        )).push(w % 2 == 1));
    }
}

/// Powers of two are positive and grow.
proof fn lemma_two(n: nat, m: nat)
    requires
        n <= m,
    ensures
        0 < two(n) <= two(m),
    decreases m,
{
    if n < m {
        lemma_two(n, (m - 1) as nat);
    } else if n > 0 {
        lemma_two((n - 1) as nat, (n - 1) as nat);
    }
}

/// Powers of two multiply by adding exponents.
proof fn lemma_two_adds(n: nat, m: nat)
    ensures
        two(n + m) == two(n) * two(m),
    decreases m,
{
    if m > 0 {
        lemma_two_adds(n, (m - 1) as nat);
        assert((n + m - 1) as nat == n + (m - 1) as nat);
        let a = two(n);
        let b = two((m - 1) as nat);
        assert(2 * (a * b) == a * (2 * b)) by (nonlinear_arith);
        assert(two(n + m) == 2 * two((n + m - 1) as nat));
        assert(two(m) == 2 * b);
    } else {
        let a = two(n);
        assert(a * 1 == a) by (nonlinear_arith);
    }
}

/// A number with a field behind it.
proof fn lemma_appended(a: nat, n: nat, value: nat, k: nat)
    requires
        n < 8,
        k <= 16,
        a < two(n),
        value < two(k),
    ensures
        0 <= a * two(k),
        a * two(k) + value < two(n + k) <= 0x80_0000,
        low_bits(a * two(k) + value, n + k) == low_bits(a, n) + low_bits(value, k),
{
    let scale = two(k);
    lemma_two_adds(n, k);
    lemma_two(k, k);
    lemma_two(n + k, 23);
    assert(two(23) == 0x80_0000) by {
        reveal_with_fuel(two, 24);
    }
    assert(a * scale + value < two(n) * scale) by (nonlinear_arith)
        requires
            a + 1 <= two(n),
            value < scale,
            scale > 0,
    ;
    lemma_join(a, value, n, k);
}

/// A number divided behind its first eight bits.
proof fn lemma_split(a: nat, rest: nat)
    requires
        a < two(8 + rest),
    ensures
        0 < two(rest),
        a / two(rest) < 256,
        a % two(rest) < two(rest),
        low_bits(a, 8 + rest) == low_bits(a / two(rest), 8) + low_bits(a % two(rest), rest),
{
    let low = two(rest);
    lemma_two(rest, rest);
    lemma_two_adds(8, rest);
    assert(two(8) == 256) by {
        reveal_with_fuel(two, 9);
    }
    let top = a / low;
    let m = a % low;
    assert(top < 256) by (nonlinear_arith)
        requires
            top == a / low,
            a < 256 * low,
            low > 0,
    ;
    assert(a == top * low + m && m < low) by (nonlinear_arith)
        requires
            top == a / low,
            m == a % low,
            low > 0,
    ;
    lemma_join(top, m, 8, rest);
}

/// Computes a power of two.
fn two_to(n: u32) -> (r: u32)
    requires
        n <= 24,
    ensures
        r == two(n as nat),
{
    let mut r: u32 = 1;
    let mut i: u32 = 0;
    while i < n
        invariant
            i <= n <= 24,
            r == two(i as nat),
        decreases n - i,
    {
        proof {
            lemma_two((i + 1) as nat, 24);
            assert(two(24) == 0x100_0000) by {
                reveal_with_fuel(two, 25);
            }
        }
        r = r * 2;
        i = i + 1;
    }
    r
}

/// The bits of bytes, most significant first.
pub open spec fn byte_bits(bytes: Seq<u8>) -> Seq<bool>
    decreases bytes.len(),
{
    if bytes.len() == 0 {
        Seq::empty()
    } else {
        byte_bits(bytes.drop_last()) + low_bits(bytes.last() as nat, 8)
    }
}

/// Collects fields of bits into bytes, most significant bit first.
#[derive(Debug)]
pub struct BitWriter {
    pub bytes: Vec<u8>,
    pub acc: u32,
    pub nbits: u32,
}

impl BitWriter {
    /// Fewer than eight bits wait for a byte.
    pub open spec fn wf(&self) -> bool {
        self.nbits < 8 && self.acc < two(self.nbits as nat)
    }

    /// Everything written so far.
    pub open spec fn bits(&self) -> Seq<bool> {
        byte_bits(self.bytes@) + low_bits(self.acc as nat, self.nbits as nat)
    }

    /// Nothing written.
    pub fn new() -> (r: Self)
        ensures
            r.wf(),
            r.bits() == Seq::<bool>::empty(),
    {
        let r = BitWriter { bytes: Vec::new(), acc: 0, nbits: 0 };
        proof {
            assert(r.bits() =~= Seq::<bool>::empty());
        }
        r
    }

    /// Appends a field.
    pub fn push(&mut self, value: u16, bits: u32)
        requires
            old(self).wf(),
            bits <= 16,
            value < two(bits as nat),
        ensures
            final(self).wf(),
            final(self).bits() == old(self).bits() + low_bits(value as nat, bits as nat),
    {
        let scale: u32 = two_to(bits);
        let ghost target = self.bits() + low_bits(value as nat, bits as nat);
        proof {
            lemma_appended(self.acc as nat, self.nbits as nat, value as nat, bits as nat);
            assert(target =~= byte_bits(self.bytes@) + (low_bits(
                self.acc as nat,
                self.nbits as nat,
            ) + low_bits(value as nat, bits as nat)));
        }
        self.acc = self.acc * scale + value as u32;
        self.nbits = self.nbits + bits;
        while self.nbits >= 8
            invariant
                self.nbits <= 23,
                self.acc < two(self.nbits as nat),
                self.bits() == target,
            decreases self.nbits,
        {
            let rest: u32 = self.nbits - 8;
            let low: u32 = two_to(rest);
            proof {
                lemma_split(self.acc as nat, rest as nat);
            }
            let top: u32 = self.acc / low;
            let ghost before = self.bytes@;
            self.bytes.push(top as u8);
            self.acc = self.acc % low;
            self.nbits = rest;
            proof {
                assert(self.bytes@.drop_last() =~= before);
                assert(self.bits() =~= byte_bits(before) + (low_bits(top as nat, 8) + low_bits(
                    self.acc as nat,
                    rest as nat,
                )));
            }
        }
    }

    /// The bytes, the last one filled with zeros.
    pub fn finish(self) -> (r: Vec<u8>)
        requires
            self.wf(),
        ensures
            r@ == packed(self.bits()),
    {
        let ghost bits = self.bits();
        let mut bytes: Vec<u8> = self.bytes;
        proof {
            lemma_windows(bytes@, low_bits(self.acc as nat, self.nbits as nat));
            lemma_byte_bits_len(bytes@);
            lemma_low_bits_len(self.acc as nat, self.nbits as nat);
        }
        let ghost head = bytes@;
        if self.nbits > 0 {
            let fill: u32 = two_to(8 - self.nbits);
            proof {
                let a = self.acc as nat;
                let n = self.nbits as nat;
                let k = (8 - n) as nat;
                let f = fill as nat;
                lemma_two_adds(n, k);
                lemma_two(k, k);
                assert(two(8) == 256) by {
                    reveal_with_fuel(two, 9);
                }
                assert(n + k == 8);
                assert(a * f < 256) by (nonlinear_arith)
                    requires
                        a + 1 <= two(n),
                        two(n) * f == 256,
                        f > 0,
                ;
                assert(0 <= a * f) by (nonlinear_arith);
                lemma_join(a, 0, n, k);
                lemma_zero_bits(k);
                lemma_value_of_low_bits(a * f, 8);
                let w = window(bits, 8 * head.len() as int);
                assert(w =~= low_bits(a, n) + low_bits(0, k)) by {
                    lemma_low_bits_len(a, n);
                    lemma_low_bits_len(0, k);
                    assert(bits =~= byte_bits(head) + low_bits(a, n));
                }
                assert(low_bits(a * f, 8) == low_bits(a * f + 0, n + k));
            }
            bytes.push((self.acc * fill) as u8);
        }
        proof {
            assert(bytes@ =~= packed(bits));
        }
        bytes
    }
}

/// Zero has no bits set.
proof fn lemma_zero_bits(n: nat)
    ensures
        forall|i: int| 0 <= i < low_bits(0, n).len() ==> !#[trigger] low_bits(0, n)[i],
    decreases n,
{
    if n > 0 {
        lemma_zero_bits((n - 1) as nat);
        lemma_low_bits_len(0, (n - 1) as nat);
        assert(low_bits(0, n) == low_bits(0, (n - 1) as nat).push(false));
    }
}

/// Bytes have eight bits each.
proof fn lemma_byte_bits_len(bytes: Seq<u8>)
    ensures
        byte_bits(bytes).len() == 8 * bytes.len(),
    decreases bytes.len(),
{
    if bytes.len() > 0 {
        lemma_byte_bits_len(bytes.drop_last());
        lemma_low_bits_len(bytes.last() as nat, 8);
    }
}

/// Bytes can be read back from their bits, whatever follows.
proof fn lemma_windows(bytes: Seq<u8>, rest: Seq<bool>)
    ensures
        forall|i: int|
            0 <= i < bytes.len() ==> bits_value(
                #[trigger] window(byte_bits(bytes) + rest, 8 * i),
            ) == bytes[i],
    decreases bytes.len(),
{
    if bytes.len() > 0 {
        let head = bytes.drop_last();
        let last = bytes.last();
        let n = head.len() as int;
        let tail = low_bits(last as nat, 8) + rest;
        lemma_windows(head, tail);
        lemma_byte_bits_len(head);
        lemma_low_bits_len(last as nat, 8);
        let all = byte_bits(bytes) + rest;
        assert(all =~= byte_bits(head) + tail);
        assert(two(8) == 256) by {
            reveal_with_fuel(two, 9);
        }
        lemma_value_of_low_bits(last as nat, 8);
        assert(window(all, 8 * n) =~= low_bits(last as nat, 8));
        assert forall|i: int| 0 <= i < bytes.len() implies bits_value(
            #[trigger] window(all, 8 * i),
        ) == bytes[i] by {
            if i < n {
                assert(window(byte_bits(head) + tail, 8 * i) == window(all, 8 * i));
                assert(bytes[i] == head[i]);
            }
        }
    }
}

/// The difference of a channel from one colour to the next.
pub open spec fn difference(a: RgbColor, b: RgbColor, i: int) -> int {
    channel(b, i) - channel(a, i)
}

/// Whether all differences of a run fit a signed field of `width` bits.
pub open spec fn fits(run: Seq<(u8, RgbColor)>, width: nat) -> bool {
    forall|k: int, i: int|
        0 <= k < run.len() - 1 && 0 <= i < 3 ==> -(two((width - 1) as nat) as int)
            <= #[trigger] difference(run[k].1, run[k + 1].1, i) < two((width - 1) as nat)
}

/// The field that holds a difference: its lowest bits.
pub open spec fn field(d: int, width: nat) -> nat {
    (d % (two(width) as int)) as nat
}

/// The difference that a field holds.
pub open spec fn field_difference(f: nat, width: nat) -> int {
    if f < two((width - 1) as nat) {
        f as int
    } else {
        f - two(width)
    }
}

/// The bits of the first `count` channel differences of a run.
pub open spec fn difference_bits(run: Seq<(u8, RgbColor)>, width: nat, count: nat) -> Seq<bool>
    decreases count,
{
    if count == 0 {
        Seq::empty()
    } else {
        let m = count - 1;
        difference_bits(run, width, m as nat) + low_bits(
            field(difference(run[m / 3].1, run[m / 3 + 1].1, m % 3), width),
            width,
        )
    }
}

/// The parameters of a packet: the first key and its colour, then the differences.
pub open spec fn delta_params(group: Seq<(u8, RgbColor)>, width: nat) -> Seq<u8> {
    seq![group[0].0, group[0].1.r, group[0].1.g, group[0].1.b] + packed(
        difference_bits(group, width, (3 * (group.len() - 1)) as nat),
    )
}

/// How many keys a packet holds.
pub open spec fn keys_per_packet(width: nat) -> int {
    1 + 96int / (3 * width as int)
}

/// The function byte of a width.
pub open spec fn delta_function(width: nat) -> u8 {
    if width == 4 {
        0x41
    } else {
        0x31
    }
}

/// The packets of a run.
pub open spec fn delta_packets(
    run: Seq<(u8, RgbColor)>,
    width: nat,
    devnum: u8,
    pk_idx: u8,
) -> Seq<Seq<u8>>
    decreases run.len(),
{
    if run.len() == 0 || width == 0 || width > 32 {
        Seq::empty()
    } else {
        let n = if run.len() < keys_per_packet(width) {
            run.len() as int
        } else {
            keys_per_packet(width)
        };
        seq![
            packet(devnum, pk_idx, delta_function(width), delta_params(run.take(n), width), true),
        ] + delta_packets(run.skip(n), width, devnum, pk_idx)
    }
}

/// Whether one colour follows another within a field of half-range `half`.
fn step_fits(a: RgbColor, b: RgbColor, half: i16) -> (r: bool)
    requires
        0 < half <= 16,
    ensures
        r == (forall|i: int| 0 <= i < 3 ==> -half <= #[trigger] difference(a, b, i) < half),
{
    let dr: i16 = b.r as i16 - a.r as i16;
    let dg: i16 = b.g as i16 - a.g as i16;
    let db: i16 = b.b as i16 - a.b as i16;
    proof {
        assert(difference(a, b, 0) == dr);
        assert(difference(a, b, 1) == dg);
        assert(difference(a, b, 2) == db);
    }
    -half <= dr && dr < half && -half <= dg && dg < half && -half <= db && db < half
}

/// Whether all differences of a run fit a field of 4 or 5 bits.
fn run_fits(run: &[(u8, RgbColor)], width: u32) -> (r: bool)
    requires
        width == 4 || width == 5,
    ensures
        r == fits(run@, width as nat),
{
    let half: i16 = if width == 4 {
        8
    } else {
        16
    };
    proof {
        reveal_with_fuel(two, 6);
    }
    let n: usize = run.len();
    let mut k: usize = 1;
    while k < n
        invariant
            1 <= k,
            n == run@.len(),
            n >= 1 ==> k <= n,
            half == two((width - 1) as nat),
            0 < half <= 16,
            forall|j: int, i: int|
                0 <= j < k - 1 && 0 <= i < 3 ==> -half <= #[trigger] difference(
                    run@[j].1,
                    run@[j + 1].1,
                    i,
                ) < half,
        decreases n - k,
    {
        if !step_fits(run[k - 1].1, run[k].1, half) {
            proof {
                let i = choose|i: int|
                    0 <= i < 3 && !(-half <= #[trigger] difference(
                        run@[k - 1].1,
                        run@[k as int].1,
                        i,
                    ) < half);
                assert(run@[k - 1 + 1] == run@[k as int]);
                assert(!(-half <= difference(run@[k - 1].1, run@[k - 1 + 1].1, i) < half));
            }
            return false;
        }
        k = k + 1;
    }
    true
}

/// Appends the differences from one key to the next.
fn push_step(writer: &mut BitWriter, a: RgbColor, b: RgbColor, width: u32)
    requires
        old(writer).wf(),
        width == 4 || width == 5,
    ensures
        final(writer).wf(),
        final(writer).bits() == old(writer).bits() + low_bits(
            field(difference(a, b, 0), width as nat),
            width as nat,
        ) + low_bits(field(difference(a, b, 1), width as nat), width as nat) + low_bits(
            field(difference(a, b, 2), width as nat),
            width as nat,
        ),
{
    let span: i16 = if width == 4 {
        16
    } else {
        32
    };
    proof {
        reveal_with_fuel(two, 6);
    }
    writer.push(field_of(a.r, b.r, span), width);
    writer.push(field_of(a.g, b.g, span), width);
    writer.push(field_of(a.b, b.b, span), width);
}

/// The field for the difference of two channel values.
fn field_of(a: u8, b: u8, span: i16) -> (r: u16)
    requires
        span == 16 || span == 32,
    ensures
        r == (b - a) % (span as int),
        r < span,
{
    let d: i16 = b as i16 - a as i16 + 256;
    proof {
        assert(d % span == (b - a) % (span as int));
    }
    (d % span) as u16
}

/// Encodes a run of keys with consecutive ids by differences; `None` where one does not fit
/// five bits. Four bits are used where they are enough.
pub fn encode_delta(run: &[(u8, RgbColor)], devnum: u8, pk_idx: u8) -> (r: Option<Vec<Vec<u8>>>)
    ensures
        match r {
            Some(packets) => {
                ||| fits(run@, 4) && views(packets@) == delta_packets(run@, 4, devnum, pk_idx)
                ||| !fits(run@, 4) && fits(run@, 5) && views(packets@) == delta_packets(
                    run@,
                    5,
                    devnum,
                    pk_idx,
                )
            },
            None => !fits(run@, 4) && !fits(run@, 5),
        },
{
    let width: u32 = if run_fits(run, 4) {
        4
    } else if run_fits(run, 5) {
        5
    } else {
        return None;
    };
    let per: usize = if width == 4 {
        9
    } else {
        7
    };
    let func: u8 = if width == 4 {
        0x41
    } else {
        0x31
    };
    let n: usize = run.len();
    let ghost all = delta_packets(run@, width as nat, devnum, pk_idx);
    let mut packets: Vec<Vec<u8>> = Vec::new();
    let mut at: usize = 0;
    proof {
        assert(keys_per_packet(4) == 9 && keys_per_packet(5) == 7);
        assert(run@.skip(0) =~= run@);
        assert(views(packets@) + all =~= all);
    }
    while at < n
        invariant
            at <= n,
            n == run@.len(),
            width == 4 || width == 5,
            per == keys_per_packet(width as nat),
            2 <= per <= 9,
            func == delta_function(width as nat),
            views(packets@) + delta_packets(run@.skip(at as int), width as nat, devnum, pk_idx)
                == all,
        decreases n - at,
    {
        let count: usize = if n - at < per {
            n - at
        } else {
            per
        };
        let ghost group = run@.skip(at as int).take(count as int);
        let mut params: Vec<u8> = vec![run[at].0, run[at].1.r, run[at].1.g, run[at].1.b];
        let mut writer = BitWriter::new();
        let mut k: usize = 1;
        while k < count
            invariant
                1 <= k <= count,
                at + count <= n,
                n == run@.len(),
                width == 4 || width == 5,
                group == run@.skip(at as int).take(count as int),
                writer.wf(),
                writer.bits() == difference_bits(group, width as nat, (3 * (k - 1)) as nat),
            decreases count - k,
        {
            let ghost before = writer.bits();
            push_step(&mut writer, run[at + k - 1].1, run[at + k].1, width);
            proof {
                let m = 3 * (k - 1);
                assert(group[k - 1] == run@[at + k - 1]);
                assert(group[k as int] == run@[at + k]);
                lemma_three_more(group, width as nat, (k - 1) as nat);
            }
            k = k + 1;
        }
        let bits: Vec<u8> = writer.finish();
        let ghost head = params@;
        let mut i: usize = 0;
        let len: usize = bits.len();
        while i < len
            invariant
                i <= len,
                len == bits@.len(),
                params@ =~= head + bits@.take(i as int),
            decreases len - i,
        {
            params.push(bits[i]);
            i = i + 1;
        }
        proof {
            assert(group[0] == run@[at as int]);
            assert(head =~= seq![group[0].0, group[0].1.r, group[0].1.g, group[0].1.b]);
            assert(bits@.take(len as int) =~= bits@);
            assert(params@ == delta_params(group, width as nat));
        }
        let ghost before = views(packets@);
        let pkt: Vec<u8> = build_packet(devnum, pk_idx, func, params.as_slice(), true);
        packets.push(pkt);
        proof {
            let rest = delta_packets(run@.skip(at + count), width as nat, devnum, pk_idx);
            assert(run@.skip(at as int).skip(count as int) =~= run@.skip(at + count));
            assert(views(packets@) =~= before.push(pkt@));
            assert(views(packets@) + rest =~= before + (seq![pkt@] + rest));
        }
        at = at + count;
    }
    proof {
        assert(run@.skip(at as int).len() == 0);
        assert(views(packets@) + delta_packets(
            run@.skip(at as int),
            width as nat,
            devnum,
            pk_idx,
        ) =~= views(packets@));
    }
    Some(packets)
}

/// One step adds three differences.
proof fn lemma_three_more(group: Seq<(u8, RgbColor)>, width: nat, k: nat)
    ensures
        difference_bits(group, width, 3 * k + 3) == difference_bits(group, width, 3 * k)
            + low_bits(
            field(difference(group[k as int].1, group[k as int + 1].1, 0), width),
            width,
        ) + low_bits(field(difference(group[k as int].1, group[k as int + 1].1, 1), width), width)
            + low_bits(field(difference(group[k as int].1, group[k as int + 1].1, 2), width), width),
{
    let a = difference_bits(group, width, 3 * k + 1);
    let b = difference_bits(group, width, 3 * k + 2);
    assert((3 * k) / 3 == k && (3 * k) % 3 == 0);
    assert((3 * k + 1) / 3 == k && (3 * k + 1) % 3 == 1);
    assert((3 * k + 2) / 3 == k && (3 * k + 2) % 3 == 2);
    assert((3 * k + 1 - 1) as nat == 3 * k);
    assert((3 * k + 2 - 1) as nat == 3 * k + 1);
    assert((3 * k + 3 - 1) as nat == 3 * k + 2);
}

/// A difference that fits can be read back from its field.
pub proof fn fields_keep_their_difference(d: int, width: nat)
    requires
        width > 0,
        -(two((width - 1) as nat) as int) <= d < two((width - 1) as nat),
    ensures
        field_difference(field(d, width), width) == d,
        field(d, width) < two(width),
{
    let h = two((width - 1) as nat);
    lemma_two((width - 1) as nat, (width - 1) as nat);
    assert(two(width) == 2 * h);
    if d < 0 {
        assert(d % (2 * h as int) == d + 2 * h) by (nonlinear_arith)
            requires
                -(h as int) <= d < 0,
                h > 0,
        ;
    } else {
        assert(d % (2 * h as int) == d) by (nonlinear_arith)
            requires
                0 <= d < h,
                h > 0,
        ;
    }
}

/// Packing bits loses nothing: the bits of the bytes are the bits that were packed, and
/// zeros behind them.
pub proof fn packed_bits_read_back(bits: Seq<bool>, i: int)
    requires
        0 <= i < 8 * packed(bits).len(),
    ensures
        byte_bits(packed(bits)).len() == 8 * packed(bits).len(),
        byte_bits(packed(bits))[i] == (i < bits.len() && bits[i]),
{
    let bytes = packed(bits);
    lemma_byte_bits_len(bytes);
    lemma_byte_bits_at(bytes, i / 8);
    let w = window(bits, 8 * (i / 8));
    lemma_bits_of_value(w);
    lemma_value_bound(w);
    assert(two(8) == 256) by {
        reveal_with_fuel(two, 9);
    }
    assert(bytes[i / 8] as nat == bits_value(w));
    assert(byte_bits(bytes).subrange(8 * (i / 8), 8 * (i / 8) + 8) == w);
    assert(byte_bits(bytes).subrange(8 * (i / 8), 8 * (i / 8) + 8)[i % 8] == byte_bits(bytes)[i]);
    assert(8 * (i / 8) + i % 8 == i);
}

/// Eight bits of bytes are those of one of them.
proof fn lemma_byte_bits_at(bytes: Seq<u8>, k: int)
    requires
        0 <= k < bytes.len(),
    ensures
        byte_bits(bytes).len() == 8 * bytes.len(),
        byte_bits(bytes).subrange(8 * k, 8 * k + 8) == low_bits(bytes[k] as nat, 8),
    decreases bytes.len(),
{
    lemma_byte_bits_len(bytes);
    let head = bytes.drop_last();
    lemma_byte_bits_len(head);
    lemma_low_bits_len(bytes.last() as nat, 8);
    if k < head.len() {
        lemma_byte_bits_at(head, k);
        assert(byte_bits(bytes).subrange(8 * k, 8 * k + 8) =~= byte_bits(head).subrange(
            8 * k,
            8 * k + 8,
        ));
    } else {
        assert(byte_bits(bytes).subrange(8 * k, 8 * k + 8) =~= low_bits(bytes[k] as nat, 8));
    }
}

/// Bits stand for a number that fits them.
proof fn lemma_value_bound(bits: Seq<bool>)
    ensures
        bits_value(bits) < two(bits.len()),
    decreases bits.len(),
{
    if bits.len() > 0 {
        lemma_value_bound(bits.drop_last());
    }
}

/// Bits are those of the number they stand for.
proof fn lemma_bits_of_value(bits: Seq<bool>)
    ensures
        low_bits(bits_value(bits), bits.len()) == bits,
    decreases bits.len(),
{
    if bits.len() > 0 {
        lemma_bits_of_value(bits.drop_last());
        assert(bits =~= bits.drop_last().push(bits.last()));
    }
}

/// Difference `m` among the fields of a bit string.
pub open spec fn read_difference(bits: Seq<bool>, width: nat, m: int) -> int {
    field_difference(bits_value(bits.subrange(m * width, m * width + width)), width)
}

/// Channel `i` of key `k`, read from the parameters of a packet.
pub open spec fn read_channel(params: Seq<u8>, width: nat, k: nat, i: int) -> int
    decreases k,
{
    if k == 0 {
        params[1 + i] as int
    } else {
        read_channel(params, width, (k - 1) as nat, i) + read_difference(
            byte_bits(params.skip(4)),
            width,
            3 * (k - 1) + i,
        )
    }
}

/// The fields of a run stand at their places.
proof fn lemma_field_at(run: Seq<(u8, RgbColor)>, width: nat, count: nat, m: int)
    requires
        width == 4 || width == 5,
        0 <= m < count,
    ensures
        difference_bits(run, width, count).len() == count * width,
        difference_bits(run, width, count).subrange(m * width, m * width + width) == low_bits(
            field(difference(run[m / 3].1, run[m / 3 + 1].1, m % 3), width),
            width,
        ),
    decreases count,
{
    lemma_difference_bits_len(run, width, count);
    let n = count - 1;
    lemma_difference_bits_len(run, width, n as nat);
    let head = difference_bits(run, width, n as nat);
    let f = field(difference(run[n / 3].1, run[n / 3 + 1].1, n % 3), width);
    lemma_low_bits_len(f, width);
    let all = difference_bits(run, width, count);
    assert(all == head + low_bits(f, width));
    if m < n {
        lemma_field_at(run, width, n as nat, m);
        assert(m * width + width <= n * width) by (nonlinear_arith)
            requires
                m + 1 <= n,
                width > 0,
        ;
        assert(0 <= m * width) by (nonlinear_arith)
            requires
                0 <= m,
        ;
        assert(all.subrange(m * width, m * width + width) =~= head.subrange(
            m * width,
            m * width + width,
        ));
    } else {
        assert(all.subrange(m * width, m * width + width) =~= low_bits(f, width));
    }
}

/// The fields of a run are as wide as they are many.
proof fn lemma_difference_bits_len(run: Seq<(u8, RgbColor)>, width: nat, count: nat)
    ensures
        difference_bits(run, width, count).len() == count * width,
    decreases count,
{
    if count > 0 {
        let m = count - 1;
        lemma_difference_bits_len(run, width, m as nat);
        lemma_low_bits_len(
            field(difference(run[m / 3].1, run[m / 3 + 1].1, m % 3), width),
            width,
        );
        assert(m * width + width == count * width) by (nonlinear_arith)
            requires
                m == count - 1,
        ;
    } else {
        assert(0 * width == 0) by (nonlinear_arith);
    }
}

/// The colours of a run can be read back from its packets.
pub proof fn delta_packets_restore_colors(
    group: Seq<(u8, RgbColor)>,
    width: nat,
    k: nat,
    i: int,
)
    requires
        width == 4 || width == 5,
        fits(group, width),
        k < group.len(),
        0 <= i < 3,
    ensures
        read_channel(delta_params(group, width), width, k, i) == channel(group[k as int].1, i),
    decreases k,
{
    let params = delta_params(group, width);
    if k > 0 {
        delta_packets_restore_colors(group, width, (k - 1) as nat, i);
        let count = (3 * (group.len() - 1)) as nat;
        let m = 3 * (k - 1) + i;
        let bits = difference_bits(group, width, count);
        let bytes = packed(bits);
        assert(params.skip(4) =~= bytes);
        lemma_field_at(group, width, count, m);
        assert(m / 3 == k - 1 && m % 3 == i);
        let d = difference(group[k - 1].1, group[k as int].1, i);
        assert(group[k - 1 + 1] == group[k as int]);
        assert(d == difference(group[k - 1].1, group[k - 1 + 1].1, i));
        fields_keep_their_difference(d, width);
        lemma_value_of_low_bits(field(d, width), width);
        let at = m * width;
        assert(0 <= at && at + width <= bits.len()) by (nonlinear_arith)
            requires
                at == m * width,
                0 <= m,
                m + 1 <= count,
                bits.len() == count * width,
        ;
        lemma_byte_bits_len(bytes);
        let x = byte_bits(bytes).subrange(at, at + width);
        let y = bits.subrange(at, at + width);
        assert forall|j: int| 0 <= j < width implies #[trigger] x[j] == y[j] by {
            packed_bits_read_back(bits, at + j);
        }
        assert(x =~= y);
    }
}

/// A run is sent by differences of four bits where all fit them, else of five, else not at
/// all; its packets say which by their function, and each starts with the id and the colour
/// of its first key. Nine keys go into a packet of four bits, and seven into one of five.
pub proof fn runs_are_sent_by_differences(
    run: &[(u8, RgbColor)],
    devnum: u8,
    pk_idx: u8,
    r: Option<Vec<Vec<u8>>>,
    k: int,
)
    requires
        call_ensures(encode_delta, (run, devnum, pk_idx), r),
        0 <= k,
    ensures
        r is Some <==> fits(run@, 5),
        r matches Some(packets) ==> {
            let n: int = if fits(run@, 4) {
                9
            } else {
                7
            };
            &&& packets@.len() == (run@.len() + n - 1) / n
            &&& k < packets@.len() ==> {
                let p = packets@[k]@;
                let first = run@[k * n];
                &&& p.len() == 20 && p[0] == 0x11 && p[1] == devnum && p[2] == pk_idx
                &&& p[3] == if fits(run@, 4) {
                    0x41u8
                } else {
                    0x31u8
                }
                &&& p[4] == first.0 && p[5] == first.1.r && p[6] == first.1.g && p[7] == first.1.b
            }
        },
{
    lemma_four_fits_five(run@);
    if r is Some {
        let packets = r->Some_0@;
        let width: nat = if fits(run@, 4) {
            4
        } else {
            5
        };
        assert(views(packets) == delta_packets(run@, width, devnum, pk_idx));
        assert(views(packets).len() == packets.len());
        lemma_delta(run@, width, devnum, pk_idx, k);
        if k < packets.len() {
            assert(views(packets)[k] == packets[k]@);
        }
    }
}

/// What fits four bits fits five.
proof fn lemma_four_fits_five(run: Seq<(u8, RgbColor)>)
    ensures
        fits(run, 4) ==> fits(run, 5),
{
    reveal_with_fuel(two, 6);
    assert(two(3) == 8 && two(4) == 16);
    if fits(run, 4) {
        assert forall|k: int, i: int|
            0 <= k < run.len() - 1 && 0 <= i < 3 implies -(two(4) as int) <= #[trigger] difference(
            run[k].1,
            run[k + 1].1,
            i,
        ) < two(4) by {}
    }
}

/// Packet `k` of a run.
proof fn lemma_delta(run: Seq<(u8, RgbColor)>, width: nat, devnum: u8, pk_idx: u8, k: int)
    requires
        width == 4 || width == 5,
        0 <= k,
    ensures
        ({
            let n: int = if width == 4 {
                9
            } else {
                7
            };
            let packets = delta_packets(run, width, devnum, pk_idx);
            &&& packets.len() == (run.len() + n - 1) / n
            &&& k < packets.len() ==> {
                let p = packets[k];
                let first = run[k * n];
                &&& p.len() == 20 && p[0] == 0x11 && p[1] == devnum && p[2] == pk_idx
                &&& p[3] == if width == 4 {
                    0x41u8
                } else {
                    0x31u8
                }
                &&& p[4] == first.0 && p[5] == first.1.r && p[6] == first.1.g && p[7] == first.1.b
            }
        }),
    decreases run.len(),
{
    let n: int = if width == 4 {
        9
    } else {
        7
    };
    assert(96int / 12 == 8 && 96int / 15 == 6);
    if width == 4 {
        assert(keys_per_packet(4) == 9);
    } else {
        assert(keys_per_packet(5) == 7);
    }
    if run.len() > 0 {
        let m = if run.len() < n {
            run.len() as int
        } else {
            n
        };
        let rest = run.skip(m);
        lemma_delta(
            rest,
            width,
            devnum,
            pk_idx,
            if k > 0 {
                k - 1
            } else {
                0
            },
        );
        let params = delta_params(run.take(m), width);
        assert(params[0] == run[0].0 && params[1] == run[0].1.r && params[2] == run[0].1.g
            && params[3] == run[0].1.b);
        if k > 0 && run.len() > n {
            assert((k - 1) * n + n == k * n) by (nonlinear_arith);
            if k - 1 < delta_packets(rest, width, devnum, pk_idx).len() {
                assert((k - 1) * n < rest.len()) by (nonlinear_arith)
                    requires
                        k - 1 < (rest.len() + n - 1) / n,
                        n == 9 || n == 7,
                        k >= 1,
                ;
                assert(0 <= (k - 1) * n) by (nonlinear_arith)
                    requires
                        k >= 1,
                        n > 0,
                ;
                assert(rest[(k - 1) * n] == run[k * n]);
            }
        }
    }
}

/// Fields stand in the order they were pushed, each most significant bit first, eight bits
/// to a byte from its highest bit on, with zeros behind the last.
pub proof fn fields_stand_in_order(
    fresh: BitWriter,
    w: &mut BitWriter,
    value: u16,
    bits: u32,
    done: BitWriter,
    r: Vec<u8>,
    i: int,
)
    requires
        call_ensures(BitWriter::new, (), fresh),
        old(w).wf(),
        1 <= bits <= 16,
        value < two(bits as nat),
        call_ensures(BitWriter::push, (w, value, bits), ()),
        done.wf(),
        call_ensures(BitWriter::finish, (done,), r),
        0 <= i < done.bits().len(),
    ensures
        fresh.bits().len() == 0,
        final(w).bits().len() == old(w).bits().len() + bits,
        final(w).bits().take(old(w).bits().len() as int) == old(w).bits(),
        final(w).bits().last() <==> value % 2 == 1,
        bits_value(final(w).bits().skip(old(w).bits().len() as int)) == value,
        8 * r@.len() >= done.bits().len() && 8 * r@.len() < done.bits().len() + 8,
        byte_bits(r@)[i] == done.bits()[i],
{
    let a = old(w).bits();
    let b = low_bits(value as nat, bits as nat);
    lemma_low_bits_len(value as nat, bits as nat);
    lemma_value_of_low_bits(value as nat, bits as nat);
    assert((a + b).take(a.len() as int) =~= a);
    assert((a + b).skip(a.len() as int) =~= b);
    packed_bits_read_back(done.bits(), i);
}

} // verus!
