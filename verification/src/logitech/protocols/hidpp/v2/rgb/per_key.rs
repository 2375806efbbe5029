//! Per-key frames. Only what changed since the last frame is sent: spans of one colour as
//! ranges, and runs of neighbouring keys with different colours as consecutive colours.

use crate::logitech::protocols::hidpp::{build_packet, packet, reads_as};
use crate::rgb::{black, RgbColor};
use vstd::prelude::*;

verus! {

/// Sets four keys.
pub const FN_SET_INDIVIDUAL: u8 = 0x10;

/// Sets consecutive keys.
pub const FN_SET_CONSECUTIVE: u8 = 0x20;

/// Sets consecutive keys by differences of five bits.
pub const FN_DELTA_5BIT: u8 = 0x30;

/// Sets consecutive keys by differences of four bits.
pub const FN_DELTA_4BIT: u8 = 0x40;

/// Sets ranges of keys.
pub const FN_SET_RANGE: u8 = 0x50;

/// Shows what was set.
pub const FN_FRAME_END: u8 = 0x70;

/// Marks the function bytes of this program.
pub const SWID: u8 = 0x01;

/// Ranges in one packet.
pub const RANGES_PER_PACKET: usize = 3;

/// Keys in one packet of consecutive colours.
pub const KEYS_PER_CONSECUTIVE: usize = 5;

/// The shortest run that is sent as consecutive colours.
pub const MIN_VARYING_RUN: usize = 3;

/// The colours last sent, by position in the frame.
#[derive(Debug)]
pub struct PkFrameCache {
    pub last: Vec<Option<RgbColor>>,
}

impl Default for PkFrameCache {
    /// Nothing has been sent.
    fn default() -> (r: Self)
        ensures
            r.last@.len() == 0,
    {
        PkFrameCache { last: Vec::new() }
    }
}

/// A key of a frame: its id, its colour, and whether the colour is new.
#[derive(Debug, Clone, Copy, PartialEq, Eq, Structural)]
pub struct KeyState {
    pub id: u8,
    pub color: RgbColor,
    pub changed: bool,
}

/// Keys from `first` to `last` in one colour.
#[derive(Debug, Clone, Copy, PartialEq, Eq, Structural)]
pub struct PkRange {
    pub first: u8,
    pub last: u8,
    pub color: RgbColor,
}

/// Packets as byte sequences.
pub open spec fn views(packets: Seq<Vec<u8>>) -> Seq<Seq<u8>> {
    Seq::new(packets.len(), |i: int| packets[i]@)
}

/// The colours that count as sent: none where the number of keys has changed.
pub open spec fn remembered(last: Seq<Option<RgbColor>>, n: nat) -> Seq<Option<RgbColor>> {
    if last.len() == n {
        last
    } else {
        Seq::new(n, |i: int| None)
    }
}

/// The keys of a frame, compared with what was sent.
pub open spec fn key_states(keys: Seq<(u8, RgbColor)>, last: Seq<Option<RgbColor>>) -> Seq<
    KeyState,
> {
    Seq::new(
        keys.len(),
        |i: int|
            KeyState { id: keys[i].0, color: keys[i].1, changed: last[i] != Some(keys[i].1) },
    )
}

/// Whether a key between two positions has a new colour.
pub open spec fn dirty(s: Seq<KeyState>, from: int, to: int) -> bool {
    exists|i: int| from <= i < to && #[trigger] s[i].changed
}

/// `k` put behind the last key whose id is no greater.
pub open spec fn insert_by_id(s: Seq<KeyState>, k: KeyState) -> Seq<KeyState>
    decreases s.len(),
{
    if s.len() == 0 || s.last().id <= k.id {
        s.push(k)
    } else {
        insert_by_id(s.drop_last(), k).push(s.last())
    }
}

/// The keys ordered by id, those with one id in their given order.
pub open spec fn sort_by_id(s: Seq<KeyState>) -> Seq<KeyState>
    decreases s.len(),
{
    if s.len() == 0 {
        s
    } else {
        insert_by_id(sort_by_id(s.drop_last()), s.last())
    }
}

/// How far the colour of `a` goes on without a break from `b`.
pub open spec fn same_until(s: Seq<KeyState>, a: int, b: int) -> int
    decreases s.len() - b,
{
    if b < s.len() && s[b].color == s[a].color {
        same_until(s, a, b + 1)
    } else {
        b
    }
}

/// The end of the span of one colour that starts at `a`.
pub open spec fn span_end(s: Seq<KeyState>, a: int) -> int {
    same_until(s, a, a + 1)
}

/// Whether a span of a single key with a new colour starts at `j`.
pub open spec fn lone_change(s: Seq<KeyState>, j: int) -> bool {
    j < s.len() && span_end(s, j) == j + 1 && s[j].changed
}

/// The id behind an id.
pub open spec fn next_id(id: u8) -> u8 {
    if id == 255 {
        255
    } else {
        (id + 1) as u8
    }
}

/// How far the run of lone changes with consecutive ids that starts at `a` goes on from `j`.
pub open spec fn run_until(s: Seq<KeyState>, a: int, j: int) -> int
    decreases s.len() - j,
{
    if lone_change(s, j) && (j == a || s[j].id == next_id(s[j - 1].id)) {
        run_until(s, a, j + 1)
    } else {
        j
    }
}

/// The end of the run that starts at `a`.
pub open spec fn run_end(s: Seq<KeyState>, a: int) -> int {
    run_until(s, a, a)
}

/// Where the part of the frame that starts at `a` ends: a span, or a run of lone changes.
pub open spec fn part_end(s: Seq<KeyState>, a: int) -> int {
    if lone_change(s, a) {
        run_end(s, a)
    } else {
        span_end(s, a)
    }
}

/// The ranges that the part at `a` is sent as: a span with a new colour in it is one, and so
/// is each key of a short run.
pub open spec fn part_ranges(s: Seq<KeyState>, a: int) -> Seq<PkRange> {
    let b = span_end(s, a);
    if !dirty(s, a, b) {
        Seq::empty()
    } else if b - a > 1 {
        seq![PkRange { first: s[a].id, last: s[b - 1].id, color: s[a].color }]
    } else if run_end(s, a) - a < MIN_VARYING_RUN {
        Seq::new(
            (run_end(s, a) - a) as nat,
            |i: int| PkRange { first: s[a + i].id, last: s[a + i].id, color: s[a + i].color },
        )
    } else {
        Seq::empty()
    }
}

/// What one packet asks for.
pub ghost enum PkWrite {
    /// Consecutive keys from an id on.
    Consecutive { first: u8, colors: Seq<RgbColor> },
    /// Ranges, one after the other.
    Ranges(Seq<PkRange>),
}

/// The packets for the keys at positions `from` to `to`, which have consecutive ids.
pub open spec fn run_writes(s: Seq<KeyState>, from: int, to: int) -> Seq<PkWrite>
    decreases to - from,
{
    if from >= to {
        Seq::empty()
    } else {
        let end = if to - from < KEYS_PER_CONSECUTIVE {
            to
        } else {
            from + KEYS_PER_CONSECUTIVE
        };
        seq![
            PkWrite::Consecutive {
                first: s[from].id,
                colors: Seq::new((end - from) as nat, |i: int| s[from + i].color),
            },
        ] + run_writes(s, end, to)
    }
}

/// The packets of consecutive colours that the part at `a` is sent as.
pub open spec fn part_writes(s: Seq<KeyState>, a: int) -> Seq<PkWrite> {
    if lone_change(s, a) && run_end(s, a) - a >= MIN_VARYING_RUN {
        run_writes(s, a, run_end(s, a))
    } else {
        Seq::empty()
    }
}

/// A span is not empty.
proof fn lemma_same_until(s: Seq<KeyState>, a: int, b: int)
    requires
        0 <= a < b <= s.len(),
        forall|i: int| a <= i < b ==> s[i].color == s[a].color,
    ensures
        b <= same_until(s, a, b) <= s.len(),
        forall|i: int| a <= i < same_until(s, a, b) ==> s[i].color == s[a].color,
        same_until(s, a, b) < s.len() ==> s[same_until(s, a, b)].color != s[a].color,
    decreases s.len() - b,
{
    if b < s.len() && s[b].color == s[a].color {
        lemma_same_until(s, a, b + 1);
    }
}

/// A span is a stretch of one colour, as long as it can be.
proof fn lemma_span(s: Seq<KeyState>, a: int)
    requires
        0 <= a < s.len(),
    ensures
        a < span_end(s, a) <= s.len(),
        forall|i: int| a <= i < span_end(s, a) ==> s[i].color == s[a].color,
        span_end(s, a) < s.len() ==> s[span_end(s, a)].color != s[a].color,
{
    lemma_same_until(s, a, a + 1);
}

/// A run consists of lone changes with consecutive ids.
proof fn lemma_run_until(s: Seq<KeyState>, a: int, j: int)
    requires
        0 <= a <= j <= s.len(),
        forall|i: int| a <= i < j ==> #[trigger] lone_change(s, i),
        forall|i: int| a < i < j ==> s[i].id == next_id(#[trigger] s[i - 1].id),
    ensures
        j <= run_until(s, a, j) <= s.len(),
        forall|i: int| a <= i < run_until(s, a, j) ==> #[trigger] lone_change(s, i),
        forall|i: int| a < i < run_until(s, a, j) ==> s[i].id == next_id(#[trigger] s[i - 1].id),
    decreases s.len() - j,
{
    if lone_change(s, j) && (j == a || s[j].id == next_id(s[j - 1].id)) {
        lemma_run_until(s, a, j + 1);
    }
}

/// A run consists of lone changes with consecutive ids, and a lone change starts one.
proof fn lemma_run(s: Seq<KeyState>, a: int)
    requires
        0 <= a < s.len(),
    ensures
        a <= run_end(s, a) <= s.len(),
        lone_change(s, a) ==> a < run_end(s, a),
        forall|i: int| a <= i < run_end(s, a) ==> #[trigger] lone_change(s, i),
        forall|i: int| a < i < run_end(s, a) ==> s[i].id == next_id(#[trigger] s[i - 1].id),
{
    if lone_change(s, a) {
        lemma_run_until(s, a, a + 1);
    }
}

/// A part is not empty.
proof fn lemma_part(s: Seq<KeyState>, a: int)
    requires
        0 <= a < s.len(),
    ensures
        a < part_end(s, a) <= s.len(),
{
    lemma_span(s, a);
    lemma_run(s, a);
}

/// The ranges of the parts from `a` on.
pub open spec fn ranges_from(s: Seq<KeyState>, a: int) -> Seq<PkRange>
    decreases s.len() - a,
    via ranges_from_decreases
{
    if a < 0 || a >= s.len() {
        Seq::empty()
    } else {
        part_ranges(s, a) + ranges_from(s, part_end(s, a))
    }
}

#[via_fn]
proof fn ranges_from_decreases(s: Seq<KeyState>, a: int) {
    if 0 <= a < s.len() {
        lemma_part(s, a);
    }
}

/// The packets of consecutive colours of the parts from `a` on.
pub open spec fn writes_from(s: Seq<KeyState>, a: int) -> Seq<PkWrite>
    decreases s.len() - a,
    via writes_from_decreases
{
    if a < 0 || a >= s.len() {
        Seq::empty()
    } else {
        part_writes(s, a) + writes_from(s, part_end(s, a))
    }
}

#[via_fn]
proof fn writes_from_decreases(s: Seq<KeyState>, a: int) {
    if 0 <= a < s.len() {
        lemma_part(s, a);
    }
}

/// Ranges as packets.
pub open spec fn range_writes(ranges: Seq<PkRange>) -> Seq<PkWrite>
    decreases ranges.len(),
{
    if ranges.len() == 0 {
        Seq::empty()
    } else if ranges.len() <= RANGES_PER_PACKET {
        seq![PkWrite::Ranges(ranges)]
    } else {
        seq![PkWrite::Ranges(ranges.take(RANGES_PER_PACKET as int))] + range_writes(
            ranges.skip(RANGES_PER_PACKET as int),
        )
    }
}

/// What the packets of a frame ask for, up to its end mark.
pub open spec fn frame_plan(s: Seq<KeyState>) -> Seq<PkWrite> {
    writes_from(s, 0) + range_writes(ranges_from(s, 0))
}

/// Colour byte `i` of a colour.
pub open spec fn channel(c: RgbColor, i: int) -> u8 {
    if i == 0 {
        c.r
    } else if i == 1 {
        c.g
    } else {
        c.b
    }
}

/// The parameters of a packet of ranges.
pub open spec fn range_params(ranges: Seq<PkRange>) -> Seq<u8> {
    Seq::new(
        ranges.len() * 5,
        |i: int|
            if i % 5 == 0 {
                ranges[i / 5].first
            } else if i % 5 == 1 {
                ranges[i / 5].last
            } else {
                channel(ranges[i / 5].color, i % 5 - 2)
            },
    )
}

/// The parameters of a packet of consecutive colours.
pub open spec fn consecutive_params(first: u8, colors: Seq<RgbColor>) -> Seq<u8> {
    Seq::new(
        1 + colors.len() * 3,
        |i: int|
            if i == 0 {
                first
            } else {
                channel(colors[(i - 1) / 3], (i - 1) % 3)
            },
    )
}

/// The packet that asks for something.
pub open spec fn pk_packet(w: PkWrite, devnum: u8, pk_idx: u8) -> Seq<u8> {
    match w {
        PkWrite::Consecutive { first, colors } => packet(
            devnum,
            pk_idx,
            0x21,
            consecutive_params(first, colors),
            true,
        ),
        PkWrite::Ranges(ranges) => packet(devnum, pk_idx, 0x51, range_params(ranges), true),
    }
}

/// The packets that ask for several things.
pub open spec fn pk_packets(plan: Seq<PkWrite>, devnum: u8, pk_idx: u8) -> Seq<Seq<u8>> {
    Seq::new(plan.len(), |i: int| pk_packet(plan[i], devnum, pk_idx))
}

/// The packet that shows what was set.
pub open spec fn commit_packet(devnum: u8, pk_idx: u8) -> Seq<u8> {
    packet(devnum, pk_idx, 0x71, seq![0u8], true)
}

/// The packets of a frame: none where nothing changed.
pub open spec fn frame_packets(
    keys: Seq<(u8, RgbColor)>,
    last: Seq<Option<RgbColor>>,
    devnum: u8,
    pk_idx: u8,
) -> Seq<Seq<u8>> {
    let states = key_states(keys, remembered(last, keys.len()));
    if dirty(states, 0, states.len() as int) {
        pk_packets(frame_plan(sort_by_id(states)), devnum, pk_idx).push(
            commit_packet(devnum, pk_idx),
        )
    } else {
        Seq::empty()
    }
}

/// The colours that count as sent after a frame.
pub open spec fn sent(keys: Seq<(u8, RgbColor)>) -> Seq<Option<RgbColor>> {
    Seq::new(keys.len(), |i: int| Some(keys[i].1))
}

/// Insertion at the place the order asks for.
proof fn lemma_insert_by_id(s: Seq<KeyState>, k: KeyState, pos: int)
    requires
        0 <= pos <= s.len(),
        forall|j: int| pos <= j < s.len() ==> #[trigger] s[j].id > k.id,
        pos > 0 ==> s[pos - 1].id <= k.id,
    ensures
        insert_by_id(s, k) == s.insert(pos, k),
    decreases s.len(),
{
    if pos == s.len() {
        assert(s.insert(pos, k) =~= s.push(k));
    } else {
        assert(s.last().id > k.id);
        lemma_insert_by_id(s.drop_last(), k, pos);
        assert(s.insert(pos, k) =~= s.drop_last().insert(pos, k).push(s.last()));
    }
}

/// Orders keys by id.
fn sorted_states(states: &[KeyState]) -> (r: Vec<KeyState>)
    ensures
        r@ == sort_by_id(states@),
{
    let n: usize = states.len();
    let mut out: Vec<KeyState> = Vec::new();
    let mut i: usize = 0;
    while i < n
        invariant
            i <= n,
            n == states@.len(),
            out@.len() == i,
            out@ == sort_by_id(states@.take(i as int)),
        decreases n - i,
    {
        let k: KeyState = states[i];
        let mut pos: usize = out.len();
        while pos > 0 && out[pos - 1].id > k.id
            invariant
                pos <= out@.len(),
                forall|j: int| pos <= j < out@.len() ==> #[trigger] out@[j].id > k.id,
            decreases pos,
        {
            pos = pos - 1;
        }
        proof {
            lemma_insert_by_id(out@, k, pos as int);
            assert(states@.take(i + 1).drop_last() =~= states@.take(i as int));
        }
        out.insert(pos, k);
        i = i + 1;
    }
    proof {
        assert(states@.take(n as int) =~= states@);
    }
    out
}

/// Finds the end of a span.
fn find_span_end(s: &[KeyState], a: usize) -> (r: usize)
    requires
        a < s@.len(),
    ensures
        r == span_end(s@, a as int),
        a < r <= s@.len(),
{
    let n: usize = s.len();
    let mut b: usize = a + 1;
    while b < n && s[b].color == s[a].color
        invariant
            a < b <= n,
            n == s@.len(),
            same_until(s@, a as int, b as int) == span_end(s@, a as int),
        decreases n - b,
    {
        b = b + 1;
    }
    b
}

/// Whether a key between two positions has a new colour.
fn any_changed(s: &[KeyState], from: usize, to: usize) -> (r: bool)
    requires
        from <= to <= s@.len(),
    ensures
        r == dirty(s@, from as int, to as int),
{
    let mut i: usize = from;
    while i < to
        invariant
            from <= i <= to <= s@.len(),
            forall|k: int| from <= k < i ==> !#[trigger] s@[k].changed,
        decreases to - i,
    {
        if s[i].changed {
            return true;
        }
        i = i + 1;
    }
    false
}

/// Whether a span of a single key with a new colour starts at `j`.
fn is_lone_change(s: &[KeyState], j: usize) -> (r: bool)
    ensures
        r == lone_change(s@, j as int),
{
    if j >= s.len() {
        return false;
    }
    find_span_end(s, j) == j + 1 && s[j].changed
}

/// Finds the end of a run.
fn find_run_end(s: &[KeyState], a: usize) -> (r: usize)
    requires
        a < s@.len(),
    ensures
        r == run_end(s@, a as int),
        a <= r <= s@.len(),
{
    let n: usize = s.len();
    let mut j: usize = a;
    loop
        invariant
            a <= j <= n,
            n == s@.len(),
            run_until(s@, a as int, j as int) == run_end(s@, a as int),
        ensures
            a <= j <= n,
            j == run_end(s@, a as int),
        decreases n - j,
    {
        let lone = is_lone_change(s, j);
        if !lone {
            break;
        }
        let follows = if j == a {
            true
        } else {
            let before: u8 = s[j - 1].id;
            let next: u8 = if before == 255 {
                255
            } else {
                before + 1
            };
            s[j].id == next
        };
        if !follows {
            break;
        }
        j = j + 1;
    }
    j
}

/// Appends the packets for the keys at positions `from` to `to`.
fn encode_varying_run(
    s: &[KeyState],
    from: usize,
    to: usize,
    devnum: u8,
    pk_idx: u8,
    packets: &mut Vec<Vec<u8>>,
)
    requires
        from <= to <= s@.len(),
    ensures
        views(final(packets)@) == views(old(packets)@) + pk_packets(
            run_writes(s@, from as int, to as int),
            devnum,
            pk_idx,
        ),
{
    let ghost start = views(packets@);
    let ghost all = pk_packets(run_writes(s@, from as int, to as int), devnum, pk_idx);
    let mut at: usize = from;
    proof {
        assert(start + all =~= views(packets@) + all);
    }
    while at < to
        invariant
            from <= at <= to <= s@.len(),
            views(packets@) + pk_packets(run_writes(s@, at as int, to as int), devnum, pk_idx)
                == start + all,
        decreases to - at,
    {
        let end: usize = if to - at < KEYS_PER_CONSECUTIVE {
            to
        } else {
            at + KEYS_PER_CONSECUTIVE
        };
        let ghost colors = Seq::new((end - at) as nat, |i: int| s@[at + i].color);
        let mut params: Vec<u8> = Vec::new();
        params.push(s[at].id);
        let mut i: usize = at;
        proof {
            assert(params@ =~= consecutive_params(s@[at as int].id, colors.take(0)));
        }
        while i < end
            invariant
                at <= i <= end <= s@.len(),
                colors == Seq::new((end - at) as nat, |i: int| s@[at + i].color),
                params@ == consecutive_params(s@[at as int].id, colors.take(i - at)),
            decreases end - i,
        {
            let c: RgbColor = s[i].color;
            params.push(c.r);
            params.push(c.g);
            params.push(c.b);
            proof {
                assert(params@ =~= consecutive_params(
                    s@[at as int].id,
                    colors.take(i + 1 - at),
                ));
            }
            i = i + 1;
        }
        proof {
            assert(colors.take(end - at) =~= colors);
        }
        let ghost before = views(packets@);
        let pkt: Vec<u8> = build_packet(devnum, pk_idx, 0x21, params.as_slice(), true);
        let ghost w = PkWrite::Consecutive { first: s@[at as int].id, colors };
        packets.push(pkt);
        proof {
            let rest = run_writes(s@, end as int, to as int);
            assert(run_writes(s@, at as int, to as int) == seq![w] + rest);
            assert(views(packets@) =~= before.push(pkt@));
            assert(pk_packets(seq![w] + rest, devnum, pk_idx) =~= seq![
                pk_packet(w, devnum, pk_idx),
            ] + pk_packets(rest, devnum, pk_idx));
            assert(views(packets@) + pk_packets(rest, devnum, pk_idx) =~= before + (seq![
                pk_packet(w, devnum, pk_idx),
            ] + pk_packets(rest, devnum, pk_idx)));
        }
        at = end;
    }
    proof {
        assert(views(packets@) + pk_packets(
            run_writes(s@, at as int, to as int),
            devnum,
            pk_idx,
        ) =~= views(packets@));
    }
}

/// Appends the packets for ranges.
fn encode_ranges(ranges: &[PkRange], devnum: u8, pk_idx: u8, packets: &mut Vec<Vec<u8>>)
    ensures
        views(final(packets)@) == views(old(packets)@) + pk_packets(
            range_writes(ranges@),
            devnum,
            pk_idx,
        ),
{
    let n: usize = ranges.len();
    let ghost start = views(packets@);
    let ghost all = pk_packets(range_writes(ranges@), devnum, pk_idx);
    let mut at: usize = 0;
    proof {
        assert(ranges@.skip(0) =~= ranges@);
    }
    while at < n
        invariant
            at <= n,
            n == ranges@.len(),
            views(packets@) + pk_packets(range_writes(ranges@.skip(at as int)), devnum, pk_idx)
                == start + all,
        decreases n - at,
    {
        let end: usize = if n - at <= RANGES_PER_PACKET {
            n
        } else {
            at + RANGES_PER_PACKET
        };
        let ghost chunk = ranges@.subrange(at as int, end as int);
        let mut params: Vec<u8> = Vec::new();
        let mut i: usize = at;
        proof {
            assert(params@ =~= range_params(chunk.take(0)));
        }
        while i < end
            invariant
                at <= i <= end <= ranges@.len(),
                chunk == ranges@.subrange(at as int, end as int),
                params@ == range_params(chunk.take(i - at)),
            decreases end - i,
        {
            let e: PkRange = ranges[i];
            params.push(e.first);
            params.push(e.last);
            params.push(e.color.r);
            params.push(e.color.g);
            params.push(e.color.b);
            proof {
                assert(params@ =~= range_params(chunk.take(i + 1 - at)));
            }
            i = i + 1;
        }
        proof {
            assert(chunk.take(end - at) =~= chunk);
        }
        let ghost before = views(packets@);
        let pkt: Vec<u8> = build_packet(devnum, pk_idx, 0x51, params.as_slice(), true);
        let ghost w = PkWrite::Ranges(chunk);
        packets.push(pkt);
        proof {
            let here = ranges@.skip(at as int);
            let rest = range_writes(ranges@.skip(end as int));
            if n - at <= RANGES_PER_PACKET {
                assert(chunk =~= here);
                assert(ranges@.skip(end as int) =~= Seq::<PkRange>::empty());
            } else {
                assert(chunk =~= here.take(RANGES_PER_PACKET as int));
                assert(here.skip(RANGES_PER_PACKET as int) =~= ranges@.skip(end as int));
            }
            assert(range_writes(here) =~= seq![w] + rest);
            assert(views(packets@) =~= before.push(pkt@));
            assert(pk_packets(seq![w] + rest, devnum, pk_idx) =~= seq![
                pk_packet(w, devnum, pk_idx),
            ] + pk_packets(rest, devnum, pk_idx));
            assert(views(packets@) + pk_packets(rest, devnum, pk_idx) =~= before + (seq![
                pk_packet(w, devnum, pk_idx),
            ] + pk_packets(rest, devnum, pk_idx)));
        }
        at = end;
    }
    proof {
        assert(ranges@.skip(at as int) =~= Seq::<PkRange>::empty());
        assert(views(packets@) + pk_packets(
            range_writes(ranges@.skip(at as int)),
            devnum,
            pk_idx,
        ) =~= views(packets@));
    }
}

/// The packet that shows what was set.
pub fn encode_commit(devnum: u8, pk_idx: u8) -> (r: Vec<u8>)
    ensures
        r@ == commit_packet(devnum, pk_idx),
{
    let params: [u8; 1] = [0x00];
    proof {
        assert(params@ =~= seq![0u8]);
    }
    build_packet(devnum, pk_idx, 0x71, &params, true)
}

/// Encodes a frame: keys by id with their colours, in the order of the zone. Without a
/// change there is nothing to send.
pub fn encode_frame(keys: &[(u8, RgbColor)], cache: &mut PkFrameCache, devnum: u8, pk_idx: u8) -> (r:
    Vec<Vec<u8>>)
    ensures
        views(r@) == frame_packets(keys@, old(cache).last@, devnum, pk_idx),
        final(cache).last@ == sent(keys@),
{
    let n: usize = keys.len();
    let ghost last = remembered(cache.last@, keys@.len());
    let fresh = cache.last.len() != n;
    let mut states: Vec<KeyState> = Vec::new();
    let mut now: Vec<Option<RgbColor>> = Vec::new();
    let mut i: usize = 0;
    while i < n
        invariant
            i <= n,
            n == keys@.len(),
            fresh == (cache.last@.len() != n),
            last == remembered(cache.last@, keys@.len()),
            states@ =~= key_states(keys@, last).take(i as int),
            now@ =~= sent(keys@).take(i as int),
        decreases n - i,
    {
        let id: u8 = keys[i].0;
        let color: RgbColor = keys[i].1;
        let changed = if fresh {
            true
        } else {
            match cache.last[i] {
                Some(c) => c != color,
                None => true,
            }
        };
        states.push(KeyState { id, color, changed });
        now.push(Some(color));
        i = i + 1;
    }
    proof {
        assert(states@ =~= key_states(keys@, last));
        assert(now@ =~= sent(keys@));
    }
    cache.last = now;
    if !any_changed(states.as_slice(), 0, n) {
        proof {
            assert(views(Seq::<Vec<u8>>::empty()) =~= Seq::<Seq<u8>>::empty());
        }
        return Vec::new();
    }
    let sorted: Vec<KeyState> = sorted_states(states.as_slice());
    let s = sorted.as_slice();
    let len: usize = s.len();
    let mut packets: Vec<Vec<u8>> = Vec::new();
    let mut ranges: Vec<PkRange> = Vec::new();
    let mut a: usize = 0;
    proof {
        assert(ranges@ + ranges_from(s@, 0) =~= ranges_from(s@, 0));
        assert(views(packets@) + pk_packets(writes_from(s@, 0), devnum, pk_idx) =~= pk_packets(
            writes_from(s@, 0),
            devnum,
            pk_idx,
        ));
    }
    while a < len
        invariant
            a <= len,
            len == s@.len(),
            ranges@ + ranges_from(s@, a as int) == ranges_from(s@, 0),
            views(packets@) + pk_packets(writes_from(s@, a as int), devnum, pk_idx)
                == pk_packets(writes_from(s@, 0), devnum, pk_idx),
        decreases len - a,
    {
        let ghost ranges_before = ranges@;
        let ghost packets_before = views(packets@);
        let b: usize = find_span_end(s, a);
        let is_dirty = any_changed(s, a, b);
        let end: usize;
        proof {
            lemma_part(s@, a as int);
            lemma_run(s@, a as int);
            if b == a + 1 {
                assert(is_dirty == s@[a as int].changed) by {
                    if is_dirty {
                        let i = choose|i: int| a <= i < b && #[trigger] s@[i].changed;
                        assert(i == a);
                    }
                }
            }
            assert(lone_change(s@, a as int) == (b == a + 1 && is_dirty));
        }
        if !is_dirty {
            end = b;
        } else if b - a > 1 {
            let color: RgbColor = s[a].color;
            ranges.push(PkRange { first: s[a].id, last: s[b - 1].id, color });
            end = b;
        } else {
            end = find_run_end(s, a);
            if end - a >= MIN_VARYING_RUN {
                encode_varying_run(s, a, end, devnum, pk_idx, &mut packets);
            } else {
                let mut j: usize = a;
                while j < end
                    invariant
                        a <= j <= end <= s@.len(),
                        ranges@ =~= ranges_before + Seq::new(
                            (j - a) as nat,
                            |i: int|
                                PkRange {
                                    first: s@[a + i].id,
                                    last: s@[a + i].id,
                                    color: s@[a + i].color,
                                },
                        ),
                    decreases end - j,
                {
                    ranges.push(PkRange { first: s[j].id, last: s[j].id, color: s[j].color });
                    j = j + 1;
                }
            }
        }
        proof {
            assert(end == part_end(s@, a as int));
            assert(ranges@ =~= ranges_before + part_ranges(s@, a as int));
            assert(views(packets@) =~= packets_before + pk_packets(
                part_writes(s@, a as int),
                devnum,
                pk_idx,
            ));
            let rest = writes_from(s@, end as int);
            assert(pk_packets(part_writes(s@, a as int) + rest, devnum, pk_idx) =~= pk_packets(
                part_writes(s@, a as int),
                devnum,
                pk_idx,
            ) + pk_packets(rest, devnum, pk_idx));
            assert(views(packets@) + pk_packets(rest, devnum, pk_idx) =~= packets_before + (
            pk_packets(part_writes(s@, a as int), devnum, pk_idx) + pk_packets(
                rest,
                devnum,
                pk_idx,
            )));
            assert(ranges@ + ranges_from(s@, end as int) =~= ranges_before + (part_ranges(
                s@,
                a as int,
            ) + ranges_from(s@, end as int)));
        }
        a = end;
    }
    proof {
        assert(ranges@ + ranges_from(s@, a as int) =~= ranges@);
        assert(views(packets@) + pk_packets(writes_from(s@, a as int), devnum, pk_idx) =~= views(
            packets@,
        ));
    }
    encode_ranges(ranges.as_slice(), devnum, pk_idx, &mut packets);
    let ghost body = views(packets@);
    let end_mark: Vec<u8> = encode_commit(devnum, pk_idx);
    packets.push(end_mark);
    proof {
        assert(views(packets@) =~= body.push(end_mark@));
        assert(pk_packets(frame_plan(s@), devnum, pk_idx) =~= pk_packets(
            writes_from(s@, 0),
            devnum,
            pk_idx,
        ) + pk_packets(range_writes(ranges_from(s@, 0)), devnum, pk_idx));
    }
    packets
}

/// Byte `i` of a key and its colour.
pub open spec fn pair_byte(pair: (u8, u8, u8, u8), i: int) -> u8 {
    if i == 0 {
        pair.0
    } else if i == 1 {
        pair.1
    } else if i == 2 {
        pair.2
    } else {
        pair.3
    }
}

/// The parameters of a packet that sets up to four keys; the last one fills the packet.
pub open spec fn individual_params(pairs: Seq<(u8, u8, u8, u8)>) -> Seq<u8> {
    Seq::new(
        16,
        |i: int|
            pair_byte(
                if i / 4 < pairs.len() {
                    pairs[i / 4]
                } else {
                    pairs.last()
                },
                i % 4,
            ),
    )
}

/// The packets that set keys, four in each.
pub open spec fn individual_packets(
    pairs: Seq<(u8, u8, u8, u8)>,
    devnum: u8,
    pk_idx: u8,
) -> Seq<Seq<u8>>
    decreases pairs.len(),
{
    if pairs.len() == 0 {
        Seq::empty()
    } else {
        let n: int = if pairs.len() < 4 {
            pairs.len() as int
        } else {
            4
        };
        seq![packet(devnum, pk_idx, 0x11, individual_params(pairs.take(n)), true)]
            + individual_packets(pairs.skip(n), devnum, pk_idx)
    }
}

/// Encodes keys with their colours, four in a packet, with the end mark; nothing for no
/// keys.
pub fn encode_individual_pairs(pairs: &[(u8, u8, u8, u8)], devnum: u8, pk_idx: u8) -> (r: Vec<
    Vec<u8>,
>)
    ensures
        views(r@) == if pairs@.len() == 0 {
            Seq::empty()
        } else {
            individual_packets(pairs@, devnum, pk_idx).push(commit_packet(devnum, pk_idx))
        },
{
    let n: usize = pairs.len();
    let mut packets: Vec<Vec<u8>> = Vec::new();
    if n == 0 {
        proof {
            assert(views(packets@) =~= Seq::<Seq<u8>>::empty());
        }
        return packets;
    }
    let ghost all = individual_packets(pairs@, devnum, pk_idx);
    let mut at: usize = 0;
    proof {
        assert(pairs@.skip(0) =~= pairs@);
        assert(views(packets@) + all =~= all);
    }
    while at < n
        invariant
            at <= n,
            n == pairs@.len(),
            views(packets@) + individual_packets(pairs@.skip(at as int), devnum, pk_idx) == all,
        decreases n - at,
    {
        let count: usize = if n - at < 4 {
            n - at
        } else {
            4
        };
        let ghost chunk = pairs@.skip(at as int).take(count as int);
        let mut params: Vec<u8> = Vec::new();
        let mut i: usize = 0;
        while i < 4
            invariant
                i <= 4,
                at < n,
                n == pairs@.len(),
                1 <= count <= 4,
                at + count <= n,
                chunk == pairs@.skip(at as int).take(count as int),
                params@ =~= individual_params(chunk).take(4 * i as int),
            decreases 4 - i,
        {
            let pair: (u8, u8, u8, u8) = if i < count {
                pairs[at + i]
            } else {
                pairs[at + count - 1]
            };
            params.push(pair.0);
            params.push(pair.1);
            params.push(pair.2);
            params.push(pair.3);
            i = i + 1;
        }
        proof {
            assert(params@ =~= individual_params(chunk));
        }
        let ghost before = views(packets@);
        let pkt: Vec<u8> = build_packet(devnum, pk_idx, 0x11, params.as_slice(), true);
        packets.push(pkt);
        proof {
            let rest = individual_packets(pairs@.skip(at + count), devnum, pk_idx);
            assert(pairs@.skip(at as int).skip(count as int) =~= pairs@.skip(at + count));
            assert(views(packets@) =~= before.push(pkt@));
            assert(views(packets@) + rest =~= before + (seq![pkt@] + rest));
        }
        at = at + count;
    }
    let ghost body = views(packets@);
    proof {
        assert(pairs@.skip(at as int).len() == 0);
        assert(body + individual_packets(pairs@.skip(at as int), devnum, pk_idx) =~= body);
    }
    let end_mark: Vec<u8> = encode_commit(devnum, pk_idx);
    packets.push(end_mark);
    proof {
        assert(views(packets@) =~= body.push(end_mark@));
    }
    packets
}

/// The parameters of a packet that sets up to four keys; unused places stay zero.
pub open spec fn batch_params(batch: Seq<(u8, u8, u8, u8)>) -> Seq<u8> {
    Seq::new(
        16,
        |i: int|
            if i / 4 < batch.len() {
                pair_byte(batch[i / 4], i % 4)
            } else {
                0
            },
    )
}

/// Encodes up to four keys with their colours in one packet.
pub fn encode_per_key_batch(batch: &[(u8, u8, u8, u8)], devnum: u8, pk_idx: u8) -> (r: Vec<u8>)
    ensures
        r@ == packet(devnum, pk_idx, 0x11, batch_params(batch@), true),
{
    let mut params: Vec<u8> = Vec::new();
    let mut i: usize = 0;
    while i < 4
        invariant
            i <= 4,
            params@ =~= batch_params(batch@).take(4 * i as int),
        decreases 4 - i,
    {
        let pair: (u8, u8, u8, u8) = if i < batch.len() {
            batch[i]
        } else {
            (0, 0, 0, 0)
        };
        params.push(pair.0);
        params.push(pair.1);
        params.push(pair.2);
        params.push(pair.3);
        i = i + 1;
    }
    proof {
        assert(params@ =~= batch_params(batch@));
    }
    build_packet(devnum, pk_idx, 0x11, params.as_slice(), true)
}

/// The packet that shows what was set.
pub fn encode_per_key_commit(devnum: u8, pk_idx: u8) -> (r: Vec<u8>)
    ensures
        r@ == commit_packet(devnum, pk_idx),
{
    encode_commit(devnum, pk_idx)
}

/// The parameters that set all keys to one colour.
pub open spec fn all_keys_params(color: RgbColor) -> Seq<u8> {
    seq![0x00u8, 0xFFu8, color.r, color.g, color.b]
}

/// Encodes one colour for all keys.
pub fn encode_per_key_set_range(color: RgbColor) -> (r: [u8; 5])
    ensures
        r@ == all_keys_params(color),
{
    let r: [u8; 5] = [0x00, 0xFF, color.r, color.g, color.b];
    proof {
        assert(r@ =~= all_keys_params(color));
    }
    r
}

/// A packet that is not full repeats its last key, so that no key is set that was not asked
/// for.
pub proof fn padding_repeats_the_last_key(pairs: Seq<(u8, u8, u8, u8)>, j: int)
    requires
        0 < pairs.len() <= 4,
        0 <= j < 4,
    ensures
        ({
            let p = individual_params(pairs);
            let entry = (p[4 * j], p[4 * j + 1], p[4 * j + 2], p[4 * j + 3]);
            &&& pairs.contains(entry)
            &&& j < pairs.len() ==> entry == pairs[j]
        }),
{
    let p = individual_params(pairs);
    let entry = (p[4 * j], p[4 * j + 1], p[4 * j + 2], p[4 * j + 3]);
    let k = if j < pairs.len() {
        j
    } else {
        pairs.len() - 1
    };
    assert(entry == pairs[k]);
}

/// Whether a range covers a key.
pub open spec fn range_covers(r: PkRange, id: u8) -> bool {
    r.first <= id <= r.last
}

/// The colour of a key after ranges were set one after the other.
pub open spec fn painted_ranges(ranges: Seq<PkRange>, id: u8, before: RgbColor) -> RgbColor
    decreases ranges.len(),
{
    if ranges.len() == 0 {
        before
    } else if range_covers(ranges.last(), id) {
        ranges.last().color
    } else {
        painted_ranges(ranges.drop_last(), id, before)
    }
}

/// The colour of a key after what one packet asks for; the rest of a packet that is not
/// full asks for nothing.
pub open spec fn painted(w: PkWrite, id: u8, before: RgbColor) -> RgbColor {
    match w {
        PkWrite::Consecutive { first, colors } => if first <= id < first + colors.len() {
            colors[id - first]
        } else {
            before
        },
        PkWrite::Ranges(ranges) => painted_ranges(ranges, id, before),
    }
}

/// The colour of a key after what several packets ask for.
pub open spec fn shown(plan: Seq<PkWrite>, id: u8, before: RgbColor) -> RgbColor
    decreases plan.len(),
{
    if plan.len() == 0 {
        before
    } else {
        painted(plan.last(), id, shown(plan.drop_last(), id, before))
    }
}

/// Whether the ids of keys increase.
pub open spec fn ids_increase(s: Seq<KeyState>) -> bool {
    forall|i: int, j: int| 0 <= i < j < s.len() ==> #[trigger] s[i].id < #[trigger] s[j].id
}

/// Whether a packet of consecutive colours covers a key.
spec fn write_covers(w: PkWrite, id: u8) -> bool {
    match w {
        PkWrite::Consecutive { first, colors } => first <= id < first + colors.len(),
        PkWrite::Ranges(_) => false,
    }
}

/// Whether a packet has as many consecutive colours as fit one, and gives key `q` its own
/// if it covers it.
spec fn write_fits(w: PkWrite, s: Seq<KeyState>, q: int) -> bool {
    match w {
        PkWrite::Consecutive { first, colors } => {
            &&& colors.len() <= KEYS_PER_CONSECUTIVE
            &&& first <= s[q].id < first + colors.len() ==> colors[s[q].id - first] == s[q].color
        },
        PkWrite::Ranges(_) => false,
    }
}

/// Whether a range gives key `q` its own colour if it covers it.
spec fn range_fits(r: PkRange, s: Seq<KeyState>, q: int) -> bool {
    range_covers(r, s[q].id) ==> r.color == s[q].color
}

/// Whether one of several ranges covers a key.
spec fn ranges_cover(ranges: Seq<PkRange>, id: u8) -> bool {
    exists|k: int| 0 <= k < ranges.len() && range_covers(#[trigger] ranges[k], id)
}

/// Whether one of several packets of consecutive colours covers a key.
spec fn writes_cover(plan: Seq<PkWrite>, id: u8) -> bool {
    exists|k: int| 0 <= k < plan.len() && write_covers(#[trigger] plan[k], id)
}

/// Setting ranges in two steps.
proof fn lemma_painted_append(a: Seq<PkRange>, b: Seq<PkRange>, id: u8, before: RgbColor)
    ensures
        painted_ranges(a + b, id, before) == painted_ranges(
            b,
            id,
            painted_ranges(a, id, before),
        ),
    decreases b.len(),
{
    if b.len() == 0 {
        assert(a + b =~= a);
    } else {
        assert((a + b).drop_last() =~= a + b.drop_last());
        lemma_painted_append(a, b.drop_last(), id, before);
    }
}

/// Showing packets in two steps.
proof fn lemma_shown_append(a: Seq<PkWrite>, b: Seq<PkWrite>, id: u8, before: RgbColor)
    ensures
        shown(a + b, id, before) == shown(b, id, shown(a, id, before)),
    decreases b.len(),
{
    if b.len() == 0 {
        assert(a + b =~= a);
    } else {
        assert((a + b).drop_last() =~= a + b.drop_last());
        lemma_shown_append(a, b.drop_last(), id, before);
    }
}

/// Dividing ranges into packets changes nothing.
proof fn lemma_shown_ranges(ranges: Seq<PkRange>, id: u8, before: RgbColor)
    ensures
        shown(range_writes(ranges), id, before) == painted_ranges(ranges, id, before),
    decreases ranges.len(),
{
    if ranges.len() > 0 {
        let n = if ranges.len() <= RANGES_PER_PACKET {
            ranges.len() as int
        } else {
            RANGES_PER_PACKET as int
        };
        let head = PkWrite::Ranges(ranges.take(n));
        let first = seq![head];
        assert(first.drop_last() =~= Seq::<PkWrite>::empty());
        assert(shown(first, id, before) == painted_ranges(ranges.take(n), id, before)) by {
            assert(shown(first.drop_last(), id, before) == before);
        }
        if ranges.len() <= RANGES_PER_PACKET {
            assert(ranges.take(n) =~= ranges);
            assert(range_writes(ranges) =~= first);
        } else {
            let rest = ranges.skip(n);
            lemma_shown_ranges(rest, id, painted_ranges(ranges.take(n), id, before));
            lemma_shown_append(first, range_writes(rest), id, before);
            lemma_painted_append(ranges.take(n), rest, id, before);
            assert(ranges.take(n) + rest =~= ranges);
        }
    }
}

/// Ranges that fit a key leave it in its colour, or as it was.
proof fn lemma_fitting_ranges(ranges: Seq<PkRange>, s: Seq<KeyState>, q: int, before: RgbColor)
    requires
        forall|k: int| 0 <= k < ranges.len() ==> range_fits(#[trigger] ranges[k], s, q),
    ensures
        painted_ranges(ranges, s[q].id, before) == if ranges_cover(ranges, s[q].id) {
            s[q].color
        } else {
            before
        },
    decreases ranges.len(),
{
    if ranges.len() > 0 {
        let head = ranges.drop_last();
        let n = ranges.len() - 1;
        assert forall|k: int| 0 <= k < head.len() implies range_fits(
            #[trigger] head[k],
            s,
            q,
        ) by {
            assert(head[k] == ranges[k]);
        }
        lemma_fitting_ranges(head, s, q, before);
        assert(range_fits(ranges[n], s, q));
        if range_covers(ranges[n], s[q].id) {
            assert(ranges_cover(ranges, s[q].id));
        } else {
            assert(ranges_cover(ranges, s[q].id) == ranges_cover(head, s[q].id)) by {
                if ranges_cover(head, s[q].id) {
                    let k = choose|k: int|
                        0 <= k < head.len() && range_covers(#[trigger] head[k], s[q].id);
                    assert(range_covers(ranges[k], s[q].id));
                }
                if ranges_cover(ranges, s[q].id) {
                    let k = choose|k: int|
                        0 <= k < ranges.len() && range_covers(#[trigger] ranges[k], s[q].id);
                    assert(range_covers(head[k], s[q].id));
                }
            }
        }
    }
}

/// Packets that fit a key leave it in its colour, or as it was.
proof fn lemma_fitting_writes(plan: Seq<PkWrite>, s: Seq<KeyState>, q: int, before: RgbColor)
    requires
        forall|k: int| 0 <= k < plan.len() ==> write_fits(#[trigger] plan[k], s, q),
    ensures
        shown(plan, s[q].id, before) == if writes_cover(plan, s[q].id) {
            s[q].color
        } else {
            before
        },
    decreases plan.len(),
{
    if plan.len() > 0 {
        let head = plan.drop_last();
        let n = plan.len() - 1;
        assert forall|k: int| 0 <= k < head.len() implies write_fits(
            #[trigger] head[k],
            s,
            q,
        ) by {
            assert(head[k] == plan[k]);
        }
        lemma_fitting_writes(head, s, q, before);
        assert(write_fits(plan[n], s, q));
        if write_covers(plan[n], s[q].id) {
            assert(writes_cover(plan, s[q].id));
        } else {
            assert(writes_cover(plan, s[q].id) == writes_cover(head, s[q].id)) by {
                if writes_cover(head, s[q].id) {
                    let k = choose|k: int|
                        0 <= k < head.len() && write_covers(#[trigger] head[k], s[q].id);
                    assert(write_covers(plan[k], s[q].id));
                }
                if writes_cover(plan, s[q].id) {
                    let k = choose|k: int|
                        0 <= k < plan.len() && write_covers(#[trigger] plan[k], s[q].id);
                    assert(write_covers(head[k], s[q].id));
                }
            }
        }
    }
}

/// The keys of a run count up from its first id.
proof fn lemma_run_ids(s: Seq<KeyState>, from: int, to: int, m: int)
    requires
        ids_increase(s),
        0 <= from <= to <= s.len(),
        0 <= m,
        from + m < to,
        forall|i: int| from < i < to ==> s[i].id == next_id(#[trigger] s[i - 1].id),
    ensures
        s[from + m].id == s[from].id + m,
    decreases m,
{
    if m > 0 {
        lemma_run_ids(s, from, to, m - 1);
        assert(s[from + m].id == next_id(s[from + m - 1].id));
        assert(s[from + m - 1].id < s[from + m].id);
    }
}

/// The packets of a run fit every key, and cover those of the run.
proof fn lemma_run_writes(s: Seq<KeyState>, from: int, to: int, q: int)
    requires
        ids_increase(s),
        0 <= from <= to <= s.len(),
        0 <= q < s.len(),
        forall|i: int| from < i < to ==> s[i].id == next_id(#[trigger] s[i - 1].id),
    ensures
        forall|k: int|
            0 <= k < run_writes(s, from, to).len() ==> write_fits(
                #[trigger] run_writes(s, from, to)[k],
                s,
                q,
            ),
        from <= q < to ==> writes_cover(run_writes(s, from, to), s[q].id),
    decreases to - from,
{
    if from < to {
        let end = if to - from < KEYS_PER_CONSECUTIVE {
            to
        } else {
            from + KEYS_PER_CONSECUTIVE
        };
        let colors = Seq::new((end - from) as nat, |i: int| s[from + i].color);
        let w = PkWrite::Consecutive { first: s[from].id, colors };
        let rest = run_writes(s, end, to);
        let all = run_writes(s, from, to);
        assert(all == seq![w] + rest);
        assert(all[0] == w);
        lemma_run_writes(s, end, to, q);
        if s[from].id <= s[q].id < s[from].id + colors.len() {
            let m = s[q].id - s[from].id;
            lemma_run_ids(s, from, to, m);
            assert(q == from + m) by {
                if q < from + m {
                    assert(s[q].id < s[from + m].id);
                } else if q > from + m {
                    assert(s[from + m].id < s[q].id);
                }
            }
        }
        assert(write_fits(w, s, q));
        assert forall|k: int| 0 <= k < all.len() implies write_fits(#[trigger] all[k], s, q) by {
            if k > 0 {
                assert(all[k] == rest[k - 1]);
            }
        }
        if from <= q < to {
            if q < end {
                lemma_run_ids(s, from, to, q - from);
                assert(write_covers(all[0], s[q].id));
            } else {
                let k = choose|k: int|
                    0 <= k < rest.len() && write_covers(#[trigger] rest[k], s[q].id);
                assert(all[k + 1] == rest[k]);
                assert(write_covers(all[k + 1], s[q].id));
            }
        }
    }
}

/// What one part is sent as fits every key, and covers the changed keys of the part.
proof fn lemma_part_fits(s: Seq<KeyState>, a: int, q: int)
    requires
        ids_increase(s),
        0 <= a < s.len(),
        0 <= q < s.len(),
    ensures
        forall|k: int|
            0 <= k < part_ranges(s, a).len() ==> range_fits(#[trigger] part_ranges(s, a)[k], s, q),
        forall|k: int|
            0 <= k < part_writes(s, a).len() ==> write_fits(#[trigger] part_writes(s, a)[k], s, q),
        a <= q < part_end(s, a) && s[q].changed ==> ranges_cover(part_ranges(s, a), s[q].id)
            || writes_cover(part_writes(s, a), s[q].id),
{
    lemma_span(s, a);
    lemma_run(s, a);
    let b = span_end(s, a);
    let rs = part_ranges(s, a);
    if a <= q < b && s[q].changed {
        assert(dirty(s, a, b));
    }
    if !dirty(s, a, b) {
        assert(!lone_change(s, a)) by {
            if lone_change(s, a) {
                assert(s[a].changed);
            }
        }
    } else if b - a > 1 {
        let r = rs[0];
        assert(range_fits(r, s, q)) by {
            if range_covers(r, s[q].id) {
                if q < a {
                    assert(s[q].id < s[a].id);
                }
                if q >= b {
                    assert(s[b - 1].id < s[q].id);
                }
            }
        }
        if a <= q < b {
            assert(s[a].id <= s[q].id <= s[b - 1].id) by {
                if a < q {
                    assert(s[a].id < s[q].id);
                }
                if q < b - 1 {
                    assert(s[q].id < s[b - 1].id);
                }
            }
            assert(range_covers(rs[0], s[q].id));
        }
    } else {
        let i = choose|i: int| a <= i < b && #[trigger] s[i].changed;
        assert(i == a);
        assert(lone_change(s, a));
        let e = run_end(s, a);
        if e - a < MIN_VARYING_RUN {
            assert forall|k: int| 0 <= k < rs.len() implies range_fits(#[trigger] rs[k], s, q) by {
                if range_covers(rs[k], s[q].id) {
                    if q < a + k {
                        assert(s[q].id < s[a + k].id);
                    } else if q > a + k {
                        assert(s[a + k].id < s[q].id);
                    }
                }
            }
            if a <= q < e {
                assert(range_covers(rs[q - a], s[q].id));
            }
        } else {
            lemma_run_writes(s, a, e, q);
        }
    }
}

/// What all parts are sent as fits every key, and covers every changed one.
proof fn lemma_plan_fits(s: Seq<KeyState>, a: int, q: int)
    requires
        ids_increase(s),
        0 <= a <= s.len(),
        0 <= q < s.len(),
    ensures
        forall|k: int|
            0 <= k < ranges_from(s, a).len() ==> range_fits(#[trigger] ranges_from(s, a)[k], s, q),
        forall|k: int|
            0 <= k < writes_from(s, a).len() ==> write_fits(#[trigger] writes_from(s, a)[k], s, q),
        a <= q && s[q].changed ==> ranges_cover(ranges_from(s, a), s[q].id) || writes_cover(
            writes_from(s, a),
            s[q].id,
        ),
    decreases s.len() - a,
{
    if a < s.len() {
        lemma_part(s, a);
        lemma_part_fits(s, a, q);
        let e = part_end(s, a);
        lemma_plan_fits(s, e, q);
        let r1 = part_ranges(s, a);
        let r2 = ranges_from(s, e);
        let w1 = part_writes(s, a);
        let w2 = writes_from(s, e);
        let rs = ranges_from(s, a);
        let ws = writes_from(s, a);
        assert(rs == r1 + r2);
        assert(ws == w1 + w2);
        assert forall|k: int| 0 <= k < rs.len() implies range_fits(#[trigger] rs[k], s, q) by {
            if k < r1.len() {
                assert(rs[k] == r1[k]);
            } else {
                assert(rs[k] == r2[k - r1.len()]);
            }
        }
        assert forall|k: int| 0 <= k < ws.len() implies write_fits(#[trigger] ws[k], s, q) by {
            if k < w1.len() {
                assert(ws[k] == w1[k]);
            } else {
                assert(ws[k] == w2[k - w1.len()]);
            }
        }
        if a <= q && s[q].changed {
            let id = s[q].id;
            if ranges_cover(r1, id) {
                let k = choose|k: int| 0 <= k < r1.len() && range_covers(#[trigger] r1[k], id);
                assert(range_covers(rs[k], id));
            } else if writes_cover(w1, id) {
                let k = choose|k: int| 0 <= k < w1.len() && write_covers(#[trigger] w1[k], id);
                assert(write_covers(ws[k], id));
            } else if ranges_cover(r2, id) {
                let k = choose|k: int| 0 <= k < r2.len() && range_covers(#[trigger] r2[k], id);
                assert(rs[k + r1.len()] == r2[k]);
                assert(range_covers(rs[k + r1.len()], id));
            } else {
                let k = choose|k: int| 0 <= k < w2.len() && write_covers(#[trigger] w2[k], id);
                assert(ws[k + w1.len()] == w2[k]);
                assert(write_covers(ws[k + w1.len()], id));
            }
        }
    }
}

/// Whether no two keys share an id.
pub open spec fn ids_differ(keys: Seq<(u8, RgbColor)>) -> bool {
    forall|i: int, j: int| 0 <= i < j < keys.len() ==> #[trigger] keys[i].0 != #[trigger] keys[j].0
}

/// Insertion keeps the order, and adds exactly one key.
proof fn lemma_insert(s: Seq<KeyState>, k: KeyState)
    ensures
        insert_by_id(s, k).len() == s.len() + 1,
        forall|x: KeyState|
            #[trigger] insert_by_id(s, k).contains(x) <==> s.contains(x) || x == k,
        ids_increase(s) && (forall|j: int| 0 <= j < s.len() ==> #[trigger] s[j].id != k.id)
            ==> ids_increase(insert_by_id(s, k)),
    decreases s.len(),
{
    let r = insert_by_id(s, k);
    if s.len() == 0 || s.last().id <= k.id {
        assert forall|x: KeyState| #[trigger] r.contains(x) <==> s.contains(x) || x == k by {
            if s.contains(x) {
                let i = choose|i: int| 0 <= i < s.len() && s[i] == x;
                assert(r[i] == x);
            }
            if x == k {
                assert(r[s.len() as int] == x);
            }
        }
        if ids_increase(s) && (forall|j: int| 0 <= j < s.len() ==> #[trigger] s[j].id != k.id) {
            assert forall|i: int, j: int| 0 <= i < j < r.len() implies #[trigger] r[i].id
                < #[trigger] r[j].id by {
                assert(r[i] == s[i]);
                if j < s.len() {
                    assert(r[j] == s[j]);
                } else if i < s.len() - 1 {
                    assert(s[i].id < s[s.len() - 1].id);
                }
            }
        }
    } else {
        let head = s.drop_last();
        let t = insert_by_id(head, k);
        lemma_insert(head, k);
        assert(r == t.push(s.last()));
        assert forall|x: KeyState| #[trigger] r.contains(x) <==> s.contains(x) || x == k by {
            if r.contains(x) {
                let i = choose|i: int| 0 <= i < r.len() && r[i] == x;
                if i < t.len() {
                    assert(t.contains(x)) by {
                        assert(t[i] == x);
                    }
                    if head.contains(x) {
                        let j = choose|j: int| 0 <= j < head.len() && head[j] == x;
                        assert(s[j] == x);
                    }
                } else {
                    assert(s[s.len() - 1] == x);
                }
            }
            if s.contains(x) {
                let i = choose|i: int| 0 <= i < s.len() && s[i] == x;
                if i < head.len() {
                    assert(head[i] == x);
                    assert(head.contains(x));
                    assert(t.contains(x));
                    let j = choose|j: int| 0 <= j < t.len() && t[j] == x;
                    assert(r[j] == x);
                } else {
                    assert(r[t.len() as int] == x);
                }
            }
            if x == k {
                assert(t.contains(x));
                let j = choose|j: int| 0 <= j < t.len() && t[j] == x;
                assert(r[j] == x);
            }
        }
        if ids_increase(s) && (forall|j: int| 0 <= j < s.len() ==> #[trigger] s[j].id != k.id) {
            assert(ids_increase(head)) by {
                assert forall|i: int, j: int| 0 <= i < j < head.len() implies #[trigger] head[i].id
                    < #[trigger] head[j].id by {
                    assert(s[i].id < s[j].id);
                }
            }
            assert forall|j: int| 0 <= j < head.len() implies #[trigger] head[j].id != k.id by {
                assert(head[j] == s[j]);
            }
            assert forall|i: int, j: int| 0 <= i < j < r.len() implies #[trigger] r[i].id
                < #[trigger] r[j].id by {
                assert(r[i] == t[i]);
                if j < t.len() {
                    assert(r[j] == t[j]);
                } else {
                    assert(t.contains(t[i]));
                    if head.contains(t[i]) {
                        let m = choose|m: int| 0 <= m < head.len() && head[m] == t[i];
                        assert(s[m].id < s[s.len() - 1].id);
                    }
                }
            }
        }
    }
}

/// Ordering keys with different ids keeps each of them and makes the ids increase.
proof fn lemma_sorted(s: Seq<KeyState>)
    requires
        forall|i: int, j: int| 0 <= i < j < s.len() ==> #[trigger] s[i].id != #[trigger] s[j].id,
    ensures
        ids_increase(sort_by_id(s)),
        forall|x: KeyState| #[trigger] sort_by_id(s).contains(x) <==> s.contains(x),
    decreases s.len(),
{
    if s.len() > 0 {
        let head = s.drop_last();
        let k = s.last();
        assert forall|i: int, j: int| 0 <= i < j < head.len() implies #[trigger] head[i].id
            != #[trigger] head[j].id by {
            assert(s[i].id != s[j].id);
        }
        lemma_sorted(head);
        let t = sort_by_id(head);
        lemma_insert(t, k);
        assert forall|j: int| 0 <= j < t.len() implies #[trigger] t[j].id != k.id by {
            assert(t.contains(t[j]));
            let m = choose|m: int| 0 <= m < head.len() && head[m] == t[j];
            assert(s[m].id != s[s.len() - 1].id);
        }
        assert forall|x: KeyState| #[trigger] sort_by_id(s).contains(x) <==> s.contains(x) by {
            assert(sort_by_id(s) == insert_by_id(t, k));
            assert(insert_by_id(t, k).contains(x) <==> t.contains(x) || x == k);
            assert(t.contains(x) <==> head.contains(x));
            if head.contains(x) {
                let i = choose|i: int| 0 <= i < head.len() && head[i] == x;
                assert(s[i] == x);
            }
            if x == k {
                assert(s[s.len() - 1] == x);
            }
            if s.contains(x) {
                let i = choose|i: int| 0 <= i < s.len() && s[i] == x;
                if i < head.len() {
                    assert(head[i] == x);
                }
            }
        }
    }
}

/// After a frame every key shows its colour, whatever changed and however it was sent,
/// provided a key that counts as sent showed the colour it counts as sent with.
pub proof fn frames_show_every_key(
    keys: Seq<(u8, RgbColor)>,
    last: Seq<Option<RgbColor>>,
    i: int,
    before: RgbColor,
)
    requires
        0 <= i < keys.len(),
        ids_differ(keys),
        match remembered(last, keys.len())[i] {
            Some(c) => before == c,
            None => true,
        },
    ensures
        shown(
            frame_plan(sort_by_id(key_states(keys, remembered(last, keys.len())))),
            keys[i].0,
            before,
        ) == keys[i].1,
{
    let s = sort_by_id(key_states(keys, remembered(last, keys.len())));
    let q = lemma_place(keys, last, i);
    lemma_plan_fits(s, 0, q);
    let ws = writes_from(s, 0);
    let rs = ranges_from(s, 0);
    lemma_fitting_writes(ws, s, q, before);
    let mid = shown(ws, s[q].id, before);
    lemma_fitting_ranges(rs, s, q, mid);
    lemma_shown_ranges(rs, s[q].id, mid);
    lemma_shown_append(ws, range_writes(rs), s[q].id, before);
}

/// Entry `e` of a packet of ranges.
pub open spec fn entry_at(p: Seq<u8>, e: int) -> PkRange {
    PkRange {
        first: p[4 + 5 * e],
        last: p[5 + 5 * e],
        color: RgbColor { r: p[6 + 5 * e], g: p[7 + 5 * e], b: p[8 + 5 * e] },
    }
}

/// Colour `m` of a packet of consecutive colours.
pub open spec fn color_at(p: Seq<u8>, m: int) -> RgbColor {
    RgbColor { r: p[5 + 3 * m], g: p[6 + 3 * m], b: p[7 + 3 * m] }
}

/// What the bytes of an entry are that asks for nothing.
pub open spec fn no_entry() -> PkRange {
    PkRange { first: 0, last: 0, color: black() }
}

/// Whether a packet of ranges has an entry that gives a key a colour.
pub open spec fn ranges_give(p: Seq<u8>, id: u8, color: RgbColor) -> bool {
    p[3] == 0x51 && exists|e: int|
        0 <= e < RANGES_PER_PACKET && range_covers(#[trigger] entry_at(p, e), id) && entry_at(
            p,
            e,
        ).color == color
}

/// Whether a packet of consecutive colours holds a colour at the place of a key.
pub open spec fn consecutive_gives(p: Seq<u8>, id: u8, color: RgbColor) -> bool {
    p[3] == 0x21 && exists|m: int|
        0 <= m < KEYS_PER_CONSECUTIVE && p[4] + m == id && #[trigger] color_at(p, m) == color
}

/// A packet of ranges reads back as its ranges, followed by entries that ask for nothing.
proof fn lemma_entry_at(ranges: Seq<PkRange>, devnum: u8, pk_idx: u8, e: int)
    requires
        ranges.len() <= RANGES_PER_PACKET,
        0 <= e < RANGES_PER_PACKET,
    ensures
        pk_packet(PkWrite::Ranges(ranges), devnum, pk_idx)[3] == 0x51,
        entry_at(pk_packet(PkWrite::Ranges(ranges), devnum, pk_idx), e) == if e < ranges.len() {
            ranges[e]
        } else {
            no_entry()
        },
{
    let params = range_params(ranges);
    if e < ranges.len() {
        assert(params[5 * e] == ranges[e].first);
        assert(params[5 * e + 1] == ranges[e].last);
        assert(params[5 * e + 2] == ranges[e].color.r);
        assert(params[5 * e + 3] == ranges[e].color.g);
        assert(params[5 * e + 4] == ranges[e].color.b);
    }
}

/// A packet of consecutive colours reads back as its colours, followed by black.
proof fn lemma_color_at(first: u8, colors: Seq<RgbColor>, devnum: u8, pk_idx: u8, m: int)
    requires
        colors.len() <= KEYS_PER_CONSECUTIVE,
        0 <= m < KEYS_PER_CONSECUTIVE,
    ensures
        ({
            let p = pk_packet(PkWrite::Consecutive { first, colors }, devnum, pk_idx);
            &&& p[3] == 0x21
            &&& p[4] == first
            &&& color_at(p, m) == if m < colors.len() {
                colors[m]
            } else {
                black()
            }
        }),
{
    let params = consecutive_params(first, colors);
    assert(params[0] == first);
    if m < colors.len() {
        assert(params[1 + 3 * m] == colors[m].r);
        assert(params[2 + 3 * m] == colors[m].g);
        assert(params[3 + 3 * m] == colors[m].b);
    }
}

/// Whether a packet is one of ranges out of `ranges`, as many as fit one.
spec fn holds_some(w: PkWrite, ranges: Seq<PkRange>) -> bool {
    match w {
        PkWrite::Ranges(rs) => {
            &&& rs.len() <= RANGES_PER_PACKET
            &&& forall|e: int| 0 <= e < rs.len() ==> ranges.contains(#[trigger] rs[e])
        },
        PkWrite::Consecutive { .. } => false,
    }
}

/// Whether a packet holds a range.
spec fn holds(w: PkWrite, r: PkRange) -> bool {
    w matches PkWrite::Ranges(rs) && rs.contains(r)
}

/// Dividing ranges into packets loses none and adds none.
proof fn lemma_divided(ranges: Seq<PkRange>)
    ensures
        forall|k: int|
            0 <= k < range_writes(ranges).len() ==> holds_some(
                #[trigger] range_writes(ranges)[k],
                ranges,
            ),
        forall|j: int|
            #![trigger ranges[j]]
            0 <= j < ranges.len() ==> exists|k: int|
                0 <= k < range_writes(ranges).len() && holds(
                    #[trigger] range_writes(ranges)[k],
                    ranges[j],
                ),
    decreases ranges.len(),
{
    let all = range_writes(ranges);
    if ranges.len() > 0 {
        if ranges.len() <= RANGES_PER_PACKET {
            assert(all[0] == PkWrite::Ranges(ranges));
            assert forall|j: int| 0 <= j < ranges.len() implies exists|k: int|
                0 <= k < all.len() && holds(#[trigger] all[k], #[trigger] ranges[j]) by {
                assert(holds(all[0], ranges[j]));
            }
        } else {
            let n = RANGES_PER_PACKET as int;
            let head = ranges.take(n);
            let rest = ranges.skip(n);
            let tail = range_writes(rest);
            lemma_divided(rest);
            assert(all == seq![PkWrite::Ranges(head)] + tail);
            assert(all[0] == PkWrite::Ranges(head));
            assert forall|k: int| 0 <= k < all.len() implies holds_some(
                #[trigger] all[k],
                ranges,
            ) by {
                if k == 0 {
                    assert forall|e: int| 0 <= e < head.len() implies ranges.contains(
                        #[trigger] head[e],
                    ) by {
                        assert(ranges[e] == head[e]);
                    }
                } else {
                    assert(all[k] == tail[k - 1]);
                    assert(holds_some(tail[k - 1], rest));
                    if let PkWrite::Ranges(rs) = tail[k - 1] {
                        assert forall|e: int| 0 <= e < rs.len() implies ranges.contains(
                            #[trigger] rs[e],
                        ) by {
                            assert(rest.contains(rs[e]));
                            let i = choose|i: int| 0 <= i < rest.len() && rest[i] == rs[e];
                            assert(ranges[i + n] == rs[e]);
                        }
                    }
                }
            }
            assert forall|j: int| 0 <= j < ranges.len() implies exists|k: int|
                0 <= k < all.len() && holds(#[trigger] all[k], #[trigger] ranges[j]) by {
                if j < n {
                    assert(head[j] == ranges[j]);
                    assert(holds(all[0], ranges[j]));
                } else {
                    assert(rest[j - n] == ranges[j]);
                    let k = choose|k: int|
                        0 <= k < tail.len() && holds(#[trigger] tail[k], rest[j - n]);
                    assert(all[k + 1] == tail[k]);
                    assert(holds(all[k + 1], ranges[j]));
                }
            }
        }
    }
}

/// Where key `i` of a frame stands in the order of ids.
proof fn lemma_place(keys: Seq<(u8, RgbColor)>, last: Seq<Option<RgbColor>>, i: int) -> (q: int)
    requires
        0 <= i < keys.len(),
        ids_differ(keys),
    ensures
        ({
            let states = key_states(keys, remembered(last, keys.len()));
            let s = sort_by_id(states);
            &&& ids_increase(s)
            &&& 0 <= q < s.len()
            &&& s[q] == states[i]
        }),
{
    let states = key_states(keys, remembered(last, keys.len()));
    assert forall|a: int, b: int| 0 <= a < b < states.len() implies #[trigger] states[a].id
        != #[trigger] states[b].id by {
        assert(keys[a].0 != keys[b].0);
    }
    lemma_sorted(states);
    let s = sort_by_id(states);
    assert(states.contains(states[i]));
    assert(s.contains(states[i]));
    choose|q: int| 0 <= q < s.len() && s[q] == states[i]
}

/// Some packet of a frame gives each key with a new colour that colour.
pub proof fn changed_keys_are_given_their_color(
    keys: Seq<(u8, RgbColor)>,
    last: Seq<Option<RgbColor>>,
    devnum: u8,
    pk_idx: u8,
    i: int,
)
    requires
        0 <= i < keys.len(),
        ids_differ(keys),
        remembered(last, keys.len())[i] != Some(keys[i].1),
    ensures
        exists|k: int|
            0 <= k < frame_packets(keys, last, devnum, pk_idx).len() && (ranges_give(
                #[trigger] frame_packets(keys, last, devnum, pk_idx)[k],
                keys[i].0,
                keys[i].1,
            ) || consecutive_gives(
                frame_packets(keys, last, devnum, pk_idx)[k],
                keys[i].0,
                keys[i].1,
            )),
{
    let packets = frame_packets(keys, last, devnum, pk_idx);
    let states = key_states(keys, remembered(last, keys.len()));
    let s = sort_by_id(states);
    let q = lemma_place(keys, last, i);
    assert(states[i].changed);
    assert(dirty(states, 0, states.len() as int));
    lemma_plan_fits(s, 0, q);
    let ws = writes_from(s, 0);
    let rs = ranges_from(s, 0);
    let divided = range_writes(rs);
    let plan = frame_plan(s);
    let id = s[q].id;
    if writes_cover(ws, id) {
        let k = choose|k: int| 0 <= k < ws.len() && write_covers(#[trigger] ws[k], id);
        assert(write_fits(ws[k], s, q));
        assert(plan[k] == ws[k]);
        assert(packets[k] == pk_packet(ws[k], devnum, pk_idx));
        if let PkWrite::Consecutive { first, colors } = ws[k] {
            let m = id - first;
            lemma_color_at(first, colors, devnum, pk_idx, m);
            assert(color_at(packets[k], m) == keys[i].1);
            assert(consecutive_gives(packets[k], keys[i].0, keys[i].1));
        }
    } else {
        let j = choose|j: int| 0 <= j < rs.len() && range_covers(#[trigger] rs[j], id);
        assert(range_fits(rs[j], s, q));
        lemma_divided(rs);
        let d = choose|d: int| 0 <= d < divided.len() && holds(#[trigger] divided[d], rs[j]);
        let k = ws.len() + d;
        assert(plan[k] == divided[d]);
        assert(packets[k] == pk_packet(divided[d], devnum, pk_idx));
        assert(holds_some(divided[d], rs));
        if let PkWrite::Ranges(part) = divided[d] {
            let e = choose|e: int| 0 <= e < part.len() && part[e] == rs[j];
            lemma_entry_at(part, devnum, pk_idx, e);
            assert(entry_at(packets[k], e) == rs[j]);
            assert(ranges_give(packets[k], keys[i].0, keys[i].1));
        }
    }
}

/// No packet of a frame gives a key another colour than its own, except where a packet is not
/// full: one of consecutive colours then ends in black for the ids that follow, and one of
/// ranges in black for the id zero.
pub proof fn keys_are_given_no_other_color(
    keys: Seq<(u8, RgbColor)>,
    last: Seq<Option<RgbColor>>,
    devnum: u8,
    pk_idx: u8,
    i: int,
    k: int,
    color: RgbColor,
)
    requires
        0 <= i < keys.len(),
        ids_differ(keys),
        0 <= k < frame_packets(keys, last, devnum, pk_idx).len(),
    ensures
        ranges_give(frame_packets(keys, last, devnum, pk_idx)[k], keys[i].0, color) ==> color
            == keys[i].1 || (keys[i].0 == 0 && color == black()),
        consecutive_gives(frame_packets(keys, last, devnum, pk_idx)[k], keys[i].0, color) ==> color
            == keys[i].1 || color == black(),
{
    let packets = frame_packets(keys, last, devnum, pk_idx);
    let states = key_states(keys, remembered(last, keys.len()));
    let s = sort_by_id(states);
    let q = lemma_place(keys, last, i);
    lemma_plan_fits(s, 0, q);
    let ws = writes_from(s, 0);
    let rs = ranges_from(s, 0);
    let divided = range_writes(rs);
    let plan = frame_plan(s);
    let p = packets[k];
    let id = keys[i].0;
    if k == plan.len() {
        assert(p == commit_packet(devnum, pk_idx));
        assert(p[3] == 0x71);
    } else if k < ws.len() {
        assert(plan[k] == ws[k]);
        assert(write_fits(ws[k], s, q));
        assert(p == pk_packet(ws[k], devnum, pk_idx));
        if let PkWrite::Consecutive { first, colors } = ws[k] {
            lemma_color_at(first, colors, devnum, pk_idx, 0);
            if consecutive_gives(p, id, color) {
                let m = choose|m: int|
                    0 <= m < KEYS_PER_CONSECUTIVE && p[4] + m == id && #[trigger] color_at(p, m)
                        == color;
                lemma_color_at(first, colors, devnum, pk_idx, m);
            }
        }
    } else {
        let d = k - ws.len();
        assert(plan[k] == divided[d]);
        assert(p == pk_packet(divided[d], devnum, pk_idx));
        lemma_divided(rs);
        assert(holds_some(divided[d], rs));
        if let PkWrite::Ranges(part) = divided[d] {
            lemma_entry_at(part, devnum, pk_idx, 0);
            if ranges_give(p, id, color) {
                let e = choose|e: int|
                    0 <= e < RANGES_PER_PACKET && range_covers(#[trigger] entry_at(p, e), id)
                        && entry_at(p, e).color == color;
                lemma_entry_at(part, devnum, pk_idx, e);
                if e < part.len() {
                    assert(rs.contains(part[e]));
                    let j = choose|j: int| 0 <= j < rs.len() && rs[j] == part[e];
                    assert(range_fits(rs[j], s, q));
                }
            }
        }
    }
}

/// A frame that was just sent is not sent again.
pub proof fn repeated_frames_send_nothing(keys: Seq<(u8, RgbColor)>, devnum: u8, pk_idx: u8)
    ensures
        frame_packets(keys, sent(keys), devnum, pk_idx).len() == 0,
{
    let states = key_states(keys, sent(keys));
    assert(!dirty(states, 0, states.len() as int));
}

/// A frame sends something exactly when a colour is new, and then ends with its end mark;
/// every packet is a long one for the device and feature.
pub proof fn frames_end_with_their_mark(
    keys: Seq<(u8, RgbColor)>,
    last: Seq<Option<RgbColor>>,
    devnum: u8,
    pk_idx: u8,
)
    ensures
        ({
            let packets = frame_packets(keys, last, devnum, pk_idx);
            let was = remembered(last, keys.len());
            &&& packets.len() > 0 <==> exists|i: int|
                0 <= i < keys.len() && #[trigger] was[i] != Some(keys[i].1)
            &&& packets.len() > 0 ==> packets.last() == commit_packet(devnum, pk_idx)
            &&& forall|k: int|
                #![trigger packets[k]]
                0 <= k < packets.len() ==> packets[k].len() == 20 && packets[k][0] == 0x11
                    && packets[k][1] == devnum && packets[k][2] == pk_idx
        }),
{
    let was = remembered(last, keys.len());
    let states = key_states(keys, was);
    if dirty(states, 0, states.len() as int) {
        let i = choose|i: int| 0 <= i < states.len() && #[trigger] states[i].changed;
        assert(was[i] != Some(keys[i].1));
    }
    if exists|i: int| 0 <= i < keys.len() && #[trigger] was[i] != Some(keys[i].1) {
        let i = choose|i: int| 0 <= i < keys.len() && #[trigger] was[i] != Some(keys[i].1);
        assert(states[i].changed);
    }
}

/// What is set is shown by function seven with a zero; all keys are set as one range from the
/// lowest id to the highest.
pub proof fn marks_and_ranges_on_the_wire(
    devnum: u8,
    pk_idx: u8,
    color: RgbColor,
    a: Vec<u8>,
    b: Vec<u8>,
    all: [u8; 5],
)
    requires
        call_ensures(encode_commit, (devnum, pk_idx), a),
        call_ensures(encode_per_key_commit, (devnum, pk_idx), b),
        call_ensures(encode_per_key_set_range, (color,), all),
    ensures
        a@ == b@,
        reads_as(a@, devnum, pk_idx, 0x71, seq![0u8]),
        a@.len() == 20,
        all@ == seq![0u8, 255, color.r, color.g, color.b],
{
}

/// A frame that is encoded gives each key with a new colour that colour, gives none another
/// but for padding, ends with its mark, and is remembered colour by colour.
pub proof fn encoded_frames_show_their_keys(
    keys: &[(u8, RgbColor)],
    cache: &mut PkFrameCache,
    devnum: u8,
    pk_idx: u8,
    r: Vec<Vec<u8>>,
    i: int,
)
    requires
        call_ensures(encode_frame, (keys, cache, devnum, pk_idx), r),
        ids_differ(keys@),
        0 <= i < keys@.len(),
    ensures
        final(cache).last@.len() == keys@.len(),
        final(cache).last@[i] == Some(keys@[i].1),
        old(cache).last@.len() != keys@.len() || old(cache).last@[i] != Some(keys@[i].1)
            ==> exists|k: int|
            0 <= k < r@.len() && (ranges_give((#[trigger] r@[k])@, keys@[i].0, keys@[i].1)
                || consecutive_gives(r@[k]@, keys@[i].0, keys@[i].1)),
        r@.len() > 0 ==> reads_as(r@.last()@, devnum, pk_idx, 0x71, seq![0u8]),
        forall|k: int, c: RgbColor|
            0 <= k < r@.len() && #[trigger] ranges_give(r@[k]@, keys@[i].0, c) ==> c == keys@[i].1
                || (keys@[i].0 == 0 && c == black()),
        old(cache).last@.len() == keys@.len() && (forall|j: int|
            0 <= j < keys@.len() ==> #[trigger] old(cache).last@[j] == Some(keys@[j].1)) ==> r@.len()
            == 0,
{
    let last = old(cache).last@;
    let packets = frame_packets(keys@, last, devnum, pk_idx);
    assert(views(r@) == packets);
    assert(packets.len() == r@.len());
    assert(forall|k: int| 0 <= k < r@.len() ==> packets[k] == #[trigger] r@[k]@);
    frames_end_with_their_mark(keys@, last, devnum, pk_idx);
    if last.len() != keys@.len() || last[i] != Some(keys@[i].1) {
        changed_keys_are_given_their_color(keys@, last, devnum, pk_idx, i);
        let k = choose|k: int|
            0 <= k < packets.len() && (ranges_give(#[trigger] packets[k], keys@[i].0, keys@[i].1)
                || consecutive_gives(packets[k], keys@[i].0, keys@[i].1));
        assert(packets[k] == r@[k]@);
    }
    assert forall|k: int, c: RgbColor|
        0 <= k < r@.len() && #[trigger] ranges_give(r@[k]@, keys@[i].0, c) implies c == keys@[i].1
        || (keys@[i].0 == 0 && c == black()) by {
        keys_are_given_no_other_color(keys@, last, devnum, pk_idx, i, k, c);
    }
}

/// Single keys are set four to a packet, in their order, each by its id and its colour; the
/// end mark follows the last packet.
pub proof fn single_keys_are_set_in_order(
    pairs: &[(u8, u8, u8, u8)],
    devnum: u8,
    pk_idx: u8,
    r: Vec<Vec<u8>>,
    i: int,
)
    requires
        call_ensures(encode_individual_pairs, (pairs, devnum, pk_idx), r),
        0 <= i < pairs@.len(),
    ensures
        r@.len() == (pairs@.len() + 3) / 4 + 1,
        ({
            let p = r@[i / 4]@;
            let at = 4 + 4 * (i % 4);
            &&& p.len() == 20 && p[0] == 0x11 && p[1] == devnum && p[2] == pk_idx && p[3] == 0x11
            &&& p[at] == pairs@[i].0
            &&& p[at + 1] == pairs@[i].1
            &&& p[at + 2] == pairs@[i].2
            &&& p[at + 3] == pairs@[i].3
        }),
        reads_as(r@.last()@, devnum, pk_idx, 0x71, seq![0u8]),
{
    lemma_individual(pairs@, devnum, pk_idx, i);
    let all = individual_packets(pairs@, devnum, pk_idx);
    assert(views(r@) == all.push(commit_packet(devnum, pk_idx)));
    assert(views(r@).len() == r@.len());
    assert(views(r@)[i / 4] == r@[i / 4]@);
    assert(views(r@).last() == r@.last()@);
}

/// Where pair `i` stands.
proof fn lemma_individual(pairs: Seq<(u8, u8, u8, u8)>, devnum: u8, pk_idx: u8, i: int)
    requires
        0 <= i < pairs.len(),
    ensures
        individual_packets(pairs, devnum, pk_idx).len() == (pairs.len() + 3) / 4,
        ({
            let p = individual_packets(pairs, devnum, pk_idx)[i / 4];
            let at = 4 + 4 * (i % 4);
            &&& p.len() == 20 && p[0] == 0x11 && p[1] == devnum && p[2] == pk_idx && p[3] == 0x11
            &&& p[at] == pairs[i].0
            &&& p[at + 1] == pairs[i].1
            &&& p[at + 2] == pairs[i].2
            &&& p[at + 3] == pairs[i].3
        }),
    decreases pairs.len(),
{
    let n: int = if pairs.len() < 4 {
        pairs.len() as int
    } else {
        4
    };
    let head = pairs.take(n);
    let rest = pairs.skip(n);
    let params = individual_params(head);
    if rest.len() > 0 {
        lemma_individual(
            rest,
            devnum,
            pk_idx,
            if i >= 4 {
                i - 4
            } else {
                0
            },
        );
        assert((rest.len() + 3) / 4 == (pairs.len() + 3) / 4 - 1);
    } else {
        assert(individual_packets(rest, devnum, pk_idx).len() == 0);
        assert((pairs.len() + 3) / 4 == 1);
    }
    if i < n {
        assert(head[i] == pairs[i]);
        assert(params[4 * i] == pairs[i].0);
        assert(params[4 * i + 1] == pairs[i].1);
        assert(params[4 * i + 2] == pairs[i].2);
        assert(params[4 * i + 3] == pairs[i].3);
    } else {
        assert(rest[i - 4] == pairs[i]);
        assert((i - 4) / 4 == i / 4 - 1);
        assert((i - 4) % 4 == i % 4);
    }
}

/// A batch holds up to four keys with their colours in its order, and zeros behind them.
pub proof fn batches_hold_their_keys(
    batch: &[(u8, u8, u8, u8)],
    devnum: u8,
    pk_idx: u8,
    r: Vec<u8>,
    i: int,
)
    requires
        call_ensures(encode_per_key_batch, (batch, devnum, pk_idx), r),
        0 <= i < 4,
    ensures
        r@.len() == 20 && r@[0] == 0x11 && r@[1] == devnum && r@[2] == pk_idx && r@[3] == 0x11,
        i < batch@.len() ==> r@[4 + 4 * i] == batch@[i].0 && r@[5 + 4 * i] == batch@[i].1 && r@[6
            + 4 * i] == batch@[i].2 && r@[7 + 4 * i] == batch@[i].3,
        i >= batch@.len() ==> r@[4 + 4 * i] == 0 && r@[5 + 4 * i] == 0 && r@[6 + 4 * i] == 0 && r@[7
            + 4 * i] == 0,
{
    let params = batch_params(batch@);
    if i < batch@.len() {
        assert(params[4 * i] == batch@[i].0);
        assert(params[4 * i + 1] == batch@[i].1);
        assert(params[4 * i + 2] == batch@[i].2);
        assert(params[4 * i + 3] == batch@[i].3);
    } else {
        assert(params[4 * i] == 0);
        assert(params[4 * i + 1] == 0);
        assert(params[4 * i + 2] == 0);
        assert(params[4 * i + 3] == 0);
    }
}

/// Three or more neighbouring keys that change to colours of their own are sent as
/// consecutive colours, five keys to a packet and none left over; one or two are sent as
/// ranges of a single key.
pub proof fn long_runs_are_sent_as_consecutive_colors(s: Seq<KeyState>, a: int)
    requires
        0 <= a < s.len(),
        lone_change(s, a),
    ensures
        run_end(s, a) - a >= 3 ==> part_ranges(s, a).len() == 0 && part_writes(s, a).len() == (
        run_end(s, a) - a + 4) / 5,
        run_end(s, a) - a < 3 ==> part_writes(s, a).len() == 0 && part_ranges(s, a).len()
            == run_end(s, a) - a && run_end(s, a) > a,
{
    lemma_run(s, a);
    assert(s[a].changed);
    assert(dirty(s, a, a + 1));
    if run_end(s, a) - a >= 3 {
        lemma_run_writes_len(s, a, run_end(s, a));
    }
}

/// Five keys go into a packet.
proof fn lemma_run_writes_len(s: Seq<KeyState>, from: int, to: int)
    requires
        from <= to,
    ensures
        run_writes(s, from, to).len() == (to - from + 4) / 5,
    decreases to - from,
{
    if from < to {
        if to - from < 5 {
            assert(run_writes(s, to, to).len() == 0);
        } else {
            lemma_run_writes_len(s, from + 5, to);
        }
    }
}

} // verus!
