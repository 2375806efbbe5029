//! Finding out which features a device has: its feature set is located, counted, and read
//! entry by entry.

use crate::logitech::protocols::hidpp::{
    byte_at, feature_packet, odd_bytes, reads_as, HidppMessenger, InflightRequest,
};
use std::collections::HashMap;
use vstd::prelude::*;

verus! {

/// The root feature, always at index 0.
pub const ROOT: u16 = 0x0000;

/// The feature that lists all features.
pub const FEATURE_SET: u16 = 0x0001;

/// What an enumeration asks next, or how it ended.
#[derive(Debug, Clone, Copy, PartialEq, Eq, Structural)]
pub enum EnumStage {
    /// Where the feature set is.
    Locate,
    /// How many entries it has.
    Count { fs_index: u8 },
    /// What entry `entry` of `count` is.
    Entry { fs_index: u8, count: u8, entry: u8 },
    /// All entries have been read.
    Done,
    /// A question failed before the entries.
    Failed,
    /// Some entries could not be read.
    Incomplete { errors: u32, count: u8 },
}

/// The index of a feature in the root's reply; 0 stands for an absent feature.
pub open spec fn found_index(reply: Seq<u8>) -> Option<u8> {
    if byte_at(reply, 0) != 0 {
        Some(reply[0])
    } else {
        None
    }
}

/// Reads the index of a feature from the root's reply.
pub fn get_feature_index(reply: &[u8]) -> (r: Option<u8>)
    ensures
        r == found_index(reply@),
{
    if reply.len() > 0 && reply[0] != 0 {
        Some(reply[0])
    } else {
        None
    }
}

/// The feature code in an entry; `None` where the reply is short or the entry empty.
pub open spec fn entry_code(reply: Seq<u8>) -> Option<u16> {
    if reply.len() >= 2 && reply[0] as int * 256 + reply[1] as int != 0 {
        Some((reply[0] as int * 256 + reply[1] as int) as u16)
    } else {
        None
    }
}

/// The stage behind an entry.
pub open spec fn after_entry(fs_index: u8, count: u8, entry: u8, errors: u32) -> EnumStage {
    if entry < count {
        EnumStage::Entry { fs_index, count, entry: (entry + 1) as u8 }
    } else if errors > 0 {
        EnumStage::Incomplete { errors, count }
    } else {
        EnumStage::Done
    }
}

/// The state of an enumeration as values: stage, table so far, failed entries.
pub struct EnumState {
    pub stage: EnumStage,
    pub table: Map<u16, u8>,
    pub errors: u32,
}

/// The state after a reply, `None` for a failed question.
pub open spec fn enum_step(s: EnumState, reply: Option<Seq<u8>>) -> EnumState {
    match s.stage {
        EnumStage::Locate => match reply {
            Some(r) => match found_index(r) {
                Some(fs_index) => EnumState { stage: EnumStage::Count { fs_index }, ..s },
                None => EnumState { stage: EnumStage::Done, ..s },
            },
            None => EnumState { stage: EnumStage::Failed, ..s },
        },
        EnumStage::Count { fs_index } => match reply {
            Some(r) => EnumState {
                stage: after_entry(fs_index, byte_at(r, 0), 0, s.errors),
                table: s.table.insert(ROOT, 0).insert(FEATURE_SET, fs_index),
                ..s
            },
            None => EnumState { stage: EnumStage::Failed, ..s },
        },
        EnumStage::Entry { fs_index, count, entry } => match reply {
            Some(r) => EnumState {
                stage: after_entry(fs_index, count, entry, s.errors),
                table: match entry_code(r) {
                    Some(code) => s.table.insert(code, entry),
                    None => s.table,
                },
                ..s
            },
            None => EnumState {
                stage: after_entry(fs_index, count, entry, (s.errors + 1) as u32),
                errors: (s.errors + 1) as u32,
                ..s
            },
        },
        _ => s,
    }
}

/// The question of a stage: feature index, function and parameters.
pub open spec fn question(stage: EnumStage) -> Option<(u8, u8, Seq<u8>)> {
    match stage {
        EnumStage::Locate => Some((0u8, 0u8, seq![0x00u8, 0x01u8])),
        EnumStage::Count { fs_index } => Some((fs_index, 0u8, Seq::empty())),
        EnumStage::Entry { fs_index, entry, .. } => Some((fs_index, 0x10u8, seq![entry])),
        _ => None,
    }
}

/// An enumeration under way.
#[derive(Debug)]
pub struct FeatureEnumeration {
    pub stage: EnumStage,
    pub table: HashMap<u16, u8>,
    pub errors: u32,
}

impl FeatureEnumeration {
    /// The enumeration as values.
    pub open spec fn state(&self) -> EnumState {
        EnumState { stage: self.stage, table: self.table@, errors: self.errors }
    }

    /// There are no more failed entries than entries read, entries are numbered from 1, and
    /// a finished enumeration has no failed entry.
    pub open spec fn wf(&self) -> bool {
        match self.stage {
            EnumStage::Entry { count, entry, .. } => self.errors < entry <= count,
            EnumStage::Incomplete { errors, count } => self.errors == errors && 0 < errors
                <= count,
            _ => self.errors == 0,
        }
    }

    /// An enumeration that has not asked anything.
    pub fn new() -> (r: Self)
        ensures
            r.wf(),
            r.state() == enum_start(),
    {
        broadcast use vstd::std_specs::hash::group_hash_axioms;

        FeatureEnumeration { stage: EnumStage::Locate, table: HashMap::new(), errors: 0 }
    }

    /// The packet that asks the next question; none when the enumeration has ended.
    pub fn next_request(&self, msg: &mut HidppMessenger, devnum: u8) -> (r: Option<Vec<u8>>)
        ensures
            final(msg).force_long == old(msg).force_long,
            match (r, question(self.stage)) {
                (Some(p), Some(q)) => {
                    &&& p@ == feature_packet(old(msg).force_long, devnum, q.0, q.1, q.2)
                    &&& final(msg).inflight == Some(InflightRequest { devnum, sub_id: q.0 })
                },
                (None, None) => *final(msg) == *old(msg),
                _ => false,
            },
    {
        match self.stage {
            EnumStage::Locate => {
                let params: [u8; 2] = [0x00, 0x01];
                proof {
                    assert(params@ =~= seq![0x00u8, 0x01u8]);
                }
                Some(msg.feature_request(devnum, 0x00, 0x00, &params))
            },
            EnumStage::Count { fs_index } => {
                let params: [u8; 0] = [];
                proof {
                    assert(params@ =~= Seq::<u8>::empty());
                }
                Some(msg.feature_request(devnum, fs_index, 0x00, &params))
            },
            EnumStage::Entry { fs_index, entry, .. } => {
                let params: [u8; 1] = [entry];
                proof {
                    assert(params@ =~= seq![entry]);
                }
                Some(msg.feature_request(devnum, fs_index, 0x10, &params))
            },
            _ => None,
        }
    }

    /// Takes a reply over, `None` for a failed question.
    pub fn advance(&mut self, reply: Option<&[u8]>)
        requires
            old(self).wf(),
        ensures
            final(self).wf(),
            final(self).state() == enum_step(
                old(self).state(),
                match reply {
                    Some(r) => Some(r@),
                    None => None,
                },
            ),
    {
        broadcast use vstd::std_specs::hash::group_hash_axioms;

        match self.stage {
            EnumStage::Locate => {
                self.stage = match reply {
                    Some(r) => match get_feature_index(r) {
                        Some(fs_index) => EnumStage::Count { fs_index },
                        None => EnumStage::Done,
                    },
                    None => EnumStage::Failed,
                };
            },
            EnumStage::Count { fs_index } => match reply {
                Some(r) => {
                    let count: u8 = if r.len() > 0 {
                        r[0]
                    } else {
                        0
                    };
                    self.table.insert(ROOT, 0);
                    self.table.insert(FEATURE_SET, fs_index);
                    self.stage = Self::behind(fs_index, count, 0, self.errors);
                },
                None => {
                    self.stage = EnumStage::Failed;
                },
            },
            EnumStage::Entry { fs_index, count, entry } => {
                match reply {
                    Some(r) => {
                        if r.len() >= 2 {
                            let code: u16 = (r[0] as u16) * 256 + r[1] as u16;
                            if code != 0 {
                                self.table.insert(code, entry);
                            }
                        }
                    },
                    None => {
                        self.errors = self.errors + 1;
                    },
                }
                self.stage = Self::behind(fs_index, count, entry, self.errors);
            },
            _ => {},
        }
    }

    /// The stage behind an entry.
    fn behind(fs_index: u8, count: u8, entry: u8, errors: u32) -> (r: EnumStage)
        ensures
            r == after_entry(fs_index, count, entry, errors),
    {
        if entry < count {
            EnumStage::Entry { fs_index, count, entry: entry + 1 }
        } else if errors > 0 {
            EnumStage::Incomplete { errors, count }
        } else {
            EnumStage::Done
        }
    }
}

/// The state after a list of replies.
pub open spec fn enum_run(s: EnumState, replies: Seq<Option<Seq<u8>>>) -> EnumState
    decreases replies.len(),
{
    if replies.len() == 0 {
        s
    } else {
        enum_step(enum_run(s, replies.drop_last()), replies.last())
    }
}

/// Whether an enumeration has ended.
pub open spec fn enum_over(stage: EnumStage) -> bool {
    question(stage) is None
}

/// How many replies an enumeration takes at most from a stage on.
pub open spec fn enum_left(stage: EnumStage) -> nat {
    match stage {
        EnumStage::Locate => 257,
        EnumStage::Count { .. } => 256,
        EnumStage::Entry { count, entry, .. } => if entry <= count {
            (count - entry + 1) as nat
        } else {
            0
        },
        _ => 0,
    }
}

/// Whether a stage can be reached.
pub open spec fn enum_reachable(s: EnumState) -> bool {
    match s.stage {
        EnumStage::Entry { count, entry, .. } => s.errors < entry <= count,
        EnumStage::Incomplete { .. } => true,
        _ => s.errors == 0,
    }
}

/// Every reply brings an enumeration closer to its end, and one entry that cannot be read
/// keeps it from ending well.
pub proof fn enumerations_end(s: EnumState, reply: Option<Seq<u8>>)
    requires
        enum_reachable(s),
        !enum_over(s.stage),
    ensures
        enum_reachable(enum_step(s, reply)),
        enum_left(enum_step(s, reply).stage) < enum_left(s.stage),
        enum_left(s.stage) <= 257,
        reply is None ==> !(enum_step(s, reply).stage is Done),
        s.errors > 0 ==> enum_step(s, reply).errors > 0 && !(enum_step(s, reply).stage is Done),
{
}

/// The table that a list of entries gives: the root, the feature set, and each entry's code
/// under its number, counted from 1.
pub open spec fn entry_table(fs_index: u8, entries: Seq<Seq<u8>>) -> Map<u16, u8>
    decreases entries.len(),
{
    if entries.len() == 0 {
        Map::<u16, u8>::empty().insert(ROOT, 0).insert(FEATURE_SET, fs_index)
    } else {
        let table = entry_table(fs_index, entries.drop_last());
        match entry_code(entries.last()) {
            Some(code) => table.insert(code, entries.len() as u8),
            None => table,
        }
    }
}

/// The replies of a device that answers every question.
pub open spec fn answered(locate: Seq<u8>, count: Seq<u8>, entries: Seq<Seq<u8>>) -> Seq<
    Option<Seq<u8>>,
> {
    seq![Some(locate), Some(count)] + Seq::new(entries.len(), |i: int| Some(entries[i]))
}

/// The state of an enumeration that has not asked anything.
pub open spec fn enum_start() -> EnumState {
    EnumState { stage: EnumStage::Locate, table: Map::empty(), errors: 0 }
}

/// The state after the first `n` entries.
proof fn lemma_entries_read(
    locate: Seq<u8>,
    count: Seq<u8>,
    entries: Seq<Seq<u8>>,
    n: int,
)
    requires
        found_index(locate) is Some,
        0 <= n <= entries.len(),
        byte_at(count, 0) == entries.len(),
    ensures
        enum_run(enum_start(), answered(locate, count, entries.take(n))) == (EnumState {
            stage: after_entry(found_index(locate)->Some_0, byte_at(count, 0), n as u8, 0),
            table: entry_table(found_index(locate)->Some_0, entries.take(n)),
            errors: 0,
        }),
    decreases n,
{
    let all = answered(locate, count, entries.take(n));
    if n == 0 {
        assert(all =~= seq![Some(locate), Some(count)]);
        assert(all.drop_last() =~= seq![Some(locate)]);
        assert(all.drop_last().drop_last() =~= Seq::<Option<Seq<u8>>>::empty());
        assert(enum_run(enum_start(), all.drop_last().drop_last()) == enum_start());
        assert(enum_run(enum_start(), all.drop_last()) == enum_step(enum_start(), Some(locate)));
        assert(enum_run(enum_start(), all) == enum_step(
            enum_step(enum_start(), Some(locate)),
            Some(count),
        ));
        assert(entries.take(0) =~= Seq::<Seq<u8>>::empty());
    } else {
        lemma_entries_read(locate, count, entries, n - 1);
        assert(all.drop_last() =~= answered(locate, count, entries.take(n - 1)));
        assert(all.last() == Some(entries[n - 1]));
        assert(entries.take(n).drop_last() =~= entries.take(n - 1));
    }
}

/// A device that answers every question ends with a complete table.
pub proof fn enumeration_reads_every_entry(
    locate: Seq<u8>,
    count: Seq<u8>,
    entries: Seq<Seq<u8>>,
)
    requires
        found_index(locate) is Some,
        byte_at(count, 0) == entries.len(),
    ensures
        enum_run(enum_start(), answered(locate, count, entries)) == (EnumState {
            stage: EnumStage::Done,
            table: entry_table(found_index(locate)->Some_0, entries),
            errors: 0,
        }),
{
    lemma_entries_read(locate, count, entries, entries.len() as int);
    assert(entries.take(entries.len() as int) =~= entries);
}

/// The feature set is located through the root, by its code; it is then asked for the number
/// of its entries and for each entry by its number.
pub proof fn enumerations_ask_in_order(
    e: FeatureEnumeration,
    m: &mut HidppMessenger,
    devnum: u8,
    r: Option<Vec<u8>>,
)
    requires
        call_ensures(FeatureEnumeration::next_request, (&e, m, devnum), r),
    ensures
        e.stage is Locate ==> r is Some && reads_as(r->Some_0@, devnum, 0, 0x01, seq![0u8, 0x01]),
        e.stage matches EnumStage::Count { fs_index } ==> r is Some && reads_as(
            r->Some_0@,
            devnum,
            fs_index,
            0x01,
            Seq::empty(),
        ),
        e.stage matches EnumStage::Entry { fs_index, entry, .. } ==> r is Some && reads_as(
            r->Some_0@,
            devnum,
            fs_index,
            0x11,
            seq![entry],
        ),
        r is None <==> e.stage is Done || e.stage is Failed || e.stage is Incomplete,
{
    odd_bytes(0x00);
    odd_bytes(0x10);
}

/// The replies are taken over as they come: the index of the feature set, the number of
/// entries, then each entry's code, high byte first, under the entry's number.
pub proof fn enumerations_take_replies_over(e: &mut FeatureEnumeration, reply: &[u8])
    requires
        old(e).wf(),
        call_ensures(FeatureEnumeration::advance, (e, Some(reply)), ()),
    ensures
        old(e).stage is Locate && reply@.len() > 0 && reply@[0] > 0 ==> final(e).stage == (
        EnumStage::Count { fs_index: reply@[0] }),
        old(e).stage is Locate && (reply@.len() == 0 || reply@[0] == 0) ==> final(e).stage is Done
            && final(e).table@ == old(e).table@,
        old(e).stage matches EnumStage::Count { fs_index } ==> {
            &&& final(e).table@ == old(e).table@.insert(0x0000, 0).insert(0x0001, fs_index)
            &&& reply@.len() > 0 && reply@[0] > 0 ==> final(e).stage == (EnumStage::Entry {
                fs_index,
                count: reply@[0],
                entry: 1,
            })
            &&& reply@.len() == 0 || reply@[0] == 0 ==> final(e).stage is Done
        },
        old(e).stage matches EnumStage::Entry { fs_index, count, entry } ==> {
            &&& reply@.len() >= 2 && 256 * reply@[0] + reply@[1] > 0 ==> final(e).table@
                == old(e).table@.insert((256 * reply@[0] + reply@[1]) as u16, entry)
            &&& reply@.len() < 2 || 256 * reply@[0] + reply@[1] == 0 ==> final(e).table@
                == old(e).table@
            &&& final(e).errors == old(e).errors
            &&& entry < count ==> final(e).stage == (EnumStage::Entry {
                fs_index,
                count,
                entry: (entry + 1) as u8,
            })
            &&& entry == count && old(e).errors == 0 ==> final(e).stage is Done
            &&& entry == count && old(e).errors > 0 ==> final(e).stage == (EnumStage::Incomplete {
                errors: old(e).errors,
                count,
            })
        },
{
}

/// A question that fails before the entries ends the enumeration; one about an entry is
/// counted and the next entry asked for.
pub proof fn failed_questions_are_counted(e: &mut FeatureEnumeration)
    requires
        old(e).wf(),
        call_ensures(FeatureEnumeration::advance, (e, None::<&[u8]>), ()),
    ensures
        old(e).stage is Locate || old(e).stage is Count ==> final(e).stage is Failed,
        final(e).table@ == old(e).table@,
        old(e).stage matches EnumStage::Entry { fs_index, count, entry } ==> {
            &&& final(e).errors == old(e).errors + 1
            &&& entry < count ==> final(e).stage == (EnumStage::Entry {
                fs_index,
                count,
                entry: (entry + 1) as u8,
            })
            &&& entry == count ==> final(e).stage == (EnumStage::Incomplete {
                errors: (old(e).errors + 1) as u32,
                count,
            })
        },
{
}

/// The index of a feature is the first byte of the root's reply; zero is none.
pub proof fn indices_are_the_first_byte(reply: &[u8], r: Option<u8>)
    requires
        call_ensures(get_feature_index, (reply,), r),
    ensures
        r is Some <==> reply@.len() > 0 && reply@[0] > 0,
        r is Some ==> r->Some_0 == reply@[0],
{
}

} // verus!
