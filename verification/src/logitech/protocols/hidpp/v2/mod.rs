//! HID++ 2.0: features that a device has under indices of its own.

use crate::logitech::protocols::hidpp::v2::feature::DEVICE_NAME;
use crate::logitech::protocols::hidpp::{
    byte_at, feature_packet, odd_bytes, reads_as, HidppMessenger, InflightRequest,
};
use crate::text::{drop_end, dropped_end, from_utf8_lossy, trim, trimmed, utf8_lossy};
use std::collections::HashMap;
use vstd::prelude::*;

pub mod audio;
pub mod battery;
pub mod feature;
pub mod firmware;
pub mod keys;
pub mod rgb;
pub mod settings;

verus! {

/// The features of one device.
#[derive(Debug)]
pub struct Hidpp20 {
    pub devnum: u8,
    pub features: HashMap<u16, u8>,
}

/// The index of a feature in a table.
pub open spec fn index_in(table: Map<u16, u8>, feature_code: u16) -> Option<u8> {
    if table.dom().contains(feature_code) {
        Some(table[feature_code])
    } else {
        None
    }
}

impl Hidpp20 {
    /// The features of a device that was enumerated.
    pub fn new(devnum: u8, features: HashMap<u16, u8>) -> (r: Self)
        ensures
            r.devnum == devnum,
            r.features == features,
    {
        Hidpp20 { devnum, features }
    }

    /// Whether the device has a feature.
    pub fn has(&self, feature_code: u16) -> (r: bool)
        ensures
            r == self.features@.dom().contains(feature_code),
    {
        broadcast use vstd::std_specs::hash::group_hash_axioms;

        self.features.contains_key(&feature_code)
    }

    /// The index of a feature.
    pub fn idx(&self, feature_code: u16) -> (r: Option<u8>)
        ensures
            r == index_in(self.features@, feature_code),
    {
        broadcast use vstd::std_specs::hash::group_hash_axioms;

        match self.features.get(&feature_code) {
            Some(i) => Some(*i),
            None => None,
        }
    }

    /// Whether `r` calls a function of a feature: the packet, with the request waiting, where
    /// the device has the feature, and nothing where it has not.
    pub open spec fn calls(
        &self,
        before: HidppMessenger,
        after: HidppMessenger,
        feature_code: u16,
        function: u8,
        params: Seq<u8>,
        r: Option<Vec<u8>>,
    ) -> bool {
        match (index_in(self.features@, feature_code), r) {
            (Some(i), Some(p)) => {
                &&& p@ == feature_packet(before.force_long, self.devnum, i, function, params)
                &&& after.inflight == Some(InflightRequest { devnum: self.devnum, sub_id: i })
                &&& after.force_long == before.force_long
            },
            (None, None) => after == before,
            _ => false,
        }
    }

    /// Calls a function under a known index.
    pub fn call(&self, msg: &mut HidppMessenger, idx: u8, function: u8, params: &[u8]) -> (r: Vec<
        u8,
    >)
        ensures
            r@ == feature_packet(old(msg).force_long, self.devnum, idx, function, params@),
            final(msg).inflight == Some(InflightRequest { devnum: self.devnum, sub_id: idx }),
            final(msg).force_long == old(msg).force_long,
    {
        msg.feature_request(self.devnum, idx, function, params)
    }

    /// Calls a function of a feature; nothing where the device lacks it.
    pub fn request(
        &self,
        msg: &mut HidppMessenger,
        feature_code: u16,
        function: u8,
        params: &[u8],
    ) -> (r: Option<Vec<u8>>)
        ensures
            self.calls(*old(msg), *final(msg), feature_code, function, params@, r),
    {
        match self.idx(feature_code) {
            Some(i) => Some(self.call(msg, i, function, params)),
            None => None,
        }
    }

    /// Calls a function of a feature without parameters.
    pub fn request_plain(&self, msg: &mut HidppMessenger, feature_code: u16, function: u8) -> (r:
        Option<Vec<u8>>)
        ensures
            self.calls(*old(msg), *final(msg), feature_code, function, Seq::empty(), r),
    {
        let params: [u8; 0] = [];
        proof {
            assert(params@ =~= Seq::<u8>::empty());
        }
        self.request(msg, feature_code, function, &params)
    }

    /// Calls a function of a feature with one parameter.
    pub fn request_byte(
        &self,
        msg: &mut HidppMessenger,
        feature_code: u16,
        function: u8,
        param: u8,
    ) -> (r: Option<Vec<u8>>)
        ensures
            self.calls(*old(msg), *final(msg), feature_code, function, seq![param], r),
    {
        let params: [u8; 1] = [param];
        proof {
            assert(params@ =~= seq![param]);
        }
        self.request(msg, feature_code, function, &params)
    }

    /// Calls a function of a feature with three parameters.
    pub fn request_three(
        &self,
        msg: &mut HidppMessenger,
        feature_code: u16,
        function: u8,
        a: u8,
        b: u8,
        c: u8,
    ) -> (r: Option<Vec<u8>>)
        ensures
            self.calls(*old(msg), *final(msg), feature_code, function, seq![a, b, c], r),
    {
        let params: [u8; 3] = [a, b, c];
        proof {
            assert(params@ =~= seq![a, b, c]);
        }
        self.request(msg, feature_code, function, &params)
    }

    /// Asks for the length of the device's name.
    pub fn device_name_length_request(&self, msg: &mut HidppMessenger) -> (r: Option<Vec<u8>>)
        ensures
            self.calls(*old(msg), *final(msg), DEVICE_NAME, 0x00, Seq::empty(), r),
    {
        self.request_plain(msg, DEVICE_NAME, 0x00)
    }

    /// Asks for a part of the device's name.
    pub fn device_name_part_request(&self, msg: &mut HidppMessenger, offset: u8) -> (r: Option<
        Vec<u8>,
    >)
        ensures
            self.calls(*old(msg), *final(msg), DEVICE_NAME, 0x10, seq![offset], r),
    {
        self.request_byte(msg, DEVICE_NAME, 0x10, offset)
    }
}

/// A device's name while it is read part by part.
#[derive(Debug)]
pub struct NameReader {
    pub len: usize,
    pub bytes: Vec<u8>,
    pub ended: bool,
}

/// The name that bytes spell: without zeros at the end and white space around it; none if
/// nothing is left.
pub open spec fn spelled_name(bytes: Seq<u8>) -> Option<Seq<char>> {
    let name = trim(drop_end(utf8_lossy(bytes), '\0', '\0'));
    if name.len() == 0 {
        None
    } else {
        Some(name)
    }
}

impl NameReader {
    /// No more is read than the device announced.
    pub open spec fn wf(&self) -> bool {
        self.bytes@.len() <= self.len <= 255
    }

    /// The bytes after another part: as much of it as is still missing.
    pub open spec fn with_part(&self, part: Seq<u8>) -> Seq<u8> {
        let missing = self.len - self.bytes@.len();
        self.bytes@ + if part.len() < missing {
            part
        } else {
            part.take(missing)
        }
    }

    /// A name whose length was asked for; a failed question leaves nothing to read.
    pub fn new(reply: Option<&[u8]>) -> (r: Self)
        ensures
            r.wf(),
            r.len == match reply {
                Some(data) => byte_at(data@, 0) as usize,
                None => 0,
            },
            r.bytes@.len() == 0,
            !r.ended,
    {
        let len: usize = match reply {
            Some(data) => if data.len() > 0 {
                data[0] as usize
            } else {
                0
            },
            None => 0,
        };
        NameReader { len, bytes: Vec::new(), ended: false }
    }

    /// Where the next part starts; none when the name is complete or cannot be read on.
    pub fn next_offset(&self) -> (r: Option<u8>)
        requires
            self.wf(),
        ensures
            r == if !self.ended && self.bytes@.len() < self.len {
                Some(self.bytes@.len() as u8)
            } else {
                None
            },
    {
        if !self.ended && self.bytes.len() < self.len {
            Some(self.bytes.len() as u8)
        } else {
            None
        }
    }

    /// Takes a part over; a failed question or an empty part ends the reading.
    pub fn advance(&mut self, reply: Option<&[u8]>)
        requires
            old(self).wf(),
            !old(self).ended,
            old(self).bytes@.len() < old(self).len,
        ensures
            final(self).wf(),
            final(self).len == old(self).len,
            match reply {
                Some(part) => {
                    &&& final(self).bytes@ == old(self).with_part(part@)
                    &&& final(self).ended == (part@.len() == 0)
                },
                None => final(self).ended && final(self).bytes@ == old(self).bytes@,
            },
    {
        match reply {
            Some(part) => {
                let missing: usize = self.len - self.bytes.len();
                let take: usize = if part.len() < missing {
                    part.len()
                } else {
                    missing
                };
                if take == 0 {
                    self.ended = true;
                }
                let ghost before = self.bytes@;
                let mut i: usize = 0;
                while i < take
                    invariant
                        i <= take <= part@.len(),
                        self.len == old(self).len,
                        self.ended == (take == 0),
                        before == old(self).bytes@,
                        self.bytes@ =~= before + part@.take(i as int),
                        before.len() + take <= self.len <= 255,
                    decreases take - i,
                {
                    self.bytes.push(part[i]);
                    i = i + 1;
                }
                proof {
                    if take == part@.len() {
                        assert(part@.take(take as int) =~= part@);
                    }
                }
            },
            None => {
                self.ended = true;
            },
        }
    }

    /// The name read so far.
    pub fn device_name(&self) -> (r: Option<String>)
        ensures
            match (r, spelled_name(self.bytes@)) {
                (Some(a), Some(b)) => a@ == b,
                (None, None) => true,
                _ => false,
            },
    {
        let text: String = from_utf8_lossy(self.bytes.as_slice());
        let cut: String = dropped_end(text.as_str(), '\0', '\0');
        let name: String = trimmed(cut.as_str());
        if name.as_str().unicode_len() == 0 {
            None
        } else {
            Some(name)
        }
    }
}

/// Reading a name comes to an end: every part that does not end it brings it closer to its
/// length.
pub proof fn names_are_read_to_the_end(r: NameReader, part: Seq<u8>)
    requires
        r.wf(),
        r.bytes@.len() < r.len,
        part.len() > 0,
    ensures
        r.bytes@.len() < r.with_part(part).len() <= r.len,
{
}

/// Whether a packet calls a function of a feature: it exists exactly where the device has
/// the feature, and then names the device, the feature's index and the function byte, which
/// ends in the number of this program, before the parameters.
pub open spec fn asks(
    d: Hidpp20,
    feature_code: u16,
    func_byte: u8,
    params: Seq<u8>,
    r: Option<Vec<u8>>,
) -> bool {
    &&& r is Some <==> d.features@.contains_key(feature_code)
    &&& r matches Some(p) ==> reads_as(
        p@,
        d.devnum,
        d.features@[feature_code],
        func_byte,
        params,
    )
}

/// Calling a function makes a packet that asks for it, and waits for the reply under the
/// index of the feature.
pub(crate) proof fn calls_ask(
    d: Hidpp20,
    before: HidppMessenger,
    after: HidppMessenger,
    feature_code: u16,
    function: u8,
    params: Seq<u8>,
    r: Option<Vec<u8>>,
)
    requires
        d.calls(before, after, feature_code, function, params, r),
        function % 2 == 0,
        params.len() <= 16,
    ensures
        asks(d, feature_code, (function + 1) as u8, params, r),
        r is Some ==> after.inflight == Some(
            InflightRequest { devnum: d.devnum, sub_id: d.features@[feature_code] },
        ),
        r is None ==> after == before,
{
    odd_bytes(function);
}

/// A feature is called under the index that the device has it at, whatever the function and
/// the parameters; a feature that the device lacks is not called.
pub proof fn requests_name_the_feature(
    d: Hidpp20,
    feature_code: u16,
    function: u8,
    params: &[u8],
    byte: u8,
    three: (u8, u8, u8),
    m1: &mut HidppMessenger,
    m2: &mut HidppMessenger,
    m3: &mut HidppMessenger,
    m4: &mut HidppMessenger,
    r1: Option<Vec<u8>>,
    r2: Option<Vec<u8>>,
    r3: Option<Vec<u8>>,
    r4: Option<Vec<u8>>,
)
    requires
        function % 2 == 0,
        params@.len() <= 16,
        call_ensures(Hidpp20::request, (&d, m1, feature_code, function, params), r1),
        call_ensures(Hidpp20::request_plain, (&d, m2, feature_code, function), r2),
        call_ensures(Hidpp20::request_byte, (&d, m3, feature_code, function, byte), r3),
        call_ensures(
            Hidpp20::request_three,
            (&d, m4, feature_code, function, three.0, three.1, three.2),
            r4,
        ),
    ensures
        asks(d, feature_code, (function + 1) as u8, params@, r1),
        asks(d, feature_code, (function + 1) as u8, Seq::empty(), r2),
        asks(d, feature_code, (function + 1) as u8, seq![byte], r3),
        asks(d, feature_code, (function + 1) as u8, seq![three.0, three.1, three.2], r4),
        r1 is Some ==> final(m1).inflight == Some(
            InflightRequest { devnum: d.devnum, sub_id: d.features@[feature_code] },
        ),
        r1 is None ==> *final(m1) == *old(m1),
{
    calls_ask(d, *old(m1), *final(m1), feature_code, function, params@, r1);
    calls_ask(d, *old(m2), *final(m2), feature_code, function, Seq::empty(), r2);
    calls_ask(d, *old(m3), *final(m3), feature_code, function, seq![byte], r3);
    calls_ask(d, *old(m4), *final(m4), feature_code, function, seq![three.0, three.1, three.2], r4);
}

/// A device has exactly the features of its table, each under the index there.
pub proof fn features_are_looked_up(d: Hidpp20, code: u16, has: bool, idx: Option<u8>)
    requires
        call_ensures(Hidpp20::has, (&d, code), has),
        call_ensures(Hidpp20::idx, (&d, code), idx),
    ensures
        has <==> d.features@.contains_key(code),
        idx is Some <==> has,
        has ==> idx == Some(d.features@[code]),
{
}

/// The name is asked for through feature 0x0005: its length by function zero, its parts by
/// function one from their offset.
pub proof fn names_are_asked_for(
    d: Hidpp20,
    a: &mut HidppMessenger,
    b: &mut HidppMessenger,
    offset: u8,
    length: Option<Vec<u8>>,
    part: Option<Vec<u8>>,
)
    requires
        call_ensures(Hidpp20::device_name_length_request, (&d, a), length),
        call_ensures(Hidpp20::device_name_part_request, (&d, b, offset), part),
    ensures
        asks(d, 0x0005, 0x01, Seq::empty(), length),
        asks(d, 0x0005, 0x11, seq![offset], part),
{
    calls_ask(d, *old(a), *final(a), 0x0005, 0x00, Seq::empty(), length);
    calls_ask(d, *old(b), *final(b), 0x0005, 0x10, seq![offset], part);
}

/// A name is read from its start, each part from where the last one ended, as far as the
/// announced length; a failed or empty part ends the reading.
pub proof fn names_are_read_part_by_part(
    r: &mut NameReader,
    part: &[u8],
    at: Option<u8>,
    after: Option<u8>,
)
    requires
        old(r).wf(),
        call_ensures(NameReader::next_offset, (old(r),), at),
        at is Some,
        call_ensures(NameReader::advance, (r, Some(part)), ()),
        call_ensures(NameReader::next_offset, (final(r),), after),
    ensures
        at->Some_0 == old(r).bytes@.len(),
        final(r).bytes@.len() <= final(r).len,
        part@.len() == 0 ==> after is None && final(r).bytes@ == old(r).bytes@,
        forall|i: int| 0 <= i < old(r).bytes@.len() ==> final(r).bytes@[i] == old(r).bytes@[i],
        forall|i: int|
            0 <= i < part@.len() && old(r).bytes@.len() + i < old(r).len
                ==> final(r).bytes@[old(r).bytes@.len() + i] == part@[i],
        part@.len() > 0 && old(r).bytes@.len() + part@.len() < old(r).len ==> after == Some(
            (old(r).bytes@.len() + part@.len()) as u8,
        ),
        old(r).bytes@.len() + part@.len() >= old(r).len ==> after is None && final(r).bytes@.len()
            == old(r).len,
{
}

/// The length is announced in the first byte.
pub proof fn names_announce_their_length(reply: &[u8], r: NameReader, none: NameReader)
    requires
        call_ensures(NameReader::new, (Some(reply),), r),
        call_ensures(NameReader::new, (None::<&[u8]>,), none),
    ensures
        reply@.len() > 0 ==> r.len == reply@[0],
        reply@.len() == 0 ==> r.len == 0,
        none.len == 0,
        r.bytes@.len() == 0 && !r.ended,
{
}

/// A name is what its bytes spell without the zeros behind it and the white space around it;
/// nothing is no name.
pub proof fn names_are_what_their_bytes_spell(reader: NameReader, r: Option<String>)
    requires
        call_ensures(NameReader::device_name, (&reader,), r),
    ensures
        ({
            let text = utf8_lossy(reader.bytes@);
            let name = trim(drop_end(text, '\0', '\0'));
            &&& r is Some <==> name.len() > 0
            &&& r is Some ==> r->Some_0@ == name
        }),
{
}

/// A call under a known index goes to the device under that index, and waits for it.
pub proof fn calls_go_under_their_index(
    d: Hidpp20,
    devnum: u8,
    features: HashMap<u16, u8>,
    m: &mut HidppMessenger,
    idx: u8,
    function: u8,
    params: &[u8],
    r: Vec<u8>,
)
    requires
        call_ensures(Hidpp20::new, (devnum, features), d),
        call_ensures(Hidpp20::call, (&d, m, idx, function, params), r),
    ensures
        d.features == features,
        r@.len() >= 4 && r@[1] == devnum && r@[2] == idx,
        final(m).inflight == Some(InflightRequest { devnum, sub_id: idx }),
        final(m).force_long == old(m).force_long,
{
}

} // verus!
