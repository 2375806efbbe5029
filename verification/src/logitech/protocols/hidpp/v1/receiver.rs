//! Receivers: paired devices, the pairing lock, and what receivers report of both.

use crate::bytes::u16_be;
use crate::logitech::protocols::hidpp::v1::{
    Hidpp10, INFO_EXTENDED_PAIRING, INFO_PAIRING, PAIRING_CLOSE_LOCK, PAIRING_OPEN_LOCK,
    PAIRING_UNPAIR, REG_DEVICE_COUNT, REG_RECEIVER_INFO, REG_RECEIVER_PAIRING,
};
use crate::logitech::protocols::hidpp::{
    byte_at, read_packet, read_sub_id, write_packet, HidppMessenger, InflightRequest,
};
use crate::text::{hex_value, push_upper_hex, upper_hex, upper_hex_reads_back};
use vstd::prelude::*;

verus! {

/// A paired device.
#[derive(Debug)]
pub struct PairedDevice {
    pub devnum: u8,
    pub wpid: u16,
    pub serial: Option<String>,
}

/// The product id in pairing information; `None` for an empty slot.
pub open spec fn paired_wpid(pair: Seq<u8>) -> Option<u16> {
    if pair.len() < 8 {
        None
    } else {
        let wpid = pair[3] as int * 256 + pair[4] as int;
        if wpid == 0 || wpid == 0xFFFF {
            None
        } else {
            Some(wpid as u16)
        }
    }
}

/// The serial number in extended pairing information: four bytes in hexadecimal; `None`
/// where the information is short or the bytes are all zeros or all ones.
pub open spec fn extended_serial(ext: Seq<u8>) -> Option<Seq<char>> {
    if ext.len() < 5 {
        None
    } else if ext.subrange(1, 5) == seq![0xFFu8, 0xFFu8, 0xFFu8, 0xFFu8] || ext.subrange(1, 5)
        == seq![0u8, 0u8, 0u8, 0u8] {
        None
    } else {
        Some(
            upper_hex(ext[1] as nat, 2) + upper_hex(ext[2] as nat, 2) + upper_hex(
                ext[3] as nat,
                2,
            ) + upper_hex(ext[4] as nat, 2),
        )
    }
}

/// Reads the serial number from extended pairing information.
pub fn parse_extended_serial(ext: &[u8]) -> (r: Option<String>)
    ensures
        match (r, extended_serial(ext@)) {
            (Some(a), Some(b)) => a@ == b,
            (None, None) => true,
            _ => false,
        },
{
    if ext.len() < 5 {
        return None;
    }
    let (a, b, c, d): (u8, u8, u8, u8) = (ext[1], ext[2], ext[3], ext[4]);
    let ones = a == 0xFF && b == 0xFF && c == 0xFF && d == 0xFF;
    let zeros = a == 0 && b == 0 && c == 0 && d == 0;
    proof {
        let s = ext@.subrange(1, 5);
        assert(s[0] == a && s[1] == b && s[2] == c && s[3] == d);
        assert(ones == (s == seq![0xFFu8, 0xFFu8, 0xFFu8, 0xFFu8])) by {
            if ones {
                assert(s =~= seq![0xFFu8, 0xFFu8, 0xFFu8, 0xFFu8]);
            }
        }
        assert(zeros == (s == seq![0u8, 0u8, 0u8, 0u8])) by {
            if zeros {
                assert(s =~= seq![0u8, 0u8, 0u8, 0u8]);
            }
        }
    }
    if ones || zeros {
        return None;
    }
    let mut out: String = String::new();
    push_upper_hex(&mut out, a as u64, 2);
    push_upper_hex(&mut out, b as u64, 2);
    push_upper_hex(&mut out, c as u64, 2);
    push_upper_hex(&mut out, d as u64, 2);
    proof {
        assert(out@ =~= upper_hex(a as nat, 2) + upper_hex(b as nat, 2) + upper_hex(c as nat, 2)
            + upper_hex(d as nat, 2));
    }
    Some(out)
}

impl Hidpp10 {
    /// Asks the receiver to report every paired device again.
    pub fn notify_devices(&self) -> (r: Vec<u8>)
        ensures
            r@ == write_packet(self.devnum, REG_DEVICE_COUNT, seq![0x02u8]),
    {
        let params: [u8; 1] = [0x02];
        proof {
            assert(params@ =~= seq![0x02u8]);
        }
        self.write(REG_DEVICE_COUNT, &params)
    }

    /// Asks for the number of paired devices.
    pub fn device_count_request(&self, msg: &mut HidppMessenger) -> (r: Vec<u8>)
        ensures
            r@ == read_packet(self.devnum, REG_DEVICE_COUNT, Seq::empty()),
            final(msg).inflight == Some(
                InflightRequest {
                    devnum: self.devnum,
                    sub_id: read_sub_id(REG_DEVICE_COUNT),
                },
            ),
            final(msg).force_long == old(msg).force_long,
    {
        let params: [u8; 0] = [];
        proof {
            assert(params@ =~= Seq::<u8>::empty());
        }
        self.read(msg, REG_DEVICE_COUNT, &params)
    }

    /// The number of paired devices in a reply; 0 where the question failed.
    pub fn device_count(reply: Option<&[u8]>) -> (r: u8)
        ensures
            r == match reply {
                Some(data) => byte_at(data@, 1),
                None => 0,
            },
    {
        match reply {
            Some(data) => if data.len() > 1 {
                data[1]
            } else {
                0
            },
            None => 0,
        }
    }

    /// Asks for the pairing information of a slot, counted from 1.
    pub fn pairing_request(&self, msg: &mut HidppMessenger, slot: u8) -> (r: Vec<u8>)
        requires
            slot <= 0xDF,
        ensures
            r@ == read_packet(
                self.devnum,
                REG_RECEIVER_INFO,
                seq![(INFO_PAIRING + slot - 1) as u8],
            ),
            final(msg).inflight == Some(
                InflightRequest {
                    devnum: self.devnum,
                    sub_id: read_sub_id(REG_RECEIVER_INFO),
                },
            ),
            final(msg).force_long == old(msg).force_long,
    {
        let params: [u8; 1] = [INFO_PAIRING + slot - 1];
        proof {
            assert(params@ =~= seq![(INFO_PAIRING + slot - 1) as u8]);
        }
        self.read(msg, REG_RECEIVER_INFO, &params)
    }

    /// Asks for the extended pairing information of a slot, counted from 1.
    pub fn extended_pairing_request(&self, msg: &mut HidppMessenger, slot: u8) -> (r: Vec<u8>)
        requires
            slot <= 0xCF,
        ensures
            r@ == read_packet(
                self.devnum,
                REG_RECEIVER_INFO,
                seq![(INFO_EXTENDED_PAIRING + slot - 1) as u8],
            ),
            final(msg).inflight == Some(
                InflightRequest {
                    devnum: self.devnum,
                    sub_id: read_sub_id(REG_RECEIVER_INFO),
                },
            ),
            final(msg).force_long == old(msg).force_long,
    {
        let params: [u8; 1] = [INFO_EXTENDED_PAIRING + slot - 1];
        proof {
            assert(params@ =~= seq![(INFO_EXTENDED_PAIRING + slot - 1) as u8]);
        }
        self.read(msg, REG_RECEIVER_INFO, &params)
    }

    /// The device in a slot, from both replies; `None` where the first question failed or
    /// the slot is empty. The serial number is optional.
    pub fn paired_info(slot: u8, pair: Option<&[u8]>, ext: Option<&[u8]>) -> (r: Option<
        PairedDevice,
    >)
        ensures
            match r {
                Some(d) => {
                    &&& pair is Some
                    &&& paired_wpid(pair->Some_0@) == Some(d.wpid)
                    &&& d.devnum == slot
                    &&& match (
                        d.serial,
                        match ext {
                            Some(e) => extended_serial(e@),
                            None => None,
                        },
                    ) {
                        (Some(a), Some(b)) => a@ == b,
                        (None, None) => true,
                        _ => false,
                    }
                },
                None => pair is None || paired_wpid(pair->Some_0@) is None,
            },
    {
        let pair = match pair {
            Some(p) => p,
            None => {
                return None;
            },
        };
        if pair.len() < 8 {
            return None;
        }
        let wpid: u16 = u16_be(pair[3], pair[4]);
        if wpid == 0 || wpid == 0xFFFF {
            return None;
        }
        let serial = match ext {
            Some(e) => parse_extended_serial(e),
            None => None,
        };
        Some(PairedDevice { devnum: slot, wpid, serial })
    }

    /// Opens the pairing lock for a time.
    pub fn open_pairing_lock(&self, timeout_secs: u8) -> (r: Vec<u8>)
        ensures
            r@ == write_packet(
                self.devnum,
                REG_RECEIVER_PAIRING,
                seq![PAIRING_OPEN_LOCK, 0u8, timeout_secs],
            ),
    {
        let params: [u8; 3] = [PAIRING_OPEN_LOCK, 0x00, timeout_secs];
        proof {
            assert(params@ =~= seq![PAIRING_OPEN_LOCK, 0u8, timeout_secs]);
        }
        self.write(REG_RECEIVER_PAIRING, &params)
    }

    /// Closes the pairing lock.
    pub fn close_pairing_lock(&self) -> (r: Vec<u8>)
        ensures
            r@ == write_packet(
                self.devnum,
                REG_RECEIVER_PAIRING,
                seq![PAIRING_CLOSE_LOCK, 0u8, 0u8],
            ),
    {
        let params: [u8; 3] = [PAIRING_CLOSE_LOCK, 0x00, 0x00];
        proof {
            assert(params@ =~= seq![PAIRING_CLOSE_LOCK, 0u8, 0u8]);
        }
        self.write(REG_RECEIVER_PAIRING, &params)
    }

    /// Frees a slot.
    pub fn unpair(&self, slot: u8) -> (r: Vec<u8>)
        ensures
            r@ == write_packet(self.devnum, REG_RECEIVER_PAIRING, seq![PAIRING_UNPAIR, slot]),
    {
        let params: [u8; 2] = [PAIRING_UNPAIR, slot];
        proof {
            assert(params@ =~= seq![PAIRING_UNPAIR, slot]);
        }
        self.write(REG_RECEIVER_PAIRING, &params)
    }
}

/// Why the pairing lock closed without a device.
#[derive(Debug, Clone, Copy, PartialEq, Eq, Structural)]
pub enum PairingError {
    DeviceTimeout,
    NotSupported,
    TooManyDevices,
    SequenceTimeout,
    Unknown(u8),
}

/// The meaning of an error code.
pub open spec fn pairing_error(code: u8) -> PairingError {
    if code == 0x01 {
        PairingError::DeviceTimeout
    } else if code == 0x02 {
        PairingError::NotSupported
    } else if code == 0x03 {
        PairingError::TooManyDevices
    } else if code == 0x06 {
        PairingError::SequenceTimeout
    } else {
        PairingError::Unknown(code)
    }
}

impl PairingError {
    /// Reads an error code.
    pub fn from_code(code: u8) -> (r: Self)
        ensures
            r == pairing_error(code),
    {
        match code {
            0x01 => PairingError::DeviceTimeout,
            0x02 => PairingError::NotSupported,
            0x03 => PairingError::TooManyDevices,
            0x06 => PairingError::SequenceTimeout,
            other => PairingError::Unknown(other),
        }
    }

    /// The error in words.
    pub fn message(self) -> (r: &'static str)
        ensures
            r == match self {
                PairingError::DeviceTimeout => "no device found before the pairing window closed",
                PairingError::NotSupported => "pairing is not supported by this receiver",
                PairingError::TooManyDevices => "no free pairing slot on the receiver",
                PairingError::SequenceTimeout => "the pairing sequence timed out",
                PairingError::Unknown(_) => "pairing failed",
            },
    {
        match self {
            PairingError::DeviceTimeout => "no device found before the pairing window closed",
            PairingError::NotSupported => "pairing is not supported by this receiver",
            PairingError::TooManyDevices => "no free pairing slot on the receiver",
            PairingError::SequenceTimeout => "the pairing sequence timed out",
            PairingError::Unknown(_) => "pairing failed",
        }
    }
}

/// The state of the pairing lock.
#[derive(Debug, Clone, Copy, PartialEq, Eq, Structural)]
pub struct PairingLockStatus {
    pub open: bool,
    pub error: Option<PairingError>,
}

/// The state of the pairing lock in a notification: the lowest address bit tells whether it
/// is open, and for a closed lock the first data byte is an error code or 0.
pub open spec fn lock_status(address: u8, data: Seq<u8>) -> PairingLockStatus {
    let open = address % 2 == 1;
    let code = byte_at(data, 0);
    PairingLockStatus {
        open,
        error: if !open && code != 0 {
            Some(pairing_error(code))
        } else {
            None
        },
    }
}

/// Reads the state of the pairing lock from a notification.
pub fn decode_pairing_lock(address: u8, data: &[u8]) -> (r: PairingLockStatus)
    ensures
        r == lock_status(address, data@),
{
    let open = address % 2 == 1;
    let code: u8 = if data.len() > 0 {
        data[0]
    } else {
        0
    };
    let error = if !open && code != 0 {
        Some(PairingError::from_code(code))
    } else {
        None
    };
    PairingLockStatus { open, error }
}

/// Whether a connection notification reports an established link: bit 6 of the first byte
/// is set where it is not. Without data there is no link.
pub open spec fn link_established(data: Seq<u8>) -> bool {
    data.len() > 0 && (data[0] / 64) % 2 == 0
}

/// Reads the link state from a connection notification.
pub fn decode_link_established(data: &[u8]) -> (r: bool)
    ensures
        r == link_established(data@),
{
    data.len() > 0 && (data[0] / 64) % 2 == 0
}

/// An open lock never reports an error, and a closed one reports none exactly when its
/// error code is 0 or missing.
pub proof fn open_locks_have_no_error(address: u8, data: Seq<u8>)
    ensures
        lock_status(address, data).open ==> lock_status(address, data).error is None,
        !lock_status(address, data).open ==> (lock_status(address, data).error is None
            <==> byte_at(data, 0) == 0),
{
}

/// A receiver is asked for its devices, and told to pair and unpair, through these registers.
pub proof fn receivers_are_driven_by_register(
    d: Hidpp10,
    slot: u8,
    timeout_secs: u8,
    a: &mut HidppMessenger,
    b: &mut HidppMessenger,
    c: &mut HidppMessenger,
    notify: Vec<u8>,
    count: Vec<u8>,
    pairing: Vec<u8>,
    extended: Vec<u8>,
    open: Vec<u8>,
    close: Vec<u8>,
    unpair: Vec<u8>,
)
    requires
        1 <= slot <= 6,
        call_ensures(Hidpp10::notify_devices, (&d,), notify),
        call_ensures(Hidpp10::device_count_request, (&d, a), count),
        call_ensures(Hidpp10::pairing_request, (&d, b, slot), pairing),
        call_ensures(Hidpp10::extended_pairing_request, (&d, c, slot), extended),
        call_ensures(Hidpp10::open_pairing_lock, (&d, timeout_secs), open),
        call_ensures(Hidpp10::close_pairing_lock, (&d,), close),
        call_ensures(Hidpp10::unpair, (&d, slot), unpair),
    ensures
        notify@ == seq![0x10u8, d.devnum, 0x80, 0x02, 0x02, 0, 0],
        count@ == seq![0x10u8, d.devnum, 0x81, 0x02, 0, 0, 0],
        pairing@ == seq![0x10u8, d.devnum, 0x83, 0xB5, (0x1F + slot) as u8, 0, 0],
        extended@ == seq![0x10u8, d.devnum, 0x83, 0xB5, (0x2F + slot) as u8, 0, 0],
        open@ == seq![0x10u8, d.devnum, 0x80, 0xB2, 0x01, 0, timeout_secs],
        close@ == seq![0x10u8, d.devnum, 0x80, 0xB2, 0x02, 0, 0],
        unpair@ == seq![0x10u8, d.devnum, 0x80, 0xB2, 0x03, slot, 0],
        final(a).inflight == Some(InflightRequest { devnum: d.devnum, sub_id: 0x81 }),
        final(b).inflight == Some(InflightRequest { devnum: d.devnum, sub_id: 0x83 }),
        final(c).inflight == Some(InflightRequest { devnum: d.devnum, sub_id: 0x83 }),
{
}

/// The number of paired devices is the second byte of the reply.
pub proof fn counts_are_the_second_byte(reply: &[u8], r: u8, none: u8)
    requires
        call_ensures(Hidpp10::device_count, (Some(reply),), r),
        call_ensures(Hidpp10::device_count, (None::<&[u8]>,), none),
    ensures
        reply@.len() >= 2 ==> r == reply@[1],
        reply@.len() < 2 ==> r == 0,
        none == 0,
{
}

/// A slot is taken where its pairing information holds a product id; the device then has the
/// slot's number, that id and, where there is one, the serial number.
pub proof fn taken_slots_hold_their_device(
    slot: u8,
    pair: &[u8],
    ext: &[u8],
    r: Option<PairedDevice>,
    bare: Option<PairedDevice>,
    silent: Option<PairedDevice>,
)
    requires
        call_ensures(Hidpp10::paired_info, (slot, Some(pair), Some(ext)), r),
        call_ensures(Hidpp10::paired_info, (slot, Some(pair), None::<&[u8]>), bare),
        call_ensures(Hidpp10::paired_info, (slot, None::<&[u8]>, Some(ext)), silent),
    ensures
        ({
            let wpid = 256 * pair@[3] + pair@[4];
            &&& r is Some <==> pair@.len() >= 8 && 0 < wpid < 0xFFFF
            &&& r is Some ==> r->Some_0.wpid == wpid && r->Some_0.devnum == slot
        }),
        bare is Some <==> r is Some,
        bare is Some ==> bare->Some_0.serial is None,
        silent is None,
        r is Some && ext@.len() >= 5 && !(ext@[1] == ext@[2] && ext@[2] == ext@[3] && ext@[3]
            == ext@[4] && (ext@[1] == 0 || ext@[1] == 0xFF)) ==> r->Some_0.serial is Some,
        r is Some && ext@.len() < 5 ==> r->Some_0.serial is None,
{
    if ext@.len() >= 5 {
        let s = ext@.subrange(1, 5);
        assert(s[0] == ext@[1] && s[1] == ext@[2] && s[2] == ext@[3] && s[3] == ext@[4]);
    }
}

/// A serial number is four bytes in upper-case hexadecimal, two digits each, in their order.
pub proof fn serials_spell_four_bytes(ext: &[u8], r: Option<String>)
    requires
        call_ensures(parse_extended_serial, (ext,), r),
    ensures
        r is Some ==> {
            let s = r->Some_0@;
            &&& ext@.len() >= 5
            &&& s.len() == 8
            &&& hex_value(s.subrange(0, 2)) == ext@[1]
            &&& hex_value(s.subrange(2, 4)) == ext@[2]
            &&& hex_value(s.subrange(4, 6)) == ext@[3]
            &&& hex_value(s.subrange(6, 8)) == ext@[4]
        },
        ext@.len() < 5 ==> r is None,
        ext@.len() >= 5 && ext@[1] == 0 && ext@[2] == 0 && ext@[3] == 0 && ext@[4] == 0 ==> r
            is None,
        ext@.len() >= 5 && ext@[1] == 0xFF && ext@[2] == 0xFF && ext@[3] == 0xFF && ext@[4] == 0xFF
            ==> r is None,
{
    if ext@.len() >= 5 {
        let s = ext@.subrange(1, 5);
        if ext@[1] == 0 && ext@[2] == 0 && ext@[3] == 0 && ext@[4] == 0 {
            assert(s =~= seq![0u8, 0u8, 0u8, 0u8]);
        }
        if ext@[1] == 0xFF && ext@[2] == 0xFF && ext@[3] == 0xFF && ext@[4] == 0xFF {
            assert(s =~= seq![0xFFu8, 0xFFu8, 0xFFu8, 0xFFu8]);
        }
        let (a, b, c, d) = (ext@[1] as nat, ext@[2] as nat, ext@[3] as nat, ext@[4] as nat);
        lemma_two_digits(a);
        lemma_two_digits(b);
        lemma_two_digits(c);
        lemma_two_digits(d);
        if r is Some {
            let t = r->Some_0@;
            assert(t.subrange(0, 2) =~= upper_hex(a, 2));
            assert(t.subrange(2, 4) =~= upper_hex(b, 2));
            assert(t.subrange(4, 6) =~= upper_hex(c, 2));
            assert(t.subrange(6, 8) =~= upper_hex(d, 2));
        }
    }
}

/// A byte takes two digits.
proof fn lemma_two_digits(n: nat)
    requires
        n < 256,
    ensures
        upper_hex(n, 2).len() == 2,
        hex_value(upper_hex(n, 2)) == n,
{
    upper_hex_reads_back(n, 2);
    reveal_with_fuel(upper_hex, 4);
}

/// The lock is open where the lowest address bit is set; a closed one names the error in its
/// first byte, by these codes.
pub proof fn lock_errors_have_their_codes(address: u8, data: &[u8], r: PairingLockStatus)
    requires
        call_ensures(decode_pairing_lock, (address, data), r),
    ensures
        r.open <==> address & 1 == 1,
        r.open || data@.len() == 0 ==> r.error is None,
        !r.open && data@.len() > 0 ==> r.error == match data@[0] {
            0x00 => None,
            0x01 => Some(PairingError::DeviceTimeout),
            0x02 => Some(PairingError::NotSupported),
            0x03 => Some(PairingError::TooManyDevices),
            0x06 => Some(PairingError::SequenceTimeout),
            code => Some(PairingError::Unknown(code)),
        },
{
    assert(address & 1 == address % 2) by (bit_vector);
}

/// A link stands where bit 6 of the first byte is clear.
pub proof fn links_stand_without_bit_six(data: &[u8], r: bool)
    requires
        call_ensures(decode_link_established, (data,), r),
    ensures
        data@.len() == 0 ==> !r,
        data@.len() > 0 ==> (r <==> data@[0] & 0x40 == 0),
{
    if data@.len() > 0 {
        let b = data@[0];
        assert(b & 0x40 == 0 <==> (b / 64) % 2 == 0) by (bit_vector);
    }
}

/// Every pairing error has words of its own.
pub proof fn pairing_errors_have_their_words(
    a: &'static str,
    b: &'static str,
    c: &'static str,
    d: &'static str,
    e: &'static str,
    code: u8,
)
    requires
        call_ensures(PairingError::message, (PairingError::DeviceTimeout,), a),
        call_ensures(PairingError::message, (PairingError::NotSupported,), b),
        call_ensures(PairingError::message, (PairingError::TooManyDevices,), c),
        call_ensures(PairingError::message, (PairingError::SequenceTimeout,), d),
        call_ensures(PairingError::message, (PairingError::Unknown(code),), e),
    ensures
        a == "no device found before the pairing window closed",
        b == "pairing is not supported by this receiver",
        c == "no free pairing slot on the receiver",
        d == "the pairing sequence timed out",
        e == "pairing failed",
{
}

/// Pairing fails by its code: 1 without a device, 2 without support, 3 without room and 6
/// out of time; other codes are kept as they are.
pub proof fn pairing_errors_have_their_codes(code: u8, r: PairingError)
    requires
        call_ensures(PairingError::from_code, (code,), r),
    ensures
        r == PairingError::DeviceTimeout <==> code == 1,
        r == PairingError::NotSupported <==> code == 2,
        r == PairingError::TooManyDevices <==> code == 3,
        r == PairingError::SequenceTimeout <==> code == 6,
        code == 0 || code == 4 || code == 5 || code > 6 ==> r == PairingError::Unknown(code),
{
}

} // verus!
