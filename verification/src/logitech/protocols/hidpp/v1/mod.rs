//! HID++ 1.0: numbered registers.

use crate::logitech::protocols::hidpp::{
    read_packet, read_sub_id, write_packet, HidppMessenger, InflightRequest,
};
use vstd::prelude::*;

pub mod receiver;

verus! {

/// Register with the number of paired devices.
pub const REG_DEVICE_COUNT: u16 = 0x0002;

/// Register with what is known of each slot.
pub const REG_RECEIVER_INFO: u16 = 0x02B5;

/// Register that opens and closes the pairing lock and frees slots.
pub const REG_RECEIVER_PAIRING: u16 = 0x00B2;

/// Opens the pairing lock.
pub const PAIRING_OPEN_LOCK: u8 = 0x01;

/// Closes the pairing lock.
pub const PAIRING_CLOSE_LOCK: u8 = 0x02;

/// Frees a slot.
pub const PAIRING_UNPAIR: u8 = 0x03;

/// Pairing information of the first slot; the other slots follow.
pub const INFO_PAIRING: u8 = 0x20;

/// Extended pairing information of the first slot.
pub const INFO_EXTENDED_PAIRING: u8 = 0x30;

/// Device name of the first slot.
pub const INFO_DEVICE_NAME: u8 = 0x40;

/// The registers of one device.
#[derive(Debug, Clone, Copy, PartialEq, Eq, Structural)]
pub struct Hidpp10 {
    pub devnum: u8,
}

impl Hidpp10 {
    /// The registers of a device.
    pub fn new(devnum: u8) -> (r: Self)
        ensures
            r.devnum == devnum,
    {
        Hidpp10 { devnum }
    }

    /// Asks for a register.
    pub fn read(&self, msg: &mut HidppMessenger, register: u16, params: &[u8]) -> (r: Vec<u8>)
        ensures
            r@ == read_packet(self.devnum, register, params@),
            final(msg).inflight == Some(
                InflightRequest { devnum: self.devnum, sub_id: read_sub_id(register) },
            ),
            final(msg).force_long == old(msg).force_long,
    {
        msg.hidpp10_read(self.devnum, register, params)
    }

    /// Sets a register.
    pub fn write(&self, register: u16, params: &[u8]) -> (r: Vec<u8>)
        ensures
            r@ == write_packet(self.devnum, register, params@),
    {
        HidppMessenger::hidpp10_write(self.devnum, register, params)
    }
}

/// A register is read by `81`, or `83` where bit 9 of its address is set, and written by
/// `80` or `82`; then comes the low byte of the address and three parameters, zero where
/// none are given. A read waits for its reply.
pub proof fn registers_have_their_commands(
    d: Hidpp10,
    m: &mut HidppMessenger,
    register: u16,
    params: &[u8],
    a: Vec<u8>,
    b: Vec<u8>,
    i: int,
)
    requires
        call_ensures(Hidpp10::read, (&d, m, register, params), a),
        call_ensures(Hidpp10::write, (&d, register, params), b),
        0 <= i < 3,
    ensures
        a@.len() == 7 && b@.len() == 7,
        a@[0] == 0x10 && b@[0] == 0x10,
        a@[1] == d.devnum && b@[1] == d.devnum,
        512 <= register % 1024 ==> a@[2] == 0x83 && b@[2] == 0x82,
        register % 1024 < 512 ==> a@[2] == 0x81 && b@[2] == 0x80,
        a@[3] == register % 256 && b@[3] == register % 256,
        i < params@.len() ==> a@[4 + i] == params@[i] && b@[4 + i] == params@[i],
        i >= params@.len() ==> a@[4 + i] == 0 && b@[4 + i] == 0,
        final(m).inflight == Some(InflightRequest { devnum: d.devnum, sub_id: a@[2] }),
        final(m).force_long == old(m).force_long,
{
}

} // verus!
