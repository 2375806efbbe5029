//! DDC/CI frames tunnelled over USB control transfers for the Philips Evnia 49
//! monitor, and the register writes of its Ambiglow LED controller.

use crate::bytes::{be16, u16_be, xor_all, xor_range};
use crate::text::{from_utf8_lossy, trim, trimmed, utf8_lossy};
use vstd::prelude::*;
use vstd::slice::*;

verus! {

/// Vendor request, host to device.
pub const BMREQ_OUT: u8 = 0x40;

/// Vendor request, device to host.
pub const BMREQ_IN: u8 = 0xC0;

/// Request that carries a DDC/CI frame to the monitor.
pub const BREQ_DDCCI_WRITE: u8 = 0xB2;

/// Request that fetches the monitor's reply frame.
pub const BREQ_DDCCI_READ: u8 = 0xA3;

/// Index field of a reply fetch.
pub const READ_W_INDEX: u16 = 0x006F;

/// Milliseconds the monitor needs to assemble a reply.
pub const READ_DELAY_MS: u64 = 150;

/// Minimum gap in milliseconds between two DDC/CI writes.
pub const WRITE_DELAY_MS: u64 = 50;

/// Length of the buffer a reply is fetched into.
pub const REPLY_BUFFER_LEN: usize = 32;

/// Request type of an Ambiglow register write.
pub const AMBIGLOW_BMREQ_OUT: u8 = 0x40;

/// Request code of an Ambiglow register write.
pub const AMBIGLOW_BREQ: u8 = 0x80;

/// Why a frame was refused.
#[derive(Debug, Clone, Copy, PartialEq, Eq, Structural)]
pub enum DdcError {
    /// The reply is shorter than any frame of its kind.
    Short { len: usize },
    /// The first byte is not the monitor's address.
    UnexpectedSource { byte: u8 },
    /// The length byte announces more than was received.
    Truncated { need: usize, got: usize },
    /// The checksum does not match.
    ChecksumMismatch { got: u8, expected: u8 },
    /// The opcode is not that of a get-VCP reply.
    NotGetReply { opcode: u8 },
    /// The monitor answered with an error code.
    MonitorError { code: u8 },
    /// No transport is open.
    NotConnected,
}

/// One USB control transfer.
#[derive(Debug, Clone)]
pub struct ControlTransfer {
    pub request_type: u8,
    pub request: u8,
    pub value: u16,
    pub index: u16,
    pub data: Vec<u8>,
}

/// `body` followed by the XOR of its bytes.
pub open spec fn with_checksum(body: Seq<u8>) -> Seq<u8> {
    body.push(xor_all(body))
}

/// XOR of all bytes of `buf`.
pub fn ddcci_xor(buf: &[u8]) -> (r: u8)
    ensures
        r == xor_all(buf@),
{
    let r: u8 = xor_range(buf, 0, buf.len());
    proof {
        assert(buf@.subrange(0, buf@.len() as int) =~= buf@);
    }
    r
}

/// The frame that sets a standard VCP code.
pub open spec fn write_frame(vcp: u8, value: u8) -> Seq<u8> {
    with_checksum(seq![0x6e, 0x51, 0x84, 0x03, vcp, 0x00, value])
}

/// The frame that sets a code of the extended page.
pub open spec fn extended_set_frame(sub: u8, value: u8) -> Seq<u8> {
    with_checksum(seq![0x6e, 0x51, 0x86, 0x03, 0xe2, 0xa0, sub, 0x00, value])
}

/// The frame that asks for a standard VCP code.
pub open spec fn get_standard_frame(vcp: u8) -> Seq<u8> {
    with_checksum(seq![0x6e, 0x51, 0x82, 0x01, vcp])
}

/// The frame that asks for a code of the extended page.
pub open spec fn get_extended_frame(sub: u8) -> Seq<u8> {
    with_checksum(seq![0x6e, 0x51, 0x84, 0x01, 0xe2, 0xa0, sub])
}

/// The frame that asks for an information string.
pub open spec fn get_info_frame(addr: Seq<u8>) -> Seq<u8> {
    with_checksum(seq![0x6e, 0x51, 0x86, 0x01, 0xfe, addr[0], addr[1], addr[2], addr[3]])
}

/// Builds the frame that sets a standard VCP code.
pub fn build_write(vcp: u8, value: u8) -> (p: [u8; 8])
    ensures
        p@ == write_frame(vcp, value),
{
    let body: [u8; 7] = [0x6e, 0x51, 0x84, 0x03, vcp, 0x00, value];
    let xor: u8 = ddcci_xor(&body);
    let p: [u8; 8] = [0x6e, 0x51, 0x84, 0x03, vcp, 0x00, value, xor];
    proof {
        assert(body@ =~= seq![0x6e, 0x51, 0x84, 0x03, vcp, 0x00, value]);
        assert(p@ =~= write_frame(vcp, value));
    }
    p
}

/// Builds the frame that sets a code of the extended page.
pub fn build_extended_set(sub: u8, value: u8) -> (p: [u8; 10])
    ensures
        p@ == extended_set_frame(sub, value),
{
    let body: [u8; 9] = [0x6e, 0x51, 0x86, 0x03, 0xe2, 0xa0, sub, 0x00, value];
    let xor: u8 = ddcci_xor(&body);
    let p: [u8; 10] = [0x6e, 0x51, 0x86, 0x03, 0xe2, 0xa0, sub, 0x00, value, xor];
    proof {
        assert(body@ =~= seq![0x6e, 0x51, 0x86, 0x03, 0xe2, 0xa0, sub, 0x00, value]);
        assert(p@ =~= extended_set_frame(sub, value));
    }
    p
}

/// Builds the frame that asks for a standard VCP code.
pub fn build_get_standard(vcp: u8) -> (p: [u8; 6])
    ensures
        p@ == get_standard_frame(vcp),
{
    let body: [u8; 5] = [0x6e, 0x51, 0x82, 0x01, vcp];
    let xor: u8 = ddcci_xor(&body);
    let p: [u8; 6] = [0x6e, 0x51, 0x82, 0x01, vcp, xor];
    proof {
        assert(body@ =~= seq![0x6e, 0x51, 0x82, 0x01, vcp]);
        assert(p@ =~= get_standard_frame(vcp));
    }
    p
}

/// Builds the frame that asks for a code of the extended page.
pub fn build_get_extended(sub: u8) -> (p: [u8; 8])
    ensures
        p@ == get_extended_frame(sub),
{
    let body: [u8; 7] = [0x6e, 0x51, 0x84, 0x01, 0xe2, 0xa0, sub];
    let xor: u8 = ddcci_xor(&body);
    let p: [u8; 8] = [0x6e, 0x51, 0x84, 0x01, 0xe2, 0xa0, sub, xor];
    proof {
        assert(body@ =~= seq![0x6e, 0x51, 0x84, 0x01, 0xe2, 0xa0, sub]);
        assert(p@ =~= get_extended_frame(sub));
    }
    p
}

/// Builds the frame that asks for an information string. `addr` is the four-byte
/// selector of the string.
pub fn build_get_info(addr: [u8; 4]) -> (p: [u8; 10])
    ensures
        p@ == get_info_frame(addr@),
{
    let body: [u8; 9] = [0x6e, 0x51, 0x86, 0x01, 0xfe, addr[0], addr[1], addr[2], addr[3]];
    let xor: u8 = ddcci_xor(&body);
    let p: [u8; 10] = [0x6e, 0x51, 0x86, 0x01, 0xfe, addr[0], addr[1], addr[2], addr[3], xor];
    proof {
        assert(body@ =~= seq![0x6e, 0x51, 0x86, 0x01, 0xfe, addr@[0], addr@[1], addr@[2], addr@[3]]);
        assert(p@ =~= get_info_frame(addr@));
    }
    p
}

/// The checksum byte that a reply made of `body` carries.
pub open spec fn reply_checksum(body: Seq<u8>) -> u8 {
    0x50u8 ^ xor_all(body)
}

/// The bytes before the first zero.
pub open spec fn until_nul(s: Seq<u8>) -> Seq<u8>
    decreases s.len(),
{
    if s.len() == 0 || s[0] == 0 {
        Seq::empty()
    } else {
        seq![s[0]] + until_nul(s.drop_first())
    }
}

/// The length that the length byte announces.
pub open spec fn announced_len(buf: Seq<u8>) -> int {
    (buf[1] & 0x7f) as int
}

/// The bytes that follow the envelope: the standard one is `02 fe <address>`, the
/// asset EEPROM answers without any.
pub open spec fn info_body(body: Seq<u8>) -> Seq<u8> {
    if body.len() >= 3 && body[0] == 0x02 && body[1] == 0xfe {
        body.subrange(3, body.len() as int)
    } else {
        body
    }
}

/// What an information-string reply holds: the bytes up to the first zero, or the
/// reason it is refused.
pub open spec fn info_reply(buf: Seq<u8>) -> Result<Seq<u8>, DdcError> {
    if buf.len() < 4 {
        Err(DdcError::Short { len: buf.len() as usize })
    } else if buf[0] != 0x6e {
        Err(DdcError::UnexpectedSource { byte: buf[0] })
    } else if buf.len() < announced_len(buf) + 3 {
        Err(DdcError::Truncated { need: (announced_len(buf) + 3) as usize, got: buf.len() as usize })
    } else if buf[2 + announced_len(buf)] != reply_checksum(buf.take(2 + announced_len(buf))) {
        Err(
            DdcError::ChecksumMismatch {
                got: buf[2 + announced_len(buf)],
                expected: reply_checksum(buf.take(2 + announced_len(buf))),
            },
        )
    } else {
        Ok(until_nul(info_body(buf.subrange(2, 2 + announced_len(buf)))))
    }
}

/// The index of the first zero in `s`, or its length.
fn nul_position(s: &[u8]) -> (end: usize)
    ensures
        end <= s@.len(),
        s@.take(end as int) == until_nul(s@),
{
    let mut i: usize = 0;
    proof {
        assert(s@.skip(0) =~= s@);
        assert(s@.take(0) + until_nul(s@.skip(0)) =~= until_nul(s@));
    }
    while i < s.len()
        invariant
            i <= s@.len(),
            s@.take(i as int) + until_nul(s@.skip(i as int)) == until_nul(s@),
        decreases s@.len() - i,
    {
        if s[i] == 0 {
            proof {
                assert(s@.take(i as int) + until_nul(s@.skip(i as int)) =~= s@.take(i as int));
            }
            return i;
        }
        proof {
            let rest = s@.skip(i as int);
            assert(rest.drop_first() =~= s@.skip(i + 1));
            assert(s@.take(i as int) + until_nul(rest) =~= s@.take(i + 1) + until_nul(
                s@.skip(i + 1),
            ));
        }
        i = i + 1;
    }
    proof {
        assert(s@.take(i as int) + until_nul(s@.skip(i as int)) =~= s@.take(i as int));
    }
    i
}

/// Decodes an information-string reply. Two envelopes occur, `6e <len> 02 fe
/// <address> <text> <xor>` and the raw `6e <len> <text> <xor>`; both carry a
/// checksum seeded with `0x50`. The text ends at the first zero and is stripped of
/// white space.
pub fn parse_info_reply(buf: &[u8]) -> (r: Result<String, DdcError>)
    ensures
        match info_reply(buf@) {
            Ok(payload) => r is Ok && r->Ok_0@ == trim(utf8_lossy(payload)),
            Err(e) => r == Err::<String, DdcError>(e),
        },
{
    if buf.len() < 4 {
        return Err(DdcError::Short { len: buf.len() });
    }
    if buf[0] != 0x6e {
        return Err(DdcError::UnexpectedSource { byte: buf[0] });
    }
    let len_byte: u8 = buf[1];
    let n: usize = (len_byte & 0x7f) as usize;
    proof {
        assert(len_byte & 0x7f <= 0x7f) by (bit_vector);
    }
    if buf.len() < 2 + n + 1 {
        return Err(DdcError::Truncated { need: n + 3, got: buf.len() });
    }
    let calc: u8 = 0x50u8 ^ xor_range(buf, 0, 2 + n);
    proof {
        assert(buf@.subrange(0, 2 + n) =~= buf@.take(2 + n));
    }
    if buf[2 + n] != calc {
        return Err(DdcError::ChecksumMismatch { got: buf[2 + n], expected: calc });
    }
    let body = slice_subrange(buf, 2, 2 + n);
    let payload = if body.len() >= 3 && body[0] == 0x02 && body[1] == 0xfe {
        slice_subrange(body, 3, body.len())
    } else {
        body
    };
    let end: usize = nul_position(payload);
    let text = from_utf8_lossy(slice_subrange(payload, 0, end));
    proof {
        assert(payload@.subrange(0, end as int) =~= payload@.take(end as int));
    }
    Ok(trimmed(text.as_str()))
}

/// What a get-VCP reply reports as the current value, or the reason it is refused.
pub open spec fn get_reply(buf: Seq<u8>) -> Result<u16, DdcError> {
    if buf.len() < 12 {
        Err(DdcError::Short { len: buf.len() as usize })
    } else if buf[0] != 0x6e {
        Err(DdcError::UnexpectedSource { byte: buf[0] })
    } else if buf[2] != 0x02 {
        Err(DdcError::NotGetReply { opcode: buf[2] })
    } else if buf[3] != 0x00 {
        Err(DdcError::MonitorError { code: buf[3] })
    } else if buf[10] != reply_checksum(buf.take(10)) {
        Err(DdcError::ChecksumMismatch { got: buf[10], expected: reply_checksum(buf.take(10)) })
    } else {
        Ok(be16(buf[8], buf[9]) as u16)
    }
}

/// Decodes a get-VCP reply (`6e 88 02 00 vcp type maxH maxL curH curL xor`). Replies
/// about the extended page have the same layout.
pub fn parse_get_reply(buf: &[u8]) -> (r: Result<u16, DdcError>)
    ensures
        r == get_reply(buf@),
{
    if buf.len() < 12 {
        return Err(DdcError::Short { len: buf.len() });
    }
    if buf[0] != 0x6e {
        return Err(DdcError::UnexpectedSource { byte: buf[0] });
    }
    if buf[2] != 0x02 {
        return Err(DdcError::NotGetReply { opcode: buf[2] });
    }
    if buf[3] != 0x00 {
        return Err(DdcError::MonitorError { code: buf[3] });
    }
    let calc: u8 = 0x50u8 ^ xor_range(buf, 0, 10);
    proof {
        assert(buf@.subrange(0, 10) =~= buf@.take(10));
    }
    if buf[10] != calc {
        return Err(DdcError::ChecksumMismatch { got: buf[10], expected: calc });
    }
    Ok(u16_be(buf[8], buf[9]))
}

/// State of the DDC/CI tunnel: whether a transport is open, and when the last frame
/// went out.
#[derive(Debug, Clone, Copy)]
pub struct PhilipsEvnia49Protocol {
    pub connected: bool,
    /// Monotonic milliseconds of the last write.
    pub last_write_ms: Option<u64>,
}

/// How long a write that starts at `now_ms` has to wait after one at `last_ms`.
pub open spec fn write_wait(last_ms: Option<u64>, now_ms: u64) -> Option<u64> {
    match last_ms {
        None => None,
        Some(t) => {
            let elapsed = if now_ms >= t { now_ms - t } else { 0 };
            if elapsed <= WRITE_DELAY_MS {
                Some((WRITE_DELAY_MS - elapsed) as u64)
            } else {
                None
            }
        },
    }
}

impl PhilipsEvnia49Protocol {
    /// A tunnel without a transport.
    pub fn new() -> (p: Self)
        ensures
            !p.connected,
            p.last_write_ms is None,
    {
        PhilipsEvnia49Protocol { connected: false, last_write_ms: None }
    }

    /// Records that a transport was opened.
    pub fn open(&mut self)
        ensures
            final(self).connected,
            final(self).last_write_ms == old(self).last_write_ms,
    {
        self.connected = true;
    }

    /// Records that the transport is gone. Returns whether there was one to release.
    pub fn close(&mut self) -> (release: bool)
        ensures
            release == old(self).connected,
            !final(self).connected,
            final(self).last_write_ms == old(self).last_write_ms,
    {
        let release = self.connected;
        self.connected = false;
        release
    }

    /// Whether a transport is open.
    pub fn is_connected(&self) -> (r: bool)
        ensures
            r == self.connected,
    {
        self.connected
    }

    /// How long to sleep before the next frame may go out.
    pub fn write_delay(&self, now_ms: u64) -> (r: Option<u64>)
        ensures
            r == write_wait(self.last_write_ms, now_ms),
    {
        match self.last_write_ms {
            None => None,
            Some(t) => {
                let elapsed: u64 = if now_ms >= t {
                    now_ms - t
                } else {
                    0
                };
                if elapsed <= WRITE_DELAY_MS {
                    Some(WRITE_DELAY_MS - elapsed)
                } else {
                    None
                }
            },
        }
    }

    /// The control transfer that sends `payload`; refused while no transport is open.
    pub fn write_packet(&self, payload: &[u8]) -> (r: Result<ControlTransfer, DdcError>)
        ensures
            self.connected ==> r is Ok && is_frame_write(r->Ok_0, payload@),
            !self.connected ==> r == Err::<ControlTransfer, DdcError>(DdcError::NotConnected),
    {
        if !self.connected {
            return Err(DdcError::NotConnected);
        }
        let data = slice_to_vec(payload);
        Ok(
            ControlTransfer {
                request_type: BMREQ_OUT,
                request: BREQ_DDCCI_WRITE,
                value: 0,
                index: 0,
                data,
            },
        )
    }

    /// Records the time of a finished write, whether or not the transfer succeeded.
    pub fn mark_written(&mut self, at_ms: u64)
        ensures
            final(self).last_write_ms == Some(at_ms),
            final(self).connected == old(self).connected,
    {
        self.last_write_ms = Some(at_ms);
    }

    /// The transfer that asks for a standard VCP code.
    pub fn get_standard(&self, vcp: u8) -> (r: Result<ControlTransfer, DdcError>)
        ensures
            self.connected ==> r is Ok && is_frame_write(r->Ok_0, get_standard_frame(vcp)),
            !self.connected ==> r == Err::<ControlTransfer, DdcError>(DdcError::NotConnected),
    {
        let frame = build_get_standard(vcp);
        self.write_packet(&frame)
    }

    /// The transfer that asks for a code of the extended page.
    pub fn get_extended(&self, sub: u8) -> (r: Result<ControlTransfer, DdcError>)
        ensures
            self.connected ==> r is Ok && is_frame_write(r->Ok_0, get_extended_frame(sub)),
            !self.connected ==> r == Err::<ControlTransfer, DdcError>(DdcError::NotConnected),
    {
        let frame = build_get_extended(sub);
        self.write_packet(&frame)
    }

    /// The transfer that asks for an information string.
    pub fn get_info(&self, addr: [u8; 4]) -> (r: Result<ControlTransfer, DdcError>)
        ensures
            self.connected ==> r is Ok && is_frame_write(r->Ok_0, get_info_frame(addr@)),
            !self.connected ==> r == Err::<ControlTransfer, DdcError>(DdcError::NotConnected),
    {
        let frame = build_get_info(addr);
        self.write_packet(&frame)
    }

    /// The transfer that fetches the reply to the last request; its data is the empty
    /// buffer to fill.
    pub fn read_get_reply(&self) -> (r: Result<ControlTransfer, DdcError>)
        ensures
            self.connected ==> {
                &&& r is Ok
                &&& r->Ok_0.request_type == BMREQ_IN
                &&& r->Ok_0.request == BREQ_DDCCI_READ
                &&& r->Ok_0.value == 0
                &&& r->Ok_0.index == READ_W_INDEX
                &&& r->Ok_0.data@ == Seq::new(REPLY_BUFFER_LEN as nat, |i: int| 0u8)
            },
            !self.connected ==> r == Err::<ControlTransfer, DdcError>(DdcError::NotConnected),
    {
        if !self.connected {
            return Err(DdcError::NotConnected);
        }
        let data: Vec<u8> = vec![0u8; REPLY_BUFFER_LEN];
        proof {
            assert(data@ =~= Seq::new(REPLY_BUFFER_LEN as nat, |i: int| 0u8));
        }
        Ok(
            ControlTransfer {
                request_type: BMREQ_IN,
                request: BREQ_DDCCI_READ,
                value: 0,
                index: READ_W_INDEX,
                data,
            },
        )
    }
}

/// Whether `t` sends the DDC/CI frame `frame`.
pub open spec fn is_frame_write(t: ControlTransfer, frame: Seq<u8>) -> bool {
    &&& t.request_type == BMREQ_OUT
    &&& t.request == BREQ_DDCCI_WRITE
    &&& t.value == 0
    &&& t.index == 0
    &&& t.data@ == frame
}

/// Whether `t` writes `data` to the Ambiglow register `address`.
pub open spec fn is_register_write(t: ControlTransfer, address: u16, data: Seq<u8>) -> bool {
    &&& t.request_type == AMBIGLOW_BMREQ_OUT
    &&& t.request == AMBIGLOW_BREQ
    &&& t.value == 0
    &&& t.index == address
    &&& t.data@ == data
}

/// State of the link to the Ambiglow LED controller.
#[derive(Debug, Clone, Copy)]
pub struct PhilipsAmbiglowProtocol {
    pub connected: bool,
}

impl PhilipsAmbiglowProtocol {
    /// A link without a transport.
    pub fn new() -> (p: Self)
        ensures
            !p.connected,
    {
        PhilipsAmbiglowProtocol { connected: false }
    }

    /// Records that a transport was opened.
    pub fn open(&mut self)
        ensures
            final(self).connected,
    {
        self.connected = true;
    }

    /// Records that the transport is gone. Returns whether there was one to release.
    pub fn close(&mut self) -> (release: bool)
        ensures
            release == old(self).connected,
            !final(self).connected,
    {
        let release = self.connected;
        self.connected = false;
        release
    }

    /// Whether a transport is open.
    pub fn is_connected(&self) -> (r: bool)
        ensures
            r == self.connected,
    {
        self.connected
    }

    /// The transfer that writes `data` to the register at `address`.
    pub fn write(&self, address: u16, data: &[u8]) -> (r: Result<ControlTransfer, DdcError>)
        ensures
            self.connected ==> r is Ok && is_register_write(r->Ok_0, address, data@),
            !self.connected ==> r == Err::<ControlTransfer, DdcError>(DdcError::NotConnected),
    {
        if !self.connected {
            return Err(DdcError::NotConnected);
        }
        Ok(
            ControlTransfer {
                request_type: AMBIGLOW_BMREQ_OUT,
                request: AMBIGLOW_BREQ,
                value: 0,
                index: address,
                data: slice_to_vec(data),
            },
        )
    }
}

/// The XOR of a checksummed frame is zero: every frame that is built passes its own
/// check.
pub proof fn checksummed_frame_xors_to_zero(body: Seq<u8>)
    ensures
        xor_all(with_checksum(body)) == 0,
{
    let x = xor_all(body);
    assert(with_checksum(body).drop_last() =~= body);
    assert(x ^ x == 0) by (bit_vector);
}

/// A frame written after the delay that the tunnel asks for starts at least the
/// minimum gap after the previous one.
pub proof fn writes_keep_their_gap(last_ms: u64, now_ms: u64)
    requires
        last_ms <= now_ms,
    ensures
        match write_wait(Some(last_ms), now_ms) {
            Some(d) => now_ms + d - last_ms >= WRITE_DELAY_MS,
            None => now_ms - last_ms >= WRITE_DELAY_MS,
        },
{
}

/// A well-formed get-VCP reply gives back the current value that it was made of.
pub proof fn get_reply_reads_what_was_sent(vcp: u8, kind: u8, max: Seq<u8>, hi: u8, lo: u8, pad: u8)
    requires
        max.len() == 2,
    ensures
        ({
            let body = seq![0x6eu8, 0x88, 0x02, 0x00, vcp, kind, max[0], max[1], hi, lo];
            get_reply(body.push(reply_checksum(body)).push(pad)) == Ok::<u16, DdcError>(
                (hi as int * 256 + lo as int) as u16,
            )
        }),
{
    let body = seq![0x6eu8, 0x88, 0x02, 0x00, vcp, kind, max[0], max[1], hi, lo];
    let buf = body.push(reply_checksum(body)).push(pad);
    assert(buf.take(10) =~= body);
}

/// Frames are made of the addresses, the length, the opcode, the code and the value, and end
/// in a byte that makes the whole frame XOR to zero.
pub proof fn frames_carry_code_and_value(
    code: u8,
    value: u8,
    addr: [u8; 4],
    write: [u8; 8],
    extended: [u8; 10],
    get: [u8; 6],
    get_extended: [u8; 8],
    info: [u8; 10],
)
    requires
        call_ensures(build_write, (code, value), write),
        call_ensures(build_extended_set, (code, value), extended),
        call_ensures(build_get_standard, (code,), get),
        call_ensures(build_get_extended, (code,), get_extended),
        call_ensures(build_get_info, (addr,), info),
    ensures
        write@.take(7) == seq![0x6eu8, 0x51, 0x84, 0x03, code, 0x00, value],
        extended@.take(9) == seq![0x6eu8, 0x51, 0x86, 0x03, 0xe2, 0xa0, code, 0x00, value],
        get@.take(5) == seq![0x6eu8, 0x51, 0x82, 0x01, code],
        get_extended@.take(7) == seq![0x6eu8, 0x51, 0x84, 0x01, 0xe2, 0xa0, code],
        info@.take(9) == seq![0x6eu8, 0x51, 0x86, 0x01, 0xfe] + addr@,
        xor_all(write@) == 0,
        xor_all(extended@) == 0,
        xor_all(get@) == 0,
        xor_all(get_extended@) == 0,
        xor_all(info@) == 0,
{
    checksummed_frame_xors_to_zero(seq![0x6eu8, 0x51, 0x84, 0x03, code, 0x00, value]);
    checksummed_frame_xors_to_zero(
        seq![0x6eu8, 0x51, 0x86, 0x03, 0xe2, 0xa0, code, 0x00, value],
    );
    checksummed_frame_xors_to_zero(seq![0x6eu8, 0x51, 0x82, 0x01, code]);
    checksummed_frame_xors_to_zero(seq![0x6eu8, 0x51, 0x84, 0x01, 0xe2, 0xa0, code]);
    let i = seq![0x6eu8, 0x51, 0x86, 0x01, 0xfe, addr@[0], addr@[1], addr@[2], addr@[3]];
    checksummed_frame_xors_to_zero(i);
    assert(info@.take(9) =~= i);
}

/// A reading is taken only from a complete reply of the monitor to a get request that
/// reports no error and whose checksum, seeded with 0x50, is right; it is then the big-endian
/// pair of its bytes 8 and 9.
pub proof fn readings_come_from_good_replies(buf: &[u8], r: Result<u16, DdcError>)
    requires
        call_ensures(parse_get_reply, (buf,), r),
    ensures
        r is Ok <==> {
            &&& buf@.len() >= 12
            &&& buf@[0] == 0x6e
            &&& buf@[2] == 0x02
            &&& buf@[3] == 0x00
            &&& buf@[10] ^ xor_all(buf@.take(10)) == 0x50
        },
        r is Ok ==> r->Ok_0 == 256 * buf@[8] + buf@[9],
        buf@.len() < 12 ==> r == Err::<u16, DdcError>(DdcError::Short { len: buf@.len() as usize }),
        r matches Err(DdcError::Short { .. }) ==> buf@.len() < 12,
        r matches Err(DdcError::MonitorError { code }) ==> code == buf@[3] && code != 0,
        r matches Err(DdcError::NotGetReply { opcode }) ==> opcode == buf@[2] && opcode != 2,
        r matches Err(DdcError::UnexpectedSource { byte }) ==> byte == buf@[0] && byte != 0x6e,
        r matches Err(DdcError::ChecksumMismatch { got, expected }) ==> got == buf@[10] && expected
            != got,
{
    if buf@.len() >= 12 {
        let x = buf@[10];
        let y = xor_all(buf@.take(10));
        assert(x ^ y == 0x50 <==> x == 0x50u8 ^ y) by (bit_vector);
    }
}

/// An information string is the text up to the first zero, whether the reply repeats the
/// address or not, with its length taken from the low seven bits of the length byte; a reply
/// whose checksum, seeded with 0x50, is wrong is refused.
pub proof fn info_strings_end_at_zero(buf: &[u8], r: Result<String, DdcError>, text: Seq<u8>)
    requires
        call_ensures(parse_info_reply, (buf,), r),
        forall|i: int| 0 <= i < text.len() ==> text[i] != 0,
        buf@.len() >= 4,
        buf@[0] == 0x6e,
        buf@.len() >= (buf@[1] & 0x7f) + 3,
        buf@[2 + (buf@[1] & 0x7f)] == 0x50u8 ^ xor_all(buf@.take(2 + (buf@[1] & 0x7f))),
    ensures
        buf@.subrange(2, 2 + (buf@[1] & 0x7f)) == text && !(text.len() >= 3 && text[0] == 0x02
            && text[1] == 0xfe) ==> r is Ok && r->Ok_0@ == trim(utf8_lossy(text)),
        buf@.subrange(2, 2 + (buf@[1] & 0x7f)) == seq![0x02u8, 0xfe, buf@[4]] + text ==> r is Ok
            && r->Ok_0@ == trim(utf8_lossy(text)),
        buf@.subrange(2, 2 + (buf@[1] & 0x7f)) == text.push(0) && !(text.len() >= 2 && text[0]
            == 0x02 && text[1] == 0xfe) ==> r is Ok && r->Ok_0@ == trim(utf8_lossy(text)),
{
    let body = buf@.subrange(2, 2 + (buf@[1] & 0x7f));
    lemma_until_nul(text);
    if body == seq![0x02u8, 0xfe, buf@[4]] + text {
        assert(body.subrange(3, body.len() as int) =~= text);
    }
}

/// A text without zeros ends where it ends, or at the zero after it.
proof fn lemma_until_nul(text: Seq<u8>)
    requires
        forall|i: int| 0 <= i < text.len() ==> text[i] != 0,
    ensures
        until_nul(text) == text,
        until_nul(text.push(0)) == text,
    decreases text.len(),
{
    if text.len() > 0 {
        assert(text[0] != 0);
        assert forall|i: int| 0 <= i < text.drop_first().len() implies text.drop_first()[i] != 0 by {
            assert(text.drop_first()[i] == text[i + 1]);
        }
        lemma_until_nul(text.drop_first());
        assert(text =~= seq![text[0]] + text.drop_first());
        assert(text.push(0).drop_first() =~= text.drop_first().push(0));
    }
}

/// A broken reply is refused for what is wrong with it.
pub proof fn broken_info_replies_are_refused(buf: &[u8], r: Result<String, DdcError>)
    requires
        call_ensures(parse_info_reply, (buf,), r),
    ensures
        buf@.len() < 4 ==> r is Err,
        buf@.len() >= 4 && buf@[0] != 0x6e ==> r is Err,
        buf@.len() >= 4 && buf@.len() < (buf@[1] & 0x7f) + 3 ==> r is Err,
        buf@.len() >= (buf@[1] & 0x7f) + 3 && buf@.len() >= 4 && buf@[2 + (buf@[1] & 0x7f)]
            != 0x50u8 ^ xor_all(buf@.take(2 + (buf@[1] & 0x7f))) ==> r is Err,
{
}

/// Fifty milliseconds have to pass between two frames: a frame waits for what is left of
/// them and not longer, and the first frame does not wait.
pub proof fn frames_wait_fifty_milliseconds(p: PhilipsEvnia49Protocol, now_ms: u64, r: Option<u64>)
    requires
        call_ensures(PhilipsEvnia49Protocol::write_delay, (&p, now_ms), r),
    ensures
        p.last_write_ms is None ==> r is None,
        p.last_write_ms is Some && now_ms >= p.last_write_ms->Some_0 ==> {
            let t = p.last_write_ms->Some_0;
            &&& r is None <==> now_ms - t > 50
            &&& r matches Some(d) ==> now_ms + d == t + 50
        },
{
}

/// A frame travels in a vendor request to the device, its reply is fetched by one from it
/// into 32 bytes; without a transport nothing does.
pub proof fn frames_travel_in_control_transfers(
    p: PhilipsEvnia49Protocol,
    payload: &[u8],
    sent: Result<ControlTransfer, DdcError>,
    fetched: Result<ControlTransfer, DdcError>,
)
    requires
        call_ensures(PhilipsEvnia49Protocol::write_packet, (&p, payload), sent),
        call_ensures(PhilipsEvnia49Protocol::read_get_reply, (&p,), fetched),
    ensures
        sent is Ok <==> p.connected,
        fetched is Ok <==> p.connected,
        sent matches Ok(t) ==> t.request_type == 0x40 && t.request == 0xB2 && t.value == 0
            && t.index == 0 && t.data@ == payload@,
        fetched matches Ok(t) ==> t.request_type == 0xC0 && t.request == 0xA3 && t.value == 0
            && t.index == 0x6F && t.data@.len() == 32,
{
}

/// Asking for a code or a string sends the frame that asks for it.
pub proof fn requests_send_their_frames(
    p: PhilipsEvnia49Protocol,
    code: u8,
    addr: [u8; 4],
    standard: Result<ControlTransfer, DdcError>,
    extended: Result<ControlTransfer, DdcError>,
    info: Result<ControlTransfer, DdcError>,
)
    requires
        p.connected,
        call_ensures(PhilipsEvnia49Protocol::get_standard, (&p, code), standard),
        call_ensures(PhilipsEvnia49Protocol::get_extended, (&p, code), extended),
        call_ensures(PhilipsEvnia49Protocol::get_info, (&p, addr), info),
    ensures
        standard is Ok && standard->Ok_0.request == 0xB2 && standard->Ok_0.data@.len() == 6
            && standard->Ok_0.data@[3] == 0x01 && standard->Ok_0.data@[4] == code,
        extended is Ok && extended->Ok_0.request == 0xB2 && extended->Ok_0.data@.len() == 8
            && extended->Ok_0.data@[3] == 0x01 && extended->Ok_0.data@[4] == 0xe2
            && extended->Ok_0.data@[5] == 0xa0 && extended->Ok_0.data@[6] == code,
        info is Ok && info->Ok_0.request == 0xB2 && info->Ok_0.data@.len() == 10
            && info->Ok_0.data@[3] == 0x01 && info->Ok_0.data@[4] == 0xfe
            && info->Ok_0.data@.subrange(5, 9) == addr@,
{
    if info is Ok {
        assert(info->Ok_0.data@.subrange(5, 9) =~= addr@);
    }
}

/// A register is written by a vendor request whose index is the register's address; without
/// a transport none is.
pub proof fn registers_are_written_by_address(
    p: PhilipsAmbiglowProtocol,
    address: u16,
    data: &[u8],
    r: Result<ControlTransfer, DdcError>,
)
    requires
        call_ensures(PhilipsAmbiglowProtocol::write, (&p, address, data), r),
    ensures
        r is Ok <==> p.connected,
        r matches Ok(t) ==> t.request_type == 0x40 && t.request == 0x80 && t.value == 0 && t.index
            == address && t.data@ == data@,
        r matches Err(e) ==> e == DdcError::NotConnected,
{
}

/// A tunnel is connected from the opening to the closing of its transport, which gives it
/// back exactly where there was one. Neither changes when it last wrote.
pub proof fn tunnels_are_connected_while_open(
    fresh: PhilipsEvnia49Protocol,
    a: &mut PhilipsEvnia49Protocol,
    b: &mut PhilipsEvnia49Protocol,
    c: &mut PhilipsEvnia49Protocol,
    at_ms: u64,
    release: bool,
    opened: bool,
    closed: bool,
)
    requires
        call_ensures(PhilipsEvnia49Protocol::new, (), fresh),
        call_ensures(PhilipsEvnia49Protocol::open, (a,), ()),
        call_ensures(PhilipsEvnia49Protocol::is_connected, (&*final(a),), opened),
        call_ensures(PhilipsEvnia49Protocol::close, (b,), release),
        call_ensures(PhilipsEvnia49Protocol::is_connected, (&*final(b),), closed),
        call_ensures(PhilipsEvnia49Protocol::mark_written, (c, at_ms), ()),
    ensures
        !fresh.connected && fresh.last_write_ms is None,
        opened && !closed,
        release <==> old(b).connected,
        final(a).last_write_ms == old(a).last_write_ms,
        final(b).last_write_ms == old(b).last_write_ms,
        final(c).last_write_ms == Some(at_ms) && final(c).connected == old(c).connected,
{
}

/// A link is connected from the opening to the closing of its transport, which gives it
/// back exactly where there was one.
pub proof fn links_are_connected_while_open(
    fresh: PhilipsAmbiglowProtocol,
    a: &mut PhilipsAmbiglowProtocol,
    b: &mut PhilipsAmbiglowProtocol,
    release: bool,
    opened: bool,
    closed: bool,
)
    requires
        call_ensures(PhilipsAmbiglowProtocol::new, (), fresh),
        call_ensures(PhilipsAmbiglowProtocol::open, (a,), ()),
        call_ensures(PhilipsAmbiglowProtocol::is_connected, (&*final(a),), opened),
        call_ensures(PhilipsAmbiglowProtocol::close, (b,), release),
        call_ensures(PhilipsAmbiglowProtocol::is_connected, (&*final(b),), closed),
    ensures
        !fresh.connected,
        opened && !closed,
        release <==> old(b).connected,
{
}

} // verus!
