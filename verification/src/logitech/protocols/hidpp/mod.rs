//! HID++: framing, routing of what a device sends, and the listener that reads it.

use crate::text::{contains_text, find_text};
use std::collections::HashMap;
use vstd::prelude::*;

pub mod collection;
pub mod crc;
pub mod enumeration;
pub mod v1;
pub mod v2;

verus! {

/// Report id of a short packet.
pub const HIDPP_SHORT: u8 = 0x10;

/// Report id of a long packet.
pub const HIDPP_LONG: u8 = 0x11;

/// Length of a short packet.
pub const SHORT_LEN: usize = 7;

/// Length of a long packet.
pub const LONG_LEN: usize = 20;

/// Consecutive read errors after which a listener gives up.
pub const MAX_CONSECUTIVE_READ_ERRORS: u32 = 20;

/// Pause after a failed read, in milliseconds.
pub const READ_BACKOFF_MS: u64 = 10;

/// How long a write may take, in milliseconds.
pub const WRITE_TIMEOUT_MS: u64 = 500;

/// How long a reply may take, in milliseconds.
pub const REPLY_TIMEOUT_MS: u64 = 2000;

/// Ceiling for what is written to one transport, in bytes per second.
pub const LOGITECH_WRITE_RATE: u32 = 1000;

/// The device number of a receiver itself.
pub const RECEIVER_DEVNUM: u8 = 0xFF;

/// Sub id of an error reply over a wire.
pub const ERROR_WIRED: u8 = 0x8F;

/// Sub id of an error reply over the air.
pub const ERROR_WIRELESS: u8 = 0xFF;

/// Which packets a directly connected device takes.
#[derive(Debug, Clone, Copy, PartialEq, Eq, Structural)]
pub enum DirectReport {
    ShortLong,
    LongOnly,
}

/// The length of a packet.
pub open spec fn packet_len(long: bool) -> nat {
    if long {
        LONG_LEN as nat
    } else {
        SHORT_LEN as nat
    }
}

/// A packet: report id, device, sub id and function, then the parameters that fit, then
/// zeros.
pub open spec fn packet(devnum: u8, sub_id: u8, func_byte: u8, params: Seq<u8>, long: bool) -> Seq<
    u8,
> {
    Seq::new(
        packet_len(long),
        |i: int|
            if i == 0 {
                if long {
                    HIDPP_LONG
                } else {
                    HIDPP_SHORT
                }
            } else if i == 1 {
                devnum
            } else if i == 2 {
                sub_id
            } else if i == 3 {
                func_byte
            } else if i - 4 < params.len() {
                params[i - 4]
            } else {
                0
            },
    )
}

/// Builds a packet.
pub fn build_packet(devnum: u8, sub_id: u8, func_byte: u8, params: &[u8], long: bool) -> (r: Vec<
    u8,
>)
    ensures
        r@ == packet(devnum, sub_id, func_byte, params@, long),
{
    let len: usize = if long {
        LONG_LEN
    } else {
        SHORT_LEN
    };
    let mut pkt: Vec<u8> = Vec::new();
    pkt.push(
        if long {
            HIDPP_LONG
        } else {
            HIDPP_SHORT
        },
    );
    pkt.push(devnum);
    pkt.push(sub_id);
    pkt.push(func_byte);
    let mut i: usize = 4;
    while i < len
        invariant
            4 <= i <= len,
            len == packet_len(long),
            pkt@ =~= packet(devnum, sub_id, func_byte, params@, long).take(i as int),
        decreases len - i,
    {
        if i - 4 < params.len() {
            pkt.push(params[i - 4]);
        } else {
            pkt.push(0);
        }
        i = i + 1;
    }
    pkt
}

/// What a packet carries can be read back: the header byte by byte, and the parameters as
/// far as there is room for them.
pub proof fn packets_carry_their_fields(
    devnum: u8,
    sub_id: u8,
    func_byte: u8,
    params: Seq<u8>,
    long: bool,
)
    ensures
        ({
            let p = packet(devnum, sub_id, func_byte, params, long);
            let n = if params.len() < packet_len(long) - 4 {
                params.len() as int
            } else {
                packet_len(long) - 4
            };
            &&& p.len() == packet_len(long)
            &&& p[1] == devnum
            &&& p[2] == sub_id
            &&& p[3] == func_byte
            &&& p.subrange(4, 4 + n) == params.take(n)
            &&& forall|i: int| 4 + n <= i < p.len() ==> p[i] == 0
        }),
{
    let p = packet(devnum, sub_id, func_byte, params, long);
    let n = if params.len() < packet_len(long) - 4 {
        params.len() as int
    } else {
        packet_len(long) - 4
    };
    assert(p.subrange(4, 4 + n) =~= params.take(n));
}

/// Something a device sent without being asked.
#[derive(Debug)]
pub struct HidppNotification {
    pub devnum: u8,
    pub sub_id: u8,
    pub address: u8,
    pub data: Vec<u8>,
}

/// The request that waits for a reply.
#[derive(Debug, Clone, Copy, PartialEq, Eq, Structural)]
pub struct InflightRequest {
    pub devnum: u8,
    pub sub_id: u8,
}

/// Where a received packet goes.
#[derive(Debug)]
pub enum Dispatch {
    /// It is no HID++ packet.
    Ignored,
    /// It answers the waiting request.
    Reply(Vec<u8>),
    /// It refuses the waiting request.
    Refusal { sub_id: u8, feature: u8, func: u8, code: u8 },
    /// It was not asked for.
    Notification(HidppNotification),
}

/// Whether bytes are a HID++ packet.
pub open spec fn is_hidpp(buf: Seq<u8>) -> bool {
    buf.len() >= 4 && (buf[0] == HIDPP_SHORT || buf[0] == HIDPP_LONG)
}

/// Whether a sub id marks an error reply.
pub open spec fn is_error_reply(sub_id: u8) -> bool {
    sub_id == ERROR_WIRED || sub_id == ERROR_WIRELESS
}

/// Whether a packet answers a request: it is from the same device, and repeats the sub id
/// or reports an error.
pub open spec fn answers(buf: Seq<u8>, inflight: Option<InflightRequest>) -> bool {
    match inflight {
        Some(req) => req.devnum == buf[1] && (req.sub_id == buf[2] || is_error_reply(buf[2])),
        None => false,
    }
}

/// The byte at a position, or 0 past the end.
pub open spec fn byte_at(buf: Seq<u8>, i: int) -> u8 {
    if i < buf.len() {
        buf[i]
    } else {
        0
    }
}

/// Whether `d` is where a packet goes while `inflight` waits.
pub open spec fn routed(buf: Seq<u8>, inflight: Option<InflightRequest>, d: Dispatch) -> bool {
    if !is_hidpp(buf) {
        d is Ignored
    } else if answers(buf, inflight) {
        if is_error_reply(buf[2]) {
            d == (Dispatch::Refusal {
                sub_id: buf[2],
                feature: buf[3],
                func: byte_at(buf, 4),
                code: byte_at(buf, 5),
            })
        } else {
            d is Reply && d->Reply_0@ == buf.skip(4)
        }
    } else {
        &&& d is Notification
        &&& d->Notification_0.devnum == buf[1]
        &&& d->Notification_0.sub_id == buf[2]
        &&& d->Notification_0.address == buf[3]
        &&& d->Notification_0.data@ == buf.skip(4)
    }
}

/// The request that still waits after a packet came in.
pub open spec fn still_waiting(buf: Seq<u8>, inflight: Option<InflightRequest>) -> Option<
    InflightRequest,
> {
    if is_hidpp(buf) && answers(buf, inflight) {
        None
    } else {
        inflight
    }
}

/// Copies bytes from a position on.
fn tail(buf: &[u8], from: usize) -> (r: Vec<u8>)
    requires
        from <= buf@.len(),
    ensures
        r@ == buf@.skip(from as int),
{
    let n: usize = buf.len();
    let mut out: Vec<u8> = Vec::new();
    let mut i: usize = from;
    while i < n
        invariant
            from <= i <= n,
            n == buf@.len(),
            out@ =~= buf@.subrange(from as int, i as int),
        decreases n - i,
    {
        out.push(buf[i]);
        i = i + 1;
    }
    out
}

/// Routes a received packet.
pub fn dispatch_packet(buf: &[u8], inflight: &mut Option<InflightRequest>) -> (r: Dispatch)
    ensures
        routed(buf@, *old(inflight), r),
        *final(inflight) == still_waiting(buf@, *old(inflight)),
{
    if buf.len() < 4 {
        return Dispatch::Ignored;
    }
    if buf[0] != HIDPP_SHORT && buf[0] != HIDPP_LONG {
        return Dispatch::Ignored;
    }
    let devnum: u8 = buf[1];
    let sub_id: u8 = buf[2];
    let address: u8 = buf[3];
    let is_error = sub_id == ERROR_WIRED || sub_id == ERROR_WIRELESS;
    let matched = match *inflight {
        Some(req) => req.devnum == devnum && (req.sub_id == sub_id || is_error),
        None => false,
    };
    if matched {
        *inflight = None;
        if is_error {
            let func: u8 = if buf.len() > 4 {
                buf[4]
            } else {
                0
            };
            let code: u8 = if buf.len() > 5 {
                buf[5]
            } else {
                0
            };
            Dispatch::Refusal { sub_id, feature: address, func, code }
        } else {
            Dispatch::Reply(tail(buf, 4))
        }
    } else {
        Dispatch::Notification(HidppNotification { devnum, sub_id, address, data: tail(buf, 4) })
    }
}

/// What a listener does after a failed read.
#[derive(Debug, Clone, Copy, PartialEq, Eq, Structural)]
pub enum ReadErrorAction {
    /// Logs the error and tries again.
    LogAndRetry,
    /// Tries again.
    Retry,
    /// Takes the device for disconnected.
    Stop,
}

/// The reaction to a failed read: an explicit disconnect or a long run of errors stops, the
/// first error of a run is logged.
pub open spec fn read_error_action(msg: Seq<char>, consecutive_errors: u32) -> ReadErrorAction {
    if contains_text(msg, "disconnected"@) || contains_text(msg, "poll error"@) {
        ReadErrorAction::Stop
    } else if consecutive_errors >= MAX_CONSECUTIVE_READ_ERRORS {
        ReadErrorAction::Stop
    } else if consecutive_errors <= 1 {
        ReadErrorAction::LogAndRetry
    } else {
        ReadErrorAction::Retry
    }
}

/// Decides how to react to a failed read.
pub fn classify_read_error(msg: &str, consecutive_errors: u32) -> (r: ReadErrorAction)
    ensures
        r == read_error_action(msg@, consecutive_errors),
{
    if find_text(msg, "disconnected") || find_text(msg, "poll error") {
        return ReadErrorAction::Stop;
    }
    if consecutive_errors >= MAX_CONSECUTIVE_READ_ERRORS {
        return ReadErrorAction::Stop;
    }
    if consecutive_errors <= 1 {
        ReadErrorAction::LogAndRetry
    } else {
        ReadErrorAction::Retry
    }
}

/// How a read ended.
#[derive(Debug)]
pub enum ReadOutcome {
    Data(Vec<u8>),
    Failed(String),
}

/// What a listener does next.
#[derive(Debug)]
pub enum ListenerAction {
    /// Routes what was read, then reads again.
    Dispatch(Vec<u8>),
    /// Reads again.
    Read,
    /// Pauses, then reads again; logs the error first where it is the first of a run.
    BackOff { log: bool },
    /// Ends.
    Stop,
}

/// A task that reads one handle of a device.
#[derive(Debug, Clone, Copy, PartialEq, Eq, Structural)]
pub struct Listener {
    pub consecutive_errors: u32,
}

impl Listener {
    /// A run of errors ends a listener before it can grow further.
    pub open spec fn wf(&self) -> bool {
        self.consecutive_errors < MAX_CONSECUTIVE_READ_ERRORS
    }

    /// A listener that has not read yet.
    pub fn new() -> (r: Self)
        ensures
            r.wf(),
            r.consecutive_errors == 0,
    {
        Listener { consecutive_errors: 0 }
    }

    /// What follows a read. After a stop the listener is not used again.
    pub fn advance(&mut self, outcome: ReadOutcome) -> (r: ListenerAction)
        requires
            old(self).wf(),
        ensures
            match outcome {
                ReadOutcome::Data(buf) => {
                    &&& final(self).consecutive_errors == 0
                    &&& if buf@.len() > 0 {
                        r == ListenerAction::Dispatch(buf)
                    } else {
                        r is Read
                    }
                },
                ReadOutcome::Failed(msg) => {
                    let n = (old(self).consecutive_errors + 1) as u32;
                    &&& final(self).consecutive_errors == n
                    &&& match read_error_action(msg@, n) {
                        ReadErrorAction::Stop => r is Stop,
                        ReadErrorAction::LogAndRetry => r == (ListenerAction::BackOff {
                            log: true,
                        }),
                        ReadErrorAction::Retry => r == (ListenerAction::BackOff { log: false }),
                    }
                },
            },
            !(r is Stop) ==> final(self).wf(),
    {
        match outcome {
            ReadOutcome::Data(buf) => {
                self.consecutive_errors = 0;
                if buf.len() > 0 {
                    ListenerAction::Dispatch(buf)
                } else {
                    ListenerAction::Read
                }
            },
            ReadOutcome::Failed(msg) => {
                self.consecutive_errors = self.consecutive_errors + 1;
                match classify_read_error(msg.as_str(), self.consecutive_errors) {
                    ReadErrorAction::Stop => ListenerAction::Stop,
                    ReadErrorAction::LogAndRetry => ListenerAction::BackOff { log: true },
                    ReadErrorAction::Retry => ListenerAction::BackOff { log: false },
                }
            },
        }
    }
}

/// How writing a request ended.
#[derive(Debug, Clone, Copy, PartialEq, Eq, Structural)]
pub enum WriteOutcome {
    Done,
    Failed,
    TimedOut,
}

/// Why a request came to nothing.
#[derive(Debug, Clone, Copy, PartialEq, Eq, Structural)]
pub enum RequestError {
    WriteFailed,
    WriteTimeout { devnum: u8, sub_id: u8 },
    ReplyTimeout { devnum: u8, sub_id: u8 },
}

/// The sub id that reads a register; the ninth address bit selects the long form.
pub open spec fn read_sub_id(register: u16) -> u8 {
    if (register / 512) % 2 == 1 {
        0x83
    } else {
        0x81
    }
}

/// The sub id that writes a register.
pub open spec fn write_sub_id(register: u16) -> u8 {
    if (register / 512) % 2 == 1 {
        0x82
    } else {
        0x80
    }
}

/// The first three parameters of a register access.
pub open spec fn register_params(params: Seq<u8>) -> Seq<u8> {
    Seq::new(3, |i: int| byte_at(params, i))
}

/// The packet that reads a register.
pub open spec fn read_packet(devnum: u8, register: u16, params: Seq<u8>) -> Seq<u8> {
    packet(
        devnum,
        read_sub_id(register),
        (register % 256) as u8,
        register_params(params),
        false,
    )
}

/// The packet that writes a register.
pub open spec fn write_packet(devnum: u8, register: u16, params: Seq<u8>) -> Seq<u8> {
    packet(
        devnum,
        write_sub_id(register),
        (register % 256) as u8,
        register_params(params),
        false,
    )
}

/// The packet that calls a function of a feature. The low half of the function byte tells
/// the reply from those to other programs.
pub open spec fn feature_packet(
    force_long: bool,
    devnum: u8,
    feature_index: u8,
    function: u8,
    params: Seq<u8>,
) -> Seq<u8> {
    packet(
        devnum,
        feature_index,
        function | 1u8,
        params,
        force_long || params.len() > 3 || feature_index > 0,
    )
}

/// The first three parameters of a register access.
fn first_three(params: &[u8]) -> (r: [u8; 3])
    ensures
        r@ == register_params(params@),
{
    let mut p: [u8; 3] = [0u8; 3];
    let n: usize = params.len();
    if n > 0 {
        p[0] = params[0];
    }
    if n > 1 {
        p[1] = params[1];
    }
    if n > 2 {
        p[2] = params[2];
    }
    proof {
        assert(p@ =~= register_params(params@));
    }
    p
}

/// The bits of a register address that select the sub id.
proof fn lemma_sub_ids(register: u16)
    ensures
        0x81u8 | (((register / 256) as u8) & 0x02u8) == read_sub_id(register),
        0x80u8 | (((register / 256) as u8) & 0x02u8) == write_sub_id(register),
{
    let hi = (register / 256) as u8;
    assert(hi & 0x02u8 == if (hi / 2) % 2 == 1 {
        2u8
    } else {
        0u8
    }) by (bit_vector);
    assert(0x81u8 | 0x02u8 == 0x83u8 && 0x81u8 | 0x00u8 == 0x81u8 && 0x80u8 | 0x02u8 == 0x82u8
        && 0x80u8 | 0x00u8 == 0x80u8) by (bit_vector);
}

/// The request side of a connection: at most one request waits at a time.
#[derive(Debug, Clone, Copy, PartialEq, Eq, Structural)]
pub struct HidppMessenger {
    pub inflight: Option<InflightRequest>,
    pub force_long: bool,
}

impl HidppMessenger {
    /// A connection on which nothing waits.
    pub fn new() -> (r: Self)
        ensures
            r.inflight is None,
            !r.force_long,
    {
        HidppMessenger { inflight: None, force_long: false }
    }

    /// The same connection with every feature call in a long packet.
    pub fn with_long_requests(self) -> (r: Self)
        ensures
            r.inflight == self.inflight,
            r.force_long,
    {
        HidppMessenger { inflight: self.inflight, force_long: true }
    }

    /// Starts to wait for a reply, and returns the packet that asks for it.
    pub fn send_and_wait(
        &mut self,
        devnum: u8,
        sub_id: u8,
        func_byte: u8,
        params: &[u8],
        long: bool,
    ) -> (r: Vec<u8>)
        ensures
            final(self).inflight == Some(InflightRequest { devnum, sub_id }),
            final(self).force_long == old(self).force_long,
            r@ == packet(devnum, sub_id, func_byte, params@, long),
    {
        self.inflight = Some(InflightRequest { devnum, sub_id });
        build_packet(devnum, sub_id, func_byte, params, long)
    }

    /// What the end of a write means for the waiting request.
    pub fn written(&mut self, devnum: u8, sub_id: u8, outcome: WriteOutcome) -> (r: Result<
        (),
        RequestError,
    >)
        ensures
            final(self).force_long == old(self).force_long,
            match outcome {
                WriteOutcome::Done => r is Ok && final(self).inflight == old(self).inflight,
                WriteOutcome::Failed => r == Err::<(), RequestError>(RequestError::WriteFailed)
                    && final(self).inflight is None,
                WriteOutcome::TimedOut => r == Err::<(), RequestError>(
                    RequestError::WriteTimeout { devnum, sub_id },
                ) && final(self).inflight is None,
            },
    {
        match outcome {
            WriteOutcome::Done => Ok(()),
            WriteOutcome::Failed => {
                self.inflight = None;
                Err(RequestError::WriteFailed)
            },
            WriteOutcome::TimedOut => {
                self.inflight = None;
                Err(RequestError::WriteTimeout { devnum, sub_id })
            },
        }
    }

    /// Gives up on a reply.
    pub fn reply_timed_out(&mut self, devnum: u8, sub_id: u8) -> (r: RequestError)
        ensures
            final(self).inflight is None,
            final(self).force_long == old(self).force_long,
            r == (RequestError::ReplyTimeout { devnum, sub_id }),
    {
        self.inflight = None;
        RequestError::ReplyTimeout { devnum, sub_id }
    }

    /// Routes a received packet.
    pub fn received(&mut self, buf: &[u8]) -> (r: Dispatch)
        ensures
            routed(buf@, old(self).inflight, r),
            final(self).inflight == still_waiting(buf@, old(self).inflight),
            final(self).force_long == old(self).force_long,
    {
        let mut inflight: Option<InflightRequest> = self.inflight;
        let r = dispatch_packet(buf, &mut inflight);
        self.inflight = inflight;
        r
    }

    /// Reads a register.
    pub fn hidpp10_read(&mut self, devnum: u8, register: u16, params: &[u8]) -> (r: Vec<u8>)
        ensures
            final(self).inflight == Some(
                InflightRequest { devnum, sub_id: read_sub_id(register) },
            ),
            final(self).force_long == old(self).force_long,
            r@ == read_packet(devnum, register, params@),
    {
        let sub_id: u8 = 0x81u8 | (((register / 256) as u8) & 0x02);
        proof {
            lemma_sub_ids(register);
        }
        let p: [u8; 3] = first_three(params);
        self.send_and_wait(devnum, sub_id, (register % 256) as u8, &p, false)
    }

    /// Writes a register; there is no reply.
    pub fn hidpp10_write(devnum: u8, register: u16, params: &[u8]) -> (r: Vec<u8>)
        ensures
            r@ == write_packet(devnum, register, params@),
    {
        let sub_id: u8 = 0x80u8 | (((register / 256) as u8) & 0x02);
        proof {
            lemma_sub_ids(register);
        }
        let p: [u8; 3] = first_three(params);
        build_packet(devnum, sub_id, (register % 256) as u8, &p, false)
    }

    /// Calls a function of a feature.
    pub fn feature_request(
        &mut self,
        devnum: u8,
        feature_index: u8,
        function: u8,
        params: &[u8],
    ) -> (r: Vec<u8>)
        ensures
            final(self).inflight == Some(InflightRequest { devnum, sub_id: feature_index }),
            final(self).force_long == old(self).force_long,
            r@ == feature_packet(old(self).force_long, devnum, feature_index, function, params@),
    {
        let func_byte: u8 = function | 0x01;
        let long = self.force_long || params.len() > 3 || feature_index > 0;
        self.send_and_wait(devnum, feature_index, func_byte, params, long)
    }

    /// A vendor command in a long packet; there is no reply.
    pub fn hidpp_long_fire(devnum: u8, sub_id: u8, address: u8, params: &[u8]) -> (r: Vec<u8>)
        ensures
            r@ == packet(devnum, sub_id, address, params@, true),
    {
        build_packet(devnum, sub_id, address, params, true)
    }
}

/// A reply from the asked device under the asked sub id ends the wait, and nothing else from
/// another device does.
pub proof fn replies_reach_their_request(
    req: InflightRequest,
    func_byte: u8,
    data: Seq<u8>,
    long: bool,
    other: Seq<u8>,
)
    requires
        is_hidpp(other),
        other[1] != req.devnum,
        !is_error_reply(req.sub_id),
    ensures
        still_waiting(packet(req.devnum, req.sub_id, func_byte, data, long), Some(req)) is None,
        forall|d: Dispatch|
            #[trigger] routed(
                packet(req.devnum, req.sub_id, func_byte, data, long),
                Some(req),
                d,
            ) ==> d is Reply,
        still_waiting(other, Some(req)) == Some(req),
{
}

/// However long reads keep failing, a listener ends: after as many failures as the run of
/// errors still allows it has stopped.
pub proof fn listeners_give_up(errors: u32, msg: Seq<char>)
    requires
        errors < MAX_CONSECUTIVE_READ_ERRORS,
    ensures
        errors + 1 == MAX_CONSECUTIVE_READ_ERRORS ==> read_error_action(
            msg,
            (errors + 1) as u32,
        ) is Stop,
        !(read_error_action(msg, (errors + 1) as u32) is Stop) ==> errors + 1
            < MAX_CONSECUTIVE_READ_ERRORS,
{
}

/// Packets that devices behind one receiver want written together, by device number.
#[derive(Debug)]
pub struct PkWriteCoordinator {
    pub pending: HashMap<u8, Vec<Vec<u8>>>,
}

impl PkWriteCoordinator {
    /// Nothing is waiting.
    pub fn new() -> (r: Self)
        ensures
            r.pending@ == Map::<u8, Vec<Vec<u8>>>::empty(),
    {
        broadcast use vstd::std_specs::hash::group_hash_axioms;

        PkWriteCoordinator { pending: HashMap::new() }
    }

    /// Replaces what a device wants written.
    pub fn post(&mut self, devnum: u8, packets: Vec<Vec<u8>>)
        ensures
            final(self).pending@ == old(self).pending@.insert(devnum, packets),
    {
        broadcast use vstd::std_specs::hash::group_hash_axioms;

        self.pending.insert(devnum, packets);
    }
}

/// Whether a packet is a short or a long one with the given header, followed by the given
/// parameters and nothing but zeros.
pub open spec fn reads_as(p: Seq<u8>, devnum: u8, sub_id: u8, func_byte: u8, params: Seq<u8>) -> bool {
    &&& p.len() == 7 && p[0] == 0x10 || p.len() == 20 && p[0] == 0x11
    &&& p[1] == devnum
    &&& p[2] == sub_id
    &&& p[3] == func_byte
    &&& params.len() + 4 <= p.len()
    &&& forall|i: int| 0 <= i < params.len() ==> p[4 + i] == #[trigger] params[i]
    &&& forall|i: int| 4 + params.len() <= i < p.len() ==> #[trigger] p[i] == 0
}

/// A packet with room for its parameters carries all of them; it is long exactly where it
/// was asked to be.
pub proof fn packets_read_as_built(
    devnum: u8,
    sub_id: u8,
    func_byte: u8,
    params: &[u8],
    long: bool,
    r: Vec<u8>,
)
    requires
        call_ensures(build_packet, (devnum, sub_id, func_byte, params, long), r),
    ensures
        r@.len() == if long {
            20nat
        } else {
            7nat
        },
        params@.len() + 4 <= r@.len() ==> reads_as(r@, devnum, sub_id, func_byte, params@),
{
}

/// A function byte carries the number of this program in its lowest bit.
pub(crate) proof fn odd_bytes(function: u8)
    requires
        function % 2 == 0,
    ensures
        function | 1u8 == function + 1,
{
    assert(function % 2 == 0 ==> function | 1u8 == function + 1) by (bit_vector);
}

/// A feature is called under its index, with the program number one beside the function, in
/// a long packet unless the root is called with at most three parameters and short packets
/// are taken. The request then waits for a reply from that device and index.
pub proof fn features_are_called_by_index(
    m: &mut HidppMessenger,
    devnum: u8,
    index: u8,
    function: u8,
    params: &[u8],
    r: Vec<u8>,
)
    requires
        call_ensures(HidppMessenger::feature_request, (m, devnum, index, function, params), r),
        function % 2 == 0,
        params@.len() <= 16,
    ensures
        reads_as(r@, devnum, index, (function + 1) as u8, params@),
        r@.len() == 7 <==> !old(m).force_long && index == 0 && params@.len() <= 3,
        final(m).inflight == Some(InflightRequest { devnum, sub_id: index }),
{
    odd_bytes(function);
}

/// A register is read and written in a short packet under its low byte; registers with a
/// ninth address bit have sub ids of their own. Only a read waits for a reply.
pub proof fn registers_are_accessed_by_address(
    m: &mut HidppMessenger,
    devnum: u8,
    register: u16,
    params: &[u8],
    read: Vec<u8>,
    write: Vec<u8>,
    i: int,
)
    requires
        call_ensures(HidppMessenger::hidpp10_read, (m, devnum, register, params), read),
        call_ensures(HidppMessenger::hidpp10_write, (devnum, register, params), write),
        register < 0x400,
        0 <= i < 3,
    ensures
        read@.len() == 7 && write@.len() == 7,
        read@[0] == 0x10 && write@[0] == 0x10,
        read@[1] == devnum && write@[1] == devnum,
        register < 0x200 ==> read@[2] == 0x81 && write@[2] == 0x80,
        register >= 0x200 ==> read@[2] == 0x83 && write@[2] == 0x82,
        read@[3] == register % 256 && write@[3] == register % 256,
        i < params@.len() ==> read@[4 + i] == params@[i] && write@[4 + i] == params@[i],
        i >= params@.len() ==> read@[4 + i] == 0 && write@[4 + i] == 0,
        final(m).inflight == Some(InflightRequest { devnum, sub_id: read@[2] }),
{
}

/// A vendor command is one long packet; a request that is sent waits for its reply.
pub proof fn commands_are_sent_as_given(
    m: &mut HidppMessenger,
    devnum: u8,
    sub_id: u8,
    func_byte: u8,
    params: &[u8],
    fired: Vec<u8>,
    sent: Vec<u8>,
    long: bool,
)
    requires
        call_ensures(HidppMessenger::hidpp_long_fire, (devnum, sub_id, func_byte, params), fired),
        call_ensures(
            HidppMessenger::send_and_wait,
            (m, devnum, sub_id, func_byte, params, long),
            sent,
        ),
        params@.len() <= 3,
    ensures
        fired@.len() == 20 && reads_as(fired@, devnum, sub_id, func_byte, params@),
        reads_as(sent@, devnum, sub_id, func_byte, params@),
        sent@.len() == 20 <==> long,
        final(m).inflight == Some(InflightRequest { devnum, sub_id }),
{
}

/// A packet reaches the waiting request exactly where it comes from its device and repeats
/// its sub id or reports an error; it then ends the wait. Everything else that is a HID++
/// packet is a notification, and what is none is ignored.
pub proof fn packets_are_routed(
    m: &mut HidppMessenger,
    buf: &[u8],
    d: Dispatch,
    devnum: u8,
    sub_id: u8,
)
    requires
        call_ensures(HidppMessenger::received, (m, buf), d),
        old(m).inflight == Some(InflightRequest { devnum, sub_id }),
    ensures
        d is Ignored <==> buf@.len() < 4 || buf@[0] != 0x10 && buf@[0] != 0x11,
        d !is Ignored ==> {
            let error = buf@[2] == 0x8F || buf@[2] == 0xFF;
            &&& d is Reply <==> buf@[1] == devnum && buf@[2] == sub_id && !error
            &&& d is Refusal <==> buf@[1] == devnum && error
            &&& d is Notification <==> buf@[1] != devnum || buf@[2] != sub_id && !error
        },
        d is Reply || d is Refusal <==> final(m).inflight is None,
        d is Notification || d is Ignored ==> final(m).inflight == old(m).inflight,
        d matches Dispatch::Reply(data) ==> data@ == buf@.skip(4),
        d matches Dispatch::Refusal { sub_id: s, feature, func, code } ==> s == buf@[2] && feature
            == buf@[3] && (buf@.len() >= 6 ==> func == buf@[4] && code == buf@[5]),
        d matches Dispatch::Notification(n) ==> n.devnum == buf@[1] && n.sub_id == buf@[2]
            && n.address == buf@[3] && n.data@ == buf@.skip(4),
{
}

/// Where nothing waits, every HID++ packet is a notification.
pub proof fn unasked_packets_are_notifications(m: &mut HidppMessenger, buf: &[u8], d: Dispatch)
    requires
        call_ensures(HidppMessenger::received, (m, buf), d),
        old(m).inflight is None,
    ensures
        final(m).inflight is None,
        d is Notification <==> buf@.len() >= 4 && (buf@[0] == 0x10 || buf@[0] == 0x11),
        d is Notification || d is Ignored,
{
}

/// A request ends with its error where it could not be written or is not answered.
pub proof fn requests_end_with_their_error(
    w: &mut HidppMessenger,
    t: &mut HidppMessenger,
    devnum: u8,
    sub_id: u8,
    outcome: WriteOutcome,
    written: Result<(), RequestError>,
    late: RequestError,
)
    requires
        call_ensures(HidppMessenger::written, (w, devnum, sub_id, outcome), written),
        call_ensures(HidppMessenger::reply_timed_out, (t, devnum, sub_id), late),
    ensures
        written is Ok <==> outcome is Done,
        outcome is Done ==> final(w).inflight == old(w).inflight,
        outcome !is Done ==> final(w).inflight is None,
        outcome is Failed ==> written == Err::<(), RequestError>(RequestError::WriteFailed),
        outcome is TimedOut ==> written == Err::<(), RequestError>(
            RequestError::WriteTimeout { devnum, sub_id },
        ),
        late == (RequestError::ReplyTimeout { devnum, sub_id }),
        final(t).inflight is None,
{
}

/// A listener stops at once where it is told that the device is gone, and else after twenty
/// failed reads in a row; only the first of a row is logged. Any read that works ends the
/// row, and what it brought is handed on.
pub proof fn listeners_react_to_reads(
    l: &mut Listener,
    outcome: ReadOutcome,
    r: ListenerAction,
)
    requires
        call_ensures(Listener::advance, (l, outcome), r),
        old(l).consecutive_errors < 20,
    ensures
        outcome matches ReadOutcome::Data(buf) ==> final(l).consecutive_errors == 0 && (buf@.len()
            > 0 ==> (r matches ListenerAction::Dispatch(b) && b@ == buf@)) && (buf@.len() == 0 ==> r
            is Read),
        outcome matches ReadOutcome::Failed(msg) ==> {
            let gone = contains_text(msg@, "disconnected"@) || contains_text(
                msg@,
                "poll error"@,
            );
            &&& final(l).consecutive_errors == old(l).consecutive_errors + 1
            &&& r is Stop <==> gone || old(l).consecutive_errors == 19
            &&& r !is Stop ==> r == (ListenerAction::BackOff {
                log: old(l).consecutive_errors == 0,
            })
        },
{
}

/// What a device posts replaces what it posted before, and leaves what others posted.
pub proof fn posts_replace_their_own(
    c: &mut PkWriteCoordinator,
    devnum: u8,
    packets: Vec<Vec<u8>>,
    other: u8,
)
    requires
        call_ensures(PkWriteCoordinator::post, (c, devnum, packets), ()),
        other != devnum,
    ensures
        final(c).pending@.contains_key(devnum),
        final(c).pending@[devnum] == packets,
        final(c).pending@.contains_key(other) <==> old(c).pending@.contains_key(other),
        old(c).pending@.contains_key(other) ==> final(c).pending@[other] == old(c).pending@[other],
{
}

/// A packet is routed the same way with or without a connection around it.
pub proof fn packets_are_routed_alike(
    m: &mut HidppMessenger,
    inflight: &mut Option<InflightRequest>,
    buf: &[u8],
    d: Dispatch,
    e: Dispatch,
)
    requires
        *old(inflight) == old(m).inflight,
        call_ensures(HidppMessenger::received, (m, buf), d),
        call_ensures(dispatch_packet, (buf, inflight), e),
    ensures
        *final(inflight) == final(m).inflight,
        d is Reply <==> e is Reply,
        d is Refusal <==> e is Refusal,
        d is Notification <==> e is Notification,
        d is Reply ==> d->Reply_0@ == e->Reply_0@,
        d is Refusal ==> d == e,
{
}

/// An explicit disconnect stops at once and so does the twentieth failure in a row; before
/// that only the first failure is logged.
pub proof fn read_errors_are_classified(msg: &str, consecutive_errors: u32, r: ReadErrorAction)
    requires
        call_ensures(classify_read_error, (msg, consecutive_errors), r),
    ensures
        r == ReadErrorAction::Stop <==> consecutive_errors >= 20 || contains_text(
            msg@,
            "disconnected"@,
        ) || contains_text(msg@, "poll error"@),
        r == ReadErrorAction::LogAndRetry ==> consecutive_errors <= 1,
        r == ReadErrorAction::Retry ==> consecutive_errors > 1,
{
}

/// A new connection waits for nothing and sends short calls; one with long requests sends
/// long ones and still waits for what it waited for. New listeners have seen no error and
/// new coordinators hold nothing.
pub proof fn connections_start_idle(
    m: HidppMessenger,
    before: HidppMessenger,
    long: HidppMessenger,
    l: Listener,
    c: PkWriteCoordinator,
    devnum: u8,
)
    requires
        call_ensures(HidppMessenger::new, (), m),
        call_ensures(HidppMessenger::with_long_requests, (before,), long),
        call_ensures(Listener::new, (), l),
        call_ensures(PkWriteCoordinator::new, (), c),
    ensures
        m.inflight is None && !m.force_long,
        long.force_long && long.inflight == before.inflight,
        l.consecutive_errors == 0,
        !c.pending@.contains_key(devnum),
{
}

} // verus!
