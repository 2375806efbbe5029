//! Razer's vendor report: a 90-byte record behind a report id, closed by an XOR checksum.

use crate::bytes::{xor_all, xor_range};
use vstd::prelude::*;

pub mod dpi;
pub mod matrix;

verus! {

/// USB vendor id.
pub const RAZER_VID: u16 = 0x1532;

/// Length of a report.
pub const REPORT_LEN: usize = 90;

/// Length of a report with its report id.
pub const BUF_LEN: usize = 91;

/// Room for arguments in a report.
pub const ARGS_LEN: usize = 80;

/// Do not store the setting.
pub const NOSTORE: u8 = 0x00;

/// Store the setting in the device.
pub const VARSTORE: u8 = 0x01;

/// The zone that stands for the whole device.
pub const LED_ZERO: u8 = 0x00;

/// Where the arguments start in the buffer.
pub const ARGS_AT: usize = 9;

/// Where the checksum stands in the buffer.
pub const CRC_AT: usize = 89;

/// A report before its checksum is filled in.
pub open spec fn report_body(txid: u8, class: u8, id: u8, data_size: u8, args: Seq<u8>) -> Seq<u8> {
    Seq::new(
        BUF_LEN as nat,
        |i: int|
            if i == 2 {
                txid
            } else if i == 6 {
                data_size
            } else if i == 7 {
                class
            } else if i == 8 {
                id
            } else if ARGS_AT <= i < CRC_AT && i - ARGS_AT < args.len() {
                args[i - ARGS_AT]
            } else {
                0
            },
    )
}

/// A complete report: the checksum is the XOR of everything from the byte behind the
/// transaction id to the last argument.
pub open spec fn report_bytes(txid: u8, class: u8, id: u8, data_size: u8, args: Seq<u8>) -> Seq<
    u8,
> {
    let body = report_body(txid, class, id, data_size, args);
    body.update(CRC_AT as int, xor_all(body.subrange(3, CRC_AT as int)))
}

/// Builds the wire buffer; arguments beyond the room for them are dropped.
pub fn build_report(txid: u8, class: u8, id: u8, data_size: u8, args: &[u8]) -> (r: [u8; 91])
    ensures
        r@ == report_bytes(txid, class, id, data_size, args@),
{
    let mut buf: [u8; 91] = [0u8; 91];
    buf[2] = txid;
    buf[6] = data_size;
    buf[7] = class;
    buf[8] = id;
    let n: usize = if args.len() < ARGS_LEN {
        args.len()
    } else {
        ARGS_LEN
    };
    let mut i: usize = 0;
    while i < n
        invariant
            i <= n,
            n <= ARGS_LEN,
            n <= args@.len(),
            buf@.len() == BUF_LEN,
            buf@ =~= report_body(txid, class, id, data_size, args@.take(i as int)),
        decreases n - i,
    {
        buf[ARGS_AT + i] = args[i];
        i = i + 1;
    }
    proof {
        assert(buf@ =~= report_body(txid, class, id, data_size, args@));
    }
    let crc: u8 = xor_range(&buf, 3, CRC_AT);
    buf[CRC_AT] = crc;
    buf
}

/// Reports of one device, which all carry its transaction id.
#[derive(Debug, Clone, Copy, PartialEq, Eq, Structural)]
pub struct Razer {
    pub txid: u8,
}

impl Razer {
    /// Reports with the given transaction id.
    pub fn with_transport(txid: u8) -> (r: Self)
        ensures
            r.txid == txid,
    {
        Razer { txid }
    }

    /// One report.
    pub fn report(&self, class: u8, id: u8, data_size: u8, args: &[u8]) -> (r: [u8; 91])
        ensures
            r@ == report_bytes(self.txid, class, id, data_size, args@),
    {
        build_report(self.txid, class, id, data_size, args)
    }
}

/// The checksum of a report does not depend on the transaction id: two reports that differ
/// only there agree everywhere else.
pub proof fn checksum_ignores_the_transaction_id(
    a: u8,
    b: u8,
    class: u8,
    id: u8,
    data_size: u8,
    args: Seq<u8>,
)
    ensures
        report_bytes(a, class, id, data_size, args).update(2, b) == report_bytes(
            b,
            class,
            id,
            data_size,
            args,
        ),
{
    let x = report_body(a, class, id, data_size, args);
    let y = report_body(b, class, id, data_size, args);
    assert(x.subrange(3, CRC_AT as int) =~= y.subrange(3, CRC_AT as int));
    assert(report_bytes(a, class, id, data_size, args).update(2, b) =~= report_bytes(
        b,
        class,
        id,
        data_size,
        args,
    ));
}

/// Everything that was put into a report can be read out of it again, up to the room for
/// arguments, and the checksum closes it to zero.
pub proof fn reports_carry_their_fields(txid: u8, class: u8, id: u8, data_size: u8, args: Seq<u8>)
    ensures
        ({
            let r = report_bytes(txid, class, id, data_size, args);
            let n = if args.len() < ARGS_LEN {
                args.len() as int
            } else {
                ARGS_LEN as int
            };
            &&& r.len() == BUF_LEN
            &&& r[0] == 0
            &&& r[2] == txid
            &&& r[6] == data_size
            &&& r[7] == class
            &&& r[8] == id
            &&& r.subrange(ARGS_AT as int, ARGS_AT + n) == args.take(n)
            &&& xor_all(r.subrange(3, CRC_AT + 1)) == 0
        }),
{
    let r = report_bytes(txid, class, id, data_size, args);
    let body = report_body(txid, class, id, data_size, args);
    let n = if args.len() < ARGS_LEN {
        args.len() as int
    } else {
        ARGS_LEN as int
    };
    assert(r.subrange(ARGS_AT as int, ARGS_AT + n) =~= args.take(n));
    let s = r.subrange(3, CRC_AT + 1);
    assert(s.drop_last() =~= body.subrange(3, CRC_AT as int));
    let c = s.last();
    assert(c ^ c == 0) by (bit_vector);
}

/// A report of 91 bytes has the transaction id at 2, the size at 6, the class at 7, the
/// command at 8 and up to 80 arguments from 9 on. Every byte between and behind them is
/// zero but the checksum at 89, which closes bytes 3 to 89 to zero.
pub proof fn reports_have_their_layout(
    d: Razer,
    class: u8,
    id: u8,
    data_size: u8,
    args: &[u8],
    r: [u8; 91],
    s: [u8; 91],
    i: int,
)
    requires
        call_ensures(Razer::report, (&d, class, id, data_size, args), r),
        call_ensures(build_report, (d.txid, class, id, data_size, args), s),
        0 <= i < 80,
    ensures
        r@ == s@,
        r@[0] == 0 && r@[1] == 0 && r@[3] == 0 && r@[4] == 0 && r@[5] == 0 && r@[90] == 0,
        r@[2] == d.txid && r@[6] == data_size && r@[7] == class && r@[8] == id,
        i < args@.len() ==> r@[9 + i] == args@[i],
        i >= args@.len() ==> r@[9 + i] == 0,
        xor_all(r@.subrange(3, 90)) == 0,
{
    reports_carry_their_fields(d.txid, class, id, data_size, args@);
}

/// What a report with given arguments holds.
pub open spec fn carries(r: Seq<u8>, txid: u8, class: u8, id: u8, size: u8, args: Seq<u8>) -> bool {
    &&& r.len() == 91
    &&& r[0] == 0 && r[1] == 0 && r[3] == 0 && r[4] == 0 && r[5] == 0 && r[90] == 0
    &&& r[2] == txid && r[6] == size && r[7] == class && r[8] == id
    &&& forall|i: int|
        0 <= i < 80 ==> #[trigger] r[9 + i] == if i < args.len() {
            args[i]
        } else {
            0
        }
    &&& xor_all(r.subrange(3, 90)) == 0
}

/// Every report holds its arguments.
pub proof fn lemma_carries(txid: u8, class: u8, id: u8, size: u8, args: Seq<u8>)
    ensures
        carries(report_bytes(txid, class, id, size, args), txid, class, id, size, args),
{
    reports_carry_their_fields(txid, class, id, size, args);
}

} // verus!
