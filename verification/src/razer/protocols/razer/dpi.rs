//! Sensitivity and polling rate.

use crate::bytes::{be16, hi_byte, lo_byte};
use crate::razer::protocols::razer::{carries, lemma_carries, report_bytes, Razer, VARSTORE};
use vstd::prelude::*;

verus! {

/// Command class of sensitivity.
pub const CLASS_DPI: u8 = 0x04;

/// Sets the sensitivity.
pub const ID_SET_DPI: u8 = 0x05;

/// Command class of device settings.
pub const CLASS_MISC: u8 = 0x00;

/// Sets the polling rate.
pub const ID_SET_POLLING: u8 = 0x05;

/// The arguments that set both sensitivities, stored, most significant byte first.
pub open spec fn dpi_args(dpi_x: u16, dpi_y: u16) -> Seq<u8> {
    seq![
        VARSTORE,
        (dpi_x / 256) as u8,
        (dpi_x % 256) as u8,
        (dpi_y / 256) as u8,
        (dpi_y % 256) as u8,
        0u8,
        0u8,
    ]
}

/// The report that sets one sensitivity for both directions.
pub open spec fn dpi_report(txid: u8, dpi_x: u16, dpi_y: u16) -> Seq<u8> {
    report_bytes(txid, CLASS_DPI, ID_SET_DPI, 7, dpi_args(dpi_x, dpi_y))
}

/// Encodes the arguments that set the sensitivity.
pub fn encode_dpi_xy(dpi_x: u16, dpi_y: u16) -> (r: [u8; 7])
    ensures
        r@ == dpi_args(dpi_x, dpi_y),
{
    let r: [u8; 7] = [
        VARSTORE,
        hi_byte(dpi_x),
        lo_byte(dpi_x),
        hi_byte(dpi_y),
        lo_byte(dpi_y),
        0,
        0,
    ];
    proof {
        assert(r@ =~= dpi_args(dpi_x, dpi_y));
    }
    r
}

impl Razer {
    /// The report that sets the sensitivity.
    pub fn set_dpi(&self, dpi_x: u16, dpi_y: u16) -> (r: [u8; 91])
        ensures
            r@ == dpi_report(self.txid, dpi_x, dpi_y),
    {
        let args: [u8; 7] = encode_dpi_xy(dpi_x, dpi_y);
        self.report(CLASS_DPI, ID_SET_DPI, 7, &args)
    }

    /// The report that selects a polling rate by its code.
    pub fn set_polling_rate(&self, code: u8) -> (r: [u8; 91])
        ensures
            r@ == report_bytes(self.txid, CLASS_MISC, ID_SET_POLLING, 1, seq![code]),
    {
        let args: [u8; 1] = [code];
        proof {
            assert(args@ =~= seq![code]);
        }
        self.report(CLASS_MISC, ID_SET_POLLING, 1, &args)
    }
}

/// Both sensitivities can be read back from the encoded arguments.
pub proof fn dpi_round_trips(x: u16, y: u16)
    ensures
        be16(dpi_args(x, y)[1], dpi_args(x, y)[2]) == x,
        be16(dpi_args(x, y)[3], dpi_args(x, y)[4]) == y,
{
}

/// Sensitivities are set by command `04 05` with seven bytes: `01` to store them, then x
/// and y, high byte first, and two zeros.
pub proof fn sensitivities_are_sent_high_byte_first(
    d: Razer,
    dpi_x: u16,
    dpi_y: u16,
    args: [u8; 7],
    r: [u8; 91],
)
    requires
        call_ensures(encode_dpi_xy, (dpi_x, dpi_y), args),
        call_ensures(Razer::set_dpi, (&d, dpi_x, dpi_y), r),
    ensures
        args@[0] == 1 && args@[5] == 0 && args@[6] == 0,
        256 * args@[1] + args@[2] == dpi_x,
        256 * args@[3] + args@[4] == dpi_y,
        carries(r@, d.txid, 0x04, 0x05, 7, args@),
{
    lemma_carries(d.txid, 0x04, 0x05, 7, args@);
}

/// The polling rate is set by command `00 05` with its code as the only byte.
pub proof fn polling_rates_send_their_code(d: Razer, code: u8, r: [u8; 91])
    requires
        call_ensures(Razer::set_polling_rate, (&d, code), r),
    ensures
        carries(r@, d.txid, 0x00, 0x05, 1, seq![code]),
{
    lemma_carries(d.txid, 0x00, 0x05, 1, seq![code]);
}

} // verus!
