//! Extended matrix lighting: custom frames and brightness.

use crate::razer::protocols::razer::{carries, lemma_carries, report_bytes, Razer, VARSTORE};
use crate::rgb::RgbColor;
use vstd::prelude::*;

verus! {

/// Command class of the extended matrix.
pub const CLASS_EXT_MATRIX: u8 = 0x0F;

/// Selects an effect.
pub const ID_EFFECT: u8 = 0x02;

/// Writes a row of a custom frame.
pub const ID_CUSTOM_FRAME: u8 = 0x03;

/// Sets a brightness.
pub const ID_BRIGHTNESS: u8 = 0x04;

/// The effect that shows custom frames.
pub const EFFECT_CUSTOM: u8 = 0x08;

/// Data size of the effect command.
pub const ENABLE_DATA_SIZE: u8 = 0x0C;

/// Data size of a row, whatever the number of columns in it.
pub const CUSTOM_FRAME_DATA_SIZE: u8 = 0x47;

/// A run of columns that does not end within the 256 there can be.
#[derive(Debug, Clone, Copy, PartialEq, Eq, Structural)]
pub struct RunTooLong {
    pub start_col: u8,
    pub count: usize,
}

/// Colours as red, green and blue bytes.
pub open spec fn rgb_bytes(colors: Seq<RgbColor>) -> Seq<u8> {
    Seq::new(
        colors.len() * 3,
        |i: int|
            if i % 3 == 0 {
                colors[i / 3].r
            } else if i % 3 == 1 {
                colors[i / 3].g
            } else {
                colors[i / 3].b
            },
    )
}

/// Whether a run of `count` columns from `start_col` on ends within a row.
pub open spec fn run_fits(start_col: u8, count: nat) -> bool {
    start_col + count <= 256
}

/// The arguments of a row write: two unused bytes, the row, the first and the last column,
/// then the colours. Nothing for an empty run.
pub open spec fn frame_args(row: u8, start_col: u8, colors: Seq<RgbColor>) -> Seq<u8> {
    if colors.len() == 0 {
        Seq::empty()
    } else {
        seq![0u8, 0u8, row, start_col, (start_col + colors.len() - 1) as u8] + rgb_bytes(colors)
    }
}

/// Encodes the arguments of a row write.
pub fn custom_frame_args(row: u8, start_col: u8, colors: &[RgbColor]) -> (r: Result<
    Vec<u8>,
    RunTooLong,
>)
    ensures
        match r {
            Ok(args) => (colors@.len() == 0 || run_fits(start_col, colors@.len())) && args@
                == frame_args(row, start_col, colors@),
            Err(e) => colors@.len() > 0 && !run_fits(start_col, colors@.len()) && e == (
            RunTooLong { start_col, count: colors@.len() as usize }),
        },
{
    let n: usize = colors.len();
    if n == 0 {
        return Ok(Vec::new());
    }
    if n > 256 - start_col as usize {
        return Err(RunTooLong { start_col, count: n });
    }
    let stop_col: u8 = (start_col as usize + n - 1) as u8;
    let mut args: Vec<u8> = vec![0, 0, row, start_col, stop_col];
    let ghost head = seq![0u8, 0u8, row, start_col, stop_col];
    let mut i: usize = 0;
    proof {
        assert(args@ =~= head + rgb_bytes(colors@.take(0)));
    }
    while i < n
        invariant
            i <= n,
            n == colors@.len(),
            head.len() == 5,
            args@ == head + rgb_bytes(colors@.take(i as int)),
        decreases n - i,
    {
        let c: RgbColor = colors[i];
        args.push(c.r);
        args.push(c.g);
        args.push(c.b);
        proof {
            assert(args@ =~= head + rgb_bytes(colors@.take(i + 1)));
        }
        i = i + 1;
    }
    proof {
        assert(colors@.take(n as int) =~= colors@);
    }
    Ok(args)
}

impl Razer {
    /// The report that switches to custom frames.
    pub fn enable_custom_frame(&self) -> (r: [u8; 91])
        ensures
            r@ == report_bytes(
                self.txid,
                CLASS_EXT_MATRIX,
                ID_EFFECT,
                ENABLE_DATA_SIZE,
                seq![0u8, 0u8, EFFECT_CUSTOM],
            ),
    {
        let args: [u8; 3] = [0, 0, EFFECT_CUSTOM];
        proof {
            assert(args@ =~= seq![0u8, 0u8, EFFECT_CUSTOM]);
        }
        self.report(CLASS_EXT_MATRIX, ID_EFFECT, ENABLE_DATA_SIZE, &args)
    }

    /// The report that shows the colours of one row from `start_col` on; none for no
    /// colours.
    pub fn set_custom_frame(&self, row: u8, start_col: u8, colors: &[RgbColor]) -> (r: Result<
        Option<[u8; 91]>,
        RunTooLong,
    >)
        ensures
            match r {
                Ok(None) => colors@.len() == 0,
                Ok(Some(buf)) => colors@.len() > 0 && run_fits(start_col, colors@.len()) && buf@
                    == report_bytes(
                    self.txid,
                    CLASS_EXT_MATRIX,
                    ID_CUSTOM_FRAME,
                    CUSTOM_FRAME_DATA_SIZE,
                    frame_args(row, start_col, colors@),
                ),
                Err(e) => colors@.len() > 0 && !run_fits(start_col, colors@.len()) && e == (
                RunTooLong { start_col, count: colors@.len() as usize }),
            },
    {
        let args: Vec<u8> = match custom_frame_args(row, start_col, colors) {
            Ok(args) => args,
            Err(e) => {
                return Err(e);
            },
        };
        if args.len() == 0 {
            return Ok(None);
        }
        Ok(
            Some(
                self.report(
                    CLASS_EXT_MATRIX,
                    ID_CUSTOM_FRAME,
                    CUSTOM_FRAME_DATA_SIZE,
                    args.as_slice(),
                ),
            ),
        )
    }

    /// The report that sets the brightness of a zone, stored.
    pub fn set_brightness(&self, led: u8, brightness: u8) -> (r: [u8; 91])
        ensures
            r@ == report_bytes(
                self.txid,
                CLASS_EXT_MATRIX,
                ID_BRIGHTNESS,
                3,
                seq![VARSTORE, led, brightness],
            ),
    {
        let args: [u8; 3] = [VARSTORE, led, brightness];
        proof {
            assert(args@ =~= seq![VARSTORE, led, brightness]);
        }
        self.report(CLASS_EXT_MATRIX, ID_BRIGHTNESS, 3, &args)
    }
}

/// A row write names the columns it covers: the last one is as far behind the first as
/// there are further colours, and the column's colour stands at its place.
pub proof fn rows_name_their_columns(row: u8, start_col: u8, colors: Seq<RgbColor>, i: int)
    requires
        0 <= i < colors.len(),
        run_fits(start_col, colors.len()),
    ensures
        ({
            let args = frame_args(row, start_col, colors);
            &&& args.len() == 5 + 3 * colors.len()
            &&& args[2] == row
            &&& args[3] == start_col
            &&& args[4] == start_col + colors.len() - 1
            &&& args[5 + 3 * i] == colors[i].r
            &&& args[6 + 3 * i] == colors[i].g
            &&& args[7 + 3 * i] == colors[i].b
        }),
{
}

/// A row write that ends within 256 columns has two zeros, the row, its first and its
/// last column, and then red, green and blue of each column in order. An empty run has no
/// arguments, and one that is too long is refused with its own measures.
pub proof fn rows_are_written_red_first(
    row: u8,
    start_col: u8,
    colors: &[RgbColor],
    r: Result<Vec<u8>, RunTooLong>,
    i: int,
)
    requires
        call_ensures(custom_frame_args, (row, start_col, colors), r),
    ensures
        r is Err <==> colors@.len() > 0 && start_col + colors@.len() > 256,
        r matches Err(e) ==> e.start_col == start_col && e.count == colors@.len() as usize,
        colors@.len() == 0 ==> r is Ok && r->Ok_0@.len() == 0,
        r is Ok && 0 <= i < colors@.len() ==> {
            let a = r->Ok_0@;
            &&& a.len() == 5 + 3 * colors@.len()
            &&& a[0] == 0 && a[1] == 0 && a[2] == row && a[3] == start_col
            &&& a[4] == start_col + colors@.len() - 1
            &&& a[5 + 3 * i] == colors@[i].r
            &&& a[6 + 3 * i] == colors@[i].g
            &&& a[7 + 3 * i] == colors@[i].b
        },
{
    if r is Ok && 0 <= i < colors@.len() {
        rows_name_their_columns(row, start_col, colors@, i);
    }
}

/// A row is sent by command `0F 03` with its arguments and a size of 71 whatever their
/// number; an empty run sends nothing.
pub proof fn rows_are_sent_with_their_arguments(
    d: Razer,
    row: u8,
    start_col: u8,
    colors: &[RgbColor],
    args: Result<Vec<u8>, RunTooLong>,
    r: Result<Option<[u8; 91]>, RunTooLong>,
)
    requires
        call_ensures(custom_frame_args, (row, start_col, colors), args),
        call_ensures(Razer::set_custom_frame, (&d, row, start_col, colors), r),
    ensures
        r is Err <==> args is Err,
        r is Err ==> r->Err_0 == args->Err_0,
        r is Ok ==> (r->Ok_0 is None <==> colors@.len() == 0),
        r is Ok && colors@.len() > 0 ==> carries(
            r->Ok_0->Some_0@,
            d.txid,
            0x0F,
            0x03,
            71,
            args->Ok_0@,
        ),
{
    lemma_carries(d.txid, 0x0F, 0x03, 71, frame_args(row, start_col, colors@));
}

/// Custom frames are switched on by command `0F 02` with effect 8 as the third byte, and
/// a size of 12. A brightness is stored by command `0F 04` for its LED.
pub proof fn matrix_commands_have_their_bytes(
    d: Razer,
    led: u8,
    brightness: u8,
    a: [u8; 91],
    b: [u8; 91],
)
    requires
        call_ensures(Razer::enable_custom_frame, (&d,), a),
        call_ensures(Razer::set_brightness, (&d, led, brightness), b),
    ensures
        carries(a@, d.txid, 0x0F, 0x02, 12, seq![0u8, 0, 8]),
        carries(b@, d.txid, 0x0F, 0x04, 3, seq![1u8, led, brightness]),
{
    lemma_carries(d.txid, 0x0F, 0x02, 12, seq![0u8, 0, 8]);
    lemma_carries(d.txid, 0x0F, 0x04, 3, seq![1u8, led, brightness]);
}

} // verus!
