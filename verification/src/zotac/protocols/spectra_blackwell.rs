//! The lighting controller of Blackwell cards: sixteen staging registers per zone, made
//! effective by a commit register.

use crate::rgb::RgbColor;
use vstd::prelude::*;

verus! {

/// SMBus address of the controller.
pub const ZOTAC_ADDR: u8 = 0x4B;

/// First staging register.
pub const REG_BASE: u8 = 0x20;

/// A register that answers reads where a controller is.
pub const REG_DETECT: u8 = 0x10;

/// Makes the staged registers effective.
pub const REG_COMMIT: u8 = 0x17;

/// Written to the commit register.
pub const COMMIT_VAL: u8 = 0x01;

/// Written to the first staging register.
pub const FIXED_VAL: u8 = 0x00;

/// Pause after a staging write, in microseconds.
pub const WRITE_DELAY_US: u32 = 3000;

/// Pause after a commit, in microseconds.
pub const COMMIT_DELAY_US: u32 = 10000;

/// What a zone shows.
#[derive(Debug, Clone, Copy, PartialEq, Eq, Structural)]
pub enum Mode {
    Static,
    Breathe,
    Fade,
    Wink,
    Glide,
    Prism,
    Bokeh,
    Beacon,
    Tandem,
    Tidal,
    Astra,
    Cosmic,
    Volta,
}

/// The register value of a mode.
pub open spec fn mode_code(mode: Mode) -> u8 {
    match mode {
        Mode::Static => 0x01,
        Mode::Breathe => 0x02,
        Mode::Fade => 0x03,
        Mode::Wink => 0x04,
        Mode::Glide => 0x08,
        Mode::Prism => 0x09,
        Mode::Bokeh => 0x0A,
        Mode::Beacon => 0x0B,
        Mode::Tandem => 0x18,
        Mode::Tidal => 0x19,
        Mode::Astra => 0x20,
        Mode::Cosmic => 0x21,
        Mode::Volta => 0x22,
    }
}

impl Mode {
    /// The register value.
    pub fn code(self) -> (r: u8)
        ensures
            r == mode_code(self),
    {
        match self {
            Mode::Static => 0x01,
            Mode::Breathe => 0x02,
            Mode::Fade => 0x03,
            Mode::Wink => 0x04,
            Mode::Glide => 0x08,
            Mode::Prism => 0x09,
            Mode::Bokeh => 0x0A,
            Mode::Beacon => 0x0B,
            Mode::Tandem => 0x18,
            Mode::Tidal => 0x19,
            Mode::Astra => 0x20,
            Mode::Cosmic => 0x21,
            Mode::Volta => 0x22,
        }
    }
}

/// Which way an animation runs.
#[derive(Debug, Clone, Copy, PartialEq, Eq, Structural)]
pub enum Direction {
    Left,
    Right,
}

/// The register value of a direction.
pub open spec fn direction_code(direction: Direction) -> u8 {
    match direction {
        Direction::Left => 0x00,
        Direction::Right => 0x01,
    }
}

impl Direction {
    /// The register value.
    pub fn code(self) -> (r: u8)
        ensures
            r == direction_code(self),
    {
        match self {
            Direction::Left => 0x00,
            Direction::Right => 0x01,
        }
    }
}

/// What one zone should show.
#[derive(Debug, Clone, Copy, PartialEq, Eq, Structural)]
pub struct ZoneFrame {
    pub zone: u8,
    pub mode: Mode,
    pub color1: RgbColor,
    pub color2: RgbColor,
    pub brightness: u8,
    pub speed: u8,
    pub direction: Direction,
}

/// The staging registers of a frame, in order.
pub open spec fn frame_regs(f: ZoneFrame) -> Seq<u8> {
    seq![
        FIXED_VAL,
        f.zone,
        mode_code(f.mode),
        f.color1.r,
        f.color1.g,
        f.color1.b,
        f.color2.r,
        f.color2.g,
        f.color2.b,
        f.brightness,
        f.speed,
        direction_code(f.direction),
        0u8,
        0u8,
        0u8,
        0u8,
    ]
}

impl ZoneFrame {
    /// Encodes the staging registers.
    pub fn to_regs(self) -> (r: [u8; 16])
        ensures
            r@ == frame_regs(self),
    {
        let r: [u8; 16] = [
            FIXED_VAL,
            self.zone,
            self.mode.code(),
            self.color1.r,
            self.color1.g,
            self.color1.b,
            self.color2.r,
            self.color2.g,
            self.color2.b,
            self.brightness,
            self.speed,
            self.direction.code(),
            0,
            0,
            0,
            0,
        ];
        proof {
            assert(r@ =~= frame_regs(self));
        }
        r
    }
}

/// One register write and the pause behind it.
#[derive(Debug, Clone, Copy, PartialEq, Eq, Structural)]
pub struct RegWrite {
    pub register: u8,
    pub value: u8,
    pub pause_us: u32,
}

/// The writes that stage a block of registers and commit it.
pub open spec fn block_writes(regs: Seq<u8>) -> Seq<RegWrite> {
    Seq::new(
        regs.len(),
        |i: int|
            RegWrite {
                register: (REG_BASE + i) as u8,
                value: regs[i],
                pause_us: WRITE_DELAY_US,
            },
    ).push(RegWrite { register: REG_COMMIT, value: COMMIT_VAL, pause_us: COMMIT_DELAY_US })
}

/// The writes that show several frames, one block after the other.
pub open spec fn zone_writes(frames: Seq<ZoneFrame>) -> Seq<RegWrite>
    decreases frames.len(),
{
    if frames.len() == 0 {
        Seq::empty()
    } else {
        zone_writes(frames.drop_last()) + block_writes(frame_regs(frames.last()))
    }
}

/// Appends the writes that stage a block of registers and commit it.
pub fn stage_and_commit(regs: &[u8; 16], out: &mut Vec<RegWrite>)
    ensures
        final(out)@ == old(out)@ + block_writes(regs@),
{
    let mut i: usize = 0;
    while i < 16
        invariant
            i <= 16,
            regs@.len() == 16,
            out@ =~= old(out)@ + block_writes(regs@).take(i as int),
        decreases 16 - i,
    {
        out.push(
            RegWrite { register: REG_BASE + i as u8, value: regs[i], pause_us: WRITE_DELAY_US },
        );
        i = i + 1;
    }
    out.push(RegWrite { register: REG_COMMIT, value: COMMIT_VAL, pause_us: COMMIT_DELAY_US });
    proof {
        assert(out@ =~= old(out)@ + block_writes(regs@));
    }
}

/// One controller.
#[derive(Debug, Clone, Copy, PartialEq, Eq, Structural)]
pub struct ZotacBlackwellProtocol {
    pub bus: u8,
    pub address: u8,
}

impl ZotacBlackwellProtocol {
    /// The controller at an address of a bus.
    pub fn new(bus: u8, address: u8) -> (r: Self)
        ensures
            r.bus == bus,
            r.address == address,
    {
        ZotacBlackwellProtocol { bus, address }
    }

    /// The number of the bus.
    pub fn bus_number(&self) -> (r: u8)
        ensures
            r == self.bus,
    {
        self.bus
    }

    /// The address on the bus.
    pub fn addr(&self) -> (r: u8)
        ensures
            r == self.address,
    {
        self.address
    }

    /// Whether a controller is there, given the outcome of reading the detection register.
    pub fn detect(read: Option<u8>) -> (r: bool)
        ensures
            r == (read is Some),
    {
        read.is_some()
    }

    /// The writes that show the frames.
    pub fn apply_zones(&self, frames: &[ZoneFrame]) -> (r: Vec<RegWrite>)
        ensures
            r@ == zone_writes(frames@),
    {
        let n: usize = frames.len();
        let mut out: Vec<RegWrite> = Vec::new();
        let mut i: usize = 0;
        while i < n
            invariant
                i <= n,
                n == frames@.len(),
                out@ == zone_writes(frames@.take(i as int)),
            decreases n - i,
        {
            let regs: [u8; 16] = frames[i].to_regs();
            stage_and_commit(&regs, &mut out);
            proof {
                assert(frames@.take(i + 1).drop_last() =~= frames@.take(i as int));
            }
            i = i + 1;
        }
        proof {
            assert(frames@.take(n as int) =~= frames@);
        }
        out
    }
}

/// Every field of a frame stands at its own register, and no two modes or directions share
/// a value, so that a frame can be read back from its registers.
pub proof fn frame_roundtrips_through_regs(a: ZoneFrame, b: ZoneFrame)
    ensures
        frame_regs(a).len() == 16,
        frame_regs(a)[1] == a.zone,
        frame_regs(a)[2] == mode_code(a.mode),
        frame_regs(a)[9] == a.brightness,
        frame_regs(a)[10] == a.speed,
        frame_regs(a)[11] == direction_code(a.direction),
        frame_regs(a) == frame_regs(b) ==> a == b,
{
    let x = frame_regs(a);
    let y = frame_regs(b);
    if x == y {
        assert(x[1] == y[1] && x[2] == y[2] && x[3] == y[3] && x[4] == y[4] && x[5] == y[5]);
        assert(x[6] == y[6] && x[7] == y[7] && x[8] == y[8] && x[9] == y[9] && x[10] == y[10]);
        assert(x[11] == y[11]);
        assert(a.mode == b.mode);
        assert(a.direction == b.direction);
        assert(a.color1 == b.color1);
        assert(a.color2 == b.color2);
    }
}

/// Seventeen writes go out per frame, and each block ends with its commit.
pub proof fn every_block_is_committed(frames: Seq<ZoneFrame>, i: int)
    requires
        0 <= i < frames.len(),
    ensures
        zone_writes(frames).len() == 17 * frames.len(),
        zone_writes(frames)[17 * i + 16] == (RegWrite {
            register: REG_COMMIT,
            value: COMMIT_VAL,
            pause_us: COMMIT_DELAY_US,
        }),
        forall|k: int|
            0 <= k < 16 ==> #[trigger] zone_writes(frames)[17 * i + k] == (RegWrite {
                register: (REG_BASE + k) as u8,
                value: frame_regs(frames[i])[k],
                pause_us: WRITE_DELAY_US,
            }),
    decreases frames.len(),
{
    let before = zone_writes(frames.drop_last());
    let block = block_writes(frame_regs(frames.last()));
    lemma_write_count(frames);
    lemma_write_count(frames.drop_last());
    if i < frames.len() - 1 {
        every_block_is_committed(frames.drop_last(), i);
        assert(frames.drop_last()[i] == frames[i]);
        assert forall|k: int| 0 <= k < 16 implies #[trigger] zone_writes(frames)[17 * i + k] == (
        RegWrite {
            register: (REG_BASE + k) as u8,
            value: frame_regs(frames[i])[k],
            pause_us: WRITE_DELAY_US,
        }) by {
            assert(zone_writes(frames)[17 * i + k] == before[17 * i + k]);
        }
    } else {
        assert forall|k: int| 0 <= k < 16 implies #[trigger] zone_writes(frames)[17 * i + k] == (
        RegWrite {
            register: (REG_BASE + k) as u8,
            value: frame_regs(frames[i])[k],
            pause_us: WRITE_DELAY_US,
        }) by {
            assert(zone_writes(frames)[17 * i + k] == block[k]);
        }
    }
}

/// Seventeen writes go out per frame.
proof fn lemma_write_count(frames: Seq<ZoneFrame>)
    ensures
        zone_writes(frames).len() == 17 * frames.len(),
    decreases frames.len(),
{
    if frames.len() > 0 {
        lemma_write_count(frames.drop_last());
    }
}

/// Each mode has its own register value.
pub proof fn modes_have_their_values(mode: Mode, r: u8)
    requires
        call_ensures(Mode::code, (mode,), r),
    ensures
        r == match mode {
            Mode::Static => 1u8,
            Mode::Breathe => 2,
            Mode::Fade => 3,
            Mode::Wink => 4,
            Mode::Glide => 8,
            Mode::Prism => 9,
            Mode::Bokeh => 10,
            Mode::Beacon => 11,
            Mode::Tandem => 24,
            Mode::Tidal => 25,
            Mode::Astra => 32,
            Mode::Cosmic => 33,
            Mode::Volta => 34,
        },
{
}

/// Left is 0 and right is 1.
pub proof fn directions_have_their_values(direction: Direction, r: u8)
    requires
        call_ensures(Direction::code, (direction,), r),
    ensures
        direction == Direction::Left ==> r == 0,
        direction == Direction::Right ==> r == 1,
{
}

/// The registers of a frame: a zero, the zone, the mode, both colours red first,
/// brightness, speed, direction, and four zeros.
pub proof fn registers_have_their_order(f: ZoneFrame, mode: u8, direction: u8, r: [u8; 16])
    requires
        call_ensures(ZoneFrame::to_regs, (f,), r),
        call_ensures(Mode::code, (f.mode,), mode),
        call_ensures(Direction::code, (f.direction,), direction),
    ensures
        r@[0] == 0 && r@[1] == f.zone && r@[2] == mode,
        r@[3] == f.color1.r && r@[4] == f.color1.g && r@[5] == f.color1.b,
        r@[6] == f.color2.r && r@[7] == f.color2.g && r@[8] == f.color2.b,
        r@[9] == f.brightness && r@[10] == f.speed && r@[11] == direction,
        r@[12] == 0 && r@[13] == 0 && r@[14] == 0 && r@[15] == 0,
{
}

/// A block is written in order from register `20` on, with 3 ms behind each write, and is
/// closed by a 1 in register `17`, with 10 ms behind it; what was there before stays.
pub proof fn blocks_are_staged_and_committed(
    regs: &[u8; 16],
    out: &mut Vec<RegWrite>,
    k: int,
)
    requires
        call_ensures(stage_and_commit, (regs, out), ()),
        0 <= k < 16,
    ensures
        final(out)@.len() == old(out)@.len() + 17,
        final(out)@.take(old(out)@.len() as int) == old(out)@,
        final(out)@[old(out)@.len() + k] == (RegWrite {
            register: (0x20 + k) as u8,
            value: regs@[k],
            pause_us: 3000,
        }),
        final(out)@.last() == (RegWrite { register: 0x17, value: 1, pause_us: 10000 }),
{
}

/// The frames are shown one after the other, each by its registers and a commit.
pub proof fn zones_are_shown_in_turn(
    d: ZotacBlackwellProtocol,
    frames: &[ZoneFrame],
    r: Vec<RegWrite>,
    i: int,
    k: int,
    regs: [u8; 16],
)
    requires
        call_ensures(ZotacBlackwellProtocol::apply_zones, (&d, frames), r),
        0 <= i < frames@.len(),
        0 <= k < 16,
        call_ensures(ZoneFrame::to_regs, (frames@[i],), regs),
    ensures
        r@.len() == 17 * frames@.len(),
        r@[17 * i + k] == (RegWrite {
            register: (0x20 + k) as u8,
            value: regs@[k],
            pause_us: 3000,
        }),
        r@[17 * i + 16] == (RegWrite { register: 0x17, value: 1, pause_us: 10000 }),
{
    every_block_is_committed(frames@, i);
    assert(zone_writes(frames@)[17 * i + k].value == frame_regs(frames@[i])[k]);
}

/// A controller is where the detection register could be read, whatever it held, and
/// tells the bus and the address it was made with.
pub proof fn controllers_answer(
    bus: u8,
    address: u8,
    d: ZotacBlackwellProtocol,
    b: u8,
    a: u8,
    read: Option<u8>,
    found: bool,
)
    requires
        call_ensures(ZotacBlackwellProtocol::new, (bus, address), d),
        call_ensures(ZotacBlackwellProtocol::bus_number, (&d,), b),
        call_ensures(ZotacBlackwellProtocol::addr, (&d,), a),
        call_ensures(ZotacBlackwellProtocol::detect, (read,), found),
    ensures
        b == bus,
        a == address,
        found <==> read is Some,
{
}

} // verus!
