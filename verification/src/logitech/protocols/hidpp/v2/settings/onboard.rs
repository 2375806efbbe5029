//! Profiles in a device's flash: the directory, profile sectors with their checksum, and
//! reading and writing sectors in pieces of sixteen bytes.

use crate::bytes::{hi_byte, lo_byte, u16_be};
use crate::logitech::protocols::hidpp::crc::{
    checksummed_data_closes_to_zero, crc16_prefix, crc_of,
};
use crate::logitech::protocols::hidpp::v2::feature::ONBOARD_PROFILES;
use crate::logitech::protocols::hidpp::v2::rgb::per_key::views;
use crate::logitech::protocols::hidpp::v2::{asks, calls_ask, index_in, Hidpp20};
use crate::logitech::protocols::hidpp::{feature_packet, odd_bytes, reads_as, HidppMessenger};
use vstd::prelude::*;

verus! {

/// Asks for the capabilities.
pub const GET_INFO: u8 = 0x00;

/// Sets the mode.
pub const SET_MODE: u8 = 0x10;

/// Asks for the mode.
pub const GET_MODE: u8 = 0x20;

/// Selects a profile.
pub const SET_CURRENT_PROFILE: u8 = 0x30;

/// Asks for the selected profile.
pub const GET_CURRENT_PROFILE: u8 = 0x40;

/// Reads sixteen bytes.
pub const MEMORY_READ: u8 = 0x50;

/// Starts to write a sector.
pub const MEMORY_ADDR_WRITE: u8 = 0x60;

/// Writes sixteen bytes.
pub const MEMORY_WRITE: u8 = 0x70;

/// Ends the writing of a sector.
pub const MEMORY_WRITE_END: u8 = 0x80;

/// The host controls the device.
pub const MODE_HOST: u8 = 0x02;

/// A profile controls the device.
pub const MODE_ONBOARD: u8 = 0x01;

/// How often a piece is asked for.
pub const MEMORY_READ_ATTEMPTS: u8 = 3;

/// Pause before a piece is asked for again, in milliseconds.
pub const MEMORY_READ_RETRY_MS: u64 = 20;

/// Where the steps start in a profile sector.
pub const STEPS_AT: usize = 3;

/// How many steps a profile has room for.
pub const STEP_SLOTS: usize = 5;

/// The shortest profile sector.
pub const MIN_PROFILE_SECTOR: usize = 13;

/// What a device can hold.
#[derive(Debug, Clone, Copy, PartialEq, Eq, Structural)]
pub struct OnboardCaps {
    pub rom_profile_count: u8,
    pub sector_size: usize,
}

/// One profile.
#[derive(Debug, Clone, Copy, PartialEq, Eq, Structural)]
pub struct OnboardProfileSlot {
    pub index: u8,
    pub enabled: bool,
    pub active: bool,
    pub has_rom_default: bool,
}

/// All profiles, and which one is selected.
#[derive(Debug)]
pub struct OnboardProfiles {
    pub active_slot: u8,
    pub slots: Vec<OnboardProfileSlot>,
}

/// A buffer that does not hold the sector it is meant to.
#[derive(Debug, Clone, Copy, PartialEq, Eq, Structural)]
pub struct SectorTooShort {
    pub len: usize,
    pub sector_size: usize,
}

/// The capabilities in a reply.
pub open spec fn caps_in(info: Seq<u8>) -> Option<OnboardCaps> {
    if info.len() < 9 || (info[7] == 0 && info[8] == 0) {
        None
    } else {
        Some(
            OnboardCaps {
                rom_profile_count: info[4],
                sector_size: (info[7] as int * 256 + info[8] as int) as usize,
            },
        )
    }
}

/// Reads the capabilities from a reply.
pub fn parse_onboard_caps(info: &[u8]) -> (r: Option<OnboardCaps>)
    ensures
        r == caps_in(info@),
{
    if info.len() < 9 {
        return None;
    }
    let sector_size: usize = u16_be(info[7], info[8]) as usize;
    if sector_size == 0 {
        return None;
    }
    Some(OnboardCaps { rom_profile_count: info[4], sector_size })
}

/// The entries of a directory from entry `e` on: four bytes each, sector and enabled flag,
/// up to an empty or erased one.
pub open spec fn directory_from(dir: Seq<u8>, e: nat) -> Seq<(u16, bool)>
    decreases dir.len() + 4 - 4 * e,
{
    if 4 * e + 2 >= dir.len() {
        Seq::empty()
    } else {
        let at = 4 * e as int;
        let sector = dir[at] as int * 256 + dir[at + 1] as int;
        if sector == 0xFFFF || sector == 0 {
            Seq::empty()
        } else {
            seq![(sector as u16, dir[at + 2] != 0)] + directory_from(dir, e + 1)
        }
    }
}

/// Reads a directory.
pub fn parse_profile_directory(dir: &[u8]) -> (r: Vec<(u16, bool)>)
    ensures
        r@ == directory_from(dir@, 0),
{
    let n: usize = dir.len();
    let mut out: Vec<(u16, bool)> = Vec::new();
    let mut at: usize = 0;
    let ghost mut e: nat = 0;
    proof {
        assert(out@ + directory_from(dir@, 0) =~= directory_from(dir@, 0));
    }
    while at < n && 2 < n - at
        invariant
            at == 4 * e,
            at <= n + 3,
            n == dir@.len(),
            out@ + directory_from(dir@, e) == directory_from(dir@, 0),
        decreases n + 4 - at,
    {
        let sector: u16 = u16_be(dir[at], dir[at + 1]);
        if sector == 0xFFFF || sector == 0x0000 {
            proof {
                assert(out@ + directory_from(dir@, e) =~= out@);
            }
            return out;
        }
        let ghost before = out@;
        out.push((sector, dir[at + 2] != 0));
        proof {
            assert(directory_from(dir@, e) == seq![(sector, dir@[at + 2] != 0)] + directory_from(
                dir@,
                e + 1,
            ));
            assert(out@ + directory_from(dir@, e + 1) =~= before + directory_from(dir@, e));
            e = e + 1;
        }
        if n - at < 4 {
            proof {
                assert(out@ + directory_from(dir@, e) =~= out@);
            }
            return out;
        }
        at = at + 4;
    }
    proof {
        assert(out@ + directory_from(dir@, e) =~= out@);
    }
    out
}

/// A directory entry as a profile.
pub open spec fn slot_of(
    entry: (u16, bool),
    active_slot: u8,
    rom_profile_count: u8,
) -> OnboardProfileSlot {
    let index = (entry.0 % 256) as u8;
    OnboardProfileSlot {
        index,
        enabled: entry.1,
        active: active_slot != 0 && index == active_slot,
        has_rom_default: index != 0 && index <= rom_profile_count,
    }
}

/// All profiles of a directory; none for an empty one. The low byte of a sector is the
/// number of its profile.
pub fn build_onboard_profiles(
    profile_dir: &[(u16, bool)],
    profile_sector: u16,
    rom_profile_count: u8,
) -> (r: Option<OnboardProfiles>)
    ensures
        match r {
            Some(p) => {
                &&& profile_dir@.len() > 0
                &&& p.active_slot == profile_sector % 256
                &&& p.slots@ == Seq::new(
                    profile_dir@.len(),
                    |i: int|
                        slot_of(
                            profile_dir@[i],
                            (profile_sector % 256) as u8,
                            rom_profile_count,
                        ),
                )
            },
            None => profile_dir@.len() == 0,
        },
{
    let n: usize = profile_dir.len();
    if n == 0 {
        return None;
    }
    let active_slot: u8 = lo_byte(profile_sector);
    let mut slots: Vec<OnboardProfileSlot> = Vec::new();
    let mut i: usize = 0;
    while i < n
        invariant
            i <= n,
            n == profile_dir@.len(),
            active_slot == profile_sector % 256,
            slots@ =~= Seq::new(
                i as nat,
                |k: int| slot_of(profile_dir@[k], active_slot, rom_profile_count),
            ),
        decreases n - i,
    {
        let entry: (u16, bool) = profile_dir[i];
        let index: u8 = lo_byte(entry.0);
        slots.push(
            OnboardProfileSlot {
                index,
                enabled: entry.1,
                active: active_slot != 0 && index == active_slot,
                has_rom_default: index != 0 && index <= rom_profile_count,
            },
        );
        i = i + 1;
    }
    Some(OnboardProfiles { active_slot, slots })
}

/// The factory sector that a profile starts from: its own where there is one, else that of
/// the first profile.
pub fn rom_source_sector(slot: u8, rom_profile_count: u8) -> (r: u16)
    ensures
        r == if slot <= rom_profile_count {
            0x0100 + slot
        } else {
            0x0101
        },
{
    if slot <= rom_profile_count {
        0x0100 + slot as u16
    } else {
        0x0101
    }
}

/// A sector with its checksum in its last two bytes.
pub open spec fn with_crc(bytes: Seq<u8>, size: int) -> Seq<u8> {
    let crc = crc_of(bytes.take(size - 2));
    bytes.update(size - 2, (crc / 256) as u8).update(size - 1, (crc % 256) as u8)
}

/// Fills in the checksum of a sector.
pub fn set_sector_crc(bytes: &mut Vec<u8>, sector_size: usize) -> (r: Result<(), SectorTooShort>)
    ensures
        match r {
            Ok(()) => {
                &&& sector_size >= 2
                &&& old(bytes)@.len() >= sector_size
                &&& final(bytes)@ == with_crc(old(bytes)@, sector_size as int)
            },
            Err(e) => {
                &&& sector_size < 2 || old(bytes)@.len() < sector_size
                &&& e == (SectorTooShort { len: old(bytes)@.len() as usize, sector_size })
                &&& final(bytes)@ == old(bytes)@
            },
        },
{
    if sector_size < 2 || bytes.len() < sector_size {
        return Err(SectorTooShort { len: bytes.len(), sector_size });
    }
    let crc: u16 = crc16_prefix(bytes.as_slice(), sector_size - 2);
    bytes.set(sector_size - 2, hi_byte(crc));
    bytes.set(sector_size - 1, lo_byte(crc));
    Ok(())
}

/// Byte `i` of the five step slots, least significant byte of a step first; unused slots
/// are zero.
pub open spec fn step_byte(steps: Seq<u16>, i: int) -> u8 {
    if i / 2 < steps.len() {
        if i % 2 == 0 {
            (steps[i / 2] % 256) as u8
        } else {
            (steps[i / 2] / 256) as u8
        }
    } else {
        0
    }
}

/// A profile sector with other steps, before its checksum: the default step stays within
/// the steps, and so does the shifted one.
pub open spec fn with_steps(bytes: Seq<u8>, steps: Seq<u16>) -> Seq<u8> {
    Seq::new(
        bytes.len(),
        |i: int|
            if STEPS_AT <= i < STEPS_AT + 2 * STEP_SLOTS {
                step_byte(steps, i - STEPS_AT)
            } else if i == 1 && 0 < steps.len() <= bytes[1] {
                (steps.len() - 1) as u8
            } else if i == 2 && 0 < steps.len() <= bytes[2] {
                0
            } else {
                bytes[i]
            },
    )
}

/// Puts other steps into a profile sector.
pub fn patch_profile_sector(sector_bytes: &mut Vec<u8>, new_steps: &[u16], sector_size: usize) -> (r:
    Result<(), SectorTooShort>)
    ensures
        match r {
            Ok(()) => {
                &&& sector_size >= MIN_PROFILE_SECTOR
                &&& old(sector_bytes)@.len() >= sector_size
                &&& final(sector_bytes)@ == with_crc(
                    with_steps(old(sector_bytes)@, new_steps@),
                    sector_size as int,
                )
            },
            Err(e) => {
                &&& sector_size < MIN_PROFILE_SECTOR || old(sector_bytes)@.len() < sector_size
                &&& e == (SectorTooShort { len: old(sector_bytes)@.len() as usize, sector_size })
                &&& final(sector_bytes)@ == old(sector_bytes)@
            },
        },
{
    if sector_bytes.len() < sector_size || sector_size < MIN_PROFILE_SECTOR {
        return Err(SectorTooShort { len: sector_bytes.len(), sector_size });
    }
    let n: usize = new_steps.len();
    let ghost before = sector_bytes@;
    let mut i: usize = 0;
    while i < 5
        invariant
            i <= 5,
            n == new_steps@.len(),
            before.len() >= 13,
            sector_bytes@.len() == before.len(),
            forall|k: int|
                #![trigger sector_bytes@[k]]
                0 <= k < before.len() ==> sector_bytes@[k] == if STEPS_AT <= k < STEPS_AT + 2 * i {
                    step_byte(new_steps@, k - STEPS_AT)
                } else {
                    before[k]
                },
        decreases 5 - i,
    {
        let step: u16 = if i < n {
            new_steps[i]
        } else {
            0
        };
        sector_bytes.set(STEPS_AT + i * 2, lo_byte(step));
        sector_bytes.set(STEPS_AT + i * 2 + 1, hi_byte(step));
        i = i + 1;
    }
    if n > 0 && (sector_bytes[1] as usize) >= n {
        sector_bytes.set(1, (n - 1) as u8);
    }
    if n > 0 && (sector_bytes[2] as usize) >= n {
        sector_bytes.set(2, 0);
    }
    proof {
        assert(sector_bytes@ =~= with_steps(before, new_steps@));
    }
    set_sector_crc(sector_bytes, sector_size)
}

/// The value of step slot `i`.
pub open spec fn step_at(sector: Seq<u8>, i: int) -> u16 {
    (sector[STEPS_AT + 2 * i] as int + 256 * sector[STEPS_AT + 2 * i + 1] as int) as u16
}

/// The used ones among the first `n` step slots.
pub open spec fn steps_in(sector: Seq<u8>, n: nat) -> Seq<u16>
    decreases n,
{
    if n == 0 {
        Seq::empty()
    } else {
        let v = step_at(sector, n - 1);
        if v == 0 || v == 0xFFFF {
            steps_in(sector, (n - 1) as nat)
        } else {
            steps_in(sector, (n - 1) as nat).push(v)
        }
    }
}

/// Reads the steps of a profile sector.
pub fn parse_dpi_steps_from_sector(sector_data: &[u8]) -> (r: Vec<u16>)
    ensures
        r@ == if sector_data@.len() < MIN_PROFILE_SECTOR {
            Seq::empty()
        } else {
            steps_in(sector_data@, STEP_SLOTS as nat)
        },
{
    let mut out: Vec<u16> = Vec::new();
    if sector_data.len() < MIN_PROFILE_SECTOR {
        return out;
    }
    let mut i: usize = 0;
    while i < 5
        invariant
            i <= 5,
            sector_data@.len() >= 13,
            out@ == steps_in(sector_data@, i as nat),
        decreases 5 - i,
    {
        let v: u16 = u16_be(sector_data[STEPS_AT + i * 2 + 1], sector_data[STEPS_AT + i * 2]);
        if v != 0 && v != 0xFFFF {
            out.push(v);
        }
        i = i + 1;
    }
    out
}

/// The parameters that ask for the piece of a sector at an offset.
pub open spec fn piece_params(sector: u16, offset: int) -> Seq<u8> {
    seq![
        (sector / 256) as u8,
        (sector % 256) as u8,
        ((offset % 65536) / 256) as u8,
        (offset % 256) as u8,
    ]
}

/// Encodes the parameters that ask for a piece.
fn sector_offset_params(sector: u16, offset: usize) -> (r: [u8; 4])
    ensures
        r@ == piece_params(sector, offset as int),
{
    let o: u16 = (offset % 65536) as u16;
    let r: [u8; 4] = [hi_byte(sector), lo_byte(sector), hi_byte(o), lo_byte(o)];
    proof {
        assert((offset % 65536) % 256 == offset % 256);
        assert(r@ =~= piece_params(sector, offset as int));
    }
    r
}

/// What of the last piece is still missing: it is read from the end of the sector and
/// overlaps the piece before.
pub fn tail_slice_bounds(chunk_len: usize, o: usize, size: usize) -> (r: (usize, usize))
    ensures
        r.1 == if chunk_len < 16 {
            chunk_len
        } else {
            16
        },
        r.0 == if 16 + o <= size {
            0
        } else if 16 + o - size < r.1 {
            (16 + o - size) as usize
        } else {
            r.1
        },
{
    let end: usize = if chunk_len < 16 {
        chunk_len
    } else {
        16
    };
    let over: usize = if o >= size {
        16
    } else if size - o >= 16 {
        0
    } else {
        16 - (size - o)
    };
    let skip: usize = if over < end {
        over
    } else {
        end
    };
    (skip, end)
}

/// How reading a sector stands.
#[derive(Debug, Clone, Copy, PartialEq, Eq, Structural)]
pub enum ReadStage {
    /// Pieces are missing.
    Reading,
    /// All pieces are there.
    Done,
    /// A piece could not be read.
    Failed,
}

/// A sector while it is read. `filled` bytes are asked for already, and the piece asked for
/// now has failed `failures` times.
#[derive(Debug)]
pub struct SectorReader {
    pub sector: u16,
    pub size: usize,
    pub buf: Vec<u8>,
    pub filled: usize,
    pub failures: u8,
    pub stage: ReadStage,
}

/// `piece` put into `buf` at `at`.
pub open spec fn overlaid(buf: Seq<u8>, at: int, piece: Seq<u8>) -> Seq<u8> {
    Seq::new(
        buf.len(),
        |i: int|
            if at <= i < at + piece.len() {
                piece[i - at]
            } else {
                buf[i]
            },
    )
}

impl SectorReader {
    /// Pieces are asked for in order, and while some are missing no piece has failed for
    /// good.
    pub open spec fn wf(&self) -> bool {
        &&& self.buf@.len() == self.size
        &&& self.size >= 16
        &&& self.filled <= self.size
        &&& self.filled % 16 == 0 || self.filled == self.size
        &&& match self.stage {
            ReadStage::Reading => self.filled < self.size && self.failures
                < MEMORY_READ_ATTEMPTS,
            ReadStage::Done => self.filled == self.size,
            ReadStage::Failed => true,
        }
    }

    /// The offset of the piece asked for now; the last one is asked for from the end.
    pub open spec fn offset(&self) -> int {
        if self.size - self.filled >= 16 {
            self.filled as int
        } else {
            self.size - 16
        }
    }

    /// What a piece brings: all of it, or the part of the last one that is still missing.
    pub open spec fn news(&self, piece: Seq<u8>) -> Seq<u8> {
        let end = if piece.len() < 16 {
            piece.len() as int
        } else {
            16
        };
        let over = 16 - (self.size - self.filled);
        if over <= 0 {
            piece.take(end)
        } else if over < end {
            piece.subrange(over, end)
        } else {
            Seq::empty()
        }
    }

    /// How much is asked for after the piece asked for now.
    pub open spec fn filled_next(&self) -> int {
        if self.size - self.filled >= 16 {
            self.filled + 16
        } else {
            self.size as int
        }
    }

    /// Starts to read a sector; none for one shorter than a piece.
    pub fn new(sector: u16, size: usize) -> (r: Option<Self>)
        ensures
            match r {
                Some(s) => {
                    &&& size >= 16
                    &&& s.wf()
                    &&& s.sector == sector
                    &&& s.size == size
                    &&& s.buf@ == Seq::new(size as nat, |i: int| 0xFFu8)
                    &&& s.filled == 0
                    &&& s.failures == 0
                    &&& s.stage == ReadStage::Reading
                },
                None => size < 16,
            },
    {
        if size < 16 {
            return None;
        }
        let buf: Vec<u8> = vec![0xFFu8; size];
        proof {
            assert(buf@ =~= Seq::new(size as nat, |i: int| 0xFFu8));
        }
        Some(
            SectorReader {
                sector,
                size,
                buf,
                filled: 0,
                failures: 0,
                stage: ReadStage::Reading,
            },
        )
    }

    /// The parameters of the next question; none when the reading has ended.
    pub fn next_params(&self) -> (r: Option<[u8; 4]>)
        requires
            self.wf(),
        ensures
            match r {
                Some(p) => self.stage is Reading && p@ == piece_params(
                    self.sector,
                    self.offset(),
                ),
                None => !(self.stage is Reading),
            },
    {
        match self.stage {
            ReadStage::Reading => {
                let offset: usize = if self.size - self.filled >= 16 {
                    self.filled
                } else {
                    self.size - 16
                };
                Some(sector_offset_params(self.sector, offset))
            },
            _ => None,
        }
    }

    /// Takes a piece over. A question that failed is asked again a few times before the
    /// reading fails.
    pub fn advance(&mut self, reply: Option<&[u8]>)
        requires
            old(self).wf(),
            old(self).stage is Reading,
        ensures
            final(self).wf(),
            final(self).sector == old(self).sector,
            final(self).size == old(self).size,
            match reply {
                Some(piece) => {
                    &&& final(self).buf@ == overlaid(
                        old(self).buf@,
                        old(self).filled as int,
                        old(self).news(piece@),
                    )
                    &&& final(self).filled == old(self).filled_next()
                    &&& final(self).failures == 0
                    &&& final(self).stage == if old(self).filled_next() == old(self).size {
                        ReadStage::Done
                    } else {
                        ReadStage::Reading
                    }
                },
                None => {
                    &&& final(self).buf@ == old(self).buf@
                    &&& final(self).filled == old(self).filled
                    &&& final(self).failures == old(self).failures + 1
                    &&& final(self).stage == if old(self).failures + 1 < MEMORY_READ_ATTEMPTS {
                        ReadStage::Reading
                    } else {
                        ReadStage::Failed
                    }
                },
            },
    {
        match reply {
            Some(piece) => {
                let left: usize = self.size - self.filled;
                let (skip, end): (usize, usize) = tail_slice_bounds(
                    piece.len(),
                    self.filled,
                    self.size,
                );
                let ghost before = self.buf@;
                let ghost news = self.news(piece@);
                proof {
                    assert(news =~= piece@.subrange(skip as int, end as int));
                }
                let mut i: usize = skip;
                while i < end
                    invariant
                        skip <= i <= end <= piece@.len(),
                        end <= 16,
                        end - skip <= left,
                        left == self.size - self.filled,
                        self.filled <= self.size,
                        self.size == before.len(),
                        self.buf@.len() == before.len(),
                        self.sector == old(self).sector,
                        self.size == old(self).size,
                        self.filled == old(self).filled,
                        news == piece@.subrange(skip as int, end as int),
                        self.buf@ =~= overlaid(
                            before,
                            self.filled as int,
                            news.take(i - skip),
                        ),
                    decreases end - i,
                {
                    self.buf.set(self.filled + (i - skip), piece[i]);
                    i = i + 1;
                }
                proof {
                    assert(news.take(end - skip) =~= news);
                }
                self.filled = if left >= 16 {
                    self.filled + 16
                } else {
                    self.size
                };
                self.failures = 0;
                self.stage = if self.filled == self.size {
                    ReadStage::Done
                } else {
                    ReadStage::Reading
                };
            },
            None => {
                self.failures = self.failures + 1;
                self.stage = if self.failures < MEMORY_READ_ATTEMPTS {
                    ReadStage::Reading
                } else {
                    ReadStage::Failed
                };
            },
        }
    }
}

/// A piece of a sector as it is stored, sixteen bytes from an offset on.
pub open spec fn stored_piece(stored: Seq<u8>, offset: int) -> Seq<u8> {
    stored.subrange(offset, offset + 16)
}

/// Reading gives back what is stored: if everything before the piece asked for now has been
/// read as it is stored, then so has everything before the next one after this piece, and in
/// the end the whole sector.
pub proof fn reading_gives_back_what_is_stored(r: SectorReader, stored: Seq<u8>)
    requires
        r.wf(),
        r.stage is Reading,
        stored.len() == r.size,
        r.buf@.take(r.filled as int) == stored.take(r.filled as int),
    ensures
        ({
            let buf = overlaid(
                r.buf@,
                r.filled as int,
                r.news(stored_piece(stored, r.offset())),
            );
            &&& buf.take(r.filled_next()) == stored.take(r.filled_next())
            &&& r.filled_next() == r.size ==> buf == stored
            &&& r.filled < r.filled_next() <= r.size
        }),
{
    let piece = stored_piece(stored, r.offset());
    let news = r.news(piece);
    let buf = overlaid(r.buf@, r.filled as int, news);
    let next = r.filled_next();
    assert(news.len() == next - r.filled);
    assert forall|i: int| 0 <= i < next implies buf[i] == stored[i] by {
        if i < r.filled {
            assert(r.buf@.take(r.filled as int)[i] == r.buf@[i]);
            assert(stored.take(r.filled as int)[i] == stored[i]);
        }
    }
    assert(buf.take(next) =~= stored.take(next));
    if next == r.size {
        assert(buf =~= stored);
    }
}

/// The sixteen bytes written from an offset on, zeros past the end.
pub open spec fn written_piece(bytes: Seq<u8>, at: int) -> Seq<u8> {
    Seq::new(
        16,
        |i: int|
            if at + i < bytes.len() {
                bytes[at + i]
            } else {
                0
            },
    )
}

/// The packets that write the pieces of a sector from an offset on.
pub open spec fn piece_packets(
    force_long: bool,
    devnum: u8,
    idx: u8,
    bytes: Seq<u8>,
    at: int,
) -> Seq<Seq<u8>>
    decreases bytes.len() + 16 - at,
{
    if at >= bytes.len() {
        Seq::empty()
    } else {
        seq![feature_packet(force_long, devnum, idx, MEMORY_WRITE, written_piece(bytes, at))]
            + piece_packets(force_long, devnum, idx, bytes, at + 16)
    }
}

/// The parameters that start to write a sector.
pub open spec fn erase_params(sector: u16, size: int) -> Seq<u8> {
    seq![
        (sector / 256) as u8,
        (sector % 256) as u8,
        0u8,
        0u8,
        ((size % 65536) / 256) as u8,
        (size % 256) as u8,
    ]
}

/// The packets that write a sector: its start, its pieces, its end.
pub open spec fn sector_packets(
    force_long: bool,
    devnum: u8,
    idx: u8,
    sector: u16,
    bytes: Seq<u8>,
) -> Seq<Seq<u8>> {
    (seq![
        feature_packet(
            force_long,
            devnum,
            idx,
            MEMORY_ADDR_WRITE,
            erase_params(sector, bytes.len() as int),
        ),
    ] + piece_packets(force_long, devnum, idx, bytes, 0)).push(
        feature_packet(force_long, devnum, idx, MEMORY_WRITE_END, Seq::empty()),
    )
}

impl Hidpp20 {
    /// The mode in a reply; none where the question failed.
    pub fn read_onboard_mode(reply: Option<&[u8]>) -> (r: Option<u8>)
        ensures
            r == match reply {
                Some(data) => if data@.len() > 0 {
                    Some(data@[0])
                } else {
                    None
                },
                None => None,
            },
    {
        match reply {
            Some(data) => if data.len() > 0 {
                Some(data[0])
            } else {
                None
            },
            None => None,
        }
    }
}

/// The sector of the selected profile in a reply; none while no profile is selected.
pub open spec fn active_sector(reply: Seq<u8>) -> Option<u16> {
    if reply.len() < 2 {
        None
    } else {
        let v = reply[0] as int * 256 + reply[1] as int;
        if v == 0xFFFF || v == 0 {
            None
        } else {
            Some(v as u16)
        }
    }
}

impl Hidpp20 {
    /// Reads the sector of the selected profile; none where the question failed.
    pub fn read_active_profile_sector(reply: Option<&[u8]>) -> (r: Option<u16>)
        ensures
            r == match reply {
                Some(data) => active_sector(data@),
                None => None,
            },
    {
        match reply {
            Some(data) => {
                if data.len() < 2 {
                    return None;
                }
                let v: u16 = u16_be(data[0], data[1]);
                if v == 0xFFFF || v == 0 {
                    None
                } else {
                    Some(v)
                }
            },
            None => None,
        }
    }
}

impl Hidpp20 {
    /// The capabilities in a reply; none where the question failed.
    pub fn read_onboard_capabilities(reply: Option<&[u8]>) -> (r: Option<OnboardCaps>)
        ensures
            r == match reply {
                Some(data) => caps_in(data@),
                None => None,
            },
    {
        match reply {
            Some(data) => parse_onboard_caps(data),
            None => None,
        }
    }
}

impl Hidpp20 {
    /// Asks for the mode.
    pub fn onboard_mode_request(&self, msg: &mut HidppMessenger) -> (r: Option<Vec<u8>>)
        ensures
            self.calls(*old(msg), *final(msg), ONBOARD_PROFILES, GET_MODE, Seq::empty(), r),
    {
        self.request_plain(msg, ONBOARD_PROFILES, GET_MODE)
    }

    /// Gives control to the host or to the selected profile.
    pub fn set_onboard_mode(&self, msg: &mut HidppMessenger, host: bool) -> (r: Option<Vec<u8>>)
        ensures
            self.calls(
                *old(msg),
                *final(msg),
                ONBOARD_PROFILES,
                SET_MODE,
                seq![
                    if host {
                        MODE_HOST
                    } else {
                        MODE_ONBOARD
                    },
                ],
                r,
            ),
    {
        let mode: u8 = if host {
            MODE_HOST
        } else {
            MODE_ONBOARD
        };
        self.request_byte(msg, ONBOARD_PROFILES, SET_MODE, mode)
    }

    /// Asks for the capabilities.
    pub fn onboard_capabilities_request(&self, msg: &mut HidppMessenger) -> (r: Option<Vec<u8>>)
        ensures
            self.calls(*old(msg), *final(msg), ONBOARD_PROFILES, GET_INFO, Seq::empty(), r),
    {
        self.request_plain(msg, ONBOARD_PROFILES, GET_INFO)
    }

    /// Asks for the selected profile.
    pub fn active_profile_request(&self, msg: &mut HidppMessenger) -> (r: Option<Vec<u8>>)
        ensures
            self.calls(
                *old(msg),
                *final(msg),
                ONBOARD_PROFILES,
                GET_CURRENT_PROFILE,
                Seq::empty(),
                r,
            ),
    {
        self.request_plain(msg, ONBOARD_PROFILES, GET_CURRENT_PROFILE)
    }

    /// Selects a profile, counted from 1.
    pub fn set_current_profile(&self, msg: &mut HidppMessenger, slot: u8) -> (r: Option<Vec<u8>>)
        ensures
            self.calls(
                *old(msg),
                *final(msg),
                ONBOARD_PROFILES,
                SET_CURRENT_PROFILE,
                seq![0u8, slot, 0u8],
                r,
            ),
    {
        self.request_three(msg, ONBOARD_PROFILES, SET_CURRENT_PROFILE, 0x00, slot, 0x00)
    }

    /// Asks for the next piece of a sector; none when its reading has ended or the device
    /// has no profiles.
    pub fn memory_read_chunk(&self, msg: &mut HidppMessenger, reader: &SectorReader) -> (r: Option<
        Vec<u8>,
    >)
        requires
            reader.wf(),
        ensures
            if reader.stage is Reading {
                self.calls(
                    *old(msg),
                    *final(msg),
                    ONBOARD_PROFILES,
                    MEMORY_READ,
                    piece_params(reader.sector, reader.offset()),
                    r,
                )
            } else {
                r is None && *final(msg) == *old(msg)
            },
    {
        match reader.next_params() {
            Some(params) => self.request(msg, ONBOARD_PROFILES, MEMORY_READ, &params),
            None => None,
        }
    }

    /// The packets that write a sector, each to be answered before the next is sent; none
    /// where the device has no profiles.
    pub fn write_profile_sector(&self, force_long: bool, write_sector: u16, bytes: &[u8]) -> (r:
        Option<Vec<Vec<u8>>>)
        ensures
            match (r, index_in(self.features@, ONBOARD_PROFILES)) {
                (Some(packets), Some(idx)) => views(packets@) == sector_packets(
                    force_long,
                    self.devnum,
                    idx,
                    write_sector,
                    bytes@,
                ),
                (None, None) => true,
                _ => false,
            },
    {
        let idx: u8 = match self.idx(ONBOARD_PROFILES) {
            Some(idx) => idx,
            None => {
                return None;
            },
        };
        let mut msg = HidppMessenger::new();
        msg.force_long = force_long;
        let n: usize = bytes.len();
        let size: u16 = (n % 65536) as u16;
        let params: [u8; 6] = [
            hi_byte(write_sector),
            lo_byte(write_sector),
            0,
            0,
            hi_byte(size),
            lo_byte(size),
        ];
        proof {
            assert((n % 65536) % 256 == n % 256);
            assert(params@ =~= erase_params(write_sector, n as int));
        }
        let mut packets: Vec<Vec<u8>> = Vec::new();
        packets.push(self.call(&mut msg, idx, MEMORY_ADDR_WRITE, &params));
        let ghost start = feature_packet(
            force_long,
            self.devnum,
            idx,
            MEMORY_ADDR_WRITE,
            erase_params(write_sector, n as int),
        );
        let ghost all = piece_packets(force_long, self.devnum, idx, bytes@, 0);
        let mut at: usize = 0;
        let ghost mut pos: int = 0;
        proof {
            assert(views(packets@) =~= seq![start]);
        }
        while at < n
            invariant
                at <= n,
                n == bytes@.len(),
                pos == at || (at == n && pos >= n),
                msg.force_long == force_long,
                views(packets@) + piece_packets(force_long, self.devnum, idx, bytes@, pos)
                    == seq![start] + all,
            decreases n - at,
        {
            let mut piece: [u8; 16] = [0u8; 16];
            let mut i: usize = 0;
            while i < 16
                invariant
                    i <= 16,
                    at < n,
                    n == bytes@.len(),
                    piece@.len() == 16,
                    forall|k: int|
                        #![trigger piece@[k]]
                        0 <= k < i ==> piece@[k] == written_piece(bytes@, at as int)[k],
                    forall|k: int| #![trigger piece@[k]] i <= k < 16 ==> piece@[k] == 0,
                decreases 16 - i,
            {
                if i < n - at {
                    piece[i] = bytes[at + i];
                }
                i = i + 1;
            }
            proof {
                assert(piece@ =~= written_piece(bytes@, at as int));
            }
            let ghost before = views(packets@);
            let pkt: Vec<u8> = self.call(&mut msg, idx, MEMORY_WRITE, &piece);
            packets.push(pkt);
            proof {
                let rest = piece_packets(force_long, self.devnum, idx, bytes@, pos + 16);
                assert(views(packets@) =~= before.push(pkt@));
                assert(views(packets@) + rest =~= before + (seq![pkt@] + rest));
                pos = pos + 16;
            }
            at = if n - at < 16 {
                n
            } else {
                at + 16
            };
        }
        let ghost body = views(packets@);
        proof {
            assert(piece_packets(force_long, self.devnum, idx, bytes@, pos).len() == 0);
            assert(body + piece_packets(force_long, self.devnum, idx, bytes@, pos) =~= body);
        }
        let no_params: [u8; 0] = [];
        proof {
            assert(no_params@ =~= Seq::<u8>::empty());
        }
        let last: Vec<u8> = self.call(&mut msg, idx, MEMORY_WRITE_END, &no_params);
        packets.push(last);
        proof {
            assert(views(packets@) =~= body.push(last@));
        }
        Some(packets)
    }
}

/// A sector with its checksum filled in has checksum zero.
pub proof fn patched_sectors_have_a_valid_checksum(bytes: Seq<u8>, size: int)
    requires
        2 <= size <= bytes.len(),
    ensures
        crc_of(with_crc(bytes, size).take(size)) == 0,
        with_crc(bytes, size).take(size - 2) == bytes.take(size - 2),
        with_crc(bytes, size).skip(size) == bytes.skip(size),
{
    let data = bytes.take(size - 2);
    let crc = crc_of(data);
    let r = with_crc(bytes, size);
    assert(r.take(size) =~= data.push((crc / 256) as u8).push((crc % 256) as u8));
    checksummed_data_closes_to_zero(data);
    assert(r.take(size - 2) =~= data);
    assert(r.skip(size) =~= bytes.skip(size));
}

/// Whether a step is none of the marks of an unused slot.
pub open spec fn is_usable(step: u16) -> bool {
    step != 0 && step != 0xFFFF
}

/// The usable ones among the first `n` steps.
pub open spec fn usable_steps(steps: Seq<u16>, n: nat) -> Seq<u16>
    decreases n,
{
    if n == 0 {
        Seq::empty()
    } else {
        let before = usable_steps(steps, (n - 1) as nat);
        if n <= steps.len() && is_usable(steps[n - 1]) {
            before.push(steps[n - 1])
        } else {
            before
        }
    }
}

/// The steps in the first `n` slots of a patched sector.
proof fn lemma_steps_read_back(sector: Seq<u8>, steps: Seq<u16>, n: nat)
    requires
        n <= STEP_SLOTS,
        forall|i: int|
            #![trigger sector[STEPS_AT + i]]
            0 <= i < 2 * STEP_SLOTS ==> sector[STEPS_AT + i] == step_byte(steps, i),
    ensures
        steps_in(sector, n) == usable_steps(steps, n),
    decreases n,
{
    if n > 0 {
        let i = n - 1;
        lemma_steps_read_back(sector, steps, i as nat);
        assert(sector[STEPS_AT + 2 * i] == step_byte(steps, 2 * i));
        assert(sector[STEPS_AT + (2 * i + 1)] == step_byte(steps, 2 * i + 1));
        assert(step_at(sector, i) == if i < steps.len() {
            steps[i]
        } else {
            0
        });
    }
}

/// Where all steps are usable, the usable ones are the steps.
proof fn lemma_all_usable(steps: Seq<u16>, n: nat)
    requires
        forall|i: int| #![trigger steps[i]] 0 <= i < steps.len() ==> is_usable(steps[i]),
    ensures
        usable_steps(steps, n) == steps.take(
            if n < steps.len() {
                n as int
            } else {
                steps.len() as int
            },
        ),
    decreases n,
{
    if n == 0 {
        assert(usable_steps(steps, n) =~= steps.take(0));
    } else {
        lemma_all_usable(steps, (n - 1) as nat);
        if n <= steps.len() {
            assert(steps.take(n as int) =~= steps.take(n - 1).push(steps[n - 1]));
        }
    }
}

/// Of the steps that were put into a profile, the first ones are read from it again, as
/// many as there are slots, except those that are a mark of an unused slot. Usable steps
/// that find room are read back as they are. A sector that ends with the last slot has no
/// room for it beside its checksum.
pub proof fn steps_read_back(bytes: Seq<u8>, steps: Seq<u16>, size: int)
    requires
        MIN_PROFILE_SECTOR + 2 <= size <= bytes.len(),
    ensures
        steps_in(with_crc(with_steps(bytes, steps), size), STEP_SLOTS as nat) == usable_steps(
            steps,
            STEP_SLOTS as nat,
        ),
        steps.len() <= STEP_SLOTS && (forall|i: int|
            #![trigger steps[i]]
            0 <= i < steps.len() ==> is_usable(steps[i])) ==> usable_steps(
            steps,
            STEP_SLOTS as nat,
        ) == steps,
{
    let sector = with_crc(with_steps(bytes, steps), size);
    assert forall|i: int| 0 <= i < 2 * STEP_SLOTS implies #[trigger] sector[STEPS_AT + i]
        == step_byte(steps, i) by {}
    lemma_steps_read_back(sector, steps, STEP_SLOTS as nat);
    if steps.len() <= STEP_SLOTS && (forall|i: int|
        #![trigger steps[i]]
        0 <= i < steps.len() ==> is_usable(steps[i])) {
        lemma_all_usable(steps, STEP_SLOTS as nat);
        assert(steps.take(steps.len() as int) =~= steps);
    }
}

/// Other steps change nothing else in a profile but the two step indices and the checksum.
pub proof fn patching_keeps_the_rest(bytes: Seq<u8>, steps: Seq<u16>, size: int, i: int)
    requires
        MIN_PROFILE_SECTOR <= size <= bytes.len(),
        0 <= i < bytes.len(),
        i == 0 || (MIN_PROFILE_SECTOR <= i && i != size - 2 && i != size - 1),
    ensures
        with_crc(with_steps(bytes, steps), size)[i] == bytes[i],
{
}

/// What is written of a sector is the sector: each byte goes out in its piece.
pub proof fn writing_sends_every_byte(bytes: Seq<u8>, i: int)
    requires
        0 <= i < bytes.len(),
    ensures
        written_piece(bytes, i - i % 16)[i % 16] == bytes[i],
{
}

/// Profiles are handled through feature 0x8100: each question and each change by its own
/// function; the host has control in mode two and a profile in mode one.
pub proof fn profiles_are_asked_for_and_set(
    d: Hidpp20,
    host: bool,
    slot: u8,
    reader: SectorReader,
    m1: &mut HidppMessenger,
    m2: &mut HidppMessenger,
    m3: &mut HidppMessenger,
    m4: &mut HidppMessenger,
    m5: &mut HidppMessenger,
    m6: &mut HidppMessenger,
    info: Option<Vec<u8>>,
    set_mode: Option<Vec<u8>>,
    mode: Option<Vec<u8>>,
    select: Option<Vec<u8>>,
    current: Option<Vec<u8>>,
    piece: Option<Vec<u8>>,
)
    requires
        reader.wf(),
        reader.stage is Reading,
        reader.size <= 0xFFFF,
        call_ensures(Hidpp20::onboard_capabilities_request, (&d, m1), info),
        call_ensures(Hidpp20::set_onboard_mode, (&d, m2, host), set_mode),
        call_ensures(Hidpp20::onboard_mode_request, (&d, m3), mode),
        call_ensures(Hidpp20::set_current_profile, (&d, m4, slot), select),
        call_ensures(Hidpp20::active_profile_request, (&d, m5), current),
        call_ensures(Hidpp20::memory_read_chunk, (&d, m6, &reader), piece),
    ensures
        asks(d, 0x8100, 0x01, Seq::empty(), info),
        asks(d, 0x8100, 0x11, seq![if host { 2u8 } else { 1u8 }], set_mode),
        asks(d, 0x8100, 0x21, Seq::empty(), mode),
        asks(d, 0x8100, 0x31, seq![0u8, slot, 0], select),
        asks(d, 0x8100, 0x41, Seq::empty(), current),
        piece is Some <==> d.features@.contains_key(0x8100),
        piece matches Some(p) ==> p@[1] == d.devnum && p@[2] == d.features@[0x8100] && p@[3] == 0x51
            && 256 * p@[4] + p@[5] == reader.sector && 256 * p@[6] + p@[7] == if reader.filled + 16
            <= reader.size {
            reader.filled as int
        } else {
            reader.size - 16
        },
{
    calls_ask(d, *old(m1), *final(m1), 0x8100, 0x00, Seq::empty(), info);
    calls_ask(
        d,
        *old(m2),
        *final(m2),
        0x8100,
        0x10,
        seq![if host { 2u8 } else { 1u8 }],
        set_mode,
    );
    calls_ask(d, *old(m3), *final(m3), 0x8100, 0x20, Seq::empty(), mode);
    calls_ask(d, *old(m4), *final(m4), 0x8100, 0x30, seq![0u8, slot, 0], select);
    calls_ask(d, *old(m5), *final(m5), 0x8100, 0x40, Seq::empty(), current);
    let params = piece_params(reader.sector, reader.offset());
    calls_ask(d, *old(m6), *final(m6), 0x8100, 0x50, params, piece);
    if piece is Some {
        let p = piece->Some_0@;
        assert(p[4] == params[0] && p[5] == params[1] && p[6] == params[2] && p[7] == params[3]);
    }
}

/// Mode, selected sector and capabilities are read from their bytes, pairs high byte first.
pub proof fn profile_replies_give_their_bytes(
    reply: &[u8],
    mode: Option<u8>,
    active: Option<u16>,
    caps: Option<OnboardCaps>,
    same: Option<OnboardCaps>,
)
    requires
        call_ensures(Hidpp20::read_onboard_mode, (Some(reply),), mode),
        call_ensures(Hidpp20::read_active_profile_sector, (Some(reply),), active),
        call_ensures(Hidpp20::read_onboard_capabilities, (Some(reply),), caps),
        call_ensures(parse_onboard_caps, (reply,), same),
    ensures
        same == caps,
        mode is Some <==> reply@.len() > 0,
        mode is Some ==> mode->Some_0 == reply@[0],
        active is Some <==> reply@.len() >= 2 && 0 < 256 * reply@[0] + reply@[1] < 0xFFFF,
        active is Some ==> active->Some_0 == 256 * reply@[0] + reply@[1],
        caps is Some <==> reply@.len() >= 9 && 256 * reply@[7] + reply@[8] > 0,
        caps matches Some(c) ==> c.rom_profile_count == reply@[4] && c.sector_size == 256 * reply@[7]
            + reply@[8],
{
}

/// A directory lists four bytes per profile: its sector, high byte first, and whether it is
/// enabled; the first entry that is empty or erased ends it.
pub proof fn directories_list_their_profiles(dir: &[u8], r: Vec<(u16, bool)>, n: int, i: int)
    requires
        call_ensures(parse_profile_directory, (dir,), r),
        0 <= i < n,
        4 * n <= dir@.len(),
        dir@.len() < 4 * n + 3 || 256 * dir@[4 * n] + dir@[4 * n + 1] == 0 || 256 * dir@[4 * n]
            + dir@[4 * n + 1] == 0xFFFF,
        forall|k: int|
            #![trigger dir@[4 * k]]
            0 <= k < n ==> 0 < 256 * dir@[4 * k] + dir@[4 * k + 1] < 0xFFFF,
    ensures
        r@.len() == n,
        r@[i].0 == 256 * dir@[4 * i] + dir@[4 * i + 1],
        r@[i].1 <==> dir@[4 * i + 2] > 0,
{
    lemma_directory(dir@, 0, n);
}

/// The entries of a directory from entry `e` on.
proof fn lemma_directory(dir: Seq<u8>, e: int, n: int)
    requires
        0 <= e <= n,
        4 * n <= dir.len(),
        dir.len() < 4 * n + 3 || 256 * dir[4 * n] + dir[4 * n + 1] == 0 || 256 * dir[4 * n] + dir[4
            * n + 1] == 0xFFFF,
        forall|k: int|
            #![trigger dir[4 * k]]
            0 <= k < n ==> 0 < 256 * dir[4 * k] + dir[4 * k + 1] < 0xFFFF,
    ensures
        directory_from(dir, e as nat) == Seq::new(
            (n - e) as nat,
            |k: int|
                ((256 * dir[4 * (e + k)] + dir[4 * (e + k) + 1]) as u16, dir[4 * (e + k) + 2] != 0),
        ),
    decreases n - e,
{
    let all = Seq::new(
        (n - e) as nat,
        |k: int| ((256 * dir[4 * (e + k)] + dir[4 * (e + k) + 1]) as u16, dir[4 * (e + k) + 2] != 0),
    );
    if e < n {
        assert(0 < 256 * dir[4 * e] + dir[4 * e + 1] < 0xFFFF);
        lemma_directory(dir, e + 1, n);
        assert(all =~= seq![((256 * dir[4 * e] + dir[4 * e + 1]) as u16, dir[4 * e + 2] != 0)]
            + Seq::new(
            (n - e - 1) as nat,
            |k: int|
                (
                    (256 * dir[4 * (e + 1 + k)] + dir[4 * (e + 1 + k) + 1]) as u16,
                    dir[4 * (e + 1 + k) + 2] != 0,
                ),
        ));
    } else {
        assert(all =~= Seq::empty());
    }
}

/// A profile has the number in the low byte of its sector; it is active where that is the
/// number of the selected sector, and has a factory default where there are as many.
pub proof fn profiles_are_numbered_by_sector(
    dir: &[(u16, bool)],
    sector: u16,
    rom: u8,
    r: Option<OnboardProfiles>,
    i: int,
)
    requires
        call_ensures(build_onboard_profiles, (dir, sector, rom), r),
        0 <= i < dir@.len(),
    ensures
        r is Some,
        r->Some_0.active_slot == sector % 256,
        r->Some_0.slots@.len() == dir@.len(),
        ({
            let s = r->Some_0.slots@[i];
            let number = dir@[i].0 % 256;
            &&& s.index == number
            &&& s.enabled == dir@[i].1
            &&& s.active <==> number > 0 && number == sector % 256
            &&& s.has_rom_default <==> 1 <= number <= rom
        }),
{
}

/// Factory defaults are stored from sector 0x0101 on, one per profile; a profile without one
/// starts from the first.
pub proof fn factory_sectors_are_numbered(slot: u8, rom: u8, r: u16)
    requires
        call_ensures(rom_source_sector, (slot, rom), r),
    ensures
        slot <= rom ==> r == 256 + slot,
        slot > rom ==> r == 257,
{
}

/// The five steps stand from byte 3 on, low byte first; unused slots are zero. The default
/// step and the shifted one are brought back into the list where they lie behind it. The last
/// two bytes of the sector make its checksum zero.
pub proof fn steps_stand_from_byte_three(
    sector: &mut Vec<u8>,
    steps: &[u16],
    size: usize,
    r: Result<(), SectorTooShort>,
    i: int,
)
    requires
        call_ensures(patch_profile_sector, (sector, steps, size), r),
        0 <= i < 5,
    ensures
        r is Ok <==> size >= 13 && old(sector)@.len() >= size,
        r is Err ==> final(sector)@ == old(sector)@,
        r is Ok && size >= 15 ==> {
            let b = final(sector)@;
            &&& i < steps@.len() ==> b[3 + 2 * i] + 256 * b[4 + 2 * i] == steps@[i]
            &&& i >= steps@.len() ==> b[3 + 2 * i] == 0 && b[4 + 2 * i] == 0
            &&& steps@.len() > 0 && old(sector)@[1] >= steps@.len() ==> b[1] == steps@.len() - 1
            &&& steps@.len() > 0 && old(sector)@[2] >= steps@.len() ==> b[2] == 0
            &&& steps@.len() == 0 || old(sector)@[1] < steps@.len() ==> b[1] == old(sector)@[1]
            &&& steps@.len() == 0 || old(sector)@[2] < steps@.len() ==> b[2] == old(sector)@[2]
            &&& b[0] == old(sector)@[0]
            &&& crc_of(b.take(size as int)) == 0
        },
{
    if r is Ok && size >= 15 {
        let patched = with_steps(old(sector)@, steps@);
        patched_sectors_have_a_valid_checksum(patched, size as int);
        let b = final(sector)@;
        assert(b[3 + 2 * i] == step_byte(steps@, 2 * i));
        assert(b[4 + 2 * i] == step_byte(steps@, 2 * i + 1));
    }
}

/// The checksum is written into the last two bytes of the sector, high byte first, and
/// nothing else is touched.
pub proof fn checksums_stand_at_the_end(
    bytes: &mut Vec<u8>,
    size: usize,
    r: Result<(), SectorTooShort>,
    i: int,
)
    requires
        call_ensures(set_sector_crc, (bytes, size), r),
        0 <= i < old(bytes)@.len(),
    ensures
        r is Ok <==> size >= 2 && old(bytes)@.len() >= size,
        r is Ok ==> final(bytes)@.len() == old(bytes)@.len(),
        r is Ok ==> 256 * final(bytes)@[size - 2] + final(bytes)@[size - 1] == crc_of(
            old(bytes)@.take(size - 2),
        ),
        r is Err || (i != size - 2 && i != size - 1) ==> final(bytes)@[i] == old(bytes)@[i],
{
}

/// Steps are read from byte 3 on, low byte first; zeros and erased slots are left out. A
/// sector that is too short has none.
pub proof fn steps_are_read_from_byte_three(sector: &[u8], r: Vec<u16>, v: u16)
    requires
        call_ensures(parse_dpi_steps_from_sector, (sector,), r),
    ensures
        sector@.len() < 13 ==> r@.len() == 0,
        sector@.len() >= 13 ==> (r@.contains(v) <==> 0 < v < 0xFFFF && exists|i: int|
            #![trigger sector@[3 + 2 * i]]
            0 <= i < 5 && sector@[3 + 2 * i] + 256 * sector@[3 + 2 * i + 1] == v),
        r@.len() <= 5,
{
    lemma_steps_in(sector@, 5, v);
}

/// The steps in the first `n` slots.
proof fn lemma_steps_in(sector: Seq<u8>, n: nat, v: u16)
    ensures
        steps_in(sector, n).contains(v) <==> 0 < v < 0xFFFF && exists|i: int|
            #![trigger sector[3 + 2 * i]]
            0 <= i < n && sector[3 + 2 * i] + 256 * sector[3 + 2 * i + 1] == v,
        steps_in(sector, n).len() <= n,
    decreases n,
{
    if n > 0 {
        let before = steps_in(sector, (n - 1) as nat);
        let all = steps_in(sector, n);
        lemma_steps_in(sector, (n - 1) as nat, v);
        let w = sector[3 + 2 * (n - 1)] + 256 * sector[3 + 2 * (n - 1) + 1];
        assert(step_at(sector, n - 1) == w);
        if before.contains(v) {
            let i = choose|i: int| 0 <= i < before.len() && before[i] == v;
            assert(all[i] == v);
        }
        if 0 < w < 0xFFFF && w == v {
            assert(all[before.len() as int] == v);
        }
        if all.contains(v) && !before.contains(v) {
            let i = choose|i: int| 0 <= i < all.len() && all[i] == v;
            if i < before.len() {
                assert(before[i] == v);
            }
            assert(w == v);
        }
    }
}

/// A piece that cannot be read is asked for again, twice; then the reading fails. A piece that
/// can be read starts the count anew.
pub proof fn pieces_are_asked_for_three_times(
    r: &mut SectorReader,
    piece: &[u8],
    s: &mut SectorReader,
)
    requires
        old(r).wf() && old(r).stage is Reading,
        old(s).wf() && old(s).stage is Reading,
        call_ensures(SectorReader::advance, (r, None::<&[u8]>), ()),
        call_ensures(SectorReader::advance, (s, Some(piece)), ()),
    ensures
        final(r).buf@ == old(r).buf@ && final(r).filled == old(r).filled,
        old(r).failures < 2 ==> final(r).stage is Reading && final(r).failures == old(r).failures
            + 1,
        old(r).failures == 2 ==> final(r).stage is Failed,
        final(s).failures == 0,
        final(s).stage is Done <==> final(s).filled == final(s).size,
        old(s).filled + 16 <= old(s).size && piece@.len() >= 16 ==> final(s).filled
            == old(s).filled + 16 && final(s).buf@.subrange(old(s).filled as int, old(s).filled + 16)
            == piece@.take(16),
{
    if old(s).filled + 16 <= old(s).size && piece@.len() >= 16 {
        assert(final(s).buf@.subrange(old(s).filled as int, old(s).filled + 16) =~= piece@.take(16));
    }
}

/// A sector is written by announcing it with its size, sending its bytes sixteen at a time in
/// their order, and ending it.
pub proof fn sectors_are_written_in_pieces(
    d: Hidpp20,
    force_long: bool,
    sector: u16,
    bytes: &[u8],
    r: Option<Vec<Vec<u8>>>,
    i: int,
)
    requires
        call_ensures(Hidpp20::write_profile_sector, (&d, force_long, sector, bytes), r),
        0 <= i < bytes@.len() <= 0xFFFF,
    ensures
        r is Some <==> d.features@.contains_key(0x8100),
        r matches Some(packets) ==> {
            let n = (bytes@.len() + 15) / 16;
            let idx = d.features@[0x8100];
            let first = packets@[0]@;
            let p = packets@[1 + i / 16]@;
            &&& packets@.len() == n + 2
            &&& first[1] == d.devnum && first[2] == idx && first[3] == 0x61
            &&& 256 * first[4] + first[5] == sector && first[6] == 0 && first[7] == 0
            &&& 256 * first[8] + first[9] == bytes@.len()
            &&& p.len() == 20 && p[1] == d.devnum && p[2] == idx && p[3] == 0x71
            &&& p[4 + i % 16] == bytes@[i]
            &&& reads_as(packets@.last()@, d.devnum, idx, 0x81, Seq::empty())
        },
{
    if r is Some {
        let idx = d.features@[0x8100];
        let packets = r->Some_0@;
        let pieces = piece_packets(force_long, d.devnum, idx, bytes@, 0);
        let all = sector_packets(force_long, d.devnum, idx, sector, bytes@);
        odd_bytes(0x60);
        odd_bytes(0x70);
        odd_bytes(0x80);
        lemma_piece(force_long, d.devnum, idx, bytes@, 0, i);
        assert(views(packets) == all);
        assert(views(packets).len() == packets.len());
        assert(all[0] == packets[0]@);
        assert(all.last() == packets.last()@);
        assert(all[1 + i / 16] == packets[1 + i / 16]@);
        assert(all[1 + i / 16] == pieces[i / 16]);
        let e = erase_params(sector, bytes@.len() as int);
        let f = packets[0]@;
        assert(f[4] == e[0] && f[5] == e[1] && f[6] == e[2] && f[7] == e[3] && f[8] == e[4] && f[9]
            == e[5]);
    }
}

/// Where byte `i` is written.
proof fn lemma_piece(force_long: bool, devnum: u8, idx: u8, bytes: Seq<u8>, at: int, i: int)
    requires
        0 <= at <= i < bytes.len(),
        at % 16 == 0,
    ensures
        ({
            let pieces = piece_packets(force_long, devnum, idx, bytes, at);
            let p = pieces[(i - at) / 16];
            &&& pieces.len() == (bytes.len() - at + 15) / 16
            &&& p.len() == 20 && p[1] == devnum && p[2] == idx && p[3] == 0x71
            &&& p[4 + i % 16] == bytes[i]
        }),
    decreases bytes.len() - at,
{
    odd_bytes(0x70);
    let w = written_piece(bytes, at);
    let head = feature_packet(force_long, devnum, idx, MEMORY_WRITE, w);
    if at + 16 < bytes.len() {
        lemma_piece(
            force_long,
            devnum,
            idx,
            bytes,
            at + 16,
            if i >= at + 16 {
                i
            } else {
                at + 16
            },
        );
    } else {
        assert(piece_packets(force_long, devnum, idx, bytes, at + 16) =~= Seq::empty());
    }
    if i < at + 16 {
        assert(w[i - at] == bytes[i]);
        assert(i % 16 == i - at);
        assert(head[4 + (i - at)] == w[i - at]);
    } else {
        assert((i - at) / 16 == (i - (at + 16)) / 16 + 1);
    }
}

/// What is taken of the last piece ends with the sector: behind what was read before, up
/// to the end of the piece.
pub proof fn tails_end_with_the_sector(chunk_len: usize, o: usize, size: usize, r: (usize, usize))
    requires
        call_ensures(tail_slice_bounds, (chunk_len, o, size), r),
    ensures
        r.0 <= r.1 <= 16 && r.1 <= chunk_len,
        chunk_len >= 16 ==> r.1 == 16,
        chunk_len >= 16 && size >= 16 && o <= size && o + 16 >= size ==> r.1 - r.0 == size - o,
{
}

/// A sector of 16 bytes or more is read from its start, under its number and the place of
/// the piece, both high byte first.
pub proof fn pieces_are_asked_for_by_place(
    sector: u16,
    size: usize,
    fresh: Option<SectorReader>,
    d: SectorReader,
    p: Option<[u8; 4]>,
)
    requires
        call_ensures(SectorReader::new, (sector, size), fresh),
        d.wf(),
        call_ensures(SectorReader::next_params, (&d,), p),
    ensures
        fresh is Some <==> size >= 16,
        fresh matches Some(s) ==> s.sector == sector && s.size == size && s.filled == 0
            && s.failures == 0 && s.offset() == 0,
        p is Some <==> d.stage is Reading,
        p matches Some(b) ==> {
            &&& 256 * b@[0] + b@[1] == d.sector
            &&& 256 * b@[2] + b@[3] == d.offset() % 65536
        },
{
}

} // verus!
