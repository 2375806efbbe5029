//! Kraken LCD: brightness and rotation, the image codecs, the placement of images in the
//! panel's memory, and the order in which an upload or a streamed frame talks to the
//! panel.
//!
//! Every transfer start and end has to have its acknowledgement read: acknowledgements
//! that stay queued put the panel out of step and can crash its firmware.

use crate::nzxt::protocols::nzxt_kraken::NzxtKrakenProtocol;
use std::collections::HashMap;
use vstd::prelude::*;
use vstd::slice::*;

verus! {

/// Memory of the panel in KiB.
pub const LCD_TOTAL_MEMORY_KB: u32 = 24320;

/// Size of one bulk write of an image upload.
pub const LCD_BULK_CHUNK: usize = 2097152;

/// Size of one bulk write of a raw frame.
pub const STREAM_URB: usize = 245760;

/// Number of image buckets.
pub const BUCKET_COUNT: u8 = 16;

/// Configuration command.
pub const CONFIG: u8 = 0x30;

/// Configuration reply.
pub const CONFIG_REPLY: u8 = 0x31;

/// Bucket memory command: sub-command 1 sets up, 2 deletes.
pub const BUCKET_MEM: u8 = 0x32;

/// Transfer control: sub-command 1 starts, 2 ends, 3 and 4 select a mode.
pub const XFER: u8 = 0x36;

/// Transfer acknowledgement; its second byte is the sub-command it answers.
pub const XFER_ACK: u8 = 0x37;

/// Display selection.
pub const BUCKET_SWITCH: u8 = 0x38;

/// Reply to a display selection.
pub const BUCKET_SWITCH_REPLY: u8 = 0x39;

/// Signature in front of every bulk frame.
pub const BULK_MAGIC: [u8; 12] = [
    0x12,
    0xFA,
    0x01,
    0xE8,
    0xAB,
    0xCD,
    0xEF,
    0x98,
    0x76,
    0x54,
    0x32,
    0x10,
];

/// Why an LCD operation was refused.
#[derive(Debug, Clone, Copy, PartialEq, Eq, Structural)]
pub enum LcdError {
    /// The pixel buffer does not have the size that its dimensions ask for.
    SizeMismatch,
    /// The frame is larger than the codec can describe or memory can hold.
    DimensionLimit,
    /// The encoder refused the frame.
    EncodeFailed,
    /// The image file could not be decoded.
    Undecodable,
    /// The payload does not fit a 32-bit length.
    PayloadTooLong,
    /// The image needs more memory than the panel has.
    ImageTooLarge { units: u64 },
    /// No bucket could be freed.
    NoBucketLeft,
    /// The panel did not accept the bucket.
    SetupRejected,
    /// A write failed.
    WriteFailed,
    /// A transfer was not acknowledged.
    NoAck { sub: u8 },
    /// A step took too long.
    TimedOut,
}

// Outside types and calls.

/// A decoded image.
#[verifier::external_type_specification]
#[verifier::external_body]
pub struct ExDynamicImage(image::DynamicImage);

/// A decoding error.
#[verifier::external_type_specification]
#[verifier::external_body]
pub struct ExImageError(image::ImageError);

/// Width and height that an image file decodes to, if it decodes.
pub uninterp spec fn decoded_size(data: Seq<u8>) -> Option<(u32, u32)>;

/// The pixels that an image file decodes to, as RGBA bytes.
pub uninterp spec fn decoded_rgba(data: Seq<u8>) -> Seq<u8>;

/// Width and height of a decoded image.
pub uninterp spec fn image_size(img: image::DynamicImage) -> (u32, u32);

/// The pixels of a decoded image as RGBA bytes.
pub uninterp spec fn rgba8_bytes(img: image::DynamicImage) -> Seq<u8>;

/// Whether `to` is an image that resizing `from` to the given dimensions came to. The
/// platform's arithmetic has a say in it, so more than one image may qualify.
pub uninterp spec fn resized_to(
    from: image::DynamicImage,
    width: u32,
    height: u32,
    to: image::DynamicImage,
) -> bool;

/// `image::load_from_memory`: decodes an image file. Whether it decodes, to which
/// dimensions and to which pixels depends on the bytes alone; the image holds exactly its
/// pixels. The GIF, JPEG and PNG decoders compute them with integers, the same on every
/// machine.
#[verifier::external_body]
fn decode_image(data: &[u8]) -> (r: Result<image::DynamicImage, image::ImageError>)
    ensures
        r is Ok <==> decoded_size(data@) is Some,
        r is Ok ==> image_size(r->Ok_0) == decoded_size(data@)->Some_0,
        r is Ok ==> rgba8_bytes(r->Ok_0) == decoded_rgba(data@),
        r is Ok ==> rgba8_bytes(r->Ok_0).len() == 4 * image_size(r->Ok_0).0 * image_size(
            r->Ok_0,
        ).1,
{
    image::load_from_memory(data)
}

/// `image::DynamicImage::width`: the width of the image.
#[verifier::external_body]
fn image_width(img: &image::DynamicImage) -> (r: u32)
    ensures
        r == image_size(*img).0,
{
    img.width()
}

/// `image::DynamicImage::height`: the height of the image.
#[verifier::external_body]
fn image_height(img: &image::DynamicImage) -> (r: u32)
    ensures
        r == image_size(*img).1,
{
    img.height()
}

/// Whether the buffers that a resize goes through can be allocated: one as wide as the
/// image and as high as the result, and the result, of up to sixteen bytes per pixel.
pub open spec fn buffers_fit(from_width: int, width: int, height: int) -> bool {
    from_width * height * 16 <= isize::MAX && width * height * 16 <= isize::MAX
}

/// `image::DynamicImage::resize_exact` with the Lanczos filter: what the given image was
/// resized to, an image of exactly the given dimensions. The values of its pixels are left
/// unsaid: the filter's kernel is made of the platform's sine. Dimensions past 24 bits are
/// left out: the filter counts pixels in single precision.
#[verifier::external_body]
fn resize_image(img: &image::DynamicImage, width: u32, height: u32) -> (r: image::DynamicImage)
    requires
        width < 0x100_0000,
        height < 0x100_0000,
        buffers_fit(image_size(*img).0 as int, width as int, height as int),
    ensures
        resized_to(*img, width, height, r),
        image_size(r) == (width, height),
        rgba8_bytes(r).len() == 4 * width * height,
{
    img.resize_exact(width, height, image::imageops::FilterType::Lanczos3)
}

/// `image::DynamicImage::into_rgba8` and `ImageBuffer::into_raw`: the pixels as RGBA
/// bytes, row by row.
#[verifier::external_body]
fn image_rgba8(img: image::DynamicImage) -> (r: Vec<u8>)
    requires
        4 * image_size(img).0 * image_size(img).1 <= isize::MAX,
    ensures
        r@ == rgba8_bytes(img),
{
    img.into_rgba8().into_raw()
}

/// `q565::utils::rgb888_to_rgb565`: eight-bit channels scaled to five, six and five bits.
pub assume_specification[ q565::utils::rgb888_to_rgb565 ](p: [u8; 3]) -> (r: [u8; 3])
    ensures
        r@[0] == (p@[0] * 249 + 1014) / 2048,
        r@[1] == (p@[1] * 253 + 505) / 1024,
        r@[2] == (p@[2] * 249 + 1014) / 2048,
;

/// `q565::utils::encode_rgb565_unchecked`: the three channels packed into sixteen bits,
/// red highest.
pub assume_specification[ q565::utils::encode_rgb565_unchecked ](p: [u8; 3]) -> (r: u16)
    ensures
        r == ((p@[0] as u16) << 11u16) | ((p@[1] as u16) << 5u16) | (p@[2] as u16),
;

/// The Q565 stream of a frame.
pub uninterp spec fn q565_stream(width: u16, height: u16, pixels: Seq<u16>) -> Seq<u8>;

/// `q565::encode::Q565EncodeContext::encode_to_vec`: appends the Q565 stream of a frame to
/// `out`, and refuses frames whose pixel count is not width times height. A stream starts
/// with the signature and the dimensions, and ends with an end marker; what lies between
/// is left to its name.
#[verifier::external_body]
fn q565_encode(width: u16, height: u16, pixels: &[u16], out: &mut Vec<u8>) -> (r: bool)
    ensures
        r == (width * height == pixels@.len()),
        r ==> final(out)@ == old(out)@ + q565_stream(width, height, pixels@),
        !r ==> final(out)@ == old(out)@,
        r ==> final(out)@.len() >= old(out)@.len() + 9,
        r ==> final(out)@.subrange(old(out)@.len() as int, old(out)@.len() as int + 8) == seq![
            0x71u8,
            0x35,
            0x36,
            0x35,
            (width % 256) as u8,
            (width / 256) as u8,
            (height % 256) as u8,
            (height / 256) as u8,
        ],
        r ==> final(out)@.last() == 0xFF,
{
    q565::encode::Q565EncodeContext::encode_to_vec(width, height, pixels, out)
}

/// The sixteen-bit pixel of a 24-bit colour.
pub open spec fn pixel565(r: u8, g: u8, b: u8) -> u16 {
    (((((r * 249 + 1014) / 2048) as u8) as u16) << 11u16) | (((((g * 253 + 505) / 1024) as u8)
        as u16) << 5u16) | ((((b * 249 + 1014) / 2048) as u8) as u16)
}

/// The sixteen-bit pixels of an RGBA buffer; alpha is dropped.
pub open spec fn pixels565(rgba: Seq<u8>) -> Seq<u16> {
    Seq::new(
        rgba.len() / 4,
        |i: int| pixel565(rgba[4 * i], rgba[4 * i + 1], rgba[4 * i + 2]),
    )
}

/// What encoding an RGBA frame gives.
pub open spec fn q565_payload(rgba: Seq<u8>, width: u32, height: u32) -> Result<Seq<u8>, LcdError> {
    if rgba.len() != width * height * 4 {
        Err(LcdError::SizeMismatch)
    } else if width > 0xFFFF || height > 0xFFFF {
        Err(LcdError::DimensionLimit)
    } else {
        Ok(q565_stream(width as u16, height as u16, pixels565(rgba)))
    }
}

/// The source of pixel `(cx, cy)` of a frame that was turned clockwise by `step` degrees.
/// Turns that are no multiple of ninety leave the frame as it is.
pub open spec fn turned_from(n: int, step: u32, cx: int, cy: int) -> (int, int) {
    if step == 90 {
        (cy, n - 1 - cx)
    } else if step == 180 {
        (n - 1 - cx, n - 1 - cy)
    } else if step == 270 {
        (n - 1 - cy, cx)
    } else {
        (cx, cy)
    }
}

/// The position of byte `i` of a turned square frame in the frame it was made from.
pub open spec fn turned_index(n: int, step: u32, i: int) -> int {
    let p = i / 4;
    let (x, y) = turned_from(n, step, p % n, p / n);
    4 * (y * n + x) + i % 4
}

/// A square RGBA frame turned clockwise. Frames that are not square are left alone.
pub open spec fn turned(rgba: Seq<u8>, size: u32, degrees: u32) -> Seq<u8> {
    let step = degrees % 360;
    if step == 0 || rgba.len() != size * size * 4 {
        rgba
    } else {
        Seq::new(rgba.len(), |i: int| rgba[turned_index(size as int, step, i)])
    }
}

/// The BGR bytes of an RGBA buffer.
pub open spec fn bgr_bytes(rgba: Seq<u8>) -> Seq<u8> {
    Seq::new(3 * (rgba.len() / 4), |i: int| rgba[4 * (i / 3) + 2 - i % 3])
}

/// The header of a bulk frame.
pub open spec fn bulk_header(payload_len: u32, asset_mode: u8) -> Seq<u8> {
    BULK_MAGIC@ + seq![
        asset_mode,
        0,
        0,
        0,
        (payload_len % 256) as u8,
        (payload_len / 256 % 256) as u8,
        (payload_len / 65536 % 256) as u8,
        (payload_len / 16777216) as u8,
    ]
}

/// A report that acknowledges transfer sub-command `sub`.
pub open spec fn is_ack(pkt: Seq<u8>, sub: u8) -> bool {
    pkt.len() >= 2 && pkt[0] == XFER_ACK && pkt[1] == sub
}

/// A report that answers a command: one higher in the first byte, the same in the second.
pub open spec fn is_answer(sent: Seq<u8>, pkt: Seq<u8>) -> bool {
    pkt.len() >= 2 && pkt[0] == (if sent[0] == 255 {
        0int
    } else {
        sent[0] + 1
    }) && pkt[1] == sent[1]
}

/// The little-endian pair at `i`.
pub open spec fn pair_at(b: Seq<u8>, i: int) -> int {
    b[i] + 256 * b[i + 1]
}

/// Where a bucket starts, in KiB.
pub open spec fn bucket_start(b: Seq<u8>) -> int {
    pair_at(b, 17)
}

/// How much memory a bucket takes, in KiB.
pub open spec fn bucket_size(b: Seq<u8>) -> int {
    pair_at(b, 19)
}

/// Where a bucket ends, in KiB.
pub open spec fn bucket_end(b: Seq<u8>) -> int {
    bucket_start(b) + bucket_size(b)
}

/// Whether a bucket report says that the bucket is free: nothing but zeros from byte 15.
pub open spec fn is_free(b: Seq<u8>) -> bool {
    forall|i: int| 15 <= i < b.len() ==> b[i] == 0
}

/// Whether bucket `k` is in the way of `units` KiB at the place of bucket `index`.
pub open spec fn in_the_way(
    buckets: Map<u8, Vec<u8>>,
    index: u8,
    units: int,
    k: u8,
) -> bool {
    let here = bucket_start(buckets[index]@);
    let start = bucket_start(buckets[k]@);
    let end = bucket_end(buckets[k]@);
    ||| here < start < here + units
    ||| start < here < end
    ||| start == here && k != index
}

/// Whether any bucket below `n` is in the way.
pub open spec fn blocked(buckets: Map<u8, Vec<u8>>, index: u8, units: int, n: int) -> bool {
    exists|k: u8|
        #![trigger buckets.contains_key(k)]
        k < n && buckets.contains_key(k) && in_the_way(buckets, index, units, k)
}

/// The highest end of the buckets below `n`.
pub open spec fn highest_end(buckets: Map<u8, Vec<u8>>, n: nat) -> int
    decreases n,
{
    if n == 0 {
        0
    } else {
        let before = highest_end(buckets, (n - 1) as nat);
        let k = (n - 1) as u8;
        if buckets.contains_key(k) && bucket_end(buckets[k]@) > before {
            bucket_end(buckets[k]@)
        } else {
            before
        }
    }
}

/// The lowest start of the buckets below `n`, and of bucket `index`.
pub open spec fn lowest_start(buckets: Map<u8, Vec<u8>>, index: u8, n: nat) -> int
    decreases n,
{
    if n == 0 {
        bucket_start(buckets[index]@)
    } else {
        let before = lowest_start(buckets, index, (n - 1) as nat);
        let k = (n - 1) as u8;
        if buckets.contains_key(k) && bucket_start(buckets[k]@) < before {
            bucket_start(buckets[k]@)
        } else {
            before
        }
    }
}

/// Where `units` KiB for bucket `index` go: into its present place if they fit or nothing
/// is in the way, behind the highest bucket, in front of the lowest, or nowhere.
pub open spec fn placement(buckets: Map<u8, Vec<u8>>, index: u8, units: u32) -> Option<int> {
    if !buckets.contains_key(index) {
        Some(0)
    } else if units <= bucket_size(buckets[index]@) {
        Some(bucket_start(buckets[index]@))
    } else if !blocked(buckets, index, units as int, 256) {
        Some(bucket_start(buckets[index]@))
    } else if highest_end(buckets, 256) + units < LCD_TOTAL_MEMORY_KB {
        Some(highest_end(buckets, 256))
    } else if units < lowest_start(buckets, index, 256) {
        Some(0)
    } else {
        None
    }
}

/// Every bucket report is long enough to hold its fields.
pub open spec fn reports_complete(buckets: Map<u8, Vec<u8>>) -> bool {
    forall|k: u8| #[trigger] buckets.contains_key(k) ==> buckets[k]@.len() >= 21
}

/// A place as a little-endian pair.
pub open spec fn place_bytes(place: int) -> Seq<u8> {
    seq![(place % 256) as u8, (place / 256) as u8]
}

/// Whether some report below `n` says that its bucket is free.
pub open spec fn free_below(buckets: Map<u8, Vec<u8>>, n: int) -> bool {
    exists|k: u8|
        #![trigger buckets.contains_key(k)]
        k < n && buckets.contains_key(k) && is_free(buckets[k]@)
}

/// One step of a plan that is carried out in order and abandoned at the first failure.
#[derive(Debug)]
pub enum LcdOp {
    /// Read until nothing is queued any more.
    Drain,
    /// Write a packet.
    Write(Vec<u8>),
    /// Write a packet and read one report, whatever it is; a missing report is tolerated.
    WriteThenRead(Vec<u8>),
    /// Read until a transfer acknowledgement for the sub-command comes.
    AwaitAck(u8),
    /// Bulk-write the header, then the payload in chunks.
    Bulk { header: [u8; 20], chunk: usize },
}

/// The model of a step.
pub enum LcdOpModel {
    Drain,
    Write(Seq<u8>),
    WriteThenRead(Seq<u8>),
    AwaitAck(u8),
    Bulk(Seq<u8>, usize),
}

impl View for LcdOp {
    type V = LcdOpModel;

    open spec fn view(&self) -> LcdOpModel {
        match self {
            LcdOp::Drain => LcdOpModel::Drain,
            LcdOp::Write(p) => LcdOpModel::Write(p@),
            LcdOp::WriteThenRead(p) => LcdOpModel::WriteThenRead(p@),
            LcdOp::AwaitAck(sub) => LcdOpModel::AwaitAck(*sub),
            LcdOp::Bulk { header, chunk } => LcdOpModel::Bulk(header@, *chunk),
        }
    }
}

/// The models of a plan.
pub open spec fn plan_view(ops: Seq<LcdOp>) -> Seq<LcdOpModel> {
    Seq::new(ops.len(), |i: int| ops[i]@)
}

/// Whether step `i` of a plan, if it starts or ends a transfer, is followed by the read of
/// its acknowledgement.
pub open spec fn ack_follows(plan: Seq<LcdOpModel>, i: int) -> bool {
    match plan[i] {
        LcdOpModel::Write(p) => p.len() >= 2 && p[0] == XFER && (p[1] == 1 || p[1] == 2) ==> i + 1
            < plan.len() && plan[i + 1] == LcdOpModel::AwaitAck(p[1]),
        _ => true,
    }
}

/// Whether every transfer start and end of a plan has its acknowledgement read.
pub open spec fn acks_are_read(plan: Seq<LcdOpModel>) -> bool {
    forall|i: int| 0 <= i < plan.len() ==> #[trigger] ack_follows(plan, i)
}

/// The plan of a Q565 frame.
pub open spec fn frame_plan(payload_len: u32) -> Seq<LcdOpModel> {
    seq![
        LcdOpModel::Drain,
        LcdOpModel::Write(seq![XFER, 0x01, 0x00, 0x01, 0x08]),
        LcdOpModel::AwaitAck(0x01),
        LcdOpModel::Bulk(bulk_header(payload_len, 0x08), LCD_BULK_CHUNK),
        LcdOpModel::Write(seq![XFER, 0x02]),
        LcdOpModel::AwaitAck(0x02),
    ]
}

/// The plan of a raw frame.
pub open spec fn raw_frame_plan(payload_len: u32) -> Seq<LcdOpModel> {
    seq![
        LcdOpModel::Drain,
        LcdOpModel::WriteThenRead(lut_bytes(seq![0x72u8, 0x01, 0x01, 0x00], 0x3F)),
        LcdOpModel::WriteThenRead(lut_bytes(seq![0x72u8, 0x02, 0x01, 0x01], 0x1F)),
        LcdOpModel::Write(seq![XFER, 0x01, 0x00, 0x01, 0x09]),
        LcdOpModel::AwaitAck(0x01),
        LcdOpModel::Bulk(bulk_header(payload_len, 0x09), STREAM_URB),
        LcdOpModel::Write(seq![XFER, 0x02]),
        LcdOpModel::AwaitAck(0x02),
    ]
}

/// A look-up table: a header of four bytes, then one value.
pub open spec fn lut_bytes(head: Seq<u8>, fill: u8) -> Seq<u8> {
    head + Seq::new(41, |i: int| fill)
}

/// The handshake before the buckets are cleared.
pub open spec fn handshake_plan() -> Seq<LcdOpModel> {
    seq![
        LcdOpModel::Drain,
        LcdOpModel::WriteThenRead(seq![0x10u8, 0x02]),
        LcdOpModel::WriteThenRead(seq![0x70u8, 0x02, 0x01, 0xB8, 0x0B]),
        LcdOpModel::WriteThenRead(seq![0x74u8, 0x01]),
        LcdOpModel::WriteThenRead(seq![XFER, 0x04]),
        LcdOpModel::WriteThenRead(seq![CONFIG, 0x01]),
        LcdOpModel::WriteThenRead(seq![XFER, 0x03]),
        LcdOpModel::WriteThenRead(seq![CONFIG, 0x02, 0x00, 0x00, 0x00, 0x00, 0x1E]),
        LcdOpModel::WriteThenRead(seq![BUCKET_SWITCH, 0x01, 0x02]),
    ]
}

/// The plan that enters streaming mode.
pub open spec fn streaming_plan(brightness: u8) -> Seq<LcdOpModel> {
    let pct = if brightness < 100 { brightness } else { 100 };
    handshake_plan() + Seq::new(
        16,
        |i: int| LcdOpModel::WriteThenRead(seq![BUCKET_MEM, 0x02, i as u8]),
    ) + seq![
        LcdOpModel::WriteThenRead(seq![CONFIG, 0x02, 0x01, pct, 0x00, 0x00, 0x00, 0x1E]),
        LcdOpModel::Drain,
    ]
}

/// The look-up table that goes first before a raw frame.
pub fn stream_lut1() -> (r: [u8; 45])
    ensures
        r@ == lut_bytes(seq![0x72u8, 0x01, 0x01, 0x00], 0x3F),
{
    let mut lut: [u8; 45] = [0x3Fu8; 45];
    lut[0] = 0x72;
    lut[1] = 0x01;
    lut[2] = 0x01;
    lut[3] = 0x00;
    proof {
        assert(lut@ =~= lut_bytes(seq![0x72u8, 0x01, 0x01, 0x00], 0x3F));
    }
    lut
}

/// The look-up table that goes second before a raw frame.
pub fn stream_lut2() -> (r: [u8; 45])
    ensures
        r@ == lut_bytes(seq![0x72u8, 0x02, 0x01, 0x01], 0x1F),
{
    let mut lut: [u8; 45] = [0x1Fu8; 45];
    lut[0] = 0x72;
    lut[1] = 0x02;
    lut[2] = 0x01;
    lut[3] = 0x01;
    proof {
        assert(lut@ =~= lut_bytes(seq![0x72u8, 0x02, 0x01, 0x01], 0x1F));
    }
    lut
}

/// Whether the bytes of an image can be brought to a resolution: at its own resolution
/// they have to be allocated, at any other one the buffers of the resize.
pub open spec fn can_be_fitted(size: (u32, u32), width: u32, height: u32) -> bool {
    if size == (width, height) {
        width * height * 4 <= isize::MAX
    } else {
        buffers_fit(size.0 as int, width as int, height as int)
    }
}

/// Whether the bytes of an image can be brought to a resolution.
fn can_allocate(size: (u32, u32), width: u32, height: u32) -> (r: bool)
    ensures
        r == can_be_fitted(size, width, height),
{
    let most: u128 = isize::MAX as u128;
    let h: u128 = height as u128;
    let from_width: u32 = size.0;
    proof {
        assert(0 <= from_width * height <= 0xFFFF_FFFF * 0xFFFF_FFFF) by (nonlinear_arith)
            requires
                0 <= from_width <= 0xFFFF_FFFF,
                0 <= height <= 0xFFFF_FFFF,
        ;
        assert(0 <= width * height <= 0xFFFF_FFFF * 0xFFFF_FFFF) by (nonlinear_arith)
            requires
                0 <= width <= 0xFFFF_FFFF,
                0 <= height <= 0xFFFF_FFFF,
        ;
    }
    if from_width == width && size.1 == height {
        (width as u128) * h * 4 <= most
    } else {
        (from_width as u128) * h * 16 <= most && (width as u128) * h * 16 <= most
    }
}

/// The RGBA bytes of a decoded image at the panel's resolution: those of the image itself
/// if it has that resolution, else those of what the image was resized to.
pub fn fit_image(img: image::DynamicImage, width: u32, height: u32) -> (r: Result<
    Vec<u8>,
    LcdError,
>)
    requires
        width < 0x100_0000,
        height < 0x100_0000,
    ensures
        match r {
            Ok(bytes) => {
                &&& can_be_fitted(image_size(img), width, height)
                &&& image_size(img) == (width, height) ==> bytes@ == rgba8_bytes(img)
                &&& image_size(img) != (width, height) ==> bytes@.len() == width * height * 4
                &&& image_size(img) != (width, height) ==> exists|out: image::DynamicImage|
                    {
                        &&& #[trigger] resized_to(img, width, height, out)
                        &&& image_size(out) == (width, height)
                        &&& bytes@ == rgba8_bytes(out)
                    }
            },
            Err(e) => {
                &&& !can_be_fitted(image_size(img), width, height)
                &&& e == LcdError::DimensionLimit
            },
        },
{
    let size: (u32, u32) = (image_width(&img), image_height(&img));
    if !can_allocate(size, width, height) {
        return Err(LcdError::DimensionLimit);
    }
    proof {
        assert(4 * width * height == width * height * 4) by (nonlinear_arith);
        assert(0 <= width * height) by (nonlinear_arith)
            requires
                0 <= width,
                0 <= height,
        ;
    }
    if size.0 == width && size.1 == height {
        Ok(image_rgba8(img))
    } else {
        let out = resize_image(&img, width, height);
        let ghost shown = out;
        let bytes = image_rgba8(out);
        proof {
            assert(resized_to(img, width, height, shown));
        }
        Ok(bytes)
    }
}

/// Decodes a static image and brings it to the panel's resolution, as RGBA bytes. An image
/// that has this resolution is handed on pixel by pixel; any other one is resized.
pub fn decode_static_image_rgba(data: &[u8], width: u32, height: u32) -> (r: Result<
    Vec<u8>,
    LcdError,
>)
    requires
        width < 0x100_0000,
        height < 0x100_0000,
    ensures
        match decoded_size(data@) {
            Some(size) => if can_be_fitted(size, width, height) {
                &&& r is Ok
                &&& r->Ok_0@.len() == width * height * 4
                &&& size == (width, height) ==> r->Ok_0@ == decoded_rgba(data@)
                &&& size != (width, height) ==> exists|
                    from: image::DynamicImage,
                    out: image::DynamicImage,
                |
                    {
                        &&& #[trigger] resized_to(from, width, height, out)
                        &&& image_size(from) == size
                        &&& rgba8_bytes(from) == decoded_rgba(data@)
                        &&& image_size(out) == (width, height)
                        &&& r->Ok_0@ == rgba8_bytes(out)
                    }
            } else {
                r == Err::<Vec<u8>, LcdError>(LcdError::DimensionLimit)
            },
            None => r == Err::<Vec<u8>, LcdError>(LcdError::Undecodable),
        },
{
    match decode_image(data) {
        Ok(img) => {
            proof {
                let a = image_size(img).0;
                let b = image_size(img).1;
                assert(a == width && b == height ==> 4 * a * b == width * height * 4)
                    by (nonlinear_arith);
            }
            fit_image(img, width, height)
        },
        Err(_) => Err(LcdError::Undecodable),
    }
}

impl NzxtKrakenProtocol {
    /// The packet that sets brightness and rotation.
    pub fn write_screen_config(brightness: u8, rotation_degrees: u32) -> (r: [u8; 8])
        ensures
            r@ == seq![
                CONFIG,
                0x02,
                0x01,
                brightness,
                0x00,
                0x00,
                0x01,
                (rotation_degrees / 90 % 4) as u8,
            ],
    {
        let rot_idx: u8 = (rotation_degrees / 90 % 4) as u8;
        let r: [u8; 8] = [CONFIG, 0x02, 0x01, brightness, 0x00, 0x00, 0x01, rot_idx];
        proof {
            assert(r@ =~= seq![CONFIG, 0x02, 0x01, brightness, 0x00, 0x00, 0x01, rot_idx]);
        }
        r
    }

    /// Brightness and rotation in degrees out of a configuration reply.
    pub fn read_lcd_state(pkt: &[u8]) -> (r: Option<(u8, u32)>)
        ensures
            r == if pkt@.len() >= 27 && pkt@[0] == CONFIG_REPLY && pkt@[1] == 0x01 {
                Some(
                    (
                        pkt@[0x18],
                        (if pkt@[0x1A] < 3 {
                            pkt@[0x1A] as int
                        } else {
                            3
                        } * 90) as u32,
                    ),
                )
            } else {
                None
            },
    {
        if pkt.len() >= 27 && pkt[0] == CONFIG_REPLY && pkt[1] == 0x01 {
            let rot_idx: u32 = if pkt[0x1A] < 3 {
                pkt[0x1A] as u32
            } else {
                3
            };
            Some((pkt[0x18], rot_idx * 90))
        } else {
            None
        }
    }

    /// The packet that brings back the built-in display.
    pub fn switch_to_default_display() -> (r: [u8; 4])
        ensures
            r@ == seq![BUCKET_SWITCH, 0x01, 0x02, 0x00],
    {
        let r: [u8; 4] = [BUCKET_SWITCH, 0x01, 0x02, 0x00];
        proof {
            assert(r@ =~= seq![BUCKET_SWITCH, 0x01, 0x02, 0x00]);
        }
        r
    }

    /// Encodes a raw RGBA frame as a Q565 stream.
    pub fn rgba_to_q565_payload(rgba: &[u8], width: u32, height: u32) -> (r: Result<
        Vec<u8>,
        LcdError,
    >)
        ensures
            match q565_payload(rgba@, width, height) {
                Ok(p) => r is Ok && r->Ok_0@ == p,
                Err(e) => r == Err::<Vec<u8>, LcdError>(e),
            },
            r is Ok ==> {
                &&& r->Ok_0@.len() >= 9
                &&& r->Ok_0@.subrange(0, 8) == seq![
                    0x71u8,
                    0x35,
                    0x36,
                    0x35,
                    (width % 256) as u8,
                    (width / 256) as u8,
                    (height % 256) as u8,
                    (height / 256) as u8,
                ]
                &&& r->Ok_0@.last() == 0xFF
            },
    {
        proof {
            assert(0 <= width * height <= 0xFFFF_FFFF * 0xFFFF_FFFF) by (nonlinear_arith);
            assert((width as u128) * (height as u128) == width * height) by (nonlinear_arith);
        }
        let expected: u128 = (width as u128) * (height as u128) * 4;
        if rgba.len() as u128 != expected {
            return Err(LcdError::SizeMismatch);
        }
        if width > 0xFFFF || height > 0xFFFF {
            return Err(LcdError::DimensionLimit);
        }
        let mut pixels: Vec<u16> = Vec::new();
        let len: usize = rgba.len();
        let count: usize = len / 4;
        let mut i: usize = 0;
        while i < count
            invariant
                i <= count,
                len == rgba@.len(),
                count == len / 4,
                pixels@ == pixels565(rgba@).take(i as int),
            decreases count - i,
        {
            let p: [u8; 3] = [rgba[4 * i], rgba[4 * i + 1], rgba[4 * i + 2]];
            pixels.push(
                q565::utils::encode_rgb565_unchecked(q565::utils::rgb888_to_rgb565(p)),
            );
            i = i + 1;
            proof {
                assert(pixels@ =~= pixels565(rgba@).take(i as int));
            }
        }
        proof {
            assert(pixels@ =~= pixels565(rgba@));
        }
        let mut out: Vec<u8> = Vec::new();
        if !q565_encode(width as u16, height as u16, &pixels, &mut out) {
            return Err(LcdError::EncodeFailed);
        }
        proof {
            let s = q565_stream(width as u16, height as u16, pixels565(rgba@));
            assert(Seq::<u8>::empty() + s =~= s);
        }
        Ok(out)
    }

    /// The header of a bulk frame. Asset mode 8 is Q565, 9 is raw BGR.
    pub fn stream_bulk_header(payload_len: u32, asset_mode: u8) -> (r: [u8; 20])
        ensures
            r@ == bulk_header(payload_len, asset_mode),
    {
        let mut h: [u8; 20] = [0u8; 20];
        let mut i: usize = 0;
        while i < 12
            invariant
                i <= 12,
                h@.len() == 20,
                forall|k: int| 0 <= k < i ==> h@[k] == BULK_MAGIC@[k],
                forall|k: int| i <= k < 20 ==> h@[k] == 0,
            decreases 12 - i,
        {
            h[i] = BULK_MAGIC[i];
            i = i + 1;
        }
        h[12] = asset_mode;
        h[16] = (payload_len % 256) as u8;
        h[17] = (payload_len / 256 % 256) as u8;
        h[18] = (payload_len / 65536 % 256) as u8;
        h[19] = (payload_len / 16777216) as u8;
        proof {
            assert(h@ =~= bulk_header(payload_len, asset_mode));
        }
        h
    }

    /// A square RGBA frame turned clockwise. Other turns than multiples of ninety degrees
    /// and frames that are not square are returned as they are.
    pub fn rotate_rgba_square(rgba: &[u8], size: u32, degrees: u32) -> (r: Vec<u8>)
        ensures
            r@ == turned(rgba@, size, degrees),
    {
        if Self::turns_nothing(rgba, size, degrees) {
            return slice_to_vec(rgba);
        }
        Self::rotate_rgba_square_impl(rgba, size, degrees % 360)
    }

    /// Like `rotate_rgba_square`, for a buffer that may be handed back unchanged.
    pub fn rotate_rgba_square_owned(rgba: Vec<u8>, size: u32, degrees: u32) -> (r: Vec<u8>)
        ensures
            r@ == turned(rgba@, size, degrees),
    {
        if Self::turns_nothing(&rgba, size, degrees) {
            return rgba;
        }
        Self::rotate_rgba_square_impl(&rgba, size, degrees % 360)
    }

    /// Whether a rotation leaves the buffer as it is.
    fn turns_nothing(rgba: &[u8], size: u32, degrees: u32) -> (r: bool)
        ensures
            r == (degrees % 360 == 0 || rgba@.len() != size * size * 4),
    {
        proof {
            assert(0 <= size * size <= 0xFFFF_FFFF * 0xFFFF_FFFF) by (nonlinear_arith);
            assert((size as u128) * (size as u128) == size * size) by (nonlinear_arith);
        }
        degrees % 360 == 0 || rgba.len() as u128 != (size as u128) * (size as u128) * 4
    }

    /// Turns a square frame by `step` degrees.
    fn rotate_rgba_square_impl(rgba: &[u8], size: u32, step: u32) -> (r: Vec<u8>)
        requires
            rgba@.len() == size * size * 4,
        ensures
            r@ == Seq::new(rgba@.len(), |i: int| rgba@[turned_index(size as int, step, i)]),
    {
        let n: usize = size as usize;
        let len: usize = rgba.len();
        let mut out: Vec<u8> = Vec::new();
        let mut cy: usize = 0;
        while cy < n
            invariant
                cy <= n,
                n == size,
                len == rgba@.len(),
                rgba@.len() == 4 * (n * n),
                out@.len() == 4 * (cy * n),
                forall|i: int|
                    0 <= i < out@.len() ==> out@[i] == rgba@[turned_index(size as int, step, i)],
            decreases n - cy,
        {
            let mut cx: usize = 0;
            while cx < n
                invariant
                    cx <= n,
                    cy < n,
                    n == size,
                    len == rgba@.len(),
                    rgba@.len() == 4 * (n * n),
                    out@.len() == 4 * (cy * n + cx),
                    forall|i: int|
                        0 <= i < out@.len() ==> out@[i] == rgba@[turned_index(
                            size as int,
                            step,
                            i,
                        )],
                decreases n - cx,
            {
                let (x, y): (usize, usize) = if step == 90 {
                    (cy, n - 1 - cx)
                } else if step == 180 {
                    (n - 1 - cx, n - 1 - cy)
                } else if step == 270 {
                    (n - 1 - cy, cx)
                } else {
                    (cx, cy)
                };
                proof {
                    lemma_pixel_in_frame(n as int, x as int, y as int);
                    lemma_pixel_in_frame(n as int, cx as int, cy as int);
                }
                let s: usize = 4 * (y * n + x);
                out.push(rgba[s]);
                out.push(rgba[s + 1]);
                out.push(rgba[s + 2]);
                out.push(rgba[s + 3]);
                proof {
                    let base = 4 * (cy * n + cx);
                    lemma_turned_pixel(n as int, step, cx as int, cy as int);
                    assert forall|i: int| 0 <= i < out@.len() implies out@[i] == rgba@[turned_index(
                        size as int,
                        step,
                        i,
                    )] by {
                        if i >= base {
                            let k = i - base;
                            assert(turned_index(size as int, step, base + k) == s + k);
                        }
                    }
                }
                cx = cx + 1;
            }
            proof {
                assert((cy + 1) * n == cy * n + n) by (nonlinear_arith);
            }
            cy = cy + 1;
        }
        proof {
            assert(out@ =~= Seq::new(
                rgba@.len(),
                |i: int| rgba@[turned_index(size as int, step, i)],
            ));
        }
        out
    }

    /// RGBA to BGR bytes; alpha is dropped, and so are bytes that make no whole pixel.
    pub fn rgba_to_bgr888(rgba: &[u8]) -> (r: Vec<u8>)
        ensures
            r@ == bgr_bytes(rgba@),
    {
        let mut out: Vec<u8> = Vec::new();
        let len: usize = rgba.len();
        let count: usize = len / 4;
        let mut i: usize = 0;
        while i < count
            invariant
                i <= count,
                len == rgba@.len(),
                count == len / 4,
                out@ == bgr_bytes(rgba@).take(3 * i),
            decreases count - i,
        {
            out.push(rgba[4 * i + 2]);
            out.push(rgba[4 * i + 1]);
            out.push(rgba[4 * i]);
            i = i + 1;
            proof {
                assert(out@ =~= bgr_bytes(rgba@).take(3 * i));
            }
        }
        proof {
            assert(out@ =~= bgr_bytes(rgba@));
        }
        out
    }

    /// Whether a report acknowledges transfer sub-command `sub`.
    pub fn is_xfer_ack(pkt: &[u8], sub: u8) -> (r: bool)
        ensures
            r == is_ack(pkt@, sub),
    {
        pkt.len() >= 2 && pkt[0] == XFER_ACK && pkt[1] == sub
    }

    /// Whether a report answers the command `sent`.
    pub fn is_reply(sent: &[u8], pkt: &[u8]) -> (r: bool)
        requires
            sent@.len() >= 2,
        ensures
            r == is_answer(sent@, pkt@),
    {
        let want: u8 = if sent[0] == 255 {
            0
        } else {
            sent[0] + 1
        };
        pkt.len() >= 2 && pkt[0] == want && pkt[1] == sent[1]
    }
}

/// Looks up a bucket report.
fn report_of(buckets: &HashMap<u8, Vec<u8>>, k: u8) -> (r: Option<&Vec<u8>>)
    ensures
        r == if buckets@.contains_key(k) {
            Some(&buckets@[k])
        } else {
            None
        },
{
    broadcast use vstd::std_specs::hash::group_hash_axioms;
    buckets.get(&k)
}

/// Whether a bucket report says that the bucket is free.
fn report_is_free(b: &Vec<u8>) -> (r: bool)
    ensures
        r == is_free(b@),
{
    let mut i: usize = 15;
    while i < b.len()
        invariant
            15 <= i,
            forall|k: int| 15 <= k < i && k < b@.len() ==> b@[k] == 0,
        decreases b@.len() - i,
    {
        if b[i] != 0 {
            return false;
        }
        i = i + 1;
    }
    true
}

/// The little-endian pair at `i`.
fn read_pair(b: &Vec<u8>, i: usize) -> (r: u32)
    requires
        i + 1 < b@.len(),
    ensures
        r == pair_at(b@, i as int),
        r <= 65535,
{
    let last: usize = b.len() - 1;
    assert(i < last);
    b[i] as u32 + 256 * (b[i + 1] as u32)
}

impl NzxtKrakenProtocol {
    /// The lowest bucket that is free.
    pub fn find_next_unoccupied(buckets: &HashMap<u8, Vec<u8>>) -> (r: Option<u8>)
        ensures
            match r {
                Some(k) => buckets@.contains_key(k) && is_free(buckets@[k]@) && !free_below(
                    buckets@,
                    k as int,
                ),
                None => !free_below(buckets@, 256),
            },
    {
        let mut n: u16 = 0;
        while n < 256
            invariant
                n <= 256,
                !free_below(buckets@, n as int),
            decreases 256 - n,
        {
            let k: u8 = n as u8;
            if let Some(b) = report_of(buckets, k) {
                if report_is_free(b) {
                    return Some(k);
                }
            }
            proof {
                assert forall|j: u8|
                    #![trigger buckets@.contains_key(j)]
                    j < n + 1 && buckets@.contains_key(j) implies !is_free(buckets@[j]@) by {
                    if j < n {
                        assert(!free_below(buckets@, n as int));
                    } else {
                        assert(j == k);
                    }
                }
            }
            n = n + 1;
        }
        None
    }

    /// Where `data_units` KiB for a bucket go, as a little-endian pair; `None` where there
    /// is no room and all buckets have to be wiped.
    pub fn bucket_memory_offset(
        buckets: &HashMap<u8, Vec<u8>>,
        bucket_index: u8,
        data_units: u32,
    ) -> (r: Option<[u8; 2]>)
        requires
            buckets@.contains_key(bucket_index) ==> buckets@[bucket_index]@.len() >= 21,
            buckets@.contains_key(bucket_index) && data_units > bucket_size(
                buckets@[bucket_index]@,
            ) ==> reports_complete(buckets@) && data_units + 131070 <= u32::MAX,
        ensures
            match placement(buckets@, bucket_index, data_units) {
                Some(p) => r is Some && r->Some_0@ == place_bytes(p) && 0 <= p <= 65535,
                None => r is None,
            },
    {
        let cur = match report_of(buckets, bucket_index) {
            Some(c) => c,
            None => {
                let zero: [u8; 2] = [0, 0];
                proof {
                    assert(zero@ =~= place_bytes(0));
                }
                return Some(zero);
            },
        };
        proof {
            assert(buckets@.contains_key(bucket_index));
        }
        let cur_offset: u32 = read_pair(cur, 17);
        let cur_size: u32 = read_pair(cur, 19);
        let here: [u8; 2] = [cur[17], cur[18]];
        proof {
            assert(here@ =~= place_bytes(cur_offset as int));
        }
        if data_units <= cur_size {
            return Some(here);
        }
        let mut min_occupied: u32 = cur_offset;
        let mut max_occupied: u32 = 0;
        let mut overlap = false;
        let mut n: u16 = 0;
        while n < 256
            invariant
                n <= 256,
                buckets@.contains_key(bucket_index),
                reports_complete(buckets@),
                data_units + 131070 <= u32::MAX,
                cur_offset == bucket_start(buckets@[bucket_index]@),
                cur_offset <= 65535,
                min_occupied == lowest_start(buckets@, bucket_index, n as nat),
                min_occupied <= 65535,
                max_occupied == highest_end(buckets@, n as nat),
                max_occupied <= 131070,
                overlap == blocked(buckets@, bucket_index, data_units as int, n as int),
            decreases 256 - n,
        {
            let k: u8 = n as u8;
            let ghost before = overlap;
            if let Some(b) = report_of(buckets, k) {
                let start: u32 = read_pair(b, 17);
                let end: u32 = start + read_pair(b, 19);
                if end > max_occupied {
                    max_occupied = end;
                }
                if start < min_occupied {
                    min_occupied = start;
                }
                if (start > cur_offset && start < cur_offset + data_units) || (start < cur_offset
                    && end > cur_offset) || (start == cur_offset && k != bucket_index) {
                    overlap = true;
                }
            }
            proof {
                lemma_blocked_step(buckets@, bucket_index, data_units as int, n as int);
            }
            n = n + 1;
        }
        if !overlap {
            return Some(here);
        }
        if max_occupied + data_units < LCD_TOTAL_MEMORY_KB {
            let r: [u8; 2] = [(max_occupied % 256) as u8, (max_occupied / 256) as u8];
            proof {
                assert(r@ =~= place_bytes(max_occupied as int));
            }
            return Some(r);
        }
        if data_units < min_occupied {
            let zero: [u8; 2] = [0, 0];
            proof {
                assert(zero@ =~= place_bytes(0));
            }
            return Some(zero);
        }
        None
    }

    /// The header of a GIF upload: asset mode 1 and the length of the file.
    pub fn gif_bulk_info(len: usize) -> (r: Result<[u8; 20], LcdError>)
        ensures
            len > u32::MAX ==> r == Err::<[u8; 20], LcdError>(LcdError::PayloadTooLong),
            len <= u32::MAX ==> r is Ok && r->Ok_0@ == bulk_header(len as u32, 0x01),
    {
        if len as u64 > 0xFFFF_FFFF {
            return Err(LcdError::PayloadTooLong);
        }
        Ok(Self::stream_bulk_header(len as u32, 0x01))
    }

    /// The steps that show one Q565 frame.
    pub fn stream_frame(payload_len: usize) -> (r: Result<Vec<LcdOp>, LcdError>)
        ensures
            payload_len > u32::MAX ==> r == Err::<Vec<LcdOp>, LcdError>(LcdError::PayloadTooLong),
            payload_len <= u32::MAX ==> r is Ok && plan_view(r->Ok_0@) == frame_plan(
                payload_len as u32,
            ),
    {
        if payload_len as u64 > 0xFFFF_FFFF {
            return Err(LcdError::PayloadTooLong);
        }
        let header = Self::stream_bulk_header(payload_len as u32, 0x08);
        let start: Vec<u8> = vec![XFER, 0x01, 0x00, 0x01, 0x08];
        let end: Vec<u8> = vec![XFER, 0x02];
        proof {
            assert(start@ =~= seq![XFER, 0x01, 0x00, 0x01, 0x08]);
            assert(end@ =~= seq![XFER, 0x02]);
        }
        let ops: Vec<LcdOp> = vec![
            LcdOp::Drain,
            LcdOp::Write(start),
            LcdOp::AwaitAck(0x01),
            LcdOp::Bulk { header, chunk: LCD_BULK_CHUNK },
            LcdOp::Write(end),
            LcdOp::AwaitAck(0x02),
        ];
        proof {
            assert(plan_view(ops@) =~= frame_plan(payload_len as u32));
        }
        Ok(ops)
    }

    /// The steps that show one raw frame; the panel has to be in streaming mode.
    pub fn stream_frame_raw(payload_len: usize) -> (r: Result<Vec<LcdOp>, LcdError>)
        ensures
            payload_len > u32::MAX ==> r == Err::<Vec<LcdOp>, LcdError>(LcdError::PayloadTooLong),
            payload_len <= u32::MAX ==> r is Ok && plan_view(r->Ok_0@) == raw_frame_plan(
                payload_len as u32,
            ),
    {
        if payload_len as u64 > 0xFFFF_FFFF {
            return Err(LcdError::PayloadTooLong);
        }
        let header = Self::stream_bulk_header(payload_len as u32, 0x09);
        let start: Vec<u8> = vec![XFER, 0x01, 0x00, 0x01, 0x09];
        let end: Vec<u8> = vec![XFER, 0x02];
        proof {
            assert(start@ =~= seq![XFER, 0x01, 0x00, 0x01, 0x09]);
            assert(end@ =~= seq![XFER, 0x02]);
        }
        let lut1 = slice_to_vec(&stream_lut1());
        let lut2 = slice_to_vec(&stream_lut2());
        let ops: Vec<LcdOp> = vec![
            LcdOp::Drain,
            LcdOp::WriteThenRead(lut1),
            LcdOp::WriteThenRead(lut2),
            LcdOp::Write(start),
            LcdOp::AwaitAck(0x01),
            LcdOp::Bulk { header, chunk: STREAM_URB },
            LcdOp::Write(end),
            LcdOp::AwaitAck(0x02),
        ];
        proof {
            assert(plan_view(ops@) =~= raw_frame_plan(payload_len as u32));
        }
        Ok(ops)
    }

    /// The steps that enter streaming mode: a handshake, then every bucket is deleted.
    /// No bucket is shown afterwards.
    pub fn enter_streaming_mode(brightness: u8) -> (r: Vec<LcdOp>)
        ensures
            plan_view(r@) == streaming_plan(brightness),
    {
        let pct: u8 = if brightness < 100 {
            brightness
        } else {
            100
        };
        let a: Vec<u8> = vec![0x10u8, 0x02];
        let b: Vec<u8> = vec![0x70u8, 0x02, 0x01, 0xB8, 0x0B];
        let c: Vec<u8> = vec![0x74u8, 0x01];
        let d: Vec<u8> = vec![XFER, 0x04];
        let e: Vec<u8> = vec![CONFIG, 0x01];
        let f: Vec<u8> = vec![XFER, 0x03];
        let g: Vec<u8> = vec![CONFIG, 0x02, 0x00, 0x00, 0x00, 0x00, 0x1E];
        let h: Vec<u8> = vec![BUCKET_SWITCH, 0x01, 0x02];
        proof {
            assert(a@ =~= seq![0x10u8, 0x02]);
            assert(b@ =~= seq![0x70u8, 0x02, 0x01, 0xB8, 0x0B]);
            assert(c@ =~= seq![0x74u8, 0x01]);
            assert(d@ =~= seq![XFER, 0x04]);
            assert(e@ =~= seq![CONFIG, 0x01]);
            assert(f@ =~= seq![XFER, 0x03]);
            assert(g@ =~= seq![CONFIG, 0x02, 0x00, 0x00, 0x00, 0x00, 0x1E]);
            assert(h@ =~= seq![BUCKET_SWITCH, 0x01, 0x02]);
        }
        let mut ops: Vec<LcdOp> = vec![
            LcdOp::Drain,
            LcdOp::WriteThenRead(a),
            LcdOp::WriteThenRead(b),
            LcdOp::WriteThenRead(c),
            LcdOp::WriteThenRead(d),
            LcdOp::WriteThenRead(e),
            LcdOp::WriteThenRead(f),
            LcdOp::WriteThenRead(g),
            LcdOp::WriteThenRead(h),
        ];
        let ghost deletes = |n: nat|
            Seq::new(n, |i: int| LcdOpModel::WriteThenRead(seq![BUCKET_MEM, 0x02, i as u8]));
        proof {
            assert(plan_view(ops@) =~= handshake_plan() + deletes(0));
        }
        let mut bi: u8 = 0;
        while bi < 16
            invariant
                bi <= 16,
                deletes == |n: nat|
                    Seq::new(n, |i: int| LcdOpModel::WriteThenRead(seq![BUCKET_MEM, 0x02, i as u8])),
                plan_view(ops@) == handshake_plan() + deletes(bi as nat),
            decreases 16 - bi,
        {
            let p: Vec<u8> = vec![BUCKET_MEM, 0x02, bi];
            proof {
                assert(p@ =~= seq![BUCKET_MEM, 0x02, bi]);
            }
            let ghost before = plan_view(ops@);
            ops.push(LcdOp::WriteThenRead(p));
            bi = bi + 1;
            proof {
                assert(plan_view(ops@) =~= before.push(
                    LcdOpModel::WriteThenRead(seq![BUCKET_MEM, 0x02, (bi - 1) as u8]),
                ));
                assert(plan_view(ops@) =~= handshake_plan() + deletes(bi as nat));
            }
        }
        let bright: Vec<u8> = vec![CONFIG, 0x02, 0x01, pct, 0x00, 0x00, 0x00, 0x1E];
        proof {
            assert(bright@ =~= seq![CONFIG, 0x02, 0x01, pct, 0x00, 0x00, 0x00, 0x1E]);
        }
        ops.push(LcdOp::WriteThenRead(bright));
        ops.push(LcdOp::Drain);
        proof {
            assert(plan_view(ops@) =~= streaming_plan(brightness));
        }
        ops
    }
}

/// One more bucket report decides for itself whether something is in the way.
proof fn lemma_blocked_step(buckets: Map<u8, Vec<u8>>, index: u8, units: int, n: int)
    requires
        0 <= n < 256,
    ensures
        blocked(buckets, index, units, n + 1) == (blocked(buckets, index, units, n) || (
        buckets.contains_key(n as u8) && in_the_way(buckets, index, units, n as u8))),
{
    if blocked(buckets, index, units, n) {
        let k = choose|k: u8|
            #![trigger buckets.contains_key(k)]
            k < n && buckets.contains_key(k) && in_the_way(buckets, index, units, k);
        assert(buckets.contains_key(k) && k < n + 1);
    }
    if blocked(buckets, index, units, n + 1) && !blocked(buckets, index, units, n) {
        let k = choose|k: u8|
            #![trigger buckets.contains_key(k)]
            k < n + 1 && buckets.contains_key(k) && in_the_way(buckets, index, units, k);
        assert(k == n as u8);
    }
}

/// A pixel inside a square frame has its four bytes inside the buffer.
proof fn lemma_pixel_in_frame(n: int, x: int, y: int)
    requires
        0 <= x < n,
        0 <= y < n,
    ensures
        0 <= y * n + x < n * n,
        0 <= y * n,
{
    assert(0 <= y * n) by (nonlinear_arith)
        requires
            0 <= y,
            0 <= n,
    ;
    assert(y * n + n <= n * n) by (nonlinear_arith)
        requires
            y + 1 <= n,
            0 <= n,
    ;
}

/// Pixel number and coordinates of a square frame belong together.
proof fn lemma_coordinates(n: int, x: int, y: int)
    requires
        0 <= x < n,
        0 <= y,
    ensures
        (y * n + x) % n == x,
        (y * n + x) / n == y,
{
    vstd::arithmetic::div_mod::lemma_fundamental_div_mod_converse(y * n + x, n, y, x);
}

/// Where the four bytes of a pixel of a turned frame come from.
proof fn lemma_turned_pixel(n: int, step: u32, cx: int, cy: int)
    requires
        0 <= cx < n,
        0 <= cy < n,
    ensures
        ({
            let (x, y) = turned_from(n, step, cx, cy);
            forall|k: int|
                0 <= k < 4 ==> #[trigger] turned_index(n, step, 4 * (cy * n + cx) + k) == 4 * (y * n
                    + x) + k
        }),
{
    lemma_coordinates(n, cx, cy);
    let p = cy * n + cx;
    let (x, y) = turned_from(n, step, cx, cy);
    assert forall|k: int| 0 <= k < 4 implies #[trigger] turned_index(n, step, 4 * p + k) == 4 * (y * n
        + x) + k by {
        assert((4 * p + k) / 4 == p);
        assert((4 * p + k) % 4 == k);
    }
}

/// Where an image upload stands. The stages are walked through in this order, except
/// that the wipe is skipped where there is room.
#[derive(Debug, Clone, Copy, PartialEq, Eq, Structural)]
pub enum UploadStage {
    /// Select the transfer mode.
    Enter,
    /// Ask for the report of bucket `next`.
    Query { next: u8 },
    /// Delete buckets upwards until one is free. `filled` says that the bucket held an
    /// image, so that it is deleted twice.
    Prepare { index: u8, filled: bool },
    /// Go back to the built-in display before everything is deleted.
    WipeSwitch,
    /// Delete bucket `next`.
    WipeDelete { next: u8 },
    /// Reserve the memory.
    Setup { index: u8, place: u32 },
    /// Announce the transfer.
    Start { index: u8 },
    /// Wait for the start to be acknowledged.
    AwaitStart { index: u8 },
    /// Send header and data.
    Bulk { index: u8 },
    /// Announce the end.
    End { index: u8 },
    /// Wait for the end to be acknowledged.
    AwaitEnd { index: u8 },
    /// Show the bucket.
    Show { index: u8 },
    /// The image is shown.
    Finished { index: u8 },
    /// The upload was given up.
    Failed { error: LcdError },
}

/// What happened to an action.
#[derive(Debug)]
pub enum UploadEvent {
    /// The write went out.
    Written,
    /// The answer that came, if one did.
    Reply(Option<Vec<u8>>),
    /// The action failed.
    Failed(LcdError),
}

/// What has to be done next.
#[derive(Debug)]
pub enum UploadAction {
    /// Write a packet and read one report, whatever it is.
    WriteThenRead(Vec<u8>),
    /// Write a packet and read its answer.
    Command(Vec<u8>),
    /// Write a packet.
    Write(Vec<u8>),
    /// Read until a transfer acknowledgement for the sub-command comes.
    AwaitAck(u8),
    /// Bulk-write header and data.
    Bulk,
    /// Nothing: bucket `index` is shown.
    Done { index: u8 },
    /// Nothing: the upload was given up.
    GiveUp(LcdError),
}

/// Whether the answer to a deletion says that it succeeded.
pub open spec fn deletion_succeeded(reply: Option<Vec<u8>>) -> bool {
    reply is Some && reply->Some_0@.len() > 14 && reply->Some_0@[14] == 0x01
}

/// Where the upload goes on once all reports are in: at the lowest free bucket, or at
/// bucket zero, which is then known to be filled.
pub open spec fn is_first_candidate(buckets: Map<u8, Vec<u8>>, index: u8, filled: bool) -> bool {
    if filled {
        index == 0 && !free_below(buckets, 256)
    } else {
        buckets.contains_key(index) && is_free(buckets[index]@) && !free_below(
            buckets,
            index as int,
        )
    }
}

/// Where the upload goes on once a bucket is free.
pub open spec fn after_prepare(buckets: Map<u8, Vec<u8>>, index: u8, units: u32) -> UploadStage {
    match placement(buckets, index, units) {
        Some(p) => UploadStage::Setup { index, place: p as u32 },
        None => UploadStage::WipeSwitch,
    }
}

/// The reports that are known after an event.
pub open spec fn reports_after(
    stage: UploadStage,
    buckets: Map<u8, Vec<u8>>,
    event: UploadEvent,
) -> Map<u8, Vec<u8>> {
    match (stage, event) {
        (UploadStage::Query { next }, UploadEvent::Reply(Some(m))) => buckets.insert(next, m),
        _ => buckets,
    }
}

/// The stage after an event; events that do not belong to a stage leave it as it is. The
/// end of the query is not covered here: see `is_first_candidate`.
pub open spec fn stage_after(
    stage: UploadStage,
    buckets: Map<u8, Vec<u8>>,
    units: u32,
    event: UploadEvent,
) -> UploadStage {
    match (stage, event) {
        (UploadStage::Finished { .. }, _) => stage,
        (UploadStage::Failed { .. }, _) => stage,
        (_, UploadEvent::Failed(error)) => UploadStage::Failed { error },
        (UploadStage::Enter, UploadEvent::Written) => UploadStage::Query { next: 0 },
        (UploadStage::Query { next }, UploadEvent::Reply(_)) => UploadStage::Query {
            next: (next + 1) as u8,
        },
        (UploadStage::Prepare { index, filled }, UploadEvent::Reply(m)) => if !deletion_succeeded(
            m,
        ) {
            if index + 1 >= BUCKET_COUNT {
                UploadStage::Failed { error: LcdError::NoBucketLeft }
            } else {
                UploadStage::Prepare { index: (index + 1) as u8, filled: true }
            }
        } else if filled {
            UploadStage::Prepare { index, filled: false }
        } else {
            after_prepare(buckets, index, units)
        },
        (UploadStage::WipeSwitch, UploadEvent::Reply(_)) => UploadStage::WipeDelete { next: 0 },
        (UploadStage::WipeDelete { next }, UploadEvent::Reply(_)) => if next + 1 < BUCKET_COUNT {
            UploadStage::WipeDelete { next: (next + 1) as u8 }
        } else {
            UploadStage::Setup { index: 0, place: 0 }
        },
        (UploadStage::Setup { index, .. }, UploadEvent::Reply(m)) => if m is Some {
            UploadStage::Start { index }
        } else {
            UploadStage::Failed { error: LcdError::SetupRejected }
        },
        (UploadStage::Start { index }, UploadEvent::Written) => UploadStage::AwaitStart { index },
        (UploadStage::AwaitStart { index }, UploadEvent::Reply(m)) => if m is Some && is_ack(
            m->Some_0@,
            1,
        ) {
            UploadStage::Bulk { index }
        } else {
            UploadStage::Failed { error: LcdError::NoAck { sub: 1 } }
        },
        (UploadStage::Bulk { index }, UploadEvent::Written) => UploadStage::End { index },
        (UploadStage::End { index }, UploadEvent::Written) => UploadStage::AwaitEnd { index },
        (UploadStage::AwaitEnd { index }, UploadEvent::Reply(m)) => if m is Some && is_ack(
            m->Some_0@,
            2,
        ) {
            UploadStage::Show { index }
        } else {
            UploadStage::Failed { error: LcdError::NoAck { sub: 2 } }
        },
        (UploadStage::Show { index }, UploadEvent::Reply(_)) => UploadStage::Finished { index },
        _ => stage,
    }
}

/// Whether `a` is what a stage asks for.
pub open spec fn is_action(stage: UploadStage, units: u32, a: UploadAction) -> bool {
    match stage {
        UploadStage::Enter => a matches UploadAction::WriteThenRead(p) && p@ == seq![XFER, 0x03],
        UploadStage::Query { next } => a matches UploadAction::Command(p) && p@ == seq![
            CONFIG,
            0x04,
            next,
        ],
        UploadStage::Prepare { index, .. } => a matches UploadAction::Command(p) && p@ == seq![
            BUCKET_MEM,
            0x02,
            index,
        ],
        UploadStage::WipeSwitch => a matches UploadAction::Command(p) && p@ == seq![
            BUCKET_SWITCH,
            0x01,
            0x02,
            0x00,
        ],
        UploadStage::WipeDelete { next } => a matches UploadAction::Command(p) && p@ == seq![
            BUCKET_MEM,
            0x02,
            next,
        ],
        UploadStage::Setup { index, place } => a matches UploadAction::Command(p) && p@ == seq![
            BUCKET_MEM,
            0x01,
            index,
            (index + 1) as u8,
            (place % 256) as u8,
            (place / 256) as u8,
            (units % 256) as u8,
            (units / 256) as u8,
            0x01,
        ],
        UploadStage::Start { index } => a matches UploadAction::Write(p) && p@ == seq![
            XFER,
            0x01,
            index,
        ],
        UploadStage::AwaitStart { .. } => a == UploadAction::AwaitAck(1),
        UploadStage::Bulk { .. } => a is Bulk,
        UploadStage::End { .. } => a matches UploadAction::Write(p) && p@ == seq![XFER, 0x02],
        UploadStage::AwaitEnd { .. } => a == UploadAction::AwaitAck(2),
        UploadStage::Show { index } => a matches UploadAction::Command(p) && p@ == seq![
            BUCKET_SWITCH,
            0x01,
            0x04,
            index,
        ],
        UploadStage::Finished { index } => a == UploadAction::Done { index },
        UploadStage::Failed { error } => a == UploadAction::GiveUp(error),
    }
}

/// An image upload into a memory bucket: ask for all buckets, free one, place the image,
/// transfer it, show it.
#[derive(Debug)]
pub struct BucketUpload {
    pub units: u32,
    pub buckets: HashMap<u8, Vec<u8>>,
    pub stage: UploadStage,
}

/// The memory that a payload takes with its header, in KiB.
pub open spec fn units_of(data_len: usize) -> u64 {
    ((data_len + 20 + 1023) / 1024) as u64
}

impl BucketUpload {
    /// What holds at every stage.
    pub open spec fn wf(self) -> bool {
        &&& self.units < LCD_TOTAL_MEMORY_KB
        &&& reports_complete(self.buckets@)
        &&& forall|k: u8| #[trigger] self.buckets@.contains_key(k) ==> k < BUCKET_COUNT
        &&& match self.stage {
            UploadStage::Query { next } => next < BUCKET_COUNT,
            UploadStage::Prepare { index, .. } => index < BUCKET_COUNT,
            UploadStage::WipeDelete { next } => next < BUCKET_COUNT,
            UploadStage::Setup { index, place } => index < BUCKET_COUNT && place <= 65535,
            UploadStage::Start { index } => index < BUCKET_COUNT,
            UploadStage::AwaitStart { index } => index < BUCKET_COUNT,
            UploadStage::Bulk { index } => index < BUCKET_COUNT,
            UploadStage::End { index } => index < BUCKET_COUNT,
            UploadStage::AwaitEnd { index } => index < BUCKET_COUNT,
            UploadStage::Show { index } => index < BUCKET_COUNT,
            UploadStage::Finished { index } => index < BUCKET_COUNT,
            _ => true,
        }
    }

    /// Starts the upload of a payload. Payloads that exceed the panel's memory are refused.
    pub fn start(data_len: usize) -> (r: Result<Self, LcdError>)
        requires
            data_len + 1043 <= usize::MAX,
        ensures
            units_of(data_len) >= LCD_TOTAL_MEMORY_KB ==> r == Err::<Self, LcdError>(
                LcdError::ImageTooLarge { units: units_of(data_len) },
            ),
            units_of(data_len) < LCD_TOTAL_MEMORY_KB ==> {
                &&& r is Ok
                &&& r->Ok_0.units == units_of(data_len)
                &&& r->Ok_0.buckets@ == Map::<u8, Vec<u8>>::empty()
                &&& r->Ok_0.stage == UploadStage::Enter
                &&& r->Ok_0.wf()
            },
    {
        let units: u64 = ((data_len + 20 + 1023) / 1024) as u64;
        if units >= LCD_TOTAL_MEMORY_KB as u64 {
            return Err(LcdError::ImageTooLarge { units });
        }
        Ok(
            BucketUpload {
                units: units as u32,
                buckets: HashMap::new(),
                stage: UploadStage::Enter,
            },
        )
    }

    /// What has to be done next.
    pub fn action(&self) -> (r: UploadAction)
        requires
            self.wf(),
        ensures
            is_action(self.stage, self.units, r),
    {
        match self.stage {
            UploadStage::Enter => UploadAction::WriteThenRead(vec![XFER, 0x03]),
            UploadStage::Query { next } => UploadAction::Command(vec![CONFIG, 0x04, next]),
            UploadStage::Prepare { index, .. } => UploadAction::Command(
                vec![BUCKET_MEM, 0x02, index],
            ),
            UploadStage::WipeSwitch => UploadAction::Command(vec![BUCKET_SWITCH, 0x01, 0x02, 0x00]),
            UploadStage::WipeDelete { next } => UploadAction::Command(
                vec![BUCKET_MEM, 0x02, next],
            ),
            UploadStage::Setup { index, place } => UploadAction::Command(
                vec![
                    BUCKET_MEM,
                    0x01,
                    index,
                    index + 1,
                    (place % 256) as u8,
                    (place / 256) as u8,
                    (self.units % 256) as u8,
                    (self.units / 256) as u8,
                    0x01,
                ],
            ),
            UploadStage::Start { index } => UploadAction::Write(vec![XFER, 0x01, index]),
            UploadStage::AwaitStart { .. } => UploadAction::AwaitAck(1),
            UploadStage::Bulk { .. } => UploadAction::Bulk,
            UploadStage::End { .. } => UploadAction::Write(vec![XFER, 0x02]),
            UploadStage::AwaitEnd { .. } => UploadAction::AwaitAck(2),
            UploadStage::Show { index } => UploadAction::Command(
                vec![BUCKET_SWITCH, 0x01, 0x04, index],
            ),
            UploadStage::Finished { index } => UploadAction::Done { index },
            UploadStage::Failed { error } => UploadAction::GiveUp(error),
        }
    }

    /// Whether an event can be taken: bucket reports have to hold their fields.
    pub open spec fn takes(self, event: UploadEvent) -> bool {
        self.stage is Query ==> (event matches UploadEvent::Reply(Some(m)) ==> m@.len() >= 21)
    }

    /// Goes on after an event.
    pub fn advance(&mut self, event: UploadEvent)
        requires
            old(self).wf(),
            old(self).takes(event),
        ensures
            final(self).wf(),
            final(self).units == old(self).units,
            final(self).buckets@ == reports_after(old(self).stage, old(self).buckets@, event),
            if old(self).stage == (UploadStage::Query { next: (BUCKET_COUNT - 1) as u8 }) && event
                is Reply {
                final(self).stage matches UploadStage::Prepare { index, filled }
                    && is_first_candidate(final(self).buckets@, index, filled)
            } else {
                final(self).stage == stage_after(
                    old(self).stage,
                    old(self).buckets@,
                    old(self).units,
                    event,
                )
            },
    {
        broadcast use vstd::std_specs::hash::group_hash_axioms;
        let stage = self.stage;
        match event {
            UploadEvent::Failed(error) => {
                match stage {
                    UploadStage::Finished { .. } => {},
                    UploadStage::Failed { .. } => {},
                    _ => {
                        self.stage = UploadStage::Failed { error };
                    },
                }
            },
            UploadEvent::Written => {
                match stage {
                    UploadStage::Enter => {
                        self.stage = UploadStage::Query { next: 0 };
                    },
                    UploadStage::Start { index } => {
                        self.stage = UploadStage::AwaitStart { index };
                    },
                    UploadStage::Bulk { index } => {
                        self.stage = UploadStage::End { index };
                    },
                    UploadStage::End { index } => {
                        self.stage = UploadStage::AwaitEnd { index };
                    },
                    _ => {},
                }
            },
            UploadEvent::Reply(reply) => {
                match stage {
                    UploadStage::Query { next } => {
                        if let Some(m) = reply {
                            self.buckets.insert(next, m);
                        }
                        if next + 1 < BUCKET_COUNT {
                            self.stage = UploadStage::Query { next: next + 1 };
                        } else {
                            self.stage = match NzxtKrakenProtocol::find_next_unoccupied(
                                &self.buckets,
                            ) {
                                Some(index) => UploadStage::Prepare { index, filled: false },
                                None => UploadStage::Prepare { index: 0, filled: true },
                            };
                        }
                    },
                    UploadStage::Prepare { index, filled } => {
                        let deleted = match &reply {
                            Some(m) => m.len() > 14 && m[14] == 0x01,
                            None => false,
                        };
                        self.stage = if !deleted {
                            if index + 1 >= BUCKET_COUNT {
                                UploadStage::Failed { error: LcdError::NoBucketLeft }
                            } else {
                                UploadStage::Prepare { index: index + 1, filled: true }
                            }
                        } else if filled {
                            UploadStage::Prepare { index, filled: false }
                        } else {
                            match NzxtKrakenProtocol::bucket_memory_offset(
                                &self.buckets,
                                index,
                                self.units,
                            ) {
                                Some(mem) => UploadStage::Setup {
                                    index,
                                    place: mem[0] as u32 + 256 * (mem[1] as u32),
                                },
                                None => UploadStage::WipeSwitch,
                            }
                        };
                    },
                    UploadStage::WipeSwitch => {
                        self.stage = UploadStage::WipeDelete { next: 0 };
                    },
                    UploadStage::WipeDelete { next } => {
                        self.stage = if next + 1 < BUCKET_COUNT {
                            UploadStage::WipeDelete { next: next + 1 }
                        } else {
                            UploadStage::Setup { index: 0, place: 0 }
                        };
                    },
                    UploadStage::Setup { index, .. } => {
                        self.stage = if reply.is_some() {
                            UploadStage::Start { index }
                        } else {
                            UploadStage::Failed { error: LcdError::SetupRejected }
                        };
                    },
                    UploadStage::AwaitStart { index } => {
                        let acked = match &reply {
                            Some(m) => NzxtKrakenProtocol::is_xfer_ack(m, 1),
                            None => false,
                        };
                        self.stage = if acked {
                            UploadStage::Bulk { index }
                        } else {
                            UploadStage::Failed { error: LcdError::NoAck { sub: 1 } }
                        };
                    },
                    UploadStage::AwaitEnd { index } => {
                        let acked = match &reply {
                            Some(m) => NzxtKrakenProtocol::is_xfer_ack(m, 2),
                            None => false,
                        };
                        self.stage = if acked {
                            UploadStage::Show { index }
                        } else {
                            UploadStage::Failed { error: LcdError::NoAck { sub: 2 } }
                        };
                    },
                    UploadStage::Show { index } => {
                        self.stage = UploadStage::Finished { index };
                    },
                    _ => {},
                }
            },
        }
    }
}

/// A byte of a square frame belongs to a pixel inside it.
proof fn lemma_byte_in_frame(n: int, i: int)
    requires
        n > 0,
        0 <= i < 4 * (n * n),
    ensures
        0 <= i / 4 % n < n,
        0 <= i / 4 / n < n,
        i == 4 * (i / 4 / n * n + i / 4 % n) + i % 4,
        0 <= i % 4 < 4,
{
    let p = i / 4;
    assert(0 <= p < n * n);
    vstd::arithmetic::div_mod::lemma_fundamental_div_mod(p, n);
    assert(0 <= p / n < n) by (nonlinear_arith)
        requires
            0 <= p < n * n,
            n > 0,
    ;
    assert(n * (p / n) == p / n * n) by (nonlinear_arith);
}

/// One turn sends every byte of a square frame to a byte of the frame.
proof fn lemma_turned_in_frame(n: int, step: u32, i: int)
    requires
        n > 0,
        0 <= i < 4 * (n * n),
    ensures
        0 <= turned_index(n, step, i) < 4 * (n * n),
{
    lemma_byte_in_frame(n, i);
    let (x, y) = turned_from(n, step, i / 4 % n, i / 4 / n);
    lemma_pixel_in_frame(n, x, y);
}

/// Two turns in a row look up the byte that one turn by the sum looks up.
proof fn lemma_turns_add(n: int, i: int)
    requires
        n > 0,
        0 <= i < 4 * (n * n),
    ensures
        turned_index(n, 90, turned_index(n, 90, i)) == turned_index(n, 180, i),
        turned_index(n, 180, turned_index(n, 180, i)) == i,
        turned_index(n, 90, turned_index(n, 270, i)) == i,
{
    lemma_byte_in_frame(n, i);
    let cx = i / 4 % n;
    let cy = i / 4 / n;
    let k = i % 4;
    lemma_turned_pixel(n, 90, cx, cy);
    lemma_turned_pixel(n, 180, cx, cy);
    lemma_turned_pixel(n, 270, cx, cy);
    let (x90, y90) = turned_from(n, 90, cx, cy);
    let (x180, y180) = turned_from(n, 180, cx, cy);
    let (x270, y270) = turned_from(n, 270, cx, cy);
    assert(turned_index(n, 90, 4 * (cy * n + cx) + k) == 4 * (y90 * n + x90) + k);
    assert(turned_index(n, 180, 4 * (cy * n + cx) + k) == 4 * (y180 * n + x180) + k);
    assert(turned_index(n, 270, 4 * (cy * n + cx) + k) == 4 * (y270 * n + x270) + k);
    lemma_turned_pixel(n, 90, x90, y90);
    lemma_turned_pixel(n, 180, x180, y180);
    lemma_turned_pixel(n, 90, x270, y270);
    assert(turned_index(n, 90, 4 * (y90 * n + x90) + k) == 4 * (y180 * n + x180) + k);
    assert(turned_index(n, 180, 4 * (y180 * n + x180) + k) == 4 * (cy * n + cx) + k);
    assert(turned_index(n, 90, 4 * (y270 * n + x270) + k) == 4 * (cy * n + cx) + k);
}

/// The side of a square frame with at least one byte is positive.
proof fn lemma_side(size: u32, len: nat)
    requires
        len == size * size * 4,
    ensures
        len == 4 * (size * size),
        len > 0 ==> size > 0,
{
    assert(size == 0 ==> size * size == 0) by (nonlinear_arith);
}

/// Turning a frame twice by ninety degrees turns it by 180, whatever the frame.
pub proof fn two_quarters_are_a_half(rgba: Seq<u8>, size: u32)
    ensures
        turned(turned(rgba, size, 90), size, 90) == turned(rgba, size, 180),
{
    if rgba.len() == size * size * 4 {
        lemma_side(size, rgba.len());
        let n = size as int;
        let once = turned(rgba, size, 90);
        assert forall|i: int| 0 <= i < rgba.len() implies turned(once, size, 90)[i] == turned(
            rgba,
            size,
            180,
        )[i] by {
            lemma_turned_in_frame(n, 90, i);
            lemma_turns_add(n, i);
        }
        assert(turned(once, size, 90) =~= turned(rgba, size, 180));
    }
}

/// Turning a frame four times by ninety degrees gives the frame back, whatever the frame.
pub proof fn four_quarters_are_nothing(rgba: Seq<u8>, size: u32)
    ensures
        turned(turned(turned(turned(rgba, size, 90), size, 90), size, 90), size, 90) == rgba,
{
    two_quarters_are_a_half(rgba, size);
    let half = turned(rgba, size, 180);
    two_quarters_are_a_half(half, size);
    if rgba.len() == size * size * 4 {
        lemma_side(size, rgba.len());
        let n = size as int;
        assert forall|i: int| 0 <= i < rgba.len() implies turned(half, size, 180)[i] == rgba[i] by {
            lemma_turned_in_frame(n, 180, i);
            lemma_turns_add(n, i);
        }
        assert(turned(half, size, 180) =~= rgba);
    }
}

/// A turn by 270 degrees is undone by one by 90, whatever the frame.
pub proof fn three_quarters_and_one_are_nothing(rgba: Seq<u8>, size: u32)
    ensures
        turned(turned(rgba, size, 90), size, 270) == rgba,
{
    if rgba.len() == size * size * 4 {
        lemma_side(size, rgba.len());
        let n = size as int;
        let once = turned(rgba, size, 90);
        assert forall|i: int| 0 <= i < rgba.len() implies turned(once, size, 270)[i] == rgba[i] by {
            lemma_turned_in_frame(n, 270, i);
            lemma_turns_add(n, i);
        }
        assert(turned(once, size, 270) =~= rgba);
    }
}

/// Every frame plan reads the acknowledgement of each transfer start and end right after
/// it.
pub proof fn frame_plans_read_their_acks(payload_len: u32, brightness: u8)
    ensures
        acks_are_read(frame_plan(payload_len)),
        acks_are_read(raw_frame_plan(payload_len)),
        acks_are_read(streaming_plan(brightness)),
{
    let p = frame_plan(payload_len);
    assert forall|i: int| 0 <= i < p.len() implies #[trigger] ack_follows(p, i) by {
        assert(p[4] == LcdOpModel::Write(seq![XFER, 0x02]));
        assert(p[1] == LcdOpModel::Write(seq![XFER, 0x01, 0x00, 0x01, 0x08]));
    }
    let q = raw_frame_plan(payload_len);
    assert forall|i: int| 0 <= i < q.len() implies #[trigger] ack_follows(q, i) by {
        assert(q[6] == LcdOpModel::Write(seq![XFER, 0x02]));
        assert(q[3] == LcdOpModel::Write(seq![XFER, 0x01, 0x00, 0x01, 0x09]));
    }
}

/// An upload sends its data only after the start was acknowledged, and shows the bucket
/// only after the end was.
pub proof fn uploads_wait_for_their_acks(
    stage: UploadStage,
    buckets: Map<u8, Vec<u8>>,
    units: u32,
    event: UploadEvent,
)
    ensures
        stage_after(stage, buckets, units, event) is Bulk && stage !is Bulk ==> {
            &&& stage is AwaitStart
            &&& event matches UploadEvent::Reply(Some(m)) && is_ack(m@, 1)
        },
        stage_after(stage, buckets, units, event) is Show && stage !is Show ==> {
            &&& stage is AwaitEnd
            &&& event matches UploadEvent::Reply(Some(m)) && is_ack(m@, 2)
        },
        stage is Start && event is Written ==> stage_after(stage, buckets, units, event)
            is AwaitStart,
        stage is End && event is Written ==> stage_after(stage, buckets, units, event) is AwaitEnd,
{
}

/// How many steps an upload can still take at most.
pub open spec fn steps_left(stage: UploadStage) -> int {
    match stage {
        UploadStage::Enter => 81,
        UploadStage::Query { next } => 80 - next,
        UploadStage::Prepare { index, filled } => 30 + 2 * (16 - index) + if filled {
            1int
        } else {
            0int
        },
        UploadStage::WipeSwitch => 29,
        UploadStage::WipeDelete { next } => 28 - next,
        UploadStage::Setup { .. } => 10,
        UploadStage::Start { .. } => 9,
        UploadStage::AwaitStart { .. } => 8,
        UploadStage::Bulk { .. } => 7,
        UploadStage::End { .. } => 6,
        UploadStage::AwaitEnd { .. } => 5,
        UploadStage::Show { .. } => 4,
        UploadStage::Finished { .. } => 0,
        UploadStage::Failed { .. } => 0,
    }
}

/// An upload ends: every event that is not ignored brings it closer to its end, and it
/// takes no more than 81 steps in all.
pub proof fn uploads_end(before: BucketUpload, after: BucketUpload, event: UploadEvent)
    requires
        before.wf(),
        after.wf(),
        if before.stage == (UploadStage::Query { next: (BUCKET_COUNT - 1) as u8 }) && event
            is Reply {
            after.stage is Prepare
        } else {
            after.stage == stage_after(before.stage, before.buckets@, before.units, event)
        },
    ensures
        0 <= steps_left(before.stage) <= 81,
        after.stage == before.stage || steps_left(after.stage) < steps_left(before.stage),
{
}

/// The highest end is no lower than the end of any bucket.
proof fn lemma_highest_end(buckets: Map<u8, Vec<u8>>, n: nat, k: u8)
    requires
        n <= 256,
        k < n,
        buckets.contains_key(k),
    ensures
        bucket_end(buckets[k]@) <= highest_end(buckets, n),
    decreases n,
{
    if k < n - 1 {
        lemma_highest_end(buckets, (n - 1) as nat, k);
    }
}

/// The lowest start is no higher than the start of any bucket.
proof fn lemma_lowest_start(buckets: Map<u8, Vec<u8>>, index: u8, n: nat, k: u8)
    requires
        n <= 256,
        k < n,
        buckets.contains_key(k),
    ensures
        bucket_start(buckets[k]@) >= lowest_start(buckets, index, n),
    decreases n,
{
    if k < n - 1 {
        lemma_lowest_start(buckets, index, (n - 1) as nat, k);
    }
}

/// Whether `[a, b)` and `[c, d)` have nothing in common.
pub open spec fn apart(a: int, b: int, c: int, d: int) -> bool {
    b <= c || d <= a || a >= b || c >= d
}

/// An image that outgrows its bucket is never placed over another image, whatever the
/// reports say. An image that fits keeps to the memory of its own bucket.
pub proof fn placement_spares_other_buckets(
    buckets: Map<u8, Vec<u8>>,
    index: u8,
    units: u32,
    other: u8,
)
    requires
        buckets.contains_key(index),
        buckets.contains_key(other),
        other != index,
    ensures
        placement(buckets, index, units) matches Some(p) ==> {
            if units <= bucket_size(buckets[index]@) {
                p == bucket_start(buckets[index]@) && p + units <= bucket_end(buckets[index]@)
            } else {
                apart(p, p + units, bucket_start(buckets[other]@), bucket_end(buckets[other]@))
            }
        },
{
    lemma_highest_end(buckets, 256, other);
    lemma_lowest_start(buckets, index, 256, other);
    if !blocked(buckets, index, units as int, 256) {
        assert(!in_the_way(buckets, index, units as int, other));
    }
}

/// An image that has to move stays within the panel's memory.
pub proof fn moved_images_fit(buckets: Map<u8, Vec<u8>>, index: u8, units: u32)
    requires
        buckets.contains_key(index),
        units > bucket_size(buckets[index]@),
        blocked(buckets, index, units as int, 256),
        bucket_start(buckets[index]@) <= LCD_TOTAL_MEMORY_KB,
    ensures
        placement(buckets, index, units) matches Some(p) ==> p + units <= LCD_TOTAL_MEMORY_KB,
{
    lemma_lowest_start(buckets, index, 256, index);
}

/// Once an image is transferred, the panel is told to show the very bucket that its memory
/// was reserved for and that its transfer named. No such command is the one that brings
/// back the built-in display.
pub proof fn uploads_show_the_bucket_they_filled(
    setup: BucketUpload,
    start: BucketUpload,
    show: BucketUpload,
    index: u8,
    asked: UploadAction,
    begun: UploadAction,
    shown: UploadAction,
    built_in: [u8; 4],
)
    requires
        setup.wf(),
        setup.stage matches UploadStage::Setup { index: i, .. } && i == index,
        start.stage == (UploadStage::Start { index }),
        show.stage == (UploadStage::Show { index }),
        call_ensures(BucketUpload::action, (&setup,), asked),
        call_ensures(BucketUpload::action, (&start,), begun),
        call_ensures(BucketUpload::action, (&show,), shown),
        call_ensures(NzxtKrakenProtocol::switch_to_default_display, (), built_in),
    ensures
        asked matches UploadAction::Command(p) && p@.len() == 9 && p@[0] == 0x32 && p@[1] == 0x01
            && p@[2] == index && p@[3] == index + 1 && p@[8] == 0x01,
        begun matches UploadAction::Write(p) && p@ == seq![0x36u8, 0x01, index],
        shown matches UploadAction::Command(p) && p@ == seq![0x38u8, 0x01, 0x04, index],
        built_in@ == seq![0x38u8, 0x01, 0x02, 0x00],
        shown matches UploadAction::Command(p) && p@ != built_in@,
{
}

/// A bucket is reserved at the place that was chosen for it and for as many KiB as the
/// upload takes, both little-endian.
pub proof fn uploads_reserve_what_they_need(u: BucketUpload, a: UploadAction)
    requires
        u.wf(),
        call_ensures(BucketUpload::action, (&u,), a),
    ensures
        u.stage matches UploadStage::Setup { place, .. } ==> (a matches UploadAction::Command(p)
            && p@.len() == 9 && p@[4] + 256 * p@[5] == place && p@[6] + 256 * p@[7] == u.units),
{
}

/// Buckets are asked for and deleted by their number; before all of them are deleted, the
/// built-in display comes back. Ends are announced, and acknowledged under their number.
pub proof fn uploads_name_the_bucket_they_handle(u: BucketUpload, a: UploadAction)
    requires
        call_ensures(BucketUpload::action, (&u,), a),
    ensures
        u.stage is Enter ==> (a matches UploadAction::WriteThenRead(p) && p@ == seq![0x36u8, 0x03]),
        u.stage matches UploadStage::Query { next } ==> (a matches UploadAction::Command(p) && p@
            == seq![0x30u8, 0x04, next]),
        u.stage matches UploadStage::Prepare { index, .. } ==> (a matches UploadAction::Command(p)
            && p@ == seq![0x32u8, 0x02, index]),
        u.stage matches UploadStage::WipeDelete { next } ==> (a matches UploadAction::Command(p)
            && p@ == seq![0x32u8, 0x02, next]),
        u.stage is WipeSwitch ==> (a matches UploadAction::Command(p) && p@ == seq![
            0x38u8,
            0x01,
            0x02,
            0x00,
        ]),
        u.stage is AwaitStart ==> a == UploadAction::AwaitAck(0x01),
        u.stage is Bulk <==> a is Bulk,
        u.stage is End ==> (a matches UploadAction::Write(p) && p@ == seq![0x36u8, 0x02]),
        u.stage is AwaitEnd ==> a == UploadAction::AwaitAck(0x02),
        u.stage matches UploadStage::Finished { index } ==> a == (UploadAction::Done { index }),
        u.stage matches UploadStage::Failed { error } ==> a == UploadAction::GiveUp(error),
        a is Done ==> u.stage is Finished,
        a is GiveUp ==> u.stage is Failed,
{
}

/// The bucket that a stage from the reservation on is about.
pub open spec fn bucket_of(stage: UploadStage) -> Option<u8> {
    match stage {
        UploadStage::Setup { index, .. } => Some(index),
        UploadStage::Start { index } => Some(index),
        UploadStage::AwaitStart { index } => Some(index),
        UploadStage::Bulk { index } => Some(index),
        UploadStage::End { index } => Some(index),
        UploadStage::AwaitEnd { index } => Some(index),
        UploadStage::Show { index } => Some(index),
        UploadStage::Finished { index } => Some(index),
        _ => None,
    }
}

/// From the reservation on an upload keeps to its bucket, whatever happens, until it is
/// shown or given up; only a failure or a missing answer gives it up.
pub proof fn uploads_keep_their_bucket(u: &mut BucketUpload, event: UploadEvent)
    requires
        call_ensures(BucketUpload::advance, (u, event), ()),
        bucket_of(old(u).stage) is Some,
    ensures
        final(u).stage is Failed || bucket_of(final(u).stage) == bucket_of(old(u).stage),
        old(u).stage is Finished ==> final(u).stage == old(u).stage,
        final(u).stage is Failed ==> event is Failed || (event matches UploadEvent::Reply(m) && (
        old(u).stage is AwaitStart || old(u).stage is AwaitEnd || m is None)),
{
}

/// Where everything succeeds, an upload goes from the reservation through the transfer to
/// the shown bucket, in seven steps and in this order.
pub proof fn uploads_succeed_in_order(
    index: u8,
    place: u32,
    buckets: Map<u8, Vec<u8>>,
    units: u32,
    answer: Vec<u8>,
    started: Vec<u8>,
    ended: Vec<u8>,
)
    requires
        started@.len() >= 2 && started@[0] == 0x37 && started@[1] == 0x01,
        ended@.len() >= 2 && ended@[0] == 0x37 && ended@[1] == 0x02,
    ensures
        ({
            let go = |s: UploadStage, e: UploadEvent| stage_after(s, buckets, units, e);
            let a = go(UploadStage::Setup { index, place }, UploadEvent::Reply(Some(answer)));
            let b = go(a, UploadEvent::Written);
            let c = go(b, UploadEvent::Reply(Some(started)));
            let d = go(c, UploadEvent::Written);
            let e = go(d, UploadEvent::Written);
            let f = go(e, UploadEvent::Reply(Some(ended)));
            let g = go(f, UploadEvent::Reply(None));
            &&& a == (UploadStage::Start { index })
            &&& b == (UploadStage::AwaitStart { index })
            &&& c == (UploadStage::Bulk { index })
            &&& d == (UploadStage::End { index })
            &&& e == (UploadStage::AwaitEnd { index })
            &&& f == (UploadStage::Show { index })
            &&& g == (UploadStage::Finished { index })
        }),
{
}

/// A deletion counts as done where byte 14 of its answer is one; a bucket that could not be
/// deleted is passed over for the next, and the sixteenth is the last.
pub proof fn deletions_are_confirmed(
    index: u8,
    filled: bool,
    buckets: Map<u8, Vec<u8>>,
    units: u32,
    answer: Option<Vec<u8>>,
)
    requires
        index < 16,
    ensures
        ({
            let before = UploadStage::Prepare { index, filled };
            let after = stage_after(before, buckets, units, UploadEvent::Reply(answer));
            let done = answer is Some && answer->Some_0@.len() >= 15 && answer->Some_0@[14] == 1;
            &&& !done && index < 15 ==> after == (UploadStage::Prepare {
                index: (index + 1) as u8,
                filled: true,
            })
            &&& !done && index == 15 ==> after == (UploadStage::Failed {
                error: LcdError::NoBucketLeft,
            })
            &&& done && filled ==> after == (UploadStage::Prepare { index, filled: false })
            &&& done && !filled ==> after is WipeSwitch || bucket_of(after) == Some(index)
        }),
{
}

/// A wipe deletes all sixteen buckets in turn and then puts the image into the first one, at
/// the start of the memory.
pub proof fn wipes_delete_every_bucket(
    next: u8,
    buckets: Map<u8, Vec<u8>>,
    units: u32,
    answer: Option<Vec<u8>>,
)
    requires
        next < 16,
    ensures
        stage_after(UploadStage::WipeSwitch, buckets, units, UploadEvent::Reply(answer)) == (
        UploadStage::WipeDelete { next: 0 }),
        next < 15 ==> stage_after(
            UploadStage::WipeDelete { next },
            buckets,
            units,
            UploadEvent::Reply(answer),
        ) == (UploadStage::WipeDelete { next: (next + 1) as u8 }),
        stage_after(
            UploadStage::WipeDelete { next: 15 },
            buckets,
            units,
            UploadEvent::Reply(answer),
        ) == (UploadStage::Setup { index: 0, place: 0 }),
{
}

/// All sixteen buckets are asked for before one is chosen, and each report is kept under the
/// number of its bucket.
pub proof fn uploads_ask_for_every_bucket(u: &mut BucketUpload, event: UploadEvent)
    requires
        call_ensures(BucketUpload::advance, (u, event), ()),
    ensures
        old(u).stage is Enter && event is Written ==> final(u).stage == (UploadStage::Query {
            next: 0,
        }),
        old(u).stage matches UploadStage::Query { next } ==> (event matches UploadEvent::Reply(m)
            ==> {
            &&& m matches Some(report) ==> final(u).buckets@ == old(u).buckets@.insert(next, report)
            &&& m is None ==> final(u).buckets@ == old(u).buckets@
            &&& next < 15 ==> final(u).stage == (UploadStage::Query { next: (next + 1) as u8 })
            &&& next == 15 ==> final(u).stage is Prepare
        }),
        old(u).stage !is Query ==> final(u).buckets@ == old(u).buckets@,
{
}

/// The memory of an upload is the least number of KiB that holds the payload and its header
/// of twenty bytes; a payload is refused exactly where this is the panel's memory or more.
pub proof fn uploads_take_the_memory_they_need(data_len: usize, r: Result<BucketUpload, LcdError>)
    requires
        call_ensures(BucketUpload::start, (data_len,), r),
        data_len + 1043 <= usize::MAX,
    ensures
        r is Ok <==> data_len + 20 <= 24319 * 1024,
        r matches Ok(u) ==> {
            &&& data_len + 20 <= 1024 * u.units < data_len + 20 + 1024
            &&& u.stage is Enter
        },
        r matches Err(e) ==> (e matches LcdError::ImageTooLarge { units } && 1024 * (units - 1)
            < data_len + 20 <= 1024 * units),
{
}

/// A bucket report holds the bucket's start and size in KiB as little-endian pairs, and one
/// that reserves memory is not the report of a free bucket.
pub proof fn reports_give_start_and_size(b: Seq<u8>)
    requires
        b.len() >= 21,
    ensures
        bucket_start(b) == b[17] + 256 * b[18],
        bucket_end(b) - bucket_start(b) == b[19] + 256 * b[20],
        bucket_end(b) > 0 ==> !is_free(b),
        b[15] != 0 || b[16] != 0 ==> !is_free(b),
{
    if is_free(b) {
        assert(b[15] == 0 && b[16] == 0 && b[17] == 0 && b[18] == 0 && b[19] == 0 && b[20] == 0);
    }
}

/// An image that fits its bucket goes where the bucket starts, handed out little-endian.
pub proof fn placements_are_little_endian(
    buckets: &HashMap<u8, Vec<u8>>,
    index: u8,
    units: u32,
    r: Option<[u8; 2]>,
)
    requires
        call_ensures(NzxtKrakenProtocol::bucket_memory_offset, (buckets, index, units), r),
        buckets@.contains_key(index),
        units <= buckets@[index]@[19] + 256 * buckets@[index]@[20],
    ensures
        r is Some,
        r->Some_0@ == seq![buckets@[index]@[17], buckets@[index]@[18]],
{
}

/// The red, green and blue channel of a sixteen-bit pixel stand in their own bits, each
/// scaled from its byte to five, six and five bits by itself.
pub proof fn pixels_keep_their_channels(rgba: Seq<u8>, i: int)
    requires
        0 <= i < rgba.len() / 4,
    ensures
        pixels565(rgba).len() == rgba.len() / 4,
        (pixels565(rgba)[i] >> 11u16) == (rgba[4 * i] * 249 + 1014) / 2048,
        ((pixels565(rgba)[i] >> 5u16) & 0x3Fu16) == (rgba[4 * i + 1] * 253 + 505) / 1024,
        (pixels565(rgba)[i] & 0x1Fu16) == (rgba[4 * i + 2] * 249 + 1014) / 2048,
{
    let r5 = ((rgba[4 * i] * 249 + 1014) / 2048) as u8;
    let g6 = ((rgba[4 * i + 1] * 253 + 505) / 1024) as u8;
    let b5 = ((rgba[4 * i + 2] * 249 + 1014) / 2048) as u8;
    assert(r5 < 32 && g6 < 64 && b5 < 32);
    let p = ((r5 as u16) << 11u16) | ((g6 as u16) << 5u16) | (b5 as u16);
    assert(p == pixels565(rgba)[i]);
    assert((p >> 11u16) == r5 && ((p >> 5u16) & 0x3Fu16) == g6 && (p & 0x1Fu16) == b5)
        by (bit_vector)
        requires
            p == ((r5 as u16) << 11u16) | ((g6 as u16) << 5u16) | (b5 as u16),
            r5 < 32,
            g6 < 64,
            b5 < 32,
    ;
}

/// A frame is handed to the encoder pixel by pixel in its own order, every channel in its
/// place; a frame of another size than its dimensions say is refused.
pub proof fn streamed_frames_show_their_pixels(
    rgba: &[u8],
    width: u32,
    height: u32,
    r: Result<Vec<u8>, LcdError>,
)
    requires
        call_ensures(NzxtKrakenProtocol::rgba_to_q565_payload, (rgba, width, height), r),
    ensures
        rgba@.len() != 4 * (width * height) ==> r == Err::<Vec<u8>, LcdError>(
            LcdError::SizeMismatch,
        ),
        rgba@.len() == 4 * (width * height) ==> (r is Ok <==> width <= 0xFFFF && height <= 0xFFFF),
        r matches Ok(stream) ==> exists|pixels: Seq<u16>|
            {
                &&& stream@ == #[trigger] q565_stream(width as u16, height as u16, pixels)
                &&& pixels.len() == width * height
                &&& forall|i: int|
                    #![trigger pixels[i]]
                    0 <= i < pixels.len() ==> {
                        &&& (pixels[i] >> 11u16) == (rgba@[4 * i] * 249 + 1014) / 2048
                        &&& ((pixels[i] >> 5u16) & 0x3Fu16) == (rgba@[4 * i + 1] * 253 + 505) / 1024
                        &&& (pixels[i] & 0x1Fu16) == (rgba@[4 * i + 2] * 249 + 1014) / 2048
                    }
            },
{
    assert(width * height * 4 == 4 * (width * height)) by (nonlinear_arith);
    if r is Ok {
        let pixels = pixels565(rgba@);
        assert forall|i: int| 0 <= i < pixels.len() implies {
            &&& (#[trigger] pixels[i] >> 11u16) == (rgba@[4 * i] * 249 + 1014) / 2048
            &&& ((pixels[i] >> 5u16) & 0x3Fu16) == (rgba@[4 * i + 1] * 253 + 505) / 1024
            &&& (pixels[i] & 0x1Fu16) == (rgba@[4 * i + 2] * 249 + 1014) / 2048
        } by {
            pixels_keep_their_channels(rgba@, i);
        }
        assert(r->Ok_0@ == q565_stream(width as u16, height as u16, pixels));
    }
}

/// A raw frame holds blue, green and red of every whole pixel, in the order of the pixels.
pub proof fn raw_frames_are_blue_green_red(rgba: &[u8], r: Vec<u8>, i: int)
    requires
        call_ensures(NzxtKrakenProtocol::rgba_to_bgr888, (rgba,), r),
        0 <= i < rgba@.len() / 4,
    ensures
        r@.len() == 3 * (rgba@.len() / 4),
        r@[3 * i] == rgba@[4 * i + 2],
        r@[3 * i + 1] == rgba@[4 * i + 1],
        r@[3 * i + 2] == rgba@[4 * i],
{
}

/// A quarter turn is clockwise: what was at column `x` of row `y` is then `y` columns from
/// the right in row `x`. A half turn puts it at the opposite end, three quarters `y` columns
/// from the left in the row `x` from below.
pub proof fn turns_are_clockwise(
    rgba: &[u8],
    size: u32,
    degrees: u32,
    r: Vec<u8>,
    x: int,
    y: int,
    k: int,
)
    requires
        call_ensures(NzxtKrakenProtocol::rotate_rgba_square, (rgba, size, degrees), r),
        rgba@.len() == 4 * (size * size),
        0 <= x < size,
        0 <= y < size,
        0 <= k < 4,
    ensures
        r@.len() == rgba@.len(),
        degrees % 360 == 0 ==> r@ == rgba@,
        degrees % 360 == 90 ==> r@[4 * (x * size + (size - 1 - y)) + k] == rgba@[4 * (y * size + x)
            + k],
        degrees % 360 == 180 ==> r@[4 * ((size - 1 - y) * size + (size - 1 - x)) + k] == rgba@[4
            * (y * size + x) + k],
        degrees % 360 == 270 ==> r@[4 * ((size - 1 - x) * size + y) + k] == rgba@[4 * (y * size + x)
            + k],
{
    let n = size as int;
    assert(size * size * 4 == 4 * (size * size)) by (nonlinear_arith);
    let step = degrees % 360;
    let (cx, cy) = if step == 90 {
        (n - 1 - y, x)
    } else if step == 180 {
        (n - 1 - x, n - 1 - y)
    } else {
        (y, n - 1 - x)
    };
    lemma_turned_pixel(n, step, cx, cy);
    lemma_pixel_in_frame(n, cx, cy);
    lemma_pixel_in_frame(n, x, y);
    if step == 90 || step == 180 || step == 270 {
        assert(turned_index(n, step, 4 * (cy * n + cx) + k) == 4 * (y * n + x) + k);
        assert(r@[4 * (cy * n + cx) + k] == rgba@[turned_index(n, step, 4 * (cy * n + cx) + k)]);
    }
}

/// The header in front of bulk data is the signature, the asset mode and the length of the
/// data, little-endian.
pub proof fn headers_give_mode_and_length(payload_len: u32, asset_mode: u8, r: [u8; 20])
    requires
        call_ensures(NzxtKrakenProtocol::stream_bulk_header, (payload_len, asset_mode), r),
    ensures
        r@.subrange(0, 12) == seq![
            0x12u8,
            0xFA,
            0x01,
            0xE8,
            0xAB,
            0xCD,
            0xEF,
            0x98,
            0x76,
            0x54,
            0x32,
            0x10,
        ],
        r@[12] == asset_mode,
        r@[13] == 0 && r@[14] == 0 && r@[15] == 0,
        r@[16] + 256 * r@[17] + 65536 * r@[18] + 16777216 * r@[19] == payload_len,
{
    let m = BULK_MAGIC;
    assert(r@ == m@ + r@.skip(12));
    assert(r@.subrange(0, 12) =~= m@);
    assert(m@ =~= seq![
        0x12u8,
        0xFA,
        0x01,
        0xE8,
        0xAB,
        0xCD,
        0xEF,
        0x98,
        0x76,
        0x54,
        0x32,
        0x10,
    ]);
}

/// An animation is announced as asset mode one with its length.
pub proof fn animations_are_announced(len: usize, r: Result<[u8; 20], LcdError>)
    requires
        call_ensures(NzxtKrakenProtocol::gif_bulk_info, (len,), r),
    ensures
        r is Ok <==> len <= 0xFFFF_FFFF,
        r matches Ok(h) ==> h@[12] == 0x01 && h@[16] + 256 * h@[17] + 65536 * h@[18] + 16777216
            * h@[19] == len,
{
    if r is Ok {
        assert(r->Ok_0@.len() == 20);
    }
}

/// A streamed frame drains the queue, announces the asset mode that its header then names,
/// sends the header and the data, and announces the end.
pub proof fn frames_announce_their_mode(
    payload_len: usize,
    coded: Result<Vec<LcdOp>, LcdError>,
    raw: Result<Vec<LcdOp>, LcdError>,
)
    requires
        call_ensures(NzxtKrakenProtocol::stream_frame, (payload_len,), coded),
        call_ensures(NzxtKrakenProtocol::stream_frame_raw, (payload_len,), raw),
    ensures
        coded is Ok <==> payload_len <= 0xFFFF_FFFF,
        raw is Ok <==> payload_len <= 0xFFFF_FFFF,
        coded matches Ok(ops) ==> {
            let plan = plan_view(ops@);
            &&& plan.len() == 6
            &&& plan[0] is Drain
            &&& plan[1] == LcdOpModel::Write(seq![0x36u8, 0x01, 0x00, 0x01, 0x08])
            &&& plan[2] == LcdOpModel::AwaitAck(0x01)
            &&& plan[3] matches LcdOpModel::Bulk(h, chunk) && h[12] == 0x08 && h[16] + 256 * h[17]
                + 65536 * h[18] + 16777216 * h[19] == payload_len && chunk == 2 * 1024 * 1024
            &&& plan[4] == LcdOpModel::Write(seq![0x36u8, 0x02])
            &&& plan[5] == LcdOpModel::AwaitAck(0x02)
        },
        raw matches Ok(ops) ==> {
            let plan = plan_view(ops@);
            &&& plan.len() == 8
            &&& plan[0] is Drain
            &&& plan[1] matches LcdOpModel::WriteThenRead(t) && t.len() == 45 && t.take(4)
                == seq![0x72u8, 0x01, 0x01, 0x00] && forall|i: int| 4 <= i < 45 ==> t[i] == 0x3F
            &&& plan[2] matches LcdOpModel::WriteThenRead(t) && t.len() == 45 && t.take(4)
                == seq![0x72u8, 0x02, 0x01, 0x01] && forall|i: int| 4 <= i < 45 ==> t[i] == 0x1F
            &&& plan[3] == LcdOpModel::Write(seq![0x36u8, 0x01, 0x00, 0x01, 0x09])
            &&& plan[4] == LcdOpModel::AwaitAck(0x01)
            &&& plan[5] matches LcdOpModel::Bulk(h, chunk) && h[12] == 0x09 && h[16] + 256 * h[17]
                + 65536 * h[18] + 16777216 * h[19] == payload_len && chunk == 245760
            &&& plan[6] == LcdOpModel::Write(seq![0x36u8, 0x02])
            &&& plan[7] == LcdOpModel::AwaitAck(0x02)
        },
{
    if raw is Ok {
        let plan = raw_frame_plan(payload_len as u32);
        let a = seq![0x72u8, 0x01, 0x01, 0x00];
        let b = seq![0x72u8, 0x02, 0x01, 0x01];
        assert(lut_bytes(a, 0x3F).take(4) =~= a);
        assert(lut_bytes(b, 0x1F).take(4) =~= b);
    }
}

/// Entering streaming mode shows the built-in display, then deletes all sixteen buckets, and
/// sets the brightness, in percent, last.
pub proof fn streaming_mode_clears_every_bucket(brightness: u8, ops: Vec<LcdOp>, k: int)
    requires
        call_ensures(NzxtKrakenProtocol::enter_streaming_mode, (brightness,), ops),
        0 <= k < 16,
    ensures
        ({
            let plan = plan_view(ops@);
            &&& plan.len() == 27
            &&& plan[0] is Drain
            &&& plan[1] == LcdOpModel::WriteThenRead(seq![0x10u8, 0x02])
            &&& plan[2] == LcdOpModel::WriteThenRead(seq![0x70u8, 0x02, 0x01, 0xB8, 0x0B])
            &&& plan[3] == LcdOpModel::WriteThenRead(seq![0x74u8, 0x01])
            &&& plan[4] == LcdOpModel::WriteThenRead(seq![0x36u8, 0x04])
            &&& plan[5] == LcdOpModel::WriteThenRead(seq![0x30u8, 0x01])
            &&& plan[6] == LcdOpModel::WriteThenRead(seq![0x36u8, 0x03])
            &&& plan[7] == LcdOpModel::WriteThenRead(seq![0x30u8, 0x02, 0, 0, 0, 0, 0x1E])
            &&& plan[8] == LcdOpModel::WriteThenRead(seq![0x38u8, 0x01, 0x02])
            &&& plan[9 + k] == LcdOpModel::WriteThenRead(seq![0x32u8, 0x02, k as u8])
            &&& plan[25] matches LcdOpModel::WriteThenRead(p) && p.len() == 8 && p[0] == 0x30
                && p[1] == 0x02 && p[2] == 0x01 && p[7] == 0x1E && p[4] == 0 && p[5] == 0 && p[6]
                == 0 && (brightness <= 100 ==> p[3] == brightness) && (brightness > 100 ==> p[3]
                == 100)
            &&& plan[26] is Drain
        }),
{
}

/// The screen is given its brightness as it stands and its rotation in quarter turns.
pub proof fn screen_settings_on_the_wire(brightness: u8, degrees: u32, r: [u8; 8])
    requires
        call_ensures(NzxtKrakenProtocol::write_screen_config, (brightness, degrees), r),
    ensures
        r@.subrange(0, 3) == seq![0x30u8, 0x02, 0x01],
        r@[3] == brightness,
        r@.subrange(4, 7) == seq![0u8, 0, 0x01],
        r@[7] < 4,
        (degrees / 90 - r@[7]) % 4 == 0,
{
}

/// Brightness and rotation are read from their own bytes, the rotation in quarter turns; a
/// rotation that is set comes back as the same turn.
pub proof fn screen_settings_read_back(
    pkt: &[u8],
    r: Option<(u8, u32)>,
    brightness: u8,
    degrees: u32,
    sent: [u8; 8],
)
    requires
        call_ensures(NzxtKrakenProtocol::read_lcd_state, (pkt,), r),
        call_ensures(NzxtKrakenProtocol::write_screen_config, (brightness, degrees), sent),
    ensures
        r is Some <==> pkt@.len() >= 27 && pkt@[0] == 0x31 && pkt@[1] == 0x01,
        r is Some ==> r->Some_0.0 == pkt@[24],
        r is Some && pkt@[26] <= 3 ==> r->Some_0.1 == 90 * pkt@[26],
        r is Some && pkt@[26] > 3 ==> r->Some_0.1 == 270,
        r is Some && pkt@[24] == sent@[3] && pkt@[26] == sent@[7] ==> r->Some_0.0 == brightness
            && r->Some_0.1 / 90 == degrees / 90 % 4 && r->Some_0.1 % 90 == 0,
{
}

/// A transfer is acknowledged by a report that names its sub-command, and a command is
/// answered under the next higher number with the same second byte.
pub proof fn answers_name_what_they_answer(
    pkt: &[u8],
    sub: u8,
    sent: &[u8],
    acked: bool,
    answered: bool,
)
    requires
        call_ensures(NzxtKrakenProtocol::is_xfer_ack, (pkt, sub), acked),
        call_ensures(NzxtKrakenProtocol::is_reply, (sent, pkt), answered),
        sent@.len() >= 2,
    ensures
        acked <==> pkt@.len() >= 2 && pkt@[0] == 0x37 && pkt@[1] == sub,
        answered <==> pkt@.len() >= 2 && (pkt@[0] - sent@[0] - 1) % 256 == 0 && pkt@[1] == sent@[1],
{
}

/// The tables before a raw frame set the pump and the fan header, each behind its own four
/// bytes: 63 at every point of the first and 31 at every point of the second.
pub proof fn tables_have_their_values(a: [u8; 45], b: [u8; 45], i: int)
    requires
        call_ensures(stream_lut1, (), a),
        call_ensures(stream_lut2, (), b),
        4 <= i < 45,
    ensures
        a@[0] == 0x72 && a@[1] == 0x01 && a@[2] == 0x01 && a@[3] == 0x00 && a@[i] == 63,
        b@[0] == 0x72 && b@[1] == 0x02 && b@[2] == 0x01 && b@[3] == 0x01 && b@[i] == 31,
{
}

/// A picture is turned the same whether it is handed over or only lent.
pub proof fn pictures_are_turned_alike(
    rgba: Vec<u8>,
    lent: &[u8],
    size: u32,
    degrees: u32,
    a: Vec<u8>,
    b: Vec<u8>,
)
    requires
        rgba@ == lent@,
        call_ensures(NzxtKrakenProtocol::rotate_rgba_square_owned, (rgba, size, degrees), a),
        call_ensures(NzxtKrakenProtocol::rotate_rgba_square, (lent, size, degrees), b),
    ensures
        a@ == b@,
{
}

/// The bucket that is found is free, and no lower one that is known is; where none is
/// found, none is free.
pub proof fn the_lowest_free_bucket_is_found(
    buckets: HashMap<u8, Vec<u8>>,
    r: Option<u8>,
    k: u8,
    i: int,
)
    requires
        call_ensures(NzxtKrakenProtocol::find_next_unoccupied, (&buckets,), r),
        buckets@.contains_key(k),
        15 <= i < buckets@[k]@.len(),
    ensures
        r == Some(k) ==> buckets@[k]@[i] == 0,
        r matches Some(f) ==> buckets@.contains_key(f),
        r is None || k < r->Some_0 ==> exists|j: int|
            15 <= j < buckets@[k]@.len() && #[trigger] buckets@[k]@[j] != 0,
{
    if r is None || k < r->Some_0 {
        assert(buckets@.contains_key(k));
        assert(!is_free(buckets@[k]@));
    }
}

/// A picture that cannot be decoded is refused as such, whatever the panel; one that can
/// and has the resolution of the panel is handed on as it was decoded. Whatever comes out
/// has four bytes for each point of the panel.
pub proof fn pictures_fill_the_panel(
    data: &[u8],
    width: u32,
    height: u32,
    r: Result<Vec<u8>, LcdError>,
)
    requires
        width < 0x100_0000,
        height < 0x100_0000,
        call_ensures(decode_static_image_rgba, (data, width, height), r),
    ensures
        decoded_size(data@) is None <==> r == Err::<Vec<u8>, LcdError>(LcdError::Undecodable),
        r is Err ==> r->Err_0 == LcdError::Undecodable || r->Err_0 == LcdError::DimensionLimit,
        r is Ok ==> r->Ok_0@.len() == 4 * width * height,
        r is Ok && decoded_size(data@) == Some((width, height)) ==> r->Ok_0@ == decoded_rgba(data@),
{
    if r is Ok {
        assert(width * height * 4 == 4 * width * height) by (nonlinear_arith);
    }
}

} // verus!
