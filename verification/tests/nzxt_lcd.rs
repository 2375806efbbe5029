//! The coolers' screen.

use halod_drivers::nzxt::protocols::nzxt_kraken::lcd::{
    decode_static_image_rgba, fit_image, stream_lut1, stream_lut2, BucketUpload, LcdError, LcdOp,
    UploadAction, UploadEvent, LCD_TOTAL_MEMORY_KB,
};
use halod_drivers::nzxt::protocols::nzxt_kraken::NzxtKrakenProtocol;
use std::collections::HashMap;

/// Takes reports off the queue until one acknowledges `sub`; gives up after eight.
fn await_xfer_ack(reports: &mut Vec<Vec<u8>>, sub: u8) -> bool {
    for _ in 0..8 {
        if reports.is_empty() {
            return false;
        }
        if NzxtKrakenProtocol::is_xfer_ack(&reports.remove(0), sub) {
            return true;
        }
    }
    false
}

/// A bucket report with the given memory offset and size in kilobytes.
fn bucket_info(offset: u32, size: u32, occupied: bool) -> Vec<u8> {
    let mut b = vec![0u8; 64];
    b[17] = (offset & 0xFF) as u8;
    b[18] = ((offset >> 8) & 0xFF) as u8;
    b[19] = (size & 0xFF) as u8;
    b[20] = ((size >> 8) & 0xFF) as u8;
    if occupied {
        b[21] = 1;
    }
    b
}

#[test]
fn await_xfer_ack_consumes_matching_end_ack() {
    let mut reports = vec![vec![0x37, 0x02, 0x00]];
    assert!(await_xfer_ack(&mut reports, 0x02));
    assert!(
        reports.is_empty(),
        "end ACK must be consumed"
    );
}

#[test]
fn await_xfer_ack_skips_stray_then_consumes_ack() {
    let mut reports = vec![vec![0x75, 0x01, 0x00], vec![0x37, 0x02, 0x00]];
    assert!(await_xfer_ack(&mut reports, 0x02));
    assert!(
        reports.is_empty(),
        "both the stray report and the ACK must be consumed"
    );
}

#[test]
fn await_xfer_ack_start_does_not_match_end() {
    let mut reports = vec![vec![0x37, 0x02, 0x00]];
    assert!(!await_xfer_ack(&mut reports, 0x01));
    assert!(
        reports.is_empty(),
        "read_matching drains non-matching reports while searching"
    );
}

#[test]
fn write_screen_config_sends_correct_packet() {
    let written = [NzxtKrakenProtocol::write_screen_config(75, 90)];
    assert_eq!(
        &written[0][..],
        &[0x30, 0x02, 0x01, 75, 0x00, 0x00, 0x01, 1]
    );
}

#[test]
fn write_screen_config_wraps_rotation_index() {
    assert_eq!(NzxtKrakenProtocol::write_screen_config(50, 270)[7], 3);
}

#[test]
fn decode_static_image_rgba_resizes_to_native() {
    let dynimg = image::DynamicImage::ImageRgba8(image::RgbaImage::from_pixel(
        2,
        2,
        image::Rgba([255u8, 0, 0, 255]),
    ));
    let mut png = std::io::Cursor::new(Vec::new());
    dynimg.write_to(&mut png, image::ImageFormat::Png).unwrap();
    let rgba = decode_static_image_rgba(png.get_ref(), 4, 4).unwrap();
    assert_eq!(rgba.len(), 4 * 4 * 4);
    assert!(rgba.chunks_exact(4).all(|px| px == [255, 0, 0, 255]));
}

#[test]
fn find_next_unoccupied_returns_lowest_free_index() {
    let mut buckets = HashMap::new();
    buckets.insert(0u8, bucket_info(0, 10, true));
    buckets.insert(1u8, bucket_info(0, 0, false));
    buckets.insert(2u8, bucket_info(0, 0, false));
    assert_eq!(
        NzxtKrakenProtocol::find_next_unoccupied(&buckets),
        Some(1)
    );
}

#[test]
fn find_next_unoccupied_none_when_all_full() {
    let mut buckets = HashMap::new();
    buckets.insert(0u8, bucket_info(0, 10, true));
    buckets.insert(1u8, bucket_info(10, 10, true));
    assert_eq!(
        NzxtKrakenProtocol::find_next_unoccupied(&buckets),
        None
    );
}

#[test]
fn bucket_offset_reuses_slot_when_payload_fits() {
    let mut buckets = HashMap::new();
    buckets.insert(0u8, bucket_info(0x0040, 100, true));
    let off = NzxtKrakenProtocol::bucket_memory_offset(&buckets, 0, 50);
    assert_eq!(off, Some([0x40, 0x00]));
}

#[test]
fn bucket_offset_appends_past_highest_when_outgrown() {
    let mut buckets = HashMap::new();
    buckets.insert(0u8, bucket_info(0, 100, true));
    buckets.insert(1u8, bucket_info(100, 50, true));
    let off = NzxtKrakenProtocol::bucket_memory_offset(&buckets, 0, 200);
    assert_eq!(off, Some([150u8, 0u8]));
}

#[test]
fn bucket_offset_none_when_no_room_anywhere() {
    let mut buckets = HashMap::new();
    buckets.insert(0u8, bucket_info(0, 10, true));
    buckets.insert(1u8, bucket_info(10, LCD_TOTAL_MEMORY_KB - 10, true));
    let off = NzxtKrakenProtocol::bucket_memory_offset(
        &buckets,
        0,
        LCD_TOTAL_MEMORY_KB - 5,
    );
    assert_eq!(off, None);
}

#[test]
fn bucket_offset_fresh_index_starts_at_zero() {
    let buckets = HashMap::new();
    let off = NzxtKrakenProtocol::bucket_memory_offset(&buckets, 3, 50);
    assert_eq!(off, Some([0x00, 0x00]));
}

#[test]
fn bucket_offset_lower_bucket_overlaps_only_when_extent_reaches_current() {
    let mut clear = HashMap::new();
    clear.insert(0u8, bucket_info(0, 50, true));
    clear.insert(1u8, bucket_info(100, 10, true));
    let off = NzxtKrakenProtocol::bucket_memory_offset(&clear, 1, 50);
    assert_eq!(
        off,
        Some([100u8, 0u8]),
        "non-reaching lower bucket reuses slot"
    );
    let mut reaching = HashMap::new();
    reaching.insert(0u8, bucket_info(0, 120, true));
    reaching.insert(1u8, bucket_info(100, 10, true));
    let off = NzxtKrakenProtocol::bucket_memory_offset(&reaching, 1, 50);
    assert_eq!(
        off,
        Some([120u8, 0u8]),
        "reaching lower bucket forces append"
    );
}

#[test]
fn stream_bulk_header_encodes_type_and_length() {
    let h = NzxtKrakenProtocol::stream_bulk_header(0x19D8, 0x08);
    assert_eq!(
        &h[..12],
        &[0x12, 0xFA, 0x01, 0xE8, 0xAB, 0xCD, 0xEF, 0x98, 0x76, 0x54, 0x32, 0x10]
    );
    assert_eq!(h[12], 0x08);
    assert_eq!(&h[16..20], &[0xD8, 0x19, 0x00, 0x00]);
}

#[test]
fn stream_bulk_header_encodes_raw_asset_mode() {
    let h = NzxtKrakenProtocol::stream_bulk_header(1_228_800, 0x09);
    assert_eq!(h[12], 0x09);
    assert_eq!(&h[16..20], &[0x00, 0xC0, 0x12, 0x00]);
}

#[test]
fn rotate_rgba_square_90_moves_top_left_to_top_right() {
    let mut src = vec![0u8; 2 * 2 * 4];
    src[0..4].copy_from_slice(&[1, 1, 1, 255]);
    let out = NzxtKrakenProtocol::rotate_rgba_square(&src, 2, 90);
    assert_eq!(&out[4..8], &[1, 1, 1, 255]);
    assert_eq!(&out[0..4], &[0, 0, 0, 0]);
}

#[test]
fn rotate_rgba_square_zero_and_bad_size_passthrough() {
    let src = vec![9u8; 2 * 2 * 4];
    assert_eq!(
        NzxtKrakenProtocol::rotate_rgba_square(&src, 2, 0),
        src
    );
    assert_eq!(
        NzxtKrakenProtocol::rotate_rgba_square(&src, 4, 90),
        src
    );
}

#[test]
fn rgba_to_bgr888_reorders_and_drops_alpha() {
    let rgba = [10u8, 20, 30, 255, 40, 50, 60, 128];
    let bgr = NzxtKrakenProtocol::rgba_to_bgr888(&rgba);
    assert_eq!(bgr, vec![30, 20, 10, 60, 50, 40]);
}

#[test]
fn stream_luts_have_correct_prefixes_and_fill() {
    let l1 = stream_lut1();
    assert_eq!(&l1[..4], &[0x72, 0x01, 0x01, 0x00]);
    assert!(l1[4..].iter().all(|&b| b == 0x3F));
    assert_eq!(l1.len(), 45);
    let l2 = stream_lut2();
    assert_eq!(&l2[..4], &[0x72, 0x02, 0x01, 0x01]);
    assert!(l2[4..].iter().all(|&b| b == 0x1F));
}

#[test]
fn q565_payload_has_magic_dimensions_and_end() {
    let rgba = [255u8; 4 * 4 * 4];
    let out = NzxtKrakenProtocol::rgba_to_q565_payload(&rgba, 4, 4).unwrap();
    assert_eq!(&out[0..4], b"q565");
    assert_eq!(&out[4..8], &[4, 0, 4, 0]);
    assert_eq!(*out.last().unwrap(), 0xFF);
    assert!(out.len() < 4 * 4 * 2);
}

#[test]
fn q565_payload_roundtrips_via_decoder() {
    let rgba: Vec<u8> = std::iter::repeat_n([255u8, 0, 0, 255], 8 * 8)
        .flatten()
        .collect();
    let out = NzxtKrakenProtocol::rgba_to_q565_payload(&rgba, 8, 8).unwrap();
    let mut decoded = Vec::new();
    let (hdr, _) = q565::decode::Q565DecodeContext::decode::<q565::byteorder::LittleEndian>(
        &out,
        q565::decode::VecDecodeOutput::<q565::Rgb565>::new(&mut decoded),
    )
    .expect("decode failed");
    assert_eq!((hdr.width, hdr.height), (8, 8));
    assert!(decoded.iter().all(|&px| px == 0xF800));
}

#[test]
fn q565_payload_rejects_size_mismatch() {
    assert!(
        NzxtKrakenProtocol::rgba_to_q565_payload(&[0u8; 4], 2, 2).is_err()
    );
}

fn noise(n: usize) -> Vec<u8> {
    (0..n).map(|i| (i * 37 + i / 5) as u8).collect()
}

#[test]
fn rotate_rgba_square_four_quarters_is_identity() {
    let pixels = noise(5 * 5 * 4);
    let mut img = pixels.clone();
    for _ in 0..4 {
        img = NzxtKrakenProtocol::rotate_rgba_square(&img, 5, 90);
    }
    assert_eq!(img, pixels);
    assert_eq!(NzxtKrakenProtocol::rotate_rgba_square(&NzxtKrakenProtocol::rotate_rgba_square(&pixels, 5, 270), 5, 90), pixels);
}

#[test]
fn rotate_rgba_square_180_equals_two_90s() {
    let pixels = noise(5 * 5 * 4);
    let once = NzxtKrakenProtocol::rotate_rgba_square(&pixels, 5, 180);
    let step1 = NzxtKrakenProtocol::rotate_rgba_square(&pixels, 5, 90);
    let twice = NzxtKrakenProtocol::rotate_rgba_square_owned(step1, 5, 90);
    assert_eq!(once, twice);
}

#[test]
fn undecodable_images_are_refused() {
    assert_eq!(
        decode_static_image_rgba(b"not an image", 4, 4).unwrap_err(),
        LcdError::Undecodable
    );
}

#[test]
fn images_of_the_right_size_are_not_resized() {
    let mut img = image::RgbaImage::new(2, 1);
    img.put_pixel(0, 0, image::Rgba([1, 2, 3, 255]));
    img.put_pixel(1, 0, image::Rgba([4, 5, 6, 255]));
    let mut png = std::io::Cursor::new(Vec::new());
    image::DynamicImage::ImageRgba8(img)
        .write_to(&mut png, image::ImageFormat::Png)
        .unwrap();
    let rgba = decode_static_image_rgba(png.get_ref(), 2, 1).unwrap();
    assert_eq!(rgba, vec![1, 2, 3, 255, 4, 5, 6, 255]);
}

#[test]
fn payloads_are_refused_for_their_reason() {
    assert_eq!(NzxtKrakenProtocol::rgba_to_q565_payload(&[0u8; 4], 2, 2).unwrap_err(), LcdError::SizeMismatch);
    assert_eq!(
        NzxtKrakenProtocol::rgba_to_q565_payload(&[], 0, 70_000).unwrap_err(),
        LcdError::DimensionLimit
    );
}

#[test]
fn screen_settings_are_read_back() {
    let mut pkt = vec![0u8; 64];
    pkt[0] = 0x31;
    pkt[1] = 0x01;
    pkt[0x18] = 60;
    pkt[0x1A] = 2;
    assert_eq!(NzxtKrakenProtocol::read_lcd_state(&pkt), Some((60, 180)));
    assert_eq!(NzxtKrakenProtocol::read_lcd_state(&pkt[..8]), None);
    assert_eq!(NzxtKrakenProtocol::switch_to_default_display()[0], 0x38);
    assert!(NzxtKrakenProtocol::is_reply(&[0x30, 0x04, 0x02], &[0x31, 0x04, 0x00]));
    assert!(!NzxtKrakenProtocol::is_reply(&[0x30, 0x04, 0x02], &[0x33, 0x04, 0x00]));
}

#[test]
fn a_streamed_frame_reads_both_acks() {
    let plan = NzxtKrakenProtocol::stream_frame(1000).unwrap();
    let acks: Vec<u8> = plan
        .iter()
        .filter_map(|op| match op {
            LcdOp::AwaitAck(sub) => Some(*sub),
            _ => None,
        })
        .collect();
    assert_eq!(acks, vec![0x01, 0x02]);
    assert!(NzxtKrakenProtocol::stream_frame_raw(1000).unwrap().len() > plan.len());
    assert!(!NzxtKrakenProtocol::enter_streaming_mode(80).is_empty());
    assert_eq!(NzxtKrakenProtocol::gif_bulk_info(0x0102).unwrap()[16..18], [0x02, 0x01]);
}

/// Plays a panel that answers every request, with all buckets empty.
fn run(mut upload: BucketUpload, mut reject: impl FnMut(&[u8]) -> bool) -> (UploadAction, usize) {
    let mut steps = 0;
    loop {
        steps += 1;
        assert!(steps < 200);
        let event = match upload.action() {
            UploadAction::Command(cmd) => {
                let mut reply = vec![0u8; 64];
                reply[0] = cmd[0] + 1;
                reply[1] = cmd[1];
                reply[14] = if reject(&cmd) { 0 } else { 1 };
                UploadEvent::Reply(Some(reply))
            }
            UploadAction::WriteThenRead(_) | UploadAction::Write(_) | UploadAction::Bulk => {
                UploadEvent::Written
            }
            UploadAction::AwaitAck(sub) => UploadEvent::Reply(Some(vec![0x37, sub])),
            done => return (done, steps),
        };
        upload.advance(event);
    }
}

#[test]
fn an_upload_ends_in_the_first_free_bucket() {
    let (end, _) = run(BucketUpload::start(5000).unwrap(), |_| false);
    assert!(matches!(end, UploadAction::Done { index: 0 }), "{end:?}");
}

#[test]
fn a_failed_write_ends_the_upload() {
    let mut upload = BucketUpload::start(5000).unwrap();
    upload.advance(UploadEvent::Failed(LcdError::WriteFailed));
    assert!(matches!(upload.action(), UploadAction::GiveUp(LcdError::WriteFailed)));
}

#[test]
fn oversized_images_are_refused() {
    let too_large = (LCD_TOTAL_MEMORY_KB as usize + 1) * 1024;
    assert!(matches!(
        BucketUpload::start(too_large).unwrap_err(),
        LcdError::ImageTooLarge { .. }
    ));
}

#[test]
fn grey_images_keep_their_pixels() {
    let mut img = image::GrayImage::new(2, 1);
    img.put_pixel(0, 0, image::Luma([7]));
    img.put_pixel(1, 0, image::Luma([200]));
    let mut png = std::io::Cursor::new(Vec::new());
    image::DynamicImage::ImageLuma8(img)
        .write_to(&mut png, image::ImageFormat::Png)
        .unwrap();
    let rgba = decode_static_image_rgba(png.get_ref(), 2, 1).unwrap();
    assert_eq!(rgba, vec![7, 7, 7, 255, 200, 200, 200, 255]);
}

#[test]
fn fitted_images_come_from_the_image() {
    let plain = |c: [u8; 4]| {
        image::DynamicImage::ImageRgba8(image::RgbaImage::from_pixel(3, 2, image::Rgba(c)))
    };
    let blue = fit_image(plain([0, 0, 255, 255]), 5, 4).unwrap();
    assert_eq!(blue, [0, 0, 255, 255].repeat(20));
    let green = fit_image(plain([0, 255, 0, 255]), 5, 4).unwrap();
    assert_eq!(green, [0, 255, 0, 255].repeat(20));
    let same = fit_image(plain([1, 2, 3, 4]), 3, 2).unwrap();
    assert_eq!(same, [1, 2, 3, 4].repeat(6));
}

#[test]
fn a_bucket_without_a_report_starts_at_zero_whatever_the_others_say() {
    let mut buckets = HashMap::new();
    buckets.insert(0u8, vec![0u8; 3]);
    assert_eq!(
        NzxtKrakenProtocol::bucket_memory_offset(&buckets, 3, u32::MAX),
        Some([0x00, 0x00])
    );
    buckets.insert(1u8, bucket_info(0x40, 100, true));
    assert_eq!(
        NzxtKrakenProtocol::bucket_memory_offset(&buckets, 1, 50),
        Some([0x40, 0x00])
    );
}
