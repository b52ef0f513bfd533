use renderflow::capture::CaptureError;
use renderflow::capture::align_up;
use renderflow::capture::finish_capture;
use renderflow::capture::pad_rows;
use renderflow::capture::padded_bytes_per_row;
use renderflow::capture::strip_row_padding;

#[test]
fn align_up_values() {
    assert_eq!(align_up(0, 256), 0);
    assert_eq!(align_up(1, 256), 256);
    assert_eq!(align_up(256, 256), 256);
    assert_eq!(align_up(257, 256), 512);
    assert_eq!(align_up(3204, 256), 3328);
}

#[test]
fn padded_row_for_awkward_width() {
    // width 801: unpadded row is 3204 bytes, padded row is 3328
    assert_eq!(padded_bytes_per_row(801), 3328);
    // width whose row is already aligned: 64 * 4 == 256
    assert_eq!(padded_bytes_per_row(64), 256);
    assert_eq!(padded_bytes_per_row(1920), 7680);
}

fn tight_test_image(width: u32, height: u32) -> Vec<u8> {
    let n = (width * height * 4) as usize;
    (0..n).map(|i| (i * 31 % 251) as u8).collect()
}

#[test]
fn strip_round_trips_awkward_width() {
    let width = 801u32;
    let height = 3u32;
    let tight = tight_test_image(width, height);
    let padded = pad_rows(&tight, width, height);
    assert_eq!(padded.len(), 3328 * 3);
    let stripped = strip_row_padding(&padded, width, height);
    assert_eq!(stripped.len(), (width * height * 4) as usize);
    assert_eq!(stripped, tight);
}

#[test]
fn strip_reads_rows_at_stride() {
    let width = 1u32; // unpadded row 4 bytes, stride 256
    let height = 2u32;
    let mut padded = vec![0u8; 512];
    padded[0] = 10;
    padded[1] = 11;
    padded[2] = 12;
    padded[3] = 13;
    padded[256] = 20;
    padded[257] = 21;
    padded[258] = 22;
    padded[259] = 23;
    // padding bytes must be ignored
    padded[100] = 99;
    padded[300] = 99;
    let stripped = strip_row_padding(&padded, width, height);
    assert_eq!(stripped, vec![10, 11, 12, 13, 20, 21, 22, 23]);
}

#[test]
fn finish_capture_strips_mapped_copy() {
    let width = 801u32;
    let height = 2u32;
    let tight = tight_test_image(width, height);
    let padded = pad_rows(&tight, width, height);
    let r = finish_capture(Some(padded), width, height);
    assert_eq!(r.unwrap(), tight);
}

#[test]
fn finish_capture_map_failure_skips_frame() {
    let r = finish_capture(None, 801, 2);
    assert_eq!(r.unwrap_err(), CaptureError::MapFailed);
}

#[test]
fn finish_capture_rejects_short_copy() {
    let r = finish_capture(Some(vec![0u8; 100]), 801, 2);
    assert_eq!(r.unwrap_err(), CaptureError::TruncatedCopy);
}
