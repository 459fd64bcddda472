use sldshow2::screenshot::{
    candidate_filename, padded_bytes_per_row, pixel_layout, unpad_rows_rgba8, ScreenshotCapture,
    SurfaceFormat, MAX_FILENAME_ATTEMPTS,
};

#[test]
fn rows_are_padded_to_256_bytes() {
    assert_eq!(padded_bytes_per_row(0), 0);
    assert_eq!(padded_bytes_per_row(1), 256);
    assert_eq!(padded_bytes_per_row(256), 256);
    assert_eq!(padded_bytes_per_row(257), 512);
    assert_eq!(padded_bytes_per_row(1920 * 4), 7680);
    assert_eq!(padded_bytes_per_row(1366 * 4), 5632);
}

#[test]
fn pixel_layouts() {
    let l = pixel_layout(SurfaceFormat::Rgba8).unwrap();
    assert_eq!((l.bytes_per_pixel, l.is_bgra, l.is_rgba16f), (4, false, false));
    let l = pixel_layout(SurfaceFormat::Bgra8).unwrap();
    assert_eq!((l.bytes_per_pixel, l.is_bgra, l.is_rgba16f), (4, true, false));
    let l = pixel_layout(SurfaceFormat::Rgba16Float).unwrap();
    assert_eq!((l.bytes_per_pixel, l.is_bgra, l.is_rgba16f), (8, false, true));
    assert!(pixel_layout(SurfaceFormat::Other).is_none());
}

#[test]
fn unpadding_drops_row_padding() {
    // Two rows of two RGBA pixels, rows 12 bytes apart.
    let data: Vec<u8> = (0u8..24).collect();
    let out = unpad_rows_rgba8(&data, 2, 2, 12, false);
    assert_eq!(out, vec![0, 1, 2, 3, 4, 5, 6, 7, 12, 13, 14, 15, 16, 17, 18, 19]);
}

#[test]
fn unpadding_swaps_blue_and_red_for_bgra() {
    let data = vec![10u8, 20, 30, 40, 50, 60, 70, 80, 0, 0];
    let out = unpad_rows_rgba8(&data, 2, 1, 10, true);
    assert_eq!(out, vec![30, 20, 10, 40, 70, 60, 50, 80]);
}

#[test]
fn candidate_names() {
    assert_eq!(candidate_filename(1700000000123, 0), "sldshow-shot-1700000000123.png");
    assert_eq!(candidate_filename(1700000000123, 3), "sldshow-shot-1700000000123-3.png");
}

#[test]
fn next_filename_picks_first_free_candidate() {
    let cap = ScreenshotCapture::new();
    assert_eq!(
        cap.next_filename(42, &vec![false; 10]).unwrap(),
        "sldshow-shot-42.png"
    );
    let mut taken = vec![true; 10];
    taken[4] = false;
    taken[7] = false;
    assert_eq!(cap.next_filename(42, &taken).unwrap(), "sldshow-shot-42-4.png");
}

#[test]
fn next_filename_fails_when_all_taken() {
    let cap = ScreenshotCapture::new();
    assert_eq!(
        cap.next_filename(42, &vec![true; MAX_FILENAME_ATTEMPTS as usize]),
        Err("Screenshot failed!".to_string())
    );
    let mut taken = vec![true; 12];
    taken[11] = false;
    assert!(cap.next_filename(42, &taken).is_err());
    assert!(cap.next_filename(42, &Vec::new()).is_err());
}
