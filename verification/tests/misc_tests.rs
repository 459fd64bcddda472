use sldshow2::metadata::{first_word_dashed, white_space, ExifTags, ImageMetadata};
use sldshow2::orientation::{orientation_transform, read_exif_orientation, OrientationTransform};
use sldshow2::osc::{Osc, OSC_TIMEOUT_MS};
use sldshow2::scan::{classify_entry, classify_input, depth_allowed, finish_scan, EntryDecision, EntryKind, ScanError, MAX_SCAN_DEPTH};
use sldshow2::text::TextRenderer;

fn tags() -> ExifTags {
    ExifTags {
        pixel_x_dimension: Some(4000),
        pixel_y_dimension: Some(3000),
        make: Some("Canon".to_string()),
        model: Some("EOS".to_string()),
        date_time: Some("2024:01:15 10:30:00".to_string()),
        orientation: Some(6),
    }
}

#[test]
fn metadata_summary_joins_known_parts() {
    let m = ImageMetadata::from_exif(tags());
    assert_eq!(m.dimensions_string().as_deref(), Some("4000x3000"));
    assert_eq!(m.date_part().as_deref(), Some("2024-01-15"));
    assert_eq!(m.summary(), "4000x3000 \u{2022} 2024-01-15");
    let only_date = ImageMetadata::from_exif(ExifTags { pixel_x_dimension: None, ..tags() });
    assert_eq!(only_date.summary(), "2024-01-15");
    assert_eq!(ImageMetadata::empty().summary(), "");
}

#[test]
fn first_word_and_white_space() {
    assert_eq!(first_word_dashed("  2024:01:15 10:30").as_deref(), Some("2024-01-15"));
    assert_eq!(first_word_dashed("   "), None);
    assert!(white_space(' '));
    assert!(white_space('\u{3000}'));
    assert!(!white_space('x'));
}

#[test]
fn orientation_values() {
    assert_eq!(orientation_transform(None), OrientationTransform::Identity);
    assert_eq!(orientation_transform(Some(1)), OrientationTransform::Identity);
    assert_eq!(orientation_transform(Some(6)), OrientationTransform::Rotate90);
    assert_eq!(orientation_transform(Some(8)), OrientationTransform::Rotate270);
    assert_eq!(orientation_transform(Some(5)), OrientationTransform::Rotate90FlipHorizontal);
    assert_eq!(orientation_transform(Some(9)), OrientationTransform::Identity);
}

#[test]
fn exif_orientation_from_bytes() {
    assert_eq!(read_exif_orientation(&[]), None);
    assert_eq!(read_exif_orientation(b"not an image"), None);
    // A minimal JPEG holding an APP1 Exif segment with Orientation = 6.
    let tiff: Vec<u8> = vec![
        b'M', b'M', 0, 42, 0, 0, 0, 8, // header, IFD0 at 8
        0, 1, // one entry
        0x01, 0x12, 0, 3, 0, 0, 0, 1, 0, 6, 0, 0, // Orientation SHORT 6
        0, 0, 0, 0, // no next IFD
    ];
    let mut app1 = b"Exif\0\0".to_vec();
    app1.extend_from_slice(&tiff);
    let len = (app1.len() + 2) as u16;
    let mut jpeg = vec![0xFF, 0xD8, 0xFF, 0xE1];
    jpeg.extend_from_slice(&len.to_be_bytes());
    jpeg.extend_from_slice(&app1);
    jpeg.extend_from_slice(&[0xFF, 0xD9]);
    assert_eq!(read_exif_orientation(&jpeg), Some(6));
}

fn jpeg_with_tiff(tiff: &[u8]) -> Vec<u8> {
    let mut app1 = b"Exif\0\0".to_vec();
    app1.extend_from_slice(tiff);
    let len = (app1.len() + 2) as u16;
    let mut jpeg = vec![0xFF, 0xD8, 0xFF, 0xE1];
    jpeg.extend_from_slice(&len.to_be_bytes());
    jpeg.extend_from_slice(&app1);
    jpeg.extend_from_slice(&[0xFF, 0xD9]);
    jpeg
}

#[test]
fn metadata_from_exif_bytes() {
    let mut tiff: Vec<u8> = vec![
        b'M', b'M', 0, 42, 0, 0, 0, 8, // header, IFD0 at 8
        0, 3, // three entries
        0x01, 0x0F, 0, 2, 0, 0, 0, 6, 0, 0, 0, 50, // Make, ASCII, 6 bytes at 50
        0x01, 0x12, 0, 3, 0, 0, 0, 1, 0, 6, 0, 0, // Orientation SHORT 6
        0x01, 0x32, 0, 2, 0, 0, 0, 20, 0, 0, 0, 56, // DateTime, ASCII, 20 bytes at 56
        0, 0, 0, 0, // no next IFD
    ];
    tiff.extend_from_slice(b"Canon\0");
    tiff.extend_from_slice(b"2024:01:15 10:30:00\0");
    let m = ImageMetadata::from_bytes(&jpeg_with_tiff(&tiff));
    assert_eq!(m.orientation, Some(6));
    assert_eq!(m.width, None);
    assert_eq!(m.height, None);
    assert_eq!(m.camera_make.as_deref(), Some("\"Canon\""));
    assert_eq!(m.camera_model, None);
    assert_eq!(m.datetime.as_deref(), Some("2024-01-15 10:30:00"));
    assert_eq!(m.summary(), "2024-01-15");

    let none = ImageMetadata::from_bytes(b"no exif here");
    assert_eq!(none.orientation, None);
    assert_eq!(none.camera_make, None);
    assert_eq!(none.datetime, None);
    assert_eq!(none.summary(), "");
}

#[test]
fn controller_hides_after_timeout() {
    let mut o = Osc::new(0);
    o.check_autohide(OSC_TIMEOUT_MS);
    assert!(o.visible);
    o.check_autohide(OSC_TIMEOUT_MS + 1);
    assert!(!o.visible);
    o.update_interaction(5000);
    assert!(o.visible);
    assert_eq!(o.last_interaction_ms, 5000);
}

#[test]
fn scan_decisions() {
    assert_eq!(classify_entry(EntryKind::File, "/a/b.png", false), EntryDecision::Include);
    assert_eq!(classify_entry(EntryKind::File, "/a/b.JPG", false), EntryDecision::Include);
    assert_eq!(classify_entry(EntryKind::File, "/a/b.txt", false), EntryDecision::Skip);
    assert_eq!(classify_entry(EntryKind::Dir, "/a/sub", false), EntryDecision::Skip);
    assert_eq!(classify_entry(EntryKind::Dir, "/a/sub", true), EntryDecision::Descend);
    assert_eq!(classify_entry(EntryKind::Symlink, "/a/link", true), EntryDecision::Skip);
    assert_eq!(classify_input(EntryKind::Dir, "/a"), EntryDecision::Descend);
    assert_eq!(classify_input(EntryKind::File, "/a/x.webp"), EntryDecision::Include);
    assert!(depth_allowed(0));
    assert!(!depth_allowed(MAX_SCAN_DEPTH));
}

#[test]
fn finishing_a_scan() {
    let found = vec!["img10.png".to_string(), "img2.png".to_string(), "img1.png".to_string()];
    let sorted = finish_scan(found, vec!["/d".to_string()], None).unwrap();
    assert_eq!(sorted, vec!["img1.png", "img2.png", "img10.png"]);
    match finish_scan(Vec::new(), vec!["/d".to_string()], None) {
        Err(ScanError::NoImagesFound { paths }) => assert_eq!(paths, vec!["/d"]),
        other => panic!("unexpected {:?}", other),
    }
    match finish_scan(Vec::new(), vec![], Some(("/d/x".to_string(), "denied".to_string()))) {
        Err(ScanError::ScanFailed { path, message }) => {
            assert_eq!(path, "/d/x");
            assert_eq!(message, "denied");
        }
        other => panic!("unexpected {:?}", other),
    }
}

#[test]
fn text_layer_never_shows_info() {
    let mut t = TextRenderer::new();
    t.set_text("a");
    t.set_osd_text("b");
    t.set_info_text("c");
    assert!(!t.toggle_info_overlay());
    assert!(!t.info_overlay_visible());
}
