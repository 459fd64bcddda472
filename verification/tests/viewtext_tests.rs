use sldshow2::viewtext::{
    counted_message, display_name, file_size_text, filename_bar_text, info_string,
    on_off_message, rejected_suffix, seconds_text, timer_message, window_title,
};

fn float_size(bytes: u64) -> String {
    if bytes >= 1_048_576 {
        format!("{:.1} MB", bytes as f64 / 1_048_576.0)
    } else if bytes >= 1024 {
        format!("{:.1} KB", bytes as f64 / 1024.0)
    } else {
        format!("{} B", bytes)
    }
}

#[test]
fn file_sizes_match_float_formatting() {
    let mut samples: Vec<u64> = vec![
        0, 1, 512, 1023, 1024, 1075, 1126, 1127, 1177, 1178, 1536, 2048, 10_239, 10_240,
        1_048_575, 1_048_576, 1_101_004, 1_101_005, 1_153_433, 1_572_864, 5_000_000,
        123_456_789, 1 << 40,
    ];
    // Exact ties at one decimal place: x.x5 of the unit.
    for k in 0..40u64 {
        samples.push(1024 * k + 1024 * 5 / 100 + 0);
        samples.push((1024 * (20 * k + 1)) / 20);
        samples.push((1_048_576 * (20 * k + 1)) / 20);
        samples.push(1024 + 97 * k * k);
        samples.push(1_048_576 + 99_991 * k * k);
    }
    for b in samples {
        assert_eq!(file_size_text(b), float_size(b), "bytes = {b}");
    }
}

#[test]
fn file_size_examples() {
    assert_eq!(file_size_text(512), "512 B");
    assert_eq!(file_size_text(1536), "1.5 KB");
    assert_eq!(file_size_text(2 * 1_048_576), "2.0 MB");
}

#[test]
fn seconds_with_one_decimal() {
    assert_eq!(seconds_text(0), "0.0");
    assert_eq!(seconds_text(2_500), "2.5");
    assert_eq!(seconds_text(10_000), "10.0");
    assert_eq!(seconds_text(1_234), "1.2");
    assert_eq!(seconds_text(1_250), "1.2");
    assert_eq!(seconds_text(1_350), "1.4");
    assert_eq!(seconds_text(-1_000), "-1.0");
    // The value shown is that of the nearest f32: 1.15 s is stored as
    // 1.1499999..., 0.05 s as 0.0500000007..., 1.05 s as 1.0499999...
    assert_eq!(seconds_text(1_150), "1.1");
    assert_eq!(seconds_text(50), "0.1");
    assert_eq!(seconds_text(250), "0.2");
    assert_eq!(seconds_text(1_050), "1.0");
    assert_eq!(seconds_text(9_999_950), "10000.0");
    assert_eq!(seconds_text(123_456_789), "123456.8");
    assert_eq!(seconds_text(16_777_217_000), "16777216.0");
    assert_eq!(seconds_text(16_777_219_000), "16777220.0");
    assert_eq!(timer_message(0), "Timer: 0.0s (Paused)");
    assert_eq!(timer_message(15_000), "Timer: 15.0s");
}

#[test]
fn names_titles_and_bars() {
    assert_eq!(display_name("/a/b/c.png"), "c.png");
    assert_eq!(display_name("/"), "Unknown");
    assert_eq!(display_name("dir/.."), "Unknown");
    assert_eq!(window_title(Some("/x/y.jpg")), "y.jpg - sldshow2");
    assert_eq!(window_title(None), "sldshow2");
    assert_eq!(filename_bar_text(3, true, Some("/x/y.jpg"), 1), "y.jpg [2/3]");
    assert_eq!(filename_bar_text(3, false, Some("/x/y.jpg"), 1), "");
    assert_eq!(filename_bar_text(0, true, None, 0), "No images found in path");
}

#[test]
fn info_text_layout() {
    assert_eq!(info_string(None, None, None), "No image loaded");
    assert_eq!(
        info_string(Some("/p/photo.jpeg"), Some((4000, 3000)), Some(2_621_440)),
        "/p/photo.jpeg\n4000x3000 JPEG\n2.5 MB"
    );
    assert_eq!(
        info_string(Some("/p/noext"), None, None),
        "/p/noext\nLoading... UNKNOWN\nUnknown size"
    );
    assert_eq!(
        info_string(Some("/p/.hidden"), Some((1, 1)), Some(3)),
        "/p/.hidden\n1x1 UNKNOWN\n3 B"
    );
    assert_eq!(
        info_string(Some("/p/a.tar.gz"), Some((1, 2)), Some(2048)),
        "/p/a.tar.gz\n1x2 GZ\n2.0 KB"
    );
}

#[test]
fn small_messages() {
    assert_eq!(on_off_message("Info", true), "Info: ON");
    assert_eq!(on_off_message("Info", false), "Info: OFF");
    assert_eq!(rejected_suffix(0), "");
    assert_eq!(rejected_suffix(2), " (2 non-UTF-8 path(s) rejected)");
    assert_eq!(counted_message("Loaded ", 12, " images"), "Loaded 12 images");
}
