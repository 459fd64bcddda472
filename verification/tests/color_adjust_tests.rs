use sldshow2::color_adjust::ColorAdjustments;
use sldshow2::input::KeyCode;

#[test]
fn append_info_only_nonzero() {
    let c = ColorAdjustments {
        brightness: 10,
        saturation: -5,
        ..Default::default()
    };
    let mut s = String::new();
    c.append_info(&mut s);
    assert!(s.contains("Brightness: 10"));
    assert!(s.contains("Saturation: -5"));
    assert!(!s.contains("Contrast"));
    assert!(!s.contains("Gamma"));
}

#[test]
fn handle_key_clamps() {
    let mut c = ColorAdjustments {
        contrast: 100,
        ..Default::default()
    };
    let result = c
        .handle_key(KeyCode::Digit2)
        .expect("Digit2 maps to a color key");
    assert_eq!(result.name, "Contrast");
    assert_eq!(result.value, 100);
}

#[test]
fn handle_key_unknown() {
    let mut c = ColorAdjustments::default();
    assert!(c.handle_key(KeyCode::KeyA).is_none());
    assert_eq!(c, ColorAdjustments::default());
}

#[test]
fn default_is_neutral() {
    let c = ColorAdjustments::default();
    assert_eq!(c.brightness, 0);
    assert_eq!(c.contrast, 0);
    assert_eq!(c.gamma, 0);
    assert_eq!(c.saturation, 0);
    assert_eq!(c, ColorAdjustments::neutral());
}

#[test]
fn each_digit_moves_its_parameter_by_one() {
    let mut c = ColorAdjustments::default();
    let r = c.handle_key(KeyCode::Digit1).unwrap();
    assert_eq!((r.name, r.value), ("Contrast", -1));
    let r = c.handle_key(KeyCode::Digit4).unwrap();
    assert_eq!((r.name, r.value), ("Brightness", 1));
    let r = c.handle_key(KeyCode::Digit6).unwrap();
    assert_eq!((r.name, r.value), ("Gamma", 1));
    let r = c.handle_key(KeyCode::Digit7).unwrap();
    assert_eq!((r.name, r.value), ("Saturation", -1));
    assert_eq!(
        c,
        ColorAdjustments {
            brightness: 1,
            contrast: -1,
            gamma: 1,
            saturation: -1
        }
    );
}

#[test]
fn lower_bound_clamps_at_minus_hundred() {
    let mut c = ColorAdjustments {
        gamma: -100,
        ..Default::default()
    };
    let r = c.handle_key(KeyCode::Digit5).unwrap();
    assert_eq!(r.value, -100);
    assert_eq!(c.gamma, -100);
}

#[test]
fn info_of_neutral_is_empty_and_lines_keep_order() {
    let mut s = String::from("head");
    ColorAdjustments::default().append_info(&mut s);
    assert_eq!(s, "head");
    let c = ColorAdjustments {
        brightness: 10,
        contrast: 3,
        gamma: -2,
        saturation: -5,
    };
    let mut s = String::new();
    c.append_info(&mut s);
    assert_eq!(s, "\nContrast: 3\nBrightness: 10\nGamma: -2\nSaturation: -5");
}
