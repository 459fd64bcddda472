use sldshow2::input::{
    map_key, map_wheel, InputAction, InputContext, KeyCode, Modifiers, MouseButton, PointerState,
    WheelDirection,
};
use sldshow2::overlay::OverlayKind;

const NONE: Modifiers = Modifiers { shift: false, control: false, alt: false };
const SHIFT: Modifiers = Modifiers { shift: true, control: false, alt: false };
const CTRL: Modifiers = Modifiers { shift: false, control: true, alt: false };
const ALT: Modifiers = Modifiers { shift: false, control: false, alt: true };

fn ctx() -> InputContext {
    InputContext {
        fullscreen: false,
        image_count: 5,
        front_overlay: None,
        current_image_size: Some((640, 480)),
    }
}

#[test]
fn navigation_keys() {
    assert_eq!(map_key(KeyCode::ArrowRight, NONE, &ctx()), Some(InputAction::NextImage { steps: 1 }));
    assert_eq!(map_key(KeyCode::ArrowRight, SHIFT, &ctx()), Some(InputAction::NextImage { steps: 10 }));
    assert_eq!(map_key(KeyCode::ArrowLeft, NONE, &ctx()), Some(InputAction::PrevImage { steps: 1 }));
    assert_eq!(map_key(KeyCode::Home, NONE, &ctx()), Some(InputAction::JumpTo(0)));
    assert_eq!(map_key(KeyCode::End, NONE, &ctx()), Some(InputAction::JumpTo(4)));
    let empty = InputContext { image_count: 0, ..ctx() };
    assert_eq!(map_key(KeyCode::End, NONE, &empty), Some(InputAction::JumpTo(0)));
}

#[test]
fn escape_closes_front_panel_first() {
    assert_eq!(map_key(KeyCode::Escape, NONE, &ctx()), Some(InputAction::Exit));
    let c = InputContext { front_overlay: Some(OverlayKind::Help), ..ctx() };
    assert_eq!(map_key(KeyCode::Escape, NONE, &c), Some(InputAction::ToggleHelpOverlay));
    let c = InputContext { front_overlay: Some(OverlayKind::Gallery), ..ctx() };
    assert_eq!(map_key(KeyCode::Escape, NONE, &c), Some(InputAction::ToggleGallery));
}

#[test]
fn timer_and_modifier_keys() {
    assert_eq!(map_key(KeyCode::BracketRight, NONE, &ctx()), Some(InputAction::AdjustTimer(1)));
    assert_eq!(map_key(KeyCode::BracketLeft, SHIFT, &ctx()), Some(InputAction::AdjustTimer(-60)));
    assert_eq!(map_key(KeyCode::Backspace, NONE, &ctx()), Some(InputAction::ResetTimer));
    assert_eq!(map_key(KeyCode::Backspace, SHIFT, &ctx()), Some(InputAction::ResetColorAdjustments));
    assert_eq!(map_key(KeyCode::KeyC, CTRL, &ctx()), Some(InputAction::CopyPathToClipboard));
    let cs = Modifiers { shift: true, control: true, alt: false };
    assert_eq!(map_key(KeyCode::KeyC, cs, &ctx()), Some(InputAction::CopyImageToClipboard));
    assert_eq!(map_key(KeyCode::KeyC, NONE, &ctx()), None);
    assert_eq!(map_key(KeyCode::KeyE, ALT, &ctx()), Some(InputAction::OpenInExplorer));
    assert_eq!(map_key(KeyCode::Slash, SHIFT, &ctx()), Some(InputAction::ToggleHelpOverlay));
    assert_eq!(map_key(KeyCode::Other, NONE, &ctx()), None);
}

#[test]
fn digits_adjust_colours_or_resize() {
    assert_eq!(
        map_key(KeyCode::Digit3, NONE, &ctx()),
        Some(InputAction::ColorAdjust { key: KeyCode::Digit3 })
    );
    assert_eq!(map_key(KeyCode::Digit3, ALT, &ctx()), None);
    assert_eq!(
        map_key(KeyCode::Digit0, ALT, &ctx()),
        Some(InputAction::ResizeWindow { width: 320, height: 240 })
    );
    assert_eq!(
        map_key(KeyCode::Digit1, ALT, &ctx()),
        Some(InputAction::ResizeWindow { width: 640, height: 480 })
    );
    assert_eq!(
        map_key(KeyCode::Digit2, ALT, &ctx()),
        Some(InputAction::ResizeWindow { width: 1280, height: 960 })
    );
    let tiny = InputContext { current_image_size: Some((1, 1)), ..ctx() };
    assert_eq!(
        map_key(KeyCode::Digit0, ALT, &tiny),
        Some(InputAction::ResizeWindow { width: 1, height: 1 })
    );
    let none = InputContext { current_image_size: None, ..ctx() };
    assert_eq!(map_key(KeyCode::Digit1, ALT, &none), None);
}

#[test]
fn clicks_and_double_clicks() {
    let mut p = PointerState::new();
    assert_eq!(p.press(MouseButton::Left, 1000), (true, None));
    assert_eq!(p.release(), (true, Some(InputAction::NextImage { steps: 1 })));
    assert_eq!(p.press(MouseButton::Left, 1200), (true, Some(InputAction::ToggleFullscreen)));
    assert_eq!(p.release(), (true, None));
    assert_eq!(p.press(MouseButton::Left, 5000), (true, None));
    p.begin_drag();
    assert_eq!(p.release(), (true, None));
    assert_eq!(p.press(MouseButton::Right, 6000), (true, Some(InputAction::PrevImage { steps: 1 })));
    assert_eq!(p.press(MouseButton::Other, 6000), (false, None));
}

#[test]
fn wheel_steps() {
    assert_eq!(map_wheel(WheelDirection::Up, NONE), (true, Some(InputAction::PrevImage { steps: 1 })));
    assert_eq!(map_wheel(WheelDirection::Down, SHIFT), (true, Some(InputAction::NextImage { steps: 10 })));
    assert_eq!(map_wheel(WheelDirection::Up, CTRL), (true, Some(InputAction::Zoom { zoom_in: true })));
    assert_eq!(map_wheel(WheelDirection::Still, NONE), (false, None));
}
