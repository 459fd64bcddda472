use sldshow2::overlay::{toggle_overlay, OverlayKind, OverlayState};

#[test]
fn toggle_overlay_enables_and_pushes() {
    let mut stack = Vec::new();
    let shown = toggle_overlay(&mut stack, OverlayKind::Help, false);
    assert!(shown);
    assert_eq!(stack, vec![OverlayKind::Help]);
}

#[test]
fn toggle_overlay_disables_and_removes() {
    let mut stack = vec![OverlayKind::Help];
    let shown = toggle_overlay(&mut stack, OverlayKind::Help, true);
    assert!(!shown);
    assert!(stack.is_empty());
}

#[test]
fn toggle_overlay_pushes_to_top_of_stack() {
    let mut stack = vec![OverlayKind::Settings];
    let shown = toggle_overlay(&mut stack, OverlayKind::Help, false);
    assert!(shown);
    assert_eq!(stack, vec![OverlayKind::Settings, OverlayKind::Help]);
}

#[test]
fn toggle_overlay_removes_duplicates_before_push() {
    let mut stack = vec![OverlayKind::Help, OverlayKind::Settings];
    let shown = toggle_overlay(&mut stack, OverlayKind::Help, false);
    assert!(shown);
    assert_eq!(stack, vec![OverlayKind::Settings, OverlayKind::Help]);
}

#[test]
fn overlay_toggle_twice_restores_panels() {
    let mut o = OverlayState::new(0);
    assert!(o.toggle_gallery());
    assert!(o.toggle_help_overlay());
    assert_eq!(o.front_overlay(), Some(OverlayKind::Help));
    assert!(!o.toggle_help_overlay());
    assert_eq!(o.front_overlay(), Some(OverlayKind::Gallery));
    assert!(!o.toggle_gallery());
    assert_eq!(o.front_overlay(), None);
    assert!(!o.is_shown(OverlayKind::Gallery));
}

#[test]
fn close_panel_takes_it_off_the_stack() {
    let mut o = OverlayState::new(0);
    o.toggle_settings();
    o.toggle_gallery();
    o.close_panel(OverlayKind::Settings);
    assert!(!o.is_shown(OverlayKind::Settings));
    assert_eq!(o.front_overlay(), Some(OverlayKind::Gallery));
}

#[test]
fn texts_are_kept_and_cleared() {
    let mut o = OverlayState::new(0);
    o.set_text("a.png [1/2]");
    o.set_osd_text("Paused");
    o.set_info_text("info");
    o.set_center_error("Failed to load:\nboom");
    assert_eq!(o.filename_text(), "a.png [1/2]");
    assert_eq!(o.osd_text(), "Paused");
    assert_eq!(o.info_text(), "info");
    assert_eq!(o.center_error_text(), "Failed to load:\nboom");
    o.clear_center_error();
    assert_eq!(o.center_error_text(), "");
}

#[test]
fn info_panel_toggle_and_controller_autohide() {
    let mut o = OverlayState::new(1000);
    assert!(!o.info_overlay_visible());
    assert!(o.toggle_info_overlay());
    assert!(o.info_overlay_visible());
    assert!(o.is_active());
    o.update_osc(3000);
    assert!(o.osc().visible);
    o.update_osc(3001);
    assert!(!o.osc().visible);
    o.update_osc_activity(4000);
    assert!(o.osc().visible);
    o.set_osc_hovering(true);
    o.update_osc(10_000);
    assert!(o.osc().visible);
}
