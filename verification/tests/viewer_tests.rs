use sldshow2::config::{FitMode, PlaybackMode, TransitionMode};
use sldshow2::image_loader::TextureManager;
use sldshow2::input::{InputAction, KeyCode};
use sldshow2::osc::OscAction;
use sldshow2::viewer::{
    adjusted_timer, Command, DropScan, TransitionSettings, ViewerSettings, ViewerState,
    WindowFacts, OSD_DURATION_MS,
};

fn settings(time_ms: u64) -> ViewerSettings {
    ViewerSettings {
        playback_mode: PlaybackMode::Slideshow,
        pause_at_last: false,
        shuffle: false,
        fit_mode: FitMode::Fit,
        fullscreen: false,
        always_on_top: false,
        timer_ms: 10_000,
        transition: TransitionSettings {
            time_ms,
            random: false,
            mode: TransitionMode::try_from(3).unwrap(),
        },
    }
}

fn viewer_with(paths: &[&str], s: ViewerSettings) -> ViewerState<u32> {
    let mut tm: TextureManager<u32> = TextureManager::new(2, (0, 0));
    tm.scan_paths(paths.iter().map(|p| p.to_string()).collect());
    ViewerState::new(tm, s, false, 0)
}

fn viewer(paths: &[&str]) -> ViewerState<u32> {
    viewer_with(paths, settings(500))
}

const FACTS: WindowFacts = WindowFacts {
    fullscreen: false,
    decorated: true,
    clipboard_busy: false,
};

fn osd(v: &ViewerState<u32>) -> Option<(String, u64)> {
    v.osd_message.clone()
}

#[test]
fn new_viewer_shows_first_image() {
    let v = viewer(&["a.png", "b.png"]);
    assert_eq!(v.current_texture_index, Some(0));
    assert!(v.transition.is_none());
    assert!(!v.slideshow.paused());
    let empty = viewer(&[]);
    assert_eq!(empty.current_texture_index, None);
}

#[test]
fn next_key_starts_a_transition() {
    let mut v = viewer(&["a.png", "b.png", "c.png"]);
    let cmd = v.execute_action(InputAction::NextImage { steps: 1 }, 100, FACTS);
    assert_eq!(cmd, Command::Nothing);
    assert_eq!(v.textures.current_index(), 1);
    let t = v.transition.unwrap();
    assert_eq!((t.from_index, t.to_index, t.mode, t.start_ms, t.duration_ms), (0, 1, 3, 100, 500));
    assert!(v.image_changed);
    assert_eq!(v.slideshow.base.last_tick_ms, 100);
    assert_eq!(v.current_texture_index, Some(0));
    v.finish_transition_if_due(599);
    assert!(v.transition.is_some());
    v.finish_transition_if_due(600);
    assert!(v.transition.is_none());
    assert_eq!(v.current_texture_index, Some(1));
}

#[test]
fn ten_steps_wrap_around() {
    let mut v = viewer(&["a", "b", "c"]);
    v.execute_action(InputAction::NextImage { steps: 10 }, 0, FACTS);
    assert_eq!(v.textures.current_index(), 1);
    let t = v.transition.unwrap();
    assert_eq!((t.from_index, t.to_index), (0, 1));
    v.execute_action(InputAction::PrevImage { steps: 10 }, 0, FACTS);
    assert_eq!(v.textures.current_index(), 0);
}

#[test]
fn pause_at_last_stops_at_the_end() {
    let mut s = settings(500);
    s.pause_at_last = true;
    let mut v = viewer_with(&["a", "b", "c"], s);
    v.execute_action(InputAction::NextImage { steps: 10 }, 0, FACTS);
    assert_eq!(v.textures.current_index(), 2);
    v.image_changed = false;
    v.execute_action(InputAction::NextImage { steps: 1 }, 0, FACTS);
    assert!(!v.image_changed);
    v.execute_action(InputAction::JumpTo(0), 0, FACTS);
    v.image_changed = false;
    v.execute_action(InputAction::PrevImage { steps: 1 }, 0, FACTS);
    assert_eq!(v.textures.current_index(), 0);
    assert!(!v.image_changed);
}

#[test]
fn sequences_and_zero_time_cut_without_transition() {
    let mut s = settings(500);
    s.playback_mode = PlaybackMode::Sequence;
    let mut v = viewer_with(&["a", "b"], s);
    v.execute_action(InputAction::NextImage { steps: 1 }, 0, FACTS);
    assert!(v.transition.is_none());
    assert_eq!(v.current_texture_index, Some(1));
    let mut v = viewer_with(&["a", "b"], settings(0));
    v.execute_action(InputAction::JumpTo(1), 0, FACTS);
    assert!(v.transition.is_none());
    assert_eq!(v.current_texture_index, Some(1));
}

#[test]
fn random_transitions_use_a_valid_mode() {
    let mut s = settings(500);
    s.transition.random = true;
    let mut v = viewer_with(&["a", "b"], s);
    for _ in 0..50 {
        v.execute_action(InputAction::NextImage { steps: 1 }, 0, FACTS);
        let m = v.transition.unwrap().mode;
        assert!((0..20).contains(&m));
    }
}

#[test]
fn pause_toggle_reports_on_osd() {
    let mut v = viewer(&["a"]);
    v.execute_action(InputAction::TogglePause, 1000, FACTS);
    assert!(v.slideshow.paused());
    assert_eq!(osd(&v), Some(("Paused".to_string(), 1000 + OSD_DURATION_MS)));
    v.execute_action(InputAction::TogglePause, 2000, FACTS);
    assert!(!v.slideshow.paused());
    assert_eq!(osd(&v).unwrap().0, "Resumed");
    let mut s = settings(0);
    s.playback_mode = PlaybackMode::Sequence;
    let mut v = viewer_with(&["a"], s);
    assert_eq!(v.execute_action(InputAction::TogglePause, 0, FACTS), Command::ToggleSequencePause);
    v.show_pause_state(true, 5);
    assert_eq!(osd(&v), Some(("Paused".to_string(), 5 + OSD_DURATION_MS)));
}

#[test]
fn timer_keys_step_by_whole_seconds() {
    assert_eq!(adjusted_timer(10_000, 1), 11_000);
    assert_eq!(adjusted_timer(10_000, -1), 9_000);
    assert_eq!(adjusted_timer(3_000, 1), 4_000);
    assert_eq!(adjusted_timer(5_000, -1), 4_000);
    assert_eq!(adjusted_timer(2_400, 1), 3_000);
    assert_eq!(adjusted_timer(2_500, 1), 4_000);
    assert_eq!(adjusted_timer(1_000, -1), 0);
    assert_eq!(adjusted_timer(30_000, -60), 0);
    assert_eq!(adjusted_timer(10_000, 60), 70_000);
}

#[test]
fn adjusting_the_timer_reports_the_new_value() {
    let mut v = viewer(&["a", "b"]);
    v.execute_action(InputAction::AdjustTimer(1), 0, FACTS);
    assert_eq!(v.slideshow.interval_ms, 11_000);
    assert_eq!(v.settings.timer_ms, 11_000);
    assert_eq!(osd(&v).unwrap().0, "Timer: 11.0s");
    let mut v = viewer(&["a"]);
    v.slideshow.set_duration(1_000, 0);
    v.execute_action(InputAction::AdjustTimer(-1), 0, FACTS);
    assert_eq!(osd(&v).unwrap().0, "Timer: 0.0s (Paused)");
    assert!(v.slideshow.paused());
    v.execute_action(InputAction::ResetTimer, 0, FACTS);
    assert_eq!(osd(&v).unwrap().0, "Timer Reset: 10.0s");
    assert!(!v.slideshow.paused());
    assert_eq!(v.slideshow.interval_ms, 10_000);
    v.set_timer_from_settings(2_500, 7);
    assert_eq!(osd(&v), Some(("Timer: 2.5s".to_string(), 7 + OSD_DURATION_MS)));
    assert_eq!(v.slideshow.interval_ms, 2_500);
}

#[test]
fn window_actions_hand_back_commands() {
    let mut v = viewer(&["a"]);
    assert_eq!(v.execute_action(InputAction::ToggleFullscreen, 0, FACTS), Command::ApplyFullscreen(true));
    assert!(v.settings.fullscreen);
    assert_eq!(osd(&v).unwrap().0, "Fullscreen: ON");
    assert_eq!(v.execute_action(InputAction::SetFullscreen(false), 0, FACTS), Command::ApplyFullscreen(false));
    assert_eq!(osd(&v).unwrap().0, "Fullscreen: OFF");
    assert_eq!(v.execute_action(InputAction::ToggleDecorations, 0, FACTS), Command::ApplyDecorations(false));
    assert_eq!(osd(&v).unwrap().0, "Decorations: OFF");
    assert_eq!(v.execute_action(InputAction::ToggleAlwaysOnTop, 0, FACTS), Command::ApplyAlwaysOnTop(true));
    assert_eq!(osd(&v).unwrap().0, "Always On Top: ON");
    assert_eq!(
        v.execute_action(InputAction::ResizeWindow { width: 800, height: 600 }, 0, FACTS),
        Command::ResizeWindow { width: 800, height: 600 }
    );
    assert_eq!(osd(&v).unwrap().0, "Resize: 800x600");
    assert_eq!(
        v.execute_action(InputAction::SetWindowPosition { x: -5, y: 7 }, 0, FACTS),
        Command::MoveWindow { x: -5, y: 7 }
    );
    assert_eq!(v.execute_action(InputAction::Exit, 0, FACTS), Command::Exit);
}

#[test]
fn display_toggles_report_their_state() {
    let mut v = viewer(&["a"]);
    v.execute_action(InputAction::ToggleLoop, 0, FACTS);
    assert!(v.settings.pause_at_last);
    assert_eq!(osd(&v).unwrap().0, "Loop: OFF");
    v.execute_action(InputAction::ToggleLoop, 0, FACTS);
    assert_eq!(osd(&v).unwrap().0, "Loop: ON");
    v.execute_action(InputAction::ToggleFitMode, 0, FACTS);
    assert_eq!(v.settings.fit_mode, FitMode::AmbientFit);
    assert_eq!(osd(&v).unwrap().0, "Fit: Ambient");
    v.execute_action(InputAction::ToggleFitMode, 0, FACTS);
    assert_eq!(osd(&v).unwrap().0, "Fit: Normal");
    v.execute_action(InputAction::ToggleFilenameDisplay, 0, FACTS);
    assert!(v.show_filename_text);
    assert_eq!(osd(&v).unwrap().0, "Filename: ON");
    v.execute_action(InputAction::ShowFilenameTemporary, 0, FACTS);
    assert_eq!(v.filename_bar_temp_expiry, None);
    v.execute_action(InputAction::ToggleFilenameDisplay, 0, FACTS);
    v.execute_action(InputAction::ShowFilenameTemporary, 100, FACTS);
    assert_eq!(v.filename_bar_temp_expiry, Some(1600));
    v.expire_temporary(1599);
    assert_eq!(v.filename_bar_temp_expiry, Some(1600));
    v.expire_temporary(1600);
    assert_eq!(v.filename_bar_temp_expiry, None);
    assert_eq!(v.execute_action(InputAction::ResetZoom, 0, FACTS), Command::ResetZoom);
    assert_eq!(osd(&v).unwrap().0, "Zoom: Reset");
    assert_eq!(v.execute_action(InputAction::ResetColorAdjustments, 0, FACTS), Command::ResetColors);
    assert_eq!(osd(&v).unwrap().0, "Color Reset");
    assert_eq!(
        v.execute_action(InputAction::ColorAdjust { key: KeyCode::Digit3 }, 0, FACTS),
        Command::AdjustColor(KeyCode::Digit3)
    );
    v.execute_action(InputAction::Screenshot, 0, FACTS);
    assert!(v.screenshot_requested);
}

#[test]
fn info_overlay_toggle_and_temporary_info() {
    let mut v = viewer(&["a"]);
    assert_eq!(v.execute_action(InputAction::ShowInfoTemporary, 0, FACTS), Command::BuildTemporaryInfo);
    v.show_info_temporarily("a\n1x1 PNG\n1 B", 10);
    assert_eq!(v.overlay.info_text(), "a\n1x1 PNG\n1 B");
    assert_eq!(v.info_temp_expiry, Some(1510));
    v.execute_action(InputAction::ToggleInfoOverlay, 20, FACTS);
    assert!(v.overlay.info_overlay_visible());
    assert_eq!(v.info_temp_expiry, None);
    assert_eq!(osd(&v).unwrap().0, "Info: ON");
    assert_eq!(v.execute_action(InputAction::ShowInfoTemporary, 0, FACTS), Command::Nothing);
    assert!(v.needs_info_text());
    v.execute_action(InputAction::ToggleInfoOverlay, 30, FACTS);
    assert_eq!(v.overlay.info_text(), "");
    assert_eq!(osd(&v).unwrap().0, "Info: OFF");
}

#[test]
fn clipboard_and_explorer_actions() {
    let mut empty = viewer(&[]);
    assert_eq!(empty.execute_action(InputAction::CopyImageToClipboard, 0, FACTS), Command::Nothing);
    assert_eq!(osd(&empty).unwrap().0, "No Image Loaded");
    assert_eq!(empty.execute_action(InputAction::OpenInExplorer, 0, FACTS), Command::Nothing);
    assert_eq!(osd(&empty).unwrap().0, "No image loaded");
    assert_eq!(empty.execute_action(InputAction::CopyPathToClipboard, 0, FACTS), Command::Nothing);
    let mut v = viewer(&["a"]);
    let busy = WindowFacts { clipboard_busy: true, ..FACTS };
    assert_eq!(v.execute_action(InputAction::CopyImageToClipboard, 0, busy), Command::Nothing);
    assert_eq!(osd(&v).unwrap().0, "Copying...");
    assert_eq!(v.execute_action(InputAction::CopyImageToClipboard, 0, FACTS), Command::StartImageCopy);
    assert_eq!(osd(&v).unwrap().0, "Copying to Clipboard...");
    assert_eq!(v.execute_action(InputAction::CopyPathToClipboard, 0, FACTS), Command::CopyPath);
    assert_eq!(v.execute_action(InputAction::OpenInExplorer, 0, FACTS), Command::OpenInExplorer);
}

#[test]
fn panels_toggle_through_actions() {
    let mut v = viewer(&["a"]);
    v.execute_action(InputAction::ToggleGallery, 0, FACTS);
    v.execute_action(InputAction::ToggleHelpOverlay, 0, FACTS);
    assert_eq!(v.overlay.front_overlay(), Some(sldshow2::overlay::OverlayKind::Help));
    v.execute_action(InputAction::ToggleSettings, 0, FACTS);
    assert_eq!(v.overlay.front_overlay(), Some(sldshow2::overlay::OverlayKind::Settings));
    assert!(v.is_animating(false, false));
}

#[test]
fn refresh_texts_fills_the_overlay() {
    let mut v = viewer(&["/p/a.png", "/p/b.png", "/p/c.png"]);
    v.execute_action(InputAction::JumpTo(1), 0, FACTS);
    v.refresh_texts(0);
    assert_eq!(v.overlay.filename_text(), "");
    v.show_filename_text = true;
    v.show_osd("hello".to_string(), 0);
    v.refresh_texts(OSD_DURATION_MS);
    assert_eq!(v.overlay.filename_text(), "b.png [2/3]");
    assert_eq!(v.overlay.osd_text(), "hello");
    v.refresh_texts(OSD_DURATION_MS + 1);
    assert_eq!(v.overlay.osd_text(), "");
    assert!(v.osd_message.is_none());
    let epoch = v.textures.plan_loads()[0].epoch;
    v.textures.complete_load(epoch, 1, Err("corrupt".to_string()));
    v.refresh_texts(0);
    assert_eq!(v.overlay.center_error_text(), "Failed to load:\ncorrupt");
    let mut empty = viewer(&[]);
    empty.refresh_texts(0);
    assert_eq!(empty.overlay.filename_text(), "No images found in path");
    assert_eq!(empty.overlay.center_error_text(), "");
}

#[test]
fn cached_info_is_shown_while_the_panel_is_open() {
    let mut v = viewer(&["a.png"]);
    v.execute_action(InputAction::ToggleInfoOverlay, 0, FACTS);
    assert!(v.needs_info_text());
    v.cached_info = Some("info".to_string());
    v.refresh_texts(0);
    assert_eq!(v.overlay.info_text(), "info");
    v.execute_action(InputAction::NextImage { steps: 1 }, 0, FACTS);
    assert!(v.cached_info.is_none());
}

#[test]
fn drops_replace_or_append_and_report() {
    let mut v = viewer(&["a"]);
    v.apply_drop(1, DropScan::Found(vec!["x".to_string(), "y".to_string()]), false, 10);
    assert_eq!(v.textures.paths(), &vec!["x".to_string(), "y".to_string()]);
    assert_eq!(v.current_texture_index, Some(0));
    assert_eq!(osd(&v).unwrap().0, "Loaded 2 images (1 non-UTF-8 path(s) rejected)");
    v.execute_action(InputAction::NextImage { steps: 1 }, 0, FACTS);
    v.apply_drop(0, DropScan::Found(vec!["z".to_string()]), true, 10);
    assert_eq!(v.textures.len(), 3);
    assert_eq!(v.textures.current_index(), 1);
    assert_eq!(osd(&v).unwrap().0, "Appended 1 images");
    v.apply_drop(2, DropScan::Failed, false, 10);
    assert_eq!(osd(&v).unwrap().0, "No supported images found (2 non-UTF-8 path(s) rejected)");
    v.apply_drop(3, DropScan::NoPaths, false, 10);
    assert_eq!(osd(&v).unwrap().0, "Rejected 3 non-UTF-8 path(s)");
    v.osd_message = None;
    v.apply_drop(0, DropScan::NoPaths, false, 10);
    assert!(v.osd_message.is_none());
    v.apply_drop(0, DropScan::Found(Vec::new()), false, 10);
    assert_eq!(v.current_texture_index, None);
    assert_eq!(osd(&v).unwrap().0, "Loaded 0 images");
}

#[test]
fn shuffled_drops_are_permutations() {
    let mut s = settings(500);
    s.shuffle = true;
    let mut v = viewer_with(&[], s);
    let found: Vec<String> = (0..20).map(|i| format!("{i:02}")).collect();
    v.apply_drop(0, DropScan::Found(found.clone()), false, 0);
    let mut got = v.textures.paths().clone();
    got.sort();
    assert_eq!(got, found);
}

#[test]
fn osc_buttons() {
    let mut v = viewer(&["a", "b", "c"]);
    v.execute_osc_action(OscAction::Next, 0, FACTS);
    assert_eq!(v.textures.current_index(), 1);
    v.execute_osc_action(OscAction::Previous, 0, FACTS);
    v.execute_osc_action(OscAction::Previous, 0, FACTS);
    assert_eq!(v.textures.current_index(), 2);
    v.execute_osc_action(OscAction::Seek(0), 0, FACTS);
    assert_eq!(v.textures.current_index(), 0);
    v.execute_osc_action(OscAction::ToggleShuffle, 0, FACTS);
    assert!(v.settings.shuffle);
    assert_eq!(osd(&v).unwrap().0, "Shuffle: ON");
    assert_eq!(v.textures.current_path().map(|s| s.as_str()), Some("a"));
    assert!(v.transition.is_none());
    v.execute_osc_action(OscAction::PlayPause, 0, FACTS);
    assert!(v.slideshow.paused());
    v.execute_osc_action(OscAction::OpenSettings, 0, FACTS);
    assert!(v.overlay.is_shown(sldshow2::overlay::OverlayKind::Settings));
    v.set_shuffle(false);
    assert_eq!(v.textures.paths(), &vec!["a".to_string(), "b".to_string(), "c".to_string()]);
    assert_eq!(v.current_texture_index, Some(0));
}

#[test]
fn slideshow_ticks_advance_after_the_interval() {
    let mut v = viewer(&["a", "b"]);
    assert!(v.auto_advance_due());
    assert!(!v.slideshow_tick(9_999));
    assert!(v.slideshow_tick(10_000));
    assert_eq!(v.textures.current_index(), 1);
    assert!(!v.auto_advance_due());
    v.finish_transition_if_due(10_500);
    assert!(v.auto_advance_due());
    assert!(v.step_forward(3, 11_000));
    assert_eq!(v.textures.current_index(), 0);
}

#[test]
fn is_animating_reflects_running_things() {
    let mut s = settings(500);
    s.timer_ms = 0;
    let mut v = viewer_with(&["a"], s);
    v.overlay.update_osc(10_000);
    assert!(!v.is_animating(false, false));
    assert!(v.is_animating(false, true));
    assert!(!v.is_animating(true, false));
    v.settings.playback_mode = PlaybackMode::Sequence;
    assert!(v.is_animating(true, false));
    v.settings.playback_mode = PlaybackMode::Slideshow;
    v.show_osd("x".to_string(), 0);
    assert!(v.is_animating(false, false));
}

#[test]
fn toggle_keys_twice_restore_settings() {
    let mut v = viewer(&["a", "b"]);
    let before = v.settings;
    for a in [InputAction::ToggleLoop, InputAction::ToggleFitMode, InputAction::ToggleAlwaysOnTop] {
        v.execute_action(a, 0, FACTS);
        assert_ne!(v.settings, before);
        v.execute_action(a, 0, FACTS);
        assert_eq!(v.settings, before);
    }
}

#[test]
fn closing_a_panel_takes_it_off_the_stack_and_leaves_the_others() {
    let mut v = viewer(&["a"]);
    v.execute_action(InputAction::ToggleGallery, 0, FACTS);
    v.execute_action(InputAction::ToggleHelpOverlay, 0, FACTS);
    v.execute_action(InputAction::ToggleHelpOverlay, 0, FACTS);
    assert!(!v.overlay.is_shown(sldshow2::overlay::OverlayKind::Help));
    assert!(v.overlay.is_shown(sldshow2::overlay::OverlayKind::Gallery));
    assert!(!v.overlay.is_shown(sldshow2::overlay::OverlayKind::Settings));
    assert!(!v.overlay.info_overlay_visible());
    assert_eq!(v.overlay.front_overlay(), Some(sldshow2::overlay::OverlayKind::Gallery));
}

#[test]
fn appending_keeps_the_shown_image_and_the_transition() {
    let mut v = viewer_with(&["a", "b", "c"], settings(500));
    v.execute_action(InputAction::NextImage { steps: 1 }, 100, FACTS);
    let transition = v.transition;
    let shown = v.current_texture_index;
    let slideshow_tick = v.slideshow.base.last_tick_ms;
    assert!(transition.is_some());
    v.apply_drop(0, DropScan::Found(vec!["d".to_string()]), true, 200);
    assert_eq!(v.textures.current_index(), 1);
    assert_eq!(v.transition, transition);
    assert_eq!(v.current_texture_index, shown);
    assert_eq!(v.slideshow.base.last_tick_ms, slideshow_tick);
}

#[test]
fn refreshing_texts_changes_nothing_else() {
    let mut v = viewer(&["a", "b"]);
    v.refresh_texts(5);
    assert!(!v.image_changed);
    assert!(!v.screenshot_requested);
    assert!(!v.bind_group_stale);
    assert_eq!(v.textures.current_index(), 0);
}
