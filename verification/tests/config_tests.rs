use sldshow2::config::{
    validate_cache_extent, ConfigError, FilterMode, FitMode, PlaybackMode, TransitionMode,
    ValidationIssue, WindowConfig, CACHE_EXTENT_MAX, TRANSITION_MODE_MAX, TRANSITION_MODE_MIN,
};

#[test]
fn test_transition_mode_valid_range() {
    assert!(TransitionMode::try_from(0).is_ok());
    assert!(TransitionMode::try_from(19).is_ok());
    assert!(TransitionMode::try_from(10).is_ok());
}

#[test]
fn test_transition_mode_invalid_range() {
    assert!(TransitionMode::try_from(-1).is_err());
    assert!(TransitionMode::try_from(20).is_err());
    assert!(TransitionMode::try_from(100).is_err());
}

#[test]
fn test_transition_mode_roundtrip() {
    let m = TransitionMode::try_from(7).expect("7 is within 0..=19");
    assert_eq!(i32::from(m), 7);
    assert_eq!(m.value(), 7);
}

#[test]
fn test_fitmode_toggle() {
    let mut mode = FitMode::Fit;
    mode.toggle();
    assert_eq!(mode, FitMode::AmbientFit);
    mode.toggle();
    assert_eq!(mode, FitMode::Fit);
}

#[test]
fn test_fitmode_uniform_values() {
    assert_eq!(FitMode::Fit.to_uniform_value(), 0);
    assert_eq!(FitMode::AmbientFit.to_uniform_value(), 1);
}

#[test]
fn test_transition_mode_all_names_known() {
    for i in TransitionMode::MIN..=TransitionMode::MAX {
        let mode = TransitionMode::try_from(i).expect("i is within MIN..=MAX");
        assert_ne!(
            mode.name(),
            "Unknown",
            "TransitionMode({i}) returned Unknown — update name() to match"
        );
    }
}

#[test]
fn test_window_config_defaults() {
    let w = WindowConfig::default();
    assert_eq!(w.width, 1280);
    assert_eq!(w.height, 720);
    assert!(!w.fullscreen);
    assert!(!w.always_on_top);
    assert!(w.decorations);
}

#[test]
fn transition_mode_error_carries_the_rejected_value() {
    assert_eq!(
        TransitionMode::try_from(99).unwrap_err(),
        ConfigError::InvalidTransitionMode(99)
    );
    assert_eq!(
        TransitionMode::try_from(-3).unwrap_err(),
        ConfigError::InvalidTransitionMode(-3)
    );
}

#[test]
fn transition_mode_bounds_and_default() {
    assert_eq!(TRANSITION_MODE_MIN, 0);
    assert_eq!(TRANSITION_MODE_MAX, 19);
    assert_eq!(TransitionMode::default().value(), 0);
    assert_eq!(TransitionMode::default().name(), "Crossfade");
}

#[test]
fn transition_mode_names_match_indices() {
    let name = |i: i32| TransitionMode::try_from(i).unwrap().name();
    assert_eq!(name(0), "Crossfade");
    assert_eq!(name(1), "Smooth Crossfade");
    assert_eq!(name(9), "Roll from Bottom-Right");
    assert_eq!(name(12), "Blinds H Open");
    assert_eq!(name(18), "Random Squares");
    assert_eq!(name(19), "Angular Wipe");
}

#[test]
fn fit_toggle_twice_is_identity() {
    for start in [FitMode::Fit, FitMode::AmbientFit] {
        let mut m = start;
        m.toggle();
        assert_ne!(m, start);
        m.toggle();
        assert_eq!(m, start);
    }
}

#[test]
fn filter_mode_default_is_linear() {
    assert_eq!(FilterMode::default_mode(), FilterMode::Linear);
}

#[test]
fn default_window_config_validates() {
    assert!(WindowConfig::default().validate().is_ok());
}

#[test]
fn window_config_validation_lists_every_issue() {
    let mut w = WindowConfig::default();
    w.width = 100;
    w.height = 5000;
    let issues = w.validate().unwrap_err();
    assert_eq!(issues.len(), 2);
    assert!(matches!(issues[0], ValidationIssue::WindowWidth(100)));
    assert!(matches!(issues[1], ValidationIssue::WindowHeight(5000)));
}

#[test]
fn window_config_validation_bounds_are_inclusive() {
    let mut w = WindowConfig::default();
    w.width = 320;
    w.height = 240;
    assert!(w.validate().is_ok());
    w.width = 7680;
    w.height = 4320;
    assert!(w.validate().is_ok());
    w.width = 7681;
    assert!(w.validate().is_err());
}

#[test]
fn cache_extent_validation() {
    assert!(validate_cache_extent(1).is_ok());
    assert!(validate_cache_extent(CACHE_EXTENT_MAX).is_ok());
    assert!(matches!(
        validate_cache_extent(0),
        Err(ValidationIssue::CacheExtent(0))
    ));
    assert!(validate_cache_extent(CACHE_EXTENT_MAX + 1).is_err());
}

#[test]
fn playback_modes_differ() {
    assert_ne!(PlaybackMode::Slideshow, PlaybackMode::Sequence);
}
