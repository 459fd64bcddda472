use sldshow2::config::TransitionMode;
use sldshow2::transition::{mode_from_index, random_mode, TRANSITION_MODE_COUNT};

#[test]
fn transition_mode_count_matches_config_max() {
    assert_eq!(TRANSITION_MODE_COUNT, TransitionMode::MAX + 1);
}

#[test]
fn random_mode_is_always_valid() {
    for _ in 0..500 {
        let m = random_mode();
        assert!(m.value() >= 0 && m.value() < TRANSITION_MODE_COUNT);
        assert_ne!(m.name(), "Unknown");
    }
}

#[test]
fn random_mode_is_not_constant() {
    let first = random_mode().value();
    assert!((0..500).any(|_| random_mode().value() != first));
}

#[test]
fn mode_from_index_keeps_the_index() {
    for k in 0..TRANSITION_MODE_COUNT {
        assert_eq!(mode_from_index(k).value(), k);
    }
}
