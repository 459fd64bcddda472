use sldshow2::image_loader::{mip_level_count, window_indices, TextureManager, MAX_CONCURRENT_TASKS};

fn make_manager(paths: &[&str]) -> TextureManager<u32> {
    let mut mgr = TextureManager::new(2, (1920, 1080));
    mgr.scan_paths(paths.iter().map(|s| s.to_string()).collect());
    mgr
}

fn at(paths: &[&str], index: usize) -> TextureManager<u32> {
    let mut mgr = make_manager(paths);
    mgr.jump_to(index);
    mgr
}

// --- copies of the navigation tests of the image loader module ---

#[test]
fn mod_next_advances_index() {
    let mut mgr = make_manager(&["a.jpg", "b.jpg", "c.jpg"]);
    assert!(mgr.next(false));
    assert_eq!(mgr.current_index(), 1);
}

#[test]
fn mod_next_wraps_to_start_when_not_pause_at_last() {
    let mut mgr = at(&["a.jpg", "b.jpg"], 1);
    assert!(mgr.next(false));
    assert_eq!(mgr.current_index(), 0);
}

#[test]
fn mod_next_returns_false_and_stays_at_last_when_pause_at_last() {
    let mut mgr = at(&["a.jpg", "b.jpg"], 1);
    assert!(!mgr.next(true));
    assert_eq!(mgr.current_index(), 1);
}

#[test]
fn mod_next_returns_false_on_empty() {
    let mut mgr: TextureManager<u32> = TextureManager::new(2, (1920, 1080));
    assert!(!mgr.next(false));
}

#[test]
fn mod_previous_decrements_index() {
    let mut mgr = at(&["a.jpg", "b.jpg", "c.jpg"], 2);
    assert!(mgr.previous(false));
    assert_eq!(mgr.current_index(), 1);
}

#[test]
fn mod_previous_wraps_to_last() {
    let mut mgr = at(&["a.jpg", "b.jpg", "c.jpg"], 0);
    assert!(mgr.previous(false));
    assert_eq!(mgr.current_index(), 2);
}

#[test]
fn mod_previous_returns_false_and_stays_at_first_when_pause_at_last() {
    let mut mgr = at(&["a.jpg", "b.jpg", "c.jpg"], 0);
    assert!(!mgr.previous(true));
    assert_eq!(mgr.current_index(), 0);
}

#[test]
fn mod_previous_returns_false_on_empty() {
    let mut mgr: TextureManager<u32> = TextureManager::new(2, (1920, 1080));
    assert!(!mgr.previous(false));
}

#[test]
fn mod_jump_to_valid_index() {
    let mut mgr = make_manager(&["a.jpg", "b.jpg", "c.jpg"]);
    mgr.jump_to(2);
    assert_eq!(mgr.current_index(), 2);
}

#[test]
fn mod_jump_to_out_of_bounds_is_ignored() {
    let mut mgr = make_manager(&["a.jpg", "b.jpg"]);
    mgr.jump_to(99);
    assert_eq!(mgr.current_index(), 0);
}

#[test]
fn mod_replace_paths_resets_to_index_zero() {
    let mut mgr = at(&["a.jpg", "b.jpg"], 1);
    mgr.replace_paths(vec!["c.jpg".to_string()]);
    assert_eq!(mgr.current_index(), 0);
    assert_eq!(mgr.paths().len(), 1);
    assert_eq!(mgr.texture_count(), 0);
}

#[test]
fn mod_append_paths_extends_list_and_preserves_index() {
    let mut mgr = make_manager(&["a.jpg"]);
    mgr.append_paths(vec!["b.jpg".to_string(), "c.jpg".to_string()]);
    assert_eq!(mgr.paths().len(), 3);
    assert_eq!(mgr.current_index(), 0);
}

#[test]
fn mod_append_paths_to_empty_behaves_like_replace() {
    let mut mgr: TextureManager<u32> = TextureManager::new(2, (1920, 1080));
    mgr.append_paths(vec!["a.jpg".to_string(), "b.jpg".to_string()]);
    assert_eq!(mgr.paths().len(), 2);
    assert_eq!(mgr.current_index(), 0);
}

// --- copies of the navigation tests of the older image loader file ---

#[test]
fn image_loader_next_advances_index() {
    let mut mgr = make_manager(&["a.jpg", "b.jpg", "c.jpg"]);
    assert!(mgr.next(false));
    assert_eq!(mgr.current_index(), 1);
}

#[test]
fn image_loader_next_wraps_to_start_when_not_pause_at_last() {
    let mut mgr = at(&["a.jpg", "b.jpg"], 1);
    assert!(mgr.next(false));
    assert_eq!(mgr.current_index(), 0);
}

#[test]
fn image_loader_next_returns_false_and_stays_at_last_when_pause_at_last() {
    let mut mgr = at(&["a.jpg", "b.jpg"], 1);
    assert!(!mgr.next(true));
    assert_eq!(mgr.current_index(), 1);
}

#[test]
fn image_loader_next_returns_false_on_empty() {
    let mut mgr: TextureManager<u32> = TextureManager::new(2, (1920, 1080));
    assert!(!mgr.next(false));
}

#[test]
fn image_loader_previous_decrements_index() {
    let mut mgr = at(&["a.jpg", "b.jpg", "c.jpg"], 2);
    assert!(mgr.previous(false));
    assert_eq!(mgr.current_index(), 1);
}

#[test]
fn image_loader_previous_wraps_to_last() {
    let mut mgr = at(&["a.jpg", "b.jpg", "c.jpg"], 0);
    assert!(mgr.previous(false));
    assert_eq!(mgr.current_index(), 2);
}

#[test]
fn image_loader_previous_returns_false_and_stays_at_first_when_pause_at_last() {
    let mut mgr = at(&["a.jpg", "b.jpg", "c.jpg"], 0);
    assert!(!mgr.previous(true));
    assert_eq!(mgr.current_index(), 0);
}

#[test]
fn image_loader_previous_returns_false_on_empty() {
    let mut mgr: TextureManager<u32> = TextureManager::new(2, (1920, 1080));
    assert!(!mgr.previous(false));
}

#[test]
fn image_loader_jump_to_valid_index() {
    let mut mgr = make_manager(&["a.jpg", "b.jpg", "c.jpg"]);
    mgr.jump_to(2);
    assert_eq!(mgr.current_index(), 2);
}

#[test]
fn image_loader_jump_to_out_of_bounds_is_ignored() {
    let mut mgr = make_manager(&["a.jpg", "b.jpg"]);
    mgr.jump_to(99);
    assert_eq!(mgr.current_index(), 0);
}

#[test]
fn image_loader_replace_paths_resets_to_index_zero() {
    let mut mgr = at(&["a.jpg", "b.jpg"], 1);
    mgr.replace_paths(vec!["c.jpg".to_string()]);
    assert_eq!(mgr.current_index(), 0);
    assert_eq!(mgr.paths().len(), 1);
    assert_eq!(mgr.texture_count(), 0);
}

#[test]
fn image_loader_append_paths_extends_list_and_preserves_index() {
    let mut mgr = make_manager(&["a.jpg"]);
    mgr.append_paths(vec!["b.jpg".to_string(), "c.jpg".to_string()]);
    assert_eq!(mgr.paths().len(), 3);
    assert_eq!(mgr.current_index(), 0);
}

#[test]
fn image_loader_append_paths_to_empty_behaves_like_replace() {
    let mut mgr: TextureManager<u32> = TextureManager::new(2, (1920, 1080));
    mgr.append_paths(vec!["a.jpg".to_string(), "b.jpg".to_string()]);
    assert_eq!(mgr.paths().len(), 2);
    assert_eq!(mgr.current_index(), 0);
}

// --- mip levels ---

#[test]
fn decode_mip_level_count_1x1() {
    assert_eq!(mip_level_count(1, 1), 1);
}

#[test]
fn decode_mip_level_count_1024x1024() {
    assert_eq!(mip_level_count(1024, 1024), 11);
}

#[test]
fn decode_mip_level_count_non_square_uses_max_dim() {
    assert_eq!(mip_level_count(1920, 1080), 11);
}

#[test]
fn image_loader_mip_level_count_1x1() {
    assert_eq!(mip_level_count(1, 1), 1);
}

#[test]
fn image_loader_mip_level_count_1024x1024() {
    assert_eq!(mip_level_count(1024, 1024), 11);
}

#[test]
fn image_loader_mip_level_count_non_square_uses_max_dim() {
    assert_eq!(mip_level_count(1920, 1080), 11);
}

#[test]
fn mip_level_count_edges() {
    assert_eq!(mip_level_count(0, 0), 1);
    assert_eq!(mip_level_count(2, 1), 2);
    assert_eq!(mip_level_count(1023, 1), 10);
    assert_eq!(mip_level_count(u32::MAX, 3), 32);
}

// --- own tests ---

#[test]
fn next_then_previous_returns_with_wraparound() {
    for start in 0..3 {
        let mut mgr = at(&["a.jpg", "b.jpg", "c.jpg"], start);
        mgr.next(false);
        mgr.previous(false);
        assert_eq!(mgr.current_index(), start);
    }
}

#[test]
fn window_indices_nearest_first() {
    assert_eq!(window_indices(0, 5, 1), vec![0, 1, 4]);
    assert_eq!(window_indices(2, 5, 2), vec![2, 3, 1, 4, 0]);
    assert_eq!(window_indices(0, 1, 3), vec![0]);
}

#[test]
fn plan_loads_requests_window_nearest_first_up_to_limit() {
    let mut mgr = make_manager(&["a", "b", "c", "d", "e", "f", "g", "h"]);
    let reqs = mgr.plan_loads();
    let idx: Vec<usize> = reqs.iter().map(|r| r.index).collect();
    assert_eq!(idx, vec![0, 1, 7, 2]);
    assert_eq!(reqs.len(), MAX_CONCURRENT_TASKS);
    assert_eq!(reqs[0].path, "a");
    assert_eq!(reqs[0].max_size, (1920, 1080));
    assert!(mgr.is_loading());
    assert_eq!(mgr.loading_count(), 4);
    assert!(mgr.plan_loads().is_empty());
}

#[test]
fn completed_loads_are_cached_and_stale_results_ignored() {
    let mut mgr = make_manager(&["a", "b", "c"]);
    let reqs = mgr.plan_loads();
    let epoch = reqs[0].epoch;
    mgr.complete_load(epoch, 0, Ok(7));
    mgr.complete_load(epoch, 1, Err("bad file".to_string()));
    assert_eq!(mgr.get_texture(0), Some(&7));
    assert_eq!(mgr.get_current_texture(), Some(&7));
    assert_eq!(mgr.get_error(1).map(|s| s.as_str()), Some("bad file"));
    assert!(!mgr.accepts_epoch(epoch + 1));
    mgr.complete_load(epoch + 1, 2, Ok(9));
    assert_eq!(mgr.get_texture(2), None);
}

#[test]
fn replacing_the_list_ignores_loads_of_the_old_list() {
    let mut mgr = make_manager(&["a", "b"]);
    let reqs = mgr.plan_loads();
    let old_epoch = reqs[0].epoch;
    mgr.replace_paths(vec!["x".to_string()]);
    assert!(!mgr.accepts_epoch(old_epoch));
    mgr.complete_load(old_epoch, 0, Ok(1));
    assert_eq!(mgr.texture_count(), 0);
}

#[test]
fn shuffle_off_restores_scan_order_and_keeps_current_image() {
    let mut mgr = at(&["a", "b", "c", "d"], 2);
    let idx = mgr.set_shuffle_enabled(true);
    assert_eq!(mgr.paths()[idx], "c");
    assert_eq!(mgr.current_path().map(|s| s.as_str()), Some("c"));
    let idx = mgr.set_shuffle_enabled(false);
    assert_eq!(idx, 2);
    assert_eq!(mgr.paths(), &vec!["a".to_string(), "b".to_string(), "c".to_string(), "d".to_string()]);
}

#[test]
fn shuffle_paths_is_a_permutation() {
    let mut mgr = make_manager(&["a", "b", "c", "d", "e"]);
    mgr.shuffle_paths();
    let mut p = mgr.paths().clone();
    p.sort();
    assert_eq!(p, vec!["a", "b", "c", "d", "e"]);
}

#[test]
fn settings_getters() {
    let mut mgr: TextureManager<u32> = TextureManager::new(3, (640, 480));
    assert_eq!(mgr.cache_extent(), 3);
    assert_eq!(mgr.max_texture_size(), (640, 480));
    assert!(!mgr.is_hdr());
    mgr.set_hdr(true);
    assert!(mgr.is_hdr());
    assert_eq!(mgr.len(), 0);
    assert!(mgr.current_path().is_none());
}

#[test]
fn a_missing_current_image_gets_the_first_free_slot() {
    let mut mgr = make_manager(&["a", "b", "c", "d", "e", "f", "g", "h"]);
    let reqs = mgr.plan_loads();
    let epoch = reqs[0].epoch;
    for r in &reqs {
        mgr.complete_load(epoch, r.index, Ok(r.index as u32));
    }
    // Move to an image that is not cached: it is asked for first, then the
    // missing neighbours in window order (2 and 1 are cached already).
    mgr.jump_to(3);
    let idx: Vec<usize> = mgr.plan_loads().iter().map(|r| r.index).collect();
    assert_eq!(idx, vec![3, 4, 5]);
}
