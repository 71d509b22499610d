use menu_ui::loading_screen::{LoadingScreen, ShaderCachingLoadingScreen};

#[test]
fn loading_screen_defaults() {
    let l = LoadingScreen::new();
    assert_eq!(l.in_progress_text, "Loading...");
    assert_eq!(l.complete_text, "Loading Complete!");
    assert!(!l.scene_loading_complete);
    assert_eq!(l.complete_visible_since_ms, 0);
}

#[test]
fn loading_screen_labels_and_close() {
    let mut l = LoadingScreen::new();
    l.reset(1000);
    assert_eq!(l.loading_start_time_ms, 1000);
    assert!(!l.on_loader_status(3));
    assert_eq!(l.frame_label(37, 1100), "Loading... (37%)");
    assert_eq!(l.complete_visible_since_ms, 0);
    assert!(!l.can_close_loading_screen(true, 250, 5000));
    assert!(l.on_loader_status(1));
    assert_eq!(l.frame_label(100, 2000), "Loading Complete! (100%)");
    assert_eq!(l.complete_visible_since_ms, 2000);
    assert_eq!(l.frame_label(100, 2100), "Loading Complete! (100%)");
    assert_eq!(l.complete_visible_since_ms, 2000);
    assert!(!l.can_close_loading_screen(true, 250, 2249));
    assert!(l.can_close_loading_screen(true, 250, 2250));
    assert!(!l.can_close_loading_screen(false, 250, 9000));
    l.reset(3000);
    assert!(!l.can_close_loading_screen(true, 0, 9000));
}

#[test]
fn loading_screen_status_without_loader() {
    let mut l = LoadingScreen::new();
    assert!(!l.on_loader_status(-1));
    assert!(!l.scene_loading_complete);
}

#[test]
fn shader_caching_defaults() {
    let s = ShaderCachingLoadingScreen::new();
    assert_eq!(s.matching_extensions, vec![".tres".to_string(), ".material".to_string(), ".res".to_string()]);
    assert_eq!(s.ignore_subfolders, vec![".".to_string(), "..".to_string()]);
    assert!(!s.should_query_shader_cache());
    assert!(!s.can_load_shader_cache(Some(true)));
}

#[test]
fn shader_caching_flow_with_cache() {
    let mut s = ShaderCachingLoadingScreen::new();
    s.spatial_shader_material_dir = "res://materials".to_string();
    s.cache_shaders_scene = "res://cache.tscn".to_string();
    assert!(s.should_query_shader_cache());
    assert!(s.can_load_shader_cache(Some(true)));
    assert!(!s.can_load_shader_cache(Some(false)));
    assert!(!s.can_load_shader_cache(None));
    assert!(!s.on_loader_status(0, true, true));
    assert_eq!(s.frame_label(20, 10), "Loading... (20%)");
    assert!(s.on_loader_status(1, true, true));
    assert!(s.loading_shader_cache);
    assert!(s.caching_complete);
    assert_eq!(s.frame_label(100, 500), "Loading Complete! (100%)");
    assert!(s.can_close_loading_screen(true, 250, 750));
    assert!(!s.can_close_loading_screen(true, 250, 600));
}

#[test]
fn shader_caching_flow_without_cache_or_loader() {
    let mut s = ShaderCachingLoadingScreen::new();
    assert!(s.on_loader_status(1, false, true));
    assert!(!s.loading_shader_cache);
    assert!(!s.caching_complete);
    let mut t = ShaderCachingLoadingScreen::new();
    assert!(!t.on_loader_status(1, false, false));
    assert!(t.scene_loading_complete);
    t.on_ready();
    assert_eq!(t.complete_visible_since_ms, 0);
}

#[test]
fn loading_screen_never_closes_before_loaded() {
    let mut l = LoadingScreen::new();
    l.reset(5);
    for (i, status) in [0i64, 2, -1, 3, 0].iter().enumerate() {
        l.on_loader_status(*status);
        l.frame_label(100, 1000 * (i as i64 + 1));
        assert!(!l.can_close_loading_screen(true, 0, 1_000_000));
    }
    assert_eq!(l.complete_visible_since_ms, 0);
}
