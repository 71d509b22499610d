use menu_ui::pause_menu::{close_window, get_main_menu_scene_path, on_open_window_hidden, pause_layer_shows_menu, pause_load_scene, pause_menu_buttons, show_window, CloseWindowAction};

#[test]
fn pause_layer_shows_menu_when_visible() {
    assert!(pause_layer_shows_menu(true, true));
    assert!(!pause_layer_shows_menu(false, true));
    assert!(!pause_layer_shows_menu(true, false));
}

#[test]
fn close_window_prefers_close_method() {
    assert_eq!(close_window(false, true), CloseWindowAction::Nothing);
    assert_eq!(close_window(true, true), CloseWindowAction::CallClose);
    assert_eq!(close_window(true, false), CloseWindowAction::Hide);
}

#[test]
fn window_round_trip_frees_marked_windows() {
    let shown = show_window(true);
    assert_eq!(shown.buttons_focus_mode, 0);
    let hidden = on_open_window_hidden(true, shown.queue_free_on_hidden);
    assert!(hidden.clear_open_window && hidden.queue_free);
    assert_eq!(hidden.buttons_focus_mode, 2);
    let kept = on_open_window_hidden(true, show_window(false).queue_free_on_hidden);
    assert!(!kept.queue_free);
    let none = on_open_window_hidden(false, true);
    assert!(!none.clear_open_window && !none.queue_free);
    assert_eq!(none.buttons_focus_mode, 2);
}

#[test]
fn pause_main_menu_path() {
    assert_eq!(get_main_menu_scene_path("res://m.tscn", Some("res://c.tscn".to_string())), "res://m.tscn");
    assert_eq!(get_main_menu_scene_path("", Some("res://c.tscn".to_string())), "res://c.tscn");
    assert_eq!(get_main_menu_scene_path("", None), "");
}

#[test]
fn pause_buttons_visibility() {
    let b = pause_menu_buttons(true, false, "");
    assert!(!b.exit_visible && !b.options_visible && !b.main_menu_visible);
    let c = pause_menu_buttons(false, true, "res://m.tscn");
    assert!(c.exit_visible && c.options_visible && c.main_menu_visible);
}

#[test]
fn pause_load_scene_unpauses_first() {
    let p = pause_load_scene(true, false);
    assert!(p.unpause && !p.load);
    let q = pause_load_scene(true, true);
    assert!(q.unpause && q.load);
    let r = pause_load_scene(false, true);
    assert!(!r.unpause && !r.load);
}
