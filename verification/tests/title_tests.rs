use menu_ui::input::InputSummary;
use menu_ui::scene_paths::{background_load_candidates, resolve_scene_path, texture_load_path};
use menu_ui::title_screen::{TitleScreen, TitleScreenLogic, TransitionKind};

fn left_click() -> InputSummary {
    InputSummary {
        accept_released: false,
        select_released: false,
        cancel_released: false,
        mouse_button: true,
        mouse_pressed: true,
        mouse_left: true,
    }
}

#[test]
fn resolve_prefers_own_then_config_then_default() {
    assert_eq!(resolve_scene_path("res://own.tscn", Some("res://cfg.tscn".to_string()), "d"), "res://own.tscn");
    assert_eq!(resolve_scene_path("", Some("res://cfg.tscn".to_string()), "d"), "res://cfg.tscn");
    assert_eq!(resolve_scene_path("", Some(String::new()), "d"), "");
    assert_eq!(resolve_scene_path("", None, "d"), "d");
}

#[test]
fn title_screen_defaults() {
    let t = TitleScreen::new();
    assert_eq!(t.main_menu_scene_path, "");
    assert_eq!(t.background_image_path, "res://assets/menu_custom/opening_bg_01.png");
    assert_eq!(t.prompt_text, "Clique na tela para iniciar");
    assert!(!t.transitioning);
}

#[test]
fn title_screen_target_falls_back_to_animated_menu() {
    let t = TitleScreen::new();
    assert_eq!(
        t.resolve_main_menu_scene_path(None),
        "res://scenes/menus/main_menu/main_menu_with_animations.tscn"
    );
    assert_eq!(t.resolve_main_menu_scene_path(Some("res://m.tscn".to_string())), "res://m.tscn");
}

#[test]
fn title_screen_goes_to_menu_once() {
    let mut t = TitleScreen::new();
    let first = t.go_to_menu(None, true, true);
    assert_eq!(first.kind, TransitionKind::LoadWithSceneLoader);
    assert_eq!(first.target, "res://scenes/menus/main_menu/main_menu_with_animations.tscn");
    assert!(t.transitioning);
    let second = t.go_to_menu(None, true, true);
    assert_eq!(second.kind, TransitionKind::Stay);
}

#[test]
fn title_screen_changes_scene_without_loader_and_retries_after_failure() {
    let mut t = TitleScreen::new();
    let first = t.go_to_menu(Some("res://m.tscn".to_string()), false, true);
    assert_eq!(first.kind, TransitionKind::ChangeSceneToFile);
    assert_eq!(first.target, "res://m.tscn");
    t.change_scene_failed();
    assert!(!t.transitioning);
    let again = t.go_to_menu(Some("res://m.tscn".to_string()), false, true);
    assert_eq!(again.kind, TransitionKind::ChangeSceneToFile);
}

#[test]
fn title_screen_warns_on_empty_configured_target() {
    let mut t = TitleScreen::new();
    let r = t.go_to_menu(Some(String::new()), true, true);
    assert_eq!(r.kind, TransitionKind::WarnEmptyTarget);
    assert!(!t.transitioning);
}

#[test]
fn title_screen_outside_tree_marks_transition_only() {
    let mut t = TitleScreen::new();
    let r = t.go_to_menu(None, false, false);
    assert_eq!(r.kind, TransitionKind::Stay);
    assert!(t.transitioning);
}

#[test]
fn title_screen_starts_on_left_click_only() {
    let t = TitleScreen::new();
    assert!(t.starts_transition(&left_click()));
    let mut right = left_click();
    right.mouse_left = false;
    assert!(!t.starts_transition(&right));
    let mut release = left_click();
    release.mouse_pressed = false;
    assert!(!t.starts_transition(&release));
}

#[test]
fn background_candidates_try_path_then_default() {
    assert_eq!(
        background_load_candidates("  res://bg.png "),
        vec!["res://bg.png".to_string(), "res://assets/menu_custom/opening_bg_01.png".to_string()]
    );
    assert_eq!(
        background_load_candidates("res://assets/menu_custom/opening_bg_01.png"),
        vec!["res://assets/menu_custom/opening_bg_01.png".to_string()]
    );
    assert_eq!(
        background_load_candidates("   "),
        vec!["res://assets/menu_custom/opening_bg_01.png".to_string()]
    );
}

#[test]
fn texture_path_is_stripped_or_absent() {
    assert_eq!(texture_load_path(" res://t.png\n"), Some("res://t.png".to_string()));
    assert_eq!(texture_load_path(" \t"), None);
}

#[test]
fn scripted_title_screen_defaults_and_configure() {
    let mut t = TitleScreenLogic::new();
    assert_eq!(t.background_image_path, "res://assets/menu_custom/main_menu_bg_rustland_01.png");
    t.configure("res://a.tscn".to_string(), "res://b.png".to_string(), "Go".to_string());
    assert_eq!(t.main_menu_scene_path, "res://a.tscn");
    assert_eq!(t.background_image_path, "res://b.png");
    assert_eq!(t.prompt_text, "Go");
}

#[test]
fn scripted_title_screen_click_flow() {
    let mut t = TitleScreenLogic::new();
    let mut not_click = left_click();
    not_click.mouse_button = false;
    assert_eq!(t.on_unhandled_input(&not_click, None, true, true).kind, TransitionKind::Stay);
    assert!(!t.transitioning);
    let r = t.on_unhandled_input(&left_click(), Some(String::new()), false, true);
    assert_eq!(r.kind, TransitionKind::ChangeSceneToFile);
    assert_eq!(r.target, "res://scenes/menus/main_menu/main_menu_with_animations.tscn");
    assert!(t.transitioning);
    assert_eq!(t.on_unhandled_input(&left_click(), None, true, true).kind, TransitionKind::Stay);
}

#[test]
fn scripted_title_screen_uses_config() {
    let mut t = TitleScreenLogic::new();
    let r = t.on_unhandled_input(&left_click(), Some("res://cfg.tscn".to_string()), true, true);
    assert_eq!(r.kind, TransitionKind::LoadWithSceneLoader);
    assert_eq!(r.target, "res://cfg.tscn");
    assert_eq!(t.resolve_main_menu_scene_path(None), "");
}

#[test]
fn scripted_title_screen_requests_at_most_once_over_a_run() {
    let mut t = TitleScreenLogic::new();
    let mut other = left_click();
    other.mouse_left = false;
    let events = [other, left_click(), left_click(), other, left_click()];
    let mut requests = 0;
    for e in events.iter() {
        if t.on_unhandled_input(e, None, true, true).kind != TransitionKind::Stay {
            requests += 1;
        }
    }
    assert_eq!(requests, 1);
    assert!(t.transitioning);
}
