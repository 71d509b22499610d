use menu_ui::input::InputSummary;
use menu_ui::intro_menu::{connects_credits_end, is_in_intro, on_intro_menu_input, on_new_game_pressed, on_scripted_intro_input, IntroMenu, NewGameCommand};
use menu_ui::main_menu::{MainMenu, MainMenuCommandKind};

fn no_event() -> InputSummary {
    InputSummary {
        accept_released: false,
        select_released: false,
        cancel_released: false,
        mouse_button: false,
        mouse_pressed: false,
        mouse_left: false,
    }
}

#[test]
fn main_menu_defaults_and_layout() {
    let m = MainMenu::new();
    assert!(m.confirm_exit);
    let l = m.ready_layout(true, None);
    assert!(l.hide_exit_button && l.hide_options_button && l.hide_credits_button && l.hide_new_game_button);
    let mut m2 = MainMenu::new();
    m2.has_options_scene = true;
    m2.has_credits_scene = true;
    let l2 = m2.ready_layout(false, Some("res://game.tscn".to_string()));
    assert!(!l2.hide_exit_button && !l2.hide_options_button && !l2.hide_credits_button && !l2.hide_new_game_button);
}

#[test]
fn main_menu_load_game_scene() {
    let mut m = MainMenu::new();
    assert_eq!(m.load_game_scene(None).kind, MainMenuCommandKind::Nothing);
    let c = m.load_game_scene(Some("res://game.tscn".to_string()));
    assert_eq!(c.kind, MainMenuCommandKind::LoadGameScene);
    assert_eq!(c.target, "res://game.tscn");
    m.signal_game_start = true;
    m.game_scene_path_value = "res://own.tscn".to_string();
    let c2 = m.load_game_scene(Some("res://game.tscn".to_string()));
    assert_eq!(c2.kind, MainMenuCommandKind::LoadGameSceneAndSignal);
    assert_eq!(c2.target, "res://own.tscn");
    assert_eq!(m.get_game_scene_path(None), "res://own.tscn");
}

#[test]
fn main_menu_exit_rules() {
    let mut m = MainMenu::new();
    assert_eq!(m.try_exit_game(Some(false), false, true).kind, MainMenuCommandKind::ShowExitConfirmation);
    assert_eq!(m.try_exit_game(Some(true), false, true).kind, MainMenuCommandKind::Quit);
    assert_eq!(m.try_exit_game(None, false, true).kind, MainMenuCommandKind::Quit);
    assert_eq!(m.exit_game(true, true).kind, MainMenuCommandKind::Nothing);
    m.signal_game_exit = true;
    assert_eq!(m.exit_game(false, true).kind, MainMenuCommandKind::EmitGameExited);
    m.confirm_exit = false;
    assert_eq!(m.try_exit_game(Some(false), false, false).kind, MainMenuCommandKind::EmitGameExited);
}

#[test]
fn main_menu_sub_menu_round_trip() {
    let mut m = MainMenu::new();
    assert_eq!(m.close_sub_menu().kind, MainMenuCommandKind::Nothing);
    m.sub_menu_opened();
    assert!(m.sub_menu_open);
    let mut cancel = no_event();
    cancel.cancel_released = true;
    let r = m.on_input(&cancel, true, Some(false), false, true);
    assert_eq!(r.cancel.kind, MainMenuCommandKind::CloseSubMenu);
    assert!(!m.sub_menu_open);
    let r2 = m.on_input(&cancel, true, Some(false), false, true);
    assert_eq!(r2.cancel.kind, MainMenuCommandKind::ShowExitConfirmation);
}

#[test]
fn main_menu_accept_focuses_first_button() {
    let mut m = MainMenu::new();
    let mut accept = no_event();
    accept.accept_released = true;
    assert!(m.on_input(&accept, false, None, false, true).focus_first_button);
    assert!(!m.on_input(&accept, true, None, false, true).focus_first_button);
    assert_eq!(m.on_input(&accept, false, None, false, true).cancel.kind, MainMenuCommandKind::Nothing);
    assert!(!m.options_requested());
    m.has_credits_scene = true;
    assert!(m.credits_requested());
}

#[test]
fn mouse_release_detection() {
    let mut e = no_event();
    e.mouse_button = true;
    assert!(e.is_mouse_button_released());
    e.mouse_pressed = true;
    assert!(!e.is_mouse_button_released());
    assert!(!no_event().is_mouse_button_released());
}

#[test]
fn intro_menu_layout() {
    let m = IntroMenu::new();
    assert_eq!(m.background_image_path, "res://assets/menu_custom/opening_bg_01.png");
    let l = m.ready_layout();
    assert_eq!(l.new_game_text, "Jogar");
    assert_eq!(l.background_texture, Some("res://assets/menu_custom/opening_bg_01.png".to_string()));
    assert_eq!((l.background_expand_mode, l.background_stretch_mode, l.buttons_margin_top), (1, 6, 72));
    assert!(l.hide_titles);
    let mut s = IntroMenu::new_scripted();
    assert_eq!(s.background_image_path, "res://assets/menu_custom/main_menu_bg_rustland_01.png");
    s.configure("  ".to_string());
    assert_eq!(s.ready_layout().background_texture, None);
}

#[test]
fn intro_detection_and_skipping() {
    assert!(is_in_intro(Some("Intro".to_string())));
    assert!(!is_in_intro(Some("MainMenu".to_string())));
    assert!(!is_in_intro(None));
    let mut cancel = no_event();
    cancel.cancel_released = true;
    let r = on_intro_menu_input(&cancel, true, false);
    assert!(r.finish_intro && !r.try_exit_game);
    let r2 = on_intro_menu_input(&cancel, false, false);
    assert!(!r2.finish_intro && r2.try_exit_game);
    let mut click = no_event();
    click.mouse_button = true;
    click.mouse_pressed = true;
    assert!(!on_scripted_intro_input(&click, true));
    click.mouse_pressed = false;
    assert!(on_scripted_intro_input(&click, true));
    let mut select = no_event();
    select.select_released = true;
    assert!(select.event_skips_intro());
    assert!(!no_event().event_skips_intro());
}

#[test]
fn new_game_needs_game_scene() {
    assert_eq!(on_new_game_pressed(""), NewGameCommand::WarnMissingGameScene);
    assert_eq!(on_new_game_pressed("res://g.tscn"), NewGameCommand::StartNewGame);
    assert!(connects_credits_end(true, true));
    assert!(!connects_credits_end(true, false));
}

#[test]
fn intro_ends_in_open_main_menu_state() {
    assert_eq!(menu_ui::intro_menu::open_menu_state(), "OpenMainMenu");
}

#[test]
fn main_menu_cancel_and_accept_parts() {
    let mut m = MainMenu::new();
    m.sub_menu_opened();
    let mut cancel = no_event();
    cancel.cancel_released = true;
    assert_eq!(m.on_cancel_input(&cancel, None, false, true).kind, MainMenuCommandKind::CloseSubMenu);
    assert!(!m.sub_menu_open);
    assert_eq!(m.on_cancel_input(&no_event(), None, false, true).kind, MainMenuCommandKind::Nothing);
    let mut accept = no_event();
    accept.accept_released = true;
    assert!(MainMenu::focus_first_on_accept(&accept, false));
    assert!(!MainMenu::focus_first_on_accept(&accept, true));
    assert!(!MainMenu::focus_first_on_accept(&no_event(), false));
}
