use menu_ui::credits::{scrollable_credits_reset, CreditsCommandKind, CreditsScroller, EndCredits};

#[test]
fn scroller_pauses_at_end_and_resumes_on_timeout() {
    let mut s = CreditsScroller::new();
    s.on_ready();
    assert!(s.may_scroll(true));
    assert!(!s.may_scroll(false));
    assert!(!s.check_end_reached(false));
    assert!(s.may_scroll(true));
    assert!(s.check_end_reached(true));
    assert!(!s.may_scroll(true));
    s.on_scroll_restart_timer_timeout();
    assert!(s.may_scroll(true));
}

#[test]
fn scroller_user_input_pauses() {
    let mut s = CreditsScroller::new();
    assert!(!s.on_gui_input(false));
    assert!(!s.scroll_paused);
    assert!(s.on_gui_input(true));
    assert!(s.scroll_paused);
    s.on_scroll_restart_timer_timeout();
    s.on_scroll_started();
    assert!(s.scroll_paused);
}

#[test]
fn scroller_visibility_restarts() {
    let mut s = CreditsScroller::new();
    s.on_scroll_started();
    assert!(!s.on_visibility_changed(false));
    assert!(s.scroll_paused);
    assert!(s.on_visibility_changed(true));
    assert!(!s.scroll_paused);
}

#[test]
fn end_credits_ready_layout() {
    let mut e = EndCredits::new();
    let l = e.on_ready(None, false);
    assert!(l.hide_menu_button);
    assert!(!l.hide_exit_button);
    assert!(l.hide_end_panel);
    let l2 = e.on_ready(Some("res://menu.tscn".to_string()), true);
    assert!(!l2.hide_menu_button);
    assert!(l2.hide_exit_button);
    assert!(!e.scroller.scroll_paused);
}

#[test]
fn end_credits_cancel_shows_panel_then_exits() {
    let mut e = EndCredits::new();
    e.force_mouse_mode_visible = true;
    let first = e.on_cancel_released(false, false, true, None, true);
    assert_eq!(first.kind, CreditsCommandKind::ShowEndPanel);
    assert!(first.make_mouse_visible);
    assert!(e.scroller.scroll_paused);
    let second = e.on_cancel_released(true, false, true, None, true);
    assert_eq!(second.kind, CreditsCommandKind::Quit);
}

#[test]
fn end_credits_on_web_go_back_to_menu() {
    let mut e = EndCredits::new();
    let c = e.on_cancel_released(true, true, true, Some("res://menu.tscn".to_string()), true);
    assert_eq!(c.kind, CreditsCommandKind::LoadMainMenu);
    assert_eq!(c.target, "res://menu.tscn");
    let none = e.exit_game(true, true, None, true);
    assert_eq!(none.kind, CreditsCommandKind::Nothing);
    let no_loader = e.exit_game(true, true, Some("res://menu.tscn".to_string()), false);
    assert_eq!(no_loader.kind, CreditsCommandKind::Nothing);
}

#[test]
fn end_credits_own_path_wins() {
    let mut e = EndCredits::new();
    e.main_menu_scene_path = "res://own.tscn".to_string();
    let c = e.load_main_menu(Some("res://cfg.tscn".to_string()), true);
    assert_eq!(c.kind, CreditsCommandKind::LoadMainMenu);
    assert_eq!(c.target, "res://own.tscn");
    assert_eq!(e.exit_game(false, false, None, true).kind, CreditsCommandKind::Nothing);
}

#[test]
fn end_credits_end_check_and_visibility() {
    let mut e = EndCredits::new();
    assert_eq!(e.check_end_reached(false).kind, CreditsCommandKind::Nothing);
    assert!(!e.scroller.scroll_paused);
    let c = e.check_end_reached(true);
    assert_eq!(c.kind, CreditsCommandKind::ShowEndPanel);
    assert!(!c.make_mouse_visible);
    assert!(!e.scroller.may_scroll(true));
    assert!(e.on_visibility_changed(true));
    assert!(e.scroller.may_scroll(true));
}

#[test]
fn scrollable_credits_reset_when_shown() {
    assert!(scrollable_credits_reset(true, true));
    assert!(!scrollable_credits_reset(true, false));
    assert!(!scrollable_credits_reset(false, true));
}
