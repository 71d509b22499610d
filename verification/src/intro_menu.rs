//! The animated main menu: its fixed layout, skipping the intro animation,
//! and the new-game button that needs a configured game scene.
use vstd::prelude::*;
use crate::input::InputSummary;
use crate::scene_paths::{
    default_menu_background, default_menu_background_path, default_title_background,
    default_title_background_path, texture_load_path, texture_path_spec,
};

verus! {

/// The name of the state machine node that plays the intro animation.
pub open spec fn intro_node() -> Seq<char> {
    "Intro"@
}

/// The state the playback travels to when the intro is done.
pub open spec fn open_menu_node() -> Seq<char> {
    "OpenMainMenu"@
}

/// The state the playback travels to when the intro is done.
pub fn open_menu_state() -> (r: String)
    ensures
        r@ == open_menu_node(),
{
    "OpenMainMenu".to_owned()
}

/// The text of the new-game button.
pub open spec fn new_game_label() -> Seq<char> {
    "Jogar"@
}

/// How the animated main menu arranges itself when it becomes ready.
pub struct IntroMenuLayout {
    /// The new-game button is made visible with this text.
    pub new_game_text: String,
    /// The background texture to load, if the path is not blank.
    pub background_texture: Option<String>,
    /// `TextureRect.expand_mode` of the background (ignore size).
    pub background_expand_mode: i64,
    /// `TextureRect.stretch_mode` of the background (keep aspect, covered).
    pub background_stretch_mode: i64,
    /// The title and subtitle margins are hidden.
    pub hide_titles: bool,
    /// The `margin_top` theme constant of the buttons margin.
    pub buttons_margin_top: i64,
}

/// What an input event asks of the animated main menu.
#[derive(Clone, Copy, Debug, PartialEq, Eq, Structural)]
pub struct IntroInputResponse {
    /// End the intro: travel the playback to `OpenMainMenu`.
    pub finish_intro: bool,
    /// Call `try_exit_game` on the menu.
    pub try_exit_game: bool,
    /// Focus the first button.
    pub focus_first_button: bool,
}

/// What the new-game button does.
#[derive(Clone, Copy, Debug, PartialEq, Eq, Structural)]
pub enum NewGameCommand {
    /// No game scene is configured: warn that `AppConfig.game_scene_path` must be set.
    WarnMissingGameScene,
    /// Call `new_game` on the menu.
    StartNewGame,
}

/// The animated main menu.
pub struct IntroMenu {
    /// The background image path.
    pub background_image_path: String,
}

impl IntroMenu {
    /// The animated main menu as a scene node, with the opening image.
    pub fn new() -> (m: IntroMenu)
        ensures
            m.background_image_path@ == default_title_background(),
    {
        IntroMenu { background_image_path: default_title_background_path() }
    }

    /// The animated main menu as driven by a GDScript owner, with the menu
    /// background image.
    pub fn new_scripted() -> (m: IntroMenu)
        ensures
            m.background_image_path@ == default_menu_background(),
    {
        IntroMenu { background_image_path: default_menu_background_path() }
    }

    /// Sets the background image path from the owner's property.
    pub fn configure(&mut self, background_image_path: String)
        ensures
            final(self).background_image_path == background_image_path,
    {
        self.background_image_path = background_image_path;
    }

    /// The layout applied on `ready`.
    pub fn ready_layout(&self) -> (l: IntroMenuLayout)
        ensures
            l.new_game_text@ == new_game_label(),
            l.background_texture.deep_view() == texture_path_spec(self.background_image_path@),
            l.background_expand_mode == 1,
            l.background_stretch_mode == 6,
            l.hide_titles,
            l.buttons_margin_top == 72,
    {
        IntroMenuLayout {
            new_game_text: "Jogar".to_owned(),
            background_texture: texture_load_path(self.background_image_path.as_str()),
            background_expand_mode: 1,
            background_stretch_mode: 6,
            hide_titles: true,
            buttons_margin_top: 72,
        }
    }
}

/// Whether the playback's current node (`None` without a playback) is the
/// intro.
pub fn is_in_intro(current_node: Option<String>) -> (r: bool)
    ensures
        r == (current_node.deep_view() == Some(intro_node())),
{
    match current_node {
        Some(name) => {
            let intro = "Intro".to_owned();
            name == intro
        },
        None => false,
    }
}

/// The response of the animated main menu to an input event.
pub open spec fn intro_input_spec(event: InputSummary, in_intro: bool, has_focus_owner: bool) -> IntroInputResponse {
    if in_intro && event.skips_intro_spec() {
        IntroInputResponse { finish_intro: true, try_exit_game: false, focus_first_button: false }
    } else {
        IntroInputResponse {
            finish_intro: false,
            try_exit_game: event.cancel_released,
            focus_first_button: event.accept_released && !has_focus_owner,
        }
    }
}

/// Handles an input event of the animated main menu: during the intro, a
/// skipping event ends the intro and nothing else happens; otherwise cancel
/// tries to leave and accept with no focused control focuses the first
/// button.
pub fn on_intro_menu_input(event: &InputSummary, in_intro: bool, has_focus_owner: bool) -> (r:
    IntroInputResponse)
    ensures
        r == intro_input_spec(*event, in_intro, has_focus_owner),
{
    if in_intro && event.event_skips_intro() {
        return IntroInputResponse { finish_intro: true, try_exit_game: false, focus_first_button: false };
    }
    IntroInputResponse {
        finish_intro: false,
        try_exit_game: event.cancel_released,
        focus_first_button: event.accept_released && !has_focus_owner,
    }
}

/// Handles an input event of the scripted animated main menu: returns
/// whether the event ended the intro (and was consumed).
pub fn on_scripted_intro_input(event: &InputSummary, in_intro: bool) -> (consumed: bool)
    ensures
        consumed == (in_intro && event.skips_intro_spec()),
{
    in_intro && event.event_skips_intro()
}

/// The new-game button, given the game scene path the menu reports.
pub fn on_new_game_pressed(game_path: &str) -> (c: NewGameCommand)
    ensures
        c == (if game_path@.len() == 0 {
            NewGameCommand::WarnMissingGameScene
        } else {
            NewGameCommand::StartNewGame
        }),
{
    if game_path.is_empty() {
        NewGameCommand::WarnMissingGameScene
    } else {
        NewGameCommand::StartNewGame
    }
}

/// The credits window of the main menu closes itself when the credits it
/// shows reach their end: it connects to `end_reached` when its instance
/// exists and has that signal.
pub fn connects_credits_end(instance_present: bool, has_end_reached_signal: bool) -> (r: bool)
    ensures
        r == (instance_present && has_end_reached_signal),
{
    instance_present && has_end_reached_signal
}

/// During the intro, cancel and accept only end the intro: they never also
/// ask to leave the game or move the focus. Outside the intro, cancel always
/// asks to leave.
pub proof fn law_intro_swallows_skipping_events(event: InputSummary, has_focus_owner: bool)
    ensures
        event.cancel_released || event.accept_released ==> {
            let r = intro_input_spec(event, true, has_focus_owner);
            r.finish_intro && !r.try_exit_game && !r.focus_first_button
        },
        intro_input_spec(event, false, has_focus_owner).try_exit_game == event.cancel_released,
{
}

/// Outside the intro, accept focuses the first button exactly when no control
/// has the focus, and cancel asks to leave; nothing ends an intro that is not
/// playing.
pub proof fn law_intro_menu_focus_and_exit(event: InputSummary, has_focus_owner: bool)
    ensures
        intro_input_spec(event, false, has_focus_owner).focus_first_button == (event.accept_released
            && !has_focus_owner),
        event.accept_released && !has_focus_owner ==> intro_input_spec(
            event,
            false,
            has_focus_owner,
        ).focus_first_button,
        has_focus_owner ==> !intro_input_spec(event, false, has_focus_owner).focus_first_button,
        intro_input_spec(event, false, has_focus_owner).try_exit_game == event.cancel_released,
        !intro_input_spec(event, false, has_focus_owner).finish_intro,
{
}

} // verus!
