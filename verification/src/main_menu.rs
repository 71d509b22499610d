//! The main menu: which buttons it shows, starting a game, opening and
//! closing its sub-menus (options, credits) and leaving the game, with an
//! optional confirmation.
use vstd::prelude::*;
use crate::input::InputSummary;
use crate::scene_paths::{resolve_scene_path, resolved_scene_path};

verus! {

/// What the main menu asks of the engine side.
#[derive(Clone, Copy, Debug, PartialEq, Eq, Structural)]
pub enum MainMenuCommandKind {
    /// Nothing.
    Nothing,
    /// Free the open sub-menu, show the menu container, emit `sub_menu_closed`.
    CloseSubMenu,
    /// Show the exit confirmation dialog.
    ShowExitConfirmation,
    /// Emit `game_exited` (the game handles leaving itself).
    EmitGameExited,
    /// Quit the game.
    Quit,
    /// Call `load_scene(target)` on `SceneLoader`.
    LoadGameScene,
    /// Call `load_scene(target, true)` on `SceneLoader`, then emit `game_started`.
    LoadGameSceneAndSignal,
}

/// A command with the scene it loads (empty unless it loads one).
pub struct MainMenuCommand {
    pub kind: MainMenuCommandKind,
    pub target: String,
}

/// Which buttons the main menu hides when it becomes ready.
#[derive(Clone, Copy, Debug, PartialEq, Eq, Structural)]
pub struct MainMenuLayout {
    /// The game runs on the web, where it cannot quit.
    pub hide_exit_button: bool,
    /// No options scene is set.
    pub hide_options_button: bool,
    /// No credits scene is set.
    pub hide_credits_button: bool,
    /// No game scene is configured.
    pub hide_new_game_button: bool,
}

/// What an input event asks of the main menu.
pub struct MainMenuInputResponse {
    /// The cancel command (closing a sub-menu or leaving the game).
    pub cancel: MainMenuCommand,
    /// Give the focus to the first button (accept pressed with no focus).
    pub focus_first_button: bool,
}

/// Leaving the game: nothing on the web; otherwise emit `game_exited` when
/// the game wants that signal, else quit (when in a tree).
pub open spec fn exit_game_kind(is_web: bool, signal_game_exit: bool, in_tree: bool) -> MainMenuCommandKind {
    if is_web {
        MainMenuCommandKind::Nothing
    } else if signal_game_exit {
        MainMenuCommandKind::EmitGameExited
    } else if in_tree {
        MainMenuCommandKind::Quit
    } else {
        MainMenuCommandKind::Nothing
    }
}

/// Trying to leave: with confirmation on and a hidden confirmation dialog
/// (`confirmation == Some(false)`), show the dialog; otherwise leave.
pub open spec fn try_exit_kind(
    confirm_exit: bool,
    confirmation: Option<bool>,
    is_web: bool,
    signal_game_exit: bool,
    in_tree: bool,
) -> MainMenuCommandKind {
    if confirm_exit && confirmation == Some(false) {
        MainMenuCommandKind::ShowExitConfirmation
    } else {
        exit_game_kind(is_web, signal_game_exit, in_tree)
    }
}

/// Loading the game scene: nothing without a path, else load it (and
/// signal the start when the game wants that).
pub open spec fn load_game_kind(path: Seq<char>, signal_game_start: bool) -> MainMenuCommandKind {
    if path.len() == 0 {
        MainMenuCommandKind::Nothing
    } else if signal_game_start {
        MainMenuCommandKind::LoadGameSceneAndSignal
    } else {
        MainMenuCommandKind::LoadGameScene
    }
}

/// The main menu.
pub struct MainMenu {
    /// The game scene set on the node; empty means "ask `AppConfig`".
    pub game_scene_path_value: String,
    /// An options scene is set.
    pub has_options_scene: bool,
    /// A credits scene is set.
    pub has_credits_scene: bool,
    /// Ask for confirmation before leaving.
    pub confirm_exit: bool,
    /// Emit `game_started` when starting a game.
    pub signal_game_start: bool,
    /// Emit `game_exited` instead of quitting.
    pub signal_game_exit: bool,
    /// A sub-menu is open.
    pub sub_menu_open: bool,
}

impl MainMenu {
    /// The main menu with its defaults.
    pub fn new() -> (m: MainMenu)
        ensures
            m.game_scene_path_value@ == Seq::<char>::empty(),
            !m.has_options_scene,
            !m.has_credits_scene,
            m.confirm_exit,
            !m.signal_game_start,
            !m.signal_game_exit,
            !m.sub_menu_open,
    {
        MainMenu {
            game_scene_path_value: String::new(),
            has_options_scene: false,
            has_credits_scene: false,
            confirm_exit: true,
            signal_game_start: false,
            signal_game_exit: false,
            sub_menu_open: false,
        }
    }

    /// The game scene: own setting, else `AppConfig.game_scene_path`, else none.
    pub open spec fn game_path_spec(self, app_config: Option<Seq<char>>) -> Seq<char> {
        resolved_scene_path(self.game_scene_path_value@, app_config, Seq::empty())
    }

    /// Resolves the game scene path (empty when none is configured).
    pub fn get_game_scene_path(&self, app_config: Option<String>) -> (r: String)
        ensures
            r@ == self.game_path_spec(app_config.deep_view()),
    {
        proof {
            reveal_strlit("");
        }
        resolve_scene_path(self.game_scene_path_value.as_str(), app_config, "")
    }

    /// On `ready`: which buttons to hide.
    pub fn ready_layout(&self, is_web: bool, app_config: Option<String>) -> (l: MainMenuLayout)
        ensures
            l.hide_exit_button == is_web,
            l.hide_options_button == !self.has_options_scene,
            l.hide_credits_button == !self.has_credits_scene,
            l.hide_new_game_button == (self.game_path_spec(app_config.deep_view()).len() == 0),
    {
        let path = self.get_game_scene_path(app_config);
        MainMenuLayout {
            hide_exit_button: is_web,
            hide_options_button: !self.has_options_scene,
            hide_credits_button: !self.has_credits_scene,
            hide_new_game_button: path.as_str().is_empty(),
        }
    }

    /// Loads the game scene (the new-game and continue buttons).
    pub fn load_game_scene(&self, app_config: Option<String>) -> (c: MainMenuCommand)
        ensures
            c.kind == load_game_kind(self.game_path_spec(app_config.deep_view()), self.signal_game_start),
            c.kind != MainMenuCommandKind::Nothing ==> c.target@ == self.game_path_spec(
                app_config.deep_view(),
            ),
    {
        let path = self.get_game_scene_path(app_config);
        if path.as_str().is_empty() {
            return MainMenuCommand { kind: MainMenuCommandKind::Nothing, target: String::new() };
        }
        if self.signal_game_start {
            MainMenuCommand { kind: MainMenuCommandKind::LoadGameSceneAndSignal, target: path }
        } else {
            MainMenuCommand { kind: MainMenuCommandKind::LoadGameScene, target: path }
        }
    }

    /// Leaves the game.
    pub fn exit_game(&self, is_web: bool, in_tree: bool) -> (c: MainMenuCommand)
        ensures
            c.kind == exit_game_kind(is_web, self.signal_game_exit, in_tree),
    {
        let kind = if is_web {
            MainMenuCommandKind::Nothing
        } else if self.signal_game_exit {
            MainMenuCommandKind::EmitGameExited
        } else if in_tree {
            MainMenuCommandKind::Quit
        } else {
            MainMenuCommandKind::Nothing
        };
        MainMenuCommand { kind, target: String::new() }
    }

    /// Tries to leave the game. `confirmation` is the visibility of the exit
    /// confirmation dialog, `None` when there is none.
    pub fn try_exit_game(&self, confirmation: Option<bool>, is_web: bool, in_tree: bool) -> (c:
        MainMenuCommand)
        ensures
            c.kind == try_exit_kind(
                self.confirm_exit,
                confirmation,
                is_web,
                self.signal_game_exit,
                in_tree,
            ),
    {
        if self.confirm_exit {
            if let Some(visible) = confirmation {
                if !visible {
                    return MainMenuCommand {
                        kind: MainMenuCommandKind::ShowExitConfirmation,
                        target: String::new(),
                    };
                }
            }
        }
        self.exit_game(is_web, in_tree)
    }

    /// A sub-menu scene was instantiated as a control and added: it is now
    /// the open sub-menu (the engine side hides the menu container and emits
    /// `sub_menu_opened`).
    pub fn sub_menu_opened(&mut self)
        ensures
            final(self).sub_menu_open,
            final(self).game_scene_path_value == old(self).game_scene_path_value,
            final(self).has_options_scene == old(self).has_options_scene,
            final(self).has_credits_scene == old(self).has_credits_scene,
            final(self).confirm_exit == old(self).confirm_exit,
            final(self).signal_game_start == old(self).signal_game_start,
            final(self).signal_game_exit == old(self).signal_game_exit,
    {
        self.sub_menu_open = true;
    }

    /// Closes the open sub-menu, if any.
    pub fn close_sub_menu(&mut self) -> (c: MainMenuCommand)
        ensures
            c.kind == (if old(self).sub_menu_open {
                MainMenuCommandKind::CloseSubMenu
            } else {
                MainMenuCommandKind::Nothing
            }),
            !final(self).sub_menu_open,
            final(self).game_scene_path_value == old(self).game_scene_path_value,
            final(self).has_options_scene == old(self).has_options_scene,
            final(self).has_credits_scene == old(self).has_credits_scene,
            final(self).confirm_exit == old(self).confirm_exit,
            final(self).signal_game_start == old(self).signal_game_start,
            final(self).signal_game_exit == old(self).signal_game_exit,
    {
        if self.sub_menu_open {
            self.sub_menu_open = false;
            MainMenuCommand { kind: MainMenuCommandKind::CloseSubMenu, target: String::new() }
        } else {
            MainMenuCommand { kind: MainMenuCommandKind::Nothing, target: String::new() }
        }
    }

    /// The cancel part of an input event: cancel closes the open sub-menu or,
    /// when none is open, tries to leave.
    pub fn on_cancel_input(
        &mut self,
        event: &InputSummary,
        confirmation: Option<bool>,
        is_web: bool,
        in_tree: bool,
    ) -> (c: MainMenuCommand)
        ensures
            !event.cancel_released ==> c.kind == MainMenuCommandKind::Nothing
                && final(self).sub_menu_open == old(self).sub_menu_open,
            event.cancel_released && old(self).sub_menu_open ==> c.kind
                == MainMenuCommandKind::CloseSubMenu && !final(self).sub_menu_open,
            event.cancel_released && !old(self).sub_menu_open ==> c.kind == try_exit_kind(
                old(self).confirm_exit,
                confirmation,
                is_web,
                old(self).signal_game_exit,
                in_tree,
            ) && !final(self).sub_menu_open,
            final(self).game_scene_path_value == old(self).game_scene_path_value,
            final(self).has_options_scene == old(self).has_options_scene,
            final(self).has_credits_scene == old(self).has_credits_scene,
            final(self).confirm_exit == old(self).confirm_exit,
            final(self).signal_game_start == old(self).signal_game_start,
            final(self).signal_game_exit == old(self).signal_game_exit,
    {
        if event.cancel_released {
            if self.sub_menu_open {
                self.close_sub_menu()
            } else {
                self.try_exit_game(confirmation, is_web, in_tree)
            }
        } else {
            MainMenuCommand { kind: MainMenuCommandKind::Nothing, target: String::new() }
        }
    }

    /// The accept part of an input event, decided after the cancel part: with
    /// no focused control, accept gives the focus to the first button.
    pub fn focus_first_on_accept(event: &InputSummary, has_focus_owner: bool) -> (r: bool)
        ensures
            r == (event.accept_released && !has_focus_owner),
    {
        event.accept_released && !has_focus_owner
    }

    /// Handles an input event: cancel closes the open sub-menu or tries to
    /// leave; accept with no focused control focuses the first button.
    pub fn on_input(
        &mut self,
        event: &InputSummary,
        has_focus_owner: bool,
        confirmation: Option<bool>,
        is_web: bool,
        in_tree: bool,
    ) -> (r: MainMenuInputResponse)
        ensures
            !event.cancel_released ==> r.cancel.kind == MainMenuCommandKind::Nothing
                && final(self).sub_menu_open == old(self).sub_menu_open,
            event.cancel_released && old(self).sub_menu_open ==> r.cancel.kind
                == MainMenuCommandKind::CloseSubMenu && !final(self).sub_menu_open,
            event.cancel_released && !old(self).sub_menu_open ==> r.cancel.kind == try_exit_kind(
                old(self).confirm_exit,
                confirmation,
                is_web,
                old(self).signal_game_exit,
                in_tree,
            ) && !final(self).sub_menu_open,
            r.focus_first_button == (event.accept_released && !has_focus_owner),
            final(self).game_scene_path_value == old(self).game_scene_path_value,
            final(self).has_options_scene == old(self).has_options_scene,
            final(self).has_credits_scene == old(self).has_credits_scene,
            final(self).confirm_exit == old(self).confirm_exit,
            final(self).signal_game_start == old(self).signal_game_start,
            final(self).signal_game_exit == old(self).signal_game_exit,
    {
        let cancel = self.on_cancel_input(event, confirmation, is_web, in_tree);
        MainMenuInputResponse {
            cancel,
            focus_first_button: Self::focus_first_on_accept(event, has_focus_owner),
        }
    }

    /// The options button opens the options scene, when one is set.
    pub fn options_requested(&self) -> (r: bool)
        ensures
            r == self.has_options_scene,
    {
        self.has_options_scene
    }

    /// The credits button opens the credits scene, when one is set.
    pub fn credits_requested(&self) -> (r: bool)
        ensures
            r == self.has_credits_scene,
    {
        self.has_credits_scene
    }
}

/// On the web the main menu never leaves the game: trying to exit at most
/// shows the confirmation dialog.
pub proof fn law_web_exit_is_inert(
    confirm_exit: bool,
    confirmation: Option<bool>,
    signal_game_exit: bool,
    in_tree: bool,
)
    ensures
        try_exit_kind(confirm_exit, confirmation, true, signal_game_exit, in_tree)
            == MainMenuCommandKind::ShowExitConfirmation || try_exit_kind(
            confirm_exit,
            confirmation,
            true,
            signal_game_exit,
            in_tree,
        ) == MainMenuCommandKind::Nothing,
{
}

/// With confirmation on, a hidden dialog is always shown first, whatever the
/// platform and the exit signal.
pub proof fn law_exit_asks_confirmation_first(is_web: bool, signal_game_exit: bool, in_tree: bool)
    ensures
        try_exit_kind(true, Some(false), is_web, signal_game_exit, in_tree)
            == MainMenuCommandKind::ShowExitConfirmation,
{
}

/// The game scene is loaded only when a path is configured, and always that
/// path.
pub proof fn law_new_game_needs_a_path(path: Seq<char>, signal_game_start: bool)
    ensures
        (load_game_kind(path, signal_game_start) == MainMenuCommandKind::Nothing) == (path.len()
            == 0),
{
}

} // verus!
