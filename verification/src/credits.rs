//! The credits screens: the auto-scrolling credits (the end-of-game screen and
//! the one shown from the main menu) and the line-scrolled credits window.
//! The scroll position itself is a floating-point quantity kept by the engine
//! side; these machines decide when it may move, when scrolling pauses and
//! resumes, and what the end of the credits leads to.
use vstd::prelude::*;
use crate::scene_paths::{resolve_scene_path, resolved_scene_path};

verus! {

/// Scrolling may move the credits: the screen is visible and not paused.
pub open spec fn scroll_allowed(paused: bool, visible: bool) -> bool {
    visible && !paused
}

/// Whether scrolling is paused after the end check of a scroll step.
pub open spec fn paused_after_end_check(paused: bool, end_reached: bool) -> bool {
    paused || end_reached
}

/// Whether scrolling is paused after the screen's visibility changed: showing
/// the screen restarts the credits unpaused.
pub open spec fn paused_after_visibility(paused: bool, visible: bool) -> bool {
    paused && !visible
}

/// The pause state of an auto-scrolling credits screen.
#[derive(Clone, Copy, Debug, PartialEq, Eq, Structural)]
pub struct CreditsScroller {
    /// Auto-scrolling is paused (by the user, or because the end was reached).
    pub scroll_paused: bool,
}

impl CreditsScroller {
    /// A scroller that is not paused.
    pub fn new() -> (s: CreditsScroller)
        ensures
            !s.scroll_paused,
    {
        CreditsScroller { scroll_paused: false }
    }

    /// On `ready`: scrolling starts unpaused.
    pub fn on_ready(&mut self)
        ensures
            !final(self).scroll_paused,
    {
        self.scroll_paused = false;
    }

    /// Whether a scroll step (automatic or from the input axis) may move the
    /// credits.
    pub fn may_scroll(&self, visible: bool) -> (r: bool)
        ensures
            r == scroll_allowed(self.scroll_paused, visible),
    {
        visible && !self.scroll_paused
    }

    /// After a scroll step or an input: when the scroll position has passed
    /// the end of the credits, scrolling pauses and the end is announced
    /// (the `end_reached` signal). Returns whether it was announced.
    pub fn check_end_reached(&mut self, end_reached: bool) -> (announced: bool)
        ensures
            announced == end_reached,
            final(self).scroll_paused == paused_after_end_check(old(self).scroll_paused, end_reached),
    {
        if end_reached {
            self.scroll_paused = true;
        }
        end_reached
    }

    /// A GUI input on the credits: a mouse-button event pauses scrolling and
    /// asks for the restart timer. Returns whether to start that timer.
    pub fn on_gui_input(&mut self, is_mouse_button: bool) -> (start_timer: bool)
        ensures
            start_timer == is_mouse_button,
            final(self).scroll_paused == (old(self).scroll_paused || is_mouse_button),
    {
        if is_mouse_button {
            self.scroll_paused = true;
        }
        is_mouse_button
    }

    /// The user started scrolling the container: auto-scrolling pauses until
    /// the restart timer fires.
    pub fn on_scroll_started(&mut self)
        ensures
            final(self).scroll_paused,
    {
        self.scroll_paused = true;
    }

    /// The restart timer fired: auto-scrolling resumes from where the user
    /// left the container.
    pub fn on_scroll_restart_timer_timeout(&mut self)
        ensures
            !final(self).scroll_paused,
    {
        self.scroll_paused = false;
    }

    /// The screen became visible or hidden. When it becomes visible the
    /// credits start over unpaused (the engine side puts the container back
    /// at the top). Returns whether it did.
    pub fn on_visibility_changed(&mut self, visible: bool) -> (restart: bool)
        ensures
            restart == visible,
            final(self).scroll_paused == paused_after_visibility(old(self).scroll_paused, visible),
    {
        if visible {
            self.scroll_paused = false;
        }
        visible
    }
}

/// What the end-of-game credits ask of the engine side.
#[derive(Clone, Copy, Debug, PartialEq, Eq, Structural)]
pub enum CreditsCommandKind {
    /// Nothing.
    Nothing,
    /// Show the end message panel (and make the mouse visible if asked).
    ShowEndPanel,
    /// Call `load_scene(target)` on the `SceneLoader` autoload.
    LoadMainMenu,
    /// Quit the game.
    Quit,
}

/// A command with its details.
pub struct CreditsCommand {
    pub kind: CreditsCommandKind,
    /// With `ShowEndPanel`: set the mouse mode to visible.
    pub make_mouse_visible: bool,
    /// With `LoadMainMenu`: the scene to load.
    pub target: String,
}

/// What `load_main_menu` does: load the target through `SceneLoader` when the
/// target is not empty and the autoload exists.
pub open spec fn load_menu_kind(target: Seq<char>, scene_loader_present: bool) -> CreditsCommandKind {
    if target.len() > 0 && scene_loader_present {
        CreditsCommandKind::LoadMainMenu
    } else {
        CreditsCommandKind::Nothing
    }
}

/// What `exit_game` does: on the web (where a game cannot quit) go back to
/// the main menu; elsewhere quit when in a tree.
pub open spec fn exit_kind(
    is_web: bool,
    in_tree: bool,
    target: Seq<char>,
    scene_loader_present: bool,
) -> CreditsCommandKind {
    if is_web {
        load_menu_kind(target, scene_loader_present)
    } else if in_tree {
        CreditsCommandKind::Quit
    } else {
        CreditsCommandKind::Nothing
    }
}

/// Which buttons the end-of-game credits hide when they become ready.
#[derive(Clone, Copy, Debug, PartialEq, Eq, Structural)]
pub struct EndCreditsLayout {
    /// Hide the "main menu" button: there is no main menu to go back to.
    pub hide_menu_button: bool,
    /// Hide the "exit" button: the game runs on the web.
    pub hide_exit_button: bool,
    /// Hide the end message panel.
    pub hide_end_panel: bool,
}

/// The end-of-game credits: scroll, show an end message, then go back to the
/// main menu or quit.
pub struct EndCredits {
    /// The main-menu scene set on the node; empty means "ask `AppConfig`".
    pub main_menu_scene_path: String,
    /// Make the mouse visible when the end is reached.
    pub force_mouse_mode_visible: bool,
    /// The pause state of the scrolling.
    pub scroller: CreditsScroller,
}

impl EndCredits {
    /// The end credits with their defaults.
    pub fn new() -> (s: EndCredits)
        ensures
            s.main_menu_scene_path@ == Seq::<char>::empty(),
            !s.force_mouse_mode_visible,
            !s.scroller.scroll_paused,
    {
        EndCredits {
            main_menu_scene_path: String::new(),
            force_mouse_mode_visible: false,
            scroller: CreditsScroller::new(),
        }
    }

    /// The main menu to go back to: own setting, else `AppConfig`'s, else none.
    pub open spec fn target_spec(self, app_config: Option<Seq<char>>) -> Seq<char> {
        resolved_scene_path(self.main_menu_scene_path@, app_config, Seq::empty())
    }

    /// Resolves the main-menu scene path (empty when there is none).
    pub fn resolve_main_menu_scene_path(&self, app_config: Option<String>) -> (r: String)
        ensures
            r@ == self.target_spec(app_config.deep_view()),
    {
        proof {
            reveal_strlit("");
        }
        resolve_scene_path(self.main_menu_scene_path.as_str(), app_config, "")
    }

    /// On `ready`: which buttons to hide; scrolling starts unpaused.
    pub fn on_ready(&mut self, app_config: Option<String>, is_web: bool) -> (l: EndCreditsLayout)
        ensures
            l.hide_menu_button == (old(self).target_spec(app_config.deep_view()).len() == 0),
            l.hide_exit_button == is_web,
            l.hide_end_panel,
            !final(self).scroller.scroll_paused,
            final(self).main_menu_scene_path == old(self).main_menu_scene_path,
            final(self).force_mouse_mode_visible == old(self).force_mouse_mode_visible,
    {
        let target = self.resolve_main_menu_scene_path(app_config);
        self.scroller.on_ready();
        EndCreditsLayout {
            hide_menu_button: target.as_str().is_empty(),
            hide_exit_button: is_web,
            hide_end_panel: true,
        }
    }

    /// The end of the credits: scrolling pauses and the end panel shows.
    pub fn end_reached(&mut self) -> (c: CreditsCommand)
        ensures
            c.kind == CreditsCommandKind::ShowEndPanel,
            c.make_mouse_visible == old(self).force_mouse_mode_visible,
            final(self).scroller.scroll_paused,
            final(self).main_menu_scene_path == old(self).main_menu_scene_path,
            final(self).force_mouse_mode_visible == old(self).force_mouse_mode_visible,
    {
        self.scroller.scroll_paused = true;
        CreditsCommand {
            kind: CreditsCommandKind::ShowEndPanel,
            make_mouse_visible: self.force_mouse_mode_visible,
            target: String::new(),
        }
    }

    /// After a scroll step or a GUI input: reaching the end shows the panel.
    pub fn check_end_reached(&mut self, end_reached: bool) -> (c: CreditsCommand)
        ensures
            end_reached ==> c.kind == CreditsCommandKind::ShowEndPanel
                && c.make_mouse_visible == old(self).force_mouse_mode_visible
                && final(self).scroller.scroll_paused,
            !end_reached ==> c.kind == CreditsCommandKind::Nothing && final(self).scroller
                == old(self).scroller,
            final(self).main_menu_scene_path == old(self).main_menu_scene_path,
            final(self).force_mouse_mode_visible == old(self).force_mouse_mode_visible,
    {
        if end_reached {
            self.end_reached()
        } else {
            CreditsCommand {
                kind: CreditsCommandKind::Nothing,
                make_mouse_visible: false,
                target: String::new(),
            }
        }
    }

    /// Goes back to the main menu, when there is one and `SceneLoader` exists.
    pub fn load_main_menu(&self, app_config: Option<String>, scene_loader_present: bool) -> (c:
        CreditsCommand)
        ensures
            c.kind == load_menu_kind(self.target_spec(app_config.deep_view()), scene_loader_present),
            c.kind == CreditsCommandKind::LoadMainMenu ==> c.target@ == self.target_spec(
                app_config.deep_view(),
            ),
    {
        let target = self.resolve_main_menu_scene_path(app_config);
        if !target.as_str().is_empty() && scene_loader_present {
            CreditsCommand { kind: CreditsCommandKind::LoadMainMenu, make_mouse_visible: false, target }
        } else {
            CreditsCommand {
                kind: CreditsCommandKind::Nothing,
                make_mouse_visible: false,
                target: String::new(),
            }
        }
    }

    /// Leaves the game: back to the main menu on the web, quit elsewhere.
    pub fn exit_game(
        &self,
        is_web: bool,
        in_tree: bool,
        app_config: Option<String>,
        scene_loader_present: bool,
    ) -> (c: CreditsCommand)
        ensures
            c.kind == exit_kind(
                is_web,
                in_tree,
                self.target_spec(app_config.deep_view()),
                scene_loader_present,
            ),
            c.kind == CreditsCommandKind::LoadMainMenu ==> c.target@ == self.target_spec(
                app_config.deep_view(),
            ),
    {
        if is_web {
            return self.load_main_menu(app_config, scene_loader_present);
        }
        if in_tree {
            CreditsCommand { kind: CreditsCommandKind::Quit, make_mouse_visible: false, target: String::new() }
        } else {
            CreditsCommand {
                kind: CreditsCommandKind::Nothing,
                make_mouse_visible: false,
                target: String::new(),
            }
        }
    }

    /// `ui_cancel` was released: the first press shows the end panel, a press
    /// while the panel is visible leaves the game.
    pub fn on_cancel_released(
        &mut self,
        end_panel_visible: bool,
        is_web: bool,
        in_tree: bool,
        app_config: Option<String>,
        scene_loader_present: bool,
    ) -> (c: CreditsCommand)
        ensures
            !end_panel_visible ==> c.kind == CreditsCommandKind::ShowEndPanel
                && c.make_mouse_visible == old(self).force_mouse_mode_visible
                && final(self).scroller.scroll_paused,
            end_panel_visible ==> c.kind == exit_kind(
                is_web,
                in_tree,
                old(self).target_spec(app_config.deep_view()),
                scene_loader_present,
            ) && final(self).scroller == old(self).scroller,
            end_panel_visible && c.kind == CreditsCommandKind::LoadMainMenu ==> c.target@
                == old(self).target_spec(app_config.deep_view()),
            final(self).main_menu_scene_path == old(self).main_menu_scene_path,
            final(self).force_mouse_mode_visible == old(self).force_mouse_mode_visible,
    {
        if !end_panel_visible {
            self.end_reached()
        } else {
            self.exit_game(is_web, in_tree, app_config, scene_loader_present)
        }
    }

    /// The credits became visible or hidden: when visible, the end panel
    /// hides and scrolling restarts from the top, unpaused. Returns whether
    /// it did.
    pub fn on_visibility_changed(&mut self, visible: bool) -> (restart: bool)
        ensures
            restart == visible,
            final(self).scroller.scroll_paused == (old(self).scroller.scroll_paused && !visible),
            final(self).main_menu_scene_path == old(self).main_menu_scene_path,
            final(self).force_mouse_mode_visible == old(self).force_mouse_mode_visible,
    {
        self.scroller.on_visibility_changed(visible)
    }
}

/// When the credits window of the main menu becomes visible: it scrolls back
/// to the first line and takes the focus, when its label exists.
pub fn scrollable_credits_reset(visible: bool, has_label: bool) -> (reset: bool)
    ensures
        reset == (visible && has_label),
{
    visible && has_label
}

/// Once the end of the credits is reached, no scroll step moves them, seen
/// or not, until the restart timer fires (which unpauses) or the screen is
/// shown again.
pub proof fn law_end_stops_scrolling(paused: bool, visible: bool)
    ensures
        !scroll_allowed(paused_after_end_check(paused, true), visible),
        scroll_allowed(paused_after_visibility(paused_after_end_check(paused, true), true), true),
        paused_after_visibility(paused_after_end_check(paused, true), false),
{
}

/// On the web the credits never quit the game: leaving goes back to the main
/// menu or does nothing.
pub proof fn law_web_never_quits(in_tree: bool, target: Seq<char>, scene_loader_present: bool)
    ensures
        exit_kind(true, in_tree, target, scene_loader_present) != CreditsCommandKind::Quit,
{
}

/// The end credits' main menu: their own path whenever that is set, whether
/// or not `AppConfig` exists and whatever it says; otherwise `AppConfig`'s
/// value when that autoload exists; otherwise none.
pub proof fn law_end_credits_target(credits: EndCredits, app_config: Option<Seq<char>>)
    ensures
        credits.main_menu_scene_path@.len() > 0 ==> credits.target_spec(app_config)
            == credits.main_menu_scene_path@,
        credits.main_menu_scene_path@.len() > 0 ==> credits.target_spec(None)
            == credits.main_menu_scene_path@,
        credits.main_menu_scene_path@.len() == 0 && app_config is Some ==> credits.target_spec(
            app_config,
        ) == app_config->0,
        credits.main_menu_scene_path@.len() == 0 && app_config is None ==> credits.target_spec(
            app_config,
        ).len() == 0,
        credits.main_menu_scene_path@.len() > 0 ==> load_menu_kind(credits.target_spec(app_config), true)
            == CreditsCommandKind::LoadMainMenu,
{
}

} // verus!
