//! The pause menu: the windows it opens over its buttons (and whether they
//! are freed when hidden), which buttons it shows, and where "main menu"
//! leads.
use vstd::prelude::*;
use crate::scene_paths::{resolve_scene_path, resolved_scene_path};

verus! {

/// `Control.FOCUS_NONE`: the menu buttons take no focus while a window is open.
pub open spec fn focus_none() -> i64 {
    0
}

/// `Control.FOCUS_ALL`: the menu buttons take focus again.
pub open spec fn focus_all() -> i64 {
    2
}

/// When the pause layer becomes visible it shows its pause menu, when that
/// node exists.
pub fn pause_layer_shows_menu(layer_visible: bool, has_pause_menu: bool) -> (r: bool)
    ensures
        r == (layer_visible && has_pause_menu),
{
    layer_visible && has_pause_menu
}

/// How to close the open window.
#[derive(Clone, Copy, Debug, PartialEq, Eq, Structural)]
pub enum CloseWindowAction {
    /// No window is open.
    Nothing,
    /// Call the window's `close` method, then forget it.
    CallClose,
    /// Hide the window, then forget it.
    Hide,
}

/// Closes the open window: through its own `close` method when it has one,
/// by hiding it otherwise.
pub fn close_window(window_open: bool, has_close_method: bool) -> (a: CloseWindowAction)
    ensures
        a == (if !window_open {
            CloseWindowAction::Nothing
        } else if has_close_method {
            CloseWindowAction::CallClose
        } else {
            CloseWindowAction::Hide
        }),
{
    if !window_open {
        CloseWindowAction::Nothing
    } else if has_close_method {
        CloseWindowAction::CallClose
    } else {
        CloseWindowAction::Hide
    }
}

/// What showing a window does.
#[derive(Clone, Copy, Debug, PartialEq, Eq, Structural)]
pub struct ShowWindowPlan {
    /// Focus mode given to the menu buttons.
    pub buttons_focus_mode: i64,
    /// Value stored in the window's `queue_free_on_hidden` metadata.
    pub queue_free_on_hidden: bool,
}

/// Showing a window: the buttons stop taking focus and the window remembers
/// whether to be freed once hidden.
pub open spec fn show_window_spec(queue_free_on_hidden: bool) -> ShowWindowPlan {
    ShowWindowPlan { buttons_focus_mode: focus_none(), queue_free_on_hidden }
}

/// Shows a window over the menu: the buttons stop taking focus, the window
/// remembers whether to be freed once hidden, and it becomes the open window.
pub fn show_window(queue_free_on_hidden: bool) -> (p: ShowWindowPlan)
    ensures
        p == show_window_spec(queue_free_on_hidden),
{
    ShowWindowPlan { buttons_focus_mode: 0, queue_free_on_hidden }
}

/// What happens when the open window is hidden.
#[derive(Clone, Copy, Debug, PartialEq, Eq, Structural)]
pub struct WindowHiddenPlan {
    /// Forget the open window.
    pub clear_open_window: bool,
    /// Free the window (deferred).
    pub queue_free: bool,
    /// Focus mode given back to the menu buttons.
    pub buttons_focus_mode: i64,
}

/// The open window was hidden: forget it, free it when it was marked so, and
/// let the buttons take focus again.
pub open spec fn window_hidden_spec(window_open: bool, queue_free_meta: bool) -> WindowHiddenPlan {
    WindowHiddenPlan {
        clear_open_window: window_open,
        queue_free: window_open && queue_free_meta,
        buttons_focus_mode: focus_all(),
    }
}

/// The open window was hidden: forget it, free it when it was marked so,
/// and let the buttons take focus again. `queue_free_meta` is the window's
/// `queue_free_on_hidden` metadata (false when unset).
pub fn on_open_window_hidden(window_open: bool, queue_free_meta: bool) -> (p: WindowHiddenPlan)
    ensures
        p == window_hidden_spec(window_open, queue_free_meta),
{
    if !window_open {
        return WindowHiddenPlan { clear_open_window: false, queue_free: false, buttons_focus_mode: 2 };
    }
    WindowHiddenPlan { clear_open_window: true, queue_free: queue_free_meta, buttons_focus_mode: 2 }
}

/// The main-menu scene of the pause menu: the owner's path, else the non-nil
/// `AppConfig.main_menu_scene_path`, else none.
pub fn get_main_menu_scene_path(main_menu_scene_path: &str, app_config: Option<String>) -> (r:
    String)
    ensures
        r@ == resolved_scene_path(main_menu_scene_path@, app_config.deep_view(), Seq::empty()),
{
    proof {
        reveal_strlit("");
    }
    resolve_scene_path(main_menu_scene_path, app_config, "")
}

/// Which buttons of the pause menu are visible.
#[derive(Clone, Copy, Debug, PartialEq, Eq, Structural)]
pub struct PauseMenuButtons {
    /// The exit button: not on the web.
    pub exit_visible: bool,
    /// The options button: an options scene is set.
    pub options_visible: bool,
    /// The main-menu button: a main-menu scene is set.
    pub main_menu_visible: bool,
}

/// The visibility of the pause menu's buttons.
pub fn pause_menu_buttons(is_web: bool, has_options_scene: bool, main_menu_scene_path: &str) -> (b:
    PauseMenuButtons)
    ensures
        b.exit_visible == !is_web,
        b.options_visible == has_options_scene,
        b.main_menu_visible == (main_menu_scene_path@.len() > 0),
{
    PauseMenuButtons {
        exit_visible: !is_web,
        options_visible: has_options_scene,
        main_menu_visible: !main_menu_scene_path.is_empty(),
    }
}

/// What loading a scene from the pause menu does.
#[derive(Clone, Copy, Debug, PartialEq, Eq, Structural)]
pub struct PauseLoadScenePlan {
    /// Unpause the tree.
    pub unpause: bool,
    /// Call `load_scene` on `SceneLoader`.
    pub load: bool,
}

/// Loading a scene from the pause menu: the tree is unpaused first, then the
/// scene is loaded through `SceneLoader` when it exists.
pub fn pause_load_scene(in_tree: bool, scene_loader_present: bool) -> (p: PauseLoadScenePlan)
    ensures
        p.unpause == in_tree,
        p.load == (in_tree && scene_loader_present),
{
    PauseLoadScenePlan { unpause: in_tree, load: in_tree && scene_loader_present }
}

/// A window shown over the pause menu and then hidden is freed exactly when
/// it was shown to be freed, and the buttons take focus again after having
/// lost it.
pub proof fn law_window_round_trip(queue_free_on_hidden: bool)
    ensures
        window_hidden_spec(true, show_window_spec(queue_free_on_hidden).queue_free_on_hidden).queue_free
            == queue_free_on_hidden,
        window_hidden_spec(true, show_window_spec(queue_free_on_hidden).queue_free_on_hidden).clear_open_window,
        show_window_spec(queue_free_on_hidden).buttons_focus_mode == focus_none(),
        window_hidden_spec(true, show_window_spec(queue_free_on_hidden).queue_free_on_hidden).buttons_focus_mode
            == focus_all(),
{
}

} // verus!
