//! Which scene or image path a menu uses: its own setting, the project's
//! `AppConfig` autoload, or a built-in default.
use vstd::prelude::*;
use crate::text::{strip_edges, strip_edges_spec};

verus! {

/// The scene of the animated main menu, used by the title screens when
/// nothing else names one.
pub open spec fn default_main_menu_scene() -> Seq<char> {
    "res://scenes/menus/main_menu/main_menu_with_animations.tscn"@
}

/// The opening background image of the title screen.
pub open spec fn default_title_background() -> Seq<char> {
    "res://assets/menu_custom/opening_bg_01.png"@
}

/// The background image of the scripted title screen and of the animated
/// main menu.
pub open spec fn default_menu_background() -> Seq<char> {
    "res://assets/menu_custom/main_menu_bg_rustland_01.png"@
}

/// The default main-menu scene path.
pub fn default_main_menu_scene_path() -> (r: String)
    ensures
        r@ == default_main_menu_scene(),
{
    "res://scenes/menus/main_menu/main_menu_with_animations.tscn".to_owned()
}

/// The default title-screen background path.
pub fn default_title_background_path() -> (r: String)
    ensures
        r@ == default_title_background(),
{
    "res://assets/menu_custom/opening_bg_01.png".to_owned()
}

/// The default main-menu background path.
pub fn default_menu_background_path() -> (r: String)
    ensures
        r@ == default_menu_background(),
{
    "res://assets/menu_custom/main_menu_bg_rustland_01.png".to_owned()
}

/// A setting of the node itself wins when it is not empty; otherwise the
/// value configured in an autoload (when there is one), otherwise `default`.
pub open spec fn resolved_scene_path(
    own: Seq<char>,
    configured: Option<Seq<char>>,
    default: Seq<char>,
) -> Seq<char> {
    if own.len() > 0 {
        own
    } else {
        match configured {
            Some(v) => v,
            None => default,
        }
    }
}

/// Resolves a scene path: `own` when it is not empty, else the configured
/// value, else `default`.
pub fn resolve_scene_path(own: &str, configured: Option<String>, default: &str) -> (r: String)
    ensures
        r@ == resolved_scene_path(own@, configured.deep_view(), default@),
{
    if !own.is_empty() {
        return own.to_owned();
    }
    match configured {
        Some(v) => v,
        None => default.to_owned(),
    }
}

/// The images that the title screen tries to load for its background, in
/// order: the configured path with its edges stripped (when that is not
/// empty), then the default opening image (unless it is the same path).
pub open spec fn background_candidates_spec(path: Seq<char>) -> Seq<Seq<char>> {
    let normalized = strip_edges_spec(path);
    let first: Seq<Seq<char>> = if normalized.len() > 0 { seq![normalized] } else { seq![] };
    if normalized != default_title_background() {
        first.push(default_title_background())
    } else {
        first
    }
}

/// Lists the paths to try, in order, for the title-screen background.
pub fn background_load_candidates(path: &str) -> (r: Vec<String>)
    ensures
        r.deep_view() == background_candidates_spec(path@),
{
    let normalized = strip_edges(path);
    let fallback = default_title_background_path();
    let mut r: Vec<String> = Vec::new();
    if !normalized.as_str().is_empty() {
        r.push(normalized.clone());
    }
    if !(normalized == fallback) {
        r.push(fallback);
    }
    proof {
        assert(r.deep_view() =~= background_candidates_spec(path@));
    }
    r
}

/// The path from which a menu loads a texture: the given path with its edges
/// stripped, or nothing when that leaves it empty.
pub open spec fn texture_path_spec(path: Seq<char>) -> Option<Seq<char>> {
    if strip_edges_spec(path).len() > 0 {
        Some(strip_edges_spec(path))
    } else {
        None
    }
}

/// The path to load a texture from, if any.
pub fn texture_load_path(path: &str) -> (r: Option<String>)
    ensures
        r.deep_view() == texture_path_spec(path@),
{
    let normalized = strip_edges(path);
    if normalized.as_str().is_empty() {
        None
    } else {
        Some(normalized)
    }
}

} // verus!
