//! Decision logic of the custom game menus: the title screen, the main menu
//! and its animated variant, the pause menu, the credits scrollers and the
//! loading screens. The engine side (nodes, signals, resources, timing and
//! the floating-point animation) drives these state machines and performs
//! the actions they return.
pub mod text;
pub mod input;
pub mod scene_paths;
pub mod title_screen;
pub mod credits;
pub mod loading_screen;
pub mod main_menu;
pub mod intro_menu;
pub mod pause_menu;
