//! What the menus read of an input event, as plain flags.
use vstd::prelude::*;

verus! {

/// The parts of an input event that the menus decide on.
#[derive(Clone, Copy, Debug, PartialEq, Eq, Structural)]
pub struct InputSummary {
    /// The `ui_accept` action was released by this event.
    pub accept_released: bool,
    /// The `ui_select` action was released by this event.
    pub select_released: bool,
    /// The `ui_cancel` action was released by this event.
    pub cancel_released: bool,
    /// The event is a mouse-button event.
    pub mouse_button: bool,
    /// For a mouse-button event: the button is pressed (not released).
    pub mouse_pressed: bool,
    /// For a mouse-button event: the button is the left one.
    pub mouse_left: bool,
}

impl InputSummary {
    /// A press of the left mouse button.
    pub open spec fn is_left_press_spec(self) -> bool {
        self.mouse_button && self.mouse_pressed && self.mouse_left
    }

    /// A mouse button being released.
    pub open spec fn is_mouse_release_spec(self) -> bool {
        self.mouse_button && !self.mouse_pressed
    }

    /// An event that skips the intro animation of the main menu: releasing
    /// accept, select or cancel, or releasing any mouse button.
    pub open spec fn skips_intro_spec(self) -> bool {
        self.accept_released || self.select_released || self.cancel_released
            || self.is_mouse_release_spec()
    }

    /// Whether the event is a press of the left mouse button.
    pub fn is_left_press(&self) -> (r: bool)
        ensures
            r == self.is_left_press_spec(),
    {
        self.mouse_button && self.mouse_pressed && self.mouse_left
    }

    /// Whether the event releases a mouse button.
    pub fn is_mouse_button_released(&self) -> (r: bool)
        ensures
            r == self.is_mouse_release_spec(),
    {
        self.mouse_button && !self.mouse_pressed
    }

    /// Whether the event skips the intro animation.
    pub fn event_skips_intro(&self) -> (r: bool)
        ensures
            r == self.skips_intro_spec(),
    {
        if self.accept_released || self.select_released || self.cancel_released {
            return true;
        }
        self.is_mouse_button_released()
    }
}

} // verus!
