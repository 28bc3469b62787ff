//! Visibility of the keyboard-shortcut overlay.
use vstd::prelude::*;

verus! {

/// Whether the shortcut overlay is shown.
#[derive(Debug, Clone, Copy, PartialEq, Eq, Structural)]
pub struct WhichKeyState {
    pub visible: bool,
}

impl Default for WhichKeyState {
    fn default() -> (s: Self)
        ensures
            !s.visible,
    {
        WhichKeyState { visible: false }
    }
}

impl WhichKeyState {
    /// A hidden overlay.
    pub fn new() -> (s: Self)
        ensures
            !s.visible,
    {
        WhichKeyState { visible: false }
    }

    pub fn show(&mut self)
        ensures
            final(self).visible,
    {
        self.visible = true;
    }

    /// Hides the overlay.
    pub fn hide_overlay(&mut self)
        ensures
            !final(self).visible,
    {
        self.visible = false;
    }

    /// Shows a hidden overlay and hides a shown one.
    pub fn toggle(&mut self)
        ensures
            final(self).visible == !old(self).visible,
    {
        self.visible = !self.visible;
    }
}

} // verus!
