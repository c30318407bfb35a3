//! The menu state machine. The menu has no behavior yet: every event
//! leaves it unchanged and asks nothing of the frame loop.

use vstd::prelude::*;

use crate::logic::play::{CursorAction, PlayEffects, PlayKey, PlayMouseButton};

verus! {

/// The (still empty) menu state.
#[derive(Debug, PartialEq, Eq, Copy, Clone)]
pub struct Menu {}

impl Menu {
    /// Builds the menu.
    pub fn new() -> (r: Self)
        ensures
            r == (Menu {  }),
    {
        Self {  }
    }

    /// Applies one keyboard event: no effect.
    pub fn process_keyboard(&mut self, key: PlayKey, pressed: bool) -> (r: PlayEffects)
        ensures
            *final(self) == *old(self),
            r.cursor is Keep,
            !r.reset_camera,
    {
        let _ = key;
        let _ = pressed;
        PlayEffects { cursor: CursorAction::Keep, reset_camera: false }
    }

    /// Applies one mouse button event: no effect.
    pub fn process_mouse_input(&mut self, button: PlayMouseButton, pressed: bool) -> (r:
        CursorAction)
        ensures
            *final(self) == *old(self),
            r is Keep,
    {
        let _ = button;
        let _ = pressed;
        CursorAction::Keep
    }
}

} // verus!
