//! The top-level state machine: dispatches every event to the play session
//! or to the menu, whichever is active.

use vstd::prelude::*;

use crate::logic::menu::Menu;
use crate::logic::play::{CursorAction, Play, PlayEffects, PlayKey, PlayMouseButton};
use crate::logic::play::{
    keyboard_cursor_action, keyboard_next_pipeline, keyboard_next_state, keyboard_resets_camera,
    mouse_cursor_action, mouse_next_state,
};

pub mod menu;
pub mod play;

verus! {

/// Which top-level mode is active.
#[derive(Debug, PartialEq, Eq, Copy, Clone)]
pub enum LogicState {
    /// The play session receives all events.
    Playing,
    /// The menu receives all events.
    Menu,
}

/// The whole decision state of the program: the active mode, the play
/// session, and the menu.
#[derive(Debug, PartialEq, Eq, Copy, Clone)]
pub struct Logic {
    /// The active mode.
    pub state: LogicState,
    /// The play session's decision state.
    pub play: Play,
    /// The menu's decision state.
    pub menu: Menu,
}

impl Logic {
    /// A fresh program state: playing, with a fresh session and menu.
    pub fn new() -> (r: Self)
        ensures
            r.state is Playing,
            r.play.state is Pause,
            r.play.pipeline is TestRasterizer,
    {
        Self { state: LogicState::Playing, play: Play::new(), menu: Menu::new() }
    }

    /// Dispatches one keyboard event to the active mode and returns what
    /// the frame loop must do.
    pub fn process_keyboard(&mut self, key: PlayKey, pressed: bool) -> (r: PlayEffects)
        ensures
            final(self).state == old(self).state,
            final(self).menu == old(self).menu,
            old(self).state is Playing ==> {
                &&& final(self).play.state == keyboard_next_state(old(self).play.state, key, pressed)
                &&& final(self).play.pipeline == keyboard_next_pipeline(
                    old(self).play.pipeline,
                    key,
                    pressed,
                )
                &&& r.cursor == keyboard_cursor_action(key, pressed)
                &&& r.reset_camera == keyboard_resets_camera(key, pressed)
            },
            old(self).state is Menu ==> final(self).play == old(self).play && r.cursor is Keep
                && !r.reset_camera,
    {
        match self.state {
            LogicState::Playing => self.play.process_keyboard(key, pressed),
            LogicState::Menu => self.menu.process_keyboard(key, pressed),
        }
    }

    /// Dispatches one mouse button event to the active mode and returns the
    /// cursor action it calls for.
    pub fn process_mouse_input(&mut self, button: PlayMouseButton, pressed: bool) -> (r:
        CursorAction)
        ensures
            final(self).state == old(self).state,
            final(self).menu == old(self).menu,
            old(self).state is Playing ==> {
                &&& final(self).play.state == mouse_next_state(old(self).play.state, button, pressed)
                &&& final(self).play.pipeline == old(self).play.pipeline
                &&& r == mouse_cursor_action(button, pressed)
            },
            old(self).state is Menu ==> final(self).play == old(self).play && r is Keep,
    {
        match self.state {
            LogicState::Playing => self.play.process_mouse_input(button, pressed),
            LogicState::Menu => self.menu.process_mouse_input(button, pressed),
        }
    }

    /// Whether mouse motion and per-frame updates reach the play session's
    /// camera controller: only in play mode, and only while playing.
    pub fn forwards_to_camera(&self) -> (r: bool)
        ensures
            r == (self.state is Playing && self.play.state is Playing),
    {
        match self.state {
            LogicState::Playing => self.play.is_playing(),
            LogicState::Menu => false,
        }
    }
}

} // verus!
