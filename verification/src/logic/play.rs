//! The in-game state machine: play/pause state, the active render pipeline,
//! and the decisions driven by keyboard and mouse input. The surrounding
//! frame loop performs the window and camera actions these decisions call
//! for.

use vstd::prelude::*;

verus! {

/// Whether the player is in control or the game is paused.
#[derive(Debug, PartialEq, Eq, Copy, Clone)]
pub enum PlayState {
    /// Input drives the camera; the cursor is grabbed.
    Playing,
    /// Input is ignored; the cursor is free.
    Pause,
}

/// Which render pipeline draws the scene.
#[derive(Debug, PartialEq, Eq, Copy, Clone)]
pub enum PipelineType {
    /// The rasterizing test pipeline.
    TestRasterizer,
    /// The ray-marching test pipeline.
    TestRayMarcher,
}

/// The keys the in-game state machine reacts to; anything else is `Other`.
#[derive(Debug, PartialEq, Eq, Copy, Clone)]
pub enum PlayKey {
    /// Pauses the game and frees the cursor.
    Escape,
    /// Selects the rasterizing pipeline and resets the camera.
    KeyE,
    /// Selects the ray-marching pipeline and resets the camera.
    KeyR,
    /// Resets the camera.
    Enter,
    /// Any key without an effect of its own.
    Other,
}

/// The mouse buttons the in-game state machine distinguishes.
#[derive(Debug, PartialEq, Eq, Copy, Clone)]
pub enum PlayMouseButton {
    /// Starts playing and grabs the cursor.
    Left,
    /// No effect.
    Right,
    /// No effect.
    Middle,
    /// No effect.
    Back,
    /// No effect.
    Forward,
    /// Any other button; no effect.
    Other,
}

/// What the frame loop must do to the window cursor after a decision.
#[derive(Debug, PartialEq, Eq, Copy, Clone)]
pub enum CursorAction {
    /// Grab the cursor and hide it.
    Grab,
    /// Free the cursor and show it.
    Release,
    /// Leave the cursor as it is.
    Keep,
}

/// What the frame loop must do after a keyboard decision.
#[derive(Debug, PartialEq, Eq, Copy, Clone)]
pub struct PlayEffects {
    /// What to do to the window cursor.
    pub cursor: CursorAction,
    /// Whether to reset the camera to its start pose.
    pub reset_camera: bool,
}

/// The play state after a key event: a pressed escape pauses, everything
/// else leaves the state alone.
pub open spec fn keyboard_next_state(state: PlayState, key: PlayKey, pressed: bool) -> PlayState {
    if pressed && key is Escape {
        PlayState::Pause
    } else {
        state
    }
}

/// The active pipeline after a key event: a pressed E selects the
/// rasterizer, a pressed R the ray marcher, everything else keeps the
/// current choice.
pub open spec fn keyboard_next_pipeline(
    pipeline: PipelineType,
    key: PlayKey,
    pressed: bool,
) -> PipelineType {
    if pressed && key is KeyE {
        PipelineType::TestRasterizer
    } else if pressed && key is KeyR {
        PipelineType::TestRayMarcher
    } else {
        pipeline
    }
}

/// The cursor action a key event calls for: a pressed escape frees the
/// cursor.
pub open spec fn keyboard_cursor_action(key: PlayKey, pressed: bool) -> CursorAction {
    if pressed && key is Escape {
        CursorAction::Release
    } else {
        CursorAction::Keep
    }
}

/// Whether a key event resets the camera: a pressed E or R does, and enter
/// does on both press and release.
pub open spec fn keyboard_resets_camera(key: PlayKey, pressed: bool) -> bool {
    (pressed && (key is KeyE || key is KeyR)) || key is Enter
}

/// The play state after a mouse button event: a pressed left button starts
/// playing, everything else leaves the state alone.
pub open spec fn mouse_next_state(
    state: PlayState,
    button: PlayMouseButton,
    pressed: bool,
) -> PlayState {
    if button is Left && pressed {
        PlayState::Playing
    } else {
        state
    }
}

/// The cursor action a mouse button event calls for: a pressed left button
/// grabs the cursor.
pub open spec fn mouse_cursor_action(button: PlayMouseButton, pressed: bool) -> CursorAction {
    if button is Left && pressed {
        CursorAction::Grab
    } else {
        CursorAction::Keep
    }
}

/// The decision state of a play session. The camera pose itself and the
/// camera controller live with the frame loop; this type owns every
/// decision about them.
#[derive(Debug, PartialEq, Eq, Copy, Clone)]
pub struct Play {
    /// Whether the player is in control.
    pub state: PlayState,
    /// Which pipeline draws the scene.
    pub pipeline: PipelineType,
}

impl Play {
    /// A fresh session: paused, drawing with the rasterizer.
    pub fn new() -> (r: Self)
        ensures
            r.state is Pause,
            r.pipeline is TestRasterizer,
    {
        Self { state: PlayState::Pause, pipeline: PipelineType::TestRasterizer }
    }

    /// Applies one keyboard event and returns what the frame loop must do:
    /// escape pauses and frees the cursor, E and R switch the pipeline and
    /// reset the camera, enter resets the camera.
    pub fn process_keyboard(&mut self, key: PlayKey, pressed: bool) -> (r: PlayEffects)
        ensures
            final(self).state == keyboard_next_state(old(self).state, key, pressed),
            final(self).pipeline == keyboard_next_pipeline(old(self).pipeline, key, pressed),
            r.cursor == keyboard_cursor_action(key, pressed),
            r.reset_camera == keyboard_resets_camera(key, pressed),
    {
        match key {
            PlayKey::Escape => {
                if pressed {
                    self.state = PlayState::Pause;
                    PlayEffects { cursor: CursorAction::Release, reset_camera: false }
                } else {
                    PlayEffects { cursor: CursorAction::Keep, reset_camera: false }
                }
            },
            PlayKey::KeyE => {
                if pressed {
                    self.pipeline = PipelineType::TestRasterizer;
                    PlayEffects { cursor: CursorAction::Keep, reset_camera: true }
                } else {
                    PlayEffects { cursor: CursorAction::Keep, reset_camera: false }
                }
            },
            PlayKey::KeyR => {
                if pressed {
                    self.pipeline = PipelineType::TestRayMarcher;
                    PlayEffects { cursor: CursorAction::Keep, reset_camera: true }
                } else {
                    PlayEffects { cursor: CursorAction::Keep, reset_camera: false }
                }
            },
            PlayKey::Enter => PlayEffects { cursor: CursorAction::Keep, reset_camera: true },
            PlayKey::Other => PlayEffects { cursor: CursorAction::Keep, reset_camera: false },
        }
    }

    /// Applies one mouse button event and returns what the frame loop must
    /// do to the cursor: a pressed left button starts playing and grabs the
    /// cursor.
    pub fn process_mouse_input(&mut self, button: PlayMouseButton, pressed: bool) -> (r:
        CursorAction)
        ensures
            final(self).state == mouse_next_state(old(self).state, button, pressed),
            final(self).pipeline == old(self).pipeline,
            r == mouse_cursor_action(button, pressed),
    {
        match button {
            PlayMouseButton::Left => {
                if pressed {
                    self.state = PlayState::Playing;
                    CursorAction::Grab
                } else {
                    CursorAction::Keep
                }
            },
            _ => CursorAction::Keep,
        }
    }

    /// Whether mouse motion and per-frame updates reach the camera
    /// controller: they do only while playing.
    pub fn is_playing(&self) -> (r: bool)
        ensures
            r == (self.state is Playing),
    {
        match self.state {
            PlayState::Playing => true,
            PlayState::Pause => false,
        }
    }
}

} // verus!
