use vox::logic::play::{
    CursorAction, PipelineType, Play, PlayKey, PlayMouseButton, PlayState,
};
use vox::logic::{Logic, LogicState};

#[test]
fn a_fresh_session_is_paused_on_the_rasterizer() {
    let play = Play::new();
    assert_eq!(play.state, PlayState::Pause);
    assert_eq!(play.pipeline, PipelineType::TestRasterizer);
}

#[test]
fn escape_pauses_and_releases_the_cursor() {
    let mut play = Play::new();
    play.process_mouse_input(PlayMouseButton::Left, true);
    assert_eq!(play.state, PlayState::Playing);
    let effects = play.process_keyboard(PlayKey::Escape, true);
    assert_eq!(play.state, PlayState::Pause);
    assert_eq!(effects.cursor, CursorAction::Release);
    assert!(!effects.reset_camera);
}

#[test]
fn releasing_escape_changes_nothing() {
    let mut play = Play::new();
    play.process_mouse_input(PlayMouseButton::Left, true);
    let effects = play.process_keyboard(PlayKey::Escape, false);
    assert_eq!(play.state, PlayState::Playing);
    assert_eq!(effects.cursor, CursorAction::Keep);
    assert!(!effects.reset_camera);
}

#[test]
fn pipeline_keys_switch_and_reset_the_camera() {
    let mut play = Play::new();
    let effects = play.process_keyboard(PlayKey::KeyR, true);
    assert_eq!(play.pipeline, PipelineType::TestRayMarcher);
    assert!(effects.reset_camera);
    let effects = play.process_keyboard(PlayKey::KeyE, true);
    assert_eq!(play.pipeline, PipelineType::TestRasterizer);
    assert!(effects.reset_camera);
    let effects = play.process_keyboard(PlayKey::KeyR, false);
    assert_eq!(play.pipeline, PipelineType::TestRasterizer);
    assert!(!effects.reset_camera);
}

#[test]
fn enter_resets_the_camera_on_press_and_release() {
    let mut play = Play::new();
    assert!(play.process_keyboard(PlayKey::Enter, true).reset_camera);
    assert!(play.process_keyboard(PlayKey::Enter, false).reset_camera);
    assert_eq!(play.state, PlayState::Pause);
    assert_eq!(play.pipeline, PipelineType::TestRasterizer);
}

#[test]
fn other_keys_have_no_effect() {
    let mut play = Play::new();
    let effects = play.process_keyboard(PlayKey::Other, true);
    assert_eq!(play.state, PlayState::Pause);
    assert_eq!(play.pipeline, PipelineType::TestRasterizer);
    assert_eq!(effects.cursor, CursorAction::Keep);
    assert!(!effects.reset_camera);
}

#[test]
fn left_click_starts_playing_and_grabs_the_cursor() {
    let mut play = Play::new();
    let action = play.process_mouse_input(PlayMouseButton::Left, true);
    assert_eq!(play.state, PlayState::Playing);
    assert_eq!(action, CursorAction::Grab);
    assert!(play.is_playing());
}

#[test]
fn other_buttons_leave_the_cursor_alone() {
    let mut play = Play::new();
    for button in [
        PlayMouseButton::Right,
        PlayMouseButton::Middle,
        PlayMouseButton::Back,
        PlayMouseButton::Forward,
        PlayMouseButton::Other,
    ] {
        let action = play.process_mouse_input(button, true);
        assert_eq!(action, CursorAction::Keep);
        assert_eq!(play.state, PlayState::Pause);
    }
    let action = play.process_mouse_input(PlayMouseButton::Left, false);
    assert_eq!(action, CursorAction::Keep);
    assert_eq!(play.state, PlayState::Pause);
}

#[test]
fn logic_dispatches_to_the_play_session() {
    let mut logic = Logic::new();
    assert_eq!(logic.state, LogicState::Playing);
    assert!(!logic.forwards_to_camera());
    let action = logic.process_mouse_input(PlayMouseButton::Left, true);
    assert_eq!(action, CursorAction::Grab);
    assert!(logic.forwards_to_camera());
    let effects = logic.process_keyboard(PlayKey::Escape, true);
    assert_eq!(effects.cursor, CursorAction::Release);
    assert!(!logic.forwards_to_camera());
}

#[test]
fn menu_mode_swallows_every_event() {
    let mut logic = Logic::new();
    logic.state = LogicState::Menu;
    let effects = logic.process_keyboard(PlayKey::Escape, true);
    assert_eq!(effects.cursor, CursorAction::Keep);
    assert!(!effects.reset_camera);
    let action = logic.process_mouse_input(PlayMouseButton::Left, true);
    assert_eq!(action, CursorAction::Keep);
    assert_eq!(logic.play.state, PlayState::Pause);
    assert!(!logic.forwards_to_camera());
}
