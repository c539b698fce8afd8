use ruffle_android::backend::{ModeChange, RenderBackend};
use ruffle_android::state::{
    content_ready_attempted, lock_poison_tolerant, notify_content_ready_once,
    reset_player_state, CursorPosition, MouseCursor, MouseMode, PlayerState,
};
use ruffle_android::touch::Swipe;

type State = PlayerState<(f64, f64)>;

#[test]
fn initial_state() {
    let state = State::new();
    assert_eq!(state.last_mouse_position(), None);
    assert_eq!(state.cursor_position(), None);
    assert_eq!(state.cursor_shape(), -1);
    assert_eq!(state.is_paused(), 0);
    assert_eq!(state.active_backend(), -1);
    assert_eq!(state.mouse_mode, MouseMode::DirectTouch);
    assert!(state.touch_click_enabled);
}

#[test]
fn reset_forgets_the_run_and_keeps_the_configuration() {
    let mut state = State::new();
    state.set_mouse_mode(1);
    state.set_touch_click_enabled(0);
    state.set_backend_mode(1);
    state.toggle_pause();
    state.set_cursor_shape(MouseCursor::Grab);
    state.set_last_mouse_position(CursorPosition { surface: (4.0, 5.0), view: (2.0, 2.5) });
    state.swipes.press(3, Swipe { start: (1.0, 1.0), anchor: (4.0, 5.0) });
    assert!(notify_content_ready_once(&mut state));
    let requested = state.backend.begin();
    state.backend.attempt_finished(requested, true);

    reset_player_state(&mut state);

    assert_eq!(state.last_mouse_position(), None);
    assert_eq!(state.cursor_position(), None);
    assert_eq!(state.cursor_shape(), -1);
    assert_eq!(state.is_paused(), 0);
    assert_eq!(state.active_backend(), -1);
    assert!(!state.backend.locked_in);
    assert_eq!(state.swipes.get(3), None);
    assert!(!state.content_ready_notified);

    assert_eq!(state.mouse_mode, MouseMode::RelativeSwipe);
    assert!(!state.touch_click_enabled);
    assert_eq!(state.backend.mode, RenderBackend::OpenGl);
}

#[test]
fn second_launch_is_told_of_its_content() {
    let mut state = State::new();
    assert!(notify_content_ready_once(&mut state));
    reset_player_state(&mut state);
    assert!(notify_content_ready_once(&mut state));
}

#[test]
fn content_ready_is_claimed_once() {
    let mut state = State::new();
    assert!(notify_content_ready_once(&mut state));
    assert!(!notify_content_ready_once(&mut state));
    assert!(!notify_content_ready_once(&mut state));
}

#[test]
fn undelivered_content_ready_is_retried() {
    let mut state = State::new();
    assert!(notify_content_ready_once(&mut state));
    content_ready_attempted(&mut state, false);
    assert!(!state.content_ready_notified);
    assert!(notify_content_ready_once(&mut state));
    content_ready_attempted(&mut state, true);
    assert!(state.content_ready_notified);
    assert!(!notify_content_ready_once(&mut state));
}

#[test]
fn pause_is_seen_at_once() {
    let mut state = State::new();
    assert!(state.toggle_pause());
    assert_eq!(state.is_paused(), 1);
    assert!(!state.toggle_pause());
    assert_eq!(state.is_paused(), 0);
}

#[test]
fn unknown_mouse_modes_are_ignored() {
    let mut state = State::new();
    assert!(state.set_mouse_mode(1));
    for mode in [-1, 2, 256, 257, i32::MIN] {
        assert!(!state.set_mouse_mode(mode));
        assert_eq!(state.mouse_mode, MouseMode::RelativeSwipe);
    }
    assert!(state.set_mouse_mode(0));
    assert_eq!(state.mouse_mode, MouseMode::DirectTouch);
}

#[test]
fn touch_click_is_on_for_every_code_but_zero() {
    let mut state = State::new();
    state.set_touch_click_enabled(0);
    assert!(!state.touch_click_enabled);
    for enabled in [1, -1, 2, 256] {
        state.set_touch_click_enabled(0);
        state.set_touch_click_enabled(enabled);
        assert!(state.touch_click_enabled);
    }
}

#[test]
fn backend_choice_of_the_host() {
    let mut state = State::new();
    assert_eq!(state.set_backend_mode(1), ModeChange::Applied);
    assert_eq!(state.set_backend_mode(7), ModeChange::Ignored);
    assert_eq!(state.backend.begin(), RenderBackend::OpenGl);
    assert_eq!(state.set_backend_mode(0), ModeChange::Deferred);
    state.backend.attempt_finished(RenderBackend::OpenGl, true);
    assert_eq!(state.active_backend(), 1);
}

#[test]
fn cursor_shapes_have_codes() {
    let mut state = State::new();
    for (shape, code) in [
        (MouseCursor::Arrow, 0),
        (MouseCursor::Hand, 1),
        (MouseCursor::IBeam, 2),
        (MouseCursor::Grab, 3),
    ] {
        state.set_cursor_shape(shape);
        assert_eq!(state.cursor_shape(), code);
    }
}

#[test]
fn top_left_corner_is_a_position() {
    let mut state = State::new();
    state.set_last_mouse_position(CursorPosition { surface: (0.0, 0.0), view: (0.0, 0.0) });
    assert_eq!(state.last_mouse_position(), Some((0.0, 0.0)));
    assert_eq!(state.cursor_position(), Some((0.0, 0.0)));
}

#[test]
fn cursor_is_known_in_both_measures() {
    let mut state = State::new();
    state.set_last_mouse_position(CursorPosition { surface: (-8.0, 6.0), view: (-4.0, 3.0) });
    assert_eq!(state.last_mouse_position(), Some((-8.0, 6.0)));
    assert_eq!(state.cursor_position(), Some((-4.0, 3.0)));
}

#[test]
fn poisoned_locks_are_taken_all_the_same() {
    assert_eq!(lock_poison_tolerant(Ok(5)), 5);
    assert_eq!(lock_poison_tolerant(Err(6)), 6);
}
