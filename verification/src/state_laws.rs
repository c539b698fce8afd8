//! What each call of a host changes, and what it leaves alone.
use vstd::prelude::*;

use crate::state::{
    cursor_shape_code, CursorPosition, MouseCursor, MouseMode, PlayerModel, PlayerState,
};

verus! {

/// Whether two states are configured alike by the host.
pub open spec fn same_settings<P>(state: PlayerModel<P>, other: PlayerModel<P>) -> bool {
    &&& state.mouse_mode == other.mouse_mode
    &&& state.touch_click_enabled == other.touch_click_enabled
    &&& state.backend.mode == other.backend.mode
}

/// Whether the cursor and the fingers are the same in two states.
pub open spec fn same_pointers<P>(state: PlayerModel<P>, other: PlayerModel<P>) -> bool {
    &&& state.cursor == other.cursor
    &&& state.cursor_shape == other.cursor_shape
    &&& state.swipes == other.swipes
}

/// Whether the renderers are the same in two states.
pub open spec fn same_renderer<P>(state: PlayerModel<P>, other: PlayerModel<P>) -> bool {
    &&& state.backend.locked_in == other.backend.locked_in
    &&& state.backend.active == other.backend.active
}

/// The model of a state has each of its fields.
pub proof fn model_shows_every_field<P>(state: PlayerState<P>)
    ensures
        state@.content_ready_notified == state.content_ready_notified,
        state@.paused == state.paused,
        state@.cursor == state.cursor,
        state@.cursor_shape == state.cursor_shape,
        state@.swipes == state.swipes@,
        state@.backend == state.backend,
        state@.mouse_mode == state.mouse_mode,
        state@.touch_click_enabled == state.touch_click_enabled,
{
}

/// A process starts with a movie that is not paused, an unknown cursor, no renderer, and
/// with direct touch that clicks and Vulkan as the settings.
pub proof fn process_starts_with_the_defaults<P>()
    ensures
        ({
            let state = PlayerModel::<P>::initial();
            &&& !state.content_ready_notified
            &&& !state.paused
            &&& state.cursor is None
            &&& state.cursor_shape is None
            &&& forall|finger: i32| !state.swipes.contains_key(finger)
            &&& !state.backend.locked_in
            &&& state.backend.active is None
            &&& state.backend.mode is Vulkan
            &&& state.mouse_mode is DirectTouch
            &&& state.touch_click_enabled
        }),
{
}

/// Toggling flips the pause flag and nothing else.
pub proof fn toggling_touches_only_the_flag<P>(state: PlayerModel<P>)
    ensures
        state.pause_toggled().paused <==> !state.paused,
        state.pause_toggled().content_ready_notified == state.content_ready_notified,
        same_settings(state.pause_toggled(), state),
        same_pointers(state.pause_toggled(), state),
        same_renderer(state.pause_toggled(), state),
{
}

/// Code 0 chooses direct touch and code 1 the trackpad. Any other code changes nothing,
/// and none touches anything else.
pub proof fn mouse_mode_codes_choose_the_mode<P>(state: PlayerModel<P>, code: i32)
    ensures
        ({
            let now = state.with_mouse_mode(code);
            &&& code == 0 ==> now.mouse_mode is DirectTouch
            &&& code == 1 ==> now.mouse_mode is RelativeSwipe
            &&& code != 0 && code != 1 ==> now.mouse_mode == state.mouse_mode
            &&& now.touch_click_enabled == state.touch_click_enabled
            &&& now.backend.mode == state.backend.mode
            &&& now.paused == state.paused
            &&& now.content_ready_notified == state.content_ready_notified
            &&& same_pointers(now, state)
            &&& same_renderer(now, state)
        }),
{
}

/// Code 0 stops touches from clicking and every other code lets them click, whatever was
/// set before. Nothing else is touched.
pub proof fn touch_click_codes_switch_clicking<P>(state: PlayerModel<P>, enabled: i32)
    ensures
        ({
            let now = state.with_touch_click(enabled);
            &&& now.touch_click_enabled <==> enabled != 0
            &&& now.mouse_mode == state.mouse_mode
            &&& now.backend.mode == state.backend.mode
            &&& now.paused == state.paused
            &&& now.content_ready_notified == state.content_ready_notified
            &&& same_pointers(now, state)
            &&& same_renderer(now, state)
        }),
{
}

/// A choice of a backend replaces the earlier one and touches nothing else.
pub proof fn backend_choice_touches_nothing_else<P>(
    state: PlayerModel<P>,
    backend: crate::backend::BackendChoice,
)
    ensures
        ({
            let now = state.with_backend(backend);
            &&& now.backend == backend
            &&& now.mouse_mode == state.mouse_mode
            &&& now.touch_click_enabled == state.touch_click_enabled
            &&& now.paused == state.paused
            &&& now.content_ready_notified == state.content_ready_notified
            &&& same_pointers(now, state)
        }),
{
}

/// Telling the host of its content is remembered, and touches nothing else.
pub proof fn content_ready_touches_only_the_notice<P>(state: PlayerModel<P>, notified: bool)
    ensures
        ({
            let now = state.with_content_ready(notified);
            &&& now.content_ready_notified == notified
            &&& now.paused == state.paused
            &&& same_settings(now, state)
            &&& same_pointers(now, state)
            &&& same_renderer(now, state)
        }),
{
}

/// A new frame gives the cursor its shape and touches nothing else.
pub proof fn new_frame_touches_only_the_shape<P>(state: PlayerModel<P>, shape: MouseCursor)
    ensures
        ({
            let now = state.with_cursor_shape(shape);
            &&& now.cursor_shape == Some(shape)
            &&& now.cursor == state.cursor
            &&& now.swipes == state.swipes
            &&& now.paused == state.paused
            &&& now.content_ready_notified == state.content_ready_notified
            &&& same_settings(now, state)
            &&& same_renderer(now, state)
        }),
{
}

/// A host reads -1 before the first frame, then 0 to 3 for an arrow, a hand, an I-beam
/// and a grabbing hand.
pub proof fn cursor_shapes_are_numbered()
    ensures
        cursor_shape_code(None) == -1,
        cursor_shape_code(Some(MouseCursor::Arrow)) == 0,
        cursor_shape_code(Some(MouseCursor::Hand)) == 1,
        cursor_shape_code(Some(MouseCursor::IBeam)) == 2,
        cursor_shape_code(Some(MouseCursor::Grab)) == 3,
{
}

/// The player gets the cursor's place on the surface, and gets one exactly if the cursor
/// is known, whatever else the state holds.
pub proof fn player_gets_the_place_on_the_surface<P>(
    state: PlayerModel<P>,
    position: CursorPosition<P>,
)
    ensures
        state.cursor is None <==> state.surface_cursor() is None,
        state.cursor == Some(position) ==> state.surface_cursor() == Some(position.surface),
{
}

/// A run that starts has no fingers down, whichever were down before.
pub proof fn new_run_has_no_fingers_down<P>(state: PlayerModel<P>, finger: i32)
    ensures
        !state.reset().swipes.contains_key(finger),
        same_settings(state.reset(), state),
{
}

/// The mode of a host's code does not depend on the mode before.
pub proof fn last_mouse_mode_counts<P>(state: PlayerModel<P>, earlier: i32, code: i32)
    requires
        code == 0 || code == 1,
    ensures
        state.with_mouse_mode(earlier).with_mouse_mode(code) == state.with_mouse_mode(code),
        state.with_mouse_mode(code).mouse_mode == if code == 0 {
            MouseMode::DirectTouch
        } else {
            MouseMode::RelativeSwipe
        },
{
}

} // verus!
