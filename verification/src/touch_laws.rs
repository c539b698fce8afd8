//! What touching the surface does to the cursor, said of the state itself.
use vstd::prelude::*;

use crate::custom_event::{MouseButton, PlayerEvent};
use crate::laws::{leaves_finger_alone, swipe_counts_from_where_it_began, StateChange};
use crate::state::{CursorPosition, PlayerModel};
use crate::touch::{
    is_first_tracked, is_press, is_release, motion_event_of, CursorTarget, MotionAction, Swipe,
};

verus! {

/// Three actions press, three release, and moving and everything else do neither.
pub proof fn actions_press_release_or_neither(action: MotionAction)
    ensures
        is_press(action) <==> action is Down || action is PointerDown || action is ButtonPress,
        is_release(action) <==> action is Up || action is PointerUp || action is ButtonRelease,
        !(is_press(action) && is_release(action)),
        action is Move || action is Other ==> !is_press(action) && !is_release(action),
{
}

/// The first tracked pointer is tracked and none before it is, so there is at most one,
/// and there is one if any pointer is tracked.
pub proof fn first_tracked_pointer_is_unique<P>(
    swipes: Map<i32, Swipe<P>>,
    pointers: Seq<i32>,
    index: int,
    other: int,
)
    requires
        0 <= other < pointers.len(),
    ensures
        is_first_tracked(swipes, pointers, index) ==> {
            &&& 0 <= index < pointers.len()
            &&& swipes.contains_key(pointers[index])
            &&& swipes.contains_key(pointers[other]) ==> index <= other
        },
        swipes.contains_key(pointers[other]) && (forall|i: int|
            0 <= i < other ==> !swipes.contains_key(#[trigger] pointers[i])) ==> is_first_tracked(
            swipes,
            pointers,
            other,
        ),
{
}

/// The pointer that an event names drives the cursor, but for a move on the trackpad
/// while a tracked finger takes part in it: then the first such finger does.
pub proof fn moves_follow_the_tracked_finger<P>(
    state: PlayerModel<P>,
    action: MotionAction,
    acted_on: int,
    pointers: Seq<i32>,
    index: int,
    finger: int,
)
    requires
        state.drives_cursor(action, acted_on, pointers, index),
    ensures
        action !is Move || state.mouse_mode is DirectTouch ==> index == acted_on,
        (forall|i: int|
            0 <= i < pointers.len() ==> !state.swipes.contains_key(#[trigger] pointers[i]))
            ==> index == acted_on,
        action is Move && state.mouse_mode is RelativeSwipe && 0 <= finger < pointers.len()
            && state.swipes.contains_key(pointers[finger]) ==> {
            &&& 0 <= index <= finger
            &&& state.swipes.contains_key(pointers[index])
        },
{
}

/// There is always a pointer that drives the cursor.
pub proof fn some_pointer_drives_the_cursor<P>(
    state: PlayerModel<P>,
    action: MotionAction,
    acted_on: int,
    pointers: Seq<i32>,
) -> (index: int)
    requires
        0 <= acted_on < pointers.len(),
    ensures
        0 <= index < pointers.len(),
        state.drives_cursor(action, acted_on, pointers, index),
{
    if state.follows_swipe(action, pointers) {
        let found = choose|i: int|
            0 <= i < pointers.len() && state.swipes.contains_key(#[trigger] pointers[i]);
        first_tracked_up_to(state.swipes, pointers, found)
    } else {
        acted_on
    }
}

/// Finds the first tracked pointer at or before a tracked one.
proof fn first_tracked_up_to<P>(
    swipes: Map<i32, Swipe<P>>,
    pointers: Seq<i32>,
    found: int,
) -> (index: int)
    requires
        0 <= found < pointers.len(),
        swipes.contains_key(pointers[found]),
    ensures
        is_first_tracked(swipes, pointers, index),
    decreases found,
{
    if exists|i: int| 0 <= i < found && swipes.contains_key(#[trigger] pointers[i]) {
        let earlier = choose|i: int| 0 <= i < found && swipes.contains_key(#[trigger] pointers[i]);
        first_tracked_up_to(swipes, pointers, earlier)
    } else {
        found
    }
}

/// In direct touch mode every motion puts the cursor at the finger, wherever the cursor
/// was and whatever is tracked, and no finger is tracked or forgotten.
pub proof fn direct_touch_is_absolute<P>(
    state: PlayerModel<P>,
    action: MotionAction,
    pointer_id: i32,
    touch: P,
    finger: i32,
)
    requires
        state.mouse_mode is DirectTouch,
    ensures
        state.cursor_target(action, pointer_id, touch) == CursorTarget::At(touch),
        state.swipes_after(action, pointer_id, touch).contains_key(finger)
            == state.swipes.contains_key(finger),
        state.swipes.contains_key(finger) ==> state.swipes_after(
            action,
            pointer_id,
            touch,
        )[finger] == state.swipes[finger],
{
}

/// On the trackpad a known cursor stays where it is, and an unknown one is placed at the
/// finger, unless a tracked finger moves.
pub proof fn trackpad_cursor_rests<P>(
    state: PlayerModel<P>,
    action: MotionAction,
    pointer_id: i32,
    touch: P,
)
    requires
        state.mouse_mode is RelativeSwipe,
        action !is Move || !state.swipes.contains_key(pointer_id),
    ensures
        state.cursor matches Some(position) ==> state.cursor_target(action, pointer_id, touch)
            == CursorTarget::At(position.surface),
        state.cursor is None ==> state.cursor_target(action, pointer_id, touch)
            == CursorTarget::At(touch),
{
}

/// On the trackpad a tracked finger that moves takes the cursor as far from its anchor
/// as the finger is from its start, wherever the cursor is now.
pub proof fn tracked_finger_moves_the_cursor<P>(
    state: PlayerModel<P>,
    pointer_id: i32,
    touch: P,
)
    requires
        state.mouse_mode is RelativeSwipe,
        state.swipes.contains_key(pointer_id),
    ensures
        state.cursor_target(MotionAction::Move, pointer_id, touch) == (CursorTarget::Swiped {
            anchor: state.swipes[pointer_id].anchor,
            start: state.swipes[pointer_id].start,
        }),
{
}

/// On the trackpad pressing tracks a finger from where it is, with the cursor where it
/// was, or at the finger where the cursor was not known; lifting forgets it; no other
/// motion changes what is tracked, and no motion of one finger changes another.
pub proof fn pressing_tracks_and_lifting_forgets<P>(
    state: PlayerModel<P>,
    action: MotionAction,
    pointer_id: i32,
    touch: P,
    other: i32,
)
    requires
        state.mouse_mode is RelativeSwipe,
        other != pointer_id,
    ensures
        ({
            let now = state.swipes_after(action, pointer_id, touch);
            let presses = action is Down || action is PointerDown || action is ButtonPress;
            let lifts = action is Up || action is PointerUp || action is ButtonRelease;
            &&& presses ==> now.contains_key(pointer_id) && now[pointer_id].start == touch
            &&& presses && state.cursor is None ==> now[pointer_id].anchor == touch
            &&& presses ==> (state.cursor matches Some(position) ==> now[pointer_id].anchor
                == position.surface)
            &&& lifts ==> !now.contains_key(pointer_id)
            &&& !presses && !lifts ==> now == state.swipes
            &&& now.contains_key(other) == state.swipes.contains_key(other)
            &&& state.swipes.contains_key(other) ==> now[other] == state.swipes[other]
        }),
{
}

/// A motion leaves the cursor where it put it and changes nothing but the cursor and the
/// fingers: no setting, no pause, no renderer, no notice.
pub proof fn motion_touches_only_cursor_and_fingers<P>(
    state: PlayerModel<P>,
    action: MotionAction,
    pointer_id: i32,
    touch: P,
    position: CursorPosition<P>,
)
    ensures
        ({
            let now = state.after_motion(action, pointer_id, touch, position);
            &&& now.cursor == Some(position)
            &&& now.swipes == state.swipes_after(action, pointer_id, touch)
            &&& now.cursor_shape == state.cursor_shape
            &&& now.content_ready_notified == state.content_ready_notified
            &&& now.paused == state.paused
            &&& now.backend == state.backend
            &&& now.mouse_mode == state.mouse_mode
            &&& now.touch_click_enabled == state.touch_click_enabled
        }),
{
}

/// A finger that goes down on the trackpad at `start` while the cursor is known to be at
/// `known`, or is not known, takes the cursor along from there for as long as it is
/// down, whatever the settings are and whatever the host and the other fingers do
/// meanwhile, short of another mouse mode or a new run. The finger's own place counts as
/// the cursor's only where the cursor was not known.
pub proof fn swipe_is_anchored_at_the_cursor<P>(
    state: PlayerModel<P>,
    press: MotionAction,
    finger: i32,
    start: P,
    position: CursorPosition<P>,
    changes: Seq<StateChange<P>>,
    touch: P,
)
    requires
        state.mouse_mode is RelativeSwipe,
        press is Down || press is PointerDown || press is ButtonPress,
        forall|i: int|
            0 <= i < changes.len() ==> leaves_finger_alone(#[trigger] changes[i], finger)
                && !(changes[i] is SetMouseMode),
    ensures
        ({
            let now = state.after(
                StateChange::Motion { action: press, pointer_id: finger, touch: start, position },
            ).after_all(changes);
            let target = now.cursor_target(MotionAction::Move, finger, touch);
            &&& state.cursor matches Some(known) ==> target == (CursorTarget::Swiped {
                anchor: known.surface,
                start,
            })
            &&& state.cursor is None ==> target == (CursorTarget::Swiped { anchor: start, start })
        }),
{
    swipe_counts_from_where_it_began(
        state,
        press,
        finger,
        start,
        position,
        changes,
        touch,
        MotionAction::Up,
    );
}

/// What the player is told of a motion: a press or a release of the left button where
/// touching clicks, else a move, always at the cursor; nothing of what neither presses,
/// releases nor moves.
pub proof fn player_is_told_of_motions<P, K>(
    action: MotionAction,
    touch_click_enabled: bool,
    position: P,
)
    ensures
        ({
            let event = motion_event_of::<P, K>(action, touch_click_enabled, position);
            let presses = action is Down || action is PointerDown || action is ButtonPress;
            let lifts = action is Up || action is PointerUp || action is ButtonRelease;
            &&& event is None <==> action is Other
            &&& event matches Some(event) ==> match event {
                PlayerEvent::MouseDown { position: place, button } => presses
                    && touch_click_enabled && place == position && button is Left,
                PlayerEvent::MouseUp { position: place, button } => lifts && touch_click_enabled
                    && place == position && button is Left,
                PlayerEvent::MouseMove { position: place } => (action is Move
                    || !touch_click_enabled) && place == position,
                _ => false,
            }
        }),
{
}

/// Switching clicking off turns every press and release into a move to the same place,
/// and changes nothing else.
pub proof fn clicking_off_leaves_moves<P, K>(action: MotionAction, position: P)
    ensures
        ({
            let on = motion_event_of::<P, K>(action, true, position);
            let off = motion_event_of::<P, K>(action, false, position);
            &&& on is None <==> off is None
            &&& off matches Some(event) ==> event == (PlayerEvent::<P, K>::MouseMove { position })
            &&& on == (if is_press(action) {
                Some((PlayerEvent::<P, K>::MouseDown { position, button: MouseButton::Left }))
            } else if is_release(action) {
                Some((PlayerEvent::<P, K>::MouseUp { position, button: MouseButton::Left }))
            } else {
                off
            })
        }),
{
}

} // verus!
