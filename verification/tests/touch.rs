use ruffle_android::custom_event::{MouseButton, PlayerEvent};
use ruffle_android::state::{PlayerState, CursorPosition};
use ruffle_android::touch::{motion_event, CursorTarget, MotionAction, Swipe, SwipeTracker};

type Place = (f64, f64);
type State = PlayerState<Place>;
type Event = PlayerEvent<Place, ()>;

const PRESSES: [MotionAction; 3] =
    [MotionAction::Down, MotionAction::PointerDown, MotionAction::ButtonPress];
const RELEASES: [MotionAction; 3] =
    [MotionAction::Up, MotionAction::PointerUp, MotionAction::ButtonRelease];

/// A motion on a surface of 100 by 80 pixels, in a view of half that size.
fn motion(
    state: &mut State,
    action: MotionAction,
    acted_on: usize,
    pointers: &[(i32, Place)],
) -> Option<Event> {
    let ids: Vec<i32> = pointers.iter().map(|pointer| pointer.0).collect();
    state.handle_motion(
        action,
        acted_on,
        &ids,
        |index: usize| pointers[index].1,
        |anchor: Place, touch: Place, start: Place| {
            (
                (anchor.0 + touch.0 - start.0).clamp(0.0, 100.0),
                (anchor.1 + touch.1 - start.1).clamp(0.0, 80.0),
            )
        },
        |place: Place| (place.0 / 2.0, place.1 / 2.0),
    )
}

fn trackpad() -> State {
    let mut state = State::new();
    state.set_mouse_mode(1);
    state
}

#[test]
fn direct_touch_jumps_to_the_finger() {
    let mut state = State::new();
    let event = motion(&mut state, MotionAction::Down, 0, &[(4, (30.0, 40.0))]);
    assert_eq!(
        event,
        Some(PlayerEvent::MouseDown { position: (30.0, 40.0), button: MouseButton::Left })
    );
    assert_eq!(state.last_mouse_position(), Some((30.0, 40.0)));
    assert_eq!(state.cursor_position(), Some((15.0, 20.0)));
    let event = motion(&mut state, MotionAction::Move, 0, &[(4, (31.0, 44.0))]);
    assert_eq!(event, Some(PlayerEvent::MouseMove { position: (31.0, 44.0) }));
    let event = motion(&mut state, MotionAction::Up, 0, &[(4, (32.0, 45.0))]);
    assert_eq!(
        event,
        Some(PlayerEvent::MouseUp { position: (32.0, 45.0), button: MouseButton::Left })
    );
    assert_eq!(state.swipes.get(4), None);
}

#[test]
fn direct_touch_is_not_clamped() {
    let mut state = State::new();
    motion(&mut state, MotionAction::Move, 0, &[(4, (-10.0, 400.0))]);
    assert_eq!(state.last_mouse_position(), Some((-10.0, 400.0)));
    assert_eq!(state.cursor_position(), Some((-5.0, 200.0)));
}

#[test]
fn direct_touch_follows_the_pointer_of_the_action() {
    let mut state = State::new();
    motion(&mut state, MotionAction::PointerDown, 1, &[(4, (1.0, 1.0)), (5, (2.0, 2.0))]);
    assert_eq!(state.last_mouse_position(), Some((2.0, 2.0)));
}

#[test]
fn first_touch_of_the_trackpad_places_the_cursor() {
    let mut state = trackpad();
    let event = motion(&mut state, MotionAction::Down, 0, &[(4, (30.0, 40.0))]);
    assert_eq!(
        event,
        Some(PlayerEvent::MouseDown { position: (30.0, 40.0), button: MouseButton::Left })
    );
    assert_eq!(
        state.swipes.get(4),
        Some(Swipe { start: (30.0, 40.0), anchor: (30.0, 40.0) })
    );
}

#[test]
fn trackpad_press_does_not_move_the_cursor() {
    for press in PRESSES {
        let mut state = trackpad();
        state.set_last_mouse_position(CursorPosition { surface: (50.0, 50.0), view: (25.0, 25.0) });
        let event = motion(&mut state, press, 0, &[(4, (10.0, 10.0))]);
        assert_eq!(
            event,
            Some(PlayerEvent::MouseDown { position: (50.0, 50.0), button: MouseButton::Left })
        );
        assert_eq!(
            state.swipes.get(4),
            Some(Swipe { start: (10.0, 10.0), anchor: (50.0, 50.0) })
        );
    }
}

#[test]
fn trackpad_swipe_moves_the_cursor_by_as_much() {
    let mut state = trackpad();
    state.set_last_mouse_position(CursorPosition { surface: (50.0, 50.0), view: (25.0, 25.0) });
    motion(&mut state, MotionAction::Down, 0, &[(4, (10.0, 10.0))]);
    let event = motion(&mut state, MotionAction::Move, 0, &[(4, (13.0, 6.0))]);
    assert_eq!(event, Some(PlayerEvent::MouseMove { position: (53.0, 46.0) }));
    let event = motion(&mut state, MotionAction::Move, 0, &[(4, (20.0, 20.0))]);
    assert_eq!(event, Some(PlayerEvent::MouseMove { position: (60.0, 60.0) }));
    assert_eq!(state.cursor_position(), Some((30.0, 30.0)));
}

#[test]
fn trackpad_swipe_stays_within_the_surface() {
    let mut state = trackpad();
    state.set_last_mouse_position(CursorPosition { surface: (50.0, 50.0), view: (25.0, 25.0) });
    motion(&mut state, MotionAction::Down, 0, &[(4, (10.0, 10.0))]);
    motion(&mut state, MotionAction::Move, 0, &[(4, (500.0, -500.0))]);
    assert_eq!(state.last_mouse_position(), Some((100.0, 0.0)));
}

#[test]
fn trackpad_release_does_not_move_the_cursor() {
    for release in RELEASES {
        let mut state = trackpad();
        motion(&mut state, MotionAction::Down, 0, &[(4, (10.0, 10.0))]);
        motion(&mut state, MotionAction::Move, 0, &[(4, (13.0, 6.0))]);
        let event = motion(&mut state, release, 0, &[(4, (90.0, 70.0))]);
        assert_eq!(
            event,
            Some(PlayerEvent::MouseUp { position: (13.0, 6.0), button: MouseButton::Left })
        );
        assert_eq!(state.swipes.get(4), None);
    }
}

#[test]
fn trackpad_follows_the_tracked_finger() {
    let mut state = trackpad();
    motion(&mut state, MotionAction::Down, 0, &[(7, (10.0, 10.0))]);
    // The pointer that a move names is always the first one.
    let event =
        motion(&mut state, MotionAction::Move, 0, &[(3, (70.0, 70.0)), (7, (11.0, 12.0))]);
    assert_eq!(event, Some(PlayerEvent::MouseMove { position: (11.0, 12.0) }));
}

#[test]
fn trackpad_follows_the_first_of_two_tracked_fingers() {
    let mut state = trackpad();
    motion(&mut state, MotionAction::Down, 0, &[(7, (10.0, 10.0))]);
    motion(&mut state, MotionAction::PointerDown, 1, &[(7, (10.0, 10.0)), (8, (30.0, 30.0))]);
    motion(&mut state, MotionAction::Move, 0, &[(7, (12.0, 10.0)), (8, (39.0, 30.0))]);
    assert_eq!(state.last_mouse_position(), Some((12.0, 10.0)));
    motion(&mut state, MotionAction::PointerUp, 0, &[(7, (12.0, 10.0)), (8, (39.0, 30.0))]);
    motion(&mut state, MotionAction::Move, 0, &[(8, (32.0, 30.0))]);
    assert_eq!(state.last_mouse_position(), Some((12.0, 10.0)));
    assert_eq!(
        state.swipes.get(8),
        Some(Swipe { start: (30.0, 30.0), anchor: (10.0, 10.0) })
    );
}

#[test]
fn untracked_finger_leaves_the_cursor_be() {
    let mut state = trackpad();
    state.set_last_mouse_position(CursorPosition { surface: (50.0, 50.0), view: (25.0, 25.0) });
    let event = motion(&mut state, MotionAction::Move, 0, &[(9, (1.0, 2.0))]);
    assert_eq!(event, Some(PlayerEvent::MouseMove { position: (50.0, 50.0) }));
}

#[test]
fn untracked_finger_places_an_unknown_cursor() {
    let mut state = trackpad();
    let event = motion(&mut state, MotionAction::Move, 0, &[(9, (1.0, 2.0))]);
    assert_eq!(event, Some(PlayerEvent::MouseMove { position: (1.0, 2.0) }));
}

#[test]
fn other_motions_are_unhandled_but_make_the_cursor_known() {
    let mut state = State::new();
    assert_eq!(motion(&mut state, MotionAction::Other, 0, &[(1, (3.0, 4.0))]), None);
    assert_eq!(state.last_mouse_position(), Some((3.0, 4.0)));
    let mut state = trackpad();
    motion(&mut state, MotionAction::Down, 0, &[(1, (3.0, 4.0))]);
    assert_eq!(motion(&mut state, MotionAction::Other, 0, &[(1, (9.0, 9.0))]), None);
    assert_eq!(state.last_mouse_position(), Some((3.0, 4.0)));
    assert_eq!(
        state.swipes.get(1),
        Some(Swipe { start: (3.0, 4.0), anchor: (3.0, 4.0) })
    );
}

#[test]
fn touch_only_moves_when_clicking_is_off() {
    for action in PRESSES.into_iter().chain(RELEASES) {
        let mut state = State::new();
        state.set_touch_click_enabled(0);
        let event = motion(&mut state, action, 0, &[(1, (3.0, 4.0))]);
        assert_eq!(event, Some(PlayerEvent::MouseMove { position: (3.0, 4.0) }));
    }
}

#[test]
fn every_press_and_release_clicks() {
    for press in PRESSES {
        let event: Option<Event> = motion_event(press, true, (1.0, 2.0));
        assert_eq!(
            event,
            Some(PlayerEvent::MouseDown { position: (1.0, 2.0), button: MouseButton::Left })
        );
    }
    for release in RELEASES {
        let event: Option<Event> = motion_event(release, true, (1.0, 2.0));
        assert_eq!(
            event,
            Some(PlayerEvent::MouseUp { position: (1.0, 2.0), button: MouseButton::Left })
        );
    }
}

#[test]
fn switching_modes_keeps_a_swipe() {
    let mut state = trackpad();
    motion(&mut state, MotionAction::Down, 0, &[(1, (3.0, 4.0))]);
    state.set_mouse_mode(0);
    motion(&mut state, MotionAction::Up, 0, &[(1, (5.0, 5.0))]);
    assert_eq!(
        state.swipes.get(1),
        Some(Swipe { start: (3.0, 4.0), anchor: (3.0, 4.0) })
    );
}

#[test]
fn choosing_a_pointer() {
    let mut state = trackpad();
    state.swipes.press(5, Swipe { start: (0.0, 0.0), anchor: (0.0, 0.0) });
    assert_eq!(state.choose_pointer(MotionAction::Move, 0, &[4, 5, 6]), 1);
    assert_eq!(state.choose_pointer(MotionAction::Move, 2, &[4, 6, 7]), 2);
    assert_eq!(state.choose_pointer(MotionAction::PointerUp, 2, &[4, 5, 6]), 2);
    state.set_mouse_mode(0);
    assert_eq!(state.choose_pointer(MotionAction::Move, 0, &[4, 5, 6]), 0);
}

#[test]
fn tracking_a_motion_says_where_the_cursor_goes() {
    let mut state = trackpad();
    assert_eq!(
        state.track_motion(MotionAction::Down, 2, (8.0, 9.0)),
        CursorTarget::At((8.0, 9.0))
    );
    assert_eq!(
        state.track_motion(MotionAction::Move, 2, (1.0, 1.0)),
        CursorTarget::Swiped { anchor: (8.0, 9.0), start: (8.0, 9.0) }
    );
}

#[test]
fn tracker_tells_fingers_apart() {
    let mut tracker = SwipeTracker::new();
    tracker.press(1, Swipe { start: 10, anchor: 11 });
    tracker.press(-2, Swipe { start: 20, anchor: 21 });
    tracker.press(1, Swipe { start: 12, anchor: 13 });
    assert_eq!(tracker.get(1), Some(Swipe { start: 12, anchor: 13 }));
    assert_eq!(tracker.get(-2), Some(Swipe { start: 20, anchor: 21 }));
    assert_eq!(tracker.first_tracked(&[3, -2, 1]), Some(1));
    assert_eq!(tracker.first_tracked(&[3]), None);
    assert_eq!(tracker.first_tracked(&[]), None);
    tracker.release(1);
    tracker.release(9);
    assert_eq!(tracker.get(1), None);
    assert_eq!(tracker.get(-2), Some(Swipe { start: 20, anchor: 21 }));
    tracker.clear();
    assert_eq!(tracker.get(-2), None);
}
