//! How touching the surface moves the cursor and clicks.
use std::collections::HashMap;
use vstd::prelude::*;

use crate::custom_event::{MouseButton, PlayerEvent};
use crate::state::{CursorPosition, MouseMode, PlayerModel, PlayerState};

verus! {

broadcast use vstd::std_specs::hash::group_hash_axioms;

/// What happened to a pointer.
#[derive(Copy, Clone, Debug, PartialEq, Eq, Structural)]
pub enum MotionAction {
    Down,
    PointerDown,
    ButtonPress,
    Move,
    Up,
    PointerUp,
    ButtonRelease,
    /// Anything else: a hover, a scroll, a cancelled gesture.
    Other,
}

/// Whether something went down.
pub open spec fn is_press(action: MotionAction) -> bool {
    action is Down || action is PointerDown || action is ButtonPress
}

/// Whether something went up.
pub open spec fn is_release(action: MotionAction) -> bool {
    action is Up || action is PointerUp || action is ButtonRelease
}

impl MotionAction {
    /// Whether something went down.
    pub fn is_press(self) -> (press: bool)
        ensures
            press == is_press(self),
    {
        matches!(self, MotionAction::Down | MotionAction::PointerDown | MotionAction::ButtonPress)
    }

    /// Whether something went up.
    pub fn is_release(self) -> (release: bool)
        ensures
            release == is_release(self),
    {
        matches!(self, MotionAction::Up | MotionAction::PointerUp | MotionAction::ButtonRelease)
    }
}

/// A finger on the trackpad: where it went down, and where the cursor was then.
#[derive(Debug, PartialEq, Eq)]
pub struct Swipe<P> {
    pub start: P,
    pub anchor: P,
}

/// The fingers on the trackpad. They are told apart by the pointer's identifier,
/// which is stable for as long as a finger is down, unlike its index, which shifts
/// as fingers lift.
pub struct SwipeTracker<P> {
    swipes: HashMap<i32, Swipe<P>>,
}

impl<P> View for SwipeTracker<P> {
    type V = Map<i32, Swipe<P>>;

    closed spec fn view(&self) -> Map<i32, Swipe<P>> {
        self.swipes@
    }
}

/// Whether `index` is that of the first tracked pointer.
pub open spec fn is_first_tracked<P>(
    swipes: Map<i32, Swipe<P>>,
    pointers: Seq<i32>,
    index: int,
) -> bool {
    &&& 0 <= index < pointers.len()
    &&& swipes.contains_key(pointers[index])
    &&& forall|i: int| 0 <= i < index ==> !swipes.contains_key(#[trigger] pointers[i])
}

impl<P: Copy> SwipeTracker<P> {
    /// No finger is down.
    pub fn new() -> (tracker: SwipeTracker<P>)
        ensures
            tracker@ == Map::<i32, Swipe<P>>::empty(),
    {
        SwipeTracker { swipes: HashMap::new() }
    }

    /// Forgets every finger.
    pub fn clear(&mut self)
        ensures
            final(self)@ == Map::<i32, Swipe<P>>::empty(),
    {
        self.swipes.clear();
    }

    /// Anchors a finger.
    pub fn press(&mut self, pointer_id: i32, swipe: Swipe<P>)
        ensures
            final(self)@ == old(self)@.insert(pointer_id, swipe),
    {
        self.swipes.insert(pointer_id, swipe);
    }

    /// Forgets a finger, if it is tracked.
    pub fn release(&mut self, pointer_id: i32)
        ensures
            final(self)@ == old(self)@.remove(pointer_id),
    {
        self.swipes.remove(&pointer_id);
    }

    /// The swipe of a finger, if it is tracked.
    pub fn get(&self, pointer_id: i32) -> (swipe: Option<Swipe<P>>)
        ensures
            swipe == if self@.contains_key(pointer_id) {
                Some(self@[pointer_id])
            } else {
                None
            },
    {
        match self.swipes.get(&pointer_id) {
            Some(swipe) => Some(Swipe { start: swipe.start, anchor: swipe.anchor }),
            None => None,
        }
    }

    /// The index of the first pointer that is tracked.
    pub fn first_tracked(&self, pointers: &[i32]) -> (index: Option<usize>)
        ensures
            match index {
                Some(index) => is_first_tracked(self@, pointers@, index as int),
                None => forall|i: int|
                    0 <= i < pointers@.len() ==> !self@.contains_key(#[trigger] pointers@[i]),
            },
    {
        let mut index: usize = 0;
        while index < pointers.len()
            invariant
                index <= pointers@.len(),
                forall|i: int| 0 <= i < index ==> !self@.contains_key(#[trigger] pointers@[i]),
            decreases pointers@.len() - index,
        {
            if self.swipes.contains_key(&pointers[index]) {
                return Some(index);
            }
            index += 1;
        }
        None
    }
}

/// Where a motion puts the cursor.
#[derive(Debug, PartialEq, Eq)]
pub enum CursorTarget<P> {
    /// Exactly here.
    At(P),
    /// As far from `anchor` as the finger is from `start`, within the surface.
    Swiped { anchor: P, start: P },
}

impl<P> PlayerModel<P> {
    /// Where the cursor is, or the finger while the surface was never touched.
    pub open spec fn cursor_or(self, touch: P) -> P {
        match self.cursor {
            Some(position) => position.surface,
            None => touch,
        }
    }

    /// Whether the cursor follows a tracked finger rather than the pointer that
    /// the event names.
    pub open spec fn follows_swipe(self, action: MotionAction, pointers: Seq<i32>) -> bool {
        &&& action is Move
        &&& self.mouse_mode is RelativeSwipe
        &&& exists|i: int| 0 <= i < pointers.len() && self.swipes.contains_key(#[trigger] pointers[i])
    }

    /// Whether `index` is that of the pointer that drives the cursor.
    pub open spec fn drives_cursor(
        self,
        action: MotionAction,
        acted_on: int,
        pointers: Seq<i32>,
        index: int,
    ) -> bool {
        if self.follows_swipe(action, pointers) {
            is_first_tracked(self.swipes, pointers, index)
        } else {
            index == acted_on
        }
    }

    /// Where a motion of a pointer that is now at `touch` puts the cursor.
    pub open spec fn cursor_target(
        self,
        action: MotionAction,
        pointer_id: i32,
        touch: P,
    ) -> CursorTarget<P> {
        if self.mouse_mode is DirectTouch {
            CursorTarget::At(touch)
        } else if action is Move && self.swipes.contains_key(pointer_id) {
            CursorTarget::Swiped {
                anchor: self.swipes[pointer_id].anchor,
                start: self.swipes[pointer_id].start,
            }
        } else {
            CursorTarget::At(self.cursor_or(touch))
        }
    }

    /// The tracked fingers after a motion.
    pub open spec fn swipes_after(self, action: MotionAction, pointer_id: i32, touch: P) -> Map<
        i32,
        Swipe<P>,
    > {
        if self.mouse_mode is DirectTouch {
            self.swipes
        } else if is_press(action) {
            self.swipes.insert(pointer_id, Swipe { start: touch, anchor: self.cursor_or(touch) })
        } else if is_release(action) {
            self.swipes.remove(pointer_id)
        } else {
            self.swipes
        }
    }

    /// The state after a motion that put the cursor at `position`.
    pub open spec fn after_motion(
        self,
        action: MotionAction,
        pointer_id: i32,
        touch: P,
        position: CursorPosition<P>,
    ) -> PlayerModel<P> {
        PlayerModel {
            swipes: self.swipes_after(action, pointer_id, touch),
            cursor: Some(position),
            ..self
        }
    }
}

/// The event that a motion to `position` is for the player. What neither presses,
/// releases nor moves is none.
pub open spec fn motion_event_of<P, K>(
    action: MotionAction,
    touch_click_enabled: bool,
    position: P,
) -> Option<PlayerEvent<P, K>> {
    if is_press(action) && touch_click_enabled {
        Some(PlayerEvent::MouseDown { position, button: MouseButton::Left })
    } else if is_release(action) && touch_click_enabled {
        Some(PlayerEvent::MouseUp { position, button: MouseButton::Left })
    } else if action is Other {
        None
    } else {
        Some(PlayerEvent::MouseMove { position })
    }
}

/// The event that a motion is for the player.
pub fn motion_event<P, K>(
    action: MotionAction,
    touch_click_enabled: bool,
    position: P,
) -> (event: Option<PlayerEvent<P, K>>)
    ensures
        event == motion_event_of::<P, K>(action, touch_click_enabled, position),
{
    if action.is_press() {
        if touch_click_enabled {
            Some(PlayerEvent::MouseDown { position, button: MouseButton::Left })
        } else {
            Some(PlayerEvent::MouseMove { position })
        }
    } else if action.is_release() {
        if touch_click_enabled {
            Some(PlayerEvent::MouseUp { position, button: MouseButton::Left })
        } else {
            Some(PlayerEvent::MouseMove { position })
        }
    } else {
        match action {
            MotionAction::Move => Some(PlayerEvent::MouseMove { position }),
            _ => None,
        }
    }
}

impl<P: Copy> PlayerState<P> {
    /// Chooses the pointer that drives the cursor, as there is only one cursor.
    /// For down and up that is the pointer the action refers to, `acted_on`. A move
    /// names no pointer, so on the trackpad the finger whose swipe is already being
    /// tracked is followed.
    pub fn choose_pointer(
        &self,
        action: MotionAction,
        acted_on: usize,
        pointers: &[i32],
    ) -> (index: usize)
        requires
            acted_on < pointers@.len(),
        ensures
            index < pointers@.len(),
            self@.drives_cursor(action, acted_on as int, pointers@, index as int),
    {
        if let (MotionAction::Move, MouseMode::RelativeSwipe) = (action, self.mouse_mode) {
            match self.swipes.first_tracked(pointers) {
                Some(index) => {
                    assert(self@.swipes.contains_key(pointers@[index as int]));
                    index
                },
                None => acted_on,
            }
        } else {
            acted_on
        }
    }

    /// Tracks the fingers on the trackpad through a motion of a pointer that is now
    /// at `touch`, and says where the cursor goes.
    pub fn track_motion(&mut self, action: MotionAction, pointer_id: i32, touch: P) -> (target:
        CursorTarget<P>)
        ensures
            target == old(self)@.cursor_target(action, pointer_id, touch),
            final(self)@ == (PlayerModel {
                swipes: old(self)@.swipes_after(action, pointer_id, touch),
                ..old(self)@
            }),
            old(self).mouse_mode is RelativeSwipe && is_press(action) ==> {
                &&& final(self)@.swipes.contains_key(pointer_id)
                &&& final(self)@.swipes[pointer_id].start == touch
                &&& final(self)@.swipes[pointer_id].anchor == match old(self).cursor {
                    Some(position) => position.surface,
                    None => touch,
                }
            },
    {
        if let MouseMode::DirectTouch = self.mouse_mode {
            return CursorTarget::At(touch);
        }
        let rest = match self.last_mouse_position() {
            Some(position) => position,
            None => touch,
        };
        if action.is_press() {
            // Touching down must not move the cursor.
            self.swipes.press(pointer_id, Swipe { start: touch, anchor: rest });
        } else if action.is_release() {
            self.swipes.release(pointer_id);
        } else if let MotionAction::Move = action {
            if let Some(swipe) = self.swipes.get(pointer_id) {
                return CursorTarget::Swiped { anchor: swipe.anchor, start: swipe.start };
            }
        }
        CursorTarget::At(rest)
    }

    /// Takes a motion event: chooses the pointer, moves the cursor and says what the
    /// player is to be told, if anything.
    ///
    /// `touch_of` gives the place of the pointer with an index, in surface-buffer
    /// pixels. `swipe` gives the place as far from its first argument as the second
    /// is from the third, within the surface. `to_view` converts a place to the
    /// view's pixels.
    pub fn handle_motion<K>(
        &mut self,
        action: MotionAction,
        acted_on: usize,
        pointers: &[i32],
        touch_of: impl Fn(usize) -> P,
        swipe: impl Fn(P, P, P) -> P,
        to_view: impl Fn(P) -> P,
    ) -> (event: Option<PlayerEvent<P, K>>)
        requires
            acted_on < pointers@.len(),
            forall|i: usize| i < pointers@.len() ==> #[trigger] call_requires(touch_of, (i,)),
            forall|anchor: P, touch: P, start: P| #[trigger]
                call_requires(swipe, (anchor, touch, start)),
            forall|place: P| #[trigger] call_requires(to_view, (place,)),
        ensures
            exists|index: usize, touch: P, position: CursorPosition<P>|
                {
                    &&& old(self)@.drives_cursor(action, acted_on as int, pointers@, index as int)
                    &&& #[trigger] call_ensures(touch_of, (index,), touch)
                    &&& match old(self)@.cursor_target(action, pointers@[index as int], touch) {
                        CursorTarget::At(place) => position.surface == place,
                        CursorTarget::Swiped { anchor, start } => call_ensures(
                            swipe,
                            (anchor, touch, start),
                            position.surface,
                        ),
                    }
                    &&& call_ensures(to_view, (position.surface,), position.view)
                    &&& final(self)@ == #[trigger] old(self)@.after_motion(
                        action,
                        pointers@[index as int],
                        touch,
                        position,
                    )
                    &&& event == motion_event_of::<P, K>(
                        action,
                        old(self).touch_click_enabled,
                        position.surface,
                    )
                },
    {
        let index = self.choose_pointer(action, acted_on, pointers);
        let pointer_id = pointers[index];
        let touch = touch_of(index);
        let surface = match self.track_motion(action, pointer_id, touch) {
            CursorTarget::At(place) => place,
            CursorTarget::Swiped { anchor, start } => swipe(anchor, touch, start),
        };
        let view = to_view(surface);
        self.set_last_mouse_position(CursorPosition { surface, view });
        let event = motion_event(action, self.touch_click_enabled, surface);
        proof {
            let position = CursorPosition { surface, view };
            assert(self@ == old(self)@.after_motion(action, pointer_id, touch, position));
        }
        event
    }
}

} // verus!
