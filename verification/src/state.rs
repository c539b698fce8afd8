//! What outlives a single event: the state of the movie and the host's settings.
use vstd::prelude::*;

use crate::backend::{active_code, mode_change, BackendChoice, ModeChange, RenderBackend};
use crate::touch::{Swipe, SwipeTracker};

verus! {

/// How touching the surface moves the cursor.
#[derive(Copy, Clone, Debug, PartialEq, Eq, Structural)]
pub enum MouseMode {
    /// The cursor jumps to the finger.
    DirectTouch,
    /// The surface behaves like a trackpad.
    RelativeSwipe,
}

/// The shape that the movie asks for.
#[derive(Copy, Clone, Debug, PartialEq, Eq, Structural)]
pub enum MouseCursor {
    Arrow,
    /// A pointing finger, over a button or a link.
    Hand,
    IBeam,
    /// A grabbing hand.
    Grab,
}

/// Where the cursor is: in surface-buffer pixels, as the player takes it, and in
/// the pixels of the view, as the host draws it.
#[derive(Debug, PartialEq, Eq)]
pub struct CursorPosition<P> {
    pub surface: P,
    pub view: P,
}

/// The state that native methods and the event loop share. `P` is a position.
pub struct PlayerState<P> {
    /// Whether the host has already been told that content is ready for the
    /// current movie.
    pub content_ready_notified: bool,
    pub paused: bool,
    /// The last position of the virtual cursor, or `None` while the surface has
    /// not been touched yet. No position can stand for that: each is a legitimate
    /// one.
    pub cursor: Option<CursorPosition<P>>,
    /// The shape of the cursor in the last frame, or `None` before the first.
    pub cursor_shape: Option<MouseCursor>,
    /// The fingers that are down in relative swipe mode.
    pub swipes: SwipeTracker<P>,
    pub backend: BackendChoice,
    pub mouse_mode: MouseMode,
    /// Whether touching the surface clicks; else it only moves the cursor.
    pub touch_click_enabled: bool,
}

/// The mathematical content of a `PlayerState`.
#[verifier::ext_equal]
pub struct PlayerModel<P> {
    pub content_ready_notified: bool,
    pub paused: bool,
    pub cursor: Option<CursorPosition<P>>,
    pub cursor_shape: Option<MouseCursor>,
    pub swipes: Map<i32, Swipe<P>>,
    pub backend: BackendChoice,
    pub mouse_mode: MouseMode,
    pub touch_click_enabled: bool,
}

impl<P> View for PlayerState<P> {
    type V = PlayerModel<P>;

    open spec fn view(&self) -> PlayerModel<P> {
        PlayerModel {
            content_ready_notified: self.content_ready_notified,
            paused: self.paused,
            cursor: self.cursor,
            cursor_shape: self.cursor_shape,
            swipes: self.swipes@,
            backend: self.backend,
            mouse_mode: self.mouse_mode,
            touch_click_enabled: self.touch_click_enabled,
        }
    }
}

/// The mouse mode of a host's code.
pub open spec fn mouse_mode_of(code: i32) -> Option<MouseMode> {
    if code == 0 {
        Some(MouseMode::DirectTouch)
    } else if code == 1 {
        Some(MouseMode::RelativeSwipe)
    } else {
        None
    }
}

/// The host's code of a cursor shape; -1 before the first frame.
pub open spec fn cursor_shape_code(shape: Option<MouseCursor>) -> int {
    match shape {
        None => -1,
        Some(MouseCursor::Arrow) => 0,
        Some(MouseCursor::Hand) => 1,
        Some(MouseCursor::IBeam) => 2,
        Some(MouseCursor::Grab) => 3,
    }
}

impl<P> PlayerModel<P> {
    /// The state when the process starts.
    pub open spec fn initial() -> PlayerModel<P> {
        PlayerModel {
            content_ready_notified: false,
            paused: false,
            cursor: None,
            cursor_shape: None,
            swipes: Map::empty(),
            backend: BackendChoice { mode: RenderBackend::Vulkan, locked_in: false, active: None },
            mouse_mode: MouseMode::DirectTouch,
            touch_click_enabled: true,
        }
    }

    /// The state with everything forgotten that belongs to one run of the player.
    pub open spec fn reset(self) -> PlayerModel<P> {
        PlayerModel {
            backend: self.backend.released(),
            mouse_mode: self.mouse_mode,
            touch_click_enabled: self.touch_click_enabled,
            ..PlayerModel::initial()
        }
    }

    pub open spec fn pause_toggled(self) -> PlayerModel<P> {
        PlayerModel { paused: !self.paused, ..self }
    }

    /// The state after a host's mouse mode. An unknown code changes nothing.
    pub open spec fn with_mouse_mode(self, code: i32) -> PlayerModel<P> {
        match mouse_mode_of(code) {
            Some(mouse_mode) => PlayerModel { mouse_mode, ..self },
            None => self,
        }
    }

    /// The state after a host has switched clicking by touch: 0 off, else on.
    pub open spec fn with_touch_click(self, enabled: i32) -> PlayerModel<P> {
        PlayerModel { touch_click_enabled: enabled != 0, ..self }
    }

    pub open spec fn with_backend(self, backend: BackendChoice) -> PlayerModel<P> {
        PlayerModel { backend, ..self }
    }

    pub open spec fn with_content_ready(self, notified: bool) -> PlayerModel<P> {
        PlayerModel { content_ready_notified: notified, ..self }
    }

    pub open spec fn with_cursor_shape(self, shape: MouseCursor) -> PlayerModel<P> {
        PlayerModel { cursor_shape: Some(shape), ..self }
    }

    /// The position of the cursor for the player, if it has one.
    pub open spec fn surface_cursor(self) -> Option<P> {
        match self.cursor {
            Some(position) => Some(position.surface),
            None => None,
        }
    }
}

impl<P: Copy> PlayerState<P> {
    /// The state when the process starts.
    pub fn new() -> (state: PlayerState<P>)
        ensures
            state@ == PlayerModel::<P>::initial(),
    {
        PlayerState {
            content_ready_notified: false,
            paused: false,
            cursor: None,
            cursor_shape: None,
            swipes: SwipeTracker::new(),
            backend: BackendChoice::new(),
            mouse_mode: MouseMode::DirectTouch,
            touch_click_enabled: true,
        }
    }

    /// The last known cursor position, or `None` if the surface was never touched.
    pub fn last_mouse_position(&self) -> (position: Option<P>)
        ensures
            position == self@.surface_cursor(),
    {
        match &self.cursor {
            Some(position) => Some(position.surface),
            None => None,
        }
    }

    /// Moves the cursor.
    pub fn set_last_mouse_position(&mut self, position: CursorPosition<P>)
        ensures
            final(self)@ == (PlayerModel { cursor: Some(position), ..old(self)@ }),
    {
        self.cursor = Some(position);
    }

    /// Where a host should draw the cursor, in pixels of the view, or `None` if
    /// the surface was never touched. It may lie outside the view in direct touch
    /// mode.
    pub fn cursor_position(&self) -> (position: Option<P>)
        ensures
            position == match self.cursor {
                Some(cursor) => Some(cursor.view),
                None => None,
            },
    {
        match &self.cursor {
            Some(position) => Some(position.view),
            None => None,
        }
    }

    /// Takes the shape of the cursor in a new frame.
    pub fn set_cursor_shape(&mut self, shape: MouseCursor)
        ensures
            final(self)@ == old(self)@.with_cursor_shape(shape),
    {
        self.cursor_shape = Some(shape);
    }

    /// The shape of the cursor for a host: 0 arrow, 1 hand, 2 I-beam, 3 grab, -1
    /// before the first frame.
    pub fn cursor_shape(&self) -> (code: i32)
        ensures
            code == cursor_shape_code(self.cursor_shape),
    {
        match self.cursor_shape {
            None => -1,
            Some(MouseCursor::Arrow) => 0,
            Some(MouseCursor::Hand) => 1,
            Some(MouseCursor::IBeam) => 2,
            Some(MouseCursor::Grab) => 3,
        }
    }

    /// Stores a host's mouse mode: 0 direct touch, 1 relative swipe. Any other
    /// code is ignored. Says whether the code was known.
    pub fn set_mouse_mode(&mut self, mode: i32) -> (known: bool)
        ensures
            final(self)@ == old(self)@.with_mouse_mode(mode),
            known == (mode == 0 || mode == 1),
    {
        match mode {
            0 => {
                self.mouse_mode = MouseMode::DirectTouch;
                true
            },
            1 => {
                self.mouse_mode = MouseMode::RelativeSwipe;
                true
            },
            _ => false,
        }
    }

    /// Lets touching the surface click, or, given 0, only move the cursor.
    pub fn set_touch_click_enabled(&mut self, enabled: i32)
        ensures
            final(self)@ == old(self)@.with_touch_click(enabled),
    {
        self.touch_click_enabled = enabled != 0;
    }

    /// Stores a host's choice of a renderer backend: 0 Vulkan, 1 OpenGL.
    pub fn set_backend_mode(&mut self, mode: i32) -> (change: ModeChange)
        ensures
            final(self)@ == old(self)@.with_backend(old(self).backend.with_mode(mode)),
            change == mode_change(old(self).backend.locked_in, mode),
            change == if mode != 0 && mode != 1 {
                ModeChange::Ignored
            } else if old(self).backend.locked_in {
                ModeChange::Deferred
            } else {
                ModeChange::Applied
            },
    {
        self.backend.set_mode(mode)
    }

    /// The backend in use, for a host: 0 Vulkan, 1 OpenGL, -1 before there is one.
    pub fn active_backend(&self) -> (code: i32)
        ensures
            code == active_code(self.backend.active),
    {
        self.backend.active_backend()
    }

    /// Flips the pause flag at once, so that whoever asks next sees the new state.
    /// The movie follows when the event loop applies the flag. Says whether the
    /// movie is to be paused.
    pub fn toggle_pause(&mut self) -> (paused: bool)
        ensures
            final(self)@ == old(self)@.pause_toggled(),
            paused == final(self).paused,
    {
        self.paused = !self.paused;
        self.paused
    }

    /// The pause flag, for a host: 1 paused, 0 playing.
    pub fn is_paused(&self) -> (code: i32)
        ensures
            code == if self.paused {
                1int
            } else {
                0int
            },
    {
        if self.paused {
            1
        } else {
            0
        }
    }
}

/// Resets the transient player state that must not leak between runs.
///
/// The state outlives an activity of the host. Without this, a second launch in
/// the same process would start with a stale cursor and stale touch origins, and
/// would never be told that its content is ready. What the host has configured is
/// left alone: it may have done so before the run starts.
pub fn reset_player_state<P: Copy>(state: &mut PlayerState<P>)
    ensures
        final(state)@ == old(state)@.reset(),
{
    state.content_ready_notified = false;
    state.paused = false;
    state.cursor = None;
    state.cursor_shape = None;
    state.swipes.clear();
    // A new renderer is about to be built, so the backend choice is live again.
    state.backend.release();
}

/// Claims the right to tell the host that content is ready, at most once per
/// movie. What then comes of it goes to `content_ready_attempted`.
///
/// The host is to be told with no lock held: it may call back.
pub fn notify_content_ready_once<P: Copy>(state: &mut PlayerState<P>) -> (notify: bool)
    ensures
        notify == !old(state).content_ready_notified,
        final(state)@ == old(state)@.with_content_ready(true),
{
    let notified = state.content_ready_notified;
    state.content_ready_notified = true;
    !notified
}

/// Takes what came of telling the host that content is ready. Where the host could
/// not be reached, a later tick retries rather than losing the signal.
pub fn content_ready_attempted<P: Copy>(state: &mut PlayerState<P>, reached: bool)
    ensures
        final(state)@ == old(state)@.with_content_ready(reached),
{
    state.content_ready_notified = reached;
}

/// The value behind a lock, whether it was taken as usual (`Ok`) or after a thread
/// has panicked while holding it (`Err`). The shared state carries nothing that such
/// a panic could leave half done.
pub fn lock_poison_tolerant<T>(locked: Result<T, T>) -> (value: T)
    ensures
        value == match locked {
            Ok(value) => value,
            Err(value) => value,
        },
{
    match locked {
        Ok(value) => value,
        Err(value) => value,
    }
}

} // verus!
