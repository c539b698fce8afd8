//! The events that reach the event loop, and what it makes the player do.
use vstd::prelude::*;

use crate::backend::ViewportDimensions;
use crate::player_id::PlayerId;

verus! {

/// A mouse button of the virtual mouse.
#[derive(Copy, Clone, Debug, PartialEq, Eq, Structural)]
pub enum MouseButton {
    Left,
    Right,
    Middle,
}

/// What a key stands for, as far as text input goes.
#[derive(Copy, Clone, Debug, PartialEq, Eq, Structural)]
pub enum LogicalKey {
    /// The key types this character.
    Character(char),
    /// The key types nothing: an arrow, a modifier, an unknown key.
    Other,
}

/// A key. `key` is the player core's own description of it, which is carried
/// through unread.
#[derive(Debug, PartialEq, Eq)]
pub struct KeyDescriptor<K> {
    pub key: K,
    pub logical_key: LogicalKey,
}

/// A task that is ready to be polled, bound to the player that spawned it.
#[derive(Debug, PartialEq, Eq)]
pub struct PlayerRunnable<T> {
    pub player: PlayerId,
    pub task: T,
}

/// User-defined events.
#[derive(Debug, PartialEq, Eq)]
pub enum RuffleEvent<T, K> {
    /// Indicates that a task is ready to be polled.
    TaskPoll(PlayerRunnable<T>),
    VirtualKeyEvent { down: bool, key_descriptor: KeyDescriptor<K> },
    VirtualMouseEvent { down: bool, button: MouseButton },
    RunContextMenuCallback(usize),
    ClearContextMenu,
    RequestContextMenu,
    TogglePause,
    /// Flush all SharedObjects (.sol) to disk, then notify the host through the
    /// optional `onSharedObjectsFlushed()` callback.
    ///
    /// Not synchronous with the call that queues it: the write happens when the
    /// event loop next drains this event. A host that is killed before the
    /// callback may lose the save.
    FlushSharedObjects,
}

/// An input event for the player. A position is in surface-buffer pixels.
#[derive(Debug, PartialEq, Eq)]
pub enum PlayerEvent<P, K> {
    MouseMove { position: P },
    MouseDown { position: P, button: MouseButton },
    MouseUp { position: P, button: MouseButton },
    KeyDown { key: KeyDescriptor<K> },
    KeyUp { key: KeyDescriptor<K> },
    TextInput { codepoint: char },
}

/// One thing to be done with the player, or on its behalf.
#[derive(Debug, PartialEq, Eq)]
pub enum PlayerCommand<P, K, T> {
    /// Hand the player an input event.
    Handle(PlayerEvent<P, K>),
    /// Poll a task of the player.
    RunTask(T),
    /// Start or stop the movie.
    SetPlaying(bool),
    /// Write all SharedObjects to disk.
    FlushSharedObjects,
    /// Tell the host that a requested flush is over.
    NotifySharedObjectsFlushed,
    RunContextMenuCallback(usize),
    ClearCustomMenuItems,
    /// Have the player prepare its context menu and the host show it.
    ShowContextMenu,
    SetViewport(ViewportDimensions),
    /// Give the renderer a surface of this size for the current window.
    RecreateSurface { width: u32, height: u32 },
    /// Play the movie whose bytes the host has supplied.
    SetRootMovie,
    /// Fetch the movie from the address that the host has supplied.
    FetchRootMovie,
    /// Fill what the movie leaves free of the surface.
    EnableLetterbox,
}

/// The mouse button of a host's code: 0 left, 1 right, 2 middle, and left for
/// every other code.
pub open spec fn mouse_button_of(button_code: i32) -> MouseButton {
    if button_code == 1 {
        MouseButton::Right
    } else if button_code == 2 {
        MouseButton::Middle
    } else {
        MouseButton::Left
    }
}

/// Converts a host's button code.
pub fn button_code_to_mouse_button(button_code: i32) -> (button: MouseButton)
    ensures
        button == mouse_button_of(button_code),
        button is Right <==> button_code == 1,
        button is Middle <==> button_code == 2,
{
    match button_code {
        0 => MouseButton::Left,
        1 => MouseButton::Right,
        2 => MouseButton::Middle,
        _ => MouseButton::Left,
    }
}

/// The event for a virtual key, from what the key tables know of it. A key that
/// they do not know makes no event.
pub fn virtual_key_event<T, K>(down: bool, key_descriptor: Option<KeyDescriptor<K>>) -> (event:
    Option<RuffleEvent<T, K>>)
    ensures
        event == match key_descriptor {
            Some(key) => Some(RuffleEvent::<T, K>::VirtualKeyEvent { down, key_descriptor: key }),
            None => None,
        },
{
    match key_descriptor {
        Some(key) => Some(RuffleEvent::VirtualKeyEvent { down, key_descriptor: key }),
        None => None,
    }
}

/// The event for a virtual mouse button.
pub fn virtual_mouse_event<T, K>(down: bool, button_code: i32) -> (event: RuffleEvent<T, K>)
    ensures
        event == (RuffleEvent::<T, K>::VirtualMouseEvent {
            down,
            button: mouse_button_of(button_code),
        }),
{
    RuffleEvent::VirtualMouseEvent { down, button: button_code_to_mouse_button(button_code) }
}

/// The event for a chosen context menu item. A negative index, which names no
/// item, becomes one beyond every item that a menu can have.
pub fn context_menu_event<T, K>(index: i32) -> (event: RuffleEvent<T, K>)
    ensures
        event matches RuffleEvent::RunContextMenuCallback(item) && item == if index >= 0 {
            index as int
        } else {
            usize::MAX + 1 + index
        },
{
    proof {
        assert(index < 0 && usize::BITS == 32 ==> index as usize == 0x1_0000_0000 + index)
            by (bit_vector);
        assert(index < 0 && usize::BITS == 64 ==> index as usize == 0x1_0000_0000_0000_0000 + index)
            by (bit_vector);
    }
    RuffleEvent::RunContextMenuCallback(index as usize)
}

/// What came of posting an event from a native method.
#[derive(Copy, Clone, Debug, PartialEq, Eq, Structural)]
pub struct PostOutcome {
    /// Whether the event loop will see the event.
    pub queued: bool,
    /// Whether a pending exception has to be cleared, so that the next call into
    /// the virtual machine is not met by it.
    pub clear_exception: bool,
}

/// Judges an attempt to post an event. `field` is the look-up of the event loop's
/// handle: the error of a look-up that failed, or whether the loop's channel took
/// the event. Neither failure is fatal: a host may call in while the loop is being
/// torn down.
pub fn post_event<E>(field: Result<bool, E>) -> (outcome: PostOutcome)
    ensures
        outcome.queued == (field matches Ok(sent) && sent),
        outcome.clear_exception == (field is Err),
{
    match field {
        Ok(sent) => PostOutcome { queued: sent, clear_exception: false },
        Err(_) => PostOutcome { queued: false, clear_exception: true },
    }
}

/// A click is a right one for code 1 and a middle one for code 2, and a left one for
/// every other code, known or not.
pub proof fn buttons_have_codes(button_code: i32)
    ensures
        mouse_button_of(button_code) is Right <==> button_code == 1,
        mouse_button_of(button_code) is Middle <==> button_code == 2,
        mouse_button_of(button_code) is Left <==> button_code != 1 && button_code != 2,
{
}

} // verus!
