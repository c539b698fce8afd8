//! What the event loop does with what happens to it. Each function takes one event
//! and gives the commands for the player, in order.
use vstd::prelude::*;

use crate::backend::{
    surface_length, to_surface_length, viewport, viewport_of, RenderBackend, ViewportDimensions,
    WindowSize,
};
use crate::custom_event::{
    KeyDescriptor, LogicalKey, MouseButton, PlayerCommand, PlayerEvent, RuffleEvent,
};
use crate::frame::FrameClock;
use crate::player_id::PlayerId;
use crate::state::{PlayerModel, PlayerState};

verus! {

/// What the event loop knows between events.
#[derive(Copy, Clone, Debug, PartialEq, Eq, Structural)]
pub struct EventLoop {
    /// Whether the loop is to end.
    pub quit: bool,
    /// Whether this turn of the loop has given reason to draw.
    pub needs_redraw: bool,
    /// The current player, if there is one.
    pub player: Option<PlayerId>,
    pub clock: FrameClock,
}

/// Whether an input event was used, or is left to the system.
#[derive(Copy, Clone, Debug, PartialEq, Eq, Structural)]
pub enum InputStatus {
    Handled,
    Unhandled,
}

/// What happened to a key.
#[derive(Copy, Clone, Debug, PartialEq, Eq, Structural)]
pub enum KeyAction {
    Down,
    Up,
    Other,
}

/// What a new window asks for.
#[derive(Debug, PartialEq, Eq)]
pub enum InitWindow<P, K, T> {
    /// The player goes on in the new window.
    Continue(Vec<PlayerCommand<P, K, T>>),
    /// A renderer is to be created, and then a player.
    Create { backend: RenderBackend, dimensions: ViewportDimensions },
}

/// What a turn of the loop does about the passing of time.
#[derive(Copy, Clone, Debug, PartialEq, Eq, Structural)]
pub enum Tick {
    /// No time has passed.
    Skip,
    /// Time has passed, but there is no player.
    Idle,
    /// The player is to be advanced by so many microseconds.
    Advance(u128),
}

/// What a player that was advanced says of itself.
#[derive(Copy, Clone, Debug, PartialEq, Eq, Structural)]
pub struct TickOutcome {
    /// The nanoseconds until its next frame.
    pub until_next_frame: u128,
    pub needs_render: bool,
    pub is_playing: bool,
}

/// The command that sends the cursor position to the player again, if there is one.
///
/// The player hides the cursor after input that is not a pointer's, so the virtual
/// mouse and the menu have to restore the hover state.
pub open spec fn reprime<P, K, T>(cursor: Option<P>) -> Seq<PlayerCommand<P, K, T>> {
    match cursor {
        Some(position) => seq![PlayerCommand::Handle(PlayerEvent::MouseMove { position })],
        None => seq![],
    }
}

/// The commands for a key.
pub open spec fn key_commands<P, K, T>(down: bool, key: KeyDescriptor<K>) -> Seq<
    PlayerCommand<P, K, T>,
> {
    if down {
        seq![PlayerCommand::Handle(PlayerEvent::KeyDown { key })] + match key.logical_key {
            LogicalKey::Character(codepoint) => seq![
                PlayerCommand::Handle(PlayerEvent::TextInput { codepoint }),
            ],
            LogicalKey::Other => seq![],
        }
    } else {
        seq![PlayerCommand::Handle(PlayerEvent::KeyUp { key })]
    }
}

/// The commands for a virtual mouse button. A click needs somewhere to click, so
/// there are none before the surface has been touched.
pub open spec fn mouse_commands<P, K, T>(
    cursor: Option<P>,
    down: bool,
    button: MouseButton,
) -> Seq<PlayerCommand<P, K, T>> {
    match cursor {
        Some(position) => reprime(cursor) + seq![
            PlayerCommand::Handle(
                if down {
                    PlayerEvent::MouseDown { position, button }
                } else {
                    PlayerEvent::MouseUp { position, button }
                },
            ),
        ] + reprime(cursor),
        None => seq![],
    }
}

/// The commands for an event that the loop has received, while `player` is the
/// current player.
pub open spec fn received_commands<P, K, T>(
    player: Option<PlayerId>,
    state: PlayerModel<P>,
    event: RuffleEvent<T, K>,
) -> Seq<PlayerCommand<P, K, T>> {
    let cursor = state.surface_cursor();
    match event {
        RuffleEvent::TaskPoll(runnable) => if player == Some(runnable.player) {
            seq![PlayerCommand::RunTask(runnable.task)]
        } else {
            seq![]
        },
        RuffleEvent::FlushSharedObjects => if player is Some {
            seq![PlayerCommand::FlushSharedObjects, PlayerCommand::NotifySharedObjectsFlushed]
        } else {
            seq![PlayerCommand::NotifySharedObjectsFlushed]
        },
        _ if player is None => seq![],
        RuffleEvent::VirtualKeyEvent { down, key_descriptor } => reprime(cursor) + key_commands(
            down,
            key_descriptor,
        ) + reprime(cursor),
        RuffleEvent::VirtualMouseEvent { down, button } => mouse_commands(cursor, down, button),
        RuffleEvent::RunContextMenuCallback(index) => seq![
            PlayerCommand::RunContextMenuCallback(index),
        ] + reprime(cursor),
        RuffleEvent::ClearContextMenu => seq![PlayerCommand::ClearCustomMenuItems] + reprime(
            cursor,
        ),
        RuffleEvent::RequestContextMenu => seq![PlayerCommand::ShowContextMenu] + reprime(cursor),
        RuffleEvent::TogglePause => seq![PlayerCommand::SetPlaying(!state.paused)],
    }
}

/// Whether an event gives reason to draw, if there is a player.
pub open spec fn gives_reason_to_draw<T, K>(event: RuffleEvent<T, K>) -> bool {
    !(event is TaskPoll || event is FlushSharedObjects)
}

/// The commands for a player that goes on in a new window, unless it is paused.
pub open spec fn continue_commands<P, K, T>(window: WindowSize, paused: bool) -> Seq<
    PlayerCommand<P, K, T>,
> {
    seq![
        PlayerCommand::RecreateSurface {
            width: surface_length(window.width),
            height: surface_length(window.height),
        },
        PlayerCommand::SetPlaying(!paused),
    ]
}

/// The commands for a player whose application goes away.
pub open spec fn destroy_commands<P, K, T>(player: Option<PlayerId>) -> Seq<
    PlayerCommand<P, K, T>,
> {
    if player is Some {
        seq![PlayerCommand::FlushSharedObjects]
    } else {
        seq![]
    }
}

/// The commands for a player whose window has a new size.
pub open spec fn resize_commands<P, K, T>(
    player: Option<PlayerId>,
    window: WindowSize,
    density: Option<u32>,
) -> Seq<PlayerCommand<P, K, T>> {
    if player is Some {
        seq![PlayerCommand::SetViewport(viewport_of(window, density))]
    } else {
        seq![]
    }
}

/// The commands for a player whose application is in the foreground again.
pub open spec fn resume_commands<P, K, T>(
    player: Option<PlayerId>,
    window: Option<WindowSize>,
) -> Seq<PlayerCommand<P, K, T>> {
    match window {
        Some(size) if player is Some && size.width > 0 && size.height > 0 => seq![
            PlayerCommand::RecreateSurface {
                width: surface_length(size.width),
                height: surface_length(size.height),
            },
        ],
        _ => seq![],
    }
}

/// Whether a key of the system's keyboard is one for the player.
pub open spec fn key_is_for_player<K>(
    player: Option<PlayerId>,
    action: KeyAction,
    key: Option<KeyDescriptor<K>>,
) -> bool {
    player is Some && key is Some && action !is Other
}

/// What becomes of a key of the system's keyboard.
pub open spec fn key_status<K>(
    player: Option<PlayerId>,
    action: KeyAction,
    key: Option<KeyDescriptor<K>>,
) -> InputStatus {
    if player is None || key_is_for_player(player, action, key) {
        InputStatus::Handled
    } else {
        InputStatus::Unhandled
    }
}

/// The commands for a key of the system's keyboard.
pub open spec fn system_key_commands<P, K, T>(
    player: Option<PlayerId>,
    action: KeyAction,
    key: Option<KeyDescriptor<K>>,
) -> Seq<PlayerCommand<P, K, T>> {
    if key_is_for_player(player, action, key) {
        key_commands(action is Down, key.unwrap())
    } else {
        seq![]
    }
}

/// What becomes of a motion.
pub open spec fn motion_status<P, K>(event: Option<PlayerEvent<P, K>>) -> InputStatus {
    if event is Some {
        InputStatus::Handled
    } else {
        InputStatus::Unhandled
    }
}

/// The commands for a motion.
pub open spec fn motion_commands<P, K, T>(
    player: Option<PlayerId>,
    event: Option<PlayerEvent<P, K>>,
) -> Seq<PlayerCommand<P, K, T>> {
    match event {
        Some(event) if player is Some => seq![PlayerCommand::Handle(event)],
        _ => seq![],
    }
}

/// The commands for a player whose window goes away.
pub open spec fn suspend_commands<P, K, T>() -> Seq<PlayerCommand<P, K, T>> {
    seq![PlayerCommand::SetPlaying(false)]
}

/// The commands for a player that was just created. It plays at once, unless it is
/// paused.
pub open spec fn start_commands<P, K, T>(
    dimensions: ViewportDimensions,
    has_bytes: bool,
    paused: bool,
) -> Seq<PlayerCommand<P, K, T>> {
    seq![
        if has_bytes {
            PlayerCommand::SetRootMovie
        } else {
            PlayerCommand::FetchRootMovie
        },
        PlayerCommand::SetPlaying(!paused),
        PlayerCommand::EnableLetterbox,
        PlayerCommand::SetViewport(dimensions),
    ]
}

impl EventLoop {
    /// The loop at the start of a turn.
    pub open spec fn turn_begun(self) -> EventLoop {
        EventLoop { needs_redraw: false, ..self }
    }

    /// The loop once it is to end.
    pub open spec fn destroyed(self) -> EventLoop {
        EventLoop { quit: true, ..self }
    }

    /// The loop after something that, given a `reason`, calls for drawing the player.
    pub open spec fn redraw_for(self, reason: bool) -> EventLoop {
        EventLoop { needs_redraw: self.needs_redraw || (self.player is Some && reason), ..self }
    }

    /// The loop with a player that was just created. A frame is due at once.
    pub open spec fn with_player(self, player: PlayerId, now: u128) -> EventLoop {
        EventLoop {
            player: Some(player),
            clock: FrameClock { last_frame: now, next_frame: Some(now) },
            ..self
        }
    }

    /// What the loop does about the time that has passed.
    pub open spec fn tick_at(self, now: u128) -> Tick {
        if self.clock.elapsed(now) == 0 {
            Tick::Skip
        } else if self.player is None {
            Tick::Idle
        } else {
            Tick::Advance(self.clock.elapsed(now) as u128)
        }
    }

    /// The loop after it has looked at the clock.
    pub open spec fn tick_begun(self, now: u128) -> EventLoop {
        if self.clock.elapsed(now) == 0 {
            self
        } else if self.player is Some {
            EventLoop { clock: FrameClock { last_frame: now, ..self.clock }, ..self }
        } else {
            EventLoop { clock: FrameClock { last_frame: now, next_frame: None }, ..self }
        }
    }

    /// The loop after the player has been advanced at `now`.
    pub open spec fn tick_finished(self, now: u128, outcome: Option<TickOutcome>) -> EventLoop {
        match outcome {
            Some(outcome) => EventLoop {
                needs_redraw: outcome.needs_render,
                clock: FrameClock {
                    next_frame: Some((now + outcome.until_next_frame) as u128),
                    ..self.clock
                },
                ..self
            },
            None => self,
        }
    }

    /// Whether a turn ends with drawing.
    pub open spec fn renders(self) -> bool {
        self.needs_redraw && self.player is Some
    }
}

/// Appends the command that sends the cursor position again, if there is one.
pub fn reprime_cursor<P: Copy, K, T>(
    state: &PlayerState<P>,
    commands: &mut Vec<PlayerCommand<P, K, T>>,
)
    ensures
        final(commands)@ == old(commands)@ + reprime::<P, K, T>(state@.surface_cursor()),
{
    if let Some(position) = state.last_mouse_position() {
        commands.push(PlayerCommand::Handle(PlayerEvent::MouseMove { position }));
    }
}

/// Appends the commands for a key.
fn push_key_commands<P, K, T>(
    down: bool,
    key: KeyDescriptor<K>,
    commands: &mut Vec<PlayerCommand<P, K, T>>,
)
    ensures
        final(commands)@ == old(commands)@ + key_commands::<P, K, T>(down, key),
{
    if down {
        let logical_key = key.logical_key;
        commands.push(PlayerCommand::Handle(PlayerEvent::KeyDown { key }));
        if let LogicalKey::Character(codepoint) = logical_key {
            commands.push(PlayerCommand::Handle(PlayerEvent::TextInput { codepoint }));
        }
    } else {
        commands.push(PlayerCommand::Handle(PlayerEvent::KeyUp { key }));
    }
}

impl EventLoop {
    /// A loop that has no player yet and has a frame due at once.
    pub fn new(now: u128) -> (event_loop: EventLoop)
        ensures
            event_loop == (EventLoop {
                quit: false,
                needs_redraw: false,
                player: None,
                clock: FrameClock { last_frame: now, next_frame: Some(now) },
            }),
    {
        EventLoop { quit: false, needs_redraw: false, player: None, clock: FrameClock::start(now) }
    }

    /// Starts a turn of the loop and says how long to wait for an event.
    pub fn begin_turn(&mut self) -> (timeout: u128)
        ensures
            *final(self) == old(self).turn_begun(),
            timeout == old(self).clock.timeout(),
    {
        self.needs_redraw = false;
        self.clock.poll_timeout()
    }

    /// The application is going away: saves what the movie has stored and ends the
    /// loop.
    pub fn on_destroy<P, K, T>(&mut self) -> (commands: Vec<PlayerCommand<P, K, T>>)
        ensures
            *final(self) == old(self).destroyed(),
            commands@ == destroy_commands::<P, K, T>(old(self).player),
            commands@ == if old(self).player is Some {
                seq![PlayerCommand::<P, K, T>::FlushSharedObjects]
            } else {
                seq![]
            },
    {
        let mut commands = Vec::new();
        if self.player.is_some() {
            commands.push(PlayerCommand::FlushSharedObjects);
        }
        self.quit = true;
        commands
    }

    /// The window has a new size. A player needs a window for that.
    pub fn on_window_resized<P, K, T>(
        &mut self,
        window: Option<WindowSize>,
        density: Option<u32>,
    ) -> (commands: Vec<PlayerCommand<P, K, T>>)
        requires
            old(self).player is Some ==> window is Some,
        ensures
            *final(self) == old(self).redraw_for(true),
            window matches Some(size) ==> commands@ == resize_commands::<P, K, T>(
                old(self).player,
                size,
                density,
            ),
            commands@ == if old(self).player is Some {
                seq![
                    PlayerCommand::<P, K, T>::SetViewport(viewport_of(window.unwrap(), density)),
                ]
            } else {
                seq![]
            },
    {
        let mut commands = Vec::new();
        if self.player.is_some() {
            if let Some(window) = window {
                commands.push(PlayerCommand::SetViewport(viewport(window, density)));
            }
            self.needs_redraw = true;
        }
        commands
    }

    /// The application is in the foreground again. Windows that have no extent yet
    /// are left alone.
    pub fn on_resume<P, K, T>(&self, window: Option<WindowSize>) -> (commands: Vec<
        PlayerCommand<P, K, T>,
    >)
        ensures
            commands@ == resume_commands::<P, K, T>(self.player, window),
            match window {
                Some(size) if self.player is Some && size.width > 0 && size.height > 0 => commands@
                    == seq![
                    PlayerCommand::<P, K, T>::RecreateSurface {
                        width: surface_length(size.width),
                        height: surface_length(size.height),
                    },
                ],
                _ => commands@ == Seq::<PlayerCommand<P, K, T>>::empty(),
            },
    {
        let mut commands = Vec::new();
        if self.player.is_some() {
            if let Some(size) = window {
                if size.width > 0 && size.height > 0 {
                    commands.push(
                        PlayerCommand::RecreateSurface {
                            width: to_surface_length(size.width),
                            height: to_surface_length(size.height),
                        },
                    );
                }
            }
        }
        commands
    }

    /// There is a new window. A player goes on in it, unless it is paused; else one
    /// is to be created, with the backend that the host asked for.
    pub fn on_init_window<P: Copy, K, T>(
        &self,
        state: &mut PlayerState<P>,
        window: WindowSize,
        density: Option<u32>,
    ) -> (init: InitWindow<P, K, T>)
        ensures
            self.player is Some ==> {
                &&& final(state)@ == old(state)@
                &&& init matches InitWindow::Continue(commands)
                &&& commands@ == continue_commands::<P, K, T>(window, old(state).paused)
            },
            self.player is None ==> {
                &&& final(state)@ == old(state)@.with_backend(old(state).backend.begun())
                &&& init matches InitWindow::Create { backend, dimensions }
                &&& backend == old(state).backend.mode
                &&& dimensions == viewport_of(window, density)
            },
    {
        if self.player.is_some() {
            let mut commands = Vec::new();
            commands.push(
                PlayerCommand::RecreateSurface {
                    width: to_surface_length(window.width),
                    height: to_surface_length(window.height),
                },
            );
            commands.push(PlayerCommand::SetPlaying(!state.paused));
            InitWindow::Continue(commands)
        } else {
            let backend = state.backend.begin();
            InitWindow::Create { backend, dimensions: viewport(window, density) }
        }
    }

    /// The player that a new window asked for has been created. It gets the movie
    /// whose bytes the host has supplied, or else the one at the address that it has
    /// supplied, and plays it at once, unless the host has already asked for a pause.
    pub fn on_player_created<P, K, T>(
        &mut self,
        player: PlayerId,
        dimensions: ViewportDimensions,
        has_bytes: bool,
        paused: bool,
        now: u128,
    ) -> (commands: Vec<PlayerCommand<P, K, T>>)
        ensures
            *final(self) == old(self).with_player(player, now),
            commands@ == start_commands::<P, K, T>(dimensions, has_bytes, paused),
            commands@.len() == 4,
            commands@[0] is SetRootMovie <==> has_bytes,
            commands@[0] is FetchRootMovie <==> !has_bytes,
            commands@[1] == PlayerCommand::<P, K, T>::SetPlaying(!paused),
            commands@[2] is EnableLetterbox,
            commands@[3] == PlayerCommand::<P, K, T>::SetViewport(dimensions),
    {
        self.player = Some(player);
        self.clock = FrameClock::start(now);
        let mut commands = Vec::new();
        if has_bytes {
            commands.push(PlayerCommand::SetRootMovie);
        } else {
            commands.push(PlayerCommand::FetchRootMovie);
        }
        commands.push(PlayerCommand::SetPlaying(!paused));
        commands.push(PlayerCommand::EnableLetterbox);
        commands.push(PlayerCommand::SetViewport(dimensions));
        commands
    }

    /// The window is going away, and with it the place to play. There is a player
    /// by then.
    pub fn on_terminate_window<P, K, T>(&self) -> (commands: Vec<PlayerCommand<P, K, T>>)
        requires
            self.player is Some,
        ensures
            commands@ == suspend_commands::<P, K, T>(),
    {
        let mut commands = Vec::new();
        commands.push(PlayerCommand::SetPlaying(false));
        commands
    }

    /// Passes on the event of a motion, if it is one for the player.
    pub fn on_motion<P, K, T>(&self, event: Option<PlayerEvent<P, K>>) -> (response: (
        InputStatus,
        Vec<PlayerCommand<P, K, T>>,
    ))
        ensures
            response.0 == motion_status(event),
            response.1@ == motion_commands::<P, K, T>(self.player, event),
            response.0 == if event is Some {
                InputStatus::Handled
            } else {
                InputStatus::Unhandled
            },
            response.1@ == match event {
                Some(event) if self.player is Some => seq![
                    PlayerCommand::<P, K, T>::Handle(event),
                ],
                _ => seq![],
            },
    {
        let mut commands = Vec::new();
        match event {
            Some(event) => {
                if self.player.is_some() {
                    commands.push(PlayerCommand::Handle(event));
                }
                (InputStatus::Handled, commands)
            },
            None => (InputStatus::Unhandled, commands),
        }
    }

    /// Takes a key of the system's keyboard. `key` is what the key tables know of
    /// it. Without a player every key is used up.
    pub fn on_key<P, K, T>(&mut self, action: KeyAction, key: Option<KeyDescriptor<K>>) -> (
    response: (InputStatus, Vec<PlayerCommand<P, K, T>>))
        ensures
            response.0 == key_status(old(self).player, action, key),
            response.1@ == system_key_commands::<P, K, T>(old(self).player, action, key),
            *final(self) == old(self).redraw_for(key_is_for_player(old(self).player, action, key)),
            ({
                let for_player = old(self).player is Some && key is Some && action !is Other;
                &&& response.0 == if for_player || old(self).player is None {
                    InputStatus::Handled
                } else {
                    InputStatus::Unhandled
                }
                &&& response.1@ == if for_player {
                    key_commands::<P, K, T>(action is Down, key.unwrap())
                } else {
                    seq![]
                }
                &&& *final(self) == old(self).redraw_for(for_player)
            }),
    {
        let mut commands = Vec::new();
        if self.player.is_none() {
            return (InputStatus::Handled, commands);
        }
        let key = match key {
            Some(key) => key,
            None => return (InputStatus::Unhandled, commands),
        };
        let down = match action {
            KeyAction::Down => true,
            KeyAction::Up => false,
            KeyAction::Other => return (InputStatus::Unhandled, commands),
        };
        push_key_commands(down, key, &mut commands);
        self.needs_redraw = true;
        (InputStatus::Handled, commands)
    }

    /// Takes an event that native methods or tasks have sent. A turn of the loop
    /// takes at most one.
    pub fn on_event<P: Copy, K, T>(
        &mut self,
        state: &PlayerState<P>,
        event: RuffleEvent<T, K>,
    ) -> (commands: Vec<PlayerCommand<P, K, T>>)
        ensures
            commands@ == received_commands(old(self).player, state@, event),
            *final(self) == old(self).redraw_for(gives_reason_to_draw(event)),
    {
        let mut commands = Vec::new();
        let player = match self.player {
            Some(player) => player,
            None => {
                // Always notify, so that a waiting caller is released even when no
                // player exists yet.
                if let RuffleEvent::FlushSharedObjects = event {
                    commands.push(PlayerCommand::NotifySharedObjectsFlushed);
                }
                return commands;
            },
        };
        match event {
            RuffleEvent::TaskPoll(runnable) => {
                // A task of another player is stale, and cancelled by being dropped.
                if runnable.player == player {
                    commands.push(PlayerCommand::RunTask(runnable.task));
                }
                return commands;
            },
            RuffleEvent::FlushSharedObjects => {
                commands.push(PlayerCommand::FlushSharedObjects);
                commands.push(PlayerCommand::NotifySharedObjectsFlushed);
                return commands;
            },
            RuffleEvent::VirtualKeyEvent { down, key_descriptor } => {
                reprime_cursor(state, &mut commands);
                push_key_commands(down, key_descriptor, &mut commands);
                reprime_cursor(state, &mut commands);
            },
            RuffleEvent::VirtualMouseEvent { down, button } => {
                if let Some(position) = state.last_mouse_position() {
                    reprime_cursor(state, &mut commands);
                    let click = if down {
                        PlayerEvent::MouseDown { position, button }
                    } else {
                        PlayerEvent::MouseUp { position, button }
                    };
                    commands.push(PlayerCommand::Handle(click));
                    reprime_cursor(state, &mut commands);
                }
            },
            RuffleEvent::RunContextMenuCallback(index) => {
                commands.push(PlayerCommand::RunContextMenuCallback(index));
                reprime_cursor(state, &mut commands);
            },
            RuffleEvent::ClearContextMenu => {
                commands.push(PlayerCommand::ClearCustomMenuItems);
                reprime_cursor(state, &mut commands);
            },
            RuffleEvent::RequestContextMenu => {
                commands.push(PlayerCommand::ShowContextMenu);
                reprime_cursor(state, &mut commands);
            },
            RuffleEvent::TogglePause => {
                // The flag was flipped when the event was sent; this only applies
                // it, so that several such events do not undo each other.
                commands.push(PlayerCommand::SetPlaying(!state.paused));
            },
        }
        self.needs_redraw = true;
        commands
    }

    /// Lets time pass. The player is to be advanced by whole microseconds; less
    /// than one is left for a later turn.
    pub fn begin_tick(&mut self, now: u128) -> (tick: Tick)
        ensures
            *final(self) == old(self).tick_begun(now),
            tick == if old(self).clock.elapsed(now) == 0 {
                Tick::Skip
            } else if old(self).player is None {
                Tick::Idle
            } else {
                Tick::Advance(old(self).clock.elapsed(now) as u128)
            },
            tick == old(self).tick_at(now),
            tick is Skip <==> now < old(self).clock.last_frame + 1_000,
            tick !is Skip ==> final(self).clock.last_frame == now,
            tick matches Tick::Advance(micros) ==> micros * 1_000 <= now
                - old(self).clock.last_frame < micros * 1_000 + 1_000,
    {
        let elapsed = self.clock.elapsed_micros(now);
        if elapsed == 0 {
            return Tick::Skip;
        }
        self.clock.last_frame = now;
        if self.player.is_some() {
            Tick::Advance(elapsed)
        } else {
            self.clock.next_frame = None;
            Tick::Idle
        }
    }

    /// Takes what the player that was advanced at `now` says of itself; `None` where
    /// it could not be reached. Says whether its content is ready. Whether to draw
    /// is for the player to say, whatever the events of this turn gave reason for.
    pub fn finish_tick(&mut self, now: u128, outcome: Option<TickOutcome>) -> (content_ready: bool)
        requires
            outcome matches Some(outcome) ==> now + outcome.until_next_frame <= u128::MAX,
        ensures
            *final(self) == old(self).tick_finished(now, outcome),
            content_ready == (outcome matches Some(outcome) && outcome.is_playing),
            outcome matches Some(outcome) ==> final(self).clock.next_frame == Some(
                (now + outcome.until_next_frame) as u128,
            ),
            final(self).clock.last_frame == old(self).clock.last_frame,
    {
        match outcome {
            Some(outcome) => {
                self.clock.next_frame = Some(now + outcome.until_next_frame);
                self.needs_redraw = outcome.needs_render;
                outcome.is_playing
            },
            None => false,
        }
    }

    /// Whether this turn of the loop ends with drawing.
    pub fn should_render(&self) -> (render: bool)
        ensures
            render == self.renders(),
    {
        self.needs_redraw && self.player.is_some()
    }
}

} // verus!
