//! What holds of the player across events: of every sequence of changes, and of
//! what the event loop makes of them.
use vstd::prelude::*;

use crate::backend::{RenderBackend, ViewportDimensions, WindowSize};
use crate::custom_event::{
    KeyDescriptor, LogicalKey, MouseButton, PlayerCommand, PlayerEvent, RuffleEvent,
};
use crate::event_loop::{
    continue_commands, gives_reason_to_draw, key_commands, received_commands, start_commands,
    suspend_commands, EventLoop, TickOutcome,
};
use crate::player_id::PlayerId;
use crate::state::{CursorPosition, MouseCursor, PlayerModel};
use crate::touch::{is_press, is_release, motion_event_of, CursorTarget, MotionAction, Swipe};

verus! {

/// Everything that can happen to the state that native methods and the event loop
/// share.
pub enum StateChange<P> {
    /// A run of the player starts.
    Reset,
    TogglePause,
    SetMouseMode(i32),
    SetTouchClick(i32),
    SetBackendMode(i32),
    /// A renderer is being built.
    RendererBegun,
    RendererAttempted { attempted: RenderBackend, created: bool },
    ContentReady(bool),
    CursorShape(MouseCursor),
    Motion {
        action: MotionAction,
        pointer_id: i32,
        touch: P,
        position: CursorPosition<P>,
    },
}

impl<P> PlayerModel<P> {
    /// The state after a change.
    pub open spec fn after(self, change: StateChange<P>) -> PlayerModel<P> {
        match change {
            StateChange::Reset => self.reset(),
            StateChange::TogglePause => self.pause_toggled(),
            StateChange::SetMouseMode(code) => self.with_mouse_mode(code),
            StateChange::SetTouchClick(enabled) => self.with_touch_click(enabled),
            StateChange::SetBackendMode(code) => self.with_backend(self.backend.with_mode(code)),
            StateChange::RendererBegun => self.with_backend(self.backend.begun()),
            StateChange::RendererAttempted { attempted, created } => self.with_backend(
                self.backend.attempted(attempted, created),
            ),
            StateChange::ContentReady(notified) => self.with_content_ready(notified),
            StateChange::CursorShape(shape) => self.with_cursor_shape(shape),
            StateChange::Motion { action, pointer_id, touch, position } => self.after_motion(
                action,
                pointer_id,
                touch,
                position,
            ),
        }
    }

    /// The state after changes, in order.
    pub open spec fn after_all(self, changes: Seq<StateChange<P>>) -> PlayerModel<P>
        decreases changes.len(),
    {
        if changes.len() == 0 {
            self
        } else {
            self.after(changes[0]).after_all(changes.drop_first())
        }
    }
}

/// A reset forgets everything but what the host has configured, and a second one
/// changes nothing more.
pub proof fn reset_keeps_configuration<P>(state: PlayerModel<P>)
    ensures
        state.reset().mouse_mode == state.mouse_mode,
        state.reset().touch_click_enabled == state.touch_click_enabled,
        state.reset().backend.mode == state.backend.mode,
        !state.reset().content_ready_notified,
        !state.reset().paused,
        state.reset().cursor is None,
        state.reset().cursor_shape is None,
        state.reset().swipes == Map::<i32, Swipe<P>>::empty(),
        !state.reset().backend.locked_in,
        state.reset().backend.active is None,
        state.reset().reset() == state.reset(),
{
}

/// A run does not see what an earlier one did: two states that are configured alike
/// are the same once they are reset.
pub proof fn nothing_leaks_between_runs<P>(state: PlayerModel<P>, other: PlayerModel<P>)
    requires
        state.mouse_mode == other.mouse_mode,
        state.touch_click_enabled == other.touch_click_enabled,
        state.backend.mode == other.backend.mode,
    ensures
        state.reset() == other.reset(),
{
}

/// The mouse mode changes only when the host sets it.
pub proof fn mouse_mode_is_the_hosts<P>(state: PlayerModel<P>, changes: Seq<StateChange<P>>)
    requires
        forall|i: int| 0 <= i < changes.len() ==> !(#[trigger] changes[i] is SetMouseMode),
    ensures
        state.after_all(changes).mouse_mode == state.mouse_mode,
    decreases changes.len(),
{
    if changes.len() > 0 {
        assert(!(changes[0] is SetMouseMode));
        mouse_mode_is_the_hosts(state.after(changes[0]), changes.drop_first());
    }
}

/// Whether touching clicks changes only when the host says so.
pub proof fn touch_click_is_the_hosts<P>(state: PlayerModel<P>, changes: Seq<StateChange<P>>)
    requires
        forall|i: int| 0 <= i < changes.len() ==> !(#[trigger] changes[i] is SetTouchClick),
    ensures
        state.after_all(changes).touch_click_enabled == state.touch_click_enabled,
    decreases changes.len(),
{
    if changes.len() > 0 {
        assert(!(changes[0] is SetTouchClick));
        touch_click_is_the_hosts(state.after(changes[0]), changes.drop_first());
    }
}

/// The requested backend changes only when the host asks for another: a fallback
/// does not, nor does a new run.
pub proof fn requested_backend_is_the_hosts<P>(state: PlayerModel<P>, changes: Seq<StateChange<P>>)
    requires
        forall|i: int| 0 <= i < changes.len() ==> !(#[trigger] changes[i] is SetBackendMode),
    ensures
        state.after_all(changes).backend.mode == state.backend.mode,
    decreases changes.len(),
{
    if changes.len() > 0 {
        assert(!(changes[0] is SetBackendMode));
        requested_backend_is_the_hosts(state.after(changes[0]), changes.drop_first());
    }
}

/// The backend in use changes only when a renderer is created or a run starts,
/// whatever the host asks for meanwhile.
pub proof fn active_backend_is_the_renderers<P>(
    state: PlayerModel<P>,
    changes: Seq<StateChange<P>>,
)
    requires
        forall|i: int|
            0 <= i < changes.len() ==> !(#[trigger] changes[i] is RendererAttempted)
                && !(changes[i] is Reset),
    ensures
        state.after_all(changes).backend.active == state.backend.active,
    decreases changes.len(),
{
    if changes.len() > 0 {
        assert(!(changes[0] is RendererAttempted));
        active_backend_is_the_renderers(state.after(changes[0]), changes.drop_first());
    }
}

/// The pause flag changes only when it is toggled or a run starts: losing and
/// getting back the window does not touch it.
pub proof fn pause_flag_is_the_hosts<P>(state: PlayerModel<P>, changes: Seq<StateChange<P>>)
    requires
        forall|i: int|
            0 <= i < changes.len() ==> !(#[trigger] changes[i] is TogglePause)
                && !(changes[i] is Reset),
    ensures
        state.after_all(changes).paused == state.paused,
    decreases changes.len(),
{
    if changes.len() > 0 {
        assert(!(changes[0] is TogglePause));
        pause_flag_is_the_hosts(state.after(changes[0]), changes.drop_first());
    }
}

/// Toggling twice undoes itself.
pub proof fn toggling_twice_changes_nothing<P>(state: PlayerModel<P>)
    ensures
        state.pause_toggled().paused != state.paused,
        state.pause_toggled().pause_toggled() == state,
{
}

/// The cursor changes only on a touch event, but for the start of a run.
pub proof fn cursor_moves_only_on_touch<P>(state: PlayerModel<P>, changes: Seq<StateChange<P>>)
    requires
        forall|i: int|
            0 <= i < changes.len() ==> !(#[trigger] changes[i] is Motion)
                && !(changes[i] is Reset),
    ensures
        state.after_all(changes).cursor == state.cursor,
    decreases changes.len(),
{
    if changes.len() > 0 {
        assert(!(changes[0] is Motion));
        cursor_moves_only_on_touch(state.after(changes[0]), changes.drop_first());
    }
}

/// A cursor that is known stays known for as long as the run lasts, and every touch
/// event, even one that the player is not told of, makes it known.
pub proof fn cursor_stays_known<P>(state: PlayerModel<P>, changes: Seq<StateChange<P>>)
    requires
        forall|i: int| 0 <= i < changes.len() ==> !(#[trigger] changes[i] is Reset),
        state.cursor is Some || exists|i: int|
            0 <= i < changes.len() && #[trigger] changes[i] is Motion,
    ensures
        state.after_all(changes).cursor is Some,
    decreases changes.len(),
{
    if changes.len() > 0 {
        let rest = changes.drop_first();
        assert(!(changes[0] is Reset));
        if state.after(changes[0]).cursor is None {
            let i = choose|i: int| 0 <= i < changes.len() && #[trigger] changes[i] is Motion;
            assert(rest[i - 1] is Motion);
        }
        cursor_stays_known(state.after(changes[0]), rest);
    }
}

/// On the trackpad neither touching down nor lifting moves a cursor that is known.
pub proof fn trackpad_cursor_rests_at_press_and_release<P>(
    state: PlayerModel<P>,
    action: MotionAction,
    pointer_id: i32,
    touch: P,
)
    requires
        state.mouse_mode is RelativeSwipe,
        state.cursor is Some,
        is_press(action) || is_release(action),
    ensures
        state.cursor_target(action, pointer_id, touch) == CursorTarget::At(
            state.cursor.unwrap().surface,
        ),
{
}

/// In direct touch mode the cursor is where the finger is, and no finger is tracked
/// that was not tracked before.
pub proof fn direct_touch_follows_the_finger<P>(
    state: PlayerModel<P>,
    action: MotionAction,
    pointer_id: i32,
    touch: P,
)
    requires
        state.mouse_mode is DirectTouch,
    ensures
        state.cursor_target(action, pointer_id, touch) == CursorTarget::At(touch),
        state.swipes_after(action, pointer_id, touch) == state.swipes,
{
}

/// Whether a change leaves the finger alone: it does not press or lift it, and does
/// not start a run.
pub open spec fn leaves_finger_alone<P>(change: StateChange<P>, finger: i32) -> bool {
    match change {
        StateChange::Reset => false,
        StateChange::Motion { action, pointer_id, .. } => pointer_id != finger || !(is_press(action)
            || is_release(action)),
        _ => true,
    }
}

/// Fingers do not disturb each other: whatever happens in between, a finger that has
/// not been pressed or lifted has the swipe that it had.
pub proof fn fingers_are_independent<P>(
    state: PlayerModel<P>,
    changes: Seq<StateChange<P>>,
    finger: i32,
)
    requires
        forall|i: int|
            0 <= i < changes.len() ==> leaves_finger_alone(#[trigger] changes[i], finger),
    ensures
        state.after_all(changes).swipes.contains_key(finger) == state.swipes.contains_key(finger),
        state.swipes.contains_key(finger) ==> state.after_all(changes).swipes[finger]
            == state.swipes[finger],
    decreases changes.len(),
{
    if changes.len() > 0 {
        assert(leaves_finger_alone(changes[0], finger));
        fingers_are_independent(state.after(changes[0]), changes.drop_first(), finger);
    }
}

/// A swipe on the trackpad: once a finger has gone down at `start`, and whatever the
/// others do meanwhile, moving it puts the cursor as far from where it was then as
/// the finger is from `start`. After it is lifted it is not followed any more.
pub proof fn swipe_counts_from_where_it_began<P>(
    state: PlayerModel<P>,
    press: MotionAction,
    finger: i32,
    start: P,
    position: CursorPosition<P>,
    changes: Seq<StateChange<P>>,
    touch: P,
    lift: MotionAction,
)
    requires
        state.mouse_mode is RelativeSwipe,
        is_press(press),
        is_release(lift),
        forall|i: int|
            0 <= i < changes.len() ==> leaves_finger_alone(#[trigger] changes[i], finger)
                && !(changes[i] is SetMouseMode),
    ensures
        ({
            let now = state.after_motion(press, finger, start, position).after_all(changes);
            &&& now.cursor_target(MotionAction::Move, finger, touch) == (CursorTarget::Swiped {
                anchor: state.cursor_or(start),
                start,
            })
            &&& !now.swipes_after(lift, finger, touch).contains_key(finger)
        }),
{
    let pressed = state.after_motion(press, finger, start, position);
    fingers_are_independent(pressed, changes, finger);
    mouse_mode_is_the_hosts(pressed, changes);
}

/// With clicking by touch switched off, touching only ever moves the mouse.
pub proof fn touch_does_not_click_when_disabled<P, K>(action: MotionAction, position: P)
    ensures
        motion_event_of::<P, K>(action, false, position) matches Some(event) ==> event
            == (PlayerEvent::<P, K>::MouseMove { position }),
{
}

/// A finger that goes down and up clicks once, with the left button, where the
/// cursor is.
pub proof fn touch_clicks_when_enabled<P, K>(
    press: MotionAction,
    release: MotionAction,
    position: P,
)
    requires
        is_press(press),
        is_release(release),
    ensures
        motion_event_of::<P, K>(press, true, position) == Some(
            (PlayerEvent::<P, K>::MouseDown { position, button: MouseButton::Left }),
        ),
        motion_event_of::<P, K>(release, true, position) == Some(
            (PlayerEvent::<P, K>::MouseUp { position, button: MouseButton::Left }),
        ),
{
}

/// A tick of the loop as far as the host's notice goes: whether the movie plays, and
/// whether the host could be reached.
pub struct ReadyTick {
    pub playing: bool,
    pub reachable: bool,
}

/// Whether the host has been told, after a tick.
pub open spec fn told_after(told: bool, tick: ReadyTick) -> bool {
    told || (tick.playing && tick.reachable)
}

/// How often the host is told in the course of ticks.
pub open spec fn times_told(told: bool, ticks: Seq<ReadyTick>) -> nat
    decreases ticks.len(),
{
    if ticks.len() == 0 {
        0
    } else {
        let now = told_after(told, ticks[0]);
        times_told(now, ticks.drop_first()) + if now && !told {
            1nat
        } else {
            0nat
        }
    }
}

/// The state after a tick. While the movie plays the notice is claimed, and where it
/// had not been claimed before, what came of it is taken.
pub open spec fn after_ready_tick<P>(state: PlayerModel<P>, tick: ReadyTick) -> PlayerModel<P> {
    if !tick.playing {
        state
    } else if state.content_ready_notified {
        state.with_content_ready(true)
    } else {
        state.with_content_ready(true).with_content_ready(tick.reachable)
    }
}

/// The flag says whether the host has been told.
pub proof fn ready_flag_says_whether_told<P>(state: PlayerModel<P>, tick: ReadyTick)
    ensures
        after_ready_tick(state, tick).content_ready_notified == told_after(
            state.content_ready_notified,
            tick,
        ),
{
}

/// The host is told that content is ready exactly once per movie, if the movie ever
/// plays while the host can be reached, and else never. A host that was out of reach
/// is told later.
pub proof fn content_ready_is_told_once(told: bool, ticks: Seq<ReadyTick>)
    ensures
        times_told(told, ticks) == if !told && exists|i: int|
            0 <= i < ticks.len() && (#[trigger] ticks[i]).playing && ticks[i].reachable {
            1nat
        } else {
            0nat
        },
    decreases ticks.len(),
{
    if ticks.len() > 0 {
        let rest = ticks.drop_first();
        content_ready_is_told_once(told_after(told, ticks[0]), rest);
        if exists|i: int| 0 <= i < rest.len() && (#[trigger] rest[i]).playing && rest[i].reachable {
            let i = choose|i: int|
                0 <= i < rest.len() && (#[trigger] rest[i]).playing && rest[i].reachable;
            assert(ticks[i + 1].playing && ticks[i + 1].reachable);
        }
        if exists|i: int|
            0 < i < ticks.len() && (#[trigger] ticks[i]).playing && ticks[i].reachable {
            let i = choose|i: int|
                0 < i < ticks.len() && (#[trigger] ticks[i]).playing && ticks[i].reachable;
            assert(rest[i - 1].playing && rest[i - 1].reachable);
        }
    }
}

/// Whether the movie plays after commands, given whether it played before.
pub open spec fn playing_after<P, K, T>(
    playing: bool,
    commands: Seq<PlayerCommand<P, K, T>>,
) -> bool
    decreases commands.len(),
{
    if commands.len() == 0 {
        playing
    } else {
        match commands.last() {
            PlayerCommand::SetPlaying(playing) => playing,
            _ => playing_after(playing, commands.drop_last()),
        }
    }
}

/// Commands that neither start nor stop the movie leave it as it is.
proof fn playing_is_left_alone<P, K, T>(playing: bool, commands: Seq<PlayerCommand<P, K, T>>)
    requires
        forall|i: int| 0 <= i < commands.len() ==> !(#[trigger] commands[i] is SetPlaying),
    ensures
        playing_after(playing, commands) == playing,
    decreases commands.len(),
{
    if commands.len() > 0 {
        assert(!(commands[commands.len() - 1] is SetPlaying));
        playing_is_left_alone(playing, commands.drop_last());
    }
}

/// Of the events that native methods and tasks send, only the one for a pause starts
/// or stops the movie. It makes the movie follow the flag, so that however many such
/// events are waiting, and however often the flag was flipped, the movie plays
/// exactly if the flag says so.
pub proof fn movie_follows_the_pause_flag<P, K, T>(
    player: PlayerId,
    state: PlayerModel<P>,
    event: RuffleEvent<T, K>,
    playing: bool,
)
    ensures
        playing_after(playing, received_commands::<P, K, T>(Some(player), state, event))
            == if event is TogglePause {
            !state.paused
        } else {
            playing
        },
{
    let commands = received_commands::<P, K, T>(Some(player), state, event);
    if !(event is TogglePause) {
        playing_is_left_alone(playing, commands);
    }
}

/// A paused movie stays paused when its window goes away and another one comes, and
/// one that was not paused plays again.
pub proof fn pause_survives_the_window<P, K, T>(window: WindowSize, paused: bool, playing: bool)
    ensures
        !playing_after(playing, suspend_commands::<P, K, T>()),
        playing_after(playing, suspend_commands::<P, K, T>() + continue_commands(window, paused))
            == !paused,
{
}

/// A new movie plays at once exactly if it is not paused.
pub proof fn new_movie_follows_the_pause_flag<P, K, T>(
    dimensions: ViewportDimensions,
    has_bytes: bool,
    paused: bool,
    playing: bool,
)
    ensures
        playing_after(playing, start_commands::<P, K, T>(dimensions, has_bytes, paused)) == !paused,
{
    reveal_with_fuel(playing_after, 4);
}

/// A movie, the shared state, and the pause events that are waiting for the loop.
pub struct Playback<P> {
    pub state: PlayerModel<P>,
    pub playing: bool,
    pub has_window: bool,
    pub waiting: nat,
}

/// What can happen to a movie that exists.
pub enum PlaybackStep {
    /// The host toggles the pause: the flag is flipped and an event is sent.
    Toggle,
    /// The loop receives such an event, if one is waiting.
    Receive,
    LoseWindow,
    GainWindow(WindowSize),
}

impl<P> Playback<P> {
    /// A movie whose player was just created, while so many pause events are waiting.
    pub open spec fn created<K, T>(
        state: PlayerModel<P>,
        dimensions: ViewportDimensions,
        has_bytes: bool,
        waiting: nat,
    ) -> Playback<P> {
        Playback {
            state,
            playing: playing_after(
                false,
                start_commands::<P, K, T>(dimensions, has_bytes, state.paused),
            ),
            has_window: true,
            waiting,
        }
    }

    /// The movie after a step.
    pub open spec fn after<K, T>(self, player: PlayerId, step: PlaybackStep) -> Playback<P> {
        match step {
            PlaybackStep::Toggle => Playback {
                state: self.state.pause_toggled(),
                waiting: self.waiting + 1,
                ..self
            },
            PlaybackStep::Receive if self.waiting == 0 => self,
            PlaybackStep::Receive => Playback {
                playing: playing_after(
                    self.playing,
                    received_commands::<P, K, T>(
                        Some(player),
                        self.state,
                        RuffleEvent::TogglePause,
                    ),
                ),
                waiting: (self.waiting - 1) as nat,
                ..self
            },
            PlaybackStep::LoseWindow => Playback {
                playing: playing_after(self.playing, suspend_commands::<P, K, T>()),
                has_window: false,
                ..self
            },
            PlaybackStep::GainWindow(window) => Playback {
                playing: playing_after(
                    self.playing,
                    continue_commands::<P, K, T>(window, self.state.paused),
                ),
                has_window: true,
                ..self
            },
        }
    }

    /// The movie after steps, in order.
    pub open spec fn after_all<K, T>(self, player: PlayerId, steps: Seq<PlaybackStep>) -> Playback<
        P,
    >
        decreases steps.len(),
    {
        if steps.len() == 0 {
            self
        } else {
            self.after::<K, T>(player, steps[0]).after_all::<K, T>(player, steps.drop_first())
        }
    }

    /// Whether the movie has a window and no pause event is waiting.
    pub open spec fn settled(self) -> bool {
        self.has_window && self.waiting == 0
    }
}

/// Steps keep a settled movie to its pause flag.
proof fn steps_keep_to_the_pause_flag<P, K, T>(
    playback: Playback<P>,
    player: PlayerId,
    steps: Seq<PlaybackStep>,
)
    requires
        playback.settled() ==> playback.playing == !playback.state.paused,
    ensures
        ({
            let now = playback.after_all::<K, T>(player, steps);
            now.settled() ==> now.playing == !now.state.paused
        }),
    decreases steps.len(),
{
    if steps.len() > 0 {
        steps_keep_to_the_pause_flag::<P, K, T>(
            playback.after::<K, T>(player, steps[0]),
            player,
            steps.drop_first(),
        );
    }
}

/// Whenever a movie has a window and no pause event is waiting, it plays exactly if
/// it is not paused: from its creation on, whatever the flag was then, and however
/// toggling, receiving and losing windows are interleaved.
pub proof fn settled_movie_follows_the_pause_flag<P, K, T>(
    state: PlayerModel<P>,
    dimensions: ViewportDimensions,
    has_bytes: bool,
    waiting: nat,
    player: PlayerId,
    steps: Seq<PlaybackStep>,
)
    ensures
        ({
            let now = Playback::<P>::created::<K, T>(
                state,
                dimensions,
                has_bytes,
                waiting,
            ).after_all::<K, T>(player, steps);
            now.settled() ==> now.playing == !now.state.paused
        }),
{
    new_movie_follows_the_pause_flag::<P, K, T>(dimensions, has_bytes, state.paused, false);
    steps_keep_to_the_pause_flag::<P, K, T>(
        Playback::<P>::created::<K, T>(state, dimensions, has_bytes, waiting),
        player,
        steps,
    );
}

/// Before there is a player nothing is done for one, whatever is received; only the
/// end of a flush is still told.
pub proof fn nothing_is_done_without_a_player<P, K, T>(
    state: PlayerModel<P>,
    event: RuffleEvent<T, K>,
)
    ensures
        received_commands::<P, K, T>(None, state, event) == if event is FlushSharedObjects {
            seq![PlayerCommand::<P, K, T>::NotifySharedObjectsFlushed]
        } else {
            seq![]
        },
{
}

/// A request to flush is answered exactly once, whether or not there is a player, and
/// after the player has flushed if there is one. Nothing else is answered so.
pub proof fn every_flush_is_answered<P, K, T>(
    player: Option<PlayerId>,
    state: PlayerModel<P>,
    event: RuffleEvent<T, K>,
)
    ensures
        ({
            let commands = received_commands::<P, K, T>(player, state, event);
            &&& event is FlushSharedObjects ==> {
                &&& commands.len() > 0
                &&& commands.last() is NotifySharedObjectsFlushed
                &&& player is Some ==> commands.len() > 1 && commands.first() is FlushSharedObjects
            }
            &&& forall|i: int|
                0 <= i < commands.len() && #[trigger] commands[i] is NotifySharedObjectsFlushed
                    ==> event is FlushSharedObjects && i == commands.len() - 1
        }),
{
}

/// A task is polled only for the player that spawned it; one that another player
/// left behind is dropped.
pub proof fn stale_tasks_are_not_run<P, K, T>(
    player: Option<PlayerId>,
    state: PlayerModel<P>,
    event: RuffleEvent<T, K>,
    task: T,
)
    requires
        received_commands::<P, K, T>(player, state, event).contains(
            PlayerCommand::<P, K, T>::RunTask(task),
        ),
    ensures
        event matches RuffleEvent::TaskPoll(runnable) && player == Some(runnable.player)
            && runnable.task == task,
{
    let commands = received_commands::<P, K, T>(player, state, event);
    let i = choose|i: int|
        0 <= i < commands.len() && commands[i] == PlayerCommand::<P, K, T>::RunTask(task);
    assert(commands[i] is RunTask);
}

/// The virtual mouse is dropped exactly while the surface has never been touched,
/// which is what a host sees as a cursor without a position.
pub proof fn virtual_mouse_needs_a_cursor<P, K, T>(
    player: PlayerId,
    state: PlayerModel<P>,
    down: bool,
    button: MouseButton,
)
    ensures
        received_commands::<P, K, T>(
            Some(player),
            state,
            RuffleEvent::VirtualMouseEvent { down, button },
        ) == Seq::<PlayerCommand<P, K, T>>::empty() <==> state.cursor is None,
{
}

/// Whether an event is one of the virtual mouse, the virtual keyboard or the menu.
pub open spec fn disturbs_hover<T, K>(event: RuffleEvent<T, K>) -> bool {
    event is VirtualKeyEvent || event is VirtualMouseEvent || event is RunContextMenuCallback
        || event is ClearContextMenu || event is RequestContextMenu
}

/// Once the surface has been touched, whatever disturbs the hover state is followed
/// by the position of the cursor, and a key or a click is preceded by it as well.
pub proof fn hover_is_restored<P, K, T>(
    player: PlayerId,
    state: PlayerModel<P>,
    event: RuffleEvent<T, K>,
)
    requires
        state.cursor is Some,
        disturbs_hover(event),
    ensures
        ({
            let commands = received_commands::<P, K, T>(Some(player), state, event);
            let hover = PlayerCommand::<P, K, T>::Handle(
                PlayerEvent::MouseMove { position: state.cursor.unwrap().surface },
            );
            &&& commands.len() >= 2
            &&& commands.last() == hover
            &&& event is VirtualKeyEvent || event is VirtualMouseEvent ==> commands.first() == hover
        }),
{
}

/// A click of the virtual mouse is where the cursor is, and with the button that was
/// pressed.
pub proof fn virtual_click_is_at_the_cursor<P, K, T>(
    player: PlayerId,
    state: PlayerModel<P>,
    down: bool,
    button: MouseButton,
)
    requires
        state.cursor is Some,
    ensures
        ({
            let commands = received_commands::<P, K, T>(
                Some(player),
                state,
                RuffleEvent::VirtualMouseEvent { down, button },
            );
            let position = state.cursor.unwrap().surface;
            &&& commands.len() == 3
            &&& commands[1] == PlayerCommand::<P, K, T>::Handle(
                if down {
                    PlayerEvent::MouseDown { position, button }
                } else {
                    PlayerEvent::MouseUp { position, button }
                },
            )
        }),
{
}

/// A key types its character once, when it goes down and after the player has been
/// told so; a key that has no character types nothing.
pub proof fn keys_type_when_they_go_down<P, K, T>(down: bool, key: KeyDescriptor<K>)
    ensures
        ({
            let commands = key_commands::<P, K, T>(down, key);
            let stroke = PlayerCommand::<P, K, T>::Handle(
                if down {
                    PlayerEvent::KeyDown { key }
                } else {
                    PlayerEvent::KeyUp { key }
                },
            );
            match key.logical_key {
                LogicalKey::Character(codepoint) if down => commands == seq![
                    stroke,
                    PlayerCommand::<P, K, T>::Handle(PlayerEvent::TextInput { codepoint }),
                ],
                _ => commands == seq![stroke],
            }
        }),
{
}

/// One thing that happens to the event loop.
pub enum LoopStep {
    BeginTurn,
    Destroy,
    /// Something that may call for drawing: a new size, a key, an event.
    Redraw(bool),
    PlayerCreated(PlayerId, u128),
    BeginTick(u128),
    FinishTick(u128, Option<TickOutcome>),
}

impl EventLoop {
    /// The loop after a step.
    pub open spec fn after(self, step: LoopStep) -> EventLoop {
        match step {
            LoopStep::BeginTurn => self.turn_begun(),
            LoopStep::Destroy => self.destroyed(),
            LoopStep::Redraw(reason) => self.redraw_for(reason),
            LoopStep::PlayerCreated(player, now) => self.with_player(player, now),
            LoopStep::BeginTick(now) => self.tick_begun(now),
            LoopStep::FinishTick(now, outcome) => self.tick_finished(now, outcome),
        }
    }

    /// The loop after steps, in order.
    pub open spec fn after_all(self, steps: Seq<LoopStep>) -> EventLoop
        decreases steps.len(),
    {
        if steps.len() == 0 {
            self
        } else {
            self.after(steps[0]).after_all(steps.drop_first())
        }
    }
}

/// The loop keeps its player until another one is created.
pub proof fn player_is_kept(event_loop: EventLoop, steps: Seq<LoopStep>)
    requires
        forall|i: int| 0 <= i < steps.len() ==> !(#[trigger] steps[i] is PlayerCreated),
    ensures
        event_loop.after_all(steps).player == event_loop.player,
    decreases steps.len(),
{
    if steps.len() > 0 {
        assert(!(steps[0] is PlayerCreated));
        player_is_kept(event_loop.after(steps[0]), steps.drop_first());
    }
}

/// The loop ends exactly if the application has gone away.
pub proof fn loop_ends_when_destroyed(event_loop: EventLoop, steps: Seq<LoopStep>)
    ensures
        event_loop.after_all(steps).quit <==> event_loop.quit || exists|i: int|
            0 <= i < steps.len() && #[trigger] steps[i] is Destroy,
    decreases steps.len(),
{
    if steps.len() > 0 {
        let rest = steps.drop_first();
        loop_ends_when_destroyed(event_loop.after(steps[0]), rest);
        if exists|i: int| 0 <= i < rest.len() && #[trigger] rest[i] is Destroy {
            let i = choose|i: int| 0 <= i < rest.len() && #[trigger] rest[i] is Destroy;
            assert(steps[i + 1] is Destroy);
        }
        if exists|i: int| 0 < i < steps.len() && #[trigger] steps[i] is Destroy {
            let i = choose|i: int| 0 < i < steps.len() && #[trigger] steps[i] is Destroy;
            assert(rest[i - 1] is Destroy);
        }
    }
}

/// Nothing is drawn while there is no player.
pub proof fn nothing_is_drawn_without_a_player(event_loop: EventLoop, steps: Seq<LoopStep>)
    requires
        event_loop.player is None,
        forall|i: int| 0 <= i < steps.len() ==> !(#[trigger] steps[i] is PlayerCreated),
    ensures
        !event_loop.after_all(steps).renders(),
{
    player_is_kept(event_loop, steps);
}

/// In a turn in which the player is advanced, it alone says whether to draw. In one
/// in which no time passes, an event decides.
pub proof fn who_decides_on_drawing<T, K>(
    event_loop: EventLoop,
    event: RuffleEvent<T, K>,
    now: u128,
    outcome: TickOutcome,
)
    requires
        event_loop.player is Some,
    ensures
        ({
            let received = event_loop.turn_begun().redraw_for(gives_reason_to_draw(event));
            if received.clock.elapsed(now) > 0 {
                received.tick_begun(now).tick_finished(now, Some(outcome)).renders()
                    == outcome.needs_render
            } else {
                received.tick_begun(now).renders() == gives_reason_to_draw(event)
            }
        }),
{
}

/// Once the player has been advanced, the loop waits for exactly as long as the
/// player said that its next frame is away.
pub proof fn loop_waits_for_the_next_frame(event_loop: EventLoop, now: u128, outcome: TickOutcome)
    requires
        event_loop.player is Some,
        event_loop.clock.elapsed(now) > 0,
        now + outcome.until_next_frame <= u128::MAX,
    ensures
        event_loop.tick_begun(now).tick_finished(now, Some(outcome)).clock.timeout()
            == outcome.until_next_frame,
{
}

} // verus!
