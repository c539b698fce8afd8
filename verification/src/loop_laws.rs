//! What a turn of the event loop comes to: the time that the movie is given, and the
//! commands that each event leads to.
use vstd::prelude::*;

use crate::backend::{ViewportDimensions, WindowSize};
use crate::custom_event::{
    KeyDescriptor, LogicalKey, MouseButton, PlayerCommand, PlayerEvent, PlayerRunnable, RuffleEvent,
};
use crate::event_loop::{
    continue_commands, destroy_commands, gives_reason_to_draw, key_is_for_player, key_status,
    motion_commands, motion_status, received_commands, resize_commands, resume_commands,
    start_commands, suspend_commands, system_key_commands, EventLoop, KeyAction, Tick, TickOutcome,
};
use crate::frame::last_frame_after;
use crate::laws::LoopStep;
use crate::player_id::PlayerId;
use crate::state::{CursorPosition, PlayerModel};

verus! {

/// A look at the clock takes up all the time that has passed, whatever else happened in
/// the turn: the movie is advanced by it in whole microseconds and the next look counts
/// from here. Under a microsecond nothing happens, and without a player nothing is due.
pub proof fn tick_takes_up_the_time(event_loop: EventLoop, now: u128)
    ensures
        ({
            let last = event_loop.clock.last_frame;
            let after = event_loop.tick_begun(now);
            &&& event_loop.tick_at(now) is Skip <==> now < last + 1_000
            &&& match event_loop.tick_at(now) {
                Tick::Skip => after == event_loop,
                Tick::Idle => {
                    &&& event_loop.player is None
                    &&& after.clock.last_frame == now
                    &&& after.clock.next_frame is None
                },
                Tick::Advance(micros) => {
                    &&& event_loop.player is Some
                    &&& micros * 1_000 <= now - last < micros * 1_000 + 1_000
                    &&& after.clock.last_frame == now
                    &&& after.clock.next_frame == event_loop.clock.next_frame
                },
            }
            &&& after.player == event_loop.player
            &&& after.quit == event_loop.quit
            &&& after.needs_redraw == event_loop.needs_redraw
            &&& after.clock.last_frame == last_frame_after(last, now)
        }),
{
}

/// Once the movie has been advanced, its next frame is due when it says, counted from
/// the look at the clock, and it decides on drawing. A player out of reach changes
/// nothing.
pub proof fn tick_ends_with_the_players_word(
    event_loop: EventLoop,
    now: u128,
    outcome: TickOutcome,
)
    requires
        now + outcome.until_next_frame <= u128::MAX,
    ensures
        ({
            let after = event_loop.tick_finished(now, Some(outcome));
            &&& after.clock.next_frame matches Some(next) && next - now == outcome.until_next_frame
            &&& after.clock.last_frame == event_loop.clock.last_frame
            &&& after.needs_redraw == outcome.needs_render
            &&& after.player == event_loop.player
            &&& after.quit == event_loop.quit
            &&& event_loop.tick_finished(now, None) == event_loop
        }),
{
}

/// A turn starts with no reason to draw; going away only ends the loop; a reason to draw
/// counts only for a player and is not taken back by another event. None of these
/// touches the clock or the player.
pub proof fn events_leave_the_clock_alone(event_loop: EventLoop, reason: bool)
    ensures
        event_loop.turn_begun().clock == event_loop.clock,
        event_loop.turn_begun().player == event_loop.player,
        event_loop.turn_begun().quit == event_loop.quit,
        !event_loop.turn_begun().needs_redraw,
        event_loop.destroyed().clock == event_loop.clock,
        event_loop.destroyed().player == event_loop.player,
        event_loop.destroyed().quit,
        event_loop.destroyed().needs_redraw == event_loop.needs_redraw,
        event_loop.redraw_for(reason).clock == event_loop.clock,
        event_loop.redraw_for(reason).player == event_loop.player,
        event_loop.redraw_for(reason).quit == event_loop.quit,
        event_loop.player is None || !reason ==> event_loop.redraw_for(reason).needs_redraw
            == event_loop.needs_redraw,
        event_loop.player is Some && reason ==> event_loop.redraw_for(reason).needs_redraw,
{
}

/// A new player starts at the moment it was created, with a frame due at once.
pub proof fn new_player_starts_the_clock(event_loop: EventLoop, player: PlayerId, now: u128)
    ensures
        ({
            let after = event_loop.with_player(player, now);
            &&& after.player == Some(player)
            &&& after.clock.last_frame == now
            &&& after.clock.next_frame == Some(now)
            &&& after.quit == event_loop.quit
            &&& after.needs_redraw == event_loop.needs_redraw
        }),
{
}

/// A turn ends with drawing exactly if there is a player and a reason.
pub proof fn drawing_needs_a_player_and_a_reason(event_loop: EventLoop)
    ensures
        event_loop.player is None ==> !event_loop.renders(),
        event_loop.player is Some ==> event_loop.renders() == event_loop.needs_redraw,
{
}

/// The microseconds by which a step advances the movie.
pub open spec fn advanced_by(event_loop: EventLoop, step: LoopStep) -> int {
    match step {
        LoopStep::BeginTick(now) => match event_loop.tick_at(now) {
            Tick::Advance(micros) => micros as int,
            _ => 0,
        },
        _ => 0,
    }
}

/// The microseconds by which steps advance the movie in all.
pub open spec fn advanced_in(event_loop: EventLoop, steps: Seq<LoopStep>) -> int
    decreases steps.len(),
{
    if steps.len() == 0 {
        0
    } else {
        advanced_by(event_loop, steps[0]) + advanced_in(
            event_loop.after(steps[0]),
            steps.drop_first(),
        )
    }
}

/// Whether a step is one of the life of a single player, and none that looks at the
/// clock after `end`.
pub open spec fn within(step: LoopStep, end: u128) -> bool {
    match step {
        LoopStep::PlayerCreated(_, _) => false,
        LoopStep::BeginTick(now) => now <= end,
        _ => true,
    }
}

/// Steps do not advance the movie by more than the time since the last frame.
proof fn steps_do_not_run_ahead(event_loop: EventLoop, steps: Seq<LoopStep>, end: u128)
    requires
        event_loop.clock.last_frame <= end,
        forall|i: int| 0 <= i < steps.len() ==> within(#[trigger] steps[i], end),
    ensures
        0 <= advanced_in(event_loop, steps) * 1_000 <= end - event_loop.clock.last_frame,
    decreases steps.len(),
{
    if steps.len() > 0 {
        assert(within(steps[0], end));
        steps_do_not_run_ahead(event_loop.after(steps[0]), steps.drop_first(), end);
    }
}

/// The movie never gets ahead of real time: however turns, events and ticks follow each
/// other, it has been advanced by no more than the time since its player was created.
pub proof fn movie_never_runs_ahead(
    event_loop: EventLoop,
    player: PlayerId,
    created: u128,
    steps: Seq<LoopStep>,
    end: u128,
)
    requires
        created <= end,
        forall|i: int| 0 <= i < steps.len() ==> within(#[trigger] steps[i], end),
    ensures
        0 <= advanced_in(event_loop.with_player(player, created), steps) * 1_000 <= end - created,
{
    steps_do_not_run_ahead(event_loop.with_player(player, created), steps, end);
}

/// Steps that end with a look at the clock leave the movie behind by less than a
/// microsecond for each.
proof fn steps_do_not_fall_behind(event_loop: EventLoop, steps: Seq<LoopStep>, end: u128)
    requires
        event_loop.player is Some,
        event_loop.clock.last_frame <= end,
        steps.len() > 0,
        steps.last() == LoopStep::BeginTick(end),
        forall|i: int| 0 <= i < steps.len() ==> within(#[trigger] steps[i], end),
    ensures
        end - event_loop.clock.last_frame < advanced_in(event_loop, steps) * 1_000 + steps.len()
            * 1_000,
    decreases steps.len(),
{
    let next = event_loop.after(steps[0]);
    let rest = steps.drop_first();
    assert(within(steps[0], end));
    assert(advanced_in(event_loop, steps) == advanced_by(event_loop, steps[0]) + advanced_in(
        next,
        rest,
    ));
    if steps.len() > 1 {
        assert(rest.last() == steps.last());
        steps_do_not_fall_behind(next, rest, end);
    } else {
        assert(steps[0] == steps.last());
        assert(advanced_in(next, rest) == 0);
    }
}

/// The movie does not fall behind real time either: at each look at the clock it has been
/// advanced by the time since its player was created, less under a microsecond for each
/// step.
pub proof fn movie_does_not_fall_behind(
    event_loop: EventLoop,
    player: PlayerId,
    created: u128,
    steps: Seq<LoopStep>,
    end: u128,
)
    requires
        created <= end,
        steps.len() > 0,
        steps.last() == LoopStep::BeginTick(end),
        forall|i: int| 0 <= i < steps.len() ==> within(#[trigger] steps[i], end),
    ensures
        end - created < advanced_in(event_loop.with_player(player, created), steps) * 1_000
            + steps.len() * 1_000,
{
    steps_do_not_fall_behind(event_loop.with_player(player, created), steps, end);
}

/// Every virtual key reaches the player, whether or not it types anything and whether or
/// not the cursor is known: it goes down or up, types its character if it has one and
/// goes down, and the cursor, where it is known, comes before and after.
pub proof fn every_virtual_key_reaches_the_player<P, K, T>(
    player: PlayerId,
    state: PlayerModel<P>,
    down: bool,
    key: KeyDescriptor<K>,
    position: CursorPosition<P>,
)
    ensures
        ({
            let commands = received_commands::<P, K, T>(
                Some(player),
                state,
                RuffleEvent::VirtualKeyEvent { down, key_descriptor: key },
            );
            let hover = PlayerCommand::<P, K, T>::Handle(
                PlayerEvent::MouseMove { position: position.surface },
            );
            let stroke = PlayerCommand::<P, K, T>::Handle(
                if down {
                    PlayerEvent::KeyDown { key }
                } else {
                    PlayerEvent::KeyUp { key }
                },
            );
            let strokes = match key.logical_key {
                LogicalKey::Character(codepoint) if down => seq![
                    stroke,
                    PlayerCommand::<P, K, T>::Handle(PlayerEvent::TextInput { codepoint }),
                ],
                _ => seq![stroke],
            };
            &&& state.cursor is None ==> commands == strokes
            &&& state.cursor == Some(position) ==> commands == seq![hover] + strokes + seq![hover]
        }),
{
}

/// A key of the system's keyboard that goes down or up does what the same virtual key
/// does while the cursor is not known. What the key tables do not know, and what is
/// neither, is left to the system, and without a player every key is used up.
pub proof fn system_keys_act_as_virtual_keys<P, K, T>(
    player: PlayerId,
    state: PlayerModel<P>,
    down: bool,
    key: KeyDescriptor<K>,
    action: KeyAction,
    known: Option<KeyDescriptor<K>>,
)
    requires
        state.cursor is None,
    ensures
        ({
            let stroke = if down {
                KeyAction::Down
            } else {
                KeyAction::Up
            };
            &&& key_status(Some(player), stroke, Some(key)) is Handled
            &&& key_is_for_player(Some(player), stroke, Some(key))
            &&& system_key_commands::<P, K, T>(Some(player), stroke, Some(key))
                == received_commands::<P, K, T>(
                Some(player),
                state,
                RuffleEvent::VirtualKeyEvent { down, key_descriptor: key },
            )
        }),
        known is None || action is Other ==> {
            &&& key_status(Some(player), action, known) is Unhandled
            &&& !key_is_for_player(Some(player), action, known)
            &&& system_key_commands::<P, K, T>(Some(player), action, known).len() == 0
        },
        key_status(None, action, known) is Handled,
        !key_is_for_player(None, action, known),
        system_key_commands::<P, K, T>(None, action, known).len() == 0,
{
    assert(system_key_commands::<P, K, T>(
        Some(player),
        if down {
            KeyAction::Down
        } else {
            KeyAction::Up
        },
        Some(key),
    ) =~= received_commands::<P, K, T>(
        Some(player),
        state,
        RuffleEvent::VirtualKeyEvent { down, key_descriptor: key },
    ));
}

/// A motion that is an event is used up and handed to the player, if there is one,
/// unchanged and once; any other is left to the system.
pub proof fn motions_are_handed_on<P, K, T>(player: PlayerId, event: PlayerEvent<P, K>)
    ensures
        motion_status(Some(event)) is Handled,
        motion_status(None::<PlayerEvent<P, K>>) is Unhandled,
        motion_commands::<P, K, T>(Some(player), Some(event)) == seq![
            PlayerCommand::<P, K, T>::Handle(event),
        ],
        motion_commands::<P, K, T>(None, Some(event)).len() == 0,
        motion_commands::<P, K, T>(Some(player), None).len() == 0,
        motion_commands::<P, K, T>(None, None).len() == 0,
{
}

/// A virtual click reaches the player exactly if the cursor is known: once, there, with
/// the button and in the direction that were sent, between two hovers.
pub proof fn every_virtual_click_reaches_the_player<P, K, T>(
    player: PlayerId,
    state: PlayerModel<P>,
    down: bool,
    button: MouseButton,
    position: CursorPosition<P>,
)
    ensures
        ({
            let commands = received_commands::<P, K, T>(
                Some(player),
                state,
                RuffleEvent::VirtualMouseEvent { down, button },
            );
            let place = position.surface;
            let hover = PlayerCommand::<P, K, T>::Handle(PlayerEvent::MouseMove { position: place });
            let click = PlayerCommand::<P, K, T>::Handle(
                if down {
                    PlayerEvent::MouseDown { position: place, button }
                } else {
                    PlayerEvent::MouseUp { position: place, button }
                },
            );
            &&& state.cursor is None ==> commands.len() == 0
            &&& state.cursor == Some(position) ==> commands == seq![hover, click, hover]
        }),
{
}

/// Each menu event reaches the player as the one thing that it asks for, and a known
/// cursor is restored after it.
pub proof fn every_menu_event_reaches_the_player<P, K, T>(
    player: PlayerId,
    state: PlayerModel<P>,
    item: usize,
    position: CursorPosition<P>,
)
    ensures
        ({
            let chosen = received_commands::<P, K, T>(
                Some(player),
                state,
                RuffleEvent::RunContextMenuCallback(item),
            );
            let cleared = received_commands::<P, K, T>(
                Some(player),
                state,
                RuffleEvent::ClearContextMenu,
            );
            let requested = received_commands::<P, K, T>(
                Some(player),
                state,
                RuffleEvent::RequestContextMenu,
            );
            let choice = PlayerCommand::<P, K, T>::RunContextMenuCallback(item);
            let clearing = PlayerCommand::<P, K, T>::ClearCustomMenuItems;
            let showing = PlayerCommand::<P, K, T>::ShowContextMenu;
            let hover = PlayerCommand::<P, K, T>::Handle(
                PlayerEvent::MouseMove { position: position.surface },
            );
            &&& state.cursor is None ==> {
                &&& chosen == seq![choice]
                &&& cleared == seq![clearing]
                &&& requested == seq![showing]
            }
            &&& state.cursor == Some(position) ==> {
                &&& chosen == seq![choice, hover]
                &&& cleared == seq![clearing, hover]
                &&& requested == seq![showing, hover]
            }
        }),
{
}

/// A task is run exactly if its player is the current one, and then alone.
pub proof fn current_tasks_are_run<P, K, T>(
    player: Option<PlayerId>,
    state: PlayerModel<P>,
    runnable: PlayerRunnable<T>,
)
    ensures
        ({
            let commands = received_commands::<P, K, T>(
                player,
                state,
                RuffleEvent::TaskPoll(runnable),
            );
            &&& player == Some(runnable.player) ==> commands == seq![
                PlayerCommand::<P, K, T>::RunTask(runnable.task),
            ]
            &&& player != Some(runnable.player) ==> commands.len() == 0
        }),
{
}

/// A flush is done if there is a player and answered in any case; a pause event sets the
/// movie to the flag. Neither leads to anything else.
pub proof fn flush_and_pause_do_one_thing<P, K, T>(player: PlayerId, state: PlayerModel<P>)
    ensures
        received_commands::<P, K, T>(Some(player), state, RuffleEvent::FlushSharedObjects) == seq![
            PlayerCommand::<P, K, T>::FlushSharedObjects,
            PlayerCommand::NotifySharedObjectsFlushed,
        ],
        received_commands::<P, K, T>(None, state, RuffleEvent::FlushSharedObjects) == seq![
            PlayerCommand::<P, K, T>::NotifySharedObjectsFlushed,
        ],
        received_commands::<P, K, T>(Some(player), state, RuffleEvent::TogglePause) == seq![
            PlayerCommand::<P, K, T>::SetPlaying(!state.paused),
        ],
{
}

/// What a received event leads to rests on the cursor and the pause flag alone: no
/// setting, finger or renderer matters.
pub proof fn only_cursor_and_pause_matter<P, K, T>(
    player: Option<PlayerId>,
    state: PlayerModel<P>,
    other: PlayerModel<P>,
    event: RuffleEvent<T, K>,
)
    requires
        state.cursor == other.cursor,
        state.paused == other.paused,
    ensures
        received_commands::<P, K, T>(player, state, event) == received_commands::<P, K, T>(
            player,
            other,
            event,
        ),
{
}

/// Input, menus and pausing give reason to draw; tasks and flushes do not.
pub proof fn input_gives_reason_to_draw<T, K>(event: RuffleEvent<T, K>)
    ensures
        match event {
            RuffleEvent::TaskPoll(_) => !gives_reason_to_draw(event),
            RuffleEvent::FlushSharedObjects => !gives_reason_to_draw(event),
            RuffleEvent::VirtualKeyEvent { .. } => gives_reason_to_draw(event),
            RuffleEvent::VirtualMouseEvent { .. } => gives_reason_to_draw(event),
            RuffleEvent::RunContextMenuCallback(_) => gives_reason_to_draw(event),
            RuffleEvent::ClearContextMenu => gives_reason_to_draw(event),
            RuffleEvent::RequestContextMenu => gives_reason_to_draw(event),
            RuffleEvent::TogglePause => gives_reason_to_draw(event),
        },
{
}

/// However its movie is loaded and whether or not it is paused, a new player gets the
/// movie from where the host has it and from nowhere else, the viewport of its window
/// and no other, the letterbox, and exactly one word on whether to play, in this order.
pub proof fn new_player_is_set_up<P, K, T>(
    dimensions: ViewportDimensions,
    other: ViewportDimensions,
    has_bytes: bool,
    paused: bool,
    playing: bool,
)
    ensures
        ({
            let commands = start_commands::<P, K, T>(dimensions, has_bytes, paused);
            &&& commands.len() == 4
            &&& commands[0] is SetRootMovie || commands[0] is FetchRootMovie
            &&& commands[1] == PlayerCommand::<P, K, T>::SetPlaying(!paused)
            &&& commands[2] is EnableLetterbox
            &&& commands[3] == PlayerCommand::<P, K, T>::SetViewport(dimensions)
            &&& commands.contains(PlayerCommand::SetRootMovie) <==> has_bytes
            &&& commands.contains(PlayerCommand::FetchRootMovie) <==> !has_bytes
            &&& commands.contains(PlayerCommand::SetPlaying(playing)) <==> playing == !paused
            &&& commands.contains(PlayerCommand::EnableLetterbox)
            &&& commands.contains(PlayerCommand::SetViewport(other)) <==> other == dimensions
        }),
{
    let commands = start_commands::<P, K, T>(dimensions, has_bytes, paused);
    assert(commands.contains(commands[0]));
    assert(commands.contains(commands[1]));
    assert(commands.contains(commands[2]));
    assert(commands.contains(commands[3]));
}

/// How the movie is loaded and whether it is paused have no bearing on each other or on
/// the rest of the set-up.
pub proof fn set_up_does_not_depend_on_the_movie<P, K, T>(
    dimensions: ViewportDimensions,
    has_bytes: bool,
    paused: bool,
)
    ensures
        start_commands::<P, K, T>(dimensions, has_bytes, paused).drop_first() == start_commands::<
            P,
            K,
            T,
        >(dimensions, !has_bytes, paused).drop_first(),
        start_commands::<P, K, T>(dimensions, has_bytes, paused)[0] == start_commands::<P, K, T>(
            dimensions,
            has_bytes,
            !paused,
        )[0],
{
    assert(start_commands::<P, K, T>(dimensions, has_bytes, paused).drop_first()
        =~= start_commands::<P, K, T>(dimensions, !has_bytes, paused).drop_first());
}

/// What befalls the window concerns a player alone. A new size sets the viewport to it;
/// coming to the foreground recreates the surface exactly if the window is there and has
/// an extent, with just that extent; going away saves what the movie has stored.
pub proof fn player_follows_its_window<P, K, T>(
    player: PlayerId,
    size: WindowSize,
    density: Option<u32>,
)
    ensures
        ({
            let resized = resize_commands::<P, K, T>(Some(player), size, density);
            let resumed = resume_commands::<P, K, T>(Some(player), Some(size));
            &&& resized.len() == 1
            &&& resized[0] matches PlayerCommand::SetViewport(dimensions) && {
                &&& size.width >= 0 ==> dimensions.width == size.width
                &&& size.width < 0 ==> dimensions.width == 0x1_0000_0000 + size.width
                &&& size.height >= 0 ==> dimensions.height == size.height
                &&& size.height < 0 ==> dimensions.height == 0x1_0000_0000 + size.height
                &&& density matches Some(dpi) ==> dimensions.density == dpi
                &&& density is None ==> dimensions.density == 160
            }
            &&& size.width > 0 && size.height > 0 ==> {
                &&& resumed.len() == 1
                &&& resumed[0] matches PlayerCommand::RecreateSurface { width, height } && width
                    == size.width && height == size.height
            }
            &&& size.width <= 0 || size.height <= 0 ==> resumed.len() == 0
        }),
        destroy_commands::<P, K, T>(Some(player)) == seq![
            PlayerCommand::<P, K, T>::FlushSharedObjects,
        ],
        resume_commands::<P, K, T>(Some(player), None).len() == 0,
        resume_commands::<P, K, T>(None, Some(size)).len() == 0,
        resume_commands::<P, K, T>(None, None).len() == 0,
        resize_commands::<P, K, T>(None, size, density).len() == 0,
        destroy_commands::<P, K, T>(None).len() == 0,
{
}

/// A player that gets a new window gets a surface of just that size and then plays
/// exactly if it is not paused; one that loses its window only stops.
pub proof fn windows_come_and_go<P, K, T>(window: WindowSize, paused: bool)
    ensures
        ({
            let commands = continue_commands::<P, K, T>(window, paused);
            &&& commands.len() == 2
            &&& commands[0] matches PlayerCommand::RecreateSurface { width, height } && {
                &&& window.width >= 0 ==> width == window.width
                &&& window.width < 0 ==> width == 0x1_0000_0000 + window.width
                &&& window.height >= 0 ==> height == window.height
                &&& window.height < 0 ==> height == 0x1_0000_0000 + window.height
            }
            &&& commands[1] == PlayerCommand::<P, K, T>::SetPlaying(!paused)
        }),
        suspend_commands::<P, K, T>() == seq![PlayerCommand::<P, K, T>::SetPlaying(false)],
{
}

} // verus!
