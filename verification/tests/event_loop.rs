use ruffle_android::backend::{RenderBackend, ViewportDimensions, WindowSize};
use ruffle_android::custom_event::{
    KeyDescriptor, LogicalKey, MouseButton, PlayerCommand, PlayerEvent, PlayerRunnable, RuffleEvent,
};
use ruffle_android::event_loop::{
    EventLoop, InitWindow, InputStatus, KeyAction, Tick, TickOutcome,
};
use ruffle_android::frame::FrameClock;
use ruffle_android::player_id::PlayerId;
use ruffle_android::state::{CursorPosition, PlayerState};

type Place = (f64, f64);
type State = PlayerState<Place>;
type Command = PlayerCommand<Place, u32, &'static str>;
type Event = RuffleEvent<&'static str, u32>;

const PLAYER: PlayerId = PlayerId(5);
const DIMENSIONS: ViewportDimensions = ViewportDimensions { width: 640, height: 480, density: 160 };

fn playing() -> EventLoop {
    let mut event_loop = EventLoop::new(0);
    let _: Vec<Command> = event_loop.on_player_created(PLAYER, DIMENSIONS, true, false, 0);
    event_loop
}

fn touched() -> State {
    let mut state = State::new();
    state.set_last_mouse_position(CursorPosition { surface: (4.0, 6.0), view: (2.0, 3.0) });
    state
}

fn hover() -> Command {
    PlayerCommand::Handle(PlayerEvent::MouseMove { position: (4.0, 6.0) })
}

fn letter() -> KeyDescriptor<u32> {
    KeyDescriptor { key: 29, logical_key: LogicalKey::Character('a') }
}

fn arrow() -> KeyDescriptor<u32> {
    KeyDescriptor { key: 19, logical_key: LogicalKey::Other }
}

#[test]
fn new_loop_has_no_player() {
    let mut event_loop = EventLoop::new(9);
    assert_eq!(event_loop.player, None);
    assert!(!event_loop.quit);
    assert_eq!(event_loop.begin_turn(), 0);
    assert!(!event_loop.should_render());
}

#[test]
fn destroying_saves_and_quits() {
    let mut event_loop = playing();
    let commands: Vec<Command> = event_loop.on_destroy();
    assert_eq!(commands, vec![PlayerCommand::FlushSharedObjects]);
    assert!(event_loop.quit);
}

#[test]
fn destroying_without_a_player_quits() {
    let mut event_loop = EventLoop::new(0);
    let commands: Vec<Command> = event_loop.on_destroy();
    assert_eq!(commands, vec![]);
    assert!(event_loop.quit);
}

#[test]
fn resizing_sets_the_viewport() {
    let mut event_loop = playing();
    let window = WindowSize { width: 800, height: 600 };
    let commands: Vec<Command> = event_loop.on_window_resized(Some(window), Some(240));
    assert_eq!(
        commands,
        vec![PlayerCommand::SetViewport(ViewportDimensions {
            width: 800,
            height: 600,
            density: 240
        })]
    );
    assert!(event_loop.should_render());
}

#[test]
fn resizing_without_a_player_does_nothing() {
    let mut event_loop = EventLoop::new(0);
    let commands: Vec<Command> = event_loop.on_window_resized(None, None);
    assert_eq!(commands, vec![]);
    assert!(!event_loop.needs_redraw);
}

#[test]
fn resuming_recreates_the_surface() {
    let event_loop = playing();
    let window = WindowSize { width: 800, height: 600 };
    let commands: Vec<Command> = event_loop.on_resume(Some(window));
    assert_eq!(commands, vec![PlayerCommand::RecreateSurface { width: 800, height: 600 }]);
}

#[test]
fn resuming_into_a_window_without_extent_does_nothing() {
    let event_loop = playing();
    for (width, height) in [(0, 600), (800, 0), (-1, 600), (800, -1), (0, 0)] {
        let commands: Vec<Command> = event_loop.on_resume(Some(WindowSize { width, height }));
        assert_eq!(commands, vec![]);
    }
    let commands: Vec<Command> = event_loop.on_resume(None);
    assert_eq!(commands, vec![]);
    let commands: Vec<Command> =
        EventLoop::new(0).on_resume(Some(WindowSize { width: 8, height: 6 }));
    assert_eq!(commands, vec![]);
}

#[test]
fn first_window_creates_a_player() {
    let mut state = State::new();
    state.set_backend_mode(1);
    let event_loop = EventLoop::new(0);
    let init: InitWindow<Place, u32, &str> =
        event_loop.on_init_window(&mut state, WindowSize { width: 640, height: 480 }, None);
    assert_eq!(
        init,
        InitWindow::Create { backend: RenderBackend::OpenGl, dimensions: DIMENSIONS }
    );
    assert!(state.backend.locked_in);
}

#[test]
fn created_player_plays_the_supplied_movie() {
    let mut event_loop = EventLoop::new(0);
    let commands: Vec<Command> = event_loop.on_player_created(PLAYER, DIMENSIONS, true, false, 70);
    assert_eq!(
        commands,
        vec![
            PlayerCommand::SetRootMovie,
            PlayerCommand::SetPlaying(true),
            PlayerCommand::EnableLetterbox,
            PlayerCommand::SetViewport(DIMENSIONS),
        ]
    );
    assert_eq!(event_loop.player, Some(PLAYER));
    assert_eq!(event_loop.clock, FrameClock { last_frame: 70, next_frame: Some(70) });
}

#[test]
fn created_player_fetches_a_movie_that_is_not_supplied() {
    let mut event_loop = EventLoop::new(0);
    let commands: Vec<Command> = event_loop.on_player_created(PLAYER, DIMENSIONS, false, false, 70);
    assert_eq!(commands[0], PlayerCommand::FetchRootMovie);
    assert_eq!(commands.len(), 4);
}

#[test]
fn player_created_while_paused_does_not_play() {
    let mut state = State::new();
    let mut event_loop = EventLoop::new(0);
    // The event of the toggle is received before there is a player.
    state.toggle_pause();
    let event: Event = RuffleEvent::TogglePause;
    assert_eq!(event_loop.on_event(&state, event), vec![]);
    let window = WindowSize { width: 640, height: 480 };
    let init: InitWindow<Place, u32, &str> = event_loop.on_init_window(&mut state, window, None);
    assert_eq!(
        init,
        InitWindow::Create { backend: RenderBackend::Vulkan, dimensions: DIMENSIONS }
    );
    assert_eq!(state.is_paused(), 1);
    let commands: Vec<Command> =
        event_loop.on_player_created(PLAYER, DIMENSIONS, true, state.paused, 70);
    assert_eq!(
        commands,
        vec![
            PlayerCommand::SetRootMovie,
            PlayerCommand::SetPlaying(false),
            PlayerCommand::EnableLetterbox,
            PlayerCommand::SetViewport(DIMENSIONS),
        ]
    );
    // The next toggle resumes it.
    state.toggle_pause();
    let event: Event = RuffleEvent::TogglePause;
    assert_eq!(event_loop.on_event(&state, event), vec![PlayerCommand::SetPlaying(true)]);
}

#[test]
fn paused_movie_stays_paused_across_windows() {
    let event_loop = playing();
    let mut state = State::new();
    let window = WindowSize { width: 8, height: 6 };
    let suspended: Vec<Command> = event_loop.on_terminate_window();
    assert_eq!(suspended, vec![PlayerCommand::SetPlaying(false)]);
    let init: InitWindow<Place, u32, &str> = event_loop.on_init_window(&mut state, window, None);
    assert_eq!(
        init,
        InitWindow::Continue(vec![
            PlayerCommand::RecreateSurface { width: 8, height: 6 },
            PlayerCommand::SetPlaying(true),
        ])
    );
    state.toggle_pause();
    let init: InitWindow<Place, u32, &str> = event_loop.on_init_window(&mut state, window, None);
    assert_eq!(
        init,
        InitWindow::Continue(vec![
            PlayerCommand::RecreateSurface { width: 8, height: 6 },
            PlayerCommand::SetPlaying(false),
        ])
    );
    assert!(!state.backend.locked_in);
}

#[test]
fn motions_reach_the_player() {
    let moved: PlayerEvent<Place, u32> = PlayerEvent::MouseMove { position: (1.0, 2.0) };
    let (status, commands): (InputStatus, Vec<Command>) = playing().on_motion(Some(moved));
    assert_eq!(status, InputStatus::Handled);
    assert_eq!(
        commands,
        vec![PlayerCommand::Handle(PlayerEvent::MouseMove { position: (1.0, 2.0) })]
    );
}

#[test]
fn motions_without_a_player_are_used_up() {
    let moved: PlayerEvent<Place, u32> = PlayerEvent::MouseMove { position: (1.0, 2.0) };
    let (status, commands): (InputStatus, Vec<Command>) = EventLoop::new(0).on_motion(Some(moved));
    assert_eq!(status, InputStatus::Handled);
    assert_eq!(commands, vec![]);
}

#[test]
fn motions_that_are_no_event_are_left_to_the_system() {
    let (status, commands): (InputStatus, Vec<Command>) = playing().on_motion(None);
    assert_eq!(status, InputStatus::Unhandled);
    assert_eq!(commands, vec![]);
}

#[test]
fn letters_are_typed_when_they_go_down() {
    let mut event_loop = playing();
    let (status, commands): (InputStatus, Vec<Command>) =
        event_loop.on_key(KeyAction::Down, Some(letter()));
    assert_eq!(status, InputStatus::Handled);
    assert_eq!(
        commands,
        vec![
            PlayerCommand::Handle(PlayerEvent::KeyDown { key: letter() }),
            PlayerCommand::Handle(PlayerEvent::TextInput { codepoint: 'a' }),
        ]
    );
    assert!(event_loop.needs_redraw);
}

#[test]
fn letters_are_not_typed_when_they_go_up() {
    let mut event_loop = playing();
    let (status, commands): (InputStatus, Vec<Command>) =
        event_loop.on_key(KeyAction::Up, Some(letter()));
    assert_eq!(status, InputStatus::Handled);
    assert_eq!(commands, vec![PlayerCommand::Handle(PlayerEvent::KeyUp { key: letter() })]);
    assert!(event_loop.needs_redraw);
}

#[test]
fn arrows_type_nothing() {
    let mut event_loop = playing();
    let (_, commands): (InputStatus, Vec<Command>) =
        event_loop.on_key(KeyAction::Down, Some(arrow()));
    assert_eq!(commands, vec![PlayerCommand::Handle(PlayerEvent::KeyDown { key: arrow() })]);
}

#[test]
fn unknown_keys_are_left_to_the_system() {
    let mut event_loop = playing();
    let (status, commands): (InputStatus, Vec<Command>) = event_loop.on_key(KeyAction::Down, None);
    assert_eq!(status, InputStatus::Unhandled);
    assert_eq!(commands, vec![]);
    let (status, commands): (InputStatus, Vec<Command>) =
        event_loop.on_key(KeyAction::Other, Some(letter()));
    assert_eq!(status, InputStatus::Unhandled);
    assert_eq!(commands, vec![]);
    assert!(!event_loop.needs_redraw);
}

#[test]
fn keys_without_a_player_are_used_up() {
    let mut event_loop = EventLoop::new(0);
    let (status, commands): (InputStatus, Vec<Command>) = event_loop.on_key(KeyAction::Down, None);
    assert_eq!(status, InputStatus::Handled);
    assert_eq!(commands, vec![]);
    assert!(!event_loop.needs_redraw);
}

#[test]
fn tasks_of_the_player_are_run() {
    let mut event_loop = playing();
    let event: Event = RuffleEvent::TaskPoll(PlayerRunnable { player: PLAYER, task: "fetch" });
    let commands = event_loop.on_event(&State::new(), event);
    assert_eq!(commands, vec![PlayerCommand::RunTask("fetch")]);
    assert!(!event_loop.needs_redraw);
}

#[test]
fn stale_tasks_are_dropped() {
    let stale = || RuffleEvent::TaskPoll(PlayerRunnable { player: PlayerId(4), task: "fetch" });
    let event: Event = stale();
    assert_eq!(playing().on_event(&State::new(), event), vec![]);
    let event: Event = stale();
    assert_eq!(EventLoop::new(0).on_event(&State::new(), event), vec![]);
}

#[test]
fn virtual_key_is_wrapped_in_hovers() {
    let mut event_loop = playing();
    let event: Event = RuffleEvent::VirtualKeyEvent { down: true, key_descriptor: letter() };
    assert_eq!(
        event_loop.on_event(&touched(), event),
        vec![
            hover(),
            PlayerCommand::Handle(PlayerEvent::KeyDown { key: letter() }),
            PlayerCommand::Handle(PlayerEvent::TextInput { codepoint: 'a' }),
            hover(),
        ]
    );
    assert!(event_loop.needs_redraw);
    let event: Event = RuffleEvent::VirtualKeyEvent { down: false, key_descriptor: letter() };
    assert_eq!(
        event_loop.on_event(&touched(), event),
        vec![
            hover(),
            PlayerCommand::Handle(PlayerEvent::KeyUp { key: letter() }),
            hover(),
        ]
    );
}

#[test]
fn virtual_key_works_before_the_first_touch() {
    let event: Event = RuffleEvent::VirtualKeyEvent { down: false, key_descriptor: arrow() };
    assert_eq!(
        playing().on_event(&State::new(), event),
        vec![PlayerCommand::Handle(PlayerEvent::KeyUp { key: arrow() })]
    );
}

#[test]
fn virtual_click_is_where_the_cursor_is() {
    let mut event_loop = playing();
    let event: Event = RuffleEvent::VirtualMouseEvent { down: true, button: MouseButton::Right };
    assert_eq!(
        event_loop.on_event(&touched(), event),
        vec![
            hover(),
            PlayerCommand::Handle(PlayerEvent::MouseDown {
                position: (4.0, 6.0),
                button: MouseButton::Right
            }),
            hover(),
        ]
    );
    let event: Event = RuffleEvent::VirtualMouseEvent { down: false, button: MouseButton::Middle };
    assert_eq!(
        event_loop.on_event(&touched(), event)[1],
        PlayerCommand::Handle(PlayerEvent::MouseUp {
            position: (4.0, 6.0),
            button: MouseButton::Middle
        })
    );
}

#[test]
fn virtual_click_is_dropped_before_the_first_touch() {
    let mut event_loop = playing();
    let state = State::new();
    assert_eq!(state.cursor_position(), None);
    let event: Event = RuffleEvent::VirtualMouseEvent { down: true, button: MouseButton::Left };
    assert_eq!(event_loop.on_event(&state, event), vec![]);
    assert!(event_loop.needs_redraw);
}

#[test]
fn menu_events_restore_the_hover() {
    let mut event_loop = playing();
    let events: Vec<(Event, Command)> = vec![
        (RuffleEvent::RunContextMenuCallback(2), PlayerCommand::RunContextMenuCallback(2)),
        (RuffleEvent::ClearContextMenu, PlayerCommand::ClearCustomMenuItems),
        (RuffleEvent::RequestContextMenu, PlayerCommand::ShowContextMenu),
    ];
    for (event, command) in events {
        event_loop.begin_turn();
        assert_eq!(event_loop.on_event(&touched(), event), vec![command, hover()]);
        assert!(event_loop.needs_redraw);
    }
}

#[test]
fn waiting_pause_events_do_not_undo_each_other() {
    let mut event_loop = playing();
    let mut state = State::new();
    state.toggle_pause();
    state.toggle_pause();
    state.toggle_pause();
    for _ in 0..3 {
        let event: Event = RuffleEvent::TogglePause;
        assert_eq!(
            event_loop.on_event(&state, event),
            vec![PlayerCommand::SetPlaying(false)]
        );
    }
    assert!(event_loop.needs_redraw);
}

#[test]
fn flush_is_answered_after_it_is_done() {
    let mut event_loop = playing();
    let event: Event = RuffleEvent::FlushSharedObjects;
    assert_eq!(
        event_loop.on_event(&State::new(), event),
        vec![PlayerCommand::FlushSharedObjects, PlayerCommand::NotifySharedObjectsFlushed]
    );
    assert!(!event_loop.needs_redraw);
}

#[test]
fn flush_is_answered_without_a_player() {
    let event: Event = RuffleEvent::FlushSharedObjects;
    assert_eq!(
        EventLoop::new(0).on_event(&State::new(), event),
        vec![PlayerCommand::NotifySharedObjectsFlushed]
    );
}

#[test]
fn other_events_without_a_player_are_dropped() {
    let events: Vec<Event> = vec![
        RuffleEvent::VirtualKeyEvent { down: true, key_descriptor: letter() },
        RuffleEvent::VirtualMouseEvent { down: true, button: MouseButton::Left },
        RuffleEvent::RunContextMenuCallback(0),
        RuffleEvent::ClearContextMenu,
        RuffleEvent::RequestContextMenu,
        RuffleEvent::TogglePause,
    ];
    let mut event_loop = EventLoop::new(0);
    for event in events {
        assert_eq!(event_loop.on_event(&touched(), event), vec![]);
        assert!(!event_loop.needs_redraw);
    }
}

#[test]
fn no_time_is_no_tick() {
    let mut event_loop = playing();
    let before = event_loop;
    assert_eq!(event_loop.begin_tick(999), Tick::Skip);
    assert_eq!(event_loop, before);
}

#[test]
fn player_is_advanced_by_the_time_that_passed() {
    let mut event_loop = playing();
    assert_eq!(event_loop.begin_tick(16_666_700), Tick::Advance(16_666));
    assert_eq!(event_loop.clock.last_frame, 16_666_700);
    let outcome =
        TickOutcome { until_next_frame: 5_000, needs_render: true, is_playing: true };
    assert!(event_loop.finish_tick(16_666_700, Some(outcome)));
    assert_eq!(event_loop.begin_turn(), 5_000);
}

#[test]
fn loop_without_a_player_idles() {
    let mut event_loop = EventLoop::new(0);
    assert_eq!(event_loop.begin_tick(2_000), Tick::Idle);
    assert_eq!(event_loop.clock, FrameClock { last_frame: 2_000, next_frame: None });
    assert_eq!(event_loop.begin_turn(), 100_000_000);
}

#[test]
fn player_decides_on_drawing() {
    let mut event_loop = playing();
    event_loop.begin_turn();
    let event: Event = RuffleEvent::TogglePause;
    event_loop.on_event(&State::new(), event);
    assert!(event_loop.should_render());
    event_loop.begin_tick(2_000);
    let outcome = TickOutcome { until_next_frame: 1, needs_render: false, is_playing: false };
    assert!(!event_loop.finish_tick(2_000, Some(outcome)));
    assert!(!event_loop.should_render());
}

#[test]
fn unreachable_player_changes_nothing() {
    let mut event_loop = playing();
    event_loop.begin_tick(2_000);
    let before = event_loop;
    assert!(!event_loop.finish_tick(2_000, None));
    assert_eq!(event_loop, before);
}

#[test]
fn each_turn_starts_without_reason_to_draw() {
    let mut event_loop = playing();
    event_loop.needs_redraw = true;
    event_loop.begin_turn();
    assert!(!event_loop.should_render());
}
