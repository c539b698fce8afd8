use ruffle_android::frame::{FrameClock, IDLE_TIMEOUT};

#[test]
fn first_frame_is_due_at_once() {
    let clock = FrameClock::start(77);
    assert_eq!(clock, FrameClock { last_frame: 77, next_frame: Some(77) });
    assert_eq!(clock.poll_timeout(), 0);
}

#[test]
fn timeout_is_counted_from_the_last_frame() {
    let clock = FrameClock { last_frame: 1_000, next_frame: Some(17_000) };
    assert_eq!(clock.poll_timeout(), 16_000);
}

#[test]
fn timeout_while_idle() {
    let clock = FrameClock { last_frame: 1_000, next_frame: None };
    assert_eq!(clock.poll_timeout(), 100_000_000);
    assert_eq!(IDLE_TIMEOUT, 100_000_000);
}

#[test]
fn timeout_when_the_frame_lies_in_the_past() {
    let clock = FrameClock { last_frame: 1_000, next_frame: Some(999) };
    assert_eq!(clock.poll_timeout(), IDLE_TIMEOUT);
}

#[test]
fn only_whole_microseconds_elapse() {
    let clock = FrameClock { last_frame: 5_000, next_frame: None };
    assert_eq!(clock.elapsed_micros(5_000), 0);
    assert_eq!(clock.elapsed_micros(5_999), 0);
    assert_eq!(clock.elapsed_micros(6_000), 1);
    assert_eq!(clock.elapsed_micros(8_500), 3);
}

#[test]
fn time_does_not_run_backwards() {
    let clock = FrameClock { last_frame: 5_000, next_frame: None };
    assert_eq!(clock.elapsed_micros(0), 0);
}
