//! When the next frame is due. All times are in nanoseconds since some fixed
//! moment.
use vstd::prelude::*;

verus! {

/// How long to wait for an event while no frame is due: 100 ms.
pub const IDLE_TIMEOUT: u128 = 100_000_000;

/// How many nanoseconds there are in a microsecond.
pub const NANOS_PER_MICRO: u128 = 1_000;

/// The times of the frames.
#[derive(Copy, Clone, Debug, PartialEq, Eq, Structural)]
pub struct FrameClock {
    /// When the player was last advanced.
    pub last_frame: u128,
    /// When the player is to be advanced next, if there is one.
    pub next_frame: Option<u128>,
}

impl FrameClock {
    /// How long to wait for an event: until the next frame, counted from the last
    /// one, or the idle timeout where no frame is due after the last one.
    pub open spec fn timeout(self) -> int {
        match self.next_frame {
            Some(next) if next >= self.last_frame => next - self.last_frame,
            _ => IDLE_TIMEOUT as int,
        }
    }

    /// How many whole microseconds have passed since the last frame. A clock that
    /// went backwards counts as one that stood still.
    pub open spec fn elapsed(self, now: u128) -> int {
        if now > self.last_frame {
            (now - self.last_frame) / NANOS_PER_MICRO as int
        } else {
            0
        }
    }

    /// A clock that has a frame due at once.
    pub fn start(now: u128) -> (clock: FrameClock)
        ensures
            clock == (FrameClock { last_frame: now, next_frame: Some(now) }),
    {
        FrameClock { last_frame: now, next_frame: Some(now) }
    }

    /// How long to wait for an event.
    pub fn poll_timeout(&self) -> (timeout: u128)
        ensures
            timeout == self.timeout(),
    {
        match self.next_frame {
            Some(next) => {
                if next >= self.last_frame {
                    next - self.last_frame
                } else {
                    IDLE_TIMEOUT
                }
            },
            None => IDLE_TIMEOUT,
        }
    }

    /// How many whole microseconds have passed since the last frame.
    pub fn elapsed_micros(&self, now: u128) -> (micros: u128)
        ensures
            micros == self.elapsed(now),
    {
        if now > self.last_frame {
            (now - self.last_frame) / NANOS_PER_MICRO
        } else {
            0
        }
    }
}

/// The time of the last frame, once the loop has looked at the clock: time shorter
/// than a microsecond is left to add up.
pub open spec fn last_frame_after(last_frame: u128, now: u128) -> u128 {
    let clock = FrameClock { last_frame, next_frame: None };
    if clock.elapsed(now) > 0 {
        now
    } else {
        last_frame
    }
}

/// The microseconds by which the player has been advanced in all, when the loop has
/// looked at the clock at each of `times`.
pub open spec fn total_advanced(last_frame: u128, times: Seq<u128>) -> int
    decreases times.len(),
{
    if times.len() == 0 {
        0
    } else {
        let clock = FrameClock { last_frame, next_frame: None };
        clock.elapsed(times[0]) + total_advanced(
            last_frame_after(last_frame, times[0]),
            times.drop_first(),
        )
    }
}

/// The time of the last frame after the loop has looked at the clock at each of
/// `times`.
pub open spec fn last_frame_after_all(last_frame: u128, times: Seq<u128>) -> u128
    decreases times.len(),
{
    if times.len() == 0 {
        last_frame
    } else {
        last_frame_after_all(last_frame_after(last_frame, times[0]), times.drop_first())
    }
}

/// The player is never advanced by more time than has passed, and at every look at
/// the clock it loses less than a microsecond.
pub proof fn movie_time_follows_real_time(last_frame: u128, times: Seq<u128>)
    ensures
        ({
            let passed = last_frame_after_all(last_frame, times) - last_frame;
            let advanced = total_advanced(last_frame, times) * NANOS_PER_MICRO;
            &&& 0 <= advanced <= passed
            &&& passed <= advanced + times.len() * NANOS_PER_MICRO
        }),
    decreases times.len(),
{
    if times.len() > 0 {
        movie_time_follows_real_time(last_frame_after(last_frame, times[0]), times.drop_first());
    }
}

/// The elapsed time is the passed nanoseconds in whole microseconds: never more, and
/// less by under one. A clock that stands still or goes back gives none.
pub proof fn elapsed_time_is_rounded_down(clock: FrameClock, now: u128)
    ensures
        now <= clock.last_frame ==> clock.elapsed(now) == 0,
        now >= clock.last_frame ==> clock.elapsed(now) * 1_000 <= now - clock.last_frame
            < clock.elapsed(now) * 1_000 + 1_000,
{
}

/// Waiting out the timeout ends exactly when the next frame is due, counted from the
/// last one. Where no frame is due after the last one it takes a tenth of a second.
pub proof fn timeout_ends_at_the_next_frame(clock: FrameClock)
    ensures
        match clock.next_frame {
            Some(next) => {
                &&& next >= clock.last_frame ==> clock.last_frame + clock.timeout() == next
                &&& next < clock.last_frame ==> clock.timeout() == 100_000_000
            },
            None => clock.timeout() == 100_000_000,
        },
{
}

} // verus!
