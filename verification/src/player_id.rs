//! Identifiers that tell the players of one process apart.
use vstd::prelude::*;

verus! {

/// A unique identifier for a given player instance.
/// Used to track which player a pending task is bound to.
#[derive(Copy, Clone, Debug, PartialEq, Eq, Structural)]
pub struct PlayerId(pub i64);

/// The process-wide source of player identifiers: the one that is handed out next.
#[derive(Copy, Clone, Debug, PartialEq, Eq, Structural)]
pub struct PlayerIdCounter {
    pub next: i64,
}

impl PlayerIdCounter {
    /// A counter from which nothing was taken yet.
    pub fn new() -> (counter: PlayerIdCounter)
        ensures
            counter.next == 0,
    {
        PlayerIdCounter { next: 0 }
    }

    /// Whether the identifiers have run out; the next one would be negative.
    pub fn exhausted(&self) -> (out: bool)
        ensures
            out == (self.next < 0),
    {
        self.next < 0
    }
}

/// The counter after one identifier was taken. It wraps round at the top, which
/// leaves it exhausted.
pub open spec fn counter_after(next: i64) -> i64 {
    if next == i64::MAX {
        i64::MIN
    } else {
        (next + 1) as i64
    }
}

impl PlayerId {
    /// Takes the next identifier. Only a counter that has run out is refused.
    pub fn new(counter: &mut PlayerIdCounter) -> (id: PlayerId)
        requires
            old(counter).next >= 0,
        ensures
            id.0 == old(counter).next,
            final(counter).next == counter_after(old(counter).next),
    {
        let id = counter.next;
        counter.next = id.wrapping_add(1);
        PlayerId(id)
    }
}

/// The counter after `n` identifiers were taken from a fresh one.
pub open spec fn counter_after_many(n: nat) -> i64
    decreases n,
{
    if n == 0 {
        0
    } else {
        counter_after(counter_after_many((n - 1) as nat))
    }
}

/// Identifiers are handed out in order, starting at zero, and the counter lasts
/// for every identifier that is not negative.
pub proof fn ids_count_up(n: nat)
    requires
        n <= i64::MAX,
    ensures
        counter_after_many(n) == n,
    decreases n,
{
    if n > 0 {
        ids_count_up((n - 1) as nat);
    }
}

/// No two players of one process get the same identifier.
pub proof fn ids_are_unique(m: nat, n: nat)
    requires
        m <= i64::MAX,
        n <= i64::MAX,
        m != n,
    ensures
        PlayerId(counter_after_many(m)) != PlayerId(counter_after_many(n)),
{
    ids_count_up(m);
    ids_count_up(n);
}

/// Once the last identifier was taken the counter is exhausted: it does not start
/// over.
pub proof fn ids_run_out()
    ensures
        counter_after_many((i64::MAX + 1) as nat) < 0,
{
    ids_count_up(i64::MAX as nat);
}

/// Every identifier is followed by the next number. The last one is followed by none
/// that may be handed out.
pub proof fn each_id_is_followed_by_the_next(next: i64)
    requires
        next >= 0,
    ensures
        next < i64::MAX ==> counter_after(next) == next + 1,
        next == i64::MAX ==> counter_after(next) == i64::MIN,
{
}

} // verus!
