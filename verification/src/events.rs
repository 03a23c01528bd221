//! Signals and the loss rules: the wall-reached event, the two ways a run
//! ends, and the stopwatch they are judged against.
use vstd::prelude::*;

use crate::Score;
use crate::Wall;

verus! {

/// Why a run ended.
#[derive(Clone, Copy, Debug, PartialEq, Eq, Structural)]
pub enum Reason {
    Died,
    OutOfTime,
}

/// Signal emitted when the player touches the boundary opposite the last
/// recorded one.
#[derive(Clone, Copy, Debug, PartialEq, Eq, Structural)]
pub struct WallReached(pub Wall);

/// Terminal signal: the run is over.
#[derive(Clone, Copy, Debug, PartialEq, Eq, Structural)]
pub struct Lost(pub Reason);

/// Longest time the player may take to reach the next wall.
pub const MAX_TIME_TO_REACH_WALL_MS: u64 = 15000;

/// Grace added on top of the limit before the timeout loss fires.
pub const TIMEOUT_GRACE_MS: u64 = 500;

/// Falling below this height ends the run.
pub const DEATH_Y: i64 = -100;

/// Stopwatch reset when a run starts and on every wall-reached signal.
#[derive(Clone, Copy, Debug, PartialEq, Eq, Structural)]
pub struct GameTimer {
    pub start_ms: u64,
}

impl GameTimer {
    pub fn new(now_ms: u64) -> (t: GameTimer)
        ensures
            t.start_ms == now_ms,
    {
        GameTimer { start_ms: now_ms }
    }

    pub fn reset(&mut self, now_ms: u64)
        ensures
            final(self).start_ms == now_ms,
    {
        self.start_ms = now_ms;
    }

    pub fn elapsed_ms(&self, now_ms: u64) -> (r: u64)
        requires
            self.start_ms <= now_ms,
        ensures
            r == now_ms - self.start_ms,
    {
        now_ms - self.start_ms
    }
}

/// The timeout rule: more than the limit plus its grace has elapsed.
pub open spec fn spec_out_of_time(elapsed_ms: u64) -> bool {
    elapsed_ms > MAX_TIME_TO_REACH_WALL_MS + TIMEOUT_GRACE_MS
}

/// Evaluated every tick: emits the timeout loss exactly on the elapsed times
/// the rule names.
pub fn is_out_of_time(elapsed_ms: u64) -> (r: Option<Lost>)
    ensures
        r == if spec_out_of_time(elapsed_ms) {
            Some(Lost(Reason::OutOfTime))
        } else {
            None::<Lost>
        },
{
    if elapsed_ms > MAX_TIME_TO_REACH_WALL_MS + TIMEOUT_GRACE_MS {
        Some(Lost(Reason::OutOfTime))
    } else {
        None
    }
}

/// The death-fall rule: the player's vertical position is below the
/// threshold.
pub open spec fn spec_dead(player_y: i64) -> bool {
    player_y < DEATH_Y
}

/// Evaluated every tick: emits the death loss exactly when the player has
/// fallen below the threshold.
pub fn is_dead(player_y: i64) -> (r: Option<Lost>)
    ensures
        r == if spec_dead(player_y) {
            Some(Lost(Reason::Died))
        } else {
            None::<Lost>
        },
{
    if player_y < DEATH_Y {
        Some(Lost(Reason::Died))
    } else {
        None
    }
}

/// Remaining time shown on the HUD: the limit minus the elapsed time, never
/// below zero.
pub fn time_left_ms(elapsed_ms: u64) -> (r: u64)
    ensures
        r == if elapsed_ms >= MAX_TIME_TO_REACH_WALL_MS {
            0u64
        } else {
            (MAX_TIME_TO_REACH_WALL_MS - elapsed_ms) as u64
        },
{
    if elapsed_ms >= MAX_TIME_TO_REACH_WALL_MS {
        0
    } else {
        MAX_TIME_TO_REACH_WALL_MS - elapsed_ms
    }
}

/// One more wall reached.
pub fn update_score(score: &mut Score)
    requires
        old(score).0 < usize::MAX,
    ensures
        final(score).0 == old(score).0 + 1,
{
    score.0 = score.0 + 1;
}

} // verus!
