//! Core logic of a wall-to-wall platformer: a randomized effect scheduler,
//! the player/platform coupling state machine, and the wall & loss rules.
//!
//! Geometry is measured in whole pixels (`i64`), time in milliseconds (`u64`).
//! The windowing, rendering and physics engines live outside this crate and
//! exchange plain values with it.
use vstd::prelude::*;

pub mod animation;
pub mod effects;
pub mod events;
pub mod game;
pub mod player;
mod rng;
pub mod tiles;

verus! {

/// One of the two boundary walls the player shuttles between.
#[derive(Clone, Copy, Debug, PartialEq, Eq, Structural)]
pub enum Wall {
    Left,
    Right,
}

impl Wall {
    /// The boundary on the other side of the screen.
    pub open spec fn spec_opposite(self) -> Wall {
        match self {
            Wall::Left => Wall::Right,
            Wall::Right => Wall::Left,
        }
    }

    pub fn opposite(self) -> (r: Wall)
        ensures
            r == self.spec_opposite(),
    {
        match self {
            Wall::Left => Wall::Right,
            Wall::Right => Wall::Left,
        }
    }
}

/// Bound on every coordinate, velocity and window size handed to this crate,
/// far beyond any screen: it keeps the pixel arithmetic inside `i64`.
pub const COORD_LIMIT: i64 = 1_000_000_000;

/// `v` pulled into `[lo, hi]`.
pub open spec fn spec_clamp(v: int, lo: int, hi: int) -> int {
    if v < lo {
        lo
    } else if v > hi {
        hi
    } else {
        v
    }
}

pub fn clamp_i64(v: i64, lo: i64, hi: i64) -> (r: i64)
    requires
        lo <= hi,
    ensures
        r == spec_clamp(v as int, lo as int, hi as int),
{
    if v < lo {
        lo
    } else if v > hi {
        hi
    } else {
        v
    }
}

/// Top-level states the external controller drives the game through.
#[derive(Clone, Copy, Debug, PartialEq, Eq, Hash, Structural)]
pub enum AppState {
    MainMenu,
    InGame,
    YouDied,
}

/// Number of walls reached in the current run; resets when a run starts.
#[derive(Clone, Copy, Debug, PartialEq, Eq, Structural)]
pub struct Score(pub usize);

/// Best score seen since the process started; never decreases.
#[derive(Clone, Copy, Debug, PartialEq, Eq, Structural)]
pub struct HighScore(pub usize);

/// Reset the score for a fresh run.
pub fn reset_score(score: &mut Score)
    ensures
        final(score).0 == 0,
{
    score.0 = 0;
}

/// Raise the high score to the current score whenever the score exceeds it.
pub fn update_highscore(score: &Score, highscore: &mut HighScore)
    ensures
        final(highscore).0 == if score.0 > old(highscore).0 {
            score.0
        } else {
            old(highscore).0
        },
        final(highscore).0 >= old(highscore).0,
{
    if score.0 > highscore.0 {
        highscore.0 = score.0;
    }
}

} // verus!
