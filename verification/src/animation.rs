//! Sprite-sheet frame arithmetic for the animation player.
use vstd::prelude::*;

verus! {

/// The next frame of a looping animation of `frames` frames.
pub fn next_frame(curr: usize, frames: usize) -> (r: usize)
    requires
        frames > 0,
        curr < usize::MAX,
    ensures
        r == (curr + 1) as int % frames as int,
        r < frames,
{
    (curr + 1) % frames
}

} // verus!
