//! Frame pacing: how long to wait before the next frame, and how much time
//! the frame after a late one has left.

use vstd::prelude::*;

verus! {

/// What the pacer does next.
#[derive(Clone, Copy, Debug, PartialEq, Eq, Structural)]
pub enum Pace {
    /// Wait this long, then ask again.
    Sleep(u64),
    /// Start the next frame; it has this long.
    NextFrame(u64),
}

/// The time that the next frame has when the last one overran by `late`: a
/// whole frame less the overrun, and nothing if the overrun is a frame or more.
pub open spec fn budget(frame: u64, late: int) -> int {
    if frame > late {
        frame - late
    } else {
        0
    }
}

/// Decides what to do `elapsed` after a frame began that had `remaining` to
/// run, with frames of `frame` each. All three are in the same unit.
pub fn pace(frame: u64, remaining: u64, elapsed: u64) -> (next: Pace)
    ensures
        next == if elapsed < remaining {
            Pace::Sleep((remaining - elapsed) as u64)
        } else {
            Pace::NextFrame(budget(frame, elapsed - remaining) as u64)
        },
{
    if elapsed < remaining {
        Pace::Sleep(remaining - elapsed)
    } else {
        let tau = elapsed - remaining;
        Pace::NextFrame(
            if frame > tau {
                frame - tau
            } else {
                0
            },
        )
    }
}

} // verus!
