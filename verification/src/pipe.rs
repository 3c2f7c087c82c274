use vstd::prelude::*;
use crate::SCREEN_W;

verus! {

/// Width of one pipe sprite (tenths of a pixel).
pub const PIPE_W: i32 = 520;

/// Height of one pipe sprite (tenths).
pub const PIPE_H: i32 = 3200;

/// Vertical span of the gap between the upper and the lower pipe (tenths).
pub const PIPE_GAP: i32 = 1000;

/// Horizontal scroll speed of a pipe while a round runs (tenths per frame).
pub const PIPE_SPEED: i32 = 30;

/// Start position of the first pipe pair (tenths).
pub const PIPE_X1_START: i32 = 4580;

/// Start position of the second pipe pair, one spacing further right.
pub const PIPE_X2_START: i32 = 6280;

/// Where a recycled pipe reappears: just past the right screen edge.
pub const PIPE_RESET_X: i32 = SCREEN_W + PIPE_W;

/// Lowest vertical gap offset a recycle may draw (tenths).
pub const GAP_MIN: i32 = -2380;

/// Highest vertical gap offset a recycle may draw (tenths).
pub const GAP_MAX: i32 = -500;

/// Vertical gap offset both pipes start with (tenths).
pub const GAP_START: i32 = -1000;

/// Leftmost position a pipe can ever hold: one step past the recycle
/// threshold `-PIPE_W`.
pub const PIPE_X_MIN: i32 = -550;

/// One pipe pair: the gap offset `y` is the top of the upper pipe sprite
/// (negative, so that only its lower part shows). All fields are in tenths
/// of a pixel.
#[derive(Clone, Copy, PartialEq, Eq, Structural, Debug)]
pub struct Pipe {
    pub x: i32,
    /// Vertical offset of the gap: drawn from `[GAP_MIN, GAP_MAX]` on recycle.
    pub y: i32,
    pub height: i32,
    pub width: i32,
    /// Vertical span of the gap.
    pub distance: i32,
    /// Horizontal speed, stored per pipe: 0 while the round is inactive.
    pub speed: i32,
}

impl Pipe {
    /// A pipe as the game keeps it: fixed dimensions, a gap offset inside
    /// the drawable range, a position inside the scroll band, and one of
    /// the two legal speeds.
    pub open spec fn wf(self) -> bool {
        &&& self.width == PIPE_W
        &&& self.height == PIPE_H
        &&& self.distance == PIPE_GAP
        &&& PIPE_X_MIN as int <= self.x <= PIPE_X2_START as int
        &&& GAP_MIN as int <= self.y <= GAP_MAX as int
        &&& (self.speed == 0 || self.speed == PIPE_SPEED)
    }
}

/// A pipe is due for recycling once it has scrolled past the left screen
/// edge by more than its own width.
pub open spec fn recycle_due(p: Pipe) -> bool {
    p.x < -p.width
}

/// The horizontal position one advance leaves: the reset coordinate if the
/// pipe was due for recycling, else the old position, minus the speed when
/// the round's move flag is set.
pub open spec fn stepped_x(p: Pipe, moving: bool) -> int {
    (if recycle_due(p) { PIPE_RESET_X as int } else { p.x as int }) - (if moving {
        p.speed as int
    } else {
        0
    })
}

/// Whether `gy` is a gap offset one advance can leave: freshly drawn from
/// the recycle range if the pipe was due, else the old offset.
pub open spec fn gap_ok(p: Pipe, gy: i32) -> bool {
    if recycle_due(p) {
        GAP_MIN as int <= gy <= GAP_MAX as int
    } else {
        gy == p.y
    }
}

/// The pipe one advance leaves, once the drawn gap offset `gy` is fixed.
pub open spec fn pipe_stepped(p: Pipe, moving: bool, gy: i32) -> Pipe {
    Pipe { x: stepped_x(p, moving) as i32, y: gy, ..p }
}

/// Relies on rand::random_range on an inclusive integer range: it panics on
/// an empty range (ruled out here) and otherwise returns a value within the
/// range.
#[verifier::external_body]
fn draw_gap_offset(lo: i32, hi: i32) -> (r: i32)
    requires
        lo <= hi,
    ensures
        lo <= r <= hi,
{
    rand::random_range(lo..=hi)
}

impl Pipe {
    /// One step of the pipe scroller: recycle the pipe to the right edge
    /// with a freshly drawn gap offset if it has left the screen, then
    /// scroll it left by its speed when the round's move flag is set.
    ///
    /// A pipe that was due for recycling is never left due again, so a
    /// position past the left edge survives for at most one step.
    pub fn advance(&mut self, moving: bool)
        requires
            old(self).wf(),
        ensures
            final(self).wf(),
            gap_ok(*old(self), final(self).y),
            *final(self) == pipe_stepped(*old(self), moving, final(self).y),
            recycle_due(*old(self)) ==> !recycle_due(*final(self)),
    {
        if self.x < -self.width {
            self.x = PIPE_RESET_X;
            self.y = draw_gap_offset(GAP_MIN, GAP_MAX);
        }
        if moving {
            self.x = self.x - self.speed;
        }
    }
}

} // verus!
