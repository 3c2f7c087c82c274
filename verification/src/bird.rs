use vstd::prelude::*;
use crate::GROUND_H;
use crate::SCREEN_H;
use crate::ground_line;
use vstd::arithmetic::div_mod::lemma_div_is_ordered;
use vstd::arithmetic::div_mod::lemma_div_multiples_vanish;
use vstd::arithmetic::mul::lemma_mul_inequality;

verus! {

/// Fixed horizontal position of the bird (tenths of a pixel).
pub const BIRD_X: i32 = 1280;

/// Vertical position of the bird at the start of a round (tenths of a pixel).
pub const BIRD_Y0: i32 = 2060;

/// Width of the bird's hitbox, which is also its render box (tenths).
pub const BIRD_W: i32 = 320;

/// Height of the bird's hitbox (tenths).
pub const BIRD_H: i32 = 240;

/// Vertical velocity set by an upward impulse (tenths of a pixel per frame;
/// negative is upward).
pub const JUMP_SPEED: i32 = -60;

/// Gravity while a round is running (tenths of a pixel per frame, added to
/// the velocity once per frame).
pub const GRAVITY: i32 = 3;

/// Largest downward velocity the bird can reach (tenths per frame).
pub const TERMINAL_SPEED: i32 = 70;

/// Fixed-point unit of the tilt curve: 1000 stands for 1.0 radian.
pub const TILT_ONE: i32 = 1000;

/// Per-step factor of the tilt curve in thousandths: 1.014 for each tenth of
/// velocity, which compounds to about 1.15 for each whole unit of velocity.
pub const TILT_BASE: i32 = 1014;

/// Ceiling of the tilt curve's growth. It lies far above every value the
/// curve reaches on the bird's velocity range and only serves to keep the
/// curve bounded on all inputs.
pub const TILT_CAP: i32 = 6000;

/// Largest value `growth` can take: one flooring step up from just below
/// the ceiling, `5999 * 1014 / 1000`.
pub const TILT_GROWTH_MAX: i32 = 6082;

/// One bird sprite: position, motion and the derived visual tilt.
/// All geometry is in tenths of a pixel; `angle` is in milliradians.
#[derive(Clone, Copy, PartialEq, Eq, Structural, Debug)]
pub struct Bird {
    pub x: i32,
    pub y: i32,
    /// Sprite frame index, cycling through 0, 1, 2.
    pub state: u8,
    /// Visual tilt in milliradians, derived from the velocity.
    pub angle: i32,
    /// Vertical velocity in tenths of a pixel per frame (downward positive).
    pub speed: i32,
    /// Vertical acceleration: 0 while the round is inactive, else `GRAVITY`.
    pub accel: i32,
    pub height: i32,
    pub width: i32,
}

/// The ground line for this bird: the largest vertical position it may
/// occupy (its top edge when it rests on the ground strip).
pub open spec fn bird_ground(b: Bird) -> int {
    ground_line(b.height as int)
}

/// Fixed-point exponential: starting from `TILT_ONE`, multiply by
/// `TILT_BASE / TILT_ONE` (flooring) once per step, frozen above `TILT_CAP`.
pub open spec fn growth(n: nat) -> int
    decreases n,
{
    if n == 0 {
        TILT_ONE as int
    } else {
        let g = growth((n - 1) as nat);
        if g >= TILT_CAP {
            g
        } else {
            g * TILT_BASE / (TILT_ONE as int)
        }
    }
}

/// The tilt angle for a velocity `v` (in tenths per frame), in milliradians:
/// an exponential curve through zero, negative for upward motion.
pub open spec fn tilt(v: int) -> int {
    if v >= 0 {
        growth(v as nat) - TILT_ONE
    } else {
        TILT_ONE - growth((-v) as nat)
    }
}

pub proof fn lemma_growth_bounds(n: nat)
    ensures
        TILT_ONE as int <= growth(n) <= TILT_GROWTH_MAX as int,
    decreases n,
{
    if n > 0 {
        lemma_growth_bounds((n - 1) as nat);
        let g = growth((n - 1) as nat);
        if g < TILT_CAP {
            lemma_mul_inequality(1, TILT_BASE as int, g);
            lemma_div_multiples_vanish(g, TILT_ONE as int);
            lemma_div_is_ordered(g * 1000, g * TILT_BASE, TILT_ONE as int);
            lemma_mul_inequality(g, 5999, TILT_BASE as int);
            lemma_div_is_ordered(g * TILT_BASE, 5999 * TILT_BASE, TILT_ONE as int);
        }
    }
}

pub proof fn lemma_growth_monotone(a: nat, b: nat)
    requires
        a <= b,
    ensures
        growth(a) <= growth(b),
    decreases b,
{
    if a < b {
        lemma_growth_monotone(a, (b - 1) as nat);
        let g = growth((b - 1) as nat);
        lemma_growth_bounds((b - 1) as nat);
        if g < TILT_CAP {
            lemma_mul_inequality(1, TILT_BASE as int, g);
            lemma_div_multiples_vanish(g, TILT_ONE as int);
            lemma_div_is_ordered(g * 1000, g * TILT_BASE, TILT_ONE as int);
        }
    }
}

/// The tilt angle is zero at rest and monotonically non-decreasing in the
/// downward velocity, over the whole non-negative velocity range.
pub proof fn lemma_tilt_monotone(a: int, b: int)
    requires
        0 <= a <= b,
    ensures
        tilt(0) == 0,
        tilt(a) <= tilt(b),
{
    lemma_growth_monotone(a as nat, b as nat);
}

/// Computes `tilt` for a velocity in the bird's reachable range.
pub fn tilt_angle(speed: i32) -> (a: i32)
    requires
        -(TERMINAL_SPEED as int) <= speed <= TERMINAL_SPEED as int,
    ensures
        a as int == tilt(speed as int),
{
    let n: u32 = if speed >= 0 {
        speed as u32
    } else {
        (-speed) as u32
    };
    let mut g: u32 = 1000;
    let mut i: u32 = 0;
    while i < n
        invariant
            i <= n,
            n <= TERMINAL_SPEED as u32,
            g == growth(i as nat),
            1000 <= g <= TILT_GROWTH_MAX,
        decreases n - i,
    {
        if g < 6000 {
            g = g * 1014 / 1000;
        }
        i = i + 1;
        proof {
            lemma_growth_bounds(i as nat);
        }
    }
    let mag: i32 = (g - 1000) as i32;
    if speed >= 0 {
        mag
    } else {
        -mag
    }
}

/// What one integration step makes of a bird: position moves by the
/// velocity but never past the ground line, the velocity grows by the
/// acceleration but never past `TERMINAL_SPEED`, and the tilt is derived
/// from the new velocity.
pub open spec fn bird_advanced(b: Bird) -> Bird {
    let y2 = if b.y + b.speed <= bird_ground(b) {
        b.y + b.speed
    } else {
        bird_ground(b)
    };
    let v2 = if b.speed + b.accel <= TERMINAL_SPEED as int {
        b.speed + b.accel
    } else {
        TERMINAL_SPEED as int
    };
    Bird { y: y2 as i32, speed: v2 as i32, angle: tilt(v2) as i32, ..b }
}

impl Bird {
    /// One integration step of the bird simulator: apply the velocity to the
    /// position (clamped to the ground line) and the acceleration to the
    /// velocity (clamped to the terminal velocity), then derive the tilt.
    pub fn advance(&mut self)
        requires
            0 <= old(self).height <= SCREEN_H as int,
            JUMP_SPEED as int <= old(self).speed <= TERMINAL_SPEED as int,
            0 <= old(self).accel <= GRAVITY as int,
            old(self).y <= bird_ground(*old(self)),
            i32::MIN + 100 <= old(self).y,
        ensures
            *final(self) == bird_advanced(*old(self)),
            final(self).y <= bird_ground(*old(self)),
            JUMP_SPEED as int <= final(self).speed <= TERMINAL_SPEED as int,
            final(self).angle as int == tilt(final(self).speed as int),
    {
        let ground: i32 = SCREEN_H - GROUND_H - self.height;
        let ny: i32 = self.y + self.speed;
        self.y = if ny <= ground {
            ny
        } else {
            ground
        };
        let nv: i32 = self.speed + self.accel;
        self.speed = if nv <= TERMINAL_SPEED {
            nv
        } else {
            TERMINAL_SPEED
        };
        self.angle = tilt_angle(self.speed);
    }
}

} // verus!
