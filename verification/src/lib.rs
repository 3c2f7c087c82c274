//! The simulation core of a small side-scrolling arcade game: a bird falls
//! under gravity, upward impulses lift it, and it must pass through gaps in
//! scrolling pipe pairs. Every quantity is kept in integer tenths of a
//! pixel, so each frame of physics, collision detection and round lifecycle
//! is exact and verified; rendering, audio and input belong to the caller.

use vstd::prelude::*;

pub mod bird;
pub mod collision;
pub mod game;
pub mod pipe;

verus! {

/// Width of the game window, in tenths of a pixel.
pub const SCREEN_W: i32 = 2880;

/// Height of the game window, in tenths of a pixel.
pub const SCREEN_H: i32 = 5120;

/// Height of the scrolling ground strip, in tenths of a pixel.
pub const GROUND_H: i32 = 1120;

/// The ground line for a bird of the given height: the largest vertical
/// position the bird may occupy (tenths of a pixel, y grows downward).
pub open spec fn ground_line(bird_height: int) -> int {
    SCREEN_H - GROUND_H - bird_height
}

} // verus!
