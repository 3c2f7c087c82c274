use vstd::prelude::*;
use crate::bird::BIRD_H;
use crate::bird::Bird;
use crate::bird::bird_ground;
use crate::pipe::Pipe;

verus! {

/// The collision predicate, exactly as the game decides it: the bird has
/// flown above the screen top, or rests exactly on the ground line, or its
/// horizontal extent overlaps the pipe's while its vertical position lies
/// outside the pipe's gap span. The overlap and out-of-gap conditions are
/// joined by AND before the whole is joined by OR with the top and ground
/// checks.
pub open spec fn colision_spec(p: Pipe, b: Bird) -> bool {
    ||| b.y < 0
    ||| b.y == bird_ground(b)
    ||| ((b.x + b.width > p.x && b.x < p.x + p.width) && (b.y < p.y + p.height || b.y > p.y
        + p.height + p.distance))
}

/// Decides whether the bird collides with this pipe, the screen top or the
/// ground. A bird exactly on the ground line always collides.
pub fn is_colision(pipe: &Pipe, bird: &Bird) -> (r: bool)
    ensures
        r == colision_spec(*pipe, *bird),
        bird.y == bird_ground(*bird) ==> r,
{
    let by = bird.y as i64;
    let bx = bird.x as i64;
    let px = pipe.x as i64;
    let py = pipe.y as i64;
    if by < 0 || by == (crate::SCREEN_H as i64) - (crate::GROUND_H as i64) - (bird.height as i64)
        || ((bx + (bird.width as i64) > px && bx
        < px + (pipe.width as i64)) && (by < py + (pipe.height as i64) || by > py
        + (pipe.height as i64) + (pipe.distance as i64))) {
        true
    } else {
        false
    }
}

/// A bird whose vertical position lies inside the pipe's gap span never
/// collides with that pipe, wherever the two stand horizontally: the gap
/// of a well-formed pipe lies strictly between the screen top and the
/// ground line.
pub proof fn lemma_bird_in_gap_no_collision(p: Pipe, b: Bird)
    requires
        p.wf(),
        b.height == BIRD_H,
        p.y + p.height <= b.y <= p.y + p.height + p.distance,
    ensures
        !colision_spec(p, b),
{
}

/// A bird below the screen top, above the ground line and horizontally
/// clear of both pipes collides with neither, whatever their gap offsets.
pub proof fn lemma_bird_clear_no_collision(p1: Pipe, p2: Pipe, b: Bird)
    requires
        0 <= b.y,
        b.y < bird_ground(b),
        b.x + b.width <= p1.x || b.x >= p1.x + p1.width,
        b.x + b.width <= p2.x || b.x >= p2.x + p2.width,
    ensures
        !colision_spec(p1, b),
        !colision_spec(p2, b),
{
}

} // verus!
