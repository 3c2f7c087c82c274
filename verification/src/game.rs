use vstd::prelude::*;
use crate::SCREEN_W;
use crate::bird::BIRD_H;
use crate::bird::BIRD_W;
use crate::bird::BIRD_X;
use crate::bird::BIRD_Y0;
use crate::bird::Bird;
use crate::bird::GRAVITY;
use crate::bird::JUMP_SPEED;
use crate::bird::TERMINAL_SPEED;
use crate::bird::bird_advanced;
use crate::bird::bird_ground;
use crate::collision::colision_spec;
use crate::collision::is_colision;
use crate::pipe::GAP_START;
use crate::pipe::PIPE_SPEED;
use crate::pipe::PIPE_X1_START;
use crate::pipe::PIPE_X2_START;
use crate::pipe::Pipe;
use crate::pipe::gap_ok;
use crate::pipe::pipe_stepped;

verus! {

/// How many frames after a collision the frozen "game over" screen stays
/// before the round resets.
pub const STOP_DELAY: u64 = 150;

/// No point is awarded before this many frames have passed in a round.
pub const SCORE_WARMUP: u64 = 100;

/// The sprite frame index of the bird advances every this many frames.
pub const SPRITE_PERIOD: u64 = 7;

/// The scrolling ground strip wraps once its offset falls below this
/// (tenths of a pixel).
pub const BASE_WRAP: i32 = -420;

/// The horizontal span the score cadence accounts for beyond one screen
/// crossing: one pipe spacing plus one pipe width, in whole pixels.
pub const SCORE_SPACING: i32 = 78;

/// The whole authoritative game state: the bird, the two pipe pairs and
/// the round lifecycle flags and counters.
#[derive(Clone, Copy, PartialEq, Eq, Structural, Debug)]
pub struct GameState {
    pub bird: Bird,
    pub pipe1: Pipe,
    pub pipe2: Pipe,
    /// Whether pipes and the ground strip scroll this frame.
    pub move_pipe: bool,
    /// Whether an upward input is accepted.
    pub take_input: bool,
    /// Whether collisions are checked; false exactly during the game-over
    /// freeze.
    pub check_colision: bool,
    /// Whether the periodic score pulse is armed.
    pub point_given: bool,
    /// Whether the "game over" overlay is shown.
    pub show_game_over: bool,
    /// The frame at which a frozen round resets; 0 while no freeze runs.
    pub stop_frame: u64,
    pub frame_no: u64,
    pub score: u64,
    /// Horizontal offset of the scrolling ground texture (tenths).
    pub basex: i32,
}

/// The audio cues one frame asks the caller to fire; playback is the
/// caller's business and is never awaited.
#[derive(Clone, Copy, PartialEq, Eq, Structural, Debug)]
pub struct Cues {
    pub wing: bool,
    pub point: bool,
    pub hit: bool,
    pub die: bool,
}

/// How far the bird can still climb from velocity `s` (tenths of a pixel):
/// the sum of the remaining upward steps while gravity pulls the velocity
/// back to zero. Zero for downward or resting velocities.
pub open spec fn rise(s: int) -> int
    decreases (if s < 0 {
        -s
    } else {
        0
    }),
{
    if s >= 0 {
        0
    } else {
        -s + rise(s + GRAVITY)
    }
}

pub proof fn lemma_rise_bound(s: int)
    requires
        s <= 0,
    ensures
        0 <= rise(s) <= s * s,
    decreases -s,
{
    if s == 0 {
    } else if s >= -2 {
        assert(rise(s + 3) == 0);
        assert(rise(s) == -s);
        assert(-s <= s * s) by (nonlinear_arith)
            requires
                -2 <= s <= -1,
        ;
    } else {
        lemma_rise_bound(s + 3);
        assert(rise(s) == -s + rise(s + 3));
        assert((s + 3) * (s + 3) + (-s) <= s * s) by (nonlinear_arith)
            requires
                s <= -3,
        ;
    }
}

/// The period of the score pulse for a positive pipe speed, in frames:
/// the frames a pipe needs to cross the screen, plus the spacing span in
/// pixels, divided once more by the speed in pixels. The trailing factor
/// of 10 turns the stored tenths back into whole pixels.
pub open spec fn cadence_period(speed: int) -> int {
    ((SCREEN_W as int) / speed + SCORE_SPACING as int) * 10 / speed
}

/// Whether this frame awards a point: the pulse is armed, the warm-up has
/// passed, and the frame number sits on the cadence grid of the pipe speed
/// that holds after this frame's input. A zero speed never pulses.
pub open spec fn score_pulse(s: GameState, jump: bool) -> bool {
    let sp = if jump && s.take_input {
        PIPE_SPEED as int
    } else {
        s.pipe1.speed as int
    };
    &&& s.point_given
    &&& s.frame_no > SCORE_WARMUP
    &&& sp > 0
    &&& cadence_period(sp) > 0
    &&& (s.frame_no as int) % cadence_period(sp) == 0
}

/// The bird after this frame's simulation: one integration step, the
/// sprite cycle while the world scrolls, and the upward impulse if an
/// accepted input arrived.
pub open spec fn stepped_bird(s: GameState, jump: bool) -> Bird {
    let b1 = bird_advanced(s.bird);
    let st1 = if s.move_pipe && (s.frame_no as int) % (SPRITE_PERIOD as int) == 0 {
        ((s.bird.state + 1) as u8)
    } else {
        s.bird.state
    };
    let st2 = if st1 > 2 {
        0 as u8
    } else {
        st1
    };
    let b2 = Bird { state: st2, ..b1 };
    if jump && s.take_input {
        Bird { speed: JUMP_SPEED, accel: GRAVITY, ..b2 }
    } else {
        b2
    }
}

/// Whether this frame ends in a collision: checks are enabled and the
/// advanced bird collides with either advanced pipe, whose freshly drawn
/// gap offsets are `gy1` and `gy2`.
pub open spec fn hit_spec(s: GameState, jump: bool, gy1: i32, gy2: i32) -> bool {
    &&& s.check_colision
    &&& (colision_spec(pipe_stepped(s.pipe1, s.move_pipe, gy1), stepped_bird(s, jump))
        || colision_spec(pipe_stepped(s.pipe2, s.move_pipe, gy2), stepped_bird(s, jump)))
}

/// The state one frame leaves, once the two gap offsets drawn by the pipe
/// recycles are fixed. Everything else about a frame is deterministic.
pub open spec fn step_spec(s: GameState, jump: bool, gy1: i32, gy2: i32) -> GameState {
    let go = jump && s.take_input;
    let p1a = pipe_stepped(s.pipe1, s.move_pipe, gy1);
    let p2a = pipe_stepped(s.pipe2, s.move_pipe, gy2);
    let p1 = if go {
        Pipe { speed: PIPE_SPEED, ..p1a }
    } else {
        p1a
    };
    let p2 = if go {
        Pipe { speed: PIPE_SPEED, ..p2a }
    } else {
        p2a
    };
    let b = stepped_bird(s, jump);
    let bx0 = if s.move_pipe {
        s.basex - s.pipe1.speed
    } else {
        s.basex as int
    };
    let bx = if bx0 < BASE_WRAP as int {
        0
    } else {
        bx0
    };
    let sc = if score_pulse(s, jump) {
        s.score + 1
    } else {
        s.score as int
    };
    if hit_spec(s, jump, gy1, gy2) {
        GameState {
            bird: b,
            pipe1: p1,
            pipe2: p2,
            move_pipe: false,
            take_input: false,
            check_colision: false,
            point_given: false,
            show_game_over: true,
            stop_frame: (s.frame_no + STOP_DELAY) as u64,
            frame_no: (s.frame_no + 1) as u64,
            score: 0,
            basex: bx as i32,
        }
    } else if !s.check_colision && s.frame_no == s.stop_frame {
        GameState {
            bird: Bird { y: BIRD_Y0, speed: 0, accel: 0, ..b },
            pipe1: Pipe { x: PIPE_X1_START, speed: 0, ..p1 },
            pipe2: Pipe { x: PIPE_X2_START, speed: 0, ..p2 },
            move_pipe: true,
            take_input: true,
            check_colision: true,
            point_given: true,
            show_game_over: false,
            stop_frame: 0,
            frame_no: 1,
            score: sc as u64,
            basex: bx as i32,
        }
    } else {
        GameState {
            bird: b,
            pipe1: p1,
            pipe2: p2,
            move_pipe: s.move_pipe,
            take_input: s.take_input,
            check_colision: s.check_colision,
            point_given: s.point_given,
            show_game_over: s.show_game_over,
            stop_frame: s.stop_frame,
            frame_no: (s.frame_no + 1) as u64,
            score: sc as u64,
            basex: bx as i32,
        }
    }
}

/// The audio cues one frame fires: the wing flap on an accepted input, the
/// point cue on a score pulse, and the hit and die cues together on a
/// collision.
pub open spec fn cues_spec(s: GameState, jump: bool, gy1: i32, gy2: i32) -> Cues {
    Cues {
        wing: jump && s.take_input,
        point: score_pulse(s, jump),
        hit: hit_spec(s, jump, gy1, gy2),
        die: hit_spec(s, jump, gy1, gy2),
    }
}

/// The state every round starts in: the bird resting mid-screen with
/// gravity off, both pipes at their start positions and standing still,
/// input and collision checks armed, nothing scored.
pub open spec fn initial_state() -> GameState {
    GameState {
        bird: Bird {
            x: BIRD_X,
            y: BIRD_Y0,
            state: 0,
            angle: 0,
            speed: 0,
            accel: 0,
            height: BIRD_H,
            width: BIRD_W,
        },
        pipe1: Pipe {
            x: PIPE_X1_START,
            y: GAP_START,
            height: crate::pipe::PIPE_H,
            width: crate::pipe::PIPE_W,
            distance: crate::pipe::PIPE_GAP,
            speed: 0,
        },
        pipe2: Pipe {
            x: PIPE_X2_START,
            y: GAP_START,
            height: crate::pipe::PIPE_H,
            width: crate::pipe::PIPE_W,
            distance: crate::pipe::PIPE_GAP,
            speed: 0,
        },
        move_pipe: true,
        take_input: true,
        check_colision: true,
        point_given: true,
        show_game_over: false,
        stop_frame: 0,
        frame_no: 0,
        score: 0,
        basex: 0,
    }
}

impl GameState {
    /// Everything one frame of the game preserves: the bird inside its
    /// velocity band and never below the ground line, the pipes well
    /// formed and sharing one speed, the lifecycle flags moving together,
    /// and, during a game-over freeze, the bird no further above the
    /// screen than its remaining climb allows.
    pub open spec fn wf(self) -> bool {
        &&& self.bird.x == BIRD_X
        &&& self.bird.width == BIRD_W
        &&& self.bird.height == BIRD_H
        &&& JUMP_SPEED as int <= self.bird.speed <= TERMINAL_SPEED as int
        &&& (self.bird.accel == 0 || self.bird.accel == GRAVITY)
        &&& (self.bird.accel == 0 ==> self.bird.speed == 0)
        &&& self.bird.y <= bird_ground(self.bird)
        &&& self.bird.state <= 2
        &&& self.pipe1.wf()
        &&& self.pipe2.wf()
        &&& self.pipe1.speed == self.pipe2.speed
        &&& self.move_pipe == self.check_colision
        &&& self.take_input == self.check_colision
        &&& self.show_game_over == !self.check_colision
        &&& self.point_given == self.check_colision
        &&& (self.check_colision ==> self.stop_frame == 0 && self.bird.y >= 0)
        // during a freeze the bird entered at a position no higher than one
        // velocity step above the screen top (-60), and can climb at most
        // rise(speed) further, which never exceeds 3600
        &&& (!self.check_colision ==> self.score == 0 && self.frame_no <= self.stop_frame
            && self.bird.y as int >= -3660 + rise(self.bird.speed as int))
        &&& BASE_WRAP as int <= self.basex <= 0
        &&& self.score <= self.frame_no
    }

    /// The documented start state.
    pub fn new() -> (s: GameState)
        ensures
            s == initial_state(),
            s.wf(),
    {
        GameState {
            bird: Bird {
                x: BIRD_X,
                y: BIRD_Y0,
                state: 0,
                angle: 0,
                speed: 0,
                accel: 0,
                height: BIRD_H,
                width: BIRD_W,
            },
            pipe1: Pipe {
                x: PIPE_X1_START,
                y: GAP_START,
                height: crate::pipe::PIPE_H,
                width: crate::pipe::PIPE_W,
                distance: crate::pipe::PIPE_GAP,
                speed: 0,
            },
            pipe2: Pipe {
                x: PIPE_X2_START,
                y: GAP_START,
                height: crate::pipe::PIPE_H,
                width: crate::pipe::PIPE_W,
                distance: crate::pipe::PIPE_GAP,
                speed: 0,
            },
            move_pipe: true,
            take_input: true,
            check_colision: true,
            point_given: true,
            show_game_over: false,
            stop_frame: 0,
            frame_no: 0,
            score: 0,
            basex: 0,
        }
    }

    /// One frame of the whole game, in the order the frame loop runs it:
    /// pipes recycle and scroll, the bird integrates and animates, an
    /// accepted input fires the impulse, the score pulse is checked, then
    /// collisions, then a due round reset; the frame counter advances
    /// last. Returns the audio cues the frame fired.
    #[verifier::rlimit(60)]
    pub fn step(&mut self, jump_input: bool) -> (cues: Cues)
        requires
            old(self).wf(),
            old(self).frame_no + 151 <= u64::MAX,
        ensures
            final(self).wf(),
            gap_ok(old(self).pipe1, final(self).pipe1.y),
            gap_ok(old(self).pipe2, final(self).pipe2.y),
            *final(self) == step_spec(
                *old(self),
                jump_input,
                final(self).pipe1.y,
                final(self).pipe2.y,
            ),
            cues == cues_spec(*old(self), jump_input, final(self).pipe1.y, final(self).pipe2.y),
            // From WAITING (or RUNNING), an accepted upward input arms
            // gravity and the impulse and sets both pipes scrolling.
            jump_input && old(self).take_input ==> final(self).bird.speed == JUMP_SPEED
                && final(self).bird.accel == GRAVITY && final(self).pipe1.speed == PIPE_SPEED
                && final(self).pipe2.speed == PIPE_SPEED,
            // From RUNNING, a collision freezes the round and schedules the
            // reset exactly STOP_DELAY frames ahead.
            hit_spec(*old(self), jump_input, final(self).pipe1.y, final(self).pipe2.y) ==> (
            !final(self).move_pipe && !final(self).take_input && !final(self).check_colision
                && final(self).show_game_over && !final(self).point_given && final(self).score == 0
                && final(self).stop_frame == old(self).frame_no + STOP_DELAY),
            // From the game-over freeze, reaching the scheduled frame
            // restores every entity to its documented start value.
            !old(self).check_colision && old(self).frame_no == old(self).stop_frame ==> (
            final(self).move_pipe && final(self).take_input && final(self).check_colision
                && final(self).point_given && !final(self).show_game_over
                && final(self).stop_frame == 0 && final(self).frame_no == 1
                && final(self).bird.y == BIRD_Y0 && final(self).bird.speed == 0
                && final(self).bird.accel == 0 && final(self).pipe1.x == PIPE_X1_START
                && final(self).pipe2.x == PIPE_X2_START && final(self).pipe1.speed == 0
                && final(self).pipe2.speed == 0),
    {
        let ghost s0 = *self;
        proof {
            if s0.bird.speed <= 0 {
                lemma_rise_bound(s0.bird.speed as int);
            }
        }
        let moving = self.move_pipe;
        self.pipe1.advance(moving);
        self.pipe2.advance(moving);
        self.bird.advance();
        if moving {
            self.basex = self.basex - self.pipe1.speed;
            if self.frame_no % SPRITE_PERIOD == 0 {
                self.bird.state = self.bird.state + 1;
            }
        }
        if self.bird.state > 2 {
            self.bird.state = 0;
        }
        let wing = jump_input && self.take_input;
        if wing {
            self.bird.speed = JUMP_SPEED;
            self.bird.accel = GRAVITY;
            self.pipe1.speed = PIPE_SPEED;
            self.pipe2.speed = PIPE_SPEED;
        }
        if self.basex < BASE_WRAP {
            self.basex = 0;
        }
        let mut point = false;
        if self.point_given && self.frame_no > SCORE_WARMUP && self.pipe1.speed > 0 {
            let sp = self.pipe1.speed as u64;
            let period = ((SCREEN_W as u64) / sp + SCORE_SPACING as u64) * 10 / sp;
            if period > 0 && self.frame_no % period == 0 {
                self.score = self.score + 1;
                point = true;
            }
        }
        let mut hit = false;
        if self.check_colision && (is_colision(&self.pipe1, &self.bird) || is_colision(
            &self.pipe2,
            &self.bird,
        )) {
            hit = true;
            self.move_pipe = false;
            self.take_input = false;
            self.stop_frame = self.frame_no + STOP_DELAY;
            self.check_colision = false;
            self.point_given = false;
            self.show_game_over = true;
            self.score = 0;
        }
        if !self.check_colision && self.frame_no == self.stop_frame {
            self.frame_no = 0;
            self.stop_frame = 0;
            self.move_pipe = true;
            self.take_input = true;
            self.pipe1.x = PIPE_X1_START;
            self.pipe2.x = PIPE_X2_START;
            self.bird.speed = 0;
            self.bird.y = BIRD_Y0;
            self.check_colision = true;
            self.point_given = true;
            self.pipe1.speed = 0;
            self.pipe2.speed = 0;
            self.bird.accel = 0;
            self.show_game_over = false;
        }
        self.frame_no = self.frame_no + 1;
        proof {
            let s = s0.bird.speed as int;
            let b1 = bird_advanced(s0.bird);
            let sf = self.bird.speed as int;
            if sf <= 0 {
                lemma_rise_bound(sf);
                assert(sf * sf <= 3600) by (nonlinear_arith)
                    requires
                        -60 <= sf <= 0,
                ;
            } else {
                assert(rise(sf) == 0);
            }
            if !s0.check_colision && s0.frame_no != s0.stop_frame && s < 0 {
                assert(rise(s) == -s + rise(s + 3));
                assert(b1.y == s0.bird.y + s);
                assert(b1.speed == s + 3);
            }
        }
        Cues { wing, point, hit, die: hit }
    }
}

} // verus!
