use flappy_core::bird::Bird;
use flappy_core::bird::tilt_angle;
use flappy_core::bird::BIRD_H;
use flappy_core::bird::BIRD_W;
use flappy_core::bird::BIRD_X;
use flappy_core::collision::is_colision;
use flappy_core::game::GameState;
use flappy_core::pipe::Pipe;
use flappy_core::pipe::GAP_MAX;
use flappy_core::pipe::GAP_MIN;
use flappy_core::pipe::PIPE_RESET_X;

fn test_bird(y: i32) -> Bird {
    Bird { x: BIRD_X, y, state: 0, angle: 0, speed: 0, accel: 0, height: BIRD_H, width: BIRD_W }
}

fn test_pipe(x: i32, gap_y: i32) -> Pipe {
    Pipe { x, y: gap_y, height: 3200, width: 520, distance: 1000, speed: 30 }
}

#[test]
fn tilt_zero_at_rest() {
    assert_eq!(tilt_angle(0), 0);
}

#[test]
fn tilt_exact_small_values() {
    // 1000 * 1.014 floored per step of one tenth of velocity
    assert_eq!(tilt_angle(1), 14);
    assert_eq!(tilt_angle(2), 28);
    assert_eq!(tilt_angle(3), 42);
    assert_eq!(tilt_angle(-1), -14);
    assert_eq!(tilt_angle(-3), -42);
}

#[test]
fn tilt_exact_at_jump_and_terminal() {
    // 1590 milliradians at the terminal velocity, about 1.15^7 - 1
    assert_eq!(tilt_angle(70), 1590);
    assert_eq!(tilt_angle(-60), -1259);
}

#[test]
fn tilt_monotone_over_velocity_range() {
    let mut prev = tilt_angle(-70);
    let mut v: i32 = -69;
    while v <= 70 {
        let a = tilt_angle(v);
        assert!(a >= prev, "tilt must not decrease at v={}", v);
        prev = a;
        v += 1;
    }
    assert!(tilt_angle(70) > 0);
}

#[test]
fn bird_advance_integrates_one_step() {
    let mut b = test_bird(2060);
    b.speed = -60;
    b.accel = 3;
    b.advance();
    assert_eq!(b.y, 2000);
    assert_eq!(b.speed, -57);
    assert_eq!(b.angle, tilt_angle(-57));
    assert!(b.angle < 0);
}

#[test]
fn bird_clamps_to_ground_line() {
    let mut b = test_bird(3750);
    b.speed = 70;
    b.accel = 3;
    b.advance();
    assert_eq!(b.y, 3760);
    assert_eq!(b.speed, 70);
}

#[test]
fn bird_speed_caps_at_terminal() {
    let mut b = test_bird(1000);
    b.speed = 69;
    b.accel = 3;
    b.advance();
    assert_eq!(b.speed, 70);
    assert_eq!(b.y, 1069);
}

#[test]
fn colision_reported_at_ground() {
    // the ground line for the standard bird: 5120 - 1120 - 240 tenths
    let b = test_bird(3760);
    let p = test_pipe(4580, -1000);
    assert!(is_colision(&p, &b));
}

#[test]
fn colision_reported_above_screen_top() {
    let b = test_bird(-10);
    let p = test_pipe(4580, -1000);
    assert!(is_colision(&p, &b));
}

#[test]
fn no_colision_inside_gap() {
    // pipe overlapping the bird horizontally; gap spans 2200..3200
    let b = test_bird(2500);
    let p = test_pipe(1300, -1000);
    assert!(!is_colision(&p, &b));
}

#[test]
fn colision_above_gap_when_overlapping() {
    let b = test_bird(2100);
    let p = test_pipe(1300, -1000);
    assert!(is_colision(&p, &b));
}

#[test]
fn colision_below_gap_when_overlapping() {
    let b = test_bird(3300);
    let p = test_pipe(1300, -1000);
    assert!(is_colision(&p, &b));
}

#[test]
fn gap_edges_do_not_collide() {
    // exactly on the gap's bounds: out-of-gap needs strict inequality
    let p = test_pipe(1300, -1000);
    assert!(!is_colision(&p, &test_bird(2200)));
    assert!(!is_colision(&p, &test_bird(3200)));
}

#[test]
fn horizontal_touch_is_not_overlap() {
    // the bird's right edge exactly meets the pipe's left edge
    let b = test_bird(2100);
    assert!(!is_colision(&test_pipe(1600, -1000), &b));
    // one tenth closer and the extents overlap, above the gap
    assert!(is_colision(&test_pipe(1599, -1000), &b));
}

#[test]
fn no_colision_when_horizontally_clear() {
    let b = test_bird(2100);
    // same vertical position as the colliding case, but the pipe is far right
    let p = test_pipe(4580, -1000);
    assert!(!is_colision(&p, &b));
    let far_left = test_pipe(-300, -2380);
    assert!(!is_colision(&far_left, &b));
}

#[test]
fn pipe_recycles_past_left_edge() {
    // one tenth further left than its own width
    let mut p = test_pipe(-521, -1000);
    p.advance(false);
    assert_eq!(p.x, PIPE_RESET_X);
    assert!(p.y >= GAP_MIN && p.y <= GAP_MAX);
}

#[test]
fn pipe_recycle_then_scroll() {
    let mut p = test_pipe(-530, -1000);
    p.advance(true);
    assert_eq!(p.x, PIPE_RESET_X - 30);
    assert!(p.y >= GAP_MIN && p.y <= GAP_MAX);
}

#[test]
fn pipe_scrolls_left_keeping_gap() {
    let mut p = test_pipe(4580, -700);
    p.advance(true);
    assert_eq!(p.x, 4550);
    assert_eq!(p.y, -700);
}

#[test]
fn pipe_static_without_move_flag() {
    let mut p = test_pipe(4580, -700);
    p.advance(false);
    assert_eq!(p.x, 4580);
    assert_eq!(p.y, -700);
}

#[test]
fn pipe_gap_always_drawn_in_range() {
    let mut p = test_pipe(-600, -1000);
    for _ in 0..50 {
        p.advance(false);
        assert_eq!(p.x, PIPE_RESET_X);
        assert!(p.y >= GAP_MIN && p.y <= GAP_MAX);
        p.x = -600;
    }
}

#[test]
fn new_game_starts_waiting() {
    let s = GameState::new();
    assert_eq!(s.bird.y, 2060);
    assert_eq!(s.bird.speed, 0);
    assert_eq!(s.bird.accel, 0);
    assert_eq!(s.pipe1.x, 4580);
    assert_eq!(s.pipe2.x, 6280);
    assert_eq!(s.pipe1.speed, 0);
    assert_eq!(s.pipe2.speed, 0);
    assert_eq!(s.score, 0);
    assert_eq!(s.frame_no, 0);
    assert!(s.take_input && s.move_pipe && s.check_colision);
    assert!(!s.show_game_over);
}

#[test]
fn jump_starts_running_within_one_frame() {
    let mut s = GameState::new();
    let cues = s.step(true);
    assert!(cues.wing);
    assert_eq!(s.bird.accel, 3);
    assert_eq!(s.bird.speed, -60);
    assert_eq!(s.pipe1.speed, 30);
    assert_eq!(s.pipe2.speed, 30);
    assert_eq!(s.frame_no, 1);
}

#[test]
fn pipes_and_ground_scroll_once_running() {
    let mut s = GameState::new();
    s.step(true);
    // the impulse frame itself still saw the waiting speeds
    assert_eq!(s.pipe1.x, 4580);
    assert_eq!(s.basex, 0);
    s.step(false);
    assert_eq!(s.pipe1.x, 4550);
    assert_eq!(s.pipe2.x, 6250);
    assert_eq!(s.basex, -30);
}

#[test]
fn velocity_ramp_integrates_for_fifty_frames() {
    let mut s = GameState::new();
    s.step(true);
    assert_eq!(s.bird.y, 2060);
    assert_eq!(s.bird.speed, -60);
    for _ in 0..49 {
        s.step(false);
    }
    // closed-form integration of the clamped ramp, done independently
    let mut y: i32 = 2060;
    let mut v: i32 = -60;
    for _ in 0..49 {
        y = std::cmp::min(y + v, 3760);
        v = std::cmp::min(v + 3, 70);
    }
    assert_eq!(s.bird.y, y);
    assert_eq!(s.bird.speed, v);
    assert!(s.check_colision, "the bird must still be airborne");
}

#[test]
fn ground_strike_freezes_round_and_schedules_reset() {
    let mut s = GameState::new();
    s.step(true);
    let mut steps = 0;
    while s.check_colision && steps < 1000 {
        let frame_before = s.frame_no;
        let cues = s.step(false);
        if cues.hit {
            assert!(cues.die);
            assert_eq!(s.stop_frame, frame_before + 150);
        }
        steps += 1;
    }
    assert!(!s.check_colision, "the untouched bird must strike the ground");
    assert!(s.show_game_over);
    assert!(!s.take_input);
    assert!(!s.move_pipe);
    assert!(!s.point_given);
    assert_eq!(s.score, 0);
}

#[test]
fn freeze_expires_back_to_waiting() {
    let mut s = GameState::new();
    s.step(true);
    let mut steps = 0;
    while s.check_colision && steps < 1000 {
        s.step(false);
        steps += 1;
    }
    let mut frozen = 0;
    while !s.check_colision && frozen < 400 {
        s.step(false);
        frozen += 1;
    }
    assert_eq!(frozen, 150, "the freeze must last exactly the configured delay");
    assert_eq!(s.frame_no, 1);
    assert_eq!(s.stop_frame, 0);
    assert_eq!(s.bird.y, 2060);
    assert_eq!(s.bird.speed, 0);
    assert_eq!(s.bird.accel, 0);
    assert_eq!(s.pipe1.x, 4580);
    assert_eq!(s.pipe2.x, 6280);
    assert_eq!(s.pipe1.speed, 0);
    assert_eq!(s.pipe2.speed, 0);
    assert!(s.take_input && s.move_pipe && s.point_given);
    assert!(!s.show_game_over);
}

#[test]
fn score_pulses_on_cadence_grid() {
    // a running round past the warm-up, exactly on the 58-frame grid
    let mut s = GameState::new();
    s.bird.accel = 3;
    s.pipe1.speed = 30;
    s.pipe2.speed = 30;
    s.frame_no = 116;
    s.score = 5;
    let cues = s.step(false);
    assert!(cues.point);
    assert_eq!(s.score, 6);
}

#[test]
fn no_score_off_cadence_grid() {
    let mut s = GameState::new();
    s.bird.accel = 3;
    s.pipe1.speed = 30;
    s.pipe2.speed = 30;
    s.frame_no = 117;
    let cues = s.step(false);
    assert!(!cues.point);
    assert_eq!(s.score, 0);
}

#[test]
fn no_score_while_pipes_stand_still() {
    // zero pipe speed: the cadence division is guarded, nothing is awarded
    let mut s = GameState::new();
    s.frame_no = 116;
    let cues = s.step(false);
    assert!(!cues.point);
    assert_eq!(s.score, 0);
}

#[test]
fn sprite_frame_cycles_while_moving() {
    let mut s = GameState::new();
    s.step(false);
    assert_eq!(s.bird.state, 1);
    assert_eq!(s.bird.angle, 0);
    for _ in 0..21 {
        s.step(false);
    }
    assert!(s.bird.state <= 2);
}
