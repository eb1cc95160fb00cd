//! Unit scenarios for the paddle, the ball's collision and motion phases,
//! and the respawn, all in milliunits (one screen unit = 1000).

use pong::ball::{Ball, BallDirection, ScoreBoard};
use pong::config::Config;
use pong::geom::{Position, Size};
use pong::pad::{run_updates, Pad, PadDirection};

fn standard_config() -> Config {
    Config::default()
}

fn standard_pad(x: i64, y: i64) -> Pad {
    Pad::new(Position { x, y }, Size { w: 10_000, h: 50_000 })
}

fn standard_ball(x: i64, y: i64) -> Ball {
    Ball::new(Position { x, y }, Size { w: 10_000, h: 10_000 })
}

#[test]
fn still_pad_in_band_never_moves() {
    let cfg = standard_config();
    let mut pad = standard_pad(20_000, 275_000);
    for _ in 0..10 {
        pad.update(&cfg);
        assert_eq!(pad.pos.y, 275_000);
        assert_eq!(pad.pos.x, 20_000);
    }
}

#[test]
fn still_pad_out_of_band_settles_after_one_tick() {
    // A still paddle parked below the band is pulled to the clamp bound by
    // the first tick and never moves again.
    let cfg = standard_config();
    let mut pad = standard_pad(20_000, -100_000);
    pad.update(&cfg);
    assert_eq!(pad.pos.y, -25_000);
    pad.update(&cfg);
    assert_eq!(pad.pos.y, -25_000);
}

#[test]
fn pad_moving_up_stops_at_lower_clamp() {
    let cfg = standard_config();
    let mut pad = standard_pad(20_000, 275_000);
    pad.direction = PadDirection::Up;
    // 275000 - 40 * 7500 == -25000 exactly; further ticks clamp there.
    for _ in 0..100 {
        pad.update(&cfg);
        assert!(pad.pos.y >= -25_000);
    }
    assert_eq!(pad.pos.y, -25_000);
}

#[test]
fn pad_moving_down_rests_at_upper_clamp() {
    let cfg = standard_config();
    let mut pad = standard_pad(770_000, 275_000);
    pad.direction = PadDirection::Down;
    for _ in 0..100 {
        pad.update(&cfg);
        assert!(pad.pos.y + 25_000 <= 600_000);
    }
    assert_eq!(pad.pos.y, 575_000);
}

#[test]
fn run_updates_reports_clamped_band() {
    let cfg = standard_config();
    let mut pad = standard_pad(20_000, 275_000);
    pad.direction = PadDirection::Up;
    run_updates(&mut pad, &cfg, 100);
    assert_eq!(pad.pos.y, -25_000);
    assert_eq!(pad.direction, PadDirection::Up);
}

#[test]
fn rightward_collision_repositions_to_pad_edge() {
    let mut ball = standard_ball(764_000, 295_000);
    let pads = vec![standard_pad(20_000, 275_000), standard_pad(770_000, 275_000)];
    let hit = ball.collision_update(&pads);
    assert_eq!(hit, Some(1));
    assert_eq!(ball.last_hit_index, 1);
    assert_eq!(ball.direction, BallDirection::Left);
    // x lands on the paddle's left edge minus the ball's width.
    assert_eq!(ball.pos.x, 760_000);
    assert_eq!(ball.pos.y, 295_000);
    // angle = -(112.5 - 45 * (20/50)) degrees = -94.5 degrees.
    assert_eq!(ball.angle, -94_500);
}

#[test]
fn collision_above_pad_center_line_steepens_angle() {
    // Ball top overlaps the paddle's upper edge: offset -5 units maps to
    // 112.5 + 4.5 degrees before the sign flip.
    let mut ball = standard_ball(764_000, 270_000);
    let pads = vec![standard_pad(770_000, 275_000)];
    let hit = ball.collision_update(&pads);
    assert_eq!(hit, Some(0));
    assert_eq!(ball.angle, -117_000);
    assert_eq!(ball.direction, BallDirection::Left);
}

#[test]
fn leftward_collision_doubles_pad_x() {
    // The leftward bounce repositions x to twice the paddle's x-coordinate
    // rather than its right edge; a known-odd rule of the game, kept as it
    // stands.
    let mut ball = standard_ball(22_000, 295_000);
    ball.direction = BallDirection::Left;
    let pads = vec![standard_pad(20_000, 275_000)];
    let hit = ball.collision_update(&pads);
    assert_eq!(hit, Some(0));
    assert_eq!(ball.direction, BallDirection::Right);
    assert_eq!(ball.pos.x, 40_000);
    // angle = 112.5 - 45 * (20/50) = 94.5 degrees, no sign flip.
    assert_eq!(ball.angle, 94_500);
}

#[test]
fn no_collision_leaves_ball_unchanged() {
    let mut ball = standard_ball(400_000, 300_000);
    let before = ball;
    let pads = vec![standard_pad(20_000, 275_000), standard_pad(770_000, 275_000)];
    let hit = ball.collision_update(&pads);
    assert_eq!(hit, None);
    assert_eq!(ball, before);
}

#[test]
fn first_overlapping_pad_wins() {
    // Two overlapping paddles at the same spot: the first in list order is
    // recorded.
    let mut ball = standard_ball(764_000, 295_000);
    let pads = vec![standard_pad(770_000, 275_000), standard_pad(770_000, 275_000)];
    let hit = ball.collision_update(&pads);
    assert_eq!(hit, Some(0));
    assert_eq!(ball.last_hit_index, 0);
}

#[test]
fn right_exit_with_blame_zero_scores_pad_two() {
    let cfg = standard_config();
    let mut ball = standard_ball(845_000, 295_000);
    let mut sb = ScoreBoard { pad_one_score: 0, pad_two_score: 0 };
    let changed = ball.motion_update(&cfg, 9_000, 0, &mut sb);
    assert!(changed);
    assert_eq!(sb.pad_two_score, 1);
    assert_eq!(sb.pad_one_score, 0);
    // Respawn state: screen center offset by half the ball's extent.
    assert_eq!(ball.pos, Position { x: 395_000, y: 295_000 });
    assert!(60_000 <= ball.angle.abs() && ball.angle.abs() < 120_000);
}

#[test]
fn left_exit_with_blame_one_scores_pad_one() {
    let cfg = standard_config();
    let mut ball = standard_ball(-52_000, 295_000);
    ball.direction = BallDirection::Left;
    ball.last_hit_index = 1;
    let mut sb = ScoreBoard { pad_one_score: 3, pad_two_score: 7 };
    let changed = ball.motion_update(&cfg, -9_000, 0, &mut sb);
    assert!(changed);
    assert_eq!(sb.pad_one_score, 4);
    assert_eq!(sb.pad_two_score, 7);
    assert_eq!(ball.pos, Position { x: 395_000, y: 295_000 });
}

#[test]
fn bottom_exit_uses_same_attribution() {
    // A vertical exit blames by the same rule as a horizontal one.
    let cfg = standard_config();
    let mut ball = standard_ball(400_000, 615_000);
    let mut sb = ScoreBoard { pad_one_score: 0, pad_two_score: 0 };
    let changed = ball.motion_update(&cfg, 0, 9_000, &mut sb);
    assert!(changed);
    assert_eq!(sb.pad_two_score, 1);
    assert_eq!(sb.pad_one_score, 0);
}

#[test]
fn top_exit_with_blame_one_scores_pad_one() {
    let cfg = standard_config();
    let mut ball = standard_ball(400_000, -25_000);
    ball.last_hit_index = 1;
    let mut sb = ScoreBoard { pad_one_score: 0, pad_two_score: 0 };
    let changed = ball.motion_update(&cfg, 0, -9_000, &mut sb);
    assert!(changed);
    assert_eq!(sb.pad_one_score, 1);
    assert_eq!(sb.pad_two_score, 0);
}

#[test]
fn ball_inside_margins_never_scores() {
    let cfg = standard_config();
    let mut ball = standard_ball(400_000, 300_000);
    let mut sb = ScoreBoard { pad_one_score: 2, pad_two_score: 5 };
    let changed = ball.motion_update(&cfg, 9_000, -2_000, &mut sb);
    assert!(!changed);
    assert_eq!(ball.pos, Position { x: 409_000, y: 298_000 });
    assert_eq!(sb, ScoreBoard { pad_one_score: 2, pad_two_score: 5 });
    assert_eq!(ball.angle, 90_000);
    assert_eq!(ball.direction, BallDirection::Right);
}

#[test]
fn ball_just_inside_margin_does_not_score() {
    // x = 849 units after the move: within the +50 margin, no score.
    let cfg = standard_config();
    let mut ball = standard_ball(840_000, 295_000);
    let mut sb = ScoreBoard { pad_one_score: 0, pad_two_score: 0 };
    let changed = ball.motion_update(&cfg, 9_000, 0, &mut sb);
    assert!(!changed);
    assert_eq!(ball.pos.x, 849_000);
    assert_eq!(sb, ScoreBoard { pad_one_score: 0, pad_two_score: 0 });
}

#[test]
fn spawn_from_left_coin_negates_angle_and_blames_two() {
    let cfg = standard_config();
    let mut ball = standard_ball(100_000, 100_000);
    ball.spawn_from(&cfg, 75_000, true);
    assert_eq!(ball.pos, Position { x: 395_000, y: 295_000 });
    assert_eq!(ball.direction, BallDirection::Left);
    assert_eq!(ball.angle, -75_000);
    assert_eq!(ball.last_hit_index, 1);
}

#[test]
fn spawn_from_right_coin_keeps_angle_and_blames_one() {
    let cfg = standard_config();
    let mut ball = standard_ball(100_000, 100_000);
    ball.spawn_from(&cfg, 61_000, false);
    assert_eq!(ball.direction, BallDirection::Right);
    assert_eq!(ball.angle, 61_000);
    assert_eq!(ball.last_hit_index, 0);
}

#[test]
fn spawn_in_middle_draws_bounded_angle() {
    let cfg = standard_config();
    let mut ball = standard_ball(0, 0);
    for _ in 0..50 {
        ball.spawn_in_middle(&cfg);
        assert_eq!(ball.pos, Position { x: 395_000, y: 295_000 });
        let a = ball.angle;
        match ball.direction {
            BallDirection::Left => {
                assert_eq!(ball.last_hit_index, 1);
                assert!(-120_000 < a && a <= -60_000);
            }
            BallDirection::Right => {
                assert_eq!(ball.last_hit_index, 0);
                assert!(60_000 <= a && a < 120_000);
            }
        }
    }
}

#[test]
fn empty_pad_list_never_collides() {
    let mut ball = standard_ball(400_000, 300_000);
    let before = ball;
    let pads: Vec<Pad> = vec![];
    assert_eq!(ball.collision_update(&pads), None);
    assert_eq!(ball, before);
}

#[test]
fn touching_edges_do_not_overlap() {
    // The overlap test is strict: a ball whose right edge rests exactly on
    // the paddle's left edge has not collided yet.
    let mut ball = standard_ball(760_000, 295_000);
    let pads = vec![standard_pad(770_000, 275_000)];
    assert_eq!(ball.collision_update(&pads), None);
}

#[test]
fn upper_clamp_is_asymmetric() {
    // The upper clamp fires only once y + h exceeds the screen height plus
    // half the paddle height, and then rests the paddle at h/2 below it.
    let cfg = standard_config();
    let mut pad = standard_pad(20_000, 575_000);
    pad.update(&cfg);
    assert_eq!(pad.pos.y, 575_000);
    pad.pos.y = 576_000;
    pad.update(&cfg);
    assert_eq!(pad.pos.y, 575_000);
}
