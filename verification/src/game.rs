//! The simulation driver: owns the two paddles, the ball and the scoreboard,
//! consumes directional input events, and advances one tick at a time.

use vstd::prelude::*;
use crate::ball::{Ball, ScoreBoard, collision_applied, motion_applied, respawned_at_center};
use crate::config::Config;
use crate::pad::{Pad, PadDirection, pad_stepped};

verus! {

#[derive(Clone, Copy, PartialEq, Eq, Structural, Debug)]
pub enum Player {
    One,
    Two,
}

/// The two directions a directional input event can carry.
#[derive(Clone, Copy, PartialEq, Eq, Structural, Debug)]
pub enum InputDirection {
    Up,
    Down,
}

pub open spec fn as_pad_direction(d: InputDirection) -> PadDirection {
    match d {
        InputDirection::Up => PadDirection::Up,
        InputDirection::Down => PadDirection::Down,
    }
}

/// The driver's whole state. It exclusively owns both paddles, the ball and
/// the scoreboard; the ball sees the paddles read-only during its collision
/// phase and the scoreboard mutably during its scoring phase.
pub struct GameState {
    pub config: Config,
    pub pad_one: Pad,
    pub pad_two: Pad,
    pub ball: Ball,
    pub scoreboard: ScoreBoard,
}

impl GameState {
    pub open spec fn wf(self) -> bool {
        &&& self.config.wf()
        &&& self.pad_one.wf()
        &&& self.pad_two.wf()
        &&& self.ball.wf()
    }

    /// A fresh session: both paddles still at their starting positions, the
    /// scoreboard at zero, and the ball respawned at the center with a
    /// random trajectory.
    pub fn new(cfg: Config) -> (r: GameState)
        requires
            cfg.wf(),
        ensures
            r.wf(),
            r.config == cfg,
            r.pad_one.pos == cfg.pad_one_start,
            r.pad_one.size == cfg.pad_size,
            r.pad_one.direction == PadDirection::Still,
            r.pad_two.pos == cfg.pad_two_start,
            r.pad_two.size == cfg.pad_size,
            r.pad_two.direction == PadDirection::Still,
            respawned_at_center(cfg, cfg.ball_size, r.ball),
            r.scoreboard == (ScoreBoard { pad_one_score: 0, pad_two_score: 0 }),
    {
        let mut ball = Ball::new(cfg.ball_start, cfg.ball_size);
        ball.spawn_in_middle(&cfg);
        GameState {
            config: cfg,
            pad_one: Pad::new(cfg.pad_one_start, cfg.pad_size),
            pad_two: Pad::new(cfg.pad_two_start, cfg.pad_size),
            ball,
            scoreboard: ScoreBoard { pad_one_score: 0, pad_two_score: 0 },
        }
    }

    /// A key was pressed: the named player's paddle takes that direction
    /// unconditionally. Nothing else changes.
    pub fn key_down(&mut self, player: Player, dir: InputDirection)
        ensures
            final(self).config == old(self).config,
            final(self).ball == old(self).ball,
            final(self).scoreboard == old(self).scoreboard,
            player == Player::One ==> final(self).pad_one == (Pad {
                direction: as_pad_direction(dir),
                ..old(self).pad_one
            }) && final(self).pad_two == old(self).pad_two,
            player == Player::Two ==> final(self).pad_two == (Pad {
                direction: as_pad_direction(dir),
                ..old(self).pad_two
            }) && final(self).pad_one == old(self).pad_one,
    {
        let d = match dir {
            InputDirection::Up => PadDirection::Up,
            InputDirection::Down => PadDirection::Down,
        };
        match player {
            Player::One => self.pad_one.direction = d,
            Player::Two => self.pad_two.direction = d,
        }
    }

    /// A key was released: the named player's paddle goes still only if it
    /// currently holds the released direction, so releasing a key never
    /// cancels a later-pressed opposite key. Nothing else changes.
    pub fn key_up(&mut self, player: Player, dir: InputDirection)
        ensures
            final(self).config == old(self).config,
            final(self).ball == old(self).ball,
            final(self).scoreboard == old(self).scoreboard,
            player == Player::One ==> final(self).pad_two == old(self).pad_two && (if old(
                self,
            ).pad_one.direction == as_pad_direction(dir) {
                final(self).pad_one == (Pad { direction: PadDirection::Still, ..old(self).pad_one })
            } else {
                final(self).pad_one == old(self).pad_one
            }),
            player == Player::Two ==> final(self).pad_one == old(self).pad_one && (if old(
                self,
            ).pad_two.direction == as_pad_direction(dir) {
                final(self).pad_two == (Pad { direction: PadDirection::Still, ..old(self).pad_two })
            } else {
                final(self).pad_two == old(self).pad_two
            }),
    {
        let d = match dir {
            InputDirection::Up => PadDirection::Up,
            InputDirection::Down => PadDirection::Down,
        };
        match player {
            Player::One => {
                if self.pad_one.direction == d {
                    self.pad_one.direction = PadDirection::Still;
                }
            }
            Player::Two => {
                if self.pad_two.direction == d {
                    self.pad_two.direction = PadDirection::Still;
                }
            }
        }
    }

    /// The first phase of a tick: advance both paddles, then resolve the
    /// ball's collision against the list (first paddle, second paddle). The
    /// ball's angle now carries the trajectory of this tick; the caller
    /// projects it and finishes the tick with `tick_motion`. Returns the
    /// index of the paddle that was hit, if any.
    pub fn tick_collision(&mut self) -> (r: Option<u32>)
        requires
            old(self).wf(),
        ensures
            final(self).wf(),
            final(self).config == old(self).config,
            final(self).scoreboard == old(self).scoreboard,
            pad_stepped(old(self).config, old(self).pad_one, final(self).pad_one),
            pad_stepped(old(self).config, old(self).pad_two, final(self).pad_two),
            collision_applied(
                old(self).ball,
                seq![final(self).pad_one, final(self).pad_two],
                final(self).ball,
                r,
            ),
    {
        self.pad_one.update(&self.config);
        self.pad_two.update(&self.config);
        let mut pads: Vec<Pad> = Vec::new();
        pads.push(self.pad_one);
        pads.push(self.pad_two);
        proof {
            assert(pads@ =~= seq![self.pad_one, self.pad_two]);
        }
        self.ball.collision_update(&pads)
    }

    /// The second phase of a tick: move the ball by the projection of its
    /// angle and settle scoring. Returns whether a score changed, so the
    /// caller can refresh any display text.
    pub fn tick_motion(&mut self, dx: i64, dy: i64) -> (score_changed: bool)
        requires
            old(self).wf(),
            -old(self).config.ball_speed <= dx <= old(self).config.ball_speed,
            -old(self).config.ball_speed <= dy <= old(self).config.ball_speed,
            old(self).scoreboard.pad_one_score < u32::MAX,
            old(self).scoreboard.pad_two_score < u32::MAX,
        ensures
            final(self).wf(),
            final(self).config == old(self).config,
            final(self).pad_one == old(self).pad_one,
            final(self).pad_two == old(self).pad_two,
            motion_applied(
                old(self).config,
                old(self).ball,
                dx as int,
                dy as int,
                old(self).scoreboard,
                final(self).ball,
                final(self).scoreboard,
                score_changed,
            ),
    {
        self.ball.motion_update(&self.config, dx, dy, &mut self.scoreboard)
    }
}

} // verus!
