//! The ball: angle-driven motion, paddle collision with angle-based bounce,
//! out-of-bounds scoring, and randomized respawn.
//!
//! A full tick of the game is the pair: `collision_update`, then
//! `motion_update` with the displacement `(sin(angle) * speed, cos(angle) *
//! speed)` of the angle that the collision phase left behind. That projection
//! is trigonometric, so the embedding layer computes it and hands the two
//! milliunit components to `motion_update`.

use vstd::prelude::*;
use crate::config::{BALL_POS_LIMIT, Config, X_EXIT_MARGIN, Y_EXIT_MARGIN, size_wf};
use crate::geom::{Position, Size, boxes_overlap, div_toward_zero, div_trunc, rects_overlap};
use crate::pad::Pad;
use rand::Rng;

verus! {

/// The ball's horizontal travel sense. Vertical motion is encoded in the
/// angle alone.
#[derive(Clone, Copy, PartialEq, Eq, Structural, Debug)]
pub enum BallDirection {
    Left,
    Right,
}

#[derive(Clone, Copy, PartialEq, Eq, Structural, Debug)]
pub struct Ball {
    pub pos: Position,
    /// Constant over the ball's lifetime.
    pub size: Size,
    /// Travel angle in millidegrees; its sign carries the horizontal sense.
    pub angle: i64,
    pub direction: BallDirection,
    /// 0 when the first (left) paddle touched the ball last, 1 when the
    /// second (right) one did; scoring blames the side this names.
    pub last_hit_index: u32,
}

/// The two counters of the running score.
#[derive(Clone, Copy, PartialEq, Eq, Structural, Debug)]
pub struct ScoreBoard {
    pub pad_one_score: u32,
    pub pad_two_score: u32,
}

impl Ball {
    pub open spec fn wf(self) -> bool {
        &&& -BALL_POS_LIMIT <= self.pos.x <= BALL_POS_LIMIT
        &&& -BALL_POS_LIMIT <= self.pos.y <= BALL_POS_LIMIT
        &&& size_wf(self.size)
    }

    pub fn new(pos: Position, size: Size) -> (r: Ball)
        ensures
            r.pos == pos,
            r.size == size,
            r.angle == 90_000,
            r.direction == BallDirection::Right,
            r.last_hit_index == 0,
    {
        Ball { pos, size, angle: 90_000, direction: BallDirection::Right, last_hit_index: 0 }
    }
}

pub open spec fn ball_overlaps_pad(b: Ball, p: Pad) -> bool {
    rects_overlap(b.pos, b.size, p.pos, p.size)
}

/// The index of the first paddle, from `i` on, whose rectangle overlaps the
/// ball's; the first overlapping paddle wins, with no multi-paddle
/// resolution in one tick.
pub open spec fn first_hit_from(b: Ball, pads: Seq<Pad>, i: int) -> Option<int>
    decreases pads.len() - i,
{
    if i < 0 || i >= pads.len() {
        None
    } else if ball_overlaps_pad(b, pads[i]) {
        Some(i)
    } else {
        first_hit_from(b, pads, i + 1)
    }
}

pub open spec fn first_hit(b: Ball, pads: Seq<Pad>) -> Option<int> {
    first_hit_from(b, pads, 0)
}

/// The outgoing angle of a bounce, before any sign flip: a linear mapping of
/// the ball's vertical offset within the paddle to an angle around 112.5
/// degrees, steeper toward the paddle's ends. In millidegrees:
/// `112500 - 45000 * (ball.y - pad.y) / pad.h`, the division truncating
/// toward zero.
pub open spec fn bounce_angle_of(b: Ball, p: Pad) -> int {
    112_500 - div_toward_zero(45_000 * (b.pos.y - p.pos.y), p.size.h as int)
}

/// Relates the ball before the collision phase to the ball after it, given
/// the paddle list of that tick and the returned hit index.
pub open spec fn collision_applied(b0: Ball, pads: Seq<Pad>, b1: Ball, r: Option<u32>) -> bool {
    &&& b1.size == b0.size
    &&& b1.pos.y == b0.pos.y
    &&& match first_hit(b0, pads) {
        None => r is None && b1 == b0,
        Some(i) => {
            &&& r == Some(i as u32)
            &&& b1.last_hit_index == i as u32
            &&& (b0.direction == BallDirection::Right ==> {
                &&& b1.direction == BallDirection::Left
                &&& b1.angle == -bounce_angle_of(b0, pads[i])
                &&& b1.pos.x == pads[i].pos.x - b0.size.w
            })
            &&& (b0.direction == BallDirection::Left ==> {
                &&& b1.direction == BallDirection::Right
                &&& b1.angle == bounce_angle_of(b0, pads[i])
                &&& b1.pos.x == pads[i].pos.x + pads[i].pos.x
            })
        },
    }
}

/// Finds the first paddle in list order that the ball overlaps.
fn find_first_overlap(b: &Ball, pads: &Vec<Pad>) -> (r: Option<usize>)
    requires
        b.wf(),
        forall|j: int| 0 <= j < pads@.len() ==> (#[trigger] pads@[j]).wf(),
    ensures
        match r {
            None => first_hit(*b, pads@) is None,
            Some(i) => i < pads@.len() && first_hit(*b, pads@) == Some(i as int),
        },
{
    let n = pads.len();
    let mut i: usize = 0;
    while i < n
        invariant
            i <= n,
            n == pads@.len(),
            b.wf(),
            forall|j: int| 0 <= j < pads@.len() ==> (#[trigger] pads@[j]).wf(),
            first_hit(*b, pads@) == first_hit_from(*b, pads@, i as int),
        decreases n - i,
    {
        let p = pads[i];
        if boxes_overlap(b.pos, b.size, p.pos, p.size) {
            return Some(i);
        }
        i = i + 1;
    }
    None
}

impl Ball {
    /// The collision phase of a tick: test the ball against each paddle in
    /// list order; on the first overlap record that paddle as the last
    /// hitter, recompute the angle from the vertical offset within the
    /// paddle, flip the travel sense, and push the ball out of the paddle.
    /// Returns the index of the paddle that was hit, if any.
    pub fn collision_update(&mut self, pads: &Vec<Pad>) -> (r: Option<u32>)
        requires
            old(self).wf(),
            forall|j: int| 0 <= j < pads@.len() ==> (#[trigger] pads@[j]).wf(),
            pads@.len() <= u32::MAX,
        ensures
            final(self).wf(),
            collision_applied(*old(self), pads@, *final(self), r),
    {
        let snapshot: Ball = *self;
        let found = find_first_overlap(&snapshot, pads);
        match found {
            None => None,
            Some(i) => {
                let pad = pads[i];
                self.last_hit_index = i as u32;
                let dy_off = self.pos.y - pad.pos.y;
                let q = div_trunc(45_000 * dy_off, pad.size.h);
                let a = 112_500 - q;
                if self.direction == BallDirection::Right {
                    self.angle = -a;
                    self.direction = BallDirection::Left;
                    self.pos.x = pad.pos.x - self.size.w;
                } else {
                    self.direction = BallDirection::Right;
                    self.angle = a;
                    // The push-out doubles the paddle's x-coordinate; the
                    // established behaviour, kept as it stands.
                    self.pos.x = pad.pos.x + pad.pos.x;
                }
                Some(i as u32)
            }
        }
    }
}

/// Relies on `rand::Rng::gen_range` over the half-open integer range
/// `60_000..120_000`: the sample lies in that range ([low, high)), and the
/// call panics only on an empty range, which this one is not.
#[verifier::external_body]
fn random_angle_millidegrees() -> (r: i64)
    ensures
        60_000 <= r < 120_000,
{
    rand::thread_rng().gen_range(60_000i64..120_000i64)
}

/// Relies on `rand::random` for a coin flip; nothing is assumed of the
/// outcome.
#[verifier::external_body]
fn random_coin() -> (r: bool) {
    rand::random::<bool>()
}

/// Holds of a ball that was just respawned: it stands at the screen center
/// offset by half its own extent, and its travel sense, blame index and
/// angle sign agree: leftward with blame 1 and an angle in (-120, -60]
/// degrees, or rightward with blame 0 and an angle in [60, 120) degrees.
pub open spec fn respawned_at_center(cfg: Config, sz: Size, b: Ball) -> bool {
    &&& b.size == sz
    &&& b.pos.x == cfg.screen_width / 2 - sz.w / 2
    &&& b.pos.y == cfg.screen_height / 2 - sz.h / 2
    &&& (b.direction == BallDirection::Left ==> b.last_hit_index == 1 && -120_000 < b.angle <= -60_000)
    &&& (b.direction == BallDirection::Right ==> b.last_hit_index == 0 && 60_000 <= b.angle < 120_000)
}

/// The ball stands beyond the horizontal scoring margin.
pub open spec fn exited_horizontal(cfg: Config, x: int, w: int) -> bool {
    x > cfg.screen_width + X_EXIT_MARGIN || x + w < -X_EXIT_MARGIN
}

/// The ball stands beyond the vertical scoring margin.
pub open spec fn exited_vertical(cfg: Config, y: int, h: int) -> bool {
    y > cfg.screen_height + Y_EXIT_MARGIN || y + h < -Y_EXIT_MARGIN
}

/// Relates ball and scoreboard before the motion phase to their state after
/// it, given the displacement of the tick.
pub open spec fn motion_applied(
    cfg: Config,
    b0: Ball,
    dx: int,
    dy: int,
    s0: ScoreBoard,
    b1: Ball,
    s1: ScoreBoard,
    score_changed: bool,
) -> bool {
    let nx = b0.pos.x + dx;
    let ny = b0.pos.y + dy;
    let exited = exited_horizontal(cfg, nx, b0.size.w as int) || exited_vertical(
        cfg,
        ny,
        b0.size.h as int,
    );
    &&& b1.size == b0.size
    &&& score_changed == exited
    &&& (!exited ==> {
        &&& b1.pos.x == nx
        &&& b1.pos.y == ny
        &&& b1.angle == b0.angle
        &&& b1.direction == b0.direction
        &&& b1.last_hit_index == b0.last_hit_index
        &&& s1 == s0
    })
    &&& (exited ==> {
        &&& respawned_at_center(cfg, b0.size, b1)
        &&& (b0.last_hit_index == 0 ==> s1 == (ScoreBoard {
            pad_two_score: (s0.pad_two_score + 1) as u32,
            ..s0
        }))
        &&& (b0.last_hit_index != 0 ==> s1 == (ScoreBoard {
            pad_one_score: (s0.pad_one_score + 1) as u32,
            ..s0
        }))
    })
}

impl Ball {
    /// Reset the ball for a deterministic respawn: place it at the screen
    /// center offset by half its own extent, and take the drawn angle and
    /// coin. A left coin sends the ball leftward with the angle negated and
    /// blame on the second paddle; otherwise it travels rightward with blame
    /// on the first.
    pub fn spawn_from(&mut self, cfg: &Config, angle: i64, go_left: bool)
        requires
            size_wf(old(self).size),
            cfg.wf(),
            60_000 <= angle < 120_000,
        ensures
            final(self).wf(),
            final(self).size == old(self).size,
            respawned_at_center(*cfg, old(self).size, *final(self)),
            go_left ==> final(self).direction == BallDirection::Left && final(self).angle
                == -angle && final(self).last_hit_index == 1,
            !go_left ==> final(self).direction == BallDirection::Right && final(self).angle
                == angle && final(self).last_hit_index == 0,
    {
        let cx = div_trunc(cfg.screen_width, 2) - div_trunc(self.size.w, 2);
        let cy = div_trunc(cfg.screen_height, 2) - div_trunc(self.size.h, 2);
        self.pos = Position { x: cx, y: cy };
        if go_left {
            self.direction = BallDirection::Left;
            self.angle = -angle;
            self.last_hit_index = 1;
        } else {
            self.direction = BallDirection::Right;
            self.angle = angle;
            self.last_hit_index = 0;
        }
    }

    /// Respawn after a score: center the ball, draw a fresh angle uniformly
    /// from [60, 120) degrees, and flip a coin for the travel sense, which
    /// also seeds which side is blamed if the ball exits before any paddle
    /// contact.
    pub fn spawn_in_middle(&mut self, cfg: &Config)
        requires
            size_wf(old(self).size),
            cfg.wf(),
        ensures
            final(self).wf(),
            final(self).size == old(self).size,
            respawned_at_center(*cfg, old(self).size, *final(self)),
    {
        let angle = random_angle_millidegrees();
        let go_left = random_coin();
        self.spawn_from(cfg, angle, go_left);
    }

    /// The motion and scoring phase of a tick: displace the ball by the
    /// tick's displacement, then test the scoring margins. Beyond the
    /// horizontal or the vertical margin the side not blamed by
    /// `last_hit_index` scores one point and the ball respawns; otherwise
    /// nothing else changes. Returns whether a score changed.
    pub fn motion_update(
        &mut self,
        cfg: &Config,
        dx: i64,
        dy: i64,
        scoreboard: &mut ScoreBoard,
    ) -> (score_changed: bool)
        requires
            old(self).wf(),
            cfg.wf(),
            -cfg.ball_speed <= dx <= cfg.ball_speed,
            -cfg.ball_speed <= dy <= cfg.ball_speed,
            old(scoreboard).pad_one_score < u32::MAX,
            old(scoreboard).pad_two_score < u32::MAX,
        ensures
            final(self).wf(),
            motion_applied(
                *cfg,
                *old(self),
                dx as int,
                dy as int,
                *old(scoreboard),
                *final(self),
                *final(scoreboard),
                score_changed,
            ),
    {
        let nx = self.pos.x + dx;
        let ny = self.pos.y + dy;
        self.pos = Position { x: nx, y: ny };

        let out_horizontal = nx > cfg.screen_width + X_EXIT_MARGIN || nx + self.size.w
            < -X_EXIT_MARGIN;
        let out_vertical = ny > cfg.screen_height + Y_EXIT_MARGIN || ny + self.size.h
            < -Y_EXIT_MARGIN;
        if out_horizontal || out_vertical {
            if self.last_hit_index == 0 {
                scoreboard.pad_two_score = scoreboard.pad_two_score + 1;
            } else {
                scoreboard.pad_one_score = scoreboard.pad_one_score + 1;
            }
            self.spawn_in_middle(cfg);
            true
        } else {
            false
        }
    }
}

/// The counters never fall: a motion phase leaves the scoreboard untouched,
/// or raises exactly one counter by exactly one point.
pub proof fn lemma_score_monotonic(
    cfg: Config,
    b0: Ball,
    dx: int,
    dy: int,
    s0: ScoreBoard,
    b1: Ball,
    s1: ScoreBoard,
    changed: bool,
)
    requires
        s0.pad_one_score < u32::MAX,
        s0.pad_two_score < u32::MAX,
        motion_applied(cfg, b0, dx, dy, s0, b1, s1, changed),
    ensures
        s1.pad_one_score >= s0.pad_one_score,
        s1.pad_two_score >= s0.pad_two_score,
        s1.pad_one_score + s1.pad_two_score == s0.pad_one_score + s0.pad_two_score + (
        if changed {
            1int
        } else {
            0int
        }),
{
}

/// A ball that stays strictly inside the scoring margins - horizontally
/// within [-49, screen_width + 49] and vertically within
/// [-19, screen_height + 19] units, its own extent accounted for - has not
/// exited, so its motion phase reports no score and leaves the scoreboard
/// untouched.
pub proof fn lemma_no_false_scoring(cfg: Config, x: int, y: int, sz: Size)
    requires
        cfg.wf(),
        x <= cfg.screen_width + 49_000,
        x + sz.w >= -49_000,
        y <= cfg.screen_height + 19_000,
        y + sz.h >= -19_000,
    ensures
        !exited_horizontal(cfg, x, sz.w as int),
        !exited_vertical(cfg, y, sz.h as int),
{
}

} // verus!
