//! Fixed configuration of a session: speeds, screen extent, entity sizes and
//! starting positions, all in milliunits.

use vstd::prelude::*;
use crate::geom::{Position, Size};

verus! {

/// Milliunits per screen unit (and per degree of angle).
pub const UNIT: i64 = 1000;

/// Upper bound on configured extents, speeds and screen dimensions.
pub const DIM_LIMIT: i64 = 1_000_000_000;

/// Bound on paddle coordinates and configured starting positions.
pub const POS_LIMIT: i64 = 4_000_000_000;

/// Bound on ball coordinates; wider than `POS_LIMIT` because a bounce can
/// briefly place the ball at twice a paddle coordinate before the next
/// motion step resolves it.
pub const BALL_POS_LIMIT: i64 = 20_000_000_000;

/// Horizontal slack beyond the screen edge before an exit counts (50 units).
pub const X_EXIT_MARGIN: i64 = 50_000;

/// Vertical slack beyond the screen edge before an exit counts (20 units).
pub const Y_EXIT_MARGIN: i64 = 20_000;

pub open spec fn size_wf(s: Size) -> bool {
    &&& 0 < s.w <= DIM_LIMIT
    &&& 0 < s.h <= DIM_LIMIT
}

pub open spec fn pos_wf(p: Position) -> bool {
    &&& -POS_LIMIT <= p.x <= POS_LIMIT
    &&& -POS_LIMIT <= p.y <= POS_LIMIT
}

/// All constants of one session, fixed at construction.
#[derive(Clone, Copy, PartialEq, Eq, Structural, Debug)]
pub struct Config {
    /// Vertical paddle displacement per tick.
    pub pad_speed: i64,
    /// Ball displacement per tick along its travel vector.
    pub ball_speed: i64,
    pub screen_width: i64,
    pub screen_height: i64,
    pub pad_size: Size,
    pub ball_size: Size,
    pub pad_one_start: Position,
    pub pad_two_start: Position,
    pub ball_start: Position,
}

impl Config {
    pub open spec fn wf(self) -> bool {
        &&& 0 < self.pad_speed <= DIM_LIMIT
        &&& 0 < self.ball_speed <= DIM_LIMIT
        &&& 0 < self.screen_width <= DIM_LIMIT
        &&& 0 < self.screen_height <= DIM_LIMIT
        &&& size_wf(self.pad_size)
        &&& size_wf(self.ball_size)
        &&& pos_wf(self.pad_one_start)
        &&& pos_wf(self.pad_two_start)
        &&& pos_wf(self.ball_start)
    }
}

impl Default for Config {
    /// The standard session: paddle speed 7.5 units, ball speed 9 units,
    /// an 800 by 600 screen, 10 by 50 paddles starting at (20, 275) and
    /// (770, 275), and a 10 by 10 ball starting at (400, 300).
    fn default() -> (r: Config)
        ensures
            r.wf(),
            r.pad_speed == 7_500,
            r.ball_speed == 9_000,
            r.screen_width == 800_000,
            r.screen_height == 600_000,
            r.pad_size == (Size { w: 10_000, h: 50_000 }),
            r.ball_size == (Size { w: 10_000, h: 10_000 }),
            r.pad_one_start == (Position { x: 20_000, y: 275_000 }),
            r.pad_two_start == (Position { x: 770_000, y: 275_000 }),
            r.ball_start == (Position { x: 400_000, y: 300_000 }),
    {
        Config {
            pad_speed: 7_500,
            ball_speed: 9_000,
            screen_width: 800_000,
            screen_height: 600_000,
            pad_size: Size { w: 10_000, h: 50_000 },
            ball_size: Size { w: 10_000, h: 10_000 },
            pad_one_start: Position { x: 20_000, y: 275_000 },
            pad_two_start: Position { x: 770_000, y: 275_000 },
            ball_start: Position { x: 400_000, y: 300_000 },
        }
    }
}

} // verus!
