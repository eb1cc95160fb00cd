//! The player paddle: a rectangle that moves vertically by a fixed speed per
//! tick and is clamped near the screen's vertical edges.

use vstd::prelude::*;
use crate::config::{Config, pos_wf, size_wf};
use crate::geom::{Position, Size, offset_pos, div_trunc};

verus! {

/// A paddle's movement intent for the current tick.
#[derive(Clone, Copy, PartialEq, Eq, Structural, Debug)]
pub enum PadDirection {
    Up,
    Down,
    Still,
}

#[derive(Clone, Copy, PartialEq, Eq, Structural, Debug)]
pub struct Pad {
    pub pos: Position,
    /// Constant over the paddle's lifetime.
    pub size: Size,
    /// Mutated by the input layer between ticks.
    pub direction: PadDirection,
}

/// The vertical coordinate after one tick's movement, before clamping.
pub open spec fn pad_moved_y(cfg: Config, p: Pad) -> int {
    match p.direction {
        PadDirection::Up => p.pos.y - cfg.pad_speed,
        PadDirection::Down => p.pos.y + cfg.pad_speed,
        PadDirection::Still => p.pos.y as int,
    }
}

/// The clamp applied after movement. The bounds are deliberately asymmetric:
/// a paddle may stand half its own height past either screen edge before the
/// clamp takes hold, and the upper clamp rests the paddle at
/// `screen_height - h/2`.
pub open spec fn pad_clamped_y(cfg: Config, size: Size, y: int) -> int {
    let half = size.h / 2;
    if y < -half {
        -half
    } else if y + size.h > cfg.screen_height + half {
        cfg.screen_height - half
    } else {
        y
    }
}

/// The vertical coordinate after one full tick: movement, then clamp.
pub open spec fn pad_step_y(cfg: Config, p: Pad) -> int {
    pad_clamped_y(cfg, p.size, pad_moved_y(cfg, p))
}

/// Relates a paddle before a tick to the paddle after it: only the vertical
/// coordinate changes, and it changes to `pad_step_y`.
pub open spec fn pad_stepped(cfg: Config, p: Pad, q: Pad) -> bool {
    &&& q.pos.x == p.pos.x
    &&& q.size == p.size
    &&& q.direction == p.direction
    &&& q.pos.y == pad_step_y(cfg, p)
}

impl Pad {
    pub open spec fn wf(self) -> bool {
        &&& pos_wf(self.pos)
        &&& size_wf(self.size)
    }

    pub fn new(pos: Position, size: Size) -> (r: Pad)
        ensures
            r.pos == pos,
            r.size == size,
            r.direction == PadDirection::Still,
    {
        Pad { pos, size, direction: PadDirection::Still }
    }

    pub fn update(&mut self, cfg: &Config)
        requires
            old(self).wf(),
            cfg.wf(),
        ensures
            final(self).wf(),
            pad_stepped(*cfg, *old(self), *final(self)),
            -(old(self).size.h / 2) <= final(self).pos.y,
            final(self).pos.y + old(self).size.h / 2 <= cfg.screen_height,
    {
        self.movement_update(cfg);
    }

    pub fn movement_update(&mut self, cfg: &Config)
        requires
            old(self).wf(),
            cfg.wf(),
        ensures
            final(self).wf(),
            pad_stepped(*cfg, *old(self), *final(self)),
            -(old(self).size.h / 2) <= final(self).pos.y,
            final(self).pos.y + old(self).size.h / 2 <= cfg.screen_height,
    {
        match self.direction {
            PadDirection::Up => {
                self.pos = offset_pos(self.pos, 0, -cfg.pad_speed);
            }
            PadDirection::Down => {
                self.pos = offset_pos(self.pos, 0, cfg.pad_speed);
            }
            PadDirection::Still => {}
        }

        let half = div_trunc(self.size.h, 2);
        if self.pos.y < -half {
            self.pos.y = -half;
        } else if self.pos.y + self.size.h > cfg.screen_height + half {
            self.pos.y = cfg.screen_height - half;
        }
    }
}

/// The clamp is a retraction: a second application of one tick's step moves a
/// still paddle nowhere, whatever its starting coordinate.
pub proof fn lemma_still_step_idempotent(cfg: Config, p: Pad)
    requires
        cfg.wf(),
        p.wf(),
        p.direction == PadDirection::Still,
    ensures
        pad_clamped_y(cfg, p.size, pad_step_y(cfg, p)) == pad_step_y(cfg, p),
{
}

/// A still paddle whose coordinate already lies in the clamped band is left
/// exactly where it stands by a tick.
pub proof fn lemma_still_in_band_fixed(cfg: Config, p: Pad)
    requires
        cfg.wf(),
        p.wf(),
        p.direction == PadDirection::Still,
        -(p.size.h / 2) <= p.pos.y,
        p.pos.y + p.size.h <= cfg.screen_height + p.size.h / 2,
    ensures
        pad_step_y(cfg, p) == p.pos.y,
{
}

/// Run a number of whole ticks on one paddle. After at least one tick the
/// paddle stands inside the clamped band, in particular never below
/// `-(h / 2)`, however many ticks follow and in whatever direction; and a
/// still paddle already inside the band never moves at all.
pub fn run_updates(pad: &mut Pad, cfg: &Config, n: u64)
    requires
        old(pad).wf(),
        cfg.wf(),
    ensures
        final(pad).wf(),
        final(pad).pos.x == old(pad).pos.x,
        final(pad).size == old(pad).size,
        final(pad).direction == old(pad).direction,
        n >= 1 ==> -(old(pad).size.h / 2) <= final(pad).pos.y,
        n >= 1 ==> final(pad).pos.y + old(pad).size.h / 2 <= cfg.screen_height,
        (old(pad).direction == PadDirection::Still && -(old(pad).size.h / 2) <= old(pad).pos.y
            && old(pad).pos.y + old(pad).size.h <= cfg.screen_height + old(pad).size.h / 2)
            ==> final(pad).pos == old(pad).pos,
{
    let ghost p0 = *old(pad);
    let mut i: u64 = 0;
    while i < n
        invariant
            i <= n,
            cfg.wf(),
            pad.wf(),
            pad.pos.x == p0.pos.x,
            pad.size == p0.size,
            pad.direction == p0.direction,
            i >= 1 ==> -(p0.size.h / 2) <= pad.pos.y,
            i >= 1 ==> pad.pos.y + p0.size.h / 2 <= cfg.screen_height,
            (p0.direction == PadDirection::Still && -(p0.size.h / 2) <= p0.pos.y
                && p0.pos.y + p0.size.h <= cfg.screen_height + p0.size.h / 2)
                ==> pad.pos == p0.pos,
        decreases n - i,
    {
        proof {
            if pad.direction == PadDirection::Still && -(pad.size.h / 2) <= pad.pos.y
                && pad.pos.y + pad.size.h <= cfg.screen_height + pad.size.h / 2 {
                lemma_still_in_band_fixed(*cfg, *pad);
            }
        }
        pad.update(cfg);
        i = i + 1;
    }
}

} // verus!
