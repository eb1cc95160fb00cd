//! Geometry primitives: points, extents, the axis-aligned overlap test, and
//! the truncating division that the fixed-point formulas use.

use vstd::prelude::*;
use vstd::arithmetic::div_mod::{lemma_div_basics, lemma_div_is_ordered_by_denominator, lemma_div_pos_is_pos};

verus! {

/// A point in screen space, in milliunits.
#[derive(Clone, Copy, PartialEq, Eq, Structural, Debug)]
pub struct Position {
    pub x: i64,
    pub y: i64,
}

/// A rectangular extent, in milliunits.
#[derive(Clone, Copy, PartialEq, Eq, Structural, Debug)]
pub struct Size {
    pub w: i64,
    pub h: i64,
}

/// Strict-inequality overlap of two axis-aligned rectangles: rectangles that
/// merely share an edge do not overlap.
pub open spec fn rects_overlap(a_pos: Position, a_size: Size, b_pos: Position, b_size: Size) -> bool {
    &&& a_pos.x + a_size.w > b_pos.x
    &&& a_pos.x < b_pos.x + b_size.w
    &&& a_pos.y + a_size.h > b_pos.y
    &&& a_pos.y < b_pos.y + b_size.h
}

pub fn boxes_overlap(a_pos: Position, a_size: Size, b_pos: Position, b_size: Size) -> (r: bool)
    requires
        i64::MIN <= a_pos.x + a_size.w <= i64::MAX,
        i64::MIN <= a_pos.y + a_size.h <= i64::MAX,
        i64::MIN <= b_pos.x + b_size.w <= i64::MAX,
        i64::MIN <= b_pos.y + b_size.h <= i64::MAX,
    ensures
        r == rects_overlap(a_pos, a_size, b_pos, b_size),
{
    a_pos.x + a_size.w > b_pos.x && a_pos.x < b_pos.x + b_size.w && a_pos.y + a_size.h > b_pos.y
        && a_pos.y < b_pos.y + b_size.h
}

pub fn offset_pos(pos: Position, dx: i64, dy: i64) -> (r: Position)
    requires
        i64::MIN <= pos.x + dx <= i64::MAX,
        i64::MIN <= pos.y + dy <= i64::MAX,
    ensures
        r.x == pos.x + dx,
        r.y == pos.y + dy,
{
    Position { x: pos.x + dx, y: pos.y + dy }
}

/// Division rounding toward zero, as the machine division of the fixed-point
/// formulas does.
pub open spec fn div_toward_zero(n: int, d: int) -> int {
    if n >= 0 {
        n / d
    } else {
        -((-n) / d)
    }
}

pub fn div_trunc(n: i64, d: i64) -> (q: i64)
    requires
        d > 0,
        n > i64::MIN,
    ensures
        q == div_toward_zero(n as int, d as int),
        n >= 0 ==> 0 <= q <= n,
        n < 0 ==> n <= q <= 0,
{
    if n >= 0 {
        let q0: u64 = (n as u64) / (d as u64);
        proof {
            lemma_div_pos_is_pos(n as int, d as int);
            lemma_div_is_ordered_by_denominator(n as int, 1, d as int);
            lemma_div_basics(n as int);
        }
        q0 as i64
    } else {
        let m: u64 = ((-n) as u64) / (d as u64);
        proof {
            lemma_div_pos_is_pos(-n as int, d as int);
            lemma_div_is_ordered_by_denominator(-n as int, 1, d as int);
            lemma_div_basics(-n as int);
        }
        -(m as i64)
    }
}

} // verus!
