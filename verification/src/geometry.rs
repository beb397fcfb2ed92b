//! Axis-aligned box primitives: vectors, obstacles, the strict overlap test
//! and the lateral-adjacency test used by climbing.

use vstd::prelude::*;

use crate::constants::COORD_LIMIT;

verus! {

/// A 2D vector in milli-units.
#[derive(Clone, Copy, Debug, PartialEq, Eq, Structural)]
pub struct Vec2 {
    pub x: i64,
    pub y: i64,
}

/// Mathematical view of a [`Vec2`], over unbounded integers.
pub struct Vec2Model {
    pub x: int,
    pub y: int,
}

impl View for Vec2 {
    type V = Vec2Model;

    open spec fn view(&self) -> Vec2Model {
        Vec2Model { x: self.x as int, y: self.y as int }
    }
}

impl Vec2 {
    pub fn new(x: i64, y: i64) -> (v: Vec2)
        ensures
            v@ == (Vec2Model { x: x as int, y: y as int }),
    {
        Vec2 { x, y }
    }

    pub fn zero() -> (v: Vec2)
        ensures
            v@ == zero_vec(),
    {
        Vec2 { x: 0, y: 0 }
    }
}

/// The zero vector, to which the movement accumulator is drained every frame.
pub open spec fn zero_vec() -> Vec2Model {
    Vec2Model { x: 0, y: 0 }
}

/// Componentwise sum.
pub open spec fn vadd(a: Vec2Model, b: Vec2Model) -> Vec2Model {
    Vec2Model { x: a.x + b.x, y: a.y + b.y }
}

/// `v` lies within `[-bound, bound]`.
pub open spec fn in_range(v: int, bound: int) -> bool {
    -bound <= v <= bound
}

/// Both components lie within `[-bound, bound]`.
pub open spec fn vec_in_range(v: Vec2Model, bound: int) -> bool {
    in_range(v.x, bound) && in_range(v.y, bound)
}

/// Box edges, for a box given by its center and half-extents.
pub open spec fn left_edge(pos: Vec2Model, half: Vec2Model) -> int {
    pos.x - half.x
}

pub open spec fn right_edge(pos: Vec2Model, half: Vec2Model) -> int {
    pos.x + half.x
}

pub open spec fn bottom_edge(pos: Vec2Model, half: Vec2Model) -> int {
    pos.y - half.y
}

pub open spec fn top_edge(pos: Vec2Model, half: Vec2Model) -> int {
    pos.y + half.y
}

/// Strict overlap of two boxes: they share interior points. Boxes that merely
/// touch along an edge do not overlap.
pub open spec fn boxes_overlap(
    apos: Vec2Model,
    ahalf: Vec2Model,
    bpos: Vec2Model,
    bhalf: Vec2Model,
) -> bool {
    &&& left_edge(apos, ahalf) < right_edge(bpos, bhalf)
    &&& right_edge(apos, ahalf) > left_edge(bpos, bhalf)
    &&& bottom_edge(apos, ahalf) < top_edge(bpos, bhalf)
    &&& top_edge(apos, ahalf) > bottom_edge(bpos, bhalf)
}

/// A static axis-aligned obstacle, immutable for the lifetime of a level.
/// `climbable` marks the obstacles a player may climb along.
#[derive(Clone, Copy, Debug, PartialEq, Eq, Structural)]
pub struct Obstacle {
    pub pos: Vec2,
    pub half: Vec2,
    pub climbable: bool,
}

impl Obstacle {
    /// Well-formed obstacle: nonnegative half-extents, coordinates within the
    /// range the pipeline accepts.
    pub open spec fn inv(self) -> bool {
        &&& 0 <= self.half.x <= COORD_LIMIT
        &&& 0 <= self.half.y <= COORD_LIMIT
        &&& in_range(self.pos.x as int, COORD_LIMIT as int)
        &&& in_range(self.pos.y as int, COORD_LIMIT as int)
    }

    pub fn new(pos: Vec2, half: Vec2, climbable: bool) -> (o: Obstacle)
        requires
            0 <= half.x <= COORD_LIMIT,
            0 <= half.y <= COORD_LIMIT,
            in_range(pos.x as int, COORD_LIMIT as int),
            in_range(pos.y as int, COORD_LIMIT as int),
        ensures
            o == (Obstacle { pos, half, climbable }),
            o.inv(),
    {
        Obstacle { pos, half, climbable }
    }
}

/// Every obstacle of the level is well-formed.
pub open spec fn obstacles_ok(obs: Seq<Obstacle>) -> bool {
    forall|i: int| 0 <= i < obs.len() ==> #[trigger] obs[i].inv()
}

/// A player box may climb along an obstacle when the obstacle sits laterally
/// flush against it (zero gap on the left or the right side) and their
/// vertical extents share at least one point (inclusive).
pub open spec fn climb_adjacent(ppos: Vec2Model, phalf: Vec2Model, o: Obstacle) -> bool {
    let laterally_flush = left_edge(o.pos@, o.half@) - right_edge(ppos, phalf) == 0
        || left_edge(ppos, phalf) - right_edge(o.pos@, o.half@) == 0;
    let vertically_overlapping = bottom_edge(o.pos@, o.half@) <= top_edge(ppos, phalf)
        && bottom_edge(ppos, phalf) <= top_edge(o.pos@, o.half@);
    laterally_flush && vertically_overlapping
}

/// Executable form of [`climb_adjacent`]. The vertical test checks whether an
/// endpoint of either extent lies inside the other extent, which for
/// non-degenerate extents is the same as the two extents sharing a point.
pub fn climb_touching(ppos: &Vec2, phalf: &Vec2, o: &Obstacle) -> (r: bool)
    requires
        o.inv(),
        0 <= phalf.x <= COORD_LIMIT,
        0 <= phalf.y <= COORD_LIMIT,
        in_range(ppos.x as int, COORD_LIMIT as int),
        in_range(ppos.y as int, COORD_LIMIT as int),
    ensures
        r == climb_adjacent(ppos@, phalf@, *o),
{
    let p_left: i64 = ppos.x - phalf.x;
    let p_right: i64 = ppos.x + phalf.x;
    let o_left: i64 = o.pos.x - o.half.x;
    let o_right: i64 = o.pos.x + o.half.x;

    if !(o_left - p_right == 0 || p_left - o_right == 0) {
        return false;
    }

    let p_bottom: i64 = ppos.y - phalf.y;
    let p_top: i64 = ppos.y + phalf.y;
    let o_bottom: i64 = o.pos.y - o.half.y;
    let o_top: i64 = o.pos.y + o.half.y;

    (o_bottom <= p_top && p_top <= o_top)
        || (o_bottom <= p_bottom && p_bottom <= o_top)
        || (p_bottom <= o_top && o_top <= p_top)
        || (p_bottom <= o_bottom && o_bottom <= p_top)
}

} // verus!
