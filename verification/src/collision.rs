//! The collision resolver: classifies which side of an obstacle a pending
//! move would penetrate, clips the pending movement per axis so the player
//! ends flush against the obstacle's near face, integrates the position, and
//! reports ground and ceiling contact.
//!
//! Obstacles are tested one after the other and each may override the
//! corresponding axis of the pending movement in turn, so over the obstacle
//! iteration order the last write to an axis wins. When several obstacles
//! constrain the same axis differently in one frame, only the clamp of the
//! last writer survives; the clearance guarantees below are therefore stated
//! for the obstacle whose clamp survives on an axis.

use vstd::prelude::*;

use crate::constants::{COORD_LIMIT, MOVE_LIMIT};
use crate::geometry::{
    bottom_edge, boxes_overlap, in_range, left_edge, obstacles_ok, right_edge, top_edge, vadd,
    vec_in_range, zero_vec, Obstacle, Vec2, Vec2Model,
};
use crate::player::{Player, PlayerModel};

verus! {

/// Which side of the player's box an obstacle collided with. `Inside` means
/// the boxes overlap without the obstacle straddling exactly one edge on
/// either axis; such a contact constrains nothing.
#[derive(Clone, Copy, Debug, PartialEq, Eq, Structural)]
pub enum Contact {
    Left,
    Right,
    Top,
    Bottom,
    Inside,
}

/// Horizontal contact of obstacle box `a` against player box `b`:
/// `Some((side, penetration))` when `a` straddles exactly one vertical edge
/// of `b`. The side names the edge of `b` that was hit.
pub open spec fn x_contact(
    apos: Vec2Model,
    ahalf: Vec2Model,
    bpos: Vec2Model,
    bhalf: Vec2Model,
) -> Option<(Contact, int)> {
    if left_edge(apos, ahalf) < left_edge(bpos, bhalf) && right_edge(apos, ahalf) > left_edge(
        bpos,
        bhalf,
    ) && right_edge(apos, ahalf) < right_edge(bpos, bhalf) {
        Some((Contact::Left, right_edge(apos, ahalf) - left_edge(bpos, bhalf)))
    } else if left_edge(apos, ahalf) > left_edge(bpos, bhalf) && left_edge(apos, ahalf)
        < right_edge(bpos, bhalf) && right_edge(apos, ahalf) > right_edge(bpos, bhalf) {
        Some((Contact::Right, right_edge(bpos, bhalf) - left_edge(apos, ahalf)))
    } else {
        None
    }
}

/// Vertical contact of obstacle box `a` against player box `b`, analogous to
/// [`x_contact`]: `Bottom` when `a` straddles the bottom edge of `b` (ground
/// under the player), `Top` when it straddles the top edge (ceiling).
pub open spec fn y_contact(
    apos: Vec2Model,
    ahalf: Vec2Model,
    bpos: Vec2Model,
    bhalf: Vec2Model,
) -> Option<(Contact, int)> {
    if bottom_edge(apos, ahalf) < bottom_edge(bpos, bhalf) && top_edge(apos, ahalf) > bottom_edge(
        bpos,
        bhalf,
    ) && top_edge(apos, ahalf) < top_edge(bpos, bhalf) {
        Some((Contact::Bottom, top_edge(apos, ahalf) - bottom_edge(bpos, bhalf)))
    } else if bottom_edge(apos, ahalf) > bottom_edge(bpos, bhalf) && bottom_edge(apos, ahalf)
        < top_edge(bpos, bhalf) && top_edge(apos, ahalf) > top_edge(bpos, bhalf) {
        Some((Contact::Top, top_edge(bpos, bhalf) - bottom_edge(apos, ahalf)))
    } else {
        None
    }
}

/// Classification of the contact between obstacle box `a` and player box `b`.
/// `None` when the boxes do not strictly overlap. When both axes report a
/// side contact, the axis with the smaller penetration is the constraining
/// one and decides the classification; an exact tie classifies vertically.
pub open spec fn classify(
    apos: Vec2Model,
    ahalf: Vec2Model,
    bpos: Vec2Model,
    bhalf: Vec2Model,
) -> Option<Contact> {
    if !boxes_overlap(apos, ahalf, bpos, bhalf) {
        None
    } else {
        match (x_contact(apos, ahalf, bpos, bhalf), y_contact(apos, ahalf, bpos, bhalf)) {
            (Some(xc), Some(yc)) => if yc.1 > xc.1 {
                Some(xc.0)
            } else {
                Some(yc.0)
            },
            (Some(xc), None) => Some(xc.0),
            (None, Some(yc)) => Some(yc.0),
            (None, None) => Some(Contact::Inside),
        }
    }
}

/// Executable form of [`classify`]. `a` is the obstacle box, `b` the player
/// box already moved by the pending movement.
pub fn classify_boxes(apos: &Vec2, ahalf: &Vec2, bpos: &Vec2, bhalf: &Vec2) -> (c: Option<Contact>)
    requires
        vec_in_range(apos@, COORD_LIMIT as int),
        0 <= ahalf.x <= COORD_LIMIT,
        0 <= ahalf.y <= COORD_LIMIT,
        vec_in_range(bpos@, COORD_LIMIT as int + MOVE_LIMIT as int),
        0 <= bhalf.x <= COORD_LIMIT,
        0 <= bhalf.y <= COORD_LIMIT,
    ensures
        c == classify(apos@, ahalf@, bpos@, bhalf@),
{
    let a_min_x: i64 = apos.x - ahalf.x;
    let a_max_x: i64 = apos.x + ahalf.x;
    let a_min_y: i64 = apos.y - ahalf.y;
    let a_max_y: i64 = apos.y + ahalf.y;
    let b_min_x: i64 = bpos.x - bhalf.x;
    let b_max_x: i64 = bpos.x + bhalf.x;
    let b_min_y: i64 = bpos.y - bhalf.y;
    let b_max_y: i64 = bpos.y + bhalf.y;

    if !(a_min_x < b_max_x && a_max_x > b_min_x && a_min_y < b_max_y && a_max_y > b_min_y) {
        return None;
    }

    let x_side: Option<(Contact, i64)> = if a_min_x < b_min_x && a_max_x > b_min_x && a_max_x
        < b_max_x {
        Some((Contact::Left, a_max_x - b_min_x))
    } else if a_min_x > b_min_x && a_min_x < b_max_x && a_max_x > b_max_x {
        Some((Contact::Right, b_max_x - a_min_x))
    } else {
        None
    };

    let y_side: Option<(Contact, i64)> = if a_min_y < b_min_y && a_max_y > b_min_y && a_max_y
        < b_max_y {
        Some((Contact::Bottom, a_max_y - b_min_y))
    } else if a_min_y > b_min_y && a_min_y < b_max_y && a_max_y > b_max_y {
        Some((Contact::Top, b_max_y - a_min_y))
    } else {
        None
    };

    match (x_side, y_side) {
        (Some((xc, xd)), Some((yc, yd))) => if yd > xd {
            Some(xc)
        } else {
            Some(yc)
        },
        (Some((xc, _)), None) => Some(xc),
        (None, Some((yc, _))) => Some(yc),
        (None, None) => Some(Contact::Inside),
    }
}

/// One obstacle's pass over the resolution state `(movement, has_bottom,
/// ceiling_bump)`: a side contact of the player box moved by the current
/// movement overwrites that axis of the movement with exactly the value that
/// places the player flush against the obstacle's near face; a bottom contact
/// reports ground, a top contact reports a ceiling bump.
pub open spec fn resolve_step(
    ppos: Vec2Model,
    phalf: Vec2Model,
    st: (Vec2Model, bool, bool),
    o: Obstacle,
) -> (Vec2Model, bool, bool) {
    let mv = st.0;
    match classify(o.pos@, o.half@, vadd(ppos, mv), phalf) {
        None => st,
        Some(Contact::Left) => (
            Vec2Model { x: o.pos@.x - ppos.x + phalf.x + o.half@.x, y: mv.y },
            st.1,
            st.2,
        ),
        Some(Contact::Right) => (
            Vec2Model { x: o.pos@.x - ppos.x - phalf.x - o.half@.x, y: mv.y },
            st.1,
            st.2,
        ),
        Some(Contact::Top) => (
            Vec2Model { x: mv.x, y: o.pos@.y - ppos.y - phalf.y - o.half@.y },
            st.1,
            true,
        ),
        Some(Contact::Bottom) => (
            Vec2Model { x: mv.x, y: o.pos@.y - ppos.y + phalf.y + o.half@.y },
            true,
            st.2,
        ),
        Some(Contact::Inside) => st,
    }
}

/// Resolution state after the first `n` obstacles, starting from the pending
/// movement `mv0` and no contact.
pub open spec fn resolve_upto(
    ppos: Vec2Model,
    phalf: Vec2Model,
    mv0: Vec2Model,
    obs: Seq<Obstacle>,
    n: int,
) -> (Vec2Model, bool, bool)
    decreases n,
{
    if n <= 0 {
        (mv0, false, false)
    } else {
        resolve_step(ppos, phalf, resolve_upto(ppos, phalf, mv0, obs, n - 1), obs[n - 1])
    }
}

/// Resolution state after all obstacles.
pub open spec fn resolve_spec(
    ppos: Vec2Model,
    phalf: Vec2Model,
    mv0: Vec2Model,
    obs: Seq<Obstacle>,
) -> (Vec2Model, bool, bool) {
    resolve_upto(ppos, phalf, mv0, obs, obs.len() as int)
}

/// The whole integration stage: resolve the pending movement against every
/// obstacle, apply it to the position exactly once, drain the accumulator,
/// and record ground contact. The second component is the ceiling bump.
pub open spec fn integrate_step(p: PlayerModel, obs: Seq<Obstacle>) -> (PlayerModel, bool) {
    let r = resolve_spec(p.pos, p.half, p.movement, obs);
    (
        PlayerModel {
            pos: vadd(p.pos, r.0),
            movement: zero_vec(),
            on_ground: r.1,
            ..p
        },
        r.2,
    )
}

/// The contact that obstacle `i` classifies against the player box as moved
/// by the movement the resolution has accumulated just before testing `i`.
pub open spec fn contact_at(
    ppos: Vec2Model,
    phalf: Vec2Model,
    mv0: Vec2Model,
    obs: Seq<Obstacle>,
    i: int,
) -> Option<Contact> {
    classify(
        obs[i].pos@,
        obs[i].half@,
        vadd(ppos, resolve_upto(ppos, phalf, mv0, obs, i).0),
        phalf,
    )
}

/// A contact that writes the horizontal axis.
pub open spec fn is_x_contact(c: Option<Contact>) -> bool {
    c == Some(Contact::Left) || c == Some(Contact::Right)
}

/// A contact that writes the vertical axis.
pub open spec fn is_y_contact(c: Option<Contact>) -> bool {
    c == Some(Contact::Top) || c == Some(Contact::Bottom)
}

/// Movement integration and collision resolution (movement stage). Clips the
/// pending movement against every obstacle in order, moves the player once by
/// the clipped movement, drains the accumulator and records ground contact;
/// returns whether a ceiling was hit. Absence of any obstacle yields an
/// unconstrained move.
pub fn resolve_and_integrate(player: &mut Player, obstacles: &Vec<Obstacle>) -> (ceiling_bump:
    bool)
    requires
        old(player).inv(),
        vec_in_range(old(player)@.pos, COORD_LIMIT as int),
        vec_in_range(old(player)@.movement, MOVE_LIMIT as int),
        obstacles_ok(obstacles@),
    ensures
        final(player)@ == integrate_step(old(player)@, obstacles@).0,
        ceiling_bump == integrate_step(old(player)@, obstacles@).1,
        final(player).inv(),
        final(player)@.movement == zero_vec(),
{
    let ppos: Vec2 = player.pos;
    let phalf: Vec2 = player.half;
    let mut mv: Vec2 = player.movement_vec;
    let mut has_bottom: bool = false;
    let mut ceiling: bool = false;

    let mut i: usize = 0;
    while i < obstacles.len()
        invariant
            0 <= i <= obstacles@.len(),
            obstacles_ok(obstacles@),
            ppos == old(player).pos,
            phalf == old(player).half,
            old(player).inv(),
            vec_in_range(ppos@, COORD_LIMIT as int),
            vec_in_range(mv@, MOVE_LIMIT as int),
            (mv@, has_bottom, ceiling) == resolve_upto(
                ppos@,
                phalf@,
                old(player)@.movement,
                obstacles@,
                i as int,
            ),
        decreases obstacles@.len() - i,
    {
        let o = &obstacles[i];
        assert(obstacles@[i as int].inv());
        let moved = Vec2 { x: ppos.x + mv.x, y: ppos.y + mv.y };
        let c = classify_boxes(&o.pos, &o.half, &moved, &phalf);
        match c {
            None => {},
            Some(Contact::Left) => {
                mv.x = o.pos.x - ppos.x + phalf.x + o.half.x;
            },
            Some(Contact::Right) => {
                mv.x = o.pos.x - ppos.x - phalf.x - o.half.x;
            },
            Some(Contact::Top) => {
                mv.y = o.pos.y - ppos.y - phalf.y - o.half.y;
                ceiling = true;
            },
            Some(Contact::Bottom) => {
                mv.y = o.pos.y - ppos.y + phalf.y + o.half.y;
                has_bottom = true;
            },
            Some(Contact::Inside) => {},
        }
        i = i + 1;
    }

    player.pos = Vec2 { x: ppos.x + mv.x, y: ppos.y + mv.y };
    player.movement_vec = Vec2 { x: 0, y: 0 };
    player.on_ground = has_bottom;
    ceiling
}

/// Once some obstacle has written an axis and no later obstacle writes it
/// again, the written clamp survives to the end of the resolution.
proof fn lemma_x_clamp_survives(
    ppos: Vec2Model,
    phalf: Vec2Model,
    mv0: Vec2Model,
    obs: Seq<Obstacle>,
    i: int,
    n: int,
)
    requires
        0 <= i,
        i + 1 <= n <= obs.len(),
        forall|j: int| i < j < n ==> !is_x_contact(#[trigger] contact_at(ppos, phalf, mv0, obs, j)),
    ensures
        resolve_upto(ppos, phalf, mv0, obs, n).0.x == resolve_upto(ppos, phalf, mv0, obs, i + 1).0.x,
    decreases n - i,
{
    if n > i + 1 {
        lemma_x_clamp_survives(ppos, phalf, mv0, obs, i, n - 1);
        assert(!is_x_contact(contact_at(ppos, phalf, mv0, obs, n - 1)));
    }
}

proof fn lemma_y_clamp_survives(
    ppos: Vec2Model,
    phalf: Vec2Model,
    mv0: Vec2Model,
    obs: Seq<Obstacle>,
    i: int,
    n: int,
)
    requires
        0 <= i,
        i + 1 <= n <= obs.len(),
        forall|j: int| i < j < n ==> !is_y_contact(#[trigger] contact_at(ppos, phalf, mv0, obs, j)),
    ensures
        resolve_upto(ppos, phalf, mv0, obs, n).0.y == resolve_upto(ppos, phalf, mv0, obs, i + 1).0.y,
    decreases n - i,
{
    if n > i + 1 {
        lemma_y_clamp_survives(ppos, phalf, mv0, obs, i, n - 1);
        assert(!is_y_contact(contact_at(ppos, phalf, mv0, obs, n - 1)));
    }
}

/// The resolver never leaves the player's box overlapping the obstacle whose
/// horizontal clamp survives: a horizontal side contact overwrites the
/// horizontal movement with exactly the value that places the player flush
/// against that obstacle's near face, and flush boxes do not overlap.
pub proof fn lemma_resolved_clear_of_x_writer(
    ppos: Vec2Model,
    phalf: Vec2Model,
    mv0: Vec2Model,
    obs: Seq<Obstacle>,
    i: int,
)
    requires
        0 <= i < obs.len(),
        is_x_contact(contact_at(ppos, phalf, mv0, obs, i)),
        forall|j: int|
            i < j < obs.len() ==> !is_x_contact(#[trigger] contact_at(ppos, phalf, mv0, obs, j)),
    ensures
        !boxes_overlap(
            obs[i].pos@,
            obs[i].half@,
            vadd(ppos, resolve_spec(ppos, phalf, mv0, obs).0),
            phalf,
        ),
{
    lemma_x_clamp_survives(ppos, phalf, mv0, obs, i, obs.len() as int);
}

/// The vertical counterpart of [`lemma_resolved_clear_of_x_writer`]: the
/// resolver never leaves the player's box overlapping the obstacle whose
/// vertical clamp survives.
pub proof fn lemma_resolved_clear_of_y_writer(
    ppos: Vec2Model,
    phalf: Vec2Model,
    mv0: Vec2Model,
    obs: Seq<Obstacle>,
    i: int,
)
    requires
        0 <= i < obs.len(),
        is_y_contact(contact_at(ppos, phalf, mv0, obs, i)),
        forall|j: int|
            i < j < obs.len() ==> !is_y_contact(#[trigger] contact_at(ppos, phalf, mv0, obs, j)),
    ensures
        !boxes_overlap(
            obs[i].pos@,
            obs[i].half@,
            vadd(ppos, resolve_spec(ppos, phalf, mv0, obs).0),
            phalf,
        ),
{
    lemma_y_clamp_survives(ppos, phalf, mv0, obs, i, obs.len() as int);
}

/// With a single obstacle, any side contact resolves the player to a position
/// clear of it: the resolved position never overlaps the obstacle's box.
pub proof fn lemma_single_obstacle_resolved_clear(
    ppos: Vec2Model,
    phalf: Vec2Model,
    mv0: Vec2Model,
    obs: Seq<Obstacle>,
)
    requires
        obs.len() == 1,
        is_x_contact(contact_at(ppos, phalf, mv0, obs, 0)) || is_y_contact(
            contact_at(ppos, phalf, mv0, obs, 0),
        ),
    ensures
        !boxes_overlap(
            obs[0].pos@,
            obs[0].half@,
            vadd(ppos, resolve_spec(ppos, phalf, mv0, obs).0),
            phalf,
        ),
{
    if is_x_contact(contact_at(ppos, phalf, mv0, obs, 0)) {
        lemma_resolved_clear_of_x_writer(ppos, phalf, mv0, obs, 0);
    } else {
        lemma_resolved_clear_of_y_writer(ppos, phalf, mv0, obs, 0);
    }
}

} // verus!
