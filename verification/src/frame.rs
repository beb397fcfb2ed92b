//! The orchestrator: one frame of the pipeline, in its fixed stage order.
//!
//! A frame is the ordered sequence: decoded intents are applied to the
//! ability state (jump start, dash start and its jump cancellation, climb
//! recomputation and its jump cancellation); the movement accumulator then
//! collects the contributions (jump lift, horizontal move, dash impulse,
//! gravity); the collision resolver clips the accumulated movement and
//! integrates the position exactly once; and the post-movement reactions
//! (dash refresh, ceiling truncation) read the resolution outcome. The
//! ordering is a correctness requirement and is enforced by construction:
//! this single function runs the stages in a fixed order, and downstream
//! stages read state only after upstream stages have committed it.

use vstd::prelude::*;

use crate::collision::{integrate_step, resolve_and_integrate};
use crate::constants::COORD_LIMIT;
use crate::geometry::{obstacles_ok, vec_in_range, zero_vec, Obstacle};
use crate::intent::Intents;
use crate::player::{
    ceiling_stop_jump_step, climb_step, climb_stop_jump_step, dash_move_step, dash_started,
    dash_stop_jump_step, gravity_step, jump_lift_step, jump_started, reset_dash_step,
    side_move_step, start_dash_step, start_jump_step, Player, PlayerModel,
};

verus! {

/// The outward-facing effects of one frame: fire-and-forget sound requests
/// for the audio collaborator, and the ceiling bump of the resolution.
#[derive(Clone, Copy, Debug, PartialEq, Eq, Structural)]
pub struct FrameEffects {
    pub jump_sound: bool,
    pub dash_sound: bool,
    pub ceiling_bump: bool,
}

/// One frame of the pipeline as a mathematical function: the player state
/// after the frame and the effects the frame raised.
pub open spec fn frame_spec(
    p: PlayerModel,
    intents: Intents,
    obs: Seq<Obstacle>,
    dt: int,
) -> (PlayerModel, FrameEffects) {
    let p1 = start_jump_step(p, intents.jump);
    let p2 = start_dash_step(p1, intents.dash);
    let p3 = dash_stop_jump_step(p2);
    let p4 = climb_step(p3, intents.climb, obs);
    let p5 = climb_stop_jump_step(p4);
    let p6 = jump_lift_step(p5, dt);
    let p7 = side_move_step(p6, intents.move_left, intents.move_right);
    let p8 = dash_move_step(p7, dt);
    let p9 = gravity_step(p8);
    let r = integrate_step(p9, obs);
    let p10 = r.0;
    let ceiling_bump = r.1;
    let p11 = reset_dash_step(p10);
    let p12 = ceiling_stop_jump_step(p11, ceiling_bump);
    (
        p12,
        FrameEffects {
            jump_sound: jump_started(p, intents.jump),
            dash_sound: dash_started(p1, intents.dash),
            ceiling_bump,
        },
    )
}

/// The frame always drains the accumulator: whatever the inputs, the pending
/// movement is zero after integration, so no displacement persists across
/// frames.
pub proof fn lemma_frame_drains_accumulator(
    p: PlayerModel,
    intents: Intents,
    obs: Seq<Obstacle>,
    dt: int,
)
    ensures
        frame_spec(p, intents, obs, dt).0.movement == zero_vec(),
{
}

/// Dash and jump are mutually exclusive: immediately after any frame
/// completes, an active dash implies no jump timer, since starting a dash and
/// keeping one active always cancel an in-progress jump.
pub proof fn lemma_frame_dash_jump_exclusive(
    p: PlayerModel,
    intents: Intents,
    obs: Seq<Obstacle>,
    dt: int,
)
    ensures
        frame_spec(p, intents, obs, dt).0.dashing is Some ==> frame_spec(
            p,
            intents,
            obs,
            dt,
        ).0.jumping is None,
{
    let p1 = start_jump_step(p, intents.jump);
    let p2 = start_dash_step(p1, intents.dash);
    let p3 = dash_stop_jump_step(p2);
    let p4 = climb_step(p3, intents.climb, obs);
    let p5 = climb_stop_jump_step(p4);
    let p6 = jump_lift_step(p5, dt);
    let p7 = side_move_step(p6, intents.move_left, intents.move_right);
    let p8 = dash_move_step(p7, dt);
    let p9 = gravity_step(p8);
    let r = integrate_step(p9, obs);
    let p11 = reset_dash_step(r.0);
    let p12 = ceiling_stop_jump_step(p11, r.1);
    assert(p3.dashing is Some ==> p3.jumping is None);
    assert(p5.dashing is Some ==> p5.jumping is None);
    assert(p6.dashing is Some ==> p6.jumping is None);
    assert(p8.dashing is Some ==> p8.jumping is None);
    assert(p12.dashing is Some ==> p12.jumping is None);
}

/// The dash charge flips true only on a frame that ends grounded, and flips
/// false only on a frame where a dash starts.
pub proof fn lemma_frame_dash_gate(p: PlayerModel, intents: Intents, obs: Seq<Obstacle>, dt: int)
    ensures
        !p.can_dash && frame_spec(p, intents, obs, dt).0.can_dash ==> frame_spec(
            p,
            intents,
            obs,
            dt,
        ).0.on_ground,
        p.can_dash && !frame_spec(p, intents, obs, dt).0.can_dash ==> frame_spec(
            p,
            intents,
            obs,
            dt,
        ).1.dash_sound,
{
    let p1 = start_jump_step(p, intents.jump);
    let p2 = start_dash_step(p1, intents.dash);
    let p3 = dash_stop_jump_step(p2);
    let p4 = climb_step(p3, intents.climb, obs);
    let p5 = climb_stop_jump_step(p4);
    let p6 = jump_lift_step(p5, dt);
    let p7 = side_move_step(p6, intents.move_left, intents.move_right);
    let p8 = dash_move_step(p7, dt);
    let p9 = gravity_step(p8);
    let r = integrate_step(p9, obs);
    let p11 = reset_dash_step(r.0);
    let p12 = ceiling_stop_jump_step(p11, r.1);
    assert(p9.can_dash == p2.can_dash);
    assert(p12.can_dash == p11.can_dash);
    assert(p12.on_ground == r.0.on_ground);
}

/// Runs one frame of the pipeline on one player. The decoded `intents` and
/// the frame delta `dt_ms` come from the host; `obstacles` is the level's
/// static obstacle list. Returns the frame's effects for the host to act on.
///
/// The contract pins the whole frame to [`frame_spec`] and restates the
/// frame-global guarantees: the accumulator is drained, an active dash
/// excludes a jump timer, and the dash charge flips true only when the frame
/// ends grounded and false only when a dash starts.
pub fn advance_frame(
    player: &mut Player,
    intents: &Intents,
    obstacles: &Vec<Obstacle>,
    dt_ms: u64,
) -> (fx: FrameEffects)
    requires
        old(player).inv(),
        old(player)@.movement == zero_vec(),
        vec_in_range(old(player)@.pos, COORD_LIMIT as int),
        obstacles_ok(obstacles@),
    ensures
        final(player)@ == frame_spec(old(player)@, *intents, obstacles@, dt_ms as int).0,
        fx == frame_spec(old(player)@, *intents, obstacles@, dt_ms as int).1,
        final(player).inv(),
        final(player)@.movement == zero_vec(),
        final(player)@.dashing is Some ==> final(player)@.jumping is None,
        !old(player).can_dash && final(player).can_dash ==> final(player).on_ground,
        old(player).can_dash && !final(player).can_dash ==> fx.dash_sound,
{
    let ghost p0 = player@;
    let ghost dt = dt_ms as int;
    let ghost p1 = start_jump_step(p0, intents.jump);
    let ghost p2 = start_dash_step(p1, intents.dash);
    let ghost p3 = dash_stop_jump_step(p2);
    let ghost p4 = climb_step(p3, intents.climb, obstacles@);
    let ghost p5 = climb_stop_jump_step(p4);
    let ghost p6 = jump_lift_step(p5, dt);
    let ghost p7 = side_move_step(p6, intents.move_left, intents.move_right);
    let ghost p8 = dash_move_step(p7, dt);
    let ghost p9 = gravity_step(p8);

    // Stage: state-modifying intents.
    let jump_sound = player.start_jump(intents.jump);
    let dash_sound = player.start_dash(intents.dash);
    player.dash_stop_jump();
    proof {
        assert(p3.pos == p0.pos && p3.movement == p0.movement);
    }
    player.climb(intents.climb, obstacles);
    player.climb_stop_jump();

    // Stage: movement-vector contributions. The accumulation starts from the
    // drained accumulator, so every intermediate sum is small.
    proof {
        assert(p5.pos == p0.pos && p5.movement == p0.movement);
        assert(player@ == p5);
        match p5.jumping {
            Some(t) => {
                assert(t.wf());
                assert(0 <= t.tick(dt).remaining() <= t.duration);
            },
            None => {},
        }
    }
    player.jump_lift(dt_ms);
    proof {
        assert(0 <= p6.movement.y <= 18750 && p6.movement.x == p5.movement.x);
    }
    player.side_move(intents.move_left, intents.move_right);
    proof {
        assert(-5000 <= p7.movement.x <= 5000 && p7.movement.y == p6.movement.y);
    }
    player.dash_move(dt_ms);
    proof {
        assert(vec_in_range(p8.movement, 40000));
    }
    player.apply_gravity();
    proof {
        assert(vec_in_range(p9.movement, 50000));
        assert(p9.pos == p0.pos);
    }

    // Stage: movement integration and collision resolution.
    let ceiling_bump = resolve_and_integrate(player, obstacles);

    // Stage: post-movement reactions.
    player.reset_dash();
    player.ceiling_stop_jump(ceiling_bump);

    proof {
        lemma_frame_drains_accumulator(p0, *intents, obstacles@, dt);
        lemma_frame_dash_jump_exclusive(p0, *intents, obstacles@, dt);
        lemma_frame_dash_gate(p0, *intents, obstacles@, dt);
    }
    FrameEffects { jump_sound, dash_sound, ceiling_bump }
}

} // verus!
