//! The player and its locomotion state machine.
//!
//! Each per-frame mutation of the ability state is an executable method whose
//! contract pins the new state to a mathematical step function over
//! [`PlayerModel`]. The orchestration of the steps into one frame lives in
//! [`crate::frame`].

use vstd::prelude::*;

use crate::constants::{
    DASH_DURATION_MS, DASH_POWER, DASH_POWER_DIAGONAL, GRAVITY, JUMP_DURATION_MS,
    JUMP_ENDING_DURATION_MS, JUMP_POWER_PER_MS, MOVE_LIMIT, SIDE_MOVE_SPEED, COORD_LIMIT,
};
use crate::geometry::{
    climb_adjacent, climb_touching, in_range, vadd, vec_in_range, zero_vec, Obstacle, Vec2,
    Vec2Model, obstacles_ok,
};
use crate::intent::{DashDirection, MoveDirection};
use crate::timer::{Timer, TimerModel};

verus! {

/// An active dash: its direction and the countdown until it ends.
#[derive(Clone, Copy, Debug, PartialEq, Eq)]
pub struct Dashing {
    pub direction: DashDirection,
    pub timer: Timer,
}

/// Mathematical view of [`Dashing`].
pub struct DashingModel {
    pub direction: DashDirection,
    pub timer: TimerModel,
}

impl View for Dashing {
    type V = DashingModel;

    open spec fn view(&self) -> DashingModel {
        DashingModel { direction: self.direction, timer: self.timer@ }
    }
}

/// The controllable entity: its box, its pending movement and its transient
/// ability state.
#[derive(Clone, Copy, Debug, PartialEq, Eq)]
pub struct Player {
    /// Center of the player's box (milli-units); mutated only by the
    /// collision resolver.
    pub pos: Vec2,
    /// Half-extents of the player's box (milli-units).
    pub half: Vec2,
    /// True iff the previous frame's resolved movement produced a bottom-side
    /// contact.
    pub on_ground: bool,
    /// Scratch displacement accumulator; drained to zero every frame.
    pub movement_vec: Vec2,
    /// Present while a jump impulse is decaying.
    pub jumping_timer: Option<Timer>,
    /// Present while a dash impulse is active.
    pub dashing: Option<Dashing>,
    /// Refreshed whenever the player ends a frame grounded; spent the instant
    /// a dash starts.
    pub can_dash: bool,
    /// True while a climb intent is active and a climbable obstacle is
    /// laterally flush with the player; recomputed from scratch every frame.
    pub climbing: bool,
}

/// Mathematical view of [`Player`], over unbounded integers.
pub struct PlayerModel {
    pub pos: Vec2Model,
    pub half: Vec2Model,
    pub on_ground: bool,
    pub movement: Vec2Model,
    pub jumping: Option<TimerModel>,
    pub dashing: Option<DashingModel>,
    pub can_dash: bool,
    pub climbing: bool,
}

impl View for Player {
    type V = PlayerModel;

    open spec fn view(&self) -> PlayerModel {
        PlayerModel {
            pos: self.pos@,
            half: self.half@,
            on_ground: self.on_ground,
            movement: self.movement_vec@,
            jumping: match self.jumping_timer {
                Some(t) => Some(t@),
                None => None,
            },
            dashing: match self.dashing {
                Some(d) => Some(d@),
                None => None,
            },
            can_dash: self.can_dash,
            climbing: self.climbing,
        }
    }
}

impl PlayerModel {
    /// Structural well-formedness: half-extents within the accepted range and
    /// every live timer running under its fixed duration. Every constructor
    /// establishes it and every step of the pipeline preserves it.
    pub open spec fn inv(self) -> bool {
        &&& 0 <= self.half.x <= COORD_LIMIT as int
        &&& 0 <= self.half.y <= COORD_LIMIT as int
        &&& match self.jumping {
            Some(t) => t.wf() && t.duration <= JUMP_DURATION_MS as int,
            None => true,
        }
        &&& match self.dashing {
            Some(d) => d.timer.wf() && d.timer.duration <= DASH_DURATION_MS as int,
            None => true,
        }
    }
}

/// The ability state the player starts a level with: airborne, nothing
/// pending, no ability charged.
pub open spec fn initial_player(pos: Vec2Model, half: Vec2Model) -> PlayerModel {
    PlayerModel {
        pos,
        half,
        on_ground: false,
        movement: zero_vec(),
        jumping: None,
        dashing: None,
        can_dash: false,
        climbing: false,
    }
}

/// Horizontal contribution of one held move key (milli-units per frame).
pub open spec fn move_delta_spec(d: MoveDirection) -> Vec2Model {
    match d {
        MoveDirection::Left => Vec2Model { x: -(SIDE_MOVE_SPEED as int), y: 0 },
        MoveDirection::Right => Vec2Model { x: SIDE_MOVE_SPEED as int, y: 0 },
    }
}

/// Per-frame dash impulse for each of the eight directions. Diagonals use
/// [`DASH_POWER_DIAGONAL`] on each axis so the resultant magnitude matches an
/// orthogonal dash.
pub open spec fn dash_delta_spec(d: DashDirection) -> Vec2Model {
    match d {
        DashDirection::Up => Vec2Model { x: 0, y: DASH_POWER as int },
        DashDirection::UpRight => Vec2Model {
            x: DASH_POWER_DIAGONAL as int,
            y: DASH_POWER_DIAGONAL as int,
        },
        DashDirection::Right => Vec2Model { x: DASH_POWER as int, y: 0 },
        DashDirection::DownRight => Vec2Model {
            x: DASH_POWER_DIAGONAL as int,
            y: -(DASH_POWER_DIAGONAL as int),
        },
        DashDirection::Down => Vec2Model { x: 0, y: -(DASH_POWER as int) },
        DashDirection::DownLeft => Vec2Model {
            x: -(DASH_POWER_DIAGONAL as int),
            y: -(DASH_POWER_DIAGONAL as int),
        },
        DashDirection::Left => Vec2Model { x: -(DASH_POWER as int), y: 0 },
        DashDirection::UpLeft => Vec2Model {
            x: -(DASH_POWER_DIAGONAL as int),
            y: DASH_POWER_DIAGONAL as int,
        },
    }
}

/// The move intent the state machine honors: at most one move intent is read
/// per frame, and a left intent is decoded ahead of a right one, so left
/// takes precedence when both keys are held.
pub open spec fn first_move_intent(move_left: bool, move_right: bool) -> Option<MoveDirection> {
    if move_left {
        Some(MoveDirection::Left)
    } else if move_right {
        Some(MoveDirection::Right)
    } else {
        None
    }
}

/// Jump start: a grounded player that receives a jump intent gets a fresh
/// jump timer of the fixed duration; anyone else is left alone.
pub open spec fn start_jump_step(p: PlayerModel, jump_intent: bool) -> PlayerModel {
    if jump_intent && p.on_ground {
        PlayerModel {
            jumping: Some(TimerModel { duration: JUMP_DURATION_MS as int, elapsed: 0 }),
            ..p
        }
    } else {
        p
    }
}

/// A jump starts exactly when a jump intent reaches a grounded player.
pub open spec fn jump_started(p: PlayerModel, jump_intent: bool) -> bool {
    jump_intent && p.on_ground
}

/// Dash start: honored only when the dash is charged and no dash is already
/// active; it spends the charge.
pub open spec fn start_dash_step(p: PlayerModel, dash_intent: Option<DashDirection>) -> PlayerModel {
    match dash_intent {
        Some(direction) => if p.can_dash && p.dashing is None {
            PlayerModel {
                dashing: Some(DashingModel {
                    direction,
                    timer: TimerModel { duration: DASH_DURATION_MS as int, elapsed: 0 },
                }),
                can_dash: false,
                ..p
            }
        } else {
            p
        },
        None => p,
    }
}

/// A dash starts exactly when a dash intent reaches a player whose dash is
/// charged and who is not already dashing.
pub open spec fn dash_started(p: PlayerModel, dash_intent: Option<DashDirection>) -> bool {
    dash_intent is Some && p.can_dash && p.dashing is None
}

/// Dashing always cancels an in-progress jump.
pub open spec fn dash_stop_jump_step(p: PlayerModel) -> PlayerModel {
    if p.dashing is Some {
        PlayerModel { jumping: None, ..p }
    } else {
        p
    }
}

/// Climb recomputation: climbing holds this frame iff a climb intent is
/// active and some climbable obstacle is laterally flush with and vertically
/// overlapping the player's box. Never sticky beyond one frame.
pub open spec fn climb_step(p: PlayerModel, climb_intent: bool, obs: Seq<Obstacle>) -> PlayerModel {
    PlayerModel {
        climbing: climb_intent && exists|i: int|
            0 <= i < obs.len() && (#[trigger] obs[i]).climbable && climb_adjacent(
                p.pos,
                p.half,
                obs[i],
            ),
        ..p
    }
}

/// Climbing always cancels an in-progress jump.
pub open spec fn climb_stop_jump_step(p: PlayerModel) -> PlayerModel {
    if p.climbing {
        PlayerModel { jumping: None, ..p }
    } else {
        p
    }
}

/// Jump lift: tick the jump timer; while time remains, add lift proportional
/// to the remaining time (so the lift decays linearly to zero); once the
/// timer drains, clear it.
pub open spec fn jump_lift_step(p: PlayerModel, dt: int) -> PlayerModel {
    match p.jumping {
        None => p,
        Some(t) => {
            let ticked = t.tick(dt);
            if ticked.remaining() > 0 {
                PlayerModel {
                    jumping: Some(ticked),
                    movement: Vec2Model {
                        x: p.movement.x,
                        y: p.movement.y + JUMP_POWER_PER_MS as int * ticked.remaining(),
                    },
                    ..p
                }
            } else {
                PlayerModel { jumping: None, ..p }
            }
        },
    }
}

/// Horizontal movement: the honored move intent adds a fixed horizontal
/// speed; ignored entirely while dashing.
pub open spec fn side_move_step(p: PlayerModel, move_left: bool, move_right: bool) -> PlayerModel {
    match first_move_intent(move_left, move_right) {
        None => p,
        Some(d) => if p.dashing is Some {
            p
        } else {
            PlayerModel { movement: vadd(p.movement, move_delta_spec(d)), ..p }
        },
    }
}

/// Dash tick: tick the dash timer; while time remains, add the fixed impulse
/// of the dash direction; once the timer drains, clear the dash.
pub open spec fn dash_move_step(p: PlayerModel, dt: int) -> PlayerModel {
    match p.dashing {
        None => p,
        Some(d) => {
            let ticked = d.timer.tick(dt);
            if ticked.remaining() > 0 {
                PlayerModel {
                    dashing: Some(DashingModel { direction: d.direction, timer: ticked }),
                    movement: vadd(p.movement, dash_delta_spec(d.direction)),
                    ..p
                }
            } else {
                PlayerModel { dashing: None, ..p }
            }
        },
    }
}

/// Gravity: a constant downward contribution, disabled while dashing or
/// climbing.
pub open spec fn gravity_step(p: PlayerModel) -> PlayerModel {
    if p.dashing is Some || p.climbing {
        p
    } else {
        PlayerModel {
            movement: Vec2Model { x: p.movement.x, y: p.movement.y + GRAVITY as int },
            ..p
        }
    }
}

/// Dash refresh: ending the frame grounded recharges the dash.
pub open spec fn reset_dash_step(p: PlayerModel) -> PlayerModel {
    if p.on_ground {
        PlayerModel { can_dash: true, ..p }
    } else {
        p
    }
}

/// Ceiling truncation: on a ceiling bump, a jump with more remaining time
/// than the ending duration is clamped down to exactly the ending duration
/// with its elapsed time restarted, for a natural head-bump stop instead of
/// an abrupt cutoff.
pub open spec fn ceiling_stop_jump_step(p: PlayerModel, ceiling_bump: bool) -> PlayerModel {
    if ceiling_bump {
        match p.jumping {
            Some(t) => if t.remaining() > JUMP_ENDING_DURATION_MS as int {
                PlayerModel {
                    jumping: Some(
                        TimerModel { duration: JUMP_ENDING_DURATION_MS as int, elapsed: 0 },
                    ),
                    ..p
                }
            } else {
                p
            },
            None => p,
        }
    } else {
        p
    }
}

impl Player {
    /// Structural well-formedness of the player's state.
    pub open spec fn inv(self) -> bool {
        self@.inv()
    }

    /// A fresh player, as a level places it: airborne, no pending movement,
    /// no ability active or charged.
    pub fn new(pos: Vec2, half: Vec2) -> (p: Player)
        requires
            0 <= half.x <= COORD_LIMIT,
            0 <= half.y <= COORD_LIMIT,
        ensures
            p@ == initial_player(pos@, half@),
            p.inv(),
    {
        Player {
            pos,
            half,
            on_ground: false,
            movement_vec: Vec2 { x: 0, y: 0 },
            jumping_timer: None,
            dashing: None,
            can_dash: false,
            climbing: false,
        }
    }

    /// Jump start (state-modification stage). The returned flag is the
    /// fire-and-forget request to the audio collaborator for the jump clip.
    pub fn start_jump(&mut self, jump_intent: bool) -> (started: bool)
        requires
            old(self).inv(),
        ensures
            final(self)@ == start_jump_step(old(self)@, jump_intent),
            started == jump_started(old(self)@, jump_intent),
            final(self).inv(),
    {
        if jump_intent && self.on_ground {
            self.jumping_timer = Some(Timer::new(JUMP_DURATION_MS));
            true
        } else {
            false
        }
    }

    /// Dash start (state-modification stage). The returned flag is the
    /// fire-and-forget request to the audio collaborator for the dash clip.
    pub fn start_dash(&mut self, dash_intent: Option<DashDirection>) -> (started: bool)
        requires
            old(self).inv(),
        ensures
            final(self)@ == start_dash_step(old(self)@, dash_intent),
            started == dash_started(old(self)@, dash_intent),
            final(self).inv(),
    {
        match dash_intent {
            Some(direction) => {
                if self.can_dash && self.dashing.is_none() {
                    self.dashing = Some(
                        Dashing { direction, timer: Timer::new(DASH_DURATION_MS) },
                    );
                    self.can_dash = false;
                    true
                } else {
                    false
                }
            },
            None => false,
        }
    }

    /// Dashing always cancels an in-progress jump (state-modification stage).
    pub fn dash_stop_jump(&mut self)
        requires
            old(self).inv(),
        ensures
            final(self)@ == dash_stop_jump_step(old(self)@),
            final(self).inv(),
    {
        if self.dashing.is_some() {
            self.jumping_timer = None;
        }
    }

    /// Climb recomputation (state-modification stage): sets the climbing flag
    /// from the current climb intent and the current geometry, from scratch.
    pub fn climb(&mut self, climb_intent: bool, obstacles: &Vec<Obstacle>)
        requires
            old(self).inv(),
            in_range(old(self).pos.x as int, COORD_LIMIT as int),
            in_range(old(self).pos.y as int, COORD_LIMIT as int),
            obstacles_ok(obstacles@),
        ensures
            final(self)@ == climb_step(old(self)@, climb_intent, obstacles@),
            final(self).inv(),
    {
        if !climb_intent {
            self.climbing = false;
            return ;
        }
        let mut found = false;
        let mut i: usize = 0;
        while i < obstacles.len()
            invariant
                0 <= i <= obstacles@.len(),
                obstacles_ok(obstacles@),
                self == old(self),
                self.inv(),
                in_range(self.pos.x as int, COORD_LIMIT as int),
                in_range(self.pos.y as int, COORD_LIMIT as int),
                found == exists|k: int|
                    0 <= k < i && (#[trigger] obstacles@[k]).climbable && climb_adjacent(
                        self@.pos,
                        self@.half,
                        obstacles@[k],
                    ),
            decreases obstacles@.len() - i,
        {
            let o = &obstacles[i];
            if o.climbable && climb_touching(&self.pos, &self.half, o) {
                found = true;
            }
            i = i + 1;
        }
        self.climbing = found;
    }

    /// Climbing always cancels an in-progress jump (state-modification
    /// stage).
    pub fn climb_stop_jump(&mut self)
        requires
            old(self).inv(),
        ensures
            final(self)@ == climb_stop_jump_step(old(self)@),
            final(self).inv(),
    {
        if self.climbing {
            self.jumping_timer = None;
        }
    }

    /// Jump lift (accumulation stage).
    pub fn jump_lift(&mut self, dt_ms: u64)
        requires
            old(self).inv(),
            in_range(old(self).movement_vec.y as int, MOVE_LIMIT as int),
        ensures
            final(self)@ == jump_lift_step(old(self)@, dt_ms as int),
            final(self).inv(),
    {
        match &mut self.jumping_timer {
            Some(timer) => {
                timer.tick(dt_ms);
                let remaining = timer.remaining_ms();
                if remaining > 0 {
                    self.movement_vec.y = self.movement_vec.y + JUMP_POWER_PER_MS * (
                    remaining as i64);
                } else {
                    self.jumping_timer = None;
                }
            },
            None => {},
        }
    }

    /// Horizontal movement (accumulation stage).
    pub fn side_move(&mut self, move_left: bool, move_right: bool)
        requires
            old(self).inv(),
            in_range(old(self).movement_vec.x as int, MOVE_LIMIT as int),
        ensures
            final(self)@ == side_move_step(old(self)@, move_left, move_right),
            final(self).inv(),
    {
        if !(move_left || move_right) {
            return ;
        }
        if self.dashing.is_some() {
            return ;
        }
        let direction = if move_left {
            MoveDirection::Left
        } else {
            MoveDirection::Right
        };
        let delta = move_delta(direction);
        self.movement_vec.x = self.movement_vec.x + delta.x;
    }

    /// Dash tick (accumulation stage).
    pub fn dash_move(&mut self, dt_ms: u64)
        requires
            old(self).inv(),
            vec_in_range(old(self).movement_vec@, MOVE_LIMIT as int),
        ensures
            final(self)@ == dash_move_step(old(self)@, dt_ms as int),
            final(self).inv(),
    {
        let mut active_direction: Option<DashDirection> = None;
        match &mut self.dashing {
            Some(dashing) => {
                dashing.timer.tick(dt_ms);
                if dashing.timer.remaining_ms() > 0 {
                    active_direction = Some(dashing.direction);
                }
            },
            None => {},
        }
        match active_direction {
            Some(direction) => {
                let delta = dash_delta(direction);
                self.movement_vec.x = self.movement_vec.x + delta.x;
                self.movement_vec.y = self.movement_vec.y + delta.y;
            },
            None => {
                if self.dashing.is_some() {
                    self.dashing = None;
                }
            },
        }
    }

    /// Gravity (accumulation stage).
    pub fn apply_gravity(&mut self)
        requires
            old(self).inv(),
            in_range(old(self).movement_vec.y as int, MOVE_LIMIT as int),
        ensures
            final(self)@ == gravity_step(old(self)@),
            final(self).inv(),
    {
        if self.dashing.is_some() {
            return ;
        }
        if self.climbing {
            return ;
        }
        self.movement_vec.y = self.movement_vec.y + GRAVITY;
    }

    /// Dash refresh (post-movement stage).
    pub fn reset_dash(&mut self)
        requires
            old(self).inv(),
        ensures
            final(self)@ == reset_dash_step(old(self)@),
            final(self).inv(),
    {
        if self.on_ground {
            self.can_dash = true;
        }
    }

    /// Ceiling truncation (post-movement stage).
    pub fn ceiling_stop_jump(&mut self, ceiling_bump: bool)
        requires
            old(self).inv(),
        ensures
            final(self)@ == ceiling_stop_jump_step(old(self)@, ceiling_bump),
            final(self).inv(),
    {
        if !ceiling_bump {
            return ;
        }
        match &mut self.jumping_timer {
            Some(timer) => {
                if timer.remaining_ms() > JUMP_ENDING_DURATION_MS {
                    timer.shrink_duration(JUMP_ENDING_DURATION_MS);
                }
            },
            None => {},
        }
    }
}

/// Executable form of [`move_delta_spec`].
pub fn move_delta(d: MoveDirection) -> (v: Vec2)
    ensures
        v@ == move_delta_spec(d),
{
    match d {
        MoveDirection::Left => Vec2 { x: -SIDE_MOVE_SPEED, y: 0 },
        MoveDirection::Right => Vec2 { x: SIDE_MOVE_SPEED, y: 0 },
    }
}

/// Executable form of [`dash_delta_spec`].
pub fn dash_delta(d: DashDirection) -> (v: Vec2)
    ensures
        v@ == dash_delta_spec(d),
{
    match d {
        DashDirection::Up => Vec2 { x: 0, y: DASH_POWER },
        DashDirection::UpRight => Vec2 { x: DASH_POWER_DIAGONAL, y: DASH_POWER_DIAGONAL },
        DashDirection::Right => Vec2 { x: DASH_POWER, y: 0 },
        DashDirection::DownRight => Vec2 { x: DASH_POWER_DIAGONAL, y: -DASH_POWER_DIAGONAL },
        DashDirection::Down => Vec2 { x: 0, y: -DASH_POWER },
        DashDirection::DownLeft => Vec2 { x: -DASH_POWER_DIAGONAL, y: -DASH_POWER_DIAGONAL },
        DashDirection::Left => Vec2 { x: -DASH_POWER, y: 0 },
        DashDirection::UpLeft => Vec2 { x: -DASH_POWER_DIAGONAL, y: DASH_POWER_DIAGONAL },
    }
}

/// Read-only snapshot of the player's position and ability state, handed to
/// the render/debug collaborator; the core never receives input back from it.
#[derive(Clone, Copy, Debug, PartialEq, Eq)]
pub struct AbilitySnapshot {
    pub x: i64,
    pub y: i64,
    pub on_ground: bool,
    pub can_dash: bool,
    pub climbing: bool,
    pub jumping_elapsed_ms: Option<u64>,
    pub jumping_duration_ms: Option<u64>,
    pub dashing_direction: Option<DashDirection>,
    pub dashing_elapsed_ms: Option<u64>,
    pub dashing_duration_ms: Option<u64>,
}

impl Player {
    /// What a debug sample of this state reads.
    pub open spec fn snapshot_spec(self) -> AbilitySnapshot {
        AbilitySnapshot {
            x: self.pos.x,
            y: self.pos.y,
            on_ground: self.on_ground,
            can_dash: self.can_dash,
            climbing: self.climbing,
            jumping_elapsed_ms: match self.jumping_timer {
                Some(t) => Some(t.elapsed_ms),
                None => None,
            },
            jumping_duration_ms: match self.jumping_timer {
                Some(t) => Some(t.duration_ms),
                None => None,
            },
            dashing_direction: match self.dashing {
                Some(d) => Some(d.direction),
                None => None,
            },
            dashing_elapsed_ms: match self.dashing {
                Some(d) => Some(d.timer.elapsed_ms),
                None => None,
            },
            dashing_duration_ms: match self.dashing {
                Some(d) => Some(d.timer.duration_ms),
                None => None,
            },
        }
    }

    /// Samples the debug snapshot. Reading it mutates nothing, so any two
    /// samples taken between frames are identical.
    pub fn debug_snapshot(&self) -> (s: AbilitySnapshot)
        ensures
            s == self.snapshot_spec(),
    {
        AbilitySnapshot {
            x: self.pos.x,
            y: self.pos.y,
            on_ground: self.on_ground,
            can_dash: self.can_dash,
            climbing: self.climbing,
            jumping_elapsed_ms: match &self.jumping_timer {
                Some(t) => Some(t.elapsed_ms),
                None => None,
            },
            jumping_duration_ms: match &self.jumping_timer {
                Some(t) => Some(t.duration_ms),
                None => None,
            },
            dashing_direction: match &self.dashing {
                Some(d) => Some(d.direction),
                None => None,
            },
            dashing_elapsed_ms: match &self.dashing {
                Some(d) => Some(d.timer.elapsed_ms),
                None => None,
            },
            dashing_duration_ms: match &self.dashing {
                Some(d) => Some(d.timer.duration_ms),
                None => None,
            },
        }
    }
}

/// Sampling the debug snapshot twice between frames, without advancing the
/// clock, yields identical output: the snapshot is a function of the state
/// alone.
pub proof fn lemma_snapshot_idempotent(p: Player, s1: AbilitySnapshot, s2: AbilitySnapshot)
    requires
        s1 == p.snapshot_spec(),
        s2 == p.snapshot_spec(),
    ensures
        s1 == s2,
{
}

} // verus!
