//! The intent decoder: maps one frame's sample of the raw input oracle into
//! discrete locomotion intents.
//!
//! Move and climb intents are level-triggered (they fire every frame the key
//! is held); jump and dash intents are edge-triggered (they fire once on
//! key-down). A dash carries a direction resolved from the simultaneous state
//! of the four directional keys at the moment of the dash-trigger key-down,
//! using an 8-way lookup; any other key combination, including none held,
//! yields no dash.

use vstd::prelude::*;

verus! {

/// Horizontal movement direction.
#[derive(Clone, Copy, Debug, PartialEq, Eq, Structural)]
pub enum MoveDirection {
    Left,
    Right,
}

/// One of the eight dash directions.
#[derive(Clone, Copy, Debug, PartialEq, Eq, Structural)]
pub enum DashDirection {
    Up,
    UpRight,
    Right,
    DownRight,
    Down,
    DownLeft,
    Left,
    UpLeft,
}

/// One frame's sample of the raw input oracle: which keys are currently held
/// and which were pressed this frame. The host samples this once per frame.
#[derive(Clone, Copy, Debug, PartialEq, Eq, Structural)]
pub struct InputSnapshot {
    pub left_held: bool,
    pub right_held: bool,
    pub up_held: bool,
    pub down_held: bool,
    pub jump_pressed: bool,
    pub dash_pressed: bool,
    pub climb_held: bool,
}

/// The decoded intents of one frame, produced once and passed by value into
/// the locomotion state machine. Absence of input simply yields no intents.
#[derive(Clone, Copy, Debug, PartialEq, Eq)]
pub struct Intents {
    pub move_left: bool,
    pub move_right: bool,
    pub jump: bool,
    pub dash: Option<DashDirection>,
    pub climb: bool,
}

impl Intents {
    /// A frame with no input at all.
    pub fn none() -> (i: Intents)
        ensures
            i == (Intents {
                move_left: false,
                move_right: false,
                jump: false,
                dash: None,
                climb: false,
            }),
    {
        Intents { move_left: false, move_right: false, jump: false, dash: None, climb: false }
    }
}

/// The 8-way dash direction lookup: the four orthogonal directions require
/// exactly one of the four directional keys held, the four diagonals exactly
/// two adjacent ones; any other combination yields no dash.
pub open spec fn dash_direction_spec(
    up: bool,
    down: bool,
    left: bool,
    right: bool,
) -> Option<DashDirection> {
    match (up, down, left, right) {
        (true, false, false, false) => Some(DashDirection::Up),
        (true, false, false, true) => Some(DashDirection::UpRight),
        (false, false, false, true) => Some(DashDirection::Right),
        (false, true, false, true) => Some(DashDirection::DownRight),
        (false, true, false, false) => Some(DashDirection::Down),
        (false, true, true, false) => Some(DashDirection::DownLeft),
        (false, false, true, false) => Some(DashDirection::Left),
        (true, false, true, false) => Some(DashDirection::UpLeft),
        _ => None,
    }
}

/// What [`decode`] produces for a given input sample.
pub open spec fn decode_spec(input: InputSnapshot) -> Intents {
    Intents {
        move_left: input.left_held,
        move_right: input.right_held,
        jump: input.jump_pressed,
        dash: if input.dash_pressed {
            dash_direction_spec(input.up_held, input.down_held, input.left_held, input.right_held)
        } else {
            None
        },
        climb: input.climb_held,
    }
}

/// Resolves the dash direction from the four directional keys.
pub fn dash_direction_from_keys(up: bool, down: bool, left: bool, right: bool) -> (d: Option<
    DashDirection,
>)
    ensures
        d == dash_direction_spec(up, down, left, right),
{
    match (up, down, left, right) {
        (true, false, false, false) => Some(DashDirection::Up),
        (true, false, false, true) => Some(DashDirection::UpRight),
        (false, false, false, true) => Some(DashDirection::Right),
        (false, true, false, true) => Some(DashDirection::DownRight),
        (false, true, false, false) => Some(DashDirection::Down),
        (false, true, true, false) => Some(DashDirection::DownLeft),
        (false, false, true, false) => Some(DashDirection::Left),
        (true, false, true, false) => Some(DashDirection::UpLeft),
        _ => None,
    }
}

/// Decodes one frame's input sample into intents. There are no error
/// conditions: an ambiguous or absent directional combination for a dash
/// yields no dash intent.
pub fn decode(input: &InputSnapshot) -> (i: Intents)
    ensures
        i == decode_spec(*input),
{
    let dash = if input.dash_pressed {
        dash_direction_from_keys(input.up_held, input.down_held, input.left_held, input.right_held)
    } else {
        None
    };
    Intents {
        move_left: input.left_held,
        move_right: input.right_held,
        jump: input.jump_pressed,
        dash,
        climb: input.climb_held,
    }
}

} // verus!
