//! Unit tests of the individual components: intent decoding, timers,
//! geometry, contact classification and the single state-machine steps.

use platformer_core::collision::{classify_boxes, Contact};
use platformer_core::geometry::{climb_touching, Obstacle, Vec2};
use platformer_core::intent::{
    dash_direction_from_keys, decode, DashDirection, InputSnapshot, Intents,
};
use platformer_core::player::{dash_delta, move_delta, Player};
use platformer_core::intent::MoveDirection;
use platformer_core::timer::Timer;

fn no_input() -> InputSnapshot {
    InputSnapshot {
        left_held: false,
        right_held: false,
        up_held: false,
        down_held: false,
        jump_pressed: false,
        dash_pressed: false,
        climb_held: false,
    }
}

fn bare_player() -> Player {
    Player {
        pos: Vec2 { x: 0, y: 0 },
        half: Vec2 { x: 25000, y: 35000 },
        on_ground: false,
        movement_vec: Vec2 { x: 0, y: 0 },
        jumping_timer: None,
        dashing: None,
        can_dash: false,
        climbing: false,
    }
}

#[test]
fn dash_direction_eight_way_lookup() {
    // (up, down, left, right) -> direction
    assert_eq!(dash_direction_from_keys(true, false, false, false), Some(DashDirection::Up));
    assert_eq!(dash_direction_from_keys(true, false, false, true), Some(DashDirection::UpRight));
    assert_eq!(dash_direction_from_keys(false, false, false, true), Some(DashDirection::Right));
    assert_eq!(
        dash_direction_from_keys(false, true, false, true),
        Some(DashDirection::DownRight)
    );
    assert_eq!(dash_direction_from_keys(false, true, false, false), Some(DashDirection::Down));
    assert_eq!(dash_direction_from_keys(false, true, true, false), Some(DashDirection::DownLeft));
    assert_eq!(dash_direction_from_keys(false, false, true, false), Some(DashDirection::Left));
    assert_eq!(dash_direction_from_keys(true, false, true, false), Some(DashDirection::UpLeft));
}

#[test]
fn dash_direction_ambiguous_combinations_yield_none() {
    assert_eq!(dash_direction_from_keys(false, false, false, false), None);
    assert_eq!(dash_direction_from_keys(true, true, false, false), None);
    assert_eq!(dash_direction_from_keys(false, false, true, true), None);
    assert_eq!(dash_direction_from_keys(true, false, true, true), None);
    assert_eq!(dash_direction_from_keys(true, true, true, true), None);
}

#[test]
fn decode_maps_keys_to_intents() {
    let input = InputSnapshot {
        left_held: true,
        right_held: true,
        jump_pressed: true,
        climb_held: true,
        ..no_input()
    };
    let intents = decode(&input);
    assert!(intents.move_left);
    assert!(intents.move_right);
    assert!(intents.jump);
    assert!(intents.climb);
    // no dash-trigger press: no dash, whatever the directional keys say
    assert_eq!(intents.dash, None);
}

#[test]
fn decode_resolves_dash_direction_on_press() {
    let input = InputSnapshot {
        dash_pressed: true,
        up_held: true,
        right_held: true,
        ..no_input()
    };
    assert_eq!(decode(&input).dash, Some(DashDirection::UpRight));

    // ambiguous directional state on the press yields no dash
    let odd = InputSnapshot { dash_pressed: true, ..no_input() };
    assert_eq!(decode(&odd).dash, None);
}

#[test]
fn decode_of_silence_is_no_intents() {
    assert_eq!(decode(&no_input()), Intents::none());
}

#[test]
fn timer_ticks_and_saturates() {
    let mut t = Timer::new(100);
    assert_eq!(t.remaining_ms(), 100);
    t.tick(30);
    assert_eq!(t.elapsed_ms, 30);
    assert_eq!(t.remaining_ms(), 70);
    t.tick(1000);
    assert_eq!(t.elapsed_ms, 100);
    assert_eq!(t.remaining_ms(), 0);
}

#[test]
fn timer_shrink_restarts_elapsed() {
    let mut t = Timer::new(750);
    t.tick(100);
    t.shrink_duration(360);
    assert_eq!(t.duration_ms, 360);
    assert_eq!(t.elapsed_ms, 0);
    assert_eq!(t.remaining_ms(), 360);
}

#[test]
fn move_and_dash_deltas() {
    assert_eq!(move_delta(MoveDirection::Left), Vec2 { x: -5000, y: 0 });
    assert_eq!(move_delta(MoveDirection::Right), Vec2 { x: 5000, y: 0 });
    assert_eq!(dash_delta(DashDirection::Up), Vec2 { x: 0, y: 10000 });
    assert_eq!(dash_delta(DashDirection::Down), Vec2 { x: 0, y: -10000 });
    assert_eq!(dash_delta(DashDirection::Left), Vec2 { x: -10000, y: 0 });
    assert_eq!(dash_delta(DashDirection::Right), Vec2 { x: 10000, y: 0 });
    assert_eq!(dash_delta(DashDirection::UpRight), Vec2 { x: 7071, y: 7071 });
    assert_eq!(dash_delta(DashDirection::DownRight), Vec2 { x: 7071, y: -7071 });
    assert_eq!(dash_delta(DashDirection::DownLeft), Vec2 { x: -7071, y: -7071 });
    assert_eq!(dash_delta(DashDirection::UpLeft), Vec2 { x: -7071, y: 7071 });
}

#[test]
fn climb_touching_requires_zero_gap_and_vertical_overlap() {
    let phalf = Vec2 { x: 25000, y: 35000 };
    let wall = Obstacle {
        pos: Vec2 { x: 60000, y: 0 },
        half: Vec2 { x: 10000, y: 50000 },
        climbable: true,
    };
    // flush on the player's right side
    assert!(climb_touching(&Vec2 { x: 25000, y: 0 }, &phalf, &wall));
    // flush on the player's left side
    assert!(climb_touching(&Vec2 { x: 95000, y: 0 }, &phalf, &wall));
    // one milli-unit of gap
    assert!(!climb_touching(&Vec2 { x: 24999, y: 0 }, &phalf, &wall));
    // overlapping instead of flush
    assert!(!climb_touching(&Vec2 { x: 25001, y: 0 }, &phalf, &wall));
    // flush but vertically disjoint
    assert!(!climb_touching(&Vec2 { x: 25000, y: 100000 }, &phalf, &wall));
    // flush and touching the very top edge counts (inclusive)
    assert!(climb_touching(&Vec2 { x: 25000, y: 85000 }, &phalf, &wall));
}

#[test]
fn classify_side_contacts() {
    let phalf = Vec2 { x: 25000, y: 35000 };
    // floor straddling the player's bottom edge
    let floor_pos = Vec2 { x: 0, y: -65000 };
    let floor_half = Vec2 { x: 100000, y: 30000 };
    let moved = Vec2 { x: 0, y: -9000 };
    assert_eq!(
        classify_boxes(&floor_pos, &floor_half, &moved, &phalf),
        Some(Contact::Bottom)
    );
    // ceiling straddling the player's top edge
    let ceil_pos = Vec2 { x: 0, y: 70000 };
    let ceil_half = Vec2 { x: 100000, y: 30000 };
    let up = Vec2 { x: 0, y: 7000 };
    assert_eq!(classify_boxes(&ceil_pos, &ceil_half, &up, &phalf), Some(Contact::Top));
    // wall straddling the player's left edge
    let wall_pos = Vec2 { x: -60000, y: 0 };
    let wall_half = Vec2 { x: 40000, y: 100000 };
    let left = Vec2 { x: -6000, y: 0 };
    assert_eq!(classify_boxes(&wall_pos, &wall_half, &left, &phalf), Some(Contact::Left));
    // and the player's right edge
    let wall2_pos = Vec2 { x: 60000, y: 0 };
    let right = Vec2 { x: 6000, y: 0 };
    assert_eq!(classify_boxes(&wall2_pos, &wall_half, &right, &phalf), Some(Contact::Right));
}

#[test]
fn classify_disjoint_and_inside() {
    let phalf = Vec2 { x: 25000, y: 35000 };
    let far = Vec2 { x: 500000, y: 0 };
    let half = Vec2 { x: 10000, y: 10000 };
    assert_eq!(classify_boxes(&far, &half, &Vec2 { x: 0, y: 0 }, &phalf), None);
    // boxes that merely touch do not collide
    let touching = Vec2 { x: 35000, y: 0 };
    assert_eq!(classify_boxes(&touching, &half, &Vec2 { x: 0, y: 0 }, &phalf), None);
    // an obstacle buried inside the player's box constrains nothing
    let tiny_pos = Vec2 { x: 0, y: 0 };
    let tiny_half = Vec2 { x: 1000, y: 1000 };
    assert_eq!(
        classify_boxes(&tiny_pos, &tiny_half, &Vec2 { x: 0, y: 0 }, &phalf),
        Some(Contact::Inside)
    );
}

#[test]
fn classify_prefers_smaller_penetration() {
    // the obstacle straddles both the bottom and the left edge of the player;
    // the vertical penetration (2000) is smaller than the horizontal (4000),
    // so the contact classifies vertically
    let phalf = Vec2 { x: 25000, y: 35000 };
    let o_pos = Vec2 { x: -31000, y: -43000 };
    let o_half = Vec2 { x: 10000, y: 10000 };
    let b = Vec2 { x: 0, y: 0 };
    assert_eq!(classify_boxes(&o_pos, &o_half, &b, &phalf), Some(Contact::Bottom));
    // moved deeper vertically than horizontally: the horizontal side wins
    let o2_pos = Vec2 { x: -33000, y: -40000 };
    assert_eq!(classify_boxes(&o2_pos, &o_half, &b, &phalf), Some(Contact::Left));
}

#[test]
fn start_jump_requires_ground() {
    let mut p = bare_player();
    let started = p.start_jump(true);
    assert!(!started);
    assert!(p.jumping_timer.is_none());

    p.on_ground = true;
    let started = p.start_jump(true);
    assert!(started);
    let t = p.jumping_timer.unwrap();
    assert_eq!(t.duration_ms, 750);
    assert_eq!(t.elapsed_ms, 0);
}

#[test]
fn start_dash_requires_charge() {
    let mut p = bare_player();
    assert!(!p.start_dash(Some(DashDirection::Left)));
    assert!(p.dashing.is_none());

    p.can_dash = true;
    assert!(!p.start_dash(None));
    assert!(p.dashing.is_none());
    assert!(p.start_dash(Some(DashDirection::Left)));
    assert!(!p.can_dash);
    let d = p.dashing.clone().unwrap();
    assert_eq!(d.timer.duration_ms, 300);

    // already dashing: a new dash intent is ignored
    assert!(!p.start_dash(Some(DashDirection::Right)));
    assert_eq!(p.dashing.unwrap().direction, DashDirection::Left);
}

#[test]
fn side_move_ignored_while_dashing() {
    let mut p = bare_player();
    p.side_move(false, true);
    assert_eq!(p.movement_vec.x, 5000);
    p.side_move(true, false);
    assert_eq!(p.movement_vec.x, 0);
    // left precedence when both keys are held
    p.side_move(true, true);
    assert_eq!(p.movement_vec.x, -5000);

    p.can_dash = true;
    p.start_dash(Some(DashDirection::Up));
    p.side_move(false, true);
    assert_eq!(p.movement_vec.x, -5000);
}

#[test]
fn gravity_disabled_while_dashing_or_climbing() {
    let mut p = bare_player();
    p.apply_gravity();
    assert_eq!(p.movement_vec.y, -9000);

    p.climbing = true;
    p.apply_gravity();
    assert_eq!(p.movement_vec.y, -9000);

    p.climbing = false;
    p.can_dash = true;
    p.start_dash(Some(DashDirection::Up));
    p.apply_gravity();
    assert_eq!(p.movement_vec.y, -9000);
}

#[test]
fn jump_lift_adds_remaining_times_power() {
    let mut p = bare_player();
    p.jumping_timer = Some(Timer::new(750));
    p.jump_lift(100);
    // remaining 650 ms at 25 milli-units per ms
    assert_eq!(p.movement_vec.y, 16250);
    assert_eq!(p.jumping_timer.unwrap().elapsed_ms, 100);

    // draining the timer clears the jump and adds nothing
    let mut q = bare_player();
    q.jumping_timer = Some(Timer::new(750));
    q.jump_lift(750);
    assert_eq!(q.movement_vec.y, 0);
    assert!(q.jumping_timer.is_none());
}

#[test]
fn reset_dash_only_on_ground() {
    let mut p = bare_player();
    p.reset_dash();
    assert!(!p.can_dash);
    p.on_ground = true;
    p.reset_dash();
    assert!(p.can_dash);
}

#[test]
fn player_new_starts_clean() {
    let p = Player::new(Vec2 { x: -300000, y: 0 }, Vec2 { x: 25000, y: 35000 });
    assert!(!p.on_ground);
    assert_eq!(p.movement_vec, Vec2 { x: 0, y: 0 });
    assert!(p.jumping_timer.is_none());
    assert!(p.dashing.is_none());
    assert!(!p.can_dash);
    assert!(!p.climbing);
}

#[test]
fn ceiling_stop_clamps_only_long_jumps() {
    // The truncation rule itself: a bump clamps a jump whose remaining time
    // exceeds the ending duration, and leaves a shorter one alone.
    let mut p = bare_player();
    p.jumping_timer = Some(Timer { duration_ms: 750, elapsed_ms: 100 });
    p.ceiling_stop_jump(true);
    let t = p.jumping_timer.unwrap();
    assert_eq!(t.duration_ms, 360);
    assert_eq!(t.elapsed_ms, 0);

    let mut q = bare_player();
    q.jumping_timer = Some(Timer { duration_ms: 750, elapsed_ms: 500 });
    q.ceiling_stop_jump(true);
    let t = q.jumping_timer.unwrap();
    assert_eq!(t.duration_ms, 750);
    assert_eq!(t.elapsed_ms, 500);

    // no bump: nothing changes
    let mut r = bare_player();
    r.jumping_timer = Some(Timer { duration_ms: 750, elapsed_ms: 100 });
    r.ceiling_stop_jump(false);
    assert_eq!(r.jumping_timer.unwrap().duration_ms, 750);
}
