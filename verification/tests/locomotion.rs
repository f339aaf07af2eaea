use platformer_core::locomotion::{
    advance, Friction, KeyState, ACCELERATION, GRIP, JUMP_IMPULSE, MAX_SPEED,
};
use platformer_core::vector::Vec2;

const UNIT: i64 = 1_000_000;

fn keys(left: bool, right: bool, jump_pressed: bool, slide: bool) -> KeyState {
    KeyState { left, right, jump_pressed, slide }
}

#[test]
fn constants_are_the_tuned_values() {
    assert_eq!(ACCELERATION, 100 * UNIT);
    assert_eq!(MAX_SPEED, 1000 * UNIT);
    assert_eq!(JUMP_IMPULSE, 600 * UNIT);
    assert_eq!(GRIP, UNIT);
}

#[test]
fn jump_on_the_ground_adds_exactly_the_impulse() {
    let at_rest = Vec2 { x: 0, y: 0 };
    let motion = advance(at_rest, keys(false, false, true, false), true);
    assert_eq!(motion.velocity, Vec2 { x: 0, y: 600 * UNIT });
    let falling = Vec2 { x: 3, y: -250 * UNIT };
    let motion = advance(falling, keys(false, false, true, false), true);
    assert_eq!(motion.velocity, Vec2 { x: 3, y: 350 * UNIT });
}

#[test]
fn jump_in_the_air_changes_nothing() {
    let at_rest = Vec2 { x: 0, y: 0 };
    let motion = advance(at_rest, keys(false, false, true, false), false);
    assert_eq!(motion.velocity, at_rest);
}

#[test]
fn no_jump_without_the_rising_edge() {
    let motion = advance(Vec2 { x: 0, y: 0 }, keys(false, false, false, false), true);
    assert_eq!(motion.velocity, Vec2 { x: 0, y: 0 });
}

#[test]
fn running_accelerates_by_one_step_per_tick() {
    let motion = advance(Vec2 { x: 0, y: 0 }, keys(false, true, false, false), true);
    assert_eq!(motion.velocity.x, 100 * UNIT);
    let motion = advance(motion.velocity, keys(false, true, false, false), true);
    assert_eq!(motion.velocity.x, 200 * UNIT);
    let motion = advance(Vec2 { x: 0, y: 0 }, keys(true, false, false, false), true);
    assert_eq!(motion.velocity.x, -100 * UNIT);
}

#[test]
fn at_the_cap_pushing_on_stays_at_the_cap() {
    let motion = advance(Vec2 { x: MAX_SPEED, y: 0 }, keys(false, true, false, false), true);
    assert_eq!(motion.velocity.x, MAX_SPEED);
    let motion = advance(Vec2 { x: -MAX_SPEED, y: 0 }, keys(true, false, false, false), true);
    assert_eq!(motion.velocity.x, -MAX_SPEED);
}

#[test]
fn just_below_the_cap_the_push_is_clamped() {
    let motion = advance(Vec2 { x: 950 * UNIT, y: 0 }, keys(false, true, false, false), true);
    assert_eq!(motion.velocity.x, MAX_SPEED);
    let motion = advance(Vec2 { x: MAX_SPEED - 1, y: 0 }, keys(false, true, false, false), true);
    assert_eq!(motion.velocity.x, MAX_SPEED);
    let motion = advance(Vec2 { x: -950 * UNIT, y: 0 }, keys(true, false, false, false), true);
    assert_eq!(motion.velocity.x, -MAX_SPEED);
}

#[test]
fn at_the_cap_pushing_back_slows_down() {
    let motion = advance(Vec2 { x: MAX_SPEED, y: 0 }, keys(true, false, false, false), true);
    assert_eq!(motion.velocity.x, 900 * UNIT);
    assert!(motion.velocity.x < MAX_SPEED);
}

#[test]
fn braking_is_never_capped() {
    let motion = advance(Vec2 { x: 5000 * UNIT, y: 0 }, keys(true, false, false, false), false);
    assert_eq!(motion.velocity.x, 4900 * UNIT);
    let motion = advance(Vec2 { x: -5000 * UNIT, y: 0 }, keys(false, true, false, false), false);
    assert_eq!(motion.velocity.x, -4900 * UNIT);
}

#[test]
fn braking_can_overshoot_through_zero() {
    let motion = advance(Vec2 { x: 30 * UNIT, y: 0 }, keys(true, false, false, false), true);
    assert_eq!(motion.velocity.x, -70 * UNIT);
}

#[test]
fn above_the_cap_pushing_on_adds_nothing() {
    let motion = advance(Vec2 { x: 5000 * UNIT, y: 0 }, keys(false, true, false, false), true);
    assert_eq!(motion.velocity.x, 5000 * UNIT);
}

#[test]
fn opposite_keys_cancel() {
    let motion = advance(Vec2 { x: 40 * UNIT, y: 9 }, keys(true, true, false, false), true);
    assert_eq!(motion.velocity, Vec2 { x: 40 * UNIT, y: 9 });
    assert_eq!(keys(true, true, false, false).horizontal_intent(), 0);
    assert_eq!(keys(true, false, false, false).horizontal_intent(), -1);
    assert_eq!(keys(false, true, false, false).horizontal_intent(), 1);
    assert_eq!(keys(false, false, false, false).horizontal_intent(), 0);
}

#[test]
fn sliding_switches_friction_off_and_back_on() {
    let sliding = advance(Vec2 { x: 0, y: 0 }, keys(false, false, false, true), true);
    assert_eq!(sliding.friction, Friction { static_coefficient: 0, dynamic_coefficient: 0 });
    let gripping = advance(Vec2 { x: 0, y: 0 }, keys(false, false, false, false), true);
    assert_eq!(
        gripping.friction,
        Friction { static_coefficient: UNIT, dynamic_coefficient: UNIT }
    );
}

#[test]
fn jump_and_run_in_the_same_tick() {
    let motion = advance(Vec2 { x: 0, y: 0 }, keys(false, true, true, true), true);
    assert_eq!(motion.velocity, Vec2 { x: 100 * UNIT, y: 600 * UNIT });
    assert_eq!(motion.friction.static_coefficient, 0);
}

#[test]
fn landing_and_pressing_again_jumps_again() {
    let jump = keys(false, false, true, false);
    let first = advance(Vec2 { x: 0, y: 0 }, jump, true);
    assert_eq!(first.velocity.y, 600 * UNIT);
    let second = advance(first.velocity, jump, true);
    assert_eq!(second.velocity.y, 1200 * UNIT);
}
