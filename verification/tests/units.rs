use platformer_core::entity::EntityId;
use platformer_core::units::{isqrt, unit_parts, FINE_BELOW, UNIT, WORLD_LIMIT};
use platformer_core::vector::{Direction, Rotation, Vec2, Vec3};

#[test]
fn one_unit_is_a_million() {
    assert_eq!(UNIT, 1_000_000);
    assert_eq!(WORLD_LIMIT, 1_000_000_000_000 * UNIT);
}

#[test]
fn isqrt_rounds_down() {
    assert_eq!(isqrt(0), 0);
    assert_eq!(isqrt(1), 1);
    assert_eq!(isqrt(2), 1);
    assert_eq!(isqrt(3), 1);
    assert_eq!(isqrt(4), 2);
    assert_eq!(isqrt(24), 4);
    assert_eq!(isqrt(25), 5);
    assert_eq!(isqrt(26), 5);
    assert_eq!(isqrt(170_000_000_000_000_000), 412_310_562);
    assert_eq!(isqrt(1_000_000_000_000), 1_000_000);
    assert_eq!(isqrt(999_999_999_999), 999_999);
}

#[test]
fn isqrt_reaches_the_largest_word() {
    assert_eq!(isqrt(u128::MAX), u64::MAX);
    let top = u64::MAX as u128;
    assert_eq!(isqrt(top * top), u64::MAX);
    assert_eq!(isqrt(top * top - 1), u64::MAX - 1);
    assert_eq!(isqrt(1 << 126), 1 << 63);
}

#[test]
fn isqrt_brackets_its_argument() {
    let mut n: u128 = 1;
    for _ in 0..120 {
        let r = isqrt(n) as u128;
        assert!(r * r <= n);
        assert!((r + 1) * (r + 1) > n);
        n = n * 2 + (n % 7);
    }
}

#[test]
fn directions_have_coordinates_of_at_most_one() {
    assert_eq!(Direction::new(UNIT, -UNIT).unwrap().coordinates(), Vec2 { x: UNIT, y: -UNIT });
    assert_eq!(Direction::new(0, 0).unwrap().coordinates(), Vec2 { x: 0, y: 0 });
    assert_eq!(Direction::new(UNIT + 1, 0), None);
    assert_eq!(Direction::new(0, UNIT + 1), None);
    assert_eq!(Direction::new(-UNIT - 1, 0), None);
    assert_eq!(Direction::new(0, -UNIT - 1), None);
    assert_eq!(Direction::new(i64::MIN, i64::MAX), None);
}

#[test]
fn rotations_have_a_cosine_and_sine_of_at_most_one() {
    let turned = Rotation::new(-UNIT, UNIT).unwrap();
    assert_eq!((turned.cosine(), turned.sine()), (-UNIT, UNIT));
    assert_eq!(Rotation::new(UNIT + 1, 0), None);
    assert_eq!(Rotation::new(0, -UNIT - 1), None);
    assert_eq!(Rotation::new(i64::MAX, i64::MIN), None);
    let still = Rotation::identity();
    assert_eq!((still.cosine(), still.sine()), (UNIT, 0));
}

#[test]
fn rotating_rounds_each_product_toward_zero() {
    let eighth = Rotation::new(707_107, 707_107).unwrap();
    let right = Direction::new(UNIT, 0).unwrap();
    assert_eq!(eighth.rotate(right), Vec2 { x: 707_107, y: 707_107 });
    let tiny = Direction::new(1, -1).unwrap();
    assert_eq!(eighth.rotate(tiny), Vec2 { x: 0, y: 0 });
    let three = Direction::new(3, -3).unwrap();
    assert_eq!(eighth.rotate(three), Vec2 { x: 4, y: 0 });
    let corner = Direction::new(UNIT, UNIT).unwrap();
    let skew = Rotation::new(UNIT, -UNIT).unwrap();
    assert_eq!(skew.rotate(corner), Vec2 { x: 2 * UNIT, y: 0 });
}

#[test]
fn the_world_ends_at_its_limit() {
    assert!(Vec2 { x: WORLD_LIMIT, y: -WORLD_LIMIT }.is_in_world());
    assert!(Vec2 { x: 0, y: 0 }.is_in_world());
    assert!(!Vec2 { x: WORLD_LIMIT + 1, y: 0 }.is_in_world());
    assert!(!Vec2 { x: 0, y: -WORLD_LIMIT - 1 }.is_in_world());
    assert!(!Vec2 { x: i64::MIN, y: i64::MAX }.is_in_world());
}

#[test]
fn entity_ids_compare_by_number() {
    assert_eq!(EntityId(5), EntityId(5));
    assert_ne!(EntityId(5), EntityId(6));
}

#[test]
fn unit_parts_divide_by_the_length() {
    assert_eq!(unit_parts(3, 4, 0), Some((600_000, 800_000, 0)));
    assert_eq!(unit_parts(0, 0, -9), Some((0, 0, -UNIT)));
    assert_eq!(unit_parts(1, 1, 1), Some((577_350, 577_350, 577_350)));
    assert_eq!(unit_parts(-1, 2, -2), Some((-333_333, 666_666, -666_666)));
    assert_eq!(unit_parts(1, 1, 0), Some((707_107, 707_107, 0)));
    assert_eq!(unit_parts(0, 0, 0), None);
}

#[test]
fn unit_parts_reach_the_largest_words() {
    let top = 1i128 << 63;
    assert_eq!(unit_parts(top, top, top), Some((577_350, 577_350, 577_350)));
    assert_eq!(unit_parts(-top, 0, 0), Some((-UNIT, 0, 0)));
    assert_eq!(unit_parts(top, -top, 0), Some((707_106, -707_106, 0)));
    assert_eq!(unit_parts(top, 1, 0), Some((UNIT, 0, 0)));
}

#[test]
fn lengths_are_measured_finely_below_the_fine_bound() {
    assert_eq!(FINE_BELOW, 100_000_000_000_000_000_000_000_000);
    // Just below the bound and just at it, the same direction comes out.
    let below = 9_999_999_999_999i128;
    let at = 10_000_000_000_000i128;
    assert_eq!(unit_parts(below, 0, 0), Some((UNIT, 0, 0)));
    assert_eq!(unit_parts(at, 0, 0), Some((UNIT, 0, 0)));
    assert_eq!(unit_parts(below, below, 0), Some((707_106, 707_106, 0)));
    assert_eq!(unit_parts(at, at, 0), Some((707_106, 707_106, 0)));
}

#[test]
fn unit_parts_are_one_long_to_within_a_millionth() {
    let mut v: (i128, i128, i128) = (1, -2, 3);
    for round in 0..60 {
        let (a, b, c) = unit_parts(v.0, v.1, v.2).unwrap();
        let (a, b, c) = (a as i128, b as i128, c as i128);
        let one = UNIT as i128;
        assert!(a * a + b * b + c * c < (one + 1) * (one + 1));
        let up = |p: i128| (p.abs() + 1) * (p.abs() + 1);
        assert!(up(a) + up(b) + up(c) > one * one);
        v = (v.0 * 2 + round, -v.1 * 3 + 1, v.2 * 2 - 7);
        if v.1.abs() > (1 << 62) {
            v.1 = round + 1;
        }
        if v.0.abs() > (1 << 62) || v.2.abs() > (1 << 62) {
            v = (round - 30, v.1, 5);
        }
    }
}

#[test]
fn vectors_in_space_normalise() {
    let scale = Vec3 { x: UNIT, y: UNIT, z: UNIT };
    assert_eq!(scale.normalized(), Some(Vec3 { x: 577_350, y: 577_350, z: 577_350 }));
    let flat = Vec3 { x: -3, y: 0, z: 4 };
    assert_eq!(flat.normalized(), Some(Vec3 { x: -600_000, y: 0, z: 800_000 }));
    assert_eq!(Vec3 { x: 0, y: 0, z: 0 }.normalized(), None);
    let wide = Vec3 { x: i64::MIN, y: i64::MAX, z: i64::MIN };
    assert_eq!(wide.normalized(), Some(Vec3 { x: -577_350, y: 577_350, z: -577_350 }));
}
