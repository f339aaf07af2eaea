use platformer_core::contact::{listed, ContactEvent, ContactManifold, Side};
use platformer_core::entity::EntityId;
use platformer_core::ground::{is_floor, GroundSensor, FLOOR_ALIGNMENT};
use platformer_core::vector::{Direction, Rotation, Vec2};

const UNIT: i64 = 1_000_000;
const PLAYER: EntityId = EntityId(1);
const FLOOR: EntityId = EntityId(2);
const WALL: EntityId = EntityId(3);

fn normal(x: i64, y: i64) -> Direction {
    Direction::new(x, y).unwrap()
}

/// A collision whose normal, seen from the first body, is `(x, y)`.
fn collision(first: EntityId, second: EntityId, x: i64, y: i64) -> ContactEvent {
    ContactEvent {
        entity1: first,
        entity2: second,
        manifolds: vec![ContactManifold { normal1: normal(x, y), normal2: normal(-x, -y) }],
    }
}

fn sense(before: bool, contacts: &Vec<ContactEvent>) -> bool {
    let mut sensor = GroundSensor { grounded: before };
    sensor.sense(PLAYER, Rotation::identity(), contacts);
    sensor.grounded
}

#[test]
fn standing_on_a_floor_is_grounded() {
    assert!(sense(false, &vec![collision(PLAYER, FLOOR, 0, -UNIT)]));
}

#[test]
fn the_flag_is_dropped_when_nothing_touches() {
    assert!(!sense(true, &Vec::new()));
    assert!(!sense(false, &Vec::new()));
    assert!(!GroundSensor::new().grounded);
}

#[test]
fn the_flag_is_dropped_when_nothing_holds_up() {
    assert!(!sense(true, &vec![collision(PLAYER, WALL, UNIT, 0)]));
    assert!(!sense(true, &vec![collision(PLAYER, WALL, 0, UNIT)]));
}

#[test]
fn the_actor_may_be_the_second_body() {
    assert!(sense(false, &vec![collision(FLOOR, PLAYER, 0, UNIT)]));
    assert!(!sense(false, &vec![collision(FLOOR, PLAYER, 0, -UNIT)]));
}

#[test]
fn collisions_of_others_do_not_count() {
    assert!(!sense(true, &vec![collision(WALL, FLOOR, 0, -UNIT)]));
    assert!(!sense(true, &vec![collision(FLOOR, WALL, 0, UNIT)]));
}

#[test]
fn any_one_supporting_contact_is_enough() {
    let contacts = vec![
        collision(PLAYER, WALL, UNIT, 0),
        collision(WALL, FLOOR, 0, -UNIT),
        collision(FLOOR, PLAYER, 0, UNIT),
        collision(PLAYER, WALL, -UNIT, 0),
    ];
    assert!(sense(false, &contacts));
    let contacts = vec![
        collision(PLAYER, FLOOR, 0, -UNIT),
        collision(PLAYER, WALL, UNIT, 0),
    ];
    assert!(sense(false, &contacts));
}

#[test]
fn the_floor_cone_ends_at_one_half() {
    assert_eq!(FLOOR_ALIGNMENT, UNIT / 2);
    assert!(!is_floor(Vec2 { x: 866_025, y: -500_000 }));
    assert!(is_floor(Vec2 { x: 866_025, y: -500_001 }));
    assert!(!sense(false, &vec![collision(PLAYER, FLOOR, 866_025, -500_000)]));
    assert!(sense(false, &vec![collision(PLAYER, FLOOR, 866_025, -500_001)]));
    assert!(is_floor(Vec2 { x: 0, y: i64::MIN }));
    assert!(!is_floor(Vec2 { x: 0, y: i64::MAX }));
    assert!(!is_floor(Vec2 { x: 0, y: 0 }));
}

#[test]
fn the_normal_is_turned_with_the_body() {
    // A body lying on its side: its local right is the world's up.
    let quarter = Rotation::new(0, UNIT).unwrap();
    let mut sensor = GroundSensor::new();
    sensor.sense(PLAYER, quarter, &vec![collision(PLAYER, FLOOR, -UNIT, 0)]);
    assert!(sensor.grounded);
    sensor.sense(PLAYER, quarter, &vec![collision(PLAYER, FLOOR, 0, -UNIT)]);
    assert!(!sensor.grounded);
}

#[test]
fn global_normal_picks_the_side_of_the_target() {
    let event = ContactEvent {
        entity1: PLAYER,
        entity2: FLOOR,
        manifolds: vec![ContactManifold { normal1: normal(0, -UNIT), normal2: normal(600_000, 800_000) }],
    };
    let upright = Rotation::identity();
    assert_eq!(event.global_normal(PLAYER, upright), Some(Vec2 { x: 0, y: -UNIT }));
    assert_eq!(event.global_normal(FLOOR, upright), Some(Vec2 { x: 600_000, y: 800_000 }));
    assert_eq!(event.global_normal(WALL, upright), None);
    assert_eq!(event.side(PLAYER), Some(Side::First));
    assert_eq!(event.side(FLOOR), Some(Side::Second));
    assert_eq!(event.side(WALL), None);
}

#[test]
fn global_normal_rotates_into_the_world() {
    let event = collision(PLAYER, FLOOR, 600_000, 800_000);
    let quarter = Rotation::new(0, UNIT).unwrap();
    assert_eq!(event.global_normal(PLAYER, quarter), Some(Vec2 { x: -800_000, y: 600_000 }));
    let half = Rotation::new(-UNIT, 0).unwrap();
    assert_eq!(event.global_normal(PLAYER, half), Some(Vec2 { x: -600_000, y: -800_000 }));
    let eighth = Rotation::new(707_107, 707_107).unwrap();
    assert_eq!(event.global_normal(PLAYER, eighth), Some(Vec2 { x: -141_421, y: 989_949 }));
    assert_eq!(event.global_normal(FLOOR, eighth), Some(Vec2 { x: 141_421, y: -989_949 }));
}

#[test]
fn a_body_touching_itself_counts_as_the_first() {
    let event = ContactEvent {
        entity1: PLAYER,
        entity2: PLAYER,
        manifolds: vec![ContactManifold { normal1: normal(0, -UNIT), normal2: normal(0, UNIT) }],
    };
    assert_eq!(event.side(PLAYER), Some(Side::First));
    assert_eq!(event.global_normal(PLAYER, Rotation::identity()), Some(Vec2 { x: 0, y: -UNIT }));
}

#[test]
fn watched_body_prefers_the_first() {
    let both = vec![FLOOR, PLAYER];
    assert_eq!(collision(PLAYER, FLOOR, 0, -UNIT).watched_body(&both), Some(PLAYER));
    assert_eq!(collision(FLOOR, PLAYER, 0, UNIT).watched_body(&both), Some(FLOOR));
    let one = vec![PLAYER];
    assert_eq!(collision(FLOOR, PLAYER, 0, UNIT).watched_body(&one), Some(PLAYER));
    assert_eq!(collision(FLOOR, WALL, 0, UNIT).watched_body(&one), None);
    assert_eq!(collision(FLOOR, WALL, 0, UNIT).watched_body(&Vec::new()), None);
    assert!(listed(&both, PLAYER));
    assert!(!listed(&both, WALL));
}
