//! The ground detector: an actor is grounded in a tick exactly when some
//! contact of that tick holds it up.

use vstd::prelude::*;
use crate::contact::ContactEvent;
use crate::entity::EntityId;
use crate::units::UNIT;
use crate::vector::{up, Rotation, Vec2};

verus! {

/// How well a surface must face upward to count as ground: the normal from
/// the surface into the actor, dotted with straight up, must exceed a half.
pub const FLOOR_ALIGNMENT: i64 = 500_000;

/// How well the surface under a contact faces upward: the dot product of
/// the inverted outward normal with straight up, in millionths squared.
pub open spec fn floor_alignment(outward: Vec2) -> int {
    -outward.dot(up())
}

/// Whether a contact with that outward normal holds the actor up.
pub open spec fn holds_up(outward: Vec2) -> bool {
    floor_alignment(outward) > FLOOR_ALIGNMENT * UNIT
}

/// Whether a collision holds the actor up: it touches the actor, and the
/// surface it touches faces upward well enough.
pub open spec fn supports(event: ContactEvent, actor: EntityId, rotation: Rotation) -> bool {
    event.outward_normal(actor, rotation) matches Some(outward) && holds_up(outward)
}

/// Whether any collision of a tick holds the actor up.
pub open spec fn supported(contacts: Seq<ContactEvent>, actor: EntityId, rotation: Rotation) -> bool {
    exists|i: int| 0 <= i < contacts.len() && supports(#[trigger] contacts[i], actor, rotation)
}

/// Tests whether a contact with that outward normal holds the actor up.
pub fn is_floor(outward: Vec2) -> (floor: bool)
    ensures
        floor == holds_up(outward),
{
    proof {
        assert(outward.dot(up()) == outward.y * UNIT) by (nonlinear_arith)
            requires
                outward.dot(up()) == outward.x * 0 + outward.y * UNIT,
        ;
    }
    outward.y < -FLOOR_ALIGNMENT
}

/// The grounded flag of an actor.
#[derive(Clone, Copy, Debug, PartialEq, Eq, Structural)]
pub struct GroundSensor {
    pub grounded: bool,
}

impl GroundSensor {
    /// A sensor of an actor that is in the air.
    pub fn new() -> (sensor: GroundSensor)
        ensures
            !sensor.grounded,
    {
        GroundSensor { grounded: false }
    }

    /// Evaluates one tick: the flag is dropped, whatever it was, and raised
    /// again exactly if one of the tick's collisions holds the actor up.
    pub fn sense(&mut self, actor: EntityId, rotation: Rotation, contacts: &Vec<ContactEvent>)
        requires
            forall|i: int| 0 <= i < contacts@.len() ==> (#[trigger] contacts@[i]).is_single(),
        ensures
            final(self).grounded == supported(contacts@, actor, rotation),
    {
        self.grounded = false;
        let mut i: usize = 0;
        while i < contacts.len()
            invariant
                i <= contacts.len(),
                forall|j: int| 0 <= j < contacts@.len() ==> (#[trigger] contacts@[j]).is_single(),
                self.grounded == supported(contacts@.take(i as int), actor, rotation),
            decreases contacts.len() - i,
        {
            let held = match contacts[i].global_normal(actor, rotation) {
                Some(outward) => is_floor(outward),
                None => false,
            };
            proof {
                let before = contacts@.take(i as int);
                let after = contacts@.take(i + 1);
                assert(held == supports(contacts@[i as int], actor, rotation));
                assert(after[i as int] == contacts@[i as int]);
                if supported(before, actor, rotation) {
                    let k = choose|k: int|
                        0 <= k < before.len() && supports(#[trigger] before[k], actor, rotation);
                    assert(after[k] == before[k]);
                }
                if supported(after, actor, rotation) {
                    let k = choose|k: int|
                        0 <= k < after.len() && supports(#[trigger] after[k], actor, rotation);
                    if k < i {
                        assert(before[k] == after[k]);
                    }
                }
            }
            self.grounded = self.grounded || held;
            i = i + 1;
        }
        proof {
            assert(contacts@.take(i as int) == contacts@);
        }
    }
}

} // verus!
