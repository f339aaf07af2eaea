//! Collision events as the physics engine reports them, and the normal of a
//! body's surface where it touches another.

use vstd::prelude::*;
use crate::entity::EntityId;
use crate::vector::{Direction, Rotation, Vec2};

verus! {

/// The geometry of one contact between two bodies: the normal of the
/// contact surface as each body sees it, in its own frame, pointing out of
/// that body.
#[derive(Clone, Copy, Debug, PartialEq, Eq, Structural)]
pub struct ContactManifold {
    pub normal1: Direction,
    pub normal2: Direction,
}

/// A collision between two bodies during one step of the simulation.
#[derive(Debug)]
pub struct ContactEvent {
    pub entity1: EntityId,
    pub entity2: EntityId,
    pub manifolds: Vec<ContactManifold>,
}

/// Which of the two bodies of a collision is meant.
#[derive(Clone, Copy, Debug, PartialEq, Eq, Structural)]
pub enum Side {
    First,
    Second,
}

impl ContactEvent {
    /// Whether the collision has exactly one manifold, as every collision
    /// this library reads must.
    pub open spec fn is_single(self) -> bool {
        self.manifolds@.len() == 1
    }

    /// Which body of the collision `target` is, if it is either. A body that
    /// collides with itself counts as the first.
    pub open spec fn side_of(self, target: EntityId) -> Option<Side> {
        if self.entity1 == target {
            Some(Side::First)
        } else if self.entity2 == target {
            Some(Side::Second)
        } else {
            None
        }
    }

    /// The contact normal in the frame of the body on that side.
    pub open spec fn local_normal(self, side: Side) -> Direction {
        match side {
            Side::First => self.manifolds@[0].normal1,
            Side::Second => self.manifolds@[0].normal2,
        }
    }

    /// The normal of `target`'s surface at the contact, pointing out of
    /// `target`, in the world's frame; nothing if `target` is not part of
    /// the collision.
    pub open spec fn outward_normal(self, target: EntityId, rotation: Rotation) -> Option<Vec2> {
        match self.side_of(target) {
            Some(side) => Some(rotation.applied(self.local_normal(side)@)),
            None => None,
        }
    }

    /// The first of the collision's two bodies that is among `watched`.
    pub open spec fn first_watched(self, watched: Seq<EntityId>) -> Option<EntityId> {
        if watched.contains(self.entity1) {
            Some(self.entity1)
        } else if watched.contains(self.entity2) {
            Some(self.entity2)
        } else {
            None
        }
    }

    /// Finds which body of the collision `target` is.
    pub fn side(&self, target: EntityId) -> (side: Option<Side>)
        ensures
            side == self.side_of(target),
    {
        if self.entity1 == target {
            Some(Side::First)
        } else if self.entity2 == target {
            Some(Side::Second)
        } else {
            None
        }
    }

    /// Extracts the world-space normal of `target`'s surface at the contact,
    /// given `target`'s rotation. Declines when `target` is neither body of
    /// the collision.
    pub fn global_normal(&self, target: EntityId, rotation: Rotation) -> (normal: Option<Vec2>)
        requires
            self.is_single(),
        ensures
            normal == self.outward_normal(target, rotation),
            normal is Some <==> (self.entity1 == target || self.entity2 == target),
            normal matches Some(n) ==> n.within(2_000_000),
    {
        match self.side(target) {
            Some(Side::First) => Some(rotation.rotate(self.manifolds[0].normal1)),
            Some(Side::Second) => Some(rotation.rotate(self.manifolds[0].normal2)),
            None => None,
        }
    }

    /// Picks the body of the collision that is among `watched`, the first
    /// body before the second.
    pub fn watched_body(&self, watched: &Vec<EntityId>) -> (body: Option<EntityId>)
        ensures
            body == self.first_watched(watched@),
    {
        if listed(watched, self.entity1) {
            Some(self.entity1)
        } else if listed(watched, self.entity2) {
            Some(self.entity2)
        } else {
            None
        }
    }
}

/// Tests whether `entity` is among `entities`.
pub fn listed(entities: &Vec<EntityId>, entity: EntityId) -> (found: bool)
    ensures
        found == entities@.contains(entity),
{
    let mut i: usize = 0;
    while i < entities.len()
        invariant
            i <= entities.len(),
            forall|j: int| 0 <= j < i ==> entities@[j] != entity,
        decreases entities.len() - i,
    {
        if entities[i] == entity {
            return true;
        }
        i = i + 1;
    }
    false
}

} // verus!
