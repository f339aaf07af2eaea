//! Identifiers of the bodies the physics engine simulates.

use vstd::prelude::*;

verus! {

/// The identifier the engine gave to a body or a constraint.
#[derive(Clone, Copy, Debug, PartialEq, Eq, Hash, Structural)]
pub struct EntityId(pub u64);

} // verus!
