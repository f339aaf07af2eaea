//! Angles in millionths of a radian, kept within half a turn of zero.

use vstd::prelude::*;

verus! {

/// A quarter of a turn.
pub const QUARTER_TURN: i64 = 1_570_796;

/// Half a turn, rounded down.
pub const HALF_TURN: i64 = 3_141_592;

/// A whole turn.
pub const FULL_TURN: i64 = 6_283_185;

/// The angle within half a turn of zero that points the same way as `v`.
pub open spec fn wrapped(v: int) -> int {
    let rest = v % (FULL_TURN as int);
    if rest > HALF_TURN {
        rest - FULL_TURN
    } else {
        rest
    }
}

/// How far apart two angles are, going round the shorter way.
pub open spec fn separation(a: int, b: int) -> int {
    let ahead = (a - b) % (FULL_TURN as int);
    if ahead > FULL_TURN - ahead {
        FULL_TURN - ahead
    } else {
        ahead
    }
}

/// An angle has no distance to itself, and no two angles are further apart
/// than half a turn.
pub proof fn lemma_separation_bounds(a: int, b: int)
    ensures
        separation(a, a) == 0,
        0 <= separation(a, b) <= HALF_TURN,
        separation(a, b) == separation(b, a),
{
    let ahead = (a - b) % (FULL_TURN as int);
    let behind = (b - a) % (FULL_TURN as int);
    assert(ahead == 0 ==> behind == 0);
    assert(ahead != 0 ==> behind == FULL_TURN - ahead);
}

/// An angle, normalised to lie within half a turn of zero.
#[derive(Clone, Copy, Debug, PartialEq, Eq, Structural)]
pub struct Angle {
    microradians: i64,
}

impl View for Angle {
    type V = int;

    closed spec fn view(&self) -> int {
        self.microradians as int
    }
}

impl Angle {
    #[verifier::type_invariant]
    closed spec fn normalised(self) -> bool {
        -HALF_TURN <= self.microradians <= HALF_TURN
    }

    /// The angle of so many millionths of a radian, brought within half a
    /// turn of zero.
    pub fn from_microradians(v: i64) -> (angle: Angle)
        ensures
            angle@ == wrapped(v as int),
            -HALF_TURN <= angle@ <= HALF_TURN,
    {
        let rest = v % FULL_TURN;
        let microradians = if rest > HALF_TURN {
            rest - FULL_TURN
        } else if rest < -HALF_TURN {
            rest + FULL_TURN
        } else {
            rest
        };
        Angle { microradians }
    }

    /// The angle in millionths of a radian.
    pub fn microradians(&self) -> (v: i64)
        ensures
            v == self@,
            -HALF_TURN <= v <= HALF_TURN,
    {
        proof {
            use_type_invariant(self);
        }
        self.microradians
    }

    /// How far this angle is from another, going round the shorter way.
    pub fn separation_from(&self, other: Angle) -> (apart: i64)
        ensures
            apart == separation(self@, other@),
            0 <= apart <= HALF_TURN,
    {
        let difference = self.microradians() - other.microradians();
        let ahead = if difference < 0 {
            difference + FULL_TURN
        } else {
            difference
        };
        if ahead > FULL_TURN - ahead {
            FULL_TURN - ahead
        } else {
            ahead
        }
    }
}

} // verus!
