//! Plane geometry over fixed-point coordinates.

use vstd::prelude::*;
use crate::units::{
    lemma_scaled_bound, lemma_unit_length, magnitude, scaled, unit_part, unit_parts, UNIT,
    WORLD_LIMIT,
};

verus! {

/// A point or displacement in the plane, in millionths.
#[derive(Clone, Copy, Debug, PartialEq, Eq, Structural)]
pub struct Vec2 {
    pub x: i64,
    pub y: i64,
}

impl Vec2 {
    /// The dot product of two vectors, in millionths squared.
    pub open spec fn dot(self, other: Vec2) -> int {
        self.x * other.x + self.y * other.y
    }

    /// Whether both coordinates have a magnitude of at most `limit`.
    pub open spec fn within(self, limit: int) -> bool {
        -limit <= self.x <= limit && -limit <= self.y <= limit
    }

    /// Whether the point lies in the part of the plane the library computes on.
    pub open spec fn in_world(self) -> bool {
        self.within(WORLD_LIMIT as int)
    }

    /// Whether the vector is one long, to within a millionth: it is shorter
    /// than one and a millionth, and making each coordinate one millionth
    /// larger in magnitude makes it longer than one.
    pub open spec fn is_unit_long(self) -> bool {
        &&& self.dot(self) < (UNIT + 1) * (UNIT + 1)
        &&& (magnitude(self.x as int) + 1) * (magnitude(self.x as int) + 1) + (magnitude(
            self.y as int,
        ) + 1) * (magnitude(self.y as int) + 1) + 1 > UNIT * UNIT
    }

    /// Tests whether the point lies within the world's bounds.
    pub fn is_in_world(&self) -> (inside: bool)
        ensures
            inside == self.in_world(),
    {
        -WORLD_LIMIT <= self.x && self.x <= WORLD_LIMIT && -WORLD_LIMIT <= self.y && self.y
            <= WORLD_LIMIT
    }
}

/// A vector in space, in millionths, such as the scale of a transform.
#[derive(Clone, Copy, Debug, PartialEq, Eq, Structural)]
pub struct Vec3 {
    pub x: i64,
    pub y: i64,
    pub z: i64,
}

impl Vec3 {
    /// The dot product of two vectors, in millionths squared.
    pub open spec fn dot(self, other: Vec3) -> int {
        self.x * other.x + self.y * other.y + self.z * other.z
    }

    /// Whether every coordinate is zero.
    pub open spec fn is_zero(self) -> bool {
        self.x == 0 && self.y == 0 && self.z == 0
    }

    /// Whether the three coordinates are equal.
    pub open spec fn is_uniform(self) -> bool {
        self.x == self.y && self.y == self.z
    }

    /// Whether every coordinate has a magnitude of at most `limit`.
    pub open spec fn within(self, limit: int) -> bool {
        -limit <= self.x <= limit && -limit <= self.y <= limit && -limit <= self.z <= limit
    }

    /// Whether the vector is one long, to within a millionth: it is shorter
    /// than one and a millionth, and making each coordinate one millionth
    /// larger in magnitude makes it longer than one.
    pub open spec fn is_unit_long(self) -> bool {
        &&& self.dot(self) < (UNIT + 1) * (UNIT + 1)
        &&& (magnitude(self.x as int) + 1) * (magnitude(self.x as int) + 1) + (magnitude(
            self.y as int,
        ) + 1) * (magnitude(self.y as int) + 1) + (magnitude(self.z as int) + 1) * (magnitude(
            self.z as int,
        ) + 1) > UNIT * UNIT
    }

    /// The unit vector along this one: each coordinate divided by the
    /// length.
    pub open spec fn direction(self) -> Vec3 {
        Vec3 {
            x: unit_part(self.x as int, self.dot(self)) as i64,
            y: unit_part(self.y as int, self.dot(self)) as i64,
            z: unit_part(self.z as int, self.dot(self)) as i64,
        }
    }

    /// Computes the unit vector along this one; the zero vector has none.
    pub fn normalized(&self) -> (unit: Option<Vec3>)
        ensures
            unit is Some <==> !self.is_zero(),
            unit matches Some(u) ==> {
                &&& u == self.direction()
                &&& u.x == unit_part(self.x as int, self.dot(*self))
                &&& u.y == unit_part(self.y as int, self.dot(*self))
                &&& u.z == unit_part(self.z as int, self.dot(*self))
                &&& u.within(UNIT as int)
                &&& u.is_unit_long()
            },
    {
        match unit_parts(self.x as i128, self.y as i128, self.z as i128) {
            Some((x, y, z)) => {
                proof {
                    lemma_unit_length(self.x as int, self.y as int, self.z as int);
                }
                Some(Vec3 { x, y, z })
            },
            None => None,
        }
    }
}

/// The unit vector pointing straight up.
pub open spec fn up() -> Vec2 {
    Vec2 { x: 0, y: UNIT }
}

/// A vector whose coordinates are at most one in magnitude, as those of a
/// surface normal or of a ray's heading are.
#[derive(Clone, Copy, Debug, PartialEq, Eq, Structural)]
pub struct Direction {
    x: i64,
    y: i64,
}

impl View for Direction {
    type V = Vec2;

    closed spec fn view(&self) -> Vec2 {
        Vec2 { x: self.x, y: self.y }
    }
}

impl Direction {
    #[verifier::type_invariant]
    closed spec fn bounded(self) -> bool {
        self@.within(UNIT as int)
    }

    /// The direction with the coordinates of `v`.
    pub closed spec fn of(v: Vec2) -> Direction {
        Direction { x: v.x, y: v.y }
    }

    /// A direction is determined by its coordinates.
    pub proof fn lemma_of_view(self)
        ensures
            Direction::of(self@) == self,
    {
    }

    /// A direction built from coordinates has those coordinates.
    pub proof fn lemma_view_of(v: Vec2)
        ensures
            Direction::of(v)@ == v,
    {
    }

    /// Builds a direction from its coordinates, if neither exceeds one.
    pub fn new(x: i64, y: i64) -> (made: Option<Direction>)
        ensures
            made is Some <==> (Vec2 { x, y }).within(UNIT as int),
            made is Some ==> made == Some(Direction::of(Vec2 { x, y })),
    {
        if -UNIT <= x && x <= UNIT && -UNIT <= y && y <= UNIT {
            Some(Direction { x, y })
        } else {
            None
        }
    }

    /// The direction's coordinates.
    pub fn coordinates(&self) -> (v: Vec2)
        ensures
            v == self@,
            v.within(UNIT as int),
    {
        proof {
            use_type_invariant(self);
        }
        Vec2 { x: self.x, y: self.y }
    }
}

/// A rotation of the plane, held as the cosine and sine of its angle.
#[derive(Clone, Copy, Debug, PartialEq, Eq, Structural)]
pub struct Rotation {
    cos: i64,
    sin: i64,
}

impl Rotation {
    /// The cosine of the rotation's angle, in millionths.
    pub closed spec fn cos(self) -> int {
        self.cos as int
    }

    /// The sine of the rotation's angle, in millionths.
    pub closed spec fn sin(self) -> int {
        self.sin as int
    }

    #[verifier::type_invariant]
    closed spec fn bounded(self) -> bool {
        -UNIT <= self.cos <= UNIT && -UNIT <= self.sin <= UNIT
    }

    /// Where the rotation takes the vector `v`: the cosine times `v` plus
    /// the sine times `v` turned a quarter turn.
    pub open spec fn applied(self, v: Vec2) -> Vec2 {
        Vec2 {
            x: (scaled(self.cos(), v.x as int) - scaled(self.sin(), v.y as int)) as i64,
            y: (scaled(self.sin(), v.x as int) + scaled(self.cos(), v.y as int)) as i64,
        }
    }

    /// Builds a rotation from a cosine and a sine, if neither exceeds one.
    pub fn new(cos: i64, sin: i64) -> (made: Option<Rotation>)
        ensures
            made is Some <==> (-UNIT <= cos <= UNIT && -UNIT <= sin <= UNIT),
            made matches Some(r) ==> r.cos() == cos && r.sin() == sin,
    {
        if -UNIT <= cos && cos <= UNIT && -UNIT <= sin && sin <= UNIT {
            Some(Rotation { cos, sin })
        } else {
            None
        }
    }

    /// The rotation that turns nothing.
    pub fn identity() -> (r: Rotation)
        ensures
            r.cos() == UNIT,
            r.sin() == 0,
    {
        Rotation { cos: UNIT, sin: 0 }
    }

    /// The cosine of the rotation's angle.
    pub fn cosine(&self) -> (c: i64)
        ensures
            c == self.cos(),
            -UNIT <= c <= UNIT,
    {
        proof {
            use_type_invariant(self);
        }
        self.cos
    }

    /// The sine of the rotation's angle.
    pub fn sine(&self) -> (s: i64)
        ensures
            s == self.sin(),
            -UNIT <= s <= UNIT,
    {
        proof {
            use_type_invariant(self);
        }
        self.sin
    }

    /// Turns a direction by this rotation.
    pub fn rotate(&self, d: Direction) -> (turned: Vec2)
        ensures
            turned == self.applied(d@),
            turned.x == scaled(self.cos(), d@.x as int) - scaled(self.sin(), d@.y as int),
            turned.y == scaled(self.sin(), d@.x as int) + scaled(self.cos(), d@.y as int),
            turned.within(2 * UNIT),
    {
        let v = d.coordinates();
        proof {
            use_type_invariant(self);
            lemma_scaled_bound(self.cos(), v.x as int, UNIT as int, UNIT as int);
            lemma_scaled_bound(self.sin(), v.y as int, UNIT as int, UNIT as int);
            lemma_scaled_bound(self.sin(), v.x as int, UNIT as int, UNIT as int);
            lemma_scaled_bound(self.cos(), v.y as int, UNIT as int, UNIT as int);
        }
        let x = (self.cos * v.x) / UNIT - (self.sin * v.y) / UNIT;
        let y = (self.sin * v.x) / UNIT + (self.cos * v.y) / UNIT;
        Vec2 { x, y }
    }
}

} // verus!
