//! The orientation stabiliser: a body that touches a surface is turned to
//! stand upright on it.
//!
//! The upright rotation is the heading of the contact normal plus a quarter
//! turn. A rotation within a hundredth of a radian of zero is snapped to
//! zero, and the body is only turned when that moves it by more than five
//! thousandths of a radian, so a normal that wobbles does not make the body
//! twitch.

use vstd::prelude::*;
use crate::angle::{lemma_separation_bounds, separation, wrapped, Angle, QUARTER_TURN};

verus! {

/// Upright rotations closer to zero than this are taken to be zero: a
/// hundredth of a radian.
pub const SNAP_BAND: i64 = 10_000;

/// A body is left alone unless its rotation is off by more than this: five
/// thousandths of a radian.
pub const HYSTERESIS: i64 = 5_000;

/// The rotation that stands a body upright on a surface whose normal has
/// the given heading.
pub open spec fn upright_rotation(normal_heading: int) -> int {
    let raw = wrapped(normal_heading + QUARTER_TURN);
    if -SNAP_BAND < raw < SNAP_BAND {
        0
    } else {
        raw
    }
}

/// The rotation of a body after the stabiliser has seen a contact.
pub open spec fn stabilized(current: int, normal_heading: int) -> int {
    let target = upright_rotation(normal_heading);
    if separation(current, target) > HYSTERESIS {
        target
    } else {
        current
    }
}

/// Computes the rotation that stands a body upright on a surface whose
/// normal has the given heading.
pub fn upright(normal_heading: Angle) -> (target: Angle)
    ensures
        target@ == upright_rotation(normal_heading@),
{
    let raw = Angle::from_microradians(normal_heading.microradians() + QUARTER_TURN);
    if -SNAP_BAND < raw.microradians() && raw.microradians() < SNAP_BAND {
        Angle::from_microradians(0)
    } else {
        raw
    }
}

/// Turns a body upright on the surface it touches, if it is off by more
/// than the hysteresis; says whether it turned the body.
pub fn stabilize(rotation: &mut Angle, normal_heading: Angle) -> (turned: bool)
    ensures
        final(rotation)@ == stabilized(old(rotation)@, normal_heading@),
        turned == (separation(old(rotation)@, upright_rotation(normal_heading@)) > HYSTERESIS),
        !turned ==> *final(rotation) == *old(rotation),
{
    let target = upright(normal_heading);
    if rotation.separation_from(target) > HYSTERESIS {
        *rotation = target;
        true
    } else {
        false
    }
}

/// Stabilising is idempotent: a second contact with the same normal leaves
/// the rotation where the first one put it, and that is within the
/// hysteresis of upright.
pub proof fn lemma_stabilize_idempotent(current: int, normal_heading: int)
    ensures
        stabilized(stabilized(current, normal_heading), normal_heading) == stabilized(
            current,
            normal_heading,
        ),
        separation(stabilized(current, normal_heading), upright_rotation(normal_heading))
            <= HYSTERESIS,
{
    lemma_separation_bounds(upright_rotation(normal_heading), upright_rotation(normal_heading));
}

} // verus!
