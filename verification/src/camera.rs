//! The camera rig: panning by dragging, zooming by scrolling, and the cache
//! of where the pointer is in the world.

use vstd::prelude::*;
use crate::units::{
    fits_i64, lemma_part_brackets, lemma_scaled_bound, lemma_unit_length, magnitude, scaled,
    unit_part, UNIT,
};
use crate::vector::{Vec2, Vec3};

verus! {

/// What a scroll measured in pixels counts for, next to one measured in
/// lines: a tenth.
pub const PIXEL_SCROLL_WEIGHT: i64 = 100_000;

/// How far one line of scrolling moves the scale along its direction: a
/// tenth.
pub const ZOOM_STEP: i64 = 100_000;

/// The most that may be scrolled in one tick, either way: a million million
/// lines.
pub const SCROLL_LIMIT: i64 = 1_000_000_000_000_000_000;

/// The unit a scroll was measured in.
#[derive(Clone, Copy, Debug, PartialEq, Eq, Structural)]
pub enum ScrollUnit {
    Line,
    Pixel,
}

/// One scroll of the wheel.
#[derive(Clone, Copy, Debug, PartialEq, Eq, Structural)]
pub struct ScrollEvent {
    pub unit: ScrollUnit,
    pub y: i64,
}

/// The camera's transform: where it looks and its scale along each axis.
/// The scale is uniform as long as nothing but zooming changes it.
#[derive(Clone, Copy, Debug, PartialEq, Eq, Structural)]
pub struct CameraState {
    pub translation: Vec2,
    pub scale: Vec3,
}

/// The last known position of the pointer in the world.
#[derive(Clone, Copy, Debug, PartialEq, Eq, Structural)]
pub struct WorldCursor {
    pub position: Vec2,
}

/// The sign of `v`: minus one, zero or one.
pub open spec fn signum(v: int) -> int {
    if v > 0 {
        1
    } else if v < 0 {
        -1
    } else {
        0
    }
}

impl ScrollEvent {
    /// What the scroll counts for, in lines.
    pub open spec fn weight(self) -> int {
        match self.unit {
            ScrollUnit::Line => self.y as int,
            ScrollUnit::Pixel => scaled(self.y as int, PIXEL_SCROLL_WEIGHT as int),
        }
    }
}

/// The sum of what each scroll counts for.
pub open spec fn scroll_total(scrolls: Seq<ScrollEvent>) -> int
    decreases scrolls.len(),
{
    if scrolls.len() == 0 {
        0
    } else {
        scroll_total(scrolls.drop_last()) + scrolls.last().weight()
    }
}

/// The sum of the horizontal parts of the pointer's motions.
pub open spec fn motion_total_x(motions: Seq<Vec2>) -> int
    decreases motions.len(),
{
    if motions.len() == 0 {
        0
    } else {
        motion_total_x(motions.drop_last()) + motions.last().x
    }
}

/// The sum of the vertical parts of the pointer's motions.
pub open spec fn motion_total_y(motions: Seq<Vec2>) -> int
    decreases motions.len(),
{
    if motions.len() == 0 {
        0
    } else {
        motion_total_y(motions.drop_last()) + motions.last().y
    }
}

/// How far a tick's scrolls move the scale along its direction: the
/// inverted scroll total times the zoom step.
pub open spec fn zoom_stride(scrolls: Seq<ScrollEvent>) -> int {
    scaled(-scroll_total(scrolls), ZOOM_STEP as int)
}

/// Whether a tick's scroll total is within what may be scrolled in a tick.
pub open spec fn scroll_in_range(scrolls: Seq<ScrollEvent>) -> bool {
    -SCROLL_LIMIT <= scroll_total(scrolls) <= SCROLL_LIMIT
}

impl CameraState {
    /// Where a drag takes the camera horizontally: against the pointer's
    /// total motion, scaled by the zoom factor, which is the horizontal
    /// scale.
    pub open spec fn pan_target_x(self, motions: Seq<Vec2>) -> int {
        self.translation.x + scaled(-motion_total_x(motions), self.scale.x as int)
    }

    /// Where a drag takes the camera vertically: with the pointer's total
    /// motion, scaled by the zoom factor.
    pub open spec fn pan_target_y(self, motions: Seq<Vec2>) -> int {
        self.translation.y + scaled(motion_total_y(motions), self.scale.x as int)
    }

    /// Whether the camera can be stored after the drag.
    pub open spec fn pan_fits(self, pan_held: bool, motions: Seq<Vec2>) -> bool {
        pan_held ==> fits_i64(self.pan_target_x(motions)) && fits_i64(self.pan_target_y(motions))
    }

    /// The camera after a tick of dragging: moved while the pan button is
    /// held, untouched otherwise.
    pub open spec fn panned(self, pan_held: bool, motions: Seq<Vec2>) -> CameraState {
        if pan_held {
            CameraState {
                translation: Vec2 {
                    x: self.pan_target_x(motions) as i64,
                    y: self.pan_target_y(motions) as i64,
                },
                scale: self.scale,
            }
        } else {
            self
        }
    }

    /// The scale that scrolling asks for, coordinate by coordinate: the
    /// scale moved by the stride along its own direction.
    pub open spec fn zoom_candidate(self, scrolls: Seq<ScrollEvent>) -> (int, int, int) {
        let along = self.scale.direction();
        let stride = zoom_stride(scrolls);
        (
            self.scale.x + scaled(along.x as int, stride),
            self.scale.y + scaled(along.y as int, stride),
            self.scale.z + scaled(along.z as int, stride),
        )
    }

    /// Whether the scale that scrolling asks for is taken: it must still
    /// point the way the scale points, which is to say that its dot product
    /// with the scale's direction must be positive. A scale of zero has no
    /// direction, and stays.
    pub open spec fn zoom_accepts(self, scrolls: Seq<ScrollEvent>) -> bool {
        let along = self.scale.direction();
        let candidate = self.zoom_candidate(scrolls);
        !self.scale.is_zero() && candidate.0 * along.x + candidate.1 * along.y + candidate.2
            * along.z > 0
    }

    /// Whether the zoom can be computed and its result stored: the scroll
    /// total is in range and, if the new scale is taken, it fits.
    pub open spec fn zoom_fits(self, scrolls: Seq<ScrollEvent>) -> bool {
        let candidate = self.zoom_candidate(scrolls);
        scroll_in_range(scrolls) && (self.zoom_accepts(scrolls) ==> fits_i64(candidate.0)
            && fits_i64(candidate.1) && fits_i64(candidate.2))
    }

    /// The camera after a tick of scrolling.
    pub open spec fn zoomed(self, scrolls: Seq<ScrollEvent>) -> CameraState {
        let candidate = self.zoom_candidate(scrolls);
        if self.zoom_accepts(scrolls) {
            CameraState {
                translation: self.translation,
                scale: Vec3 {
                    x: candidate.0 as i64,
                    y: candidate.1 as i64,
                    z: candidate.2 as i64,
                },
            }
        } else {
            self
        }
    }

    /// Whether every tick of a run of scrolls can be computed and stored.
    pub open spec fn zoom_fits_through(self, ticks: Seq<Seq<ScrollEvent>>) -> bool
        decreases ticks.len(),
    {
        ticks.len() > 0 ==> self.zoom_fits_through(ticks.drop_last()) && self.zoomed_through(
            ticks.drop_last(),
        ).zoom_fits(ticks.last())
    }

    /// The camera after the scrolls of several ticks, one tick after
    /// another.
    pub open spec fn zoomed_through(self, ticks: Seq<Seq<ScrollEvent>>) -> CameraState
        decreases ticks.len(),
    {
        if ticks.len() == 0 {
            self
        } else {
            self.zoomed_through(ticks.drop_last()).zoomed(ticks.last())
        }
    }

    /// Drags the camera by this tick's pointer motions, if the place they
    /// lead to can be stored; says whether it did.
    pub fn try_pan(&mut self, pan_held: bool, motions: &Vec<Vec2>) -> (moved: bool)
        ensures
            moved == old(self).pan_fits(pan_held, motions@),
            moved ==> *final(self) == old(self).panned(pan_held, motions@),
            !moved ==> *final(self) == *old(self),
    {
        if !pan_held {
            return true;
        }
        let mut sum_x: i128 = 0;
        let mut sum_y: i128 = 0;
        let mut i: usize = 0;
        while i < motions.len()
            invariant
                i <= motions.len(),
                sum_x == motion_total_x(motions@.take(i as int)),
                sum_y == motion_total_y(motions@.take(i as int)),
                -(i * 0x8000_0000_0000_0000) <= sum_x <= i * 0x8000_0000_0000_0000,
                -(i * 0x8000_0000_0000_0000) <= sum_y <= i * 0x8000_0000_0000_0000,
            decreases motions.len() - i,
        {
            proof {
                assert(motions@.take(i + 1).drop_last() == motions@.take(i as int));
            }
            sum_x = sum_x + motions[i].x as i128;
            sum_y = sum_y + motions[i].y as i128;
            i = i + 1;
        }
        proof {
            assert(motions@.take(i as int) == motions@);
        }
        let scale = self.scale.x as i128;
        let x = match (-sum_x).checked_mul(scale) {
            Some(product) => self.translation.x as i128 + product / (UNIT as i128),
            None => {
                return false;
            },
        };
        let y = match sum_y.checked_mul(scale) {
            Some(product) => self.translation.y as i128 + product / (UNIT as i128),
            None => {
                return false;
            },
        };
        if x < i64::MIN as i128 || x > i64::MAX as i128 || y < i64::MIN as i128 || y
            > i64::MAX as i128 {
            return false;
        }
        self.translation = Vec2 { x: x as i64, y: y as i64 };
        true
    }

    /// Drags the camera by this tick's pointer motions while the pan button
    /// is held.
    pub fn pan(&mut self, pan_held: bool, motions: &Vec<Vec2>)
        requires
            old(self).pan_fits(pan_held, motions@),
        ensures
            *final(self) == old(self).panned(pan_held, motions@),
    {
        let _ = self.try_pan(pan_held, motions);
    }

    /// Zooms by this tick's scrolls, if that can be computed and the scale
    /// they lead to can be stored; says whether it could.
    pub fn try_zoom(&mut self, scrolls: &Vec<ScrollEvent>) -> (stored: bool)
        ensures
            stored == old(self).zoom_fits(scrolls@),
            stored ==> *final(self) == old(self).zoomed(scrolls@),
            !stored ==> *final(self) == *old(self),
            old(self).scale.is_uniform() ==> final(self).scale.is_uniform() && signum(
                final(self).scale.x as int,
            ) == signum(old(self).scale.x as int),
    {
        proof {
            if self.scale.is_uniform() && self.zoom_fits(scrolls@) {
                lemma_zoom_keeps_sign(*self, scrolls@);
            }
        }
        let mut total: i128 = 0;
        let mut i: usize = 0;
        while i < scrolls.len()
            invariant
                i <= scrolls.len(),
                total == scroll_total(scrolls@.take(i as int)),
                -(i * 0x8000_0000_0000_0000) <= total <= i * 0x8000_0000_0000_0000,
            decreases scrolls.len() - i,
        {
            proof {
                assert(scrolls@.take(i + 1).drop_last() == scrolls@.take(i as int));
            }
            let event = scrolls[i];
            let weight: i128 = match event.unit {
                ScrollUnit::Line => event.y as i128,
                ScrollUnit::Pixel => {
                    proof {
                        lemma_scaled_bound(
                            event.y as int,
                            PIXEL_SCROLL_WEIGHT as int,
                            0x8000_0000_0000_0000,
                            PIXEL_SCROLL_WEIGHT as int,
                        );
                    }
                    (event.y as i128 * PIXEL_SCROLL_WEIGHT as i128) / (UNIT as i128)
                },
            };
            total = total + weight;
            i = i + 1;
        }
        proof {
            assert(scrolls@.take(i as int) == scrolls@);
        }
        if total < -(SCROLL_LIMIT as i128) || total > SCROLL_LIMIT as i128 {
            return false;
        }
        proof {
            lemma_scaled_bound(-total, ZOOM_STEP as int, SCROLL_LIMIT as int, ZOOM_STEP as int);
        }
        let stride: i128 = ((-total) * ZOOM_STEP as i128) / (UNIT as i128);
        let along = match self.scale.normalized() {
            Some(along) => along,
            None => {
                return true;
            },
        };
        proof {
            lemma_scaled_bound(along.x as int, stride as int, UNIT as int, SCROLL_LIMIT as int);
            lemma_scaled_bound(along.y as int, stride as int, UNIT as int, SCROLL_LIMIT as int);
            lemma_scaled_bound(along.z as int, stride as int, UNIT as int, SCROLL_LIMIT as int);
        }
        let x: i128 = self.scale.x as i128 + (along.x as i128 * stride) / (UNIT as i128);
        let y: i128 = self.scale.y as i128 + (along.y as i128 * stride) / (UNIT as i128);
        let z: i128 = self.scale.z as i128 + (along.z as i128 * stride) / (UNIT as i128);
        proof {
            lemma_scaled_bound(x as int, along.x as int, 0x1_0000_0000_0000_0000, UNIT as int);
            lemma_scaled_bound(y as int, along.y as int, 0x1_0000_0000_0000_0000, UNIT as int);
            lemma_scaled_bound(z as int, along.z as int, 0x1_0000_0000_0000_0000, UNIT as int);
        }
        let alignment: i128 = x * along.x as i128 + y * along.y as i128 + z * along.z as i128;
        if alignment <= 0 {
            return true;
        }
        if x < i64::MIN as i128 || x > i64::MAX as i128 || y < i64::MIN as i128 || y
            > i64::MAX as i128 || z < i64::MIN as i128 || z > i64::MAX as i128 {
            return false;
        }
        self.scale = Vec3 { x: x as i64, y: y as i64, z: z as i64 };
        true
    }

    /// Zooms by this tick's scrolls. A uniform scale stays uniform and
    /// keeps its sign.
    pub fn zoom(&mut self, scrolls: &Vec<ScrollEvent>)
        requires
            old(self).zoom_fits(scrolls@),
        ensures
            *final(self) == old(self).zoomed(scrolls@),
            old(self).scale.is_uniform() ==> final(self).scale.is_uniform() && signum(
                final(self).scale.x as int,
            ) == signum(old(self).scale.x as int),
    {
        let _ = self.try_zoom(scrolls);
    }
}

impl WorldCursor {
    /// A cursor that has not been seen yet and rests at the origin.
    pub fn new() -> (cursor: WorldCursor)
        ensures
            cursor.position == (Vec2 { x: 0, y: 0 }),
    {
        WorldCursor { position: Vec2 { x: 0, y: 0 } }
    }

    /// Takes this tick's sighting of the pointer: its place in the world
    /// while it is over the window, nothing while it is not. The cache
    /// follows the pointer and keeps the last place once it has left.
    pub fn observe(&mut self, sighting: Option<Vec2>)
        ensures
            final(self).position == match sighting {
                Some(place) => place,
                None => old(self).position,
            },
    {
        match sighting {
            Some(place) => {
                self.position = place;
            },
            None => {},
        }
    }
}

/// Zooming never takes a uniform scale across zero: whatever is scrolled in
/// a tick, the scale stays uniform and keeps its sign.
pub proof fn lemma_zoom_keeps_sign(camera: CameraState, scrolls: Seq<ScrollEvent>)
    requires
        camera.scale.is_uniform(),
        camera.zoom_fits(scrolls),
    ensures
        camera.zoomed(scrolls).scale.is_uniform(),
        signum(camera.zoomed(scrolls).scale.x as int) == signum(camera.scale.x as int),
        camera.zoomed(scrolls).translation == camera.translation,
{
    let s = camera.scale.x as int;
    if camera.zoom_accepts(scrolls) {
        let squared = camera.scale.dot(camera.scale);
        assert(squared == s * s + s * s + s * s);
        assert(squared > 0) by (nonlinear_arith)
            requires
                squared == s * s + s * s + s * s,
                s != 0,
        ;
        lemma_part_brackets(s, squared);
        lemma_unit_length(s, s, s);
        let part = unit_part(s, squared);
        let reach = magnitude(part) + 1;
        assert(part != 0) by (nonlinear_arith)
            requires
                reach * reach + reach * reach + reach * reach > UNIT * UNIT,
                reach == magnitude(part) + 1,
                magnitude(part) == 0 <==> part == 0,
                0 <= magnitude(part),
        ;
        assert(-UNIT <= part <= UNIT) by (nonlinear_arith)
            requires
                part * part + part * part + part * part < (UNIT + 1) * (UNIT + 1),
        ;
        let along = camera.scale.direction();
        assert(along.x == part && along.y == part && along.z == part);
        let candidate = camera.zoom_candidate(scrolls);
        let c = candidate.0;
        assert(candidate.1 == c && candidate.2 == c);
        assert(signum(c) == signum(s)) by (nonlinear_arith)
            requires
                c * part + c * part + c * part > 0,
                part != 0,
                s >= 0 ==> part >= 0,
                s <= 0 ==> part <= 0,
                signum(c) == if c > 0 {
                    1int
                } else if c < 0 {
                    -1int
                } else {
                    0int
                },
                signum(s) == if s > 0 {
                    1int
                } else if s < 0 {
                    -1int
                } else {
                    0int
                },
        ;
    }
}

/// Nor does any run of ticks: after the scrolls of however many ticks, a
/// uniform scale is still uniform and has the sign it had before the first.
pub proof fn lemma_zoom_never_flips(camera: CameraState, ticks: Seq<Seq<ScrollEvent>>)
    requires
        camera.scale.is_uniform(),
        camera.zoom_fits_through(ticks),
    ensures
        camera.zoomed_through(ticks).scale.is_uniform(),
        signum(camera.zoomed_through(ticks).scale.x as int) == signum(camera.scale.x as int),
    decreases ticks.len(),
{
    if ticks.len() > 0 {
        lemma_zoom_never_flips(camera, ticks.drop_last());
        lemma_zoom_keeps_sign(camera.zoomed_through(ticks.drop_last()), ticks.last());
    }
}

/// Whatever the scale, a zoom that is taken leaves it pointing the way it
/// pointed: the new scale has a positive dot product with the old
/// direction.
pub proof fn lemma_zoom_keeps_direction(camera: CameraState, scrolls: Seq<ScrollEvent>)
    requires
        camera.zoom_fits(scrolls),
        camera.zoom_accepts(scrolls),
    ensures
        camera.zoomed(scrolls).scale.dot(camera.scale.direction()) > 0,
{
}

} // verus!
