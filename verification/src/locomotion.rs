//! The locomotion controller: running, jumping and sliding.
//!
//! Each tick the held keys turn into a change of velocity and a choice of
//! friction. Running adds a fixed acceleration; against the current motion
//! it is always added in full, with the motion only below the speed cap, and
//! the result is then clamped to the cap. A jump is a fixed upward impulse,
//! given on the key's rising edge while grounded. Sliding switches friction
//! off for as long as its key is held.

use vstd::prelude::*;
use crate::vector::Vec2;

verus! {

/// The speed gained per tick while a direction is held: a hundred units.
pub const ACCELERATION: i64 = 100_000_000;

/// The horizontal speed that running never exceeds: a thousand units.
pub const MAX_SPEED: i64 = 1_000_000_000;

/// The upward speed a jump adds: six hundred units.
pub const JUMP_IMPULSE: i64 = 600_000_000;

/// The friction coefficient of an actor that is not sliding: one.
pub const GRIP: i64 = 1_000_000;

/// The keys that matter to locomotion, as the input source reports them.
#[derive(Clone, Copy, Debug, PartialEq, Eq, Structural)]
pub struct KeyState {
    /// A key for running left is held.
    pub left: bool,
    /// A key for running right is held.
    pub right: bool,
    /// The jump key went down this tick.
    pub jump_pressed: bool,
    /// The slide key is held.
    pub slide: bool,
}

/// The two friction coefficients of a body.
#[derive(Clone, Copy, Debug, PartialEq, Eq, Structural)]
pub struct Friction {
    pub static_coefficient: i64,
    pub dynamic_coefficient: i64,
}

/// What locomotion decides for one tick.
#[derive(Clone, Copy, Debug, PartialEq, Eq, Structural)]
pub struct Motion {
    pub velocity: Vec2,
    pub friction: Friction,
}

impl KeyState {
    /// The horizontal intent: minus one for left, one for right, zero for
    /// neither or both.
    pub open spec fn intent(self) -> int {
        (if self.right { 1int } else { 0int }) - (if self.left { 1int } else { 0int })
    }

    /// Whether this tick's input makes an actor with that ground state jump.
    pub open spec fn jumps(self, grounded: bool) -> bool {
        self.jump_pressed && grounded
    }

    /// Computes the horizontal intent.
    pub fn horizontal_intent(&self) -> (intent: i64)
        ensures
            intent == self.intent(),
    {
        let mut intent: i64 = 0;
        if self.left {
            intent = intent - 1;
        }
        if self.right {
            intent = intent + 1;
        }
        intent
    }
}

/// Whether an input opposes a horizontal velocity: the dot product of the
/// input direction, which has no vertical part, with the velocity is
/// negative.
pub open spec fn opposes(intent: int, vx: int) -> bool {
    intent * vx < 0
}

/// `v` held between `low` and `high`.
pub open spec fn clamped(v: int, low: int, high: int) -> int {
    if v < low {
        low
    } else if v > high {
        high
    } else {
        v
    }
}

/// The horizontal velocity after one tick of running.
pub open spec fn next_horizontal(vx: int, intent: int) -> int {
    if opposes(intent, vx) {
        vx + intent * ACCELERATION
    } else if -MAX_SPEED < vx < MAX_SPEED {
        clamped(vx + intent * ACCELERATION, -MAX_SPEED as int, MAX_SPEED as int)
    } else {
        vx
    }
}

/// The vertical velocity after one tick.
pub open spec fn next_vertical(vy: int, jumps: bool) -> int {
    if jumps {
        vy + JUMP_IMPULSE
    } else {
        vy
    }
}

/// The friction of an actor that is or is not sliding.
pub open spec fn friction_for(slide: bool) -> Friction {
    if slide {
        Friction { static_coefficient: 0, dynamic_coefficient: 0 }
    } else {
        Friction { static_coefficient: GRIP, dynamic_coefficient: GRIP }
    }
}

/// Applies one tick of running to a horizontal velocity. From within the
/// speed cap it never leads beyond it.
pub fn accelerate(vx: i64, keys: KeyState) -> (next: i64)
    ensures
        next == next_horizontal(vx as int, keys.intent()),
        -MAX_SPEED <= vx <= MAX_SPEED ==> -MAX_SPEED <= next <= MAX_SPEED,
{
    let intent = keys.horizontal_intent();
    let push: i64 = if intent > 0 {
        ACCELERATION
    } else if intent < 0 {
        -ACCELERATION
    } else {
        0
    };
    let against = (intent > 0 && vx < 0) || (intent < 0 && vx > 0);
    proof {
        assert(against == opposes(intent as int, vx as int)) by (nonlinear_arith)
            requires
                -1 <= intent <= 1,
                against == ((intent > 0 && vx < 0) || (intent < 0 && vx > 0)),
        ;
        assert(push == intent * ACCELERATION) by (nonlinear_arith)
            requires
                -1 <= intent <= 1,
                push == if intent > 0 {
                    ACCELERATION as int
                } else if intent < 0 {
                    -ACCELERATION as int
                } else {
                    0int
                },
        ;
    }
    if against {
        vx + push
    } else if -MAX_SPEED < vx && vx < MAX_SPEED {
        let pushed = vx + push;
        if pushed < -MAX_SPEED {
            -MAX_SPEED
        } else if pushed > MAX_SPEED {
            MAX_SPEED
        } else {
            pushed
        }
    } else {
        vx
    }
}

/// Applies one tick of input to an actor's velocity and chooses its
/// friction. From within the speed cap the horizontal velocity never leads
/// beyond it.
///
/// A jump needs room for the impulse below the largest speed that can be
/// stored.
pub fn advance(velocity: Vec2, keys: KeyState, grounded: bool) -> (motion: Motion)
    requires
        keys.jumps(grounded) ==> velocity.y + JUMP_IMPULSE <= i64::MAX,
    ensures
        motion.velocity.x == next_horizontal(velocity.x as int, keys.intent()),
        motion.velocity.y == next_vertical(velocity.y as int, keys.jumps(grounded)),
        motion.friction == friction_for(keys.slide),
        -MAX_SPEED <= velocity.x <= MAX_SPEED ==> -MAX_SPEED <= motion.velocity.x <= MAX_SPEED,
{
    let x = accelerate(velocity.x, keys);
    let y = if keys.jump_pressed && grounded {
        velocity.y + JUMP_IMPULSE
    } else {
        velocity.y
    };
    let friction = if keys.slide {
        Friction { static_coefficient: 0, dynamic_coefficient: 0 }
    } else {
        Friction { static_coefficient: GRIP, dynamic_coefficient: GRIP }
    };
    Motion { velocity: Vec2 { x, y }, friction }
}

/// Running never takes an actor past the speed cap: from any speed within
/// the cap the next speed is within it too. An actor at the cap that keeps
/// pushing the same way stays exactly at the cap, and one that pushes the
/// other way slows down.
pub proof fn lemma_speed_cap(vx: int, intent: int)
    requires
        -1 <= intent <= 1,
        -MAX_SPEED <= vx <= MAX_SPEED,
    ensures
        -MAX_SPEED <= next_horizontal(vx, intent) <= MAX_SPEED,
        vx == MAX_SPEED && intent == 1 ==> next_horizontal(vx, intent) == MAX_SPEED,
        vx == MAX_SPEED && intent == -1 ==> next_horizontal(vx, intent) < vx,
        vx == -MAX_SPEED && intent == -1 ==> next_horizontal(vx, intent) == -MAX_SPEED,
        vx == -MAX_SPEED && intent == 1 ==> next_horizontal(vx, intent) > vx,
{
    assert(opposes(intent, vx) <==> (intent == 1 && vx < 0) || (intent == -1 && vx > 0))
        by (nonlinear_arith)
        requires
            -1 <= intent <= 1,
    ;
}

} // verus!
