//! Fixed-point quantities: every scalar is a whole number of millionths.
//!
//! Lengths, speeds, factors and angles are all stored as `i64` counts of
//! millionths of their unit, so `UNIT` is one pixel of length, a factor of
//! one, or one radian. Products of two such quantities are brought back to
//! millionths by dividing by `UNIT`, rounding toward zero.

use vstd::arithmetic::div_mod::{
    lemma_div_by_multiple, lemma_div_is_ordered, lemma_div_pos_is_pos, lemma_fundamental_div_mod,
    lemma_mod_bound,
};
use vstd::prelude::*;

verus! {

/// One whole unit in millionths.
pub const UNIT: i64 = 1_000_000;

/// Largest magnitude a world coordinate may have: a million million units.
pub const WORLD_LIMIT: i64 = 1_000_000_000_000_000_000;

/// The quotient of `n` by a positive `d`, rounded toward zero.
pub open spec fn toward_zero(n: int, d: int) -> int {
    if n >= 0 {
        n / d
    } else {
        -((-n) / d)
    }
}

/// The fixed-point product of two quantities given in millionths.
pub open spec fn scaled(a: int, b: int) -> int {
    toward_zero(a * b, UNIT as int)
}

/// Whether `v` can be stored in an `i64`.
pub open spec fn fits_i64(v: int) -> bool {
    i64::MIN <= v <= i64::MAX
}

/// Whether `r` is the integer square root of `n`, rounded down.
pub open spec fn is_sqrt_floor(n: int, r: int) -> bool {
    0 <= r && r * r <= n && n < (r + 1) * (r + 1)
}

/// The integer square root of a non-negative `n`, rounded down.
pub open spec fn sqrt_floor(n: int) -> int {
    choose|r: int| is_sqrt_floor(n, r)
}

/// At most one number is the rounded-down square root of `n`.
pub proof fn lemma_sqrt_floor_unique(n: int, r: int)
    requires
        is_sqrt_floor(n, r),
    ensures
        sqrt_floor(n) == r,
{
    let s = sqrt_floor(n);
    assert(is_sqrt_floor(n, s));
    assert(s == r) by (nonlinear_arith)
        requires
            0 <= r,
            0 <= s,
            r * r <= n,
            n < (r + 1) * (r + 1),
            s * s <= n,
            n < (s + 1) * (s + 1),
    {
        if s < r {
            assert((s + 1) * (s + 1) <= r * r);
        }
        if r < s {
            assert((r + 1) * (r + 1) <= s * s);
        }
    }
}

/// A quotient rounded toward zero is at most `q` in magnitude when the
/// dividend is at most `q` times the divisor in magnitude.
pub proof fn lemma_toward_zero_bound(n: int, d: int, q: int)
    requires
        0 < d,
        0 <= q,
        -(q * d) <= n <= q * d,
    ensures
        -q <= toward_zero(n, d) <= q,
{
    lemma_div_by_multiple(q, d);
    if n >= 0 {
        lemma_div_is_ordered(n, q * d, d);
        lemma_div_pos_is_pos(n, d);
    } else {
        lemma_div_is_ordered(-n, q * d, d);
        lemma_div_pos_is_pos(-n, d);
    }
}

/// The magnitude of a fixed-point product never exceeds the product of
/// bounds on its factors.
pub proof fn lemma_scaled_bound(a: int, b: int, la: int, lb: int)
    requires
        -la <= a <= la,
        -lb <= b <= lb,
    ensures
        -(la * lb) <= a * b <= la * lb,
        -(la * lb / (UNIT as int)) <= scaled(a, b) <= la * lb / (UNIT as int),
{
    assert(-(la * lb) <= a * b <= la * lb) by (nonlinear_arith)
        requires
            -la <= a <= la,
            -lb <= b <= lb,
    {
        assert((la - a) * (lb - b) >= 0);
        assert((la + a) * (lb + b) >= 0);
        assert((la - a) * (lb + b) >= 0);
        assert((la + a) * (lb - b) >= 0);
    }
}

/// Computes the integer square root of `n`, rounded down, by bisection.
pub fn isqrt(n: u128) -> (r: u64)
    ensures
        is_sqrt_floor(n as int, r as int),
        r as int == sqrt_floor(n as int),
{
    let mut low: u128 = 0;
    let mut high: u128 = 0x1_0000_0000_0000_0000;
    assert(n < high * high) by (nonlinear_arith)
        requires
            high == 0x1_0000_0000_0000_0000,
            n <= u128::MAX,
    ;
    while high - low > 1
        invariant
            low < high <= 0x1_0000_0000_0000_0000,
            low * low <= n,
            n < high * high,
        decreases high - low,
    {
        let mid: u128 = low + (high - low) / 2;
        assert(mid * mid <= u128::MAX) by (nonlinear_arith)
            requires
                mid <= 0xFFFF_FFFF_FFFF_FFFF,
        ;
        if mid * mid <= n {
            low = mid;
        } else {
            high = mid;
        }
    }
    proof {
        assert(high == low + 1);
        lemma_sqrt_floor_unique(n as int, low as int);
    }
    low as u64
}

/// Squared lengths below this are measured a million times finer, so that
/// short vectors are normalised as exactly as long ones.
pub const FINE_BELOW: u128 = 100_000_000_000_000_000_000_000_000;

/// How many parts of a millionth the length of a vector with that squared
/// length is measured in.
pub open spec fn fineness(squared: int) -> int {
    if squared < FINE_BELOW {
        UNIT as int
    } else {
        1
    }
}

/// The length of a vector with that squared length, in parts of a
/// millionth, rounded down.
pub open spec fn measured_length(squared: int) -> int {
    sqrt_floor(squared * fineness(squared) * fineness(squared))
}

/// One coordinate of the unit vector along a vector that has the coordinate
/// `c` and that squared length: `c` divided by the length.
pub open spec fn unit_part(c: int, squared: int) -> int {
    toward_zero(c * UNIT * fineness(squared), measured_length(squared))
}

/// The magnitude of `v`.
pub open spec fn magnitude(v: int) -> int {
    if v < 0 {
        -v
    } else {
        v
    }
}

/// Every non-negative number has a rounded-down square root.
pub proof fn lemma_sqrt_floor_exists(n: int)
    requires
        0 <= n,
    ensures
        is_sqrt_floor(n, sqrt_floor(n)),
    decreases n,
{
    if n == 0 {
        assert(is_sqrt_floor(0, 0)) by (nonlinear_arith);
    } else {
        lemma_sqrt_floor_exists(n - 1);
        let r = sqrt_floor(n - 1);
        if n < (r + 1) * (r + 1) {
            assert(is_sqrt_floor(n, r));
        } else {
            assert(is_sqrt_floor(n, r + 1)) by (nonlinear_arith)
                requires
                    0 <= r,
                    n - 1 < (r + 1) * (r + 1),
                    n >= (r + 1) * (r + 1),
            ;
        }
    }
}

/// The measured length of a vector that is not zero is at least one whole
/// unit of measure, and brackets the true length.
pub proof fn lemma_measured_length(squared: int)
    requires
        0 < squared,
    ensures
        UNIT <= measured_length(squared),
        measured_length(squared) * measured_length(squared) <= squared * fineness(squared)
            * fineness(squared),
        squared * fineness(squared) * fineness(squared) < (measured_length(squared) + 1) * (
        measured_length(squared) + 1),
{
    let k = fineness(squared);
    let n = squared * k * k;
    let r = measured_length(squared);
    assert(n >= 1_000_000_000_000) by (nonlinear_arith)
        requires
            0 < squared,
            n == squared * k * k,
            (k == 1_000_000 && squared >= 1) || (k == 1 && squared
                >= 100_000_000_000_000_000_000_000_000),
    ;
    lemma_sqrt_floor_exists(n);
    assert(r >= 1_000_000) by (nonlinear_arith)
        requires
            0 <= r,
            n >= 1_000_000_000_000,
            n < (r + 1) * (r + 1),
    ;
}

/// The quotient of `n` by a positive `d`, rounded toward zero, times `d` is
/// within `d` of `n`, on the side of zero.
pub proof fn lemma_toward_zero_brackets(n: int, d: int)
    requires
        0 < d,
    ensures
        magnitude(toward_zero(n, d)) * d <= magnitude(n),
        magnitude(n) < (magnitude(toward_zero(n, d)) + 1) * d,
        n >= 0 ==> toward_zero(n, d) >= 0,
        n <= 0 ==> toward_zero(n, d) <= 0,
{
    let m = magnitude(n);
    lemma_fundamental_div_mod(m, d);
    lemma_div_pos_is_pos(m, d);
    lemma_mod_bound(m, d);
    assert(magnitude(toward_zero(n, d)) == m / d);
    assert((m / d) * d <= m && m < (m / d + 1) * d) by (nonlinear_arith)
        requires
            m == d * (m / d) + m % d,
            0 <= m % d < d,
    ;
}

/// A normalised vector is one long, to within a millionth: it is shorter
/// than one and a millionth, and making each coordinate one millionth
/// larger in magnitude makes it longer than one.
pub proof fn lemma_unit_length(x: int, y: int, z: int)
    requires
        !(x == 0 && y == 0 && z == 0),
    ensures
        ({
            let squared = x * x + y * y + z * z;
            let a = unit_part(x, squared);
            let b = unit_part(y, squared);
            let c = unit_part(z, squared);
            &&& a * a + b * b + c * c < (UNIT + 1) * (UNIT + 1)
            &&& (magnitude(a) + 1) * (magnitude(a) + 1) + (magnitude(b) + 1) * (magnitude(b) + 1)
                + (magnitude(c) + 1) * (magnitude(c) + 1) > UNIT * UNIT
        }),
{
    let squared = x * x + y * y + z * z;
    assert(squared > 0) by (nonlinear_arith)
        requires
            squared == x * x + y * y + z * z,
            !(x == 0 && y == 0 && z == 0),
    ;
    let k = fineness(squared);
    let r = measured_length(squared);
    lemma_measured_length(squared);
    let w = UNIT * k;
    let a = magnitude(unit_part(x, squared));
    let b = magnitude(unit_part(y, squared));
    let c = magnitude(unit_part(z, squared));
    let mx = magnitude(x);
    let my = magnitude(y);
    let mz = magnitude(z);
    lemma_part_brackets(x, squared);
    lemma_part_brackets(y, squared);
    lemma_part_brackets(z, squared);
    // a * r <= mx * w < (a + 1) * r, and likewise for the others.
    assert(a * a * (r * r) <= mx * mx * (w * w) && mx * mx * (w * w) < (a + 1) * (a + 1) * (r
        * r)) by (nonlinear_arith)
        requires
            0 <= a,
            0 <= mx,
            0 < r,
            0 < w,
            a * r <= mx * w,
            mx * w < (a + 1) * r,
    ;
    assert(b * b * (r * r) <= my * my * (w * w) && my * my * (w * w) < (b + 1) * (b + 1) * (r
        * r)) by (nonlinear_arith)
        requires
            0 <= b,
            0 <= my,
            0 < r,
            0 < w,
            b * r <= my * w,
            my * w < (b + 1) * r,
    ;
    assert(c * c * (r * r) <= mz * mz * (w * w) && mz * mz * (w * w) < (c + 1) * (c + 1) * (r
        * r)) by (nonlinear_arith)
        requires
            0 <= c,
            0 <= mz,
            0 < r,
            0 < w,
            c * r <= mz * w,
            mz * w < (c + 1) * r,
    ;
    let total = squared * (w * w);
    assert(mx * mx * (w * w) + my * my * (w * w) + mz * mz * (w * w) == total
        && total == (UNIT * UNIT) * (squared * k * k)) by (nonlinear_arith)
        requires
            squared == x * x + y * y + z * z,
            mx * mx == x * x,
            my * my == y * y,
            mz * mz == z * z,
            w == UNIT * k,
            total == squared * (w * w),
    ;
    let low = a * a + b * b + c * c;
    let high = (a + 1) * (a + 1) + (b + 1) * (b + 1) + (c + 1) * (c + 1);
    assert(low * (r * r) <= total && total < high * (r * r)) by (nonlinear_arith)
        requires
            low == a * a + b * b + c * c,
            high == (a + 1) * (a + 1) + (b + 1) * (b + 1) + (c + 1) * (c + 1),
            a * a * (r * r) <= mx * mx * (w * w),
            b * b * (r * r) <= my * my * (w * w),
            c * c * (r * r) <= mz * mz * (w * w),
            mx * mx * (w * w) < (a + 1) * (a + 1) * (r * r),
            my * my * (w * w) < (b + 1) * (b + 1) * (r * r),
            mz * mz * (w * w) < (c + 1) * (c + 1) * (r * r),
            mx * mx * (w * w) + my * my * (w * w) + mz * mz * (w * w) == total,
    ;
    let n = squared * k * k;
    // r * r <= n < (r + 1) * (r + 1), and UNIT <= r.
    assert(high > UNIT * UNIT) by (nonlinear_arith)
        requires
            total < high * (r * r),
            total == (UNIT * UNIT) * n,
            r * r <= n,
            0 < r,
    ;
    assert(low < (UNIT + 1) * (UNIT + 1)) by (nonlinear_arith)
        requires
            low * (r * r) <= total,
            total == (UNIT * UNIT) * n,
            n < (r + 1) * (r + 1),
            UNIT <= r,
            0 <= low,
    {
        assert(UNIT * (r + 1) <= (UNIT + 1) * r);
        assert((UNIT * UNIT) * ((r + 1) * (r + 1)) <= ((UNIT + 1) * (UNIT + 1)) * (r * r));
    }
    assert(unit_part(x, squared) * unit_part(x, squared) == a * a) by (nonlinear_arith)
        requires
            a == magnitude(unit_part(x, squared)),
    ;
    assert(unit_part(y, squared) * unit_part(y, squared) == b * b) by (nonlinear_arith)
        requires
            b == magnitude(unit_part(y, squared)),
    ;
    assert(unit_part(z, squared) * unit_part(z, squared) == c * c) by (nonlinear_arith)
        requires
            c == magnitude(unit_part(z, squared)),
    ;
}

/// A coordinate of the unit vector times the measured length is within one
/// length of the coordinate it came from, on the side of zero.
pub proof fn lemma_part_brackets(c: int, squared: int)
    requires
        0 < squared,
    ensures
        magnitude(unit_part(c, squared)) * measured_length(squared) <= magnitude(c) * (UNIT
            * fineness(squared)),
        magnitude(c) * (UNIT * fineness(squared)) < (magnitude(unit_part(c, squared)) + 1)
            * measured_length(squared),
        magnitude(c) * magnitude(c) == c * c,
        c >= 0 ==> unit_part(c, squared) >= 0,
        c <= 0 ==> unit_part(c, squared) <= 0,
{
    let k = fineness(squared);
    lemma_measured_length(squared);
    let n = c * UNIT * k;
    lemma_toward_zero_brackets(n, measured_length(squared));
    assert(magnitude(n) == magnitude(c) * (UNIT * k) && magnitude(c) * magnitude(c) == c * c
        && (c >= 0 ==> n >= 0) && (c <= 0 ==> n <= 0)) by (nonlinear_arith)
        requires
            n == c * UNIT * k,
            k == 1 || k == 1_000_000,
    ;
}

/// Computes the unit vector along `(x, y, z)`, coordinate by coordinate, or
/// nothing for the zero vector, which has no direction.
pub fn unit_parts(x: i128, y: i128, z: i128) -> (parts: Option<(i64, i64, i64)>)
    requires
        -0x8000_0000_0000_0000 <= x <= 0x8000_0000_0000_0000,
        -0x8000_0000_0000_0000 <= y <= 0x8000_0000_0000_0000,
        -0x8000_0000_0000_0000 <= z <= 0x8000_0000_0000_0000,
    ensures
        parts is Some <==> !(x == 0 && y == 0 && z == 0),
        parts matches Some((a, b, c)) ==> {
            &&& a == unit_part(x as int, x * x + y * y + z * z)
            &&& b == unit_part(y as int, x * x + y * y + z * z)
            &&& c == unit_part(z as int, x * x + y * y + z * z)
            &&& -UNIT <= a <= UNIT
            &&& -UNIT <= b <= UNIT
            &&& -UNIT <= c <= UNIT
        },
{
    proof {
        lemma_square_bound(x as int);
        lemma_square_bound(y as int);
        lemma_square_bound(z as int);
    }
    let squared: u128 = (x * x) as u128 + (y * y) as u128 + (z * z) as u128;
    if squared == 0 {
        assert(x == 0 && y == 0 && z == 0) by (nonlinear_arith)
            requires
                x * x + y * y + z * z == 0,
        ;
        return None;
    }
    assert(!(x == 0 && y == 0 && z == 0)) by (nonlinear_arith)
        requires
            x * x + y * y + z * z > 0,
    ;
    let fine = squared < FINE_BELOW;
    let (per_unit, length): (i128, u64) = if fine {
        (1_000_000_000_000i128, isqrt(squared * 1_000_000_000_000))
    } else {
        (UNIT as i128, isqrt(squared))
    };
    let length = length as i128;
    proof {
        let k = fineness(squared as int);
        assert(squared * k * k == if fine {
            squared * 1_000_000_000_000
        } else {
            squared as int
        }) by (nonlinear_arith)
            requires
                k == if fine {
                    1_000_000int
                } else {
                    1int
                },
        ;
        assert(length == measured_length(squared as int));
        assert(per_unit == UNIT * k);
        lemma_measured_length(squared as int);
        lemma_part_fits(x as int, squared as int);
        lemma_part_fits(y as int, squared as int);
        lemma_part_fits(z as int, squared as int);
        assert(x * UNIT * k == x * per_unit && y * UNIT * k == y * per_unit && z * UNIT * k == z
            * per_unit) by (nonlinear_arith)
            requires
                per_unit == UNIT * k,
        ;
    }
    let a = (x * per_unit) / length;
    let b = (y * per_unit) / length;
    let c = (z * per_unit) / length;
    Some((a as i64, b as i64, c as i64))
}

/// A square of a number of at most sixty-three bits has at most a hundred
/// and twenty-six.
pub proof fn lemma_square_bound(v: int)
    requires
        -0x8000_0000_0000_0000 <= v <= 0x8000_0000_0000_0000,
    ensures
        0 <= v * v <= 0x4000_0000_0000_0000_0000_0000_0000_0000,
{
    assert(0 <= v * v <= 0x4000_0000_0000_0000_0000_0000_0000_0000) by (nonlinear_arith)
        requires
            -0x8000_0000_0000_0000 <= v <= 0x8000_0000_0000_0000,
    {
        assert((0x8000_0000_0000_0000 - v) * (0x8000_0000_0000_0000 + v) >= 0);
    }
}

/// A coordinate of a vector is no longer than the vector, so its part of
/// the unit vector is at most one, and the product that is divided to get
/// it stays small.
pub proof fn lemma_part_fits(c: int, squared: int)
    requires
        0 < squared,
        c * c <= squared,
        squared <= 0xC000_0000_0000_0000_0000_0000_0000_0000,
    ensures
        -UNIT <= unit_part(c, squared) <= UNIT,
        -(UNIT * measured_length(squared)) <= c * UNIT * fineness(squared) <= UNIT
            * measured_length(squared),
        measured_length(squared) <= 0xFFFF_FFFF_FFFF_FFFF,
{
    let k = fineness(squared);
    let r = measured_length(squared);
    lemma_measured_length(squared);
    let m = magnitude(c);
    assert(m * m == c * c) by (nonlinear_arith)
        requires
            m == c || m == -c,
    ;
    assert(m * k <= r) by (nonlinear_arith)
        requires
            m * m == c * c,
            0 <= m,
            c * c <= squared,
            squared * k * k < (r + 1) * (r + 1),
            0 < r,
            k == 1 || k == 1_000_000,
    {
        assert((m * k) * (m * k) == (m * m) * (k * k));
        assert((m * m) * (k * k) <= squared * k * k);
        if m * k >= r + 1 {
            assert((m * k) * (m * k) >= (r + 1) * (r + 1));
        }
    }
    assert(-(UNIT * r) <= c * UNIT * k <= UNIT * r) by (nonlinear_arith)
        requires
            m * k <= r,
            0 <= m,
            m == c || m == -c,
            k == 1 || k == 1_000_000,
    ;
    lemma_toward_zero_bound(c * UNIT * k, r, UNIT as int);
    assert(r <= 0xFFFF_FFFF_FFFF_FFFF) by (nonlinear_arith)
        requires
            0 <= r,
            r * r <= squared * k * k,
            (k == 1 && squared <= 0xC000_0000_0000_0000_0000_0000_0000_0000) || (k == 1_000_000
                && squared < 100_000_000_000_000_000_000_000_000),
    {
        if r > 0xFFFF_FFFF_FFFF_FFFF {
            assert(r * r >= 0x1_0000_0000_0000_0000 * 0x1_0000_0000_0000_0000);
        }
    }
}

} // verus!
