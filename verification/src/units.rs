//! Fixed-point quantities. Every length, force, acceleration and impulse in
//! this crate is a whole number of millionths of its unit, so that all
//! geometry is exact integer arithmetic.

use vstd::prelude::*;

verus! {

/// How many steps of resolution make one whole unit.
pub const UNIT: i64 = 1_000_000;

/// A point or a direction in three dimensions, in millionths.
#[derive(Clone, Copy, Debug, PartialEq, Eq, Structural)]
pub struct Vector3 {
    pub x: i64,
    pub y: i64,
    pub z: i64,
}

/// A direction in the plane, in millionths.
#[derive(Clone, Copy, Debug, PartialEq, Eq, Structural)]
pub struct Vector2 {
    pub x: i64,
    pub y: i64,
}

impl Vector3 {
    /// The origin.
    pub open spec fn zero() -> Vector3 {
        Vector3 { x: 0, y: 0, z: 0 }
    }

    /// The origin.
    pub fn origin() -> (v: Vector3)
        ensures
            v == Vector3::zero(),
    {
        Vector3 { x: 0, y: 0, z: 0 }
    }
}

/// The least whole number that is not below `a / b`.
pub open spec fn ceil_div(a: nat, b: nat) -> nat
    recommends
        b > 0,
{
    ((a + b - 1) / (b as int)) as nat
}

/// `ceil_div(a, b)` is the one number `q` with `(q - 1) * b < a <= q * b`.
pub proof fn lemma_ceil_div_bounds(a: nat, b: nat)
    requires
        b > 0,
    ensures
        ceil_div(a, b) * b >= a,
        a > 0 ==> (ceil_div(a, b) - 1) * b < a,
        a == 0 ==> ceil_div(a, b) == 0,
{
    let n = (a + b - 1) as int;
    let d = b as int;
    vstd::arithmetic::div_mod::lemma_fundamental_div_mod(n, d);
    vstd::arithmetic::div_mod::lemma_mod_bound(n, d);
    vstd::arithmetic::div_mod::lemma_div_pos_is_pos(n, d);
    let q = n / d;
    assert(d * q == q * d) by (nonlinear_arith);
    assert((q - 1) * d == q * d - d) by (nonlinear_arith);
    if a == 0 {
        vstd::arithmetic::div_mod::lemma_basic_div(n, d);
    }
}

/// Any `q` with `(q - 1) * b < a <= q * b` is `ceil_div(a, b)`.
pub proof fn lemma_ceil_div_unique(a: nat, b: nat, q: int)
    requires
        b > 0,
        q * b >= a,
        (q - 1) * b < a,
    ensures
        q == ceil_div(a, b),
{
    lemma_ceil_div_bounds(a, b);
    let c = ceil_div(a, b) as int;
    let d = b as int;
    let n = a as int;
    if q < c {
        assert(q * d <= (c - 1) * d) by (nonlinear_arith)
            requires
                q <= c - 1,
                d > 0,
        ;
        assert((c - 1) * d == c * d - d) by (nonlinear_arith);
    } else if q > c {
        assert(c * d <= (q - 1) * d) by (nonlinear_arith)
            requires
                c <= q - 1,
                d > 0,
        ;
    }
}

/// Rounding up never passes a number whose multiple already reaches `a`.
pub proof fn lemma_ceil_div_at_most(a: nat, b: nat, q: int)
    requires
        b > 0,
        q >= 0,
        q * b >= a,
    ensures
        ceil_div(a, b) <= q,
{
    lemma_ceil_div_bounds(a, b);
    let c = ceil_div(a, b) as int;
    let d = b as int;
    if c > q {
        assert(q * d <= (c - 1) * d) by (nonlinear_arith)
            requires
                q <= c - 1,
                d > 0,
        ;
    }
}

/// Rounding up passes every number whose multiple stays below `a`.
pub proof fn lemma_ceil_div_above(a: nat, b: nat, q: int)
    requires
        b > 0,
        q * b < a,
    ensures
        ceil_div(a, b) > q,
{
    lemma_ceil_div_bounds(a, b);
    let c = ceil_div(a, b) as int;
    let d = b as int;
    if c <= q {
        assert(c * d <= q * d) by (nonlinear_arith)
            requires
                c <= q,
                d > 0,
        ;
    }
}

/// Divides rounding up.
pub fn div_ceil(a: u128, b: u128) -> (q: u128)
    requires
        b > 0,
    ensures
        q == ceil_div(a as nat, b as nat),
{
    let whole = a / b;
    let rest = a % b;
    proof {
        lemma_ceil_div_bounds(a as nat, b as nat);
        vstd::arithmetic::div_mod::lemma_fundamental_div_mod(a as int, b as int);
        let w = whole as int;
        let d = b as int;
        assert(d * w == w * d) by (nonlinear_arith);
        assert((w + 1) * d == w * d + d) by (nonlinear_arith);
        assert((w - 1) * d == w * d - d) by (nonlinear_arith);
        if rest == 0 {
            lemma_ceil_div_unique(a as nat, b as nat, w);
        } else {
            lemma_ceil_div_unique(a as nat, b as nat, w + 1);
            assert(w * d <= a);
            assert(w < a) by (nonlinear_arith)
                requires
                    w * d + rest == a,
                    rest > 0,
                    d > 0,
                    w >= 0,
            ;
        }
    }
    if rest == 0 {
        whole
    } else {
        whole + 1
    }
}

/// A number of squared steps as a number of steps: divided by `UNIT`,
/// rounded down.
pub open spec fn in_units(squared: int) -> int {
    squared / (UNIT as int)
}

/// `factor * length` as a product of two fixed-point numbers: divided by
/// `UNIT`, rounded down.
pub open spec fn scaled(factor: int, length: int) -> int {
    in_units(factor * length)
}

/// Divides by `UNIT`, rounding down, also below zero.
pub fn to_units(squared: i128) -> (steps: i128)
    requires
        squared > i128::MIN,
    ensures
        steps == in_units(squared as int),
        squared >= 0 ==> 0 <= steps <= squared,
        squared < 0 ==> squared <= steps < 0,
{
    let unit: i128 = UNIT as i128;
    if squared >= 0 {
        proof {
            vstd::arithmetic::div_mod::lemma_div_pos_is_pos(squared as int, unit as int);
            vstd::arithmetic::div_mod::lemma_div_is_ordered_by_denominator(
                squared as int,
                1,
                unit as int,
            );
            vstd::arithmetic::div_mod::lemma_div_basics(squared as int);
        }
        squared / unit
    } else {
        let below: u128 = (-squared) as u128;
        let up = div_ceil(below, UNIT as u128);
        proof {
            lemma_ceil_div_bounds(below as nat, UNIT as nat);
            let c = up as int;
            let u = UNIT as int;
            assert((c - 1) * u == c * u - u) by (nonlinear_arith);
            assert(u * (-c) == -(c * u)) by (nonlinear_arith);
            vstd::arithmetic::div_mod::lemma_fundamental_div_mod_converse(
                squared as int,
                u,
                -c,
                squared + c * u,
            );
            assert(c <= below) by (nonlinear_arith)
                requires
                    (c - 1) * u < below,
                    u >= 1,
                    c >= 0,
            ;
        }
        -(up as i128)
    }
}

/// Multiplies two fixed-point numbers, rounding down.
pub fn scale_length(factor: i64, length: i64) -> (r: i128)
    ensures
        r == scaled(factor as int, length as int),
        -0x4000_0000_0000_0000_0000_0000_0000_0000 <= r <= 0x4000_0000_0000_0000_0000_0000_0000_0000,
{
    assert(-0x4000_0000_0000_0000_0000_0000_0000_0000 <= factor * length
        <= 0x4000_0000_0000_0000_0000_0000_0000_0000) by (nonlinear_arith)
        requires
            -0x8000_0000_0000_0000 <= factor <= 0x7FFF_FFFF_FFFF_FFFF,
            -0x8000_0000_0000_0000 <= length <= 0x7FFF_FFFF_FFFF_FFFF,
    ;
    to_units(factor as i128 * length as i128)
}

} // verus!
