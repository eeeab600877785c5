//! Fixed-point scalars and the one rounded division of the picking pipeline.

use vstd::prelude::*;
use vstd::arithmetic::div_mod::lemma_div_by_multiple;
use vstd::arithmetic::div_mod::lemma_div_denominator;

verus! {

/// Fixed-point steps per unit: coordinates, extents, pixel positions and
/// rotation-matrix entries all count thousandths.
pub const SCALE: i64 = 1000;

/// Largest magnitude, in fixed-point steps, of a representable world
/// coordinate. A ray hit beyond this range counts as no intersection.
pub const MAX_COORD: i64 = 1_000_000_000;

/// Absolute value of a mathematical integer.
pub open spec fn abs(a: int) -> int {
    if a < 0 {
        -a
    } else {
        a
    }
}

/// The quotient `n / d` rounded to the nearest integer, ties away from zero.
/// Meaningful only for `d != 0`.
pub open spec fn div_half_away(n: int, d: int) -> int
    recommends
        d != 0,
{
    let q = (2 * abs(n) + abs(d)) / (2 * abs(d));
    if (n < 0) <==> (d < 0) {
        q
    } else {
        -q
    }
}

/// Rounding a quotient that is exact returns it unchanged: the rounded
/// division introduces no error on multiples of the divisor.
pub proof fn lemma_div_half_away_exact(q: int, d: int)
    requires
        d != 0,
    ensures
        div_half_away(q * d, d) == q,
{
    let n = q * d;
    let k = abs(q);
    let m = abs(d);
    if q == 0 {
        assert(n == 0 && k * m == 0) by (nonlinear_arith)
            requires
                n == q * d,
                q == 0,
                k == 0,
        ;
    } else if q > 0 && d > 0 {
        assert(n > 0 && n == k * m) by (nonlinear_arith)
            requires
                n == q * d,
                q > 0,
                d > 0,
                k == q,
                m == d,
        ;
    } else if q > 0 && d < 0 {
        assert(n < 0 && -n == k * m) by (nonlinear_arith)
            requires
                n == q * d,
                q > 0,
                d < 0,
                k == q,
                m == -d,
        ;
    } else if q < 0 && d > 0 {
        assert(n < 0 && -n == k * m) by (nonlinear_arith)
            requires
                n == q * d,
                q < 0,
                d > 0,
                k == -q,
                m == d,
        ;
    } else {
        assert(n > 0 && n == k * m) by (nonlinear_arith)
            requires
                n == q * d,
                q < 0,
                d < 0,
                k == -q,
                m == -d,
        ;
    }
    assert(abs(n) == k * m);
    assert(2 * (k * m) + m == (2 * k + 1) * m) by (nonlinear_arith);
    lemma_div_by_multiple(2 * k + 1, m);
    lemma_div_denominator((2 * k + 1) * m, m, 2);
    assert((2 * abs(n) + m) / (2 * m) == (2 * k + 1) / 2);
    assert((2 * k + 1) / 2 == k);
}

/// Bounds on two factors bound their product.
pub proof fn lemma_mul_within(a: int, b: int, aa: int, bb: int)
    by (nonlinear_arith)
    requires
        -aa <= a <= aa,
        -bb <= b <= bb,
        0 <= aa,
        0 <= bb,
    ensures
        -(aa * bb) <= a * b <= aa * bb,
{
}

/// Nearest-integer division of bounded 128-bit operands, clipped to the
/// world-coordinate range: `None` exactly when the rounded quotient falls
/// outside `[-MAX_COORD, MAX_COORD]`.
pub fn div_coord(n: i128, d: i128) -> (r: Option<i64>)
    requires
        d != 0,
        -0x4000_0000_0000_0000_0000_0000_0000_0000 <= n <= 0x4000_0000_0000_0000_0000_0000_0000_0000,
        -0x4000_0000_0000_0000_0000_0000_0000_0000 <= d <= 0x4000_0000_0000_0000_0000_0000_0000_0000,
    ensures
        r is Some <==> abs(div_half_away(n as int, d as int)) <= MAX_COORD,
        r matches Some(q) ==> q == div_half_away(n as int, d as int),
{
    let neg: bool = (n < 0) != (d < 0);
    let nm: u128 = if n < 0 {
        (-n) as u128
    } else {
        n as u128
    };
    let dm: u128 = if d < 0 {
        (-d) as u128
    } else {
        d as u128
    };
    assert(nm == abs(n as int));
    assert(dm == abs(d as int));
    let qm: u128 = (2 * nm + dm) / (2 * dm);
    assert(qm == (2 * abs(n as int) + abs(d as int)) / (2 * abs(d as int)));
    if qm > MAX_COORD as u128 {
        None
    } else {
        let q: i64 = qm as i64;
        if neg {
            Some(-q)
        } else {
            Some(q)
        }
    }
}

} // verus!
