//! Integer trigonometry on micro-radians: a polynomial arctangent and a
//! Taylor sine and cosine, each evaluated in nested form so that every
//! intermediate quotient is taken of a non-negative number.
use vstd::prelude::*;
use vstd::arithmetic::div_mod::{
    lemma_div_is_ordered, lemma_div_is_ordered_by_denominator, lemma_div_multiples_vanish,
    lemma_div_pos_is_pos,
};
use crate::angle::{is_angle, HALF_TURN, MICRO, QUARTER_TURN};

verus! {

/// A product scaled down by a divisor at least as large as its first factor
/// stays between zero and the second factor's bound.
pub proof fn lemma_prod_div_le(a: int, b: int, d: int, m: int)
    requires
        0 <= a <= d,
        0 <= b <= m,
        0 < d,
    ensures
        0 <= a * b / d <= m,
{
    assert(0 <= a * b <= d * m) by (nonlinear_arith)
        requires
            0 <= a <= d,
            0 <= b <= m,
    ;
    lemma_div_is_ordered(a * b, d * m, d);
    lemma_div_multiples_vanish(m, d);
    lemma_div_pos_is_pos(a * b, d);
}

/// One step of the nested arctangent polynomial: `c - z2 * t / MICRO`.
pub open spec fn atan_step(z2: int, t: int, c: int) -> int {
    c - z2 * t / (MICRO as int)
}

/// Arctangent of `z / MICRO` for `0 <= z <= MICRO`, in micro-radians: the
/// odd polynomial of degree nine with coefficients 0.9998660, -0.3302995,
/// 0.1801410, -0.0851330 and 0.0208351.
pub open spec fn atan_unit(z: int) -> int {
    let z2 = z * z / (MICRO as int);
    let t7 = atan_step(z2, 20_835, 85_133);
    let t5 = atan_step(z2, t7, 180_141);
    let t3 = atan_step(z2, t5, 330_300);
    let t1 = atan_step(z2, t3, 999_866);
    z * t1 / (MICRO as int)
}

pub open spec fn abs(a: int) -> int {
    if a < 0 {
        -a
    } else {
        a
    }
}

/// The angle of the vector `(x, y)` in micro-radians, in (-pi, pi]; zero for
/// the zero vector. The octant is found exactly; within it the angle is
/// `atan_unit` of the smaller over the larger coordinate.
pub open spec fn atan2_of(y: int, x: int) -> int {
    if x == 0 && y == 0 {
        0
    } else {
        let ax = abs(x);
        let ay = abs(y);
        let base = if ay <= ax {
            atan_unit(ay * MICRO / ax)
        } else {
            QUARTER_TURN - atan_unit(ax * MICRO / ay)
        };
        let q = if x < 0 {
            HALF_TURN - base
        } else {
            base
        };
        if y < 0 && q < HALF_TURN {
            -q
        } else {
            q
        }
    }
}

fn atan_step_exec(z2: i64, t: i64, c: i64) -> (r: i64)
    requires
        0 <= z2 <= MICRO,
        0 <= t <= c <= MICRO,
    ensures
        r == atan_step(z2 as int, t as int, c as int),
        c - t <= r <= c,
{
    proof {
        lemma_prod_div_le(z2 as int, t as int, MICRO as int, t as int);
    }
    c - z2 * t / MICRO
}

fn atan_unit_exec(z: i64) -> (r: i64)
    requires
        0 <= z <= MICRO,
    ensures
        r == atan_unit(z as int),
        0 <= r <= 999_866,
{
    proof {
        lemma_prod_div_le(z as int, z as int, MICRO as int, MICRO as int);
    }
    let z2: i64 = z * z / MICRO;
    let t7 = atan_step_exec(z2, 20_835, 85_133);
    let t5 = atan_step_exec(z2, t7, 180_141);
    let t3 = atan_step_exec(z2, t5, 330_300);
    let t1 = atan_step_exec(z2, t3, 999_866);
    proof {
        lemma_prod_div_le(z as int, t1 as int, MICRO as int, t1 as int);
    }
    z * t1 / MICRO
}

/// The angle of the vector `(x, y)`, as `atan2_of` states it.
pub fn atan2(y: i64, x: i64) -> (r: i64)
    ensures
        r == atan2_of(y as int, x as int),
        is_angle(r as int),
{
    if x == 0 && y == 0 {
        return 0;
    }
    let ax: i128 = if x < 0 { -(x as i128) } else { x as i128 };
    let ay: i128 = if y < 0 { -(y as i128) } else { y as i128 };
    let base: i64;
    if ay <= ax {
        proof {
            assert(ay * MICRO <= ax * MICRO) by (nonlinear_arith)
                requires ay <= ax, 0 <= ay;
            lemma_div_is_ordered(ay * MICRO, ax * MICRO, ax as int);
            lemma_div_multiples_vanish(MICRO as int, ax as int);
            lemma_div_pos_is_pos(ay * MICRO, ax as int);
        }
        let z: i128 = ay * (MICRO as i128) / ax;
        base = atan_unit_exec(z as i64);
    } else {
        proof {
            assert(ax * MICRO <= ay * MICRO) by (nonlinear_arith)
                requires ax < ay, 0 <= ax;
            lemma_div_is_ordered(ax * MICRO, ay * MICRO, ay as int);
            lemma_div_multiples_vanish(MICRO as int, ay as int);
            lemma_div_pos_is_pos(ax * MICRO, ay as int);
        }
        let z: i128 = ax * (MICRO as i128) / ay;
        base = QUARTER_TURN - atan_unit_exec(z as i64);
    }
    let q: i64 = if x < 0 { HALF_TURN - base } else { base };
    if y < 0 && q < HALF_TURN {
        -q
    } else {
        q
    }
}

/// One step of a nested Taylor series: `MICRO - p2 * t / (k * MICRO)`.
pub open spec fn taylor_step(p2: int, t: int, k: int) -> int {
    MICRO - p2 * t / (k * MICRO)
}

/// Sine of `p / MICRO` for `0 <= p` up to a quarter turn, from its Taylor
/// series through the ninth power.
pub open spec fn sin_unit(p: int) -> int {
    let p2 = p * p / (MICRO as int);
    let t = taylor_step(p2, MICRO as int, 72);
    let t = taylor_step(p2, t, 42);
    let t = taylor_step(p2, t, 20);
    let t = taylor_step(p2, t, 6);
    p * t / (MICRO as int)
}

/// Cosine of `p / MICRO` for `0 <= p` up to a quarter turn, from its Taylor
/// series through the tenth power.
pub open spec fn cos_unit(p: int) -> int {
    let p2 = p * p / (MICRO as int);
    let t = taylor_step(p2, MICRO as int, 90);
    let t = taylor_step(p2, t, 56);
    let t = taylor_step(p2, t, 30);
    let t = taylor_step(p2, t, 12);
    taylor_step(p2, t, 2)
}

/// The angle folded into the first quadrant: its distance to the nearer of
/// the headings zero and pi.
pub open spec fn fold_quadrant(a: int) -> int {
    if abs(a) > QUARTER_TURN {
        HALF_TURN - abs(a)
    } else {
        abs(a)
    }
}

/// Cosine of an angle in micro-units.
pub open spec fn cos_of(a: int) -> int {
    if abs(a) > QUARTER_TURN {
        -cos_unit(fold_quadrant(a))
    } else {
        cos_unit(fold_quadrant(a))
    }
}

/// Sine of an angle in micro-units.
pub open spec fn sin_of(a: int) -> int {
    if a < 0 {
        -sin_unit(fold_quadrant(a))
    } else {
        sin_unit(fold_quadrant(a))
    }
}

const P2_MAX: i64 = 2_467_404;

proof fn lemma_step_bounds(p2: int, t: int, k: int)
    requires
        0 <= p2 <= P2_MAX,
        0 <= t <= MICRO,
        6 <= k <= 90,
    ensures
        0 <= taylor_step(p2, t, k) <= MICRO,
{
    lemma_prod_div_le(p2, t, k * MICRO, MICRO as int);
}

fn step(p2: i64, t: i64, k: i64) -> (r: i64)
    requires
        0 <= p2 <= P2_MAX,
        0 <= t <= MICRO,
        2 <= k <= 90,
    ensures
        r == taylor_step(p2 as int, t as int, k as int),
        6 <= k ==> 0 <= r <= MICRO,
        -MICRO <= r <= MICRO,
{
    proof {
        assert(0 <= p2 * t <= P2_MAX * MICRO) by (nonlinear_arith)
            requires 0 <= p2 <= P2_MAX, 0 <= t <= MICRO;
        lemma_div_is_ordered(p2 * t, P2_MAX * MICRO, 2 * MICRO);
        assert(P2_MAX * MICRO == (2 * MICRO) * 1_233_702);
        lemma_div_multiples_vanish(1_233_702, 2 * MICRO);
        lemma_div_is_ordered_by_denominator(p2 * t, 2 * MICRO, k * MICRO);
        lemma_div_pos_is_pos(p2 * t, k * MICRO);
        if 6 <= k {
            lemma_step_bounds(p2 as int, t as int, k as int);
        }
    }
    MICRO - p2 * t / (k * MICRO)
}

/// Cosine and sine of a normalised angle, in micro-units.
pub fn cos_sin(a: i64) -> (r: (i64, i64))
    requires
        is_angle(a as int),
    ensures
        r.0 == cos_of(a as int),
        r.1 == sin_of(a as int),
        -MICRO <= r.0 <= MICRO,
        -2 * MICRO <= r.1 <= 2 * MICRO,
{
    let m: i64 = if a < 0 { -a } else { a };
    let p: i64 = if m > QUARTER_TURN { HALF_TURN - m } else { m };
    assert(0 <= p <= QUARTER_TURN + 1);
    proof {
        assert(p * p <= (QUARTER_TURN + 1) * (QUARTER_TURN + 1)) by (nonlinear_arith)
            requires 0 <= p <= QUARTER_TURN + 1;
        lemma_div_is_ordered(p * p, (QUARTER_TURN + 1) * (QUARTER_TURN + 1), MICRO as int);
        lemma_div_pos_is_pos(p * p, MICRO as int);
    }
    let p2: i64 = p * p / MICRO;
    let c: i64 = step(p2, MICRO, 90);
    let c: i64 = step(p2, c, 56);
    let c: i64 = step(p2, c, 30);
    let c: i64 = step(p2, c, 12);
    let c: i64 = step(p2, c, 2);
    let s: i64 = step(p2, MICRO, 72);
    let s: i64 = step(p2, s, 42);
    let s: i64 = step(p2, s, 20);
    let s: i64 = step(p2, s, 6);
    proof {
        lemma_prod_div_le(s as int, p as int, MICRO as int, 2 * MICRO);
        assert(p * s == s * p) by (nonlinear_arith);
    }
    let s: i64 = p * s / MICRO;
    let c: i64 = if m > QUARTER_TURN { -c } else { c };
    let s: i64 = if a < 0 { -s } else { s };
    (c, s)
}

} // verus!
