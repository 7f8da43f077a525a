//! Fixed-point angles and the integer trigonometry the controller needs.
use vstd::prelude::*;
use vstd::arithmetic::div_mod::lemma_fundamental_div_mod_converse;

verus! {

/// One unit in fixed point: lengths, drive intents and radians are scaled by it.
pub const MICRO: i64 = 1_000_000;

/// Half a turn (pi) in micro-radians.
pub const HALF_TURN: i64 = 3_141_593;

/// A full turn (two pi) in micro-radians.
pub const FULL_TURN: i64 = 6_283_186;

/// A quarter turn (pi / 2) in micro-radians.
pub const QUARTER_TURN: i64 = 1_570_796;

/// A normalised angle lies in the half-open interval (-pi, pi].
pub open spec fn is_angle(a: int) -> bool {
    -HALF_TURN < a <= HALF_TURN
}

/// The representative of `a` modulo a full turn that lies in (-pi, pi].
pub open spec fn wrap(a: int) -> int {
    (a + HALF_TURN - 1) % (FULL_TURN as int) - HALF_TURN + 1
}

/// The signed shortest rotation that takes heading `a` to heading `b`.
pub open spec fn angle_between(a: int, b: int) -> int {
    wrap(b - a)
}

pub proof fn lemma_wrap_is_angle(a: int)
    ensures
        is_angle(wrap(a)),
{
}

/// Wrapping keeps an angle that is already normalised.
pub proof fn lemma_wrap_identity(a: int)
    requires
        is_angle(a),
    ensures
        wrap(a) == a,
{
    lemma_fundamental_div_mod_converse(a + HALF_TURN - 1, FULL_TURN as int, 0, a + HALF_TURN - 1);
}

/// Wrapping ignores whole turns.
pub proof fn lemma_wrap_shift(a: int, k: int)
    ensures
        wrap(a + k * FULL_TURN) == wrap(a),
{
    let f = FULL_TURN as int;
    let t = a + HALF_TURN - 1;
    let r = t % f;
    let q = t / f;
    assert(t == q * f + r) by {
        vstd::arithmetic::div_mod::lemma_fundamental_div_mod(t, f);
    }
    assert(t + k * f == (q + k) * f + r) by (nonlinear_arith)
        requires
            t == q * f + r,
    ;
    lemma_fundamental_div_mod_converse(t + k * f, f, q + k, r);
}

/// Brings any angle into (-pi, pi].
pub fn normalize_angle(a: i64) -> (r: i64)
    ensures
        r == wrap(a as int),
        is_angle(r as int),
{
    let t: i128 = a as i128 + (HALF_TURN - 1) as i128;
    let f: i128 = FULL_TURN as i128;
    let m: i128;
    if t >= 0 {
        m = t % f;
    } else {
        let q: i128 = (-t) % f;
        let k: i128 = (-t) / f;
        proof {
            lemma_fundamental_div_mod_converse(-t as int, f as int, k as int, q as int);
        }
        if q == 0 {
            m = 0;
            proof {
                lemma_fundamental_div_mod_converse(t as int, f as int, -k as int, 0);
            }
        } else {
            m = f - q;
            proof {
                lemma_fundamental_div_mod_converse(t as int, f as int, -k - 1, (f - q) as int);
            }
        }
    }
    (m - (HALF_TURN - 1) as i128) as i64
}

/// The signed angle from heading `a` to heading `b`, taking the shorter way
/// round; a half turn counts as positive.
pub fn angle_from(a: i64, b: i64) -> (r: i64)
    requires
        is_angle(a as int),
        is_angle(b as int),
    ensures
        r == angle_between(a as int, b as int),
        is_angle(r as int),
{
    let d: i64 = b - a;
    proof {
        if d > HALF_TURN {
            lemma_wrap_shift(d - FULL_TURN, 1);
            lemma_wrap_identity(d - FULL_TURN);
        } else if d <= -HALF_TURN {
            lemma_wrap_shift(d + FULL_TURN, -1);
            lemma_wrap_identity(d + FULL_TURN);
        } else {
            lemma_wrap_identity(d as int);
        }
    }
    if d > HALF_TURN {
        d - FULL_TURN
    } else if d <= -HALF_TURN {
        d + FULL_TURN
    } else {
        d
    }
}

/// The turn from `a` to `b` is the turn from `b` to `a` reversed, unless the
/// two headings are exactly half a turn apart (then both ways read +pi).
pub proof fn lemma_angle_from_antisymmetric(a: int, b: int)
    requires
        is_angle(a),
        is_angle(b),
        angle_between(a, b) != HALF_TURN,
    ensures
        angle_between(b, a) == -angle_between(a, b),
        is_angle(angle_between(a, b)),
{
    let d = b - a;
    if d > HALF_TURN {
        lemma_wrap_shift(d - FULL_TURN, 1);
        lemma_wrap_identity(d - FULL_TURN);
        lemma_wrap_shift(-d + FULL_TURN, -1);
        lemma_wrap_identity(-d + FULL_TURN);
    } else if d <= -HALF_TURN {
        lemma_wrap_shift(d + FULL_TURN, -1);
        lemma_wrap_identity(d + FULL_TURN);
        lemma_wrap_shift(-d - FULL_TURN, 1);
        lemma_wrap_identity(-d - FULL_TURN);
    } else {
        lemma_wrap_identity(d);
        if d == HALF_TURN {
        } else {
            lemma_wrap_identity(-d);
        }
    }
}

} // verus!
