//! Fixed-point circle functions.
//!
//! Angles are counts of micro-turns (`fixed::TURN` per revolution), the
//! sine and cosine are scaled by one million.  The sine uses Bhaskara's
//! rational approximation, exact at every quarter turn and within about
//! two parts in a thousand elsewhere; the arctangent uses an octant
//! reduction and a quadratic approximation, exact on the axes and on
//! the diagonals and within about six hundred micro-turns (one part in
//! about sixteen hundred of a turn) elsewhere, which shifts a terrain
//! column lookup by at most one texel per sixteen hundred texels of map
//! width.

use vstd::prelude::*;

verus! {

use crate::fixed::COORD_LIMIT;

/// Sine on the first half turn: Bhaskara's approximation, scaled by one
/// million, for `s` in `[0, 500_000]` micro-turns.
pub open spec fn sin_half_spec(s: int) -> int {
    (16_000_000 * (s * (500_000 - s))) / (1_250_000_000_000 - 4 * (s * (500_000 - s)))
}

/// Full-circle sine, scaled by one million, of an angle in micro-turns.
pub open spec fn sin_micro_spec(t: int) -> int {
    let tr = t % 1_000_000;
    if tr < 500_000 {
        sin_half_spec(tr)
    } else {
        -sin_half_spec(tr - 500_000)
    }
}

/// Full-circle cosine, scaled by one million, of an angle in
/// micro-turns.
pub open spec fn cos_micro_spec(t: int) -> int {
    sin_micro_spec(t + 250_000)
}

/// The product `s * (500_000 - s)` stays within `[0, 62_500_000_000]`
/// on the first half turn.
proof fn lemma_half_product_bounds(s: int)
    by (nonlinear_arith)
    requires
        0 <= s <= 500_000,
    ensures
        0 <= s * (500_000 - s) <= 62_500_000_000,
{
    assert((s - 250_000) * (s - 250_000) >= 0);
}

/// The half-turn sine stays within `[0, 1_000_000]`.
pub proof fn lemma_sin_half_bounds(s: int)
    requires
        0 <= s <= 500_000,
    ensures
        0 <= sin_half_spec(s) <= 1_000_000,
{
    lemma_half_product_bounds(s);
    let p = s * (500_000 - s);
    assert(0 <= (16_000_000 * p) / (1_250_000_000_000 - 4 * p) <= 1_000_000)
        by (nonlinear_arith)
        requires
            0 <= p <= 62_500_000_000,
    ;
}

/// Sine on the first half turn.
fn sin_half(s: u64) -> (r: u64)
    requires
        s <= 500_000,
    ensures
        r == sin_half_spec(s as int),
        r <= 1_000_000,
{
    proof {
        lemma_half_product_bounds(s as int);
        lemma_sin_half_bounds(s as int);
    }
    let p: u64 = s * (500_000 - s);
    let num: u64 = 16_000_000 * p;
    let den: u64 = 1_250_000_000_000 - 4 * p;
    num / den
}

/// Full-circle sine of an angle in micro-turns, scaled by one million.
pub fn sin_micro(t: u64) -> (r: i64)
    ensures
        r == sin_micro_spec(t as int),
        -1_000_000 <= r <= 1_000_000,
{
    let tr: u64 = t % 1_000_000;
    if tr < 500_000 {
        sin_half(tr) as i64
    } else {
        -(sin_half(tr - 500_000) as i64)
    }
}

/// Full-circle cosine of an angle in micro-turns, scaled by one
/// million.
pub fn cos_micro(t: u64) -> (r: i64)
    ensures
        r == cos_micro_spec(t as int),
        -1_000_000 <= r <= 1_000_000,
{
    let tr: u64 = t % 1_000_000;
    proof {
        vstd::arithmetic::div_mod::lemma_add_mod_noop(t as int, 250_000, 1_000_000);
    }
    sin_micro(tr + 250_000)
}

/// Arctangent of `t / 1_000_000` for `t` in `[0, 1_000_000]`, in
/// micro-turns: a quadratic approximation, exact at both ends of the
/// octant.
pub open spec fn atan_octant_spec(t: int) -> int {
    t * (125_000_000_000 + 43_449 * (1_000_000 - t)) / 1_000_000_000_000
}

/// The octant arctangent stays within `[0, 125_000]` micro-turns.
pub proof fn lemma_atan_octant_bounds(t: int)
    requires
        0 <= t <= 1_000_000,
    ensures
        0 <= atan_octant_spec(t) <= 125_000,
{
    let num = t * (125_000_000_000 + 43_449 * (1_000_000 - t));
    assert(0 <= num <= 125_000_000_000_000_000) by (nonlinear_arith)
        requires
            0 <= t <= 1_000_000,
            num == t * (125_000_000_000 + 43_449 * (1_000_000 - t)),
    {
        assert((1_000_000 - t) * (125_000_000_000 - 43_449 * t) >= 0);
    }
}

/// Arctangent within the first octant.
fn atan_octant(t: u64) -> (r: u64)
    requires
        t <= 1_000_000,
    ensures
        r == atan_octant_spec(t as int),
        r <= 125_000,
{
    proof {
        lemma_atan_octant_bounds(t as int);
        assert(t * (125_000_000_000 + 43_449 * (1_000_000 - t)) <= 168_449_000_000_000_000)
            by (nonlinear_arith)
            requires
                0 <= t <= 1_000_000,
        ;
    }
    let num: u64 = t * (125_000_000_000 + 43_449 * (1_000_000 - t));
    num / 1_000_000_000_000
}

/// Angle of the point `(x, y)` around the origin in micro-turns, in
/// `[0, 1_000_000)`; the origin itself maps to zero.
pub open spec fn atan2_micro_spec(x: int, y: int) -> int {
    let ax = if x >= 0 {
        x
    } else {
        -x
    };
    let ay = if y >= 0 {
        y
    } else {
        -y
    };
    if ax == 0 && ay == 0 {
        0
    } else {
        let q = if ax >= ay {
            atan_octant_spec(ay * 1_000_000 / ax)
        } else {
            250_000 - atan_octant_spec(ax * 1_000_000 / ay)
        };
        if x >= 0 && y >= 0 {
            q
        } else if x < 0 && y >= 0 {
            500_000 - q
        } else if x < 0 {
            500_000 + q
        } else if q == 0 {
            0
        } else {
            1_000_000 - q
        }
    }
}

/// A quotient of a smaller by a larger positive number stays at or
/// below the unit ratio.
proof fn lemma_ratio_in_octant(a: int, b: int)
    by (nonlinear_arith)
    requires
        0 <= a <= b,
        0 < b,
    ensures
        0 <= a * 1_000_000 / b <= 1_000_000,
{
}

/// Angle of the point `(x, y)` around the origin, in micro-turns.
pub fn atan2_micro(x: i64, y: i64) -> (r: u64)
    requires
        -COORD_LIMIT <= x <= COORD_LIMIT,
        -COORD_LIMIT <= y <= COORD_LIMIT,
    ensures
        r == atan2_micro_spec(x as int, y as int),
        r < 1_000_000,
{
    let ax: u64 = if x >= 0 {
        x as u64
    } else {
        (-x) as u64
    };
    let ay: u64 = if y >= 0 {
        y as u64
    } else {
        (-y) as u64
    };
    if ax == 0 && ay == 0 {
        return 0;
    }
    let q: u64 = if ax >= ay {
        proof {
            lemma_ratio_in_octant(ay as int, ax as int);
        }
        atan_octant(ay * 1_000_000 / ax)
    } else {
        proof {
            lemma_ratio_in_octant(ax as int, ay as int);
        }
        250_000 - atan_octant(ax * 1_000_000 / ay)
    };
    if x >= 0 && y >= 0 {
        q
    } else if x < 0 && y >= 0 {
        500_000 - q
    } else if x < 0 {
        500_000 + q
    } else if q == 0 {
        0
    } else {
        1_000_000 - q
    }
}

} // verus!
