//! Fixed-point scalar arithmetic shared by the terrain and physics
//! modules.
//!
//! Lengths, masses and densities are stored as `i64`/`u64` counts of
//! milli-units (`SCALE` per world unit).  Angles are counts of
//! micro-turns (`TURN` per revolution).

use vstd::prelude::*;

verus! {

/// Milli-units per world unit.
pub const SCALE: u64 = 1_000;

/// Micro-turns per full revolution.
pub const TURN: u64 = 1_000_000;

/// The circle constant, scaled by one million.
pub const PI_MICRO: u64 = 3_141_593;

/// Largest coordinate (in milli-units) the physics queries accept;
/// keeps every intermediate product inside `u64`.
pub const COORD_LIMIT: i64 = 1_000_000_000;

/// A fixed-point 3-vector in milli-units.  `z` runs along the cylinder
/// axis; `x` and `y` span the radial plane.
#[derive(Clone, Copy, Debug, PartialEq, Eq, Structural)]
pub struct Vec3Fx {
    pub x: i64,
    pub y: i64,
    pub z: i64,
}

impl Vec3Fx {
    /// All components within the coordinate limit.
    pub open spec fn in_range(self) -> bool {
        &&& -COORD_LIMIT <= self.x <= COORD_LIMIT
        &&& -COORD_LIMIT <= self.y <= COORD_LIMIT
        &&& -COORD_LIMIT <= self.z <= COORD_LIMIT
    }

    /// The zero vector.
    pub fn zero() -> (r: Vec3Fx)
        ensures
            r == (Vec3Fx { x: 0, y: 0, z: 0 }),
    {
        Vec3Fx { x: 0, y: 0, z: 0 }
    }
}

/// Products of nonnegative numbers respect bounds on both factors.
pub proof fn lemma_mul_le(a: int, b: int, ca: int, cb: int)
    by (nonlinear_arith)
    requires
        0 <= a <= ca,
        0 <= b <= cb,
    ensures
        a * b <= ca * cb,
{
}

/// Dividing a nonnegative number cannot enlarge it.
pub proof fn lemma_div_le_self(x: int, den: int)
    by (nonlinear_arith)
    requires
        0 <= x,
        1 <= den,
    ensures
        0 <= x / den <= x,
{
}

/// `r` is the integer square root of `n`.
pub open spec fn is_isqrt(n: int, r: int) -> bool {
    0 <= r && r * r <= n && n < (r + 1) * (r + 1)
}

/// Integer square root as a spec-level function.
pub open spec fn isqrt_spec(n: int) -> int
    decreases n,
{
    if n < 1 {
        0
    } else {
        let r = isqrt_spec(n - 1);
        if (r + 1) * (r + 1) <= n {
            r + 1
        } else {
            r
        }
    }
}

/// `isqrt_spec` satisfies the defining inequalities of the integer
/// square root.
pub proof fn lemma_isqrt_is_isqrt(n: int)
    requires
        0 <= n,
    ensures
        is_isqrt(n, isqrt_spec(n)),
    decreases n,
{
    if n < 1 {
        assert(isqrt_spec(n) == 0);
    } else {
        lemma_isqrt_is_isqrt(n - 1);
        let r = isqrt_spec(n - 1);
        if (r + 1) * (r + 1) <= n {
            assert(is_isqrt(n, r + 1)) by (nonlinear_arith)
                requires
                    is_isqrt(n - 1, r),
                    (r + 1) * (r + 1) <= n,
                    1 <= n,
            ;
        } else {
            assert(is_isqrt(n, r));
        }
    }
}

/// Any two integer square roots of the same number coincide.
pub proof fn lemma_isqrt_unique(n: int, a: int, b: int)
    by (nonlinear_arith)
    requires
        is_isqrt(n, a),
        is_isqrt(n, b),
    ensures
        a == b,
{
}

/// Integer square root of a `u64`, by binary search.
pub fn isqrt64(n: u64) -> (r: u64)
    ensures
        r == isqrt_spec(n as int),
        is_isqrt(n as int, r as int),
{
    proof {
        lemma_isqrt_is_isqrt(n as int);
    }
    if n == 0 {
        return 0;
    }
    let mut lo: u64 = 0;
    let mut hi: u64 = 4_294_967_296;
    while lo + 1 < hi
        invariant
            lo < hi <= 4_294_967_296,
            lo * lo <= n,
            n < hi * hi,
        decreases hi - lo,
    {
        let mid: u64 = lo + (hi - lo) / 2;
        proof {
            assert(mid * mid <= u128::MAX) by (nonlinear_arith)
                requires
                    mid <= 4_294_967_296,
            ;
        }
        if (mid as u128) * (mid as u128) <= n as u128 {
            lo = mid;
        } else {
            hi = mid;
        }
    }
    proof {
        lemma_isqrt_unique(n as int, lo as int, isqrt_spec(n as int));
    }
    lo
}

/// Truncating scale: `v * num / den`, rounded toward zero.
pub open spec fn mul_div_trunc(v: int, num: int, den: int) -> int {
    if v >= 0 {
        (v * num) / den
    } else {
        -((-v * num) / den)
    }
}

/// `a * b / den` on magnitudes, for nonnegative inputs.
pub fn mul_div_u64(a: u64, b: u64, den: u64) -> (r: u64)
    requires
        den > 0,
        a * b / (den as int) <= u64::MAX,
    ensures
        r == a * b / (den as int),
{
    proof {
        assert(a * b <= u128::MAX) by (nonlinear_arith)
            requires
                a <= u64::MAX,
                b <= u64::MAX,
        ;
    }
    let wide: u128 = (a as u128) * (b as u128) / (den as u128);
    wide as u64
}

/// Signed truncating scale: `v * num / den` rounded toward zero, the
/// semantics of a hardware division applied to the magnitude.
pub fn scale_i64(v: i64, num: u64, den: u64) -> (r: i64)
    requires
        den > 0,
        -COORD_LIMIT <= v <= COORD_LIMIT,
        num <= 10_000_000_000,
        (COORD_LIMIT as int) * num / (den as int) <= i64::MAX,
    ensures
        r == mul_div_trunc(v as int, num as int, den as int),
        v >= 0 ==> r >= 0,
        v <= 0 ==> r <= 0,
        -((COORD_LIMIT as int) * num / (den as int)) <= r <= (COORD_LIMIT as int) * num / (
        den as int),
{
    if v >= 0 {
        let m: u64 = v as u64;
        proof {
            lemma_scale_le(m as int, COORD_LIMIT as int, num as int, den as int);
        }
        let q: u64 = mul_div_u64(m, num, den);
        proof {
            if v == 0 {
                assert(0int * num == 0);
                assert(0int / (den as int) == 0) by (nonlinear_arith)
                    requires
                        den > 0,
                ;
            }
        }
        q as i64
    } else {
        let m: u64 = (-v) as u64;
        proof {
            lemma_scale_le(m as int, COORD_LIMIT as int, num as int, den as int);
        }
        let q: u64 = mul_div_u64(m, num, den);
        -(q as i64)
    }
}

/// The truncating scale keeps the sign of its input whenever the ratio
/// is nonnegative.
pub proof fn lemma_mul_div_trunc_sign(v: int, num: int, den: int)
    requires
        0 <= num,
        1 <= den,
    ensures
        v >= 0 ==> mul_div_trunc(v, num, den) >= 0,
        v < 0 ==> mul_div_trunc(v, num, den) <= 0,
        v == 0 ==> mul_div_trunc(v, num, den) == 0,
{
    if v == 0 {
        assert(0int * num == 0 && 0int / den == 0) by (nonlinear_arith)
            requires
                den >= 1,
        ;
    } else if v > 0 {
        assert(v * num >= 0 && (v * num >= 0 ==> v * num / den >= 0)) by (nonlinear_arith)
            requires
                v >= 0,
                num >= 0,
                den >= 1,
        ;
    } else {
        assert(-v * num >= 0 && (-v * num >= 0 ==> (-v * num) / den >= 0)) by (nonlinear_arith)
            requires
                v < 0,
                num >= 0,
                den >= 1,
        ;
    }
}

/// Scaling by a fraction of at most one — `|v| <= den` — keeps the
/// result within the ratio's numerator.
pub proof fn lemma_mul_div_trunc_bound(v: int, num: int, den: int)
    requires
        -den <= v <= den,
        0 <= num,
        0 < den,
    ensures
        -num <= mul_div_trunc(v, num, den) <= num,
{
    assert(den * num / den == num) by (nonlinear_arith)
        requires
            0 < den,
            0 <= num,
    ;
    if v >= 0 {
        lemma_scale_le(v, den, num, den);
        lemma_mul_div_trunc_sign(v, num, den);
    } else {
        lemma_scale_le(-v, den, num, den);
        lemma_mul_div_trunc_sign(v, num, den);
    }
}

/// Scaling a smaller magnitude by the same ratio gives a smaller
/// result.
pub proof fn lemma_scale_le(a: int, b: int, num: int, den: int)
    by (nonlinear_arith)
    requires
        0 <= a <= b,
        0 <= num,
        0 < den,
    ensures
        a * num / den <= b * num / den,
{
}

} // verus!
