//! Small verified arithmetic helpers the motion and collision systems
//! build on: clamping, exact halving, an integer square root, and the
//! scaled division that turns a chase vector into a displacement.

use vstd::prelude::*;

use vstd::arithmetic::div_mod::{
    lemma_div_is_ordered, lemma_div_multiples_vanish, lemma_div_pos_is_pos,
    lemma_fundamental_div_mod,
};

verus! {

/// Mathematical clamp of `v` into `[lo, hi]`.
pub open spec fn clamp_spec(v: int, lo: int, hi: int) -> int {
    if v < lo {
        lo
    } else if v > hi {
        hi
    } else {
        v
    }
}

/// Clamp `v` into `[lo, hi]`.
pub fn clamp_i64(v: i64, lo: i64, hi: i64) -> (r: i64)
    requires
        lo <= hi,
    ensures
        r == clamp_spec(v as int, lo as int, hi as int),
{
    if v < lo {
        lo
    } else if v > hi {
        hi
    } else {
        v
    }
}

/// Exact half of a nonnegative length.
pub fn half(v: i64) -> (r: i64)
    requires
        v >= 0,
    ensures
        r == v as int / 2,
{
    proof {
        lemma_div_is_ordered(v as int, i64::MAX as int, 2);
    }
    ((v as u64) / 2) as i64
}

/// The floor of the square root of `n`, defined by counting up.
pub open spec fn sqrt_floor(n: int) -> int
    decreases n,
{
    if n <= 0 {
        0
    } else {
        let r = sqrt_floor(n - 1);
        if (r + 1) * (r + 1) <= n {
            r + 1
        } else {
            r
        }
    }
}

/// `sqrt_floor(n)` is the floor of the square root: it is nonnegative, its
/// square is at most `n` and the next square is beyond `n`.
pub proof fn lemma_sqrt_floor_bounds(n: int)
    requires
        n >= 0,
    ensures
        sqrt_floor(n) >= 0,
        sqrt_floor(n) * sqrt_floor(n) <= n,
        n < (sqrt_floor(n) + 1) * (sqrt_floor(n) + 1),
    decreases n,
{
    if n > 0 {
        let r = sqrt_floor(n - 1);
        lemma_sqrt_floor_bounds(n - 1);
        if (r + 1) * (r + 1) <= n {
            assert(sqrt_floor(n) == r + 1);
            assert(n < (r + 1 + 1) * (r + 1 + 1)) by (nonlinear_arith)
                requires
                    n - 1 < (r + 1) * (r + 1),
                    r >= 0;
        } else {
            assert(sqrt_floor(n) == r);
        }
    }
}

/// The floor of a square root is unique: any `r` squeezed the same way is
/// `sqrt_floor(n)`.
pub proof fn lemma_sqrt_floor_unique(n: int, r: int)
    requires
        r >= 0,
        r * r <= n,
        n < (r + 1) * (r + 1),
    ensures
        r == sqrt_floor(n),
{
    let s = sqrt_floor(n);
    lemma_sqrt_floor_bounds(n);
    if r < s {
        assert(false) by (nonlinear_arith)
            requires
                0 <= r < s,
                s * s <= n,
                n < (r + 1) * (r + 1);
    }
    if s < r {
        assert(false) by (nonlinear_arith)
            requires
                0 <= s < r,
                r * r <= n,
                n < (s + 1) * (s + 1);
    }
}

/// Integer square root by bisection.
pub fn isqrt(n: u64) -> (r: u64)
    ensures
        r == sqrt_floor(n as int),
        r * r <= n,
        n < (r + 1) * (r + 1),
{
    let mut lo: u64 = 0;
    let mut hi: u64 = 0x1_0000_0000;
    while lo + 1 < hi
        invariant
            lo < hi <= 0x1_0000_0000,
            lo * lo <= n,
            n < hi * hi,
        decreases hi - lo,
    {
        let mid = lo + (hi - lo) / 2;
        proof {
            vstd::arithmetic::div_mod::lemma_div_is_strictly_smaller((hi - lo) as int, 2);
            assert(mid < hi);
            assert((mid as int) * (mid as int) <= 4294967295int * 4294967295int)
                by (nonlinear_arith)
                requires
                    0 <= mid <= 4294967295int;
        }
        if mid * mid <= n {
            lo = mid;
        } else {
            hi = mid;
        }
    }
    proof {
        assert(n < (lo + 1) * (lo + 1)) by (nonlinear_arith)
            requires
                lo + 1 >= hi,
                n < hi * hi,
                0 <= lo,
                0 <= hi;
        lemma_sqrt_floor_unique(n as int, lo as int);
    }
    lo
}

/// The scaled quotient the motion system uses to stretch one component of
/// a chase vector to the predator's speed: magnitudes are divided and the
/// sign of the component is kept.
pub open spec fn scaled_spec(a: int, s: int, len: int) -> int {
    if a >= 0 {
        (a * s) / len
    } else {
        -(((-a) * s) / len)
    }
}

/// Compute `scaled_spec(a, s, len)`; when the component is no longer than
/// the vector, the result is no longer than the speed.
pub fn scaled_div(a: i64, s: i64, len: i64) -> (r: i64)
    requires
        0 < len <= 1000000,
        0 <= s <= 2000000000,
        -1000000 <= a <= 1000000,
    ensures
        r == scaled_spec(a as int, s as int, len as int),
        -len <= a <= len ==> -s <= r <= s,
{
    let m: u64 = if a >= 0 {
        a as u64
    } else {
        (-a) as u64
    };
    proof {
        assert(m as int * (s as int) <= 1000000int * 2000000000int) by (nonlinear_arith)
            requires
                0 <= m <= 1000000,
                0 <= s <= 2000000000;
    }
    let p: u64 = m * (s as u64);
    let q: u64 = p / (len as u64);
    proof {
        lemma_fundamental_div_mod(p as int, len as int);
        lemma_div_pos_is_pos(p as int, len as int);
        assert(p as int / len as int <= p as int) by (nonlinear_arith)
            requires
                p as int == len as int * (p as int / len as int) + (p as int % len as int),
                0 <= p as int % len as int,
                1 <= len as int,
                0 <= p as int / len as int;
        if m <= len {
            assert(m as int * s as int <= len as int * s as int) by (nonlinear_arith)
                requires
                    0 <= m <= len,
                    0 <= s;
            lemma_div_is_ordered(m as int * s as int, len as int * s as int, len as int);
            lemma_div_multiples_vanish(s as int, len as int);
        }
    }
    if a >= 0 {
        q as i64
    } else {
        -(q as i64)
    }
}

} // verus!
