//! Fixed-point helpers: one unit is `UNIT` (a million micro-units).
use vstd::prelude::*;

verus! {

/// The fixed-point representation of 1.0.
pub const UNIT: i64 = 1_000_000;

/// Product of a signed value and a non-negative weight, divided by `UNIT`,
/// rounded toward zero.
pub open spec fn scale_spec(a: int, w: int) -> int {
    if a >= 0 {
        (a * w) / (UNIT as int)
    } else {
        -(((-a) * w) / (UNIT as int))
    }
}

/// Absolute value.
pub open spec fn abs_spec(a: int) -> int {
    if a >= 0 {
        a
    } else {
        -a
    }
}

/// `x` limited to the closed interval `[lo, hi]`.
pub open spec fn clamp_spec(x: int, lo: int, hi: int) -> int {
    if x < lo {
        lo
    } else if x > hi {
        hi
    } else {
        x
    }
}

/// `r` is the integer square root of `n`.
pub open spec fn is_isqrt(n: int, r: int) -> bool {
    0 <= r && r * r <= n && n < (r + 1) * (r + 1)
}

/// The integer square root of `n`.
pub open spec fn sqrt_spec(n: int) -> int {
    choose|r: int| is_isqrt(n, r)
}

/// Bhaskara's rational approximation of `sin(pi * t)` for `t` in `[0, 1]`,
/// in fixed point: `16 u / (5 - 4 u)` with `u = t (1 - t)`.
pub open spec fn bump_spec(t: int) -> int {
    let u = t * ((UNIT as int) - t) / (UNIT as int);
    16 * u * (UNIT as int) / (5 * (UNIT as int) - 4 * u)
}

proof fn lemma_scale_bound(a: int, w: int, k: int)
    requires
        0 <= w <= k * UNIT,
        0 <= k,
    ensures
        -k * abs_spec(a) <= scale_spec(a, w) <= k * abs_spec(a),
        a >= 0 ==> scale_spec(a, w) >= 0,
        a <= 0 ==> scale_spec(a, w) <= 0,
{
    let b = abs_spec(a);
    assert(scale_spec(a, w) == if a >= 0 {
        (b * w) / (UNIT as int)
    } else {
        -((b * w) / (UNIT as int))
    });
    assert(0 <= b * w <= b * (k * UNIT)) by (nonlinear_arith)
        requires
            0 <= w <= k * UNIT,
            b >= 0,
    ;
    assert(b * (k * UNIT) == (k * b) * UNIT) by (nonlinear_arith);
    assert((b * w) / (UNIT as int) <= k * b) by (nonlinear_arith)
        requires
            0 <= b * w <= (k * b) * UNIT,
    ;
    let q = (b * w) / (UNIT as int);
    assert(q >= 0) by (nonlinear_arith)
        requires
            0 <= b * w,
            q == (b * w) / (UNIT as int),
    ;
    assert(q <= k * b);
    assert(k * b >= 0) by (nonlinear_arith)
        requires
            k >= 0,
            b >= 0,
    ;
    assert(b == 0 ==> q == 0) by (nonlinear_arith)
        requires
            q == (b * w) / (UNIT as int),
    ;
    assert(-k * b == -(k * b)) by (nonlinear_arith);
    assert(abs_spec(a) == b);
}

/// Multiplies `a` by the fixed-point weight `w` (at most four units).
pub fn scale(a: i64, w: i64) -> (r: i64)
    requires
        -1099511627776i64 <= a <= 1099511627776i64,
        0 <= w <= 4 * UNIT,
    ensures
        r == scale_spec(a as int, w as int),
        -4 * abs_spec(a as int) <= r <= 4 * abs_spec(a as int),
        w <= UNIT ==> -abs_spec(a as int) <= r <= abs_spec(a as int),
        w <= 2 * UNIT ==> -2 * abs_spec(a as int) <= r <= 2 * abs_spec(a as int),
        a >= 0 ==> r >= 0,
        a <= 0 ==> r <= 0,
{
    proof {
        lemma_scale_bound(a as int, w as int, 4);
        if w <= UNIT {
            lemma_scale_bound(a as int, w as int, 1);
        }
        if w <= 2 * UNIT {
            lemma_scale_bound(a as int, w as int, 2);
        }
    }
    let b: u64 = if a >= 0 { a as u64 } else { (-a) as u64 };
    let wu: u64 = w as u64;
    assert(b * wu <= 1099511627776u64 * 4_000_000) by (nonlinear_arith)
        requires
            b <= 1099511627776u64,
            wu <= 4_000_000,
    ;
    let q: u64 = b * wu / (UNIT as u64);
    if a >= 0 {
        q as i64
    } else {
        -(q as i64)
    }
}

/// Limits `x` to `[lo, hi]`.
pub fn clamp(x: i64, lo: i64, hi: i64) -> (r: i64)
    requires
        lo <= hi,
    ensures
        r == clamp_spec(x as int, lo as int, hi as int),
        lo <= r <= hi,
{
    if x < lo {
        lo
    } else if x > hi {
        hi
    } else {
        x
    }
}

/// Integer square root: the largest `r` with `r * r <= n`.
pub fn isqrt(n: u64) -> (r: u64)
    requires
        n < 4611686018427387904u64,
    ensures
        is_isqrt(n as int, r as int),
        r == sqrt_spec(n as int),
        r < 2147483648u64,
{
    let mut lo: u64 = 0;
    let mut hi: u64 = 2147483648u64;
    assert(2147483648u64 * 2147483648u64 == 4611686018427387904u64);
    while lo + 1 < hi
        invariant
            lo < hi <= 2147483648u64,
            lo * lo <= n,
            n < hi * hi,
        decreases hi - lo,
    {
        let mid: u64 = lo + (hi - lo) / 2;
        assert(mid * mid <= 2147483648u64 * 2147483648u64) by (nonlinear_arith)
            requires
                mid <= 2147483648u64,
        ;
        if mid * mid <= n {
            lo = mid;
        } else {
            hi = mid;
        }
    }
    assert(hi == lo + 1);
    proof {
        lemma_isqrt_unique(n as int, lo as int, sqrt_spec(n as int));
    }
    lo
}

/// The integer square root is unique.
pub proof fn lemma_isqrt_unique(n: int, r: int, s: int)
    requires
        is_isqrt(n, r),
        is_isqrt(n, s),
    ensures
        r == s,
{
    if r < s {
        assert((r + 1) * (r + 1) <= s * s) by (nonlinear_arith)
            requires
                0 <= r + 1 <= s,
        ;
    } else if s < r {
        assert((s + 1) * (s + 1) <= r * r) by (nonlinear_arith)
            requires
                0 <= s + 1 <= r,
        ;
    }
}

/// Every non-negative integer has an integer square root.
pub proof fn lemma_sqrt_exists(n: int)
    requires
        n >= 0,
    ensures
        is_isqrt(n, sqrt_spec(n)),
    decreases n,
{
    if n == 0 {
        assert(is_isqrt(0, 0));
    } else {
        lemma_sqrt_exists(n - 1);
        let r = sqrt_spec(n - 1);
        if n < (r + 1) * (r + 1) {
            assert(is_isqrt(n, r));
        } else {
            assert(n == (r + 1) * (r + 1));
            assert(n < (r + 2) * (r + 2)) by (nonlinear_arith)
                requires
                    n == (r + 1) * (r + 1),
                    r >= 0,
            ;
            assert(is_isqrt(n, r + 1));
        }
    }
}

/// The integer square root does not decrease as its argument grows.
pub proof fn lemma_isqrt_monotonic(m: int, n: int, r: int, s: int)
    requires
        m <= n,
        is_isqrt(m, r),
        is_isqrt(n, s),
    ensures
        r <= s,
{
    if r > s {
        assert((s + 1) * (s + 1) <= r * r) by (nonlinear_arith)
            requires
                0 <= s + 1 <= r,
        ;
    }
}

/// A smooth bump on `[0, UNIT]` approximating `sin(pi * t)`: zero at both
/// ends, one unit at the middle.
pub fn bump(t: i64) -> (r: i64)
    requires
        0 <= t <= UNIT,
    ensures
        r == bump_spec(t as int),
        0 <= r <= UNIT,
{
    let s: i64 = UNIT;
    assert(0 <= t * (s - t) <= s * s / 4) by (nonlinear_arith)
        requires
            0 <= t <= s,
            s == 1_000_000,
    ;
    let u: i64 = t * (s - t) / s;
    assert(0 <= u <= s / 4) by (nonlinear_arith)
        requires
            0 <= t * (s - t) <= s * s / 4,
            u as int == (t as int) * ((s - t) as int) / (s as int),
            s == 1_000_000,
    ;
    let num: i64 = 16 * u * s;
    let den: i64 = 5 * s - 4 * u;
    assert(0 <= (num as int) / (den as int) <= s) by (nonlinear_arith)
        requires
            0 <= u <= s / 4,
            num as int == 16 * (u as int) * (s as int),
            den as int == 5 * (s as int) - 4 * (u as int),
            s == 1_000_000,
    ;
    num / den
}

} // verus!
