//! Integer arithmetic shared by the price feed and the controller.

use vstd::prelude::*;

verus! {

/// `v` can be held in a signed 128-bit integer.
pub open spec fn in_i128(v: int) -> bool {
    i128::MIN <= v <= i128::MAX
}

/// The quotient of `a` by `b` rounded toward zero, as signed machine division
/// rounds it. For `b == 0` the value is 0 and carries no meaning.
pub open spec fn trunc_div(a: int, b: int) -> int {
    if a >= 0 && b > 0 {
        a / b
    } else if a < 0 && b < 0 {
        (-a) / (-b)
    } else if a < 0 && b > 0 {
        -((-a) / b)
    } else if a >= 0 && b < 0 {
        -(a / (-b))
    } else {
        0
    }
}

/// The distance between `a` and `b`.
pub open spec fn distance(a: int, b: int) -> int {
    if a >= b {
        a - b
    } else {
        b - a
    }
}

/// Division rounded toward zero; `None` for a zero divisor and for the one
/// quotient that does not fit (`i128::MIN / -1`).
pub fn div(a: i128, b: i128) -> (r: Option<i128>)
    ensures
        r == (if b != 0 && in_i128(trunc_div(a as int, b as int)) {
            Some(trunc_div(a as int, b as int) as i128)
        } else {
            None
        }),
{
    a.checked_div(b)
}

/// The distance between two signed values, which always fits unsigned.
pub fn abs_diff(a: i128, b: i128) -> (d: u128)
    ensures
        d == distance(a as int, b as int),
{
    let (hi, lo) = if a >= b {
        (a, b)
    } else {
        (b, a)
    };
    if lo >= 0 || hi < 0 {
        (hi - lo) as u128
    } else {
        // lo < 0 <= hi: the two magnitudes add up.
        let below: u128 = (-(lo + 1)) as u128 + 1;
        hi as u128 + below
    }
}

/// `r` is the integer square root of `n`: the largest non-negative integer
/// whose square does not exceed `n`.
pub open spec fn is_sqrt_floor(n: int, r: int) -> bool {
    &&& 0 <= r
    &&& r * r <= n
    &&& n < (r + 1) * (r + 1)
}

/// The integer square root of `n`, and 0 for every `n <= 0`.
pub open spec fn sqrt_floor(n: int) -> int {
    if n <= 0 {
        0
    } else {
        choose|r: int| is_sqrt_floor(n, r)
    }
}

/// Two integers that both satisfy the square-root bounds of `n` are equal.
pub proof fn lemma_sqrt_floor_unique(n: int, r1: int, r2: int)
    requires
        is_sqrt_floor(n, r1),
        is_sqrt_floor(n, r2),
    ensures
        r1 == r2,
{
    if r1 < r2 {
        assert((r1 + 1) * (r1 + 1) <= r2 * r2) by (nonlinear_arith)
            requires
                0 <= r1,
                r1 + 1 <= r2,
        ;
    } else if r2 < r1 {
        assert((r2 + 1) * (r2 + 1) <= r1 * r1) by (nonlinear_arith)
            requires
                0 <= r2,
                r2 + 1 <= r1,
        ;
    }
}

/// A witness of the square-root bounds is the square root.
pub proof fn lemma_sqrt_floor_is(n: int, r: int)
    requires
        n > 0,
        is_sqrt_floor(n, r),
    ensures
        sqrt_floor(n) == r,
{
    let c = choose|c: int| is_sqrt_floor(n, c);
    lemma_sqrt_floor_unique(n, r, c);
}

/// Every non-negative integer has a square root: `sqrt_floor(n)` satisfies
/// the square-root bounds of `n`.
pub proof fn lemma_sqrt_floor_bounds(n: int)
    requires
        0 <= n,
    ensures
        is_sqrt_floor(n, sqrt_floor(n)),
    decreases n,
{
    if n == 0 {
        assert(is_sqrt_floor(0, 0));
    } else {
        lemma_sqrt_floor_bounds(n - 1);
        let r = sqrt_floor(n - 1);
        // The root of n - 1 is the root of n, unless n is the next square.
        if n < (r + 1) * (r + 1) {
            assert(is_sqrt_floor(n, r));
        } else {
            assert(n == (r + 1) * (r + 1));
            assert((r + 1) * (r + 1) < (r + 2) * (r + 2)) by (nonlinear_arith)
                requires
                    0 <= r,
            ;
            assert(is_sqrt_floor(n, r + 1));
        }
    }
}

/// The square root is the largest integer whose square does not exceed `n`:
/// no non-negative `r` with `r * r <= n` lies above it.
pub proof fn lemma_sqrt_floor_at_least(n: int, r: int)
    requires
        0 <= r,
        r * r <= n,
    ensures
        r <= sqrt_floor(n),
{
    assert(0 <= r * r) by (nonlinear_arith);
    lemma_sqrt_floor_bounds(n);
    let s = sqrt_floor(n);
    if s < r {
        assert((s + 1) * (s + 1) <= r * r) by (nonlinear_arith)
            requires
                0 <= s,
                s + 1 <= r,
        ;
    }
}

/// One Newton step from an estimate above the root moves strictly down.
proof fn lemma_newton_descends(n: int, x: int)
    requires
        0 <= n,
        0 < x,
        n < x * x,
    ensures
        (x + n / x) / 2 < x,
{
    assert(n / x < x) by (nonlinear_arith)
        requires
            0 <= n,
            0 < x,
            n < x * x,
    ;
}

/// One Newton step from any positive estimate does not fall below the root.
proof fn lemma_newton_stays_above(n: int, x: int)
    requires
        0 <= n,
        0 < x,
    ensures
        n < ((x + n / x) / 2 + 1) * ((x + n / x) / 2 + 1),
{
    let q = n / x;
    let s = (x + q) / 2;
    assert(n < x * (q + 1)) by (nonlinear_arith)
        requires
            0 <= n,
            0 < x,
            q == n / x,
    ;
    assert(2 * (s + 1) >= x + q + 1);
    assert(4 * (x * (q + 1)) <= (2 * (s + 1)) * (2 * (s + 1))) by (nonlinear_arith)
        requires
            2 * (s + 1) >= x + (q + 1),
            0 < x,
            0 <= q + 1,
    ;
    assert((2 * (s + 1)) * (2 * (s + 1)) == 4 * ((s + 1) * (s + 1))) by (nonlinear_arith);
}

/// Integer square root by Newton's method.
///
/// Returns 0 for every `n <= 0`; for every `n >= 0` the result `r` is the one
/// non-negative integer with `r * r <= n < (r + 1) * (r + 1)`.
pub fn isqrt(n: i128) -> (r: i128)
    ensures
        r == sqrt_floor(n as int),
        n <= 0 ==> r == 0,
        n >= 0 ==> is_sqrt_floor(n as int, r as int),
{
    if n <= 0 {
        return 0;
    }
    if n == 1 {
        proof {
            lemma_sqrt_floor_is(1, 1);
        }
        return 1;
    }
    let m: u128 = n as u128;
    let mut x: u128 = m;
    let mut y: u128 = (x + 1) / 2;
    proof {
        assert(m as int / m as int == 1) by (nonlinear_arith)
            requires
                m > 0,
        ;
        assert((m + 1) * (m + 1) > m) by (nonlinear_arith)
            requires
                m > 0,
        ;
    }
    while y < x
        invariant
            m == n,
            0 < x <= m,
            m < 0x8000_0000_0000_0000_0000_0000_0000_0000,
            m < (x + 1) * (x + 1),
            y == (x + m / x) / 2,
        decreases x,
    {
        proof {
            lemma_newton_stays_above(m as int, x as int);
            assert(y > 0) by (nonlinear_arith)
                requires
                    y == (x + m / x) / 2,
                    0 < x <= m,
            ;
        }
        x = y;
        proof {
            assert(m / x <= m) by (nonlinear_arith)
                requires
                    0 < x,
            ;
        }
        y = (x + m / x) / 2;
    }
    proof {
        if m < x * x {
            lemma_newton_descends(m as int, x as int);
        }
        assert(is_sqrt_floor(n as int, x as int));
        lemma_sqrt_floor_is(n as int, x as int);
    }
    x as i128
}

} // verus!
