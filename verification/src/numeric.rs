//! Exact integer arithmetic used by the shape builder: an integer square
//! root and truncating (round-toward-zero) division.

use vstd::prelude::*;

verus! {

/// `r` is the floor of the square root of `n`.
pub open spec fn is_sqrt_floor(n: int, r: int) -> bool {
    0 <= r && r * r <= n && n < (r + 1) * (r + 1)
}

/// The floor of the square root of `n`.
pub open spec fn sqrt_floor(n: nat) -> nat
    decreases n,
{
    if n == 0 {
        0
    } else {
        let r = sqrt_floor((n - 1) as nat);
        if (r + 1) * (r + 1) <= n {
            r + 1
        } else {
            r
        }
    }
}

/// `sqrt_floor(n)` really is the floor of the square root of `n`.
pub proof fn lemma_sqrt_floor_correct(n: nat)
    ensures
        is_sqrt_floor(n as int, sqrt_floor(n) as int),
    decreases n,
{
    if n == 0 {
    } else {
        lemma_sqrt_floor_correct((n - 1) as nat);
        let r = sqrt_floor((n - 1) as nat) as int;
        if (r + 1) * (r + 1) <= n {
            assert((r + 1 + 1) * (r + 1 + 1) > (r + 1) * (r + 1)) by (nonlinear_arith)
                requires
                    r >= 0,
            ;
        }
    }
}

/// Only one integer is the floor of the square root of `n`.
pub proof fn lemma_sqrt_floor_unique(n: int, a: int, b: int)
    requires
        is_sqrt_floor(n, a),
        is_sqrt_floor(n, b),
    ensures
        a == b,
{
    assert(a <= b) by (nonlinear_arith)
        requires
            0 <= a,
            0 <= b,
            a * a <= n,
            n < (b + 1) * (b + 1),
    ;
    assert(b <= a) by (nonlinear_arith)
        requires
            0 <= a,
            0 <= b,
            b * b <= n,
            n < (a + 1) * (a + 1),
    ;
}

/// The square root floor is at least any `m` whose square is at most `n`.
pub proof fn lemma_sqrt_floor_at_least(n: nat, m: int)
    requires
        0 <= m,
        m * m <= n as int,
    ensures
        m <= sqrt_floor(n) as int,
{
    lemma_sqrt_floor_correct(n);
    let r = sqrt_floor(n) as int;
    assert(m <= r) by (nonlinear_arith)
        requires
            0 <= m,
            0 <= r,
            m * m <= n as int,
            (n as int) < (r + 1) * (r + 1),
    ;
}

/// The integer square root of `n`: the largest `r` with `r * r <= n`.
pub fn isqrt(n: u64) -> (r: u64)
    ensures
        r as nat == sqrt_floor(n as nat),
        is_sqrt_floor(n as int, r as int),
{
    proof {
        lemma_sqrt_floor_correct(n as nat);
    }
    if n == 0 {
        return 0;
    }
    let mut lo: u64 = 0;
    let mut hi: u64 = 0x1_0000_0000;
    while lo + 1 < hi
        invariant
            lo < hi <= 0x1_0000_0000,
            (lo as int) * (lo as int) <= n as int,
            (n as int) < (hi as int) * (hi as int),
        decreases hi - lo,
    {
        let mid: u64 = lo + (hi - lo) / 2;
        proof {
            assert((mid as int) * (mid as int) <= 0x1_0000_0000 * 0x1_0000_0000)
                by (nonlinear_arith)
                requires
                    0 <= mid <= 0x1_0000_0000,
            ;
        }
        let sq: u128 = (mid as u128) * (mid as u128);
        if sq <= n as u128 {
            lo = mid;
        } else {
            hi = mid;
        }
    }
    proof {
        lemma_sqrt_floor_unique(n as int, lo as int, sqrt_floor(n as nat) as int);
    }
    lo
}

/// Truncating (round-toward-zero) division. Verus's `/` on `int` rounds
/// toward negative infinity, so a negative dividend has its sign taken apart.
pub open spec fn div_trunc(a: int, b: int) -> int {
    if a >= 0 {
        a / b
    } else {
        -((-a) / b)
    }
}

/// The quotient of a division by a positive divisor is no larger in
/// magnitude than the dividend.
pub proof fn lemma_div_magnitude(a: int, b: int)
    requires
        0 <= a,
        0 < b,
    ensures
        0 <= a / b <= a,
{
    vstd::arithmetic::div_mod::lemma_fundamental_div_mod(a, b);
    assert(0 <= a / b && a / b <= a) by (nonlinear_arith)
        requires
            0 <= a,
            0 < b,
            a == b * (a / b) + a % b,
            0 <= a % b < b,
    ;
}

/// Truncating division by a positive divisor never grows the magnitude.
pub proof fn lemma_div_trunc_magnitude(a: int, b: int)
    requires
        0 < b,
    ensures
        a >= 0 ==> 0 <= div_trunc(a, b) <= a,
        a < 0 ==> a <= div_trunc(a, b) <= 0,
{
    if a >= 0 {
        lemma_div_magnitude(a, b);
    } else {
        lemma_div_magnitude(-a, b);
    }
}

/// With `b` positive and dividing `a` exactly, truncating division inverts
/// the product: `b * div_trunc(a, b) == a`.
pub proof fn lemma_div_trunc_exact(a: int, b: int)
    requires
        0 < b,
        a % b == 0,
    ensures
        b * div_trunc(a, b) == a,
{
    vstd::arithmetic::div_mod::lemma_fundamental_div_mod(a, b);
    if a >= 0 {
    } else {
        let k = a / b;
        assert(-a == b * (-k)) by (nonlinear_arith)
            requires
                a == b * k,
        ;
        vstd::arithmetic::div_mod::lemma_mod_multiples_basic(-k, b);
        assert((-k) * b == b * (-k)) by (nonlinear_arith);
        vstd::arithmetic::div_mod::lemma_fundamental_div_mod(-a, b);
        let m = (-a) / b;
        assert(-a == b * m);
        assert(b * (-m) == a) by (nonlinear_arith)
            requires
                -a == b * m,
        ;
    }
}

/// Truncating division of `a` by a positive `b`.
pub fn div_trunc_i64(a: i64, b: i64) -> (q: i64)
    requires
        b > 0,
        a > i64::MIN,
    ensures
        q as int == div_trunc(a as int, b as int),
        a >= 0 ==> 0 <= q <= a,
        a < 0 ==> a <= q <= 0,
{
    if a >= 0 {
        let ua: u64 = a as u64;
        let uq: u64 = ua / (b as u64);
        proof {
            lemma_div_magnitude(ua as int, b as int);
        }
        uq as i64
    } else {
        let ua: u64 = (-a) as u64;
        let uq: u64 = ua / (b as u64);
        proof {
            lemma_div_magnitude(ua as int, b as int);
        }
        -(uq as i64)
    }
}

} // verus!
