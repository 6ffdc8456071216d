//! Integer division that rounds toward zero, and saturation.

use vstd::prelude::*;

verus! {

/// One, as a Q15.16 fraction: a fraction counts 1/65536.
pub const ONE: i32 = 0x1_0000;

/// The quotient of `a` by `b`, rounded toward zero.
pub open spec fn trunc_div(a: int, b: int) -> int {
    if a >= 0 {
        a / b
    } else {
        -((-a) / b)
    }
}

/// What `trunc_div` leaves over: zero, or of the sign of `a`.
pub open spec fn trunc_rem(a: int, b: int) -> int {
    if a >= 0 {
        a % b
    } else {
        -((-a) % b)
    }
}

/// `v`, or the nearer of the two bounds where `v` lies outside them.
pub open spec fn clamp(v: int, lo: int, hi: int) -> int {
    if v < lo {
        lo
    } else if v > hi {
        hi
    } else {
        v
    }
}

/// Quotient and remainder make up the dividend; the remainder is smaller than
/// the divisor and never of the opposite sign to the dividend.
pub proof fn lemma_trunc_div_rem(a: int, b: int)
    requires
        b > 0,
    ensures
        trunc_div(a, b) * b + trunc_rem(a, b) == a,
        -b < trunc_rem(a, b) < b,
        a >= 0 ==> trunc_rem(a, b) >= 0 && trunc_div(a, b) >= 0,
        a <= 0 ==> trunc_rem(a, b) <= 0 && trunc_div(a, b) <= 0,
{
    if a >= 0 {
        vstd::arithmetic::div_mod::lemma_fundamental_div_mod(a, b);
        vstd::arithmetic::div_mod::lemma_mod_bound(a, b);
        vstd::arithmetic::div_mod::lemma_div_pos_is_pos(a, b);
        assert(a / b * b == b * (a / b)) by (nonlinear_arith);
    } else {
        vstd::arithmetic::div_mod::lemma_fundamental_div_mod(-a, b);
        vstd::arithmetic::div_mod::lemma_mod_bound(-a, b);
        vstd::arithmetic::div_mod::lemma_div_pos_is_pos(-a, b);
        assert((-((-a) / b)) * b == -(b * ((-a) / b))) by (nonlinear_arith);
    }
}

/// The sum of the numbers.
pub open spec fn total(w: Seq<i32>) -> int
    decreases w.len(),
{
    if w.len() == 0 {
        0
    } else {
        total(w.drop_last()) + w.last()
    }
}

/// The sum of the numbers of a slice.
pub fn sum(w: &[i32]) -> (r: i128)
    ensures
        r == total(w@),
        -0x8000_0000 * w@.len() <= r <= 0x7FFF_FFFF * w@.len(),
{
    let n = w.len();
    let mut r: i128 = 0;
    let mut i: usize = 0;
    while i < n
        invariant
            n == w@.len(),
            i <= n,
            r == total(w@.take(i as int)),
            -0x8000_0000 * i <= r <= 0x7FFF_FFFF * i,
        decreases n - i,
    {
        proof {
            let t = w@.take(i + 1);
            assert(t.drop_last() =~= w@.take(i as int));
            assert(t.last() == w@[i as int]);
        }
        r = r + w[i] as i128;
        i = i + 1;
    }
    proof {
        assert(w@.take(n as int) =~= w@);
    }
    r
}

} // verus!
