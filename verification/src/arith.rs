//! Integer helpers for the alignment arithmetic: ceiling division, which
//! decides the upsampling factors, and powers of two, which describe how the
//! channel width grows with recursion depth.
use vstd::prelude::*;

verus! {

use vstd::arithmetic::div_mod::lemma_div_plus_one;
use vstd::arithmetic::div_mod::lemma_basic_div;
use vstd::arithmetic::div_mod::lemma_fundamental_div_mod;
use vstd::arithmetic::div_mod::lemma_mod_bound;

/// Ceiling division: the least integer at or above `a / b`.
pub open spec fn spec_div_ceil(a: int, b: int) -> int
    recommends
        b > 0,
{
    (a + b - 1) / b
}

/// `2^n`: after `n` recursion levels the channel width has doubled `n` times.
pub open spec fn pow2(n: nat) -> nat
    decreases n,
{
    if n == 0 {
        1
    } else {
        2 * pow2((n - 1) as nat)
    }
}

pub proof fn lemma_pow2_pos(n: nat)
    ensures
        pow2(n) >= 1,
    decreases n,
{
    if n > 0 {
        lemma_pow2_pos((n - 1) as nat);
    }
}

/// The quotient `spec_div_ceil(a, b)` is the least multiplier that covers `a`:
/// `b * q` reaches `a` but overshoots by less than `b`.
pub proof fn lemma_div_ceil_bounds(a: int, b: int)
    requires
        a >= 0,
        b >= 1,
    ensures
        spec_div_ceil(a, b) >= 0,
        b * spec_div_ceil(a, b) >= a,
        b * spec_div_ceil(a, b) <= a + b - 1,
        a >= 1 ==> spec_div_ceil(a, b) >= 1,
        spec_div_ceil(a, b) <= a,
{
    let q = (a + b - 1) / b;
    let r = (a + b - 1) % b;
    lemma_fundamental_div_mod(a + b - 1, b);
    lemma_mod_bound(a + b - 1, b);
    assert(a + b - 1 == b * q + r);
    assert(q >= 0) by (nonlinear_arith)
        requires
            b >= 1,
            b * q >= 0;
    assert(a >= 1 ==> q >= 1) by (nonlinear_arith)
        requires
            b >= 1,
            b * q >= a;
    assert(q <= a) by (nonlinear_arith)
        requires
            a >= 0,
            b >= 1,
            b * q <= a + b - 1;
}

/// Ceiling division on machine integers.
pub fn div_ceil_usize(a: usize, b: usize) -> (q: usize)
    requires
        b >= 1,
    ensures
        q == spec_div_ceil(a as int, b as int),
{
    if a == 0 {
        proof {
            lemma_basic_div(b - 1, b as int);
        }
        0
    } else {
        proof {
            lemma_div_plus_one(a - 1, b as int);
        }
        (a - 1) / b + 1
    }
}

} // verus!
