//! The quorum rule: whether a share of signing members reaches a threshold
//! given in basis points (1/10000).
//!
//! The share is computed as the original vault did, with the fixed-point
//! `soroban_decimal::Decimal` (18 decimal places); the contract of
//! [`quorum_reached`] states the result as an exact integer comparison.

use vstd::prelude::*;

verus! {

/// Basis points in a whole: 10000 bps = 100%.
pub const BPS_SCALE: u32 = 10_000u32;

/// The quorum is met when `signed / total >= quorum_bps / 10000`, that is,
/// by cross-multiplication, when `signed * 10000 >= quorum_bps * total`.
pub open spec fn quorum_met(signed: int, total: int, quorum_bps: int) -> bool {
    signed * 10000 >= quorum_bps * total
}

/// Relies on `soroban_decimal::Decimal::bps` and `Decimal::atomics`: a count
/// of basis points becomes the decimal `x / 10000`, whose atomic units (with
/// 18 decimal places) are `x * 10^14`.
#[verifier::external_body]
fn bps_atomics(x: i64) -> (r: i128)
    ensures
        r == x as int * 100_000_000_000_000,
{
    soroban_decimal::Decimal::bps(x).atomics()
}

/// Relies on `soroban_decimal::Decimal::from_ratio` and `Decimal::atomics`:
/// the ratio is `numerator * 10^18 / denominator` in `i128`, truncated. It
/// panics on a zero denominator, which `requires` leaves out.
#[verifier::external_body]
fn ratio_atomics(numerator: u32, denominator: u32) -> (r: i128)
    requires
        denominator > 0,
    ensures
        r == (numerator as int * 1_000_000_000_000_000_000) / (denominator as int),
{
    soroban_decimal::Decimal::from_ratio(numerator, denominator).atomics()
}

proof fn lemma_floor_div_ge(a: int, n: int, k: int)
    requires
        a >= 0,
        n > 0,
    ensures
        (a / n >= k) == (a >= k * n),
{
    let q = a / n;
    let r = a % n;
    assert(a == n * q + r && 0 <= r < n) by {
        vstd::arithmetic::div_mod::lemma_fundamental_div_mod(a, n);
    }
    if q >= k {
        assert(n * q >= n * k) by (nonlinear_arith)
            requires
                q >= k,
                n > 0,
        ;
    } else {
        assert(n * q + n <= n * k) by (nonlinear_arith)
            requires
                q + 1 <= k,
                n > 0,
        ;
    }
}

/// Whether `signed` of `total` members reach `quorum_bps` basis points.
pub fn quorum_reached(signed: u32, total: u32, quorum_bps: u32) -> (r: bool)
    requires
        total > 0,
    ensures
        r == quorum_met(signed as int, total as int, quorum_bps as int),
{
    let required = bps_atomics(quorum_bps as i64);
    let voted = ratio_atomics(signed, total);
    proof {
        let a = signed as int * 1_000_000_000_000_000_000;
        let k = quorum_bps as int * 100_000_000_000_000;
        lemma_floor_div_ge(a, total as int, k);
        let s = signed as int;
        let q = quorum_bps as int;
        let t = total as int;
        assert(a - k * t == 100_000_000_000_000 * (s * 10000 - q * t)) by (nonlinear_arith)
            requires
                a == s * 1_000_000_000_000_000_000,
                k == q * 100_000_000_000_000,
        ;
    }
    voted >= required
}

} // verus!
