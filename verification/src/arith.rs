//! Checked scaling of whole amounts into base units: a whole amount times
//! `10^decimals` is what the token transfer service actually moves.

use vstd::prelude::*;

verus! {

/// `10^e`, the number of base units in one whole unit at scaling exponent `e`.
pub open spec fn pow10_spec(e: nat) -> nat
    decreases e,
{
    if e == 0 {
        1
    } else {
        10 * pow10_spec((e - 1) as nat)
    }
}

/// `10^e` grows with `e`.
pub proof fn lemma_pow10_increases(e1: nat, e2: nat)
    requires
        e1 <= e2,
    ensures
        pow10_spec(e1) <= pow10_spec(e2),
    decreases e2,
{
    if e1 < e2 {
        lemma_pow10_increases(e1, (e2 - 1) as nat);
        assert(pow10_spec(e2) == 10 * pow10_spec((e2 - 1) as nat));
    }
}

/// `10^e` is positive.
pub proof fn lemma_pow10_positive(e: nat)
    ensures
        pow10_spec(e) >= 1,
    decreases e,
{
    if e > 0 {
        lemma_pow10_positive((e - 1) as nat);
    }
}

/// Computes `10^e`, or reports that it exceeds the `u64` range.
fn pow10(e: u8) -> (r: Option<u64>)
    ensures
        match r {
            Some(v) => v == pow10_spec(e as nat),
            None => pow10_spec(e as nat) > u64::MAX,
        },
{
    let mut acc: u64 = 1;
    let mut i: u8 = 0;
    while i < e
        invariant
            i <= e,
            acc == pow10_spec(i as nat),
        decreases e - i,
    {
        acc = match acc.checked_mul(10) {
            Some(v) => v,
            None => {
                proof {
                    lemma_pow10_increases((i + 1) as nat, e as nat);
                }
                return None;
            },
        };
        i = i + 1;
    }
    Some(acc)
}

/// Scales a whole `amount` to base units, `amount * 10^decimals`, or reports
/// that the scaling leaves the `u64` range.
pub fn scale_to_base_units(amount: u32, decimals: u8) -> (r: Option<u64>)
    ensures
        match r {
            Some(v) => v == amount * pow10_spec(decimals as nat),
            None => pow10_spec(decimals as nat) > u64::MAX || amount * pow10_spec(
                decimals as nat,
            ) > u64::MAX,
        },
{
    let p = match pow10(decimals) {
        Some(p) => p,
        None => {
            return None;
        },
    };
    (amount as u64).checked_mul(p)
}

/// For a positive amount, the scaling overflows exactly when the product
/// leaves the `u64` range, whether or not `10^decimals` does on its own.
pub proof fn lemma_scale_overflow_iff(amount: u32, decimals: u8)
    requires
        amount >= 1,
    ensures
        (pow10_spec(decimals as nat) > u64::MAX || amount * pow10_spec(decimals as nat)
            > u64::MAX) <==> amount * pow10_spec(decimals as nat) > u64::MAX,
{
    lemma_pow10_positive(decimals as nat);
    assert(amount * pow10_spec(decimals as nat) >= 1 * pow10_spec(decimals as nat))
        by (nonlinear_arith)
        requires
            amount >= 1,
            pow10_spec(decimals as nat) >= 1,
    ;
}

} // verus!
