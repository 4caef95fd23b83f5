//! Fixed-point conversion between assets of different decimal precision.
use vstd::prelude::*;

verus! {

/// The largest value of a `u128`, as a mathematical integer.
pub open spec fn u128_max() -> int {
    0xffff_ffff_ffff_ffff_ffff_ffff_ffff_ffff
}

/// Ten to the power `n`.
pub open spec fn pow10(n: nat) -> nat
    decreases n,
{
    if n == 0 {
        1
    } else {
        10 * pow10((n - 1) as nat)
    }
}

/// Powers of ten grow with the exponent.
pub proof fn lemma_pow10_monotonic(i: nat, j: nat)
    requires
        i <= j,
    ensures
        pow10(i) <= pow10(j),
        pow10(i) >= 1,
    decreases j,
{
    if j > 0 {
        reveal_with_fuel(pow10, 1);
        if i < j {
            lemma_pow10_monotonic(i, (j - 1) as nat);
        }
        lemma_pow10_monotonic(0, (j - 1) as nat);
    }
}

/// The power of ten that `pow10_u128` computes, or `None` when it does not fit.
pub open spec fn pow10_fit(d: u8) -> Option<u128> {
    if pow10(d as nat) <= u128_max() {
        Some(pow10(d as nat) as u128)
    } else {
        None
    }
}

/// The result of converting `amount_in` old-asset base units into new-asset
/// base units:
/// `floor(amount_in * ratio_num * 10^new_decimals / (ratio_den * 10^old_decimals))`,
/// or `MathOverflow` when a factor, the numerator or the denominator exceeds
/// 128 bits, the denominator is zero, or the quotient exceeds 64 bits.
pub open spec fn converted(
    amount_in: u64,
    ratio_num: u64,
    ratio_den: u64,
    old_decimals: u8,
    new_decimals: u8,
) -> Option<u64> {
    let num = amount_in * ratio_num * pow10(new_decimals as nat);
    let den = ratio_den * pow10(old_decimals as nat);
    if pow10(new_decimals as nat) > u128_max() || num > u128_max() {
        None
    } else if pow10(old_decimals as nat) > u128_max() || den > u128_max() || den == 0 {
        None
    } else if num / den > u64::MAX {
        None
    } else {
        Some((num / den) as u64)
    }
}

/// Ten to the power `d` in 128 bits, or `None` when it does not fit.
pub fn pow10_u128(d: u8) -> (r: Option<u128>)
    ensures
        r == pow10_fit(d),
{
    let mut x: u128 = 1;
    let mut i: u8 = 0;
    while i < d
        invariant
            i <= d,
            x as nat == pow10(i as nat),
        decreases d - i,
    {
        proof {
            reveal_with_fuel(pow10, 1);
        }
        match x.checked_mul(10) {
            Some(y) => {
                x = y;
                i = i + 1;
            },
            None => {
                proof {
                    lemma_pow10_monotonic((i + 1) as nat, d as nat);
                }
                return None;
            },
        }
    }
    Some(x)
}

/// Converts `amount_in` old-asset base units into new-asset base units,
/// rounding toward zero so that the ledger never issues more than the ratio
/// allows. Every multiplication is checked; `None` stands for an overflow.
pub fn convert_amount(
    amount_in: u64,
    ratio_num: u64,
    ratio_den: u64,
    old_decimals: u8,
    new_decimals: u8,
) -> (r: Option<u64>)
    ensures
        r == converted(amount_in, ratio_num, ratio_den, old_decimals, new_decimals),
{
    let scale_new = match pow10_u128(new_decimals) {
        Some(p) => p,
        None => return None,
    };
    proof {
        assert((amount_in as int) * (ratio_num as int) <= u64::MAX * u64::MAX) by (nonlinear_arith);
    }
    let base: u128 = (amount_in as u128) * (ratio_num as u128);
    let num = match base.checked_mul(scale_new) {
        Some(n) => n,
        None => return None,
    };
    let scale_old = match pow10_u128(old_decimals) {
        Some(p) => p,
        None => return None,
    };
    let den = match (ratio_den as u128).checked_mul(scale_old) {
        Some(d) => d,
        None => return None,
    };
    if den == 0 {
        return None;
    }
    let q: u128 = num / den;
    if q > u64::MAX as u128 {
        None
    } else {
        Some(q as u64)
    }
}

} // verus!
