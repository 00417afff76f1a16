//! Escrow custody arithmetic. Vault balances live in the external token
//! ledger; the core only decides how much moves and scales amounts to the
//! ledger's smallest unit.

use vstd::prelude::*;
use crate::errors::ErrorCode;

verus! {

/// `10^exp`, the ledger scaling base.
pub open spec fn pow10(exp: nat) -> nat
    decreases exp,
{
    if exp == 0 {
        1
    } else {
        10 * pow10((exp - 1) as nat)
    }
}

/// Scales `amount` by the mint's decimal count to the ledger's smallest unit.
/// Fails with `ArithmeticOverflow` when the scaled amount does not fit the
/// ledger's 64-bit balances.
pub fn get_scaled_amount(amount: u64, decimals: u8) -> (r: Result<u64, ErrorCode>)
    ensures
        match r {
            Ok(scaled) => amount * pow10(decimals as nat) <= u64::MAX
                && scaled == amount * pow10(decimals as nat),
            Err(e) => e == ErrorCode::ArithmeticOverflow
                && amount * pow10(decimals as nat) > u64::MAX,
        },
{
    if amount == 0 {
        proof {
            vstd::arithmetic::mul::lemma_mul_basics(pow10(decimals as nat) as int);
        }
        return Ok(0);
    }
    let mut base: u64 = 1;
    let mut i: u8 = 0;
    while i < decimals
        invariant
            amount >= 1,
            i <= decimals,
            base == pow10(i as nat),
        decreases decimals - i,
    {
        proof {
            lemma_pow10_next(i as nat);
        }
        if base > u64::MAX / 10 {
            proof {
                lemma_div_mul_bound(u64::MAX as nat, 10, base as nat);
                lemma_pow10_grows(i as nat + 1, decimals as nat);
                vstd::arithmetic::mul::lemma_mul_inequality(
                    1,
                    amount as int,
                    pow10(decimals as nat) as int,
                );
                vstd::arithmetic::mul::lemma_mul_basics(pow10(decimals as nat) as int);
            }
            return Err(ErrorCode::ArithmeticOverflow);
        }
        base = base * 10;
        i = i + 1;
    }
    if base > u64::MAX / amount {
        proof {
            lemma_div_mul_bound(u64::MAX as nat, amount as nat, base as nat);
        }
        return Err(ErrorCode::ArithmeticOverflow);
    }
    proof {
        vstd::arithmetic::div_mod::lemma_fundamental_div_mod(u64::MAX as int, amount as int);
        assert(amount * base <= amount * (u64::MAX / amount) as int) by (nonlinear_arith)
            requires amount > 0, base <= u64::MAX as u64 / amount;
        assert(amount as int * (u64::MAX as int / amount as int) <= u64::MAX as int)
            by (nonlinear_arith)
            requires
                amount > 0,
                u64::MAX as int == amount as int * (u64::MAX as int / amount as int)
                    + u64::MAX as int % amount as int,
                0 <= u64::MAX as int % amount as int;
    }
    Ok(amount * base)
}

/// One unfolding of `pow10`.
proof fn lemma_pow10_next(exp: nat)
    ensures
        pow10(exp + 1) == 10 * pow10(exp),
{
}

/// `pow10` is monotone in its exponent.
proof fn lemma_pow10_grows(lo: nat, hi: nat)
    requires
        lo <= hi,
    ensures
        pow10(lo) <= pow10(hi),
    decreases hi - lo,
{
    if lo < hi {
        lemma_pow10_grows(lo, (hi - 1) as nat);
        lemma_pow10_next((hi - 1) as nat);
        assert(pow10((hi - 1) as nat) <= 10 * pow10((hi - 1) as nat)) by (nonlinear_arith);
    }
}

/// When `b` exceeds `cap / a`, the product `a * b` exceeds `cap`.
proof fn lemma_div_mul_bound(cap: nat, a: nat, b: nat)
    requires
        a > 0,
        b > cap / a,
    ensures
        a * b > cap,
{
    let q = cap / a;
    vstd::arithmetic::div_mod::lemma_fundamental_div_mod(cap as int, a as int);
    assert(a * b >= a * (q + 1)) by (nonlinear_arith)
        requires a > 0, b >= q + 1;
    assert(a * (q + 1) == a * q + a) by (nonlinear_arith);
}

} // verus!
