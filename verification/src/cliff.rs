//! The six-month cliff: a vesting vault that releases a fixed amount at most
//! every six months, a bounded number of times per period.

use vstd::prelude::*;
use crate::constants::{SIX_MONTHS, SIX_MONTHS_TRANSFERS_PER_PERIOD, SIX_MONTH_CLIFF_AMOUNT};
use crate::errors::ErrorCode;
use crate::escrow::{get_scaled_amount, pow10};

verus! {

/// Persistent state of the cliff: when it last released funds and how many
/// releases it has performed.
pub struct SixMonthCliff {
    pub last_transfer_out_datetime: i64,
    pub transfers_performed: u64,
}

/// Releases one cliff amount: allowed once six months have passed since the
/// last release and while the per-period transfer count is not exhausted.
/// Restamps the release time, counts it, and returns the ledger-scaled
/// amount to withdraw from the cliff vault.
pub fn transfer_out(six_month_cliff_state: &mut SixMonthCliff, now: i64, decimals: u8) -> (r:
    Result<u64, ErrorCode>)
    requires
        i64::MIN <= now - old(six_month_cliff_state).last_transfer_out_datetime <= i64::MAX,
    ensures
        match r {
            Ok(scaled) => {
                &&& now - old(six_month_cliff_state).last_transfer_out_datetime >= SIX_MONTHS
                &&& old(six_month_cliff_state).transfers_performed
                    <= SIX_MONTHS_TRANSFERS_PER_PERIOD
                &&& scaled == SIX_MONTH_CLIFF_AMOUNT * pow10(decimals as nat)
                &&& final(six_month_cliff_state).last_transfer_out_datetime == now
                &&& final(six_month_cliff_state).transfers_performed == old(
                    six_month_cliff_state,
                ).transfers_performed + 1
            },
            Err(e) => {
                &&& *final(six_month_cliff_state) == *old(six_month_cliff_state)
                &&& if now - old(six_month_cliff_state).last_transfer_out_datetime < SIX_MONTHS {
                    e == ErrorCode::NotEnoughTimePassed
                } else if old(six_month_cliff_state).transfers_performed
                    > SIX_MONTHS_TRANSFERS_PER_PERIOD {
                    e == ErrorCode::MaxTransfersPerformed
                } else {
                    e == ErrorCode::ArithmeticOverflow && SIX_MONTH_CLIFF_AMOUNT * pow10(
                        decimals as nat,
                    ) > u64::MAX
                }
            },
        },
{
    let time_passed = now - six_month_cliff_state.last_transfer_out_datetime;
    if time_passed < SIX_MONTHS {
        return Err(ErrorCode::NotEnoughTimePassed);
    }
    if six_month_cliff_state.transfers_performed > SIX_MONTHS_TRANSFERS_PER_PERIOD {
        return Err(ErrorCode::MaxTransfersPerformed);
    }
    let scaled_amount = match get_scaled_amount(SIX_MONTH_CLIFF_AMOUNT, decimals) {
        Ok(scaled) => scaled,
        Err(e) => {
            return Err(e);
        },
    };
    six_month_cliff_state.last_transfer_out_datetime = now;
    six_month_cliff_state.transfers_performed = six_month_cliff_state.transfers_performed + 1;
    Ok(scaled_amount)
}

} // verus!
