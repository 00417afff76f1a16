//! Airdrops: a time-boxed, capped pool of tokens released from the treasury
//! in fixed per-claim amounts, one claim per participant.

use vstd::prelude::*;
use crate::errors::ErrorCode;
use crate::escrow::{get_scaled_amount, pow10};
use crate::keys::AccountKey;

verus! {

/// Persistent state of one airdrop, keyed by its caller-supplied id.
#[derive(Debug)]
pub struct Airdrop {
    pub airdrop_id: u64,
    pub name: String,
    pub supply: u64,
    pub supplied: u64,
    pub amount_per_claim: u64,
    pub start_datetime: i64,
    pub end_datetime: i64,
}

/// The record that marks one participant's claim, so a second claim cannot
/// be created for the same airdrop.
#[derive(Clone, Copy, Debug, PartialEq, Eq, Structural)]
pub struct AirdropClaimed {
    pub airdrop_id: u64,
    pub claimer: AccountKey,
}

/// Creates an airdrop with nothing supplied yet. Validates the time window,
/// a positive supply, a positive per-claim amount, and that the supply
/// covers at least one claim, in that order.
pub fn create(
    airdrop_id: u64,
    name: String,
    supply: u64,
    amount_per_claim: u64,
    start_datetime: i64,
    end_datetime: i64,
) -> (r: Result<Airdrop, ErrorCode>)
    ensures
        match r {
            Ok(airdrop) => {
                &&& start_datetime < end_datetime
                &&& 1 <= amount_per_claim <= supply
                &&& airdrop.airdrop_id == airdrop_id
                &&& airdrop.name@ == name@
                &&& airdrop.supply == supply
                &&& airdrop.supplied == 0
                &&& airdrop.amount_per_claim == amount_per_claim
                &&& airdrop.start_datetime == start_datetime
                &&& airdrop.end_datetime == end_datetime
            },
            Err(e) => {
                if !(start_datetime < end_datetime) {
                    e == ErrorCode::InvalidAirdropStartEndDatetime
                } else if supply == 0 {
                    e == ErrorCode::InvalidAirdropSupply
                } else if amount_per_claim == 0 {
                    e == ErrorCode::InvalidAmount
                } else {
                    e == ErrorCode::InvalidAirdropSupply && supply < amount_per_claim
                }
            },
        },
{
    if !(start_datetime < end_datetime) {
        return Err(ErrorCode::InvalidAirdropStartEndDatetime);
    }
    if supply == 0 {
        return Err(ErrorCode::InvalidAirdropSupply);
    }
    if amount_per_claim == 0 {
        return Err(ErrorCode::InvalidAmount);
    }
    if supply < amount_per_claim {
        return Err(ErrorCode::InvalidAirdropSupply);
    }
    Ok(Airdrop {
        airdrop_id,
        name,
        supply,
        supplied: 0,
        amount_per_claim,
        start_datetime,
        end_datetime,
    })
}

/// Claims one per-claim amount: allowed within the airdrop's time window and
/// while the supply covers another claim. Accounts the claim, records the
/// claimer, and returns the ledger-scaled amount to withdraw from the
/// treasury.
pub fn claim(
    airdrop: &mut Airdrop,
    airdrop_id: u64,
    claimer: AccountKey,
    now: i64,
    decimals: u8,
) -> (r: Result<(u64, AirdropClaimed), ErrorCode>)
    ensures
        match r {
            Ok(outcome) => {
                &&& old(airdrop).start_datetime <= now <= old(airdrop).end_datetime
                &&& old(airdrop).supplied + old(airdrop).amount_per_claim <= old(airdrop).supply
                &&& outcome.0 == old(airdrop).amount_per_claim * pow10(decimals as nat)
                &&& final(airdrop).supplied == old(airdrop).supplied + old(
                    airdrop,
                ).amount_per_claim
                &&& *final(airdrop) == (Airdrop {
                    supplied: final(airdrop).supplied,
                    ..*old(airdrop)
                })
                &&& outcome.1.airdrop_id == airdrop_id
                &&& outcome.1.claimer == claimer
            },
            Err(e) => {
                &&& *final(airdrop) == *old(airdrop)
                &&& {
                    let next_supplied = if old(airdrop).supplied + old(airdrop).amount_per_claim
                        > u64::MAX {
                        u64::MAX as int
                    } else {
                        old(airdrop).supplied + old(airdrop).amount_per_claim
                    };
                    if now < old(airdrop).start_datetime {
                        e == ErrorCode::AirdropNotStarted
                    } else if now > old(airdrop).end_datetime {
                        e == ErrorCode::AirdropEnded
                    } else if next_supplied > old(airdrop).supply {
                        e == ErrorCode::AirdropSupplyExhausted
                    } else if old(airdrop).amount_per_claim * pow10(decimals as nat) > u64::MAX {
                        e == ErrorCode::ArithmeticOverflow
                    } else {
                        e == ErrorCode::ArithmeticOverflow && old(airdrop).supplied + old(
                            airdrop,
                        ).amount_per_claim > u64::MAX
                    }
                }
            },
        },
{
    if now < airdrop.start_datetime {
        return Err(ErrorCode::AirdropNotStarted);
    }
    if now > airdrop.end_datetime {
        return Err(ErrorCode::AirdropEnded);
    }
    let next_supplied = match airdrop.supplied.checked_add(airdrop.amount_per_claim) {
        Some(v) => v,
        None => u64::MAX,
    };
    if next_supplied > airdrop.supply {
        return Err(ErrorCode::AirdropSupplyExhausted);
    }
    let scaled_amount = match get_scaled_amount(airdrop.amount_per_claim, decimals) {
        Ok(scaled) => scaled,
        Err(e) => {
            return Err(e);
        },
    };
    let new_supplied = match airdrop.supplied.checked_add(airdrop.amount_per_claim) {
        Some(v) => v,
        None => {
            return Err(ErrorCode::ArithmeticOverflow);
        },
    };
    airdrop.supplied = new_supplied;
    Ok((scaled_amount, AirdropClaimed { airdrop_id, claimer }))
}

} // verus!
