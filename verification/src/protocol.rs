//! The protocol's entry points, one per caller-visible operation: each
//! verifies the protocol authority where the operation is privileged, then
//! performs the transition and reports the ledger transfers to perform.

use vstd::prelude::*;
use crate::airdrop::{claim, create, Airdrop, AirdropClaimed};
use crate::authority::{enforce_protocol_authority, set_protocol_authority, ProtocolAuthority};
use crate::cliff::{transfer_out, SixMonthCliff};
use crate::codec::{cards_of, combination_error, valid_combination, verify_combination};
use crate::constants::{
    MAX_BOOST_LIMIT, MAX_CURVATURE, MAX_REWARD_FACTOR, PAY_LOTTERY_TYPE, SIX_MONTHS,
    SIX_MONTHS_TRANSFERS_PER_PERIOD, SIX_MONTH_CLIFF_AMOUNT, TREASURY_INITIAL_AMOUNT,
};
use crate::errors::ErrorCode;
use crate::escrow::{get_scaled_amount, pow10};
use crate::keys::AccountKey;
use crate::lottery::{
    buy_ticket, claim_prize_for_combination, close, commit_randomness, enforce_lottery_active,
    reveal_randomness, start, verify_amount_on_type, ClaimOutcome, LotteryState, Ticket,
};
use crate::reward::{initialize_lottery, update_lottery, LotteryRewardFactors};

verus! {

/// Initializes the protocol by installing the payer as its authority.
pub fn initialize_authority(protocol_authority: &mut ProtocolAuthority, payer: AccountKey) -> (r:
    Result<(), ErrorCode>)
    ensures
        r is Ok,
        final(protocol_authority).authority == payer,
{
    set_protocol_authority(protocol_authority, payer);
    Ok(())
}

/// Funds the treasury and the cliff vault with their initial amounts and
/// stamps the cliff as released now. Returns the ledger-scaled contributions
/// for the treasury and for the cliff vault, in that order.
pub fn initialize_treasury(
    protocol_authority: &ProtocolAuthority,
    payer: AccountKey,
    six_month_cliff_state: &mut SixMonthCliff,
    now: i64,
    decimals: u8,
) -> (r: Result<(u64, u64), ErrorCode>)
    ensures
        match r {
            Ok(contributions) => {
                &&& payer == protocol_authority.authority
                &&& contributions.0 == TREASURY_INITIAL_AMOUNT * pow10(decimals as nat)
                &&& contributions.1 == (SIX_MONTH_CLIFF_AMOUNT * 3) * pow10(decimals as nat)
                &&& final(six_month_cliff_state).last_transfer_out_datetime == now
                &&& final(six_month_cliff_state).transfers_performed == 0
            },
            Err(e) => {
                &&& *final(six_month_cliff_state) == *old(six_month_cliff_state)
                &&& if payer != protocol_authority.authority {
                    e == ErrorCode::InvalidAuthority
                } else {
                    e == ErrorCode::ArithmeticOverflow && (TREASURY_INITIAL_AMOUNT * pow10(
                        decimals as nat,
                    ) > u64::MAX || (SIX_MONTH_CLIFF_AMOUNT * 3) * pow10(decimals as nat)
                        > u64::MAX)
                }
            },
        },
{
    match enforce_protocol_authority(protocol_authority.authority, payer) {
        Ok(()) => (),
        Err(e) => {
            return Err(e);
        },
    }
    let treasury_contribution = match get_scaled_amount(TREASURY_INITIAL_AMOUNT, decimals) {
        Ok(scaled) => scaled,
        Err(e) => {
            return Err(e);
        },
    };
    let cliff_contribution = match get_scaled_amount(SIX_MONTH_CLIFF_AMOUNT * 3, decimals) {
        Ok(scaled) => scaled,
        Err(e) => {
            return Err(e);
        },
    };
    six_month_cliff_state.last_transfer_out_datetime = now;
    six_month_cliff_state.transfers_performed = 0;
    Ok((treasury_contribution, cliff_contribution))
}

/// Writes the initial reward-factor table, gated by the protocol authority.
pub fn initialize_lottery_reward_factors(
    protocol_authority: &ProtocolAuthority,
    payer: AccountKey,
    lottery_reward_factors: &mut LotteryRewardFactors,
) -> (r: Result<(), ErrorCode>)
    ensures
        r is Ok <==> payer == protocol_authority.authority,
        r is Err ==> r.unwrap_err() == ErrorCode::InvalidAuthority && *final(lottery_reward_factors) == *old(lottery_reward_factors),
        r is Ok ==> final(lottery_reward_factors).wf() && final(lottery_reward_factors).reward_full_match == crate::constants::INITIAL_REWARD_FULL_MATCH && final(lottery_reward_factors).reward_suit_match == crate::constants::INITIAL_REWARD_SUIT_MATCH && final(lottery_reward_factors).reward_value_match == crate::constants::INITIAL_REWARD_VALUE_MATCH && final(lottery_reward_factors).suit_streak_bonuses@ == seq![0u64, 0u64, 25u64, 60u64, 120u64] && final(lottery_reward_factors).value_streak_bonuses@ == seq![0u64, 0u64, 50u64, 120u64, 220u64] && final(lottery_reward_factors).jackpot_percentage == crate::constants::INITIAL_JACKPOT_PERCENTAGE && final(lottery_reward_factors).max_boost == crate::constants::INITIAL_MAX_BOOST && final(lottery_reward_factors).curvature == crate::constants::INITIAL_CURVATURE && final(lottery_reward_factors).lock_divider == crate::constants::INITIAL_LOCK_DIVIDER,
{
    match enforce_protocol_authority(protocol_authority.authority, payer) {
        Ok(()) => (),
        Err(e) => {
            return Err(e);
        },
    }
    initialize_lottery(lottery_reward_factors);
    Ok(())
}

/// Overwrites the reward-factor table, gated by the protocol authority.
pub fn update_lottery_reward_factors(
    protocol_authority: &ProtocolAuthority,
    payer: AccountKey,
    lottery_reward_factors: &mut LotteryRewardFactors,
    reward_full_match: u64,
    reward_suit_match: u64,
    reward_value_match: u64,
    suit_streak_bonuses: [u64; 5],
    value_streak_bonuses: [u64; 5],
    jackpot_percentage: u64,
    max_boost: u64,
    curvature: u64,
    lock_divider: u64,
) -> (r: Result<(), ErrorCode>)
    requires
        reward_full_match <= MAX_REWARD_FACTOR,
        reward_suit_match <= MAX_REWARD_FACTOR,
        reward_value_match <= MAX_REWARD_FACTOR,
        forall|i: int| 0 <= i < 5 ==> suit_streak_bonuses@[i] <= MAX_REWARD_FACTOR,
        forall|i: int| 0 <= i < 5 ==> value_streak_bonuses@[i] <= MAX_REWARD_FACTOR,
        jackpot_percentage <= MAX_REWARD_FACTOR,
        max_boost <= MAX_BOOST_LIMIT,
        curvature <= MAX_CURVATURE,
        1 <= lock_divider,
    ensures
        r is Ok <==> payer == protocol_authority.authority,
        r is Err ==> r.unwrap_err() == ErrorCode::InvalidAuthority && *final(lottery_reward_factors) == *old(lottery_reward_factors),
        r is Ok ==> final(lottery_reward_factors).wf() && *final(lottery_reward_factors)
            == (LotteryRewardFactors {
            reward_full_match,
            reward_suit_match,
            reward_value_match,
            suit_streak_bonuses,
            value_streak_bonuses,
            jackpot_percentage,
            max_boost,
            curvature,
            lock_divider,
        }),
{
    match enforce_protocol_authority(protocol_authority.authority, payer) {
        Ok(()) => (),
        Err(e) => {
            return Err(e);
        },
    }
    update_lottery(
        lottery_reward_factors,
        reward_full_match,
        reward_suit_match,
        reward_value_match,
        suit_streak_bonuses,
        value_streak_bonuses,
        jackpot_percentage,
        max_boost,
        curvature,
        lock_divider,
    );
    Ok(())
}

/// Releases one cliff amount, gated by the protocol authority; see
/// `cliff::transfer_out`.
pub fn transfer_out_from_six_month_cliff(
    protocol_authority: &ProtocolAuthority,
    payer: AccountKey,
    six_month_cliff_state: &mut SixMonthCliff,
    now: i64,
    decimals: u8,
) -> (r: Result<u64, ErrorCode>)
    requires
        i64::MIN <= now - old(six_month_cliff_state).last_transfer_out_datetime <= i64::MAX,
    ensures
        match r {
            Ok(scaled) => {
                &&& payer == protocol_authority.authority
                &&& now - old(six_month_cliff_state).last_transfer_out_datetime >= SIX_MONTHS
                &&& old(six_month_cliff_state).transfers_performed
                    <= SIX_MONTHS_TRANSFERS_PER_PERIOD
                &&& scaled == SIX_MONTH_CLIFF_AMOUNT * pow10(decimals as nat)
                &&& final(six_month_cliff_state).last_transfer_out_datetime == now
                &&& final(six_month_cliff_state).transfers_performed == old(six_month_cliff_state).transfers_performed + 1
            },
            Err(e) => {
                &&& *final(six_month_cliff_state) == *old(six_month_cliff_state)
                &&& if payer != protocol_authority.authority {
                    e == ErrorCode::InvalidAuthority
                } else if now - old(six_month_cliff_state).last_transfer_out_datetime
                    < SIX_MONTHS {
                    e == ErrorCode::NotEnoughTimePassed
                } else if old(six_month_cliff_state).transfers_performed
                    > SIX_MONTHS_TRANSFERS_PER_PERIOD {
                    e == ErrorCode::MaxTransfersPerformed
                } else {
                    e == ErrorCode::ArithmeticOverflow && SIX_MONTH_CLIFF_AMOUNT * pow10(
                        decimals as nat,
                    ) > u64::MAX
                }
            },
        },
{
    match enforce_protocol_authority(protocol_authority.authority, payer) {
        Ok(()) => (),
        Err(e) => {
            return Err(e);
        },
    }
    transfer_out(six_month_cliff_state, now, decimals)
}

/// Starts a lottery, gated by the protocol authority; see `lottery::start`.
pub fn start_lottery(
    protocol_authority: &ProtocolAuthority,
    payer: AccountKey,
    lottery_id: u64,
    lottery_name: String,
    lottery_description: String,
    lottery_type: u8,
    lottery_start_datetime: i64,
    lottery_end_datetime: i64,
    initial_prize_pool: u64,
    min_tokens_per_participant: u64,
    decimals: u8,
) -> (r: Result<(LotteryState, u64), ErrorCode>)
    ensures
        match r {
            Ok(outcome) => {
                &&& payer == protocol_authority.authority
                &&& outcome.0.wf()
                &&& outcome.0.lottery_id == lottery_id
                &&& outcome.0.lottery_name@ == lottery_name@
                &&& outcome.0.lottery_description@ == lottery_description@
                &&& outcome.0.lottery_type == lottery_type
                &&& outcome.0.lottery_start_datetime == lottery_start_datetime
                &&& outcome.0.lottery_end_datetime == lottery_end_datetime
                &&& outcome.0.initial_prize_pool == initial_prize_pool
                &&& outcome.0.accumulated_prize_pool == initial_prize_pool
                &&& outcome.0.min_tokens_per_participant == min_tokens_per_participant
                &&& outcome.0.winning_combination is None
                &&& outcome.0.participants_count == 0
                &&& outcome.0.randomness_account.is_unset()
                &&& !outcome.0.is_closed
                &&& outcome.1 == initial_prize_pool * pow10(decimals as nat)
            },
            Err(e) => {
                if payer != protocol_authority.authority {
                    e == ErrorCode::InvalidAuthority
                } else if !(lottery_type == PAY_LOTTERY_TYPE || lottery_type
                    == crate::constants::LOCK_LOTTERY_TYPE) {
                    e == ErrorCode::InvalidLotteryType
                } else if !(lottery_start_datetime < lottery_end_datetime) {
                    e == ErrorCode::InvalidLotteryStartEndDatetime
                } else if initial_prize_pool == 0 {
                    e == ErrorCode::InvalidInitialPrizePool
                } else if min_tokens_per_participant == 0 {
                    e == ErrorCode::InvalidMinTokensPerParticipant
                } else {
                    e == ErrorCode::ArithmeticOverflow && initial_prize_pool * pow10(
                        decimals as nat,
                    ) > u64::MAX
                }
            },
        },
{
    match enforce_protocol_authority(protocol_authority.authority, payer) {
        Ok(()) => (),
        Err(e) => {
            return Err(e);
        },
    }
    start(
        lottery_id,
        lottery_name,
        lottery_description,
        lottery_type,
        lottery_start_datetime,
        lottery_end_datetime,
        initial_prize_pool,
        min_tokens_per_participant,
        decimals,
    )
}

/// Buys a ticket: the lottery must be active now, the combination well
/// formed, and the stake valid for the lottery type, checked in that order;
/// then the purchase is recorded and the ledger-scaled contribution to the
/// lottery vault is returned.
pub fn buy_lottery_ticket(
    lottery_state: &mut LotteryState,
    ticket: &mut Ticket,
    lottery_id: u64,
    combination: String,
    amount: u64,
    payer: AccountKey,
    now: i64,
    decimals: u8,
) -> (r: Result<u64, ErrorCode>)
    requires
        old(lottery_state).lottery_type == PAY_LOTTERY_TYPE ==> 1 <= old(lottery_state).min_tokens_per_participant,
    ensures
        match r {
            Ok(contribution) => {
                &&& old(lottery_state).lottery_start_datetime <= now < old(lottery_state).lottery_end_datetime
                &&& !old(lottery_state).is_closed
                &&& combination_error(combination@) is None
                &&& contribution == amount * pow10(decimals as nat)
                &&& final(lottery_state).participants_count == old(lottery_state).participants_count + 1
                &&& final(lottery_state).accumulated_prize_pool == old(lottery_state).accumulated_prize_pool + amount
                &&& *final(lottery_state) == (LotteryState {
                    participants_count: final(lottery_state).participants_count,
                    accumulated_prize_pool: final(lottery_state).accumulated_prize_pool,
                    ..*old(lottery_state)
                })
                &&& if old(ticket).is_initialized {
                    final(ticket).amount == old(ticket).amount + amount && *final(ticket)
                        == (Ticket { amount: final(ticket).amount, ..*old(ticket) })
                } else {
                    final(ticket).lottery_id == lottery_id && final(ticket).combination@
                        == combination@ && final(ticket).participant == payer && final(ticket).amount == amount && !final(ticket).is_claimed && final(ticket).is_initialized
                }
                &&& old(lottery_state).wf() ==> final(lottery_state).wf()
            },
            Err(e) => {
                &&& *final(lottery_state) == *old(lottery_state)
                &&& *final(ticket) == *old(ticket)
                &&& if !(old(lottery_state).lottery_end_datetime > now) {
                    e == ErrorCode::LotteryFinished
                } else if !(old(lottery_state).lottery_start_datetime <= now) {
                    e == ErrorCode::LotteryNotStarted
                } else if old(lottery_state).is_closed {
                    e == ErrorCode::LotteryClosed
                } else if combination_error(combination@) is Some {
                    combination_error(combination@) == Some(e)
                } else if old(lottery_state).lottery_type == PAY_LOTTERY_TYPE && !(amount >= old(lottery_state).min_tokens_per_participant && amount % old(lottery_state).min_tokens_per_participant == 0) {
                    e == ErrorCode::InvalidAmount
                } else if old(lottery_state).lottery_type == crate::constants::LOCK_LOTTERY_TYPE
                    && amount < old(lottery_state).min_tokens_per_participant {
                    e == ErrorCode::InvalidAmount
                } else {
                    e == ErrorCode::ArithmeticOverflow && (amount * pow10(decimals as nat)
                        > u64::MAX || old(lottery_state).participants_count + 1 > u64::MAX || old(lottery_state).accumulated_prize_pool + amount > u64::MAX || (old(ticket).is_initialized
                        && old(ticket).amount + amount > u64::MAX))
                }
            },
        },
{
    match enforce_lottery_active(lottery_state, now) {
        Ok(()) => (),
        Err(e) => {
            return Err(e);
        },
    }
    match verify_combination(&combination) {
        Ok(_) => (),
        Err(e) => {
            return Err(e);
        },
    }
    match verify_amount_on_type(
        lottery_state.lottery_type,
        lottery_state.min_tokens_per_participant,
        amount,
    ) {
        Ok(()) => (),
        Err(e) => {
            return Err(e);
        },
    }
    buy_ticket(ticket, lottery_state, lottery_id, amount, combination, payer, decimals)
}

/// Commits the lottery to a randomness request, gated by the protocol
/// authority; see `lottery::commit_randomness`.
pub fn commit_lottery_randomness(
    protocol_authority: &ProtocolAuthority,
    payer: AccountKey,
    lottery_state: &mut LotteryState,
    randomness_account: AccountKey,
    seed_slot: u64,
    now: i64,
    current_slot: u64,
) -> (r: Result<(), ErrorCode>)
    requires
        1 <= current_slot,
    ensures
        match r {
            Ok(()) => {
                &&& payer == protocol_authority.authority
                &&& old(lottery_state).lottery_end_datetime < now
                &&& !old(lottery_state).is_closed
                &&& old(lottery_state).winning_combination is None
                &&& seed_slot == current_slot - 1
                &&& *final(lottery_state) == (LotteryState {
                    randomness_account,
                    ..*old(lottery_state)
                })
                &&& old(lottery_state).wf() ==> final(lottery_state).wf()
            },
            Err(e) => {
                &&& *final(lottery_state) == *old(lottery_state)
                &&& if payer != protocol_authority.authority {
                    e == ErrorCode::InvalidAuthority
                } else if !(old(lottery_state).lottery_end_datetime < now) {
                    e == ErrorCode::CantCommitOnNotFinishedLottery
                } else if old(lottery_state).is_closed {
                    e == ErrorCode::LotteryClosed
                } else if old(lottery_state).winning_combination is Some {
                    e == ErrorCode::CombinationAlreadySet
                } else {
                    e == ErrorCode::RandomnessAlreadyRevealed && seed_slot != current_slot - 1
                }
            },
        },
{
    match enforce_protocol_authority(protocol_authority.authority, payer) {
        Ok(()) => (),
        Err(e) => {
            return Err(e);
        },
    }
    commit_randomness(lottery_state, randomness_account, seed_slot, now, current_slot)
}

/// Reveals the committed randomness into the winning combination, gated by
/// the protocol authority; see `lottery::reveal_randomness`.
pub fn reveal_lottery_randomness(
    protocol_authority: &ProtocolAuthority,
    payer: AccountKey,
    lottery_state: &mut LotteryState,
    randomness_account: AccountKey,
    now: i64,
    revealed_value: Option<Vec<u8>>,
) -> (r: Result<(), ErrorCode>)
    requires
        revealed_value matches Some(bytes) ==> bytes@.len() >= 2,
    ensures
        match r {
            Ok(()) => {
                &&& payer == protocol_authority.authority
                &&& old(lottery_state).randomness_account == randomness_account
                &&& old(lottery_state).lottery_end_datetime < now
                &&& old(lottery_state).winning_combination is None
                &&& !old(lottery_state).is_closed
                &&& revealed_value is Some
                &&& final(lottery_state).winning_combination matches Some(c) && c@
                    == crate::randomness::generate_spec(revealed_value.unwrap()@)
                    && valid_combination(c@)
                &&& *final(lottery_state) == (LotteryState {
                    winning_combination: final(lottery_state).winning_combination,
                    ..*old(lottery_state)
                })
                &&& old(lottery_state).wf() ==> final(lottery_state).wf()
            },
            Err(e) => {
                &&& *final(lottery_state) == *old(lottery_state)
                &&& if payer != protocol_authority.authority {
                    e == ErrorCode::InvalidAuthority
                } else if old(lottery_state).randomness_account != randomness_account {
                    e == ErrorCode::IncorrectRandomnessAccount
                } else if !(old(lottery_state).lottery_end_datetime < now) {
                    e == ErrorCode::CantRevealOnNotFinishedLottery
                } else if old(lottery_state).winning_combination is Some {
                    e == ErrorCode::CombinationAlreadySet
                } else if old(lottery_state).is_closed {
                    e == ErrorCode::LotteryClosed
                } else {
                    e == ErrorCode::RandomnessNotResolved && revealed_value is None
                }
            },
        },
{
    match enforce_protocol_authority(protocol_authority.authority, payer) {
        Ok(()) => (),
        Err(e) => {
            return Err(e);
        },
    }
    reveal_randomness(lottery_state, randomness_account, now, revealed_value)
}

/// Claims the prize of one ticket; open to any participant. See
/// `lottery::claim_prize_for_combination`.
pub fn claim_lottery_prize_for_combination(
    lottery_state: &LotteryState,
    ticket: &mut Ticket,
    lottery_reward_factors: &LotteryRewardFactors,
    now: i64,
    decimals: u8,
    lottery_vault_balance: u64,
) -> (r: Result<ClaimOutcome, ErrorCode>)
    requires
        lottery_reward_factors.wf(),
        lottery_state.lottery_type == PAY_LOTTERY_TYPE ==> 1
            <= lottery_state.min_tokens_per_participant,
    ensures
        (match r {
            Ok(outcome) => {
                let pool_snapshot = if lottery_state.lottery_type == PAY_LOTTERY_TYPE {
                    lottery_state.accumulated_prize_pool
                } else {
                    lottery_state.initial_prize_pool
                };
                &&& lottery_state.winning_combination is Some
                &&& lottery_state.lottery_end_datetime < now
                &&& !old(ticket).is_claimed
                &&& !lottery_state.is_closed
                &&& outcome.prize as nat == crate::reward::prize_spec(
                    cards_of(lottery_state.winning_combination.unwrap()@),
                    cards_of(old(ticket).combination@),
                    lottery_state.lottery_type,
                    old(ticket).amount as nat,
                    lottery_state.initial_prize_pool as nat,
                    pool_snapshot as nat,
                    lottery_state.min_tokens_per_participant as nat,
                    *lottery_reward_factors,
                )
                &&& if outcome.prize > 0 {
                    outcome.scaled_amount == outcome.prize * pow10(decimals as nat) && (
                    outcome.from_treasury <==> outcome.scaled_amount > lottery_vault_balance)
                } else {
                    outcome.scaled_amount == 0 && !outcome.from_treasury
                }
                &&& *final(ticket) == (Ticket { is_claimed: true, ..*old(ticket) })
            },
            Err(e) => {
                &&& *final(ticket) == *old(ticket)
                &&& if lottery_state.winning_combination is None {
                    e == ErrorCode::WinningCombinationNotSetYet
                } else if !(lottery_state.lottery_end_datetime < now) {
                    e == ErrorCode::LotteryNotFinished
                } else if old(ticket).is_claimed {
                    e == ErrorCode::TicketAlreadyClaimed
                } else if lottery_state.is_closed {
                    e == ErrorCode::LotteryClosed
                } else if combination_error(lottery_state.winning_combination.unwrap()@) is Some {
                    combination_error(lottery_state.winning_combination.unwrap()@) == Some(e)
                } else if combination_error(old(ticket).combination@) is Some {
                    combination_error(old(ticket).combination@) == Some(e)
                } else {
                    let pool_snapshot = if lottery_state.lottery_type == PAY_LOTTERY_TYPE {
                        lottery_state.accumulated_prize_pool
                    } else {
                        lottery_state.initial_prize_pool
                    };
                    let prize = crate::reward::prize_spec(
                        cards_of(lottery_state.winning_combination.unwrap()@),
                        cards_of(old(ticket).combination@),
                        lottery_state.lottery_type,
                        old(ticket).amount as nat,
                        lottery_state.initial_prize_pool as nat,
                        pool_snapshot as nat,
                        lottery_state.min_tokens_per_participant as nat,
                        *lottery_reward_factors,
                    );
                    e == ErrorCode::ArithmeticOverflow && prize > 0 && prize * pow10(
                        decimals as nat,
                    ) > u64::MAX
                }
            },
        }),
{
    claim_prize_for_combination(
        lottery_state,
        ticket,
        lottery_reward_factors,
        now,
        decimals,
        lottery_vault_balance,
    )
}

/// Closes a resolved lottery after its cool-down, gated by the protocol
/// authority; see `lottery::close`.
pub fn close_lottery(
    protocol_authority: &ProtocolAuthority,
    payer: AccountKey,
    lottery_state: &mut LotteryState,
    now: i64,
    lottery_vault_balance: u64,
) -> (r: Result<u64, ErrorCode>)
    requires
        old(lottery_state).lottery_end_datetime + crate::constants::LOTTERY_CLOSE_TIME_BUFFER
            <= i64::MAX,
    ensures
        match r {
            Ok(sweep) => {
                &&& payer == protocol_authority.authority
                &&& old(lottery_state).winning_combination is Some
                &&& old(lottery_state).lottery_end_datetime
                    + crate::constants::LOTTERY_CLOSE_TIME_BUFFER < now
                &&& !old(lottery_state).is_closed
                &&& sweep == lottery_vault_balance
                &&& *final(lottery_state) == (LotteryState {
                    is_closed: true,
                    ..*old(lottery_state)
                })
                &&& old(lottery_state).wf() ==> final(lottery_state).wf()
            },
            Err(e) => {
                &&& *final(lottery_state) == *old(lottery_state)
                &&& if payer != protocol_authority.authority {
                    e == ErrorCode::InvalidAuthority
                } else if old(lottery_state).winning_combination is None {
                    e == ErrorCode::WinningCombinationNotSetYet
                } else if !(old(lottery_state).lottery_end_datetime < now) {
                    e == ErrorCode::LotteryNotFinished
                } else if old(lottery_state).is_closed {
                    e == ErrorCode::LotteryClosed
                } else {
                    e == ErrorCode::LotteryNotReadyToBeClosed && !(old(lottery_state).lottery_end_datetime + crate::constants::LOTTERY_CLOSE_TIME_BUFFER < now)
                }
            },
        },
{
    match enforce_protocol_authority(protocol_authority.authority, payer) {
        Ok(()) => (),
        Err(e) => {
            return Err(e);
        },
    }
    close(lottery_state, now, lottery_vault_balance)
}

/// Creates an airdrop, gated by the protocol authority; see `airdrop::create`.
pub fn create_airdrop(
    protocol_authority: &ProtocolAuthority,
    payer: AccountKey,
    airdrop_id: u64,
    name: String,
    supply: u64,
    amount_per_claim: u64,
    start_datetime: i64,
    end_datetime: i64,
) -> (r: Result<Airdrop, ErrorCode>)
    ensures
        match r {
            Ok(airdrop) => {
                &&& payer == protocol_authority.authority
                &&& start_datetime < end_datetime
                &&& 1 <= amount_per_claim <= supply
                &&& airdrop.airdrop_id == airdrop_id
                &&& airdrop.name@ == name@
                &&& airdrop.supply == supply
                &&& airdrop.supplied == 0
                &&& airdrop.amount_per_claim == amount_per_claim
                &&& airdrop.start_datetime == start_datetime
                &&& airdrop.end_datetime == end_datetime
            },
            Err(e) => {
                if payer != protocol_authority.authority {
                    e == ErrorCode::InvalidAuthority
                } else if !(start_datetime < end_datetime) {
                    e == ErrorCode::InvalidAirdropStartEndDatetime
                } else if supply == 0 {
                    e == ErrorCode::InvalidAirdropSupply
                } else if amount_per_claim == 0 {
                    e == ErrorCode::InvalidAmount
                } else {
                    e == ErrorCode::InvalidAirdropSupply && supply < amount_per_claim
                }
            },
        },
{
    match enforce_protocol_authority(protocol_authority.authority, payer) {
        Ok(()) => (),
        Err(e) => {
            return Err(e);
        },
    }
    create(airdrop_id, name, supply, amount_per_claim, start_datetime, end_datetime)
}

/// Claims one airdrop amount; open to any participant. See `airdrop::claim`.
pub fn claim_airdrop(
    airdrop: &mut Airdrop,
    airdrop_id: u64,
    claimer: AccountKey,
    now: i64,
    decimals: u8,
) -> (r: Result<(u64, AirdropClaimed), ErrorCode>)
    ensures
        match r {
            Ok(outcome) => {
                &&& old(airdrop).start_datetime <= now <= old(airdrop).end_datetime
                &&& old(airdrop).supplied + old(airdrop).amount_per_claim <= old(airdrop).supply
                &&& outcome.0 == old(airdrop).amount_per_claim * pow10(decimals as nat)
                &&& final(airdrop).supplied == old(airdrop).supplied + old(airdrop).amount_per_claim
                &&& *final(airdrop) == (Airdrop {
                    supplied: final(airdrop).supplied,
                    ..*old(airdrop)
                })
                &&& outcome.1.airdrop_id == airdrop_id
                &&& outcome.1.claimer == claimer
            },
            Err(e) => {
                &&& *final(airdrop) == *old(airdrop)
                &&& {
                    let next_supplied = if old(airdrop).supplied + old(airdrop).amount_per_claim
                        > u64::MAX {
                        u64::MAX as int
                    } else {
                        old(airdrop).supplied + old(airdrop).amount_per_claim
                    };
                    if now < old(airdrop).start_datetime {
                        e == ErrorCode::AirdropNotStarted
                    } else if now > old(airdrop).end_datetime {
                        e == ErrorCode::AirdropEnded
                    } else if next_supplied > old(airdrop).supply {
                        e == ErrorCode::AirdropSupplyExhausted
                    } else if old(airdrop).amount_per_claim * pow10(decimals as nat) > u64::MAX {
                        e == ErrorCode::ArithmeticOverflow
                    } else {
                        e == ErrorCode::ArithmeticOverflow && old(airdrop).supplied + old(airdrop).amount_per_claim > u64::MAX
                    }
                }
            },
        },
{
    claim(airdrop, airdrop_id, claimer, now, decimals)
}

} // verus!
