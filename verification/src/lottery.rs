//! The lottery state machine: open for tickets, awaiting randomness after the
//! end time, committed to one randomness request, resolved with a winning
//! combination, and finally closed after a cool-down.
//!
//! Every transition takes the externally supplied current time (and, where it
//! matters, the current oracle slot, the revealed bytes, or a vault balance)
//! as a plain value, validates its guards in order, and either mutates the
//! state and returns the ledger transfer to perform, or fails with the exact
//! error code and leaves every record untouched.

use vstd::prelude::*;
use crate::codec::{cards_of, combination_error, valid_combination};
use crate::constants::{
    LOCK_LOTTERY_TYPE, LOTTERY_CLOSE_TIME_BUFFER, PAY_LOTTERY_TYPE,
};
use crate::errors::ErrorCode;
use crate::escrow::{get_scaled_amount, pow10};
use crate::keys::AccountKey;
use crate::randomness::{generate_combination_from_randomness, generate_spec};
use crate::reward::{calculate_prize, prize_spec, LotteryRewardFactors};

verus! {

/// Persistent state of one lottery, keyed by its caller-supplied id.
#[derive(Debug)]
pub struct LotteryState {
    pub lottery_id: u64,
    pub lottery_name: String,
    pub lottery_description: String,
    pub lottery_type: u8,
    pub lottery_start_datetime: i64,
    pub lottery_end_datetime: i64,
    pub is_closed: bool,
    pub initial_prize_pool: u64,
    pub accumulated_prize_pool: u64,
    pub participants_count: u64,
    /// Ticket price for a pay lottery; minimum locked amount for a lock
    /// lottery.
    pub min_tokens_per_participant: u64,
    pub winning_combination: Option<String>,
    pub randomness_account: AccountKey,
}

impl LotteryState {
    /// Invariants every reachable lottery satisfies: a known type, an open
    /// time window, a funded pool that never shrinks below its start, a
    /// positive unit price, and a well-formed winning combination once set.
    pub open spec fn wf(self) -> bool {
        &&& (self.lottery_type == PAY_LOTTERY_TYPE || self.lottery_type == LOCK_LOTTERY_TYPE)
        &&& self.lottery_start_datetime < self.lottery_end_datetime
        &&& 1 <= self.initial_prize_pool
        &&& self.initial_prize_pool <= self.accumulated_prize_pool
        &&& 1 <= self.min_tokens_per_participant
        &&& match self.winning_combination {
            Some(c) => valid_combination(c@),
            None => true,
        }
    }
}

/// One participant's stake on one combination in one lottery. Repeated
/// purchases of the same combination accumulate into this record.
#[derive(Debug)]
pub struct Ticket {
    pub lottery_id: u64,
    pub combination: String,
    pub participant: AccountKey,
    pub amount: u64,
    pub is_claimed: bool,
    pub is_initialized: bool,
}

/// Creates a lottery in its open state and returns it together with the
/// ledger-scaled amount to move from the treasury into the new per-lottery
/// vault. Validates the type, the time window, the pool and the unit price,
/// in that order, before anything is funded.
pub fn start(
    lottery_id: u64,
    lottery_name: String,
    lottery_description: String,
    lottery_type: u8,
    lottery_start_datetime: i64,
    lottery_end_datetime: i64,
    initial_prize_pool: u64,
    min_tokens_per_participant: u64,
    decimals: u8,
) -> (r: Result<(LotteryState, u64), ErrorCode>)
    ensures
        match r {
            Ok(outcome) => {
                &&& (lottery_type == PAY_LOTTERY_TYPE || lottery_type == LOCK_LOTTERY_TYPE)
                &&& lottery_start_datetime < lottery_end_datetime
                &&& 1 <= initial_prize_pool
                &&& 1 <= min_tokens_per_participant
                &&& initial_prize_pool * pow10(decimals as nat) <= u64::MAX
                &&& outcome.1 == initial_prize_pool * pow10(decimals as nat)
                &&& outcome.0.wf()
                &&& outcome.0.lottery_id == lottery_id
                &&& outcome.0.lottery_name@ == lottery_name@
                &&& outcome.0.lottery_description@ == lottery_description@
                &&& outcome.0.lottery_type == lottery_type
                &&& outcome.0.lottery_start_datetime == lottery_start_datetime
                &&& outcome.0.lottery_end_datetime == lottery_end_datetime
                &&& outcome.0.initial_prize_pool == initial_prize_pool
                &&& outcome.0.accumulated_prize_pool == initial_prize_pool
                &&& outcome.0.min_tokens_per_participant == min_tokens_per_participant
                &&& outcome.0.winning_combination is None
                &&& outcome.0.participants_count == 0
                &&& outcome.0.randomness_account.is_unset()
                &&& !outcome.0.is_closed
            },
            Err(e) => {
                if !(lottery_type == PAY_LOTTERY_TYPE || lottery_type == LOCK_LOTTERY_TYPE) {
                    e == ErrorCode::InvalidLotteryType
                } else if !(lottery_start_datetime < lottery_end_datetime) {
                    e == ErrorCode::InvalidLotteryStartEndDatetime
                } else if initial_prize_pool == 0 {
                    e == ErrorCode::InvalidInitialPrizePool
                } else if min_tokens_per_participant == 0 {
                    e == ErrorCode::InvalidMinTokensPerParticipant
                } else {
                    e == ErrorCode::ArithmeticOverflow && initial_prize_pool * pow10(
                        decimals as nat,
                    ) > u64::MAX
                }
            },
        },
{
    if !(lottery_type == PAY_LOTTERY_TYPE || lottery_type == LOCK_LOTTERY_TYPE) {
        return Err(ErrorCode::InvalidLotteryType);
    }
    if !(lottery_start_datetime < lottery_end_datetime) {
        return Err(ErrorCode::InvalidLotteryStartEndDatetime);
    }
    if initial_prize_pool == 0 {
        return Err(ErrorCode::InvalidInitialPrizePool);
    }
    if min_tokens_per_participant == 0 {
        return Err(ErrorCode::InvalidMinTokensPerParticipant);
    }
    let scaled_amount = match get_scaled_amount(initial_prize_pool, decimals) {
        Ok(scaled) => scaled,
        Err(e) => {
            return Err(e);
        },
    };
    let lottery_state = LotteryState {
        lottery_id,
        lottery_name,
        lottery_description,
        lottery_type,
        lottery_start_datetime,
        lottery_end_datetime,
        is_closed: false,
        initial_prize_pool,
        accumulated_prize_pool: initial_prize_pool,
        participants_count: 0,
        min_tokens_per_participant,
        winning_combination: None,
        randomness_account: AccountKey::unset(),
    };
    Ok((lottery_state, scaled_amount))
}

/// Checks that the lottery is accepting tickets now: `now` lies in the
/// half-open window from the start datetime (inclusive) to the end datetime
/// (exclusive) and the lottery is not closed, checked end first.
pub fn enforce_lottery_active(lottery_state: &LotteryState, now: i64) -> (r: Result<
    (),
    ErrorCode,
>)
    ensures
        match r {
            Ok(()) => lottery_state.lottery_start_datetime <= now
                && now < lottery_state.lottery_end_datetime && !lottery_state.is_closed,
            Err(e) => {
                if !(lottery_state.lottery_end_datetime > now) {
                    e == ErrorCode::LotteryFinished
                } else if !(lottery_state.lottery_start_datetime <= now) {
                    e == ErrorCode::LotteryNotStarted
                } else {
                    e == ErrorCode::LotteryClosed && lottery_state.is_closed
                }
            },
        },
{
    if !(lottery_state.lottery_end_datetime > now) {
        return Err(ErrorCode::LotteryFinished);
    }
    if !(lottery_state.lottery_start_datetime <= now) {
        return Err(ErrorCode::LotteryNotStarted);
    }
    if lottery_state.is_closed {
        return Err(ErrorCode::LotteryClosed);
    }
    Ok(())
}

/// Checks the stake against the lottery type's rule: a pay ticket must be a
/// positive multiple of the unit price, a lock ticket at least the minimum
/// locked amount; any other type accepts any amount (its creation is
/// rejected elsewhere).
pub fn verify_amount_on_type(
    lottery_type: u8,
    min_tokens_per_participant: u64,
    amount: u64,
) -> (r: Result<(), ErrorCode>)
    requires
        lottery_type == PAY_LOTTERY_TYPE ==> 1 <= min_tokens_per_participant,
    ensures
        match r {
            Ok(()) => {
                if lottery_type == PAY_LOTTERY_TYPE {
                    amount >= min_tokens_per_participant && amount % min_tokens_per_participant
                        == 0
                } else if lottery_type == LOCK_LOTTERY_TYPE {
                    amount >= min_tokens_per_participant
                } else {
                    true
                }
            },
            Err(e) => e == ErrorCode::InvalidAmount && {
                if lottery_type == PAY_LOTTERY_TYPE {
                    !(amount >= min_tokens_per_participant && amount % min_tokens_per_participant
                        == 0)
                } else {
                    lottery_type == LOCK_LOTTERY_TYPE && amount < min_tokens_per_participant
                }
            },
        },
{
    if lottery_type == PAY_LOTTERY_TYPE {
        if !(amount >= min_tokens_per_participant && amount % min_tokens_per_participant == 0) {
            return Err(ErrorCode::InvalidAmount);
        }
    } else if lottery_type == LOCK_LOTTERY_TYPE {
        if !(amount >= min_tokens_per_participant) {
            return Err(ErrorCode::InvalidAmount);
        }
    }
    Ok(())
}

/// Records a purchase: initializes the ticket on first purchase, accumulates
/// the stake on a repeat purchase of the same combination, counts the
/// participation, grows the pool, and returns the ledger-scaled contribution
/// to move into the lottery vault. Nothing is mutated when any counter or
/// the scaling would overflow.
pub fn buy_ticket(
    ticket: &mut Ticket,
    lottery_state: &mut LotteryState,
    lottery_id: u64,
    amount: u64,
    combination: String,
    participant: AccountKey,
    decimals: u8,
) -> (r: Result<u64, ErrorCode>)
    ensures
        match r {
            Ok(contribution) => {
                &&& amount * pow10(decimals as nat) <= u64::MAX
                &&& contribution == amount * pow10(decimals as nat)
                &&& final(lottery_state).participants_count == old(lottery_state).participants_count + 1
                &&& final(lottery_state).accumulated_prize_pool == old(lottery_state).accumulated_prize_pool + amount
                &&& *final(lottery_state) == (LotteryState {
                    participants_count: final(lottery_state).participants_count,
                    accumulated_prize_pool: final(lottery_state).accumulated_prize_pool,
                    ..*old(lottery_state)
                })
                &&& if old(ticket).is_initialized {
                    final(ticket).amount == old(ticket).amount + amount && *final(ticket)
                        == (Ticket { amount: final(ticket).amount, ..*old(ticket) })
                } else {
                    final(ticket).lottery_id == lottery_id && final(ticket).combination@
                        == combination@ && final(ticket).participant == participant && final(ticket).amount == amount && !final(ticket).is_claimed && final(ticket).is_initialized
                }
                &&& old(lottery_state).wf() ==> final(lottery_state).wf()
            },
            Err(e) => {
                &&& e == ErrorCode::ArithmeticOverflow
                &&& *final(ticket) == *old(ticket)
                &&& *final(lottery_state) == *old(lottery_state)
                &&& (amount * pow10(decimals as nat) > u64::MAX || old(lottery_state).participants_count + 1 > u64::MAX || old(lottery_state).accumulated_prize_pool + amount > u64::MAX || (old(ticket).is_initialized && old(ticket).amount + amount > u64::MAX))
            },
        },
{
    let scaled_amount = match get_scaled_amount(amount, decimals) {
        Ok(scaled) => scaled,
        Err(e) => {
            return Err(e);
        },
    };
    let new_count = match lottery_state.participants_count.checked_add(1) {
        Some(v) => v,
        None => {
            return Err(ErrorCode::ArithmeticOverflow);
        },
    };
    let new_pool = match lottery_state.accumulated_prize_pool.checked_add(amount) {
        Some(v) => v,
        None => {
            return Err(ErrorCode::ArithmeticOverflow);
        },
    };
    if ticket.is_initialized {
        let new_amount = match ticket.amount.checked_add(amount) {
            Some(v) => v,
            None => {
                return Err(ErrorCode::ArithmeticOverflow);
            },
        };
        ticket.amount = new_amount;
    } else {
        ticket.lottery_id = lottery_id;
        ticket.combination = combination;
        ticket.amount = amount;
        ticket.participant = participant;
        ticket.is_claimed = false;
        ticket.is_initialized = true;
    }
    lottery_state.participants_count = new_count;
    lottery_state.accumulated_prize_pool = new_pool;
    Ok(scaled_amount)
}

/// Binds the lottery to one randomness request: allowed only after the end
/// time, on an open lottery with no winning combination, and only for a
/// request seeded in the immediately preceding slot — a stale or reused
/// request is rejected.
pub fn commit_randomness(
    lottery_state: &mut LotteryState,
    randomness_account: AccountKey,
    seed_slot: u64,
    now: i64,
    current_slot: u64,
) -> (r: Result<(), ErrorCode>)
    requires
        1 <= current_slot,
    ensures
        match r {
            Ok(()) => {
                &&& old(lottery_state).lottery_end_datetime < now
                &&& !old(lottery_state).is_closed
                &&& old(lottery_state).winning_combination is None
                &&& seed_slot == current_slot - 1
                &&& *final(lottery_state) == (LotteryState {
                    randomness_account,
                    ..*old(lottery_state)
                })
                &&& old(lottery_state).wf() ==> final(lottery_state).wf()
            },
            Err(e) => {
                &&& *final(lottery_state) == *old(lottery_state)
                &&& if !(old(lottery_state).lottery_end_datetime < now) {
                    e == ErrorCode::CantCommitOnNotFinishedLottery
                } else if old(lottery_state).is_closed {
                    e == ErrorCode::LotteryClosed
                } else if old(lottery_state).winning_combination is Some {
                    e == ErrorCode::CombinationAlreadySet
                } else {
                    e == ErrorCode::RandomnessAlreadyRevealed && seed_slot != current_slot - 1
                }
            },
        },
{
    if !(lottery_state.lottery_end_datetime < now) {
        return Err(ErrorCode::CantCommitOnNotFinishedLottery);
    }
    if lottery_state.is_closed {
        return Err(ErrorCode::LotteryClosed);
    }
    if lottery_state.winning_combination.is_some() {
        return Err(ErrorCode::CombinationAlreadySet);
    }
    if seed_slot != current_slot - 1 {
        return Err(ErrorCode::RandomnessAlreadyRevealed);
    }
    lottery_state.randomness_account = randomness_account;
    Ok(())
}

/// Resolves the committed randomness into the winning combination: the
/// provided request must be the committed one, the lottery must have ended
/// and be open with no combination yet, and the oracle must have resolved
/// the request (`revealed_value` carries its bytes, `None` while pending).
pub fn reveal_randomness(
    lottery_state: &mut LotteryState,
    randomness_account: AccountKey,
    now: i64,
    revealed_value: Option<Vec<u8>>,
) -> (r: Result<(), ErrorCode>)
    requires
        revealed_value matches Some(bytes) ==> bytes@.len() >= 2,
    ensures
        match r {
            Ok(()) => {
                &&& old(lottery_state).randomness_account == randomness_account
                &&& old(lottery_state).lottery_end_datetime < now
                &&& old(lottery_state).winning_combination is None
                &&& !old(lottery_state).is_closed
                &&& revealed_value is Some
                &&& final(lottery_state).winning_combination matches Some(c) && c@
                    == generate_spec(revealed_value.unwrap()@) && valid_combination(c@)
                &&& *final(lottery_state) == (LotteryState {
                    winning_combination: final(lottery_state).winning_combination,
                    ..*old(lottery_state)
                })
                &&& old(lottery_state).wf() ==> final(lottery_state).wf()
            },
            Err(e) => {
                &&& *final(lottery_state) == *old(lottery_state)
                &&& if old(lottery_state).randomness_account != randomness_account {
                    e == ErrorCode::IncorrectRandomnessAccount
                } else if !(old(lottery_state).lottery_end_datetime < now) {
                    e == ErrorCode::CantRevealOnNotFinishedLottery
                } else if old(lottery_state).winning_combination is Some {
                    e == ErrorCode::CombinationAlreadySet
                } else if old(lottery_state).is_closed {
                    e == ErrorCode::LotteryClosed
                } else {
                    e == ErrorCode::RandomnessNotResolved && revealed_value is None
                }
            },
        },
{
    if !(lottery_state.randomness_account.id == randomness_account.id) {
        return Err(ErrorCode::IncorrectRandomnessAccount);
    }
    if !(lottery_state.lottery_end_datetime < now) {
        return Err(ErrorCode::CantRevealOnNotFinishedLottery);
    }
    if lottery_state.winning_combination.is_some() {
        return Err(ErrorCode::CombinationAlreadySet);
    }
    if lottery_state.is_closed {
        return Err(ErrorCode::LotteryClosed);
    }
    let revealed = match revealed_value {
        Some(bytes) => bytes,
        None => {
            return Err(ErrorCode::RandomnessNotResolved);
        },
    };
    let combination = generate_combination_from_randomness(revealed.as_slice());
    lottery_state.winning_combination = Some(combination);
    Ok(())
}

/// What a successful claim pays: the prize in whole tokens, the same amount
/// scaled to ledger units, and which vault funds it — the lottery vault when
/// its balance covers the payout, the treasury as the backstop otherwise.
#[derive(Clone, Copy, Debug, PartialEq, Eq, Structural)]
pub struct ClaimOutcome {
    pub prize: u64,
    pub scaled_amount: u64,
    pub from_treasury: bool,
}

/// Claims the prize of one ticket: allowed once the winning combination is
/// set, after the end time, on an unclaimed ticket of an open lottery. The
/// prize is computed against the accumulated pool for a pay lottery and the
/// initial pool for a lock lottery; the ticket is marked claimed even when
/// the prize is zero.
pub fn claim_prize_for_combination(
    lottery_state: &LotteryState,
    ticket: &mut Ticket,
    lottery_reward_factors: &LotteryRewardFactors,
    now: i64,
    decimals: u8,
    lottery_vault_balance: u64,
) -> (r: Result<ClaimOutcome, ErrorCode>)
    requires
        lottery_reward_factors.wf(),
        lottery_state.lottery_type == PAY_LOTTERY_TYPE ==> 1
            <= lottery_state.min_tokens_per_participant,
    ensures
        (match r {
            Ok(outcome) => {
                let pool_snapshot = if lottery_state.lottery_type == PAY_LOTTERY_TYPE {
                    lottery_state.accumulated_prize_pool
                } else {
                    lottery_state.initial_prize_pool
                };
                &&& lottery_state.winning_combination is Some
                &&& lottery_state.lottery_end_datetime < now
                &&& !old(ticket).is_claimed
                &&& !lottery_state.is_closed
                &&& combination_error(lottery_state.winning_combination.unwrap()@) is None
                &&& combination_error(old(ticket).combination@) is None
                &&& outcome.prize as nat == prize_spec(
                    cards_of(lottery_state.winning_combination.unwrap()@),
                    cards_of(old(ticket).combination@),
                    lottery_state.lottery_type,
                    old(ticket).amount as nat,
                    lottery_state.initial_prize_pool as nat,
                    pool_snapshot as nat,
                    lottery_state.min_tokens_per_participant as nat,
                    *lottery_reward_factors,
                )
                &&& if outcome.prize > 0 {
                    outcome.scaled_amount == outcome.prize * pow10(decimals as nat) && (
                    outcome.from_treasury <==> outcome.scaled_amount > lottery_vault_balance)
                } else {
                    outcome.scaled_amount == 0 && !outcome.from_treasury
                }
                &&& final(ticket).is_claimed
                &&& *final(ticket) == (Ticket { is_claimed: true, ..*old(ticket) })
            },
            Err(e) => {
                &&& *final(ticket) == *old(ticket)
                &&& if lottery_state.winning_combination is None {
                    e == ErrorCode::WinningCombinationNotSetYet
                } else if !(lottery_state.lottery_end_datetime < now) {
                    e == ErrorCode::LotteryNotFinished
                } else if old(ticket).is_claimed {
                    e == ErrorCode::TicketAlreadyClaimed
                } else if lottery_state.is_closed {
                    e == ErrorCode::LotteryClosed
                } else if combination_error(lottery_state.winning_combination.unwrap()@) is Some {
                    combination_error(lottery_state.winning_combination.unwrap()@) == Some(e)
                } else if combination_error(old(ticket).combination@) is Some {
                    combination_error(old(ticket).combination@) == Some(e)
                } else {
                    let pool_snapshot = if lottery_state.lottery_type == PAY_LOTTERY_TYPE {
                        lottery_state.accumulated_prize_pool
                    } else {
                        lottery_state.initial_prize_pool
                    };
                    let prize = prize_spec(
                        cards_of(lottery_state.winning_combination.unwrap()@),
                        cards_of(old(ticket).combination@),
                        lottery_state.lottery_type,
                        old(ticket).amount as nat,
                        lottery_state.initial_prize_pool as nat,
                        pool_snapshot as nat,
                        lottery_state.min_tokens_per_participant as nat,
                        *lottery_reward_factors,
                    );
                    e == ErrorCode::ArithmeticOverflow && prize > 0 && prize * pow10(
                        decimals as nat,
                    ) > u64::MAX
                }
            },
        }),
{
    let pool_snapshot = if lottery_state.lottery_type == PAY_LOTTERY_TYPE {
        lottery_state.accumulated_prize_pool
    } else {
        lottery_state.initial_prize_pool
    };
    let winning = match &lottery_state.winning_combination {
        Some(c) => c,
        None => {
            return Err(ErrorCode::WinningCombinationNotSetYet);
        },
    };
    if !(lottery_state.lottery_end_datetime < now) {
        return Err(ErrorCode::LotteryNotFinished);
    }
    if ticket.is_claimed {
        return Err(ErrorCode::TicketAlreadyClaimed);
    }
    if lottery_state.is_closed {
        return Err(ErrorCode::LotteryClosed);
    }
    let prize = match calculate_prize(
        winning,
        &ticket.combination,
        lottery_state.lottery_type,
        ticket.amount,
        lottery_state.initial_prize_pool,
        pool_snapshot,
        lottery_state.min_tokens_per_participant,
        lottery_reward_factors,
    ) {
        Ok(prize) => prize,
        Err(e) => {
            return Err(e);
        },
    };
    let mut scaled_amount: u64 = 0;
    let mut from_treasury: bool = false;
    if prize > 0 {
        scaled_amount = match get_scaled_amount(prize, decimals) {
            Ok(scaled) => scaled,
            Err(e) => {
                return Err(e);
            },
        };
        from_treasury = scaled_amount > lottery_vault_balance;
    }
    ticket.is_claimed = true;
    Ok(ClaimOutcome { prize, scaled_amount, from_treasury })
}

/// Closes a resolved lottery once the ten-day cool-down after its end has
/// elapsed, and returns the vault balance to sweep into the treasury.
pub fn close(lottery_state: &mut LotteryState, now: i64, lottery_vault_balance: u64) -> (r:
    Result<u64, ErrorCode>)
    requires
        old(lottery_state).lottery_end_datetime + LOTTERY_CLOSE_TIME_BUFFER <= i64::MAX,
    ensures
        match r {
            Ok(sweep) => {
                &&& old(lottery_state).winning_combination is Some
                &&& old(lottery_state).lottery_end_datetime < now
                &&& !old(lottery_state).is_closed
                &&& old(lottery_state).lottery_end_datetime + LOTTERY_CLOSE_TIME_BUFFER < now
                &&& sweep == lottery_vault_balance
                &&& *final(lottery_state) == (LotteryState {
                    is_closed: true,
                    ..*old(lottery_state)
                })
                &&& old(lottery_state).wf() ==> final(lottery_state).wf()
            },
            Err(e) => {
                &&& *final(lottery_state) == *old(lottery_state)
                &&& if old(lottery_state).winning_combination is None {
                    e == ErrorCode::WinningCombinationNotSetYet
                } else if !(old(lottery_state).lottery_end_datetime < now) {
                    e == ErrorCode::LotteryNotFinished
                } else if old(lottery_state).is_closed {
                    e == ErrorCode::LotteryClosed
                } else {
                    e == ErrorCode::LotteryNotReadyToBeClosed && !(old(lottery_state).lottery_end_datetime + LOTTERY_CLOSE_TIME_BUFFER < now)
                }
            },
        },
{
    if lottery_state.winning_combination.is_none() {
        return Err(ErrorCode::WinningCombinationNotSetYet);
    }
    if !(lottery_state.lottery_end_datetime < now) {
        return Err(ErrorCode::LotteryNotFinished);
    }
    if lottery_state.is_closed {
        return Err(ErrorCode::LotteryClosed);
    }
    if !(lottery_state.lottery_end_datetime + LOTTERY_CLOSE_TIME_BUFFER < now) {
        return Err(ErrorCode::LotteryNotReadyToBeClosed);
    }
    lottery_state.is_closed = true;
    Ok(lottery_vault_balance)
}

} // verus!
