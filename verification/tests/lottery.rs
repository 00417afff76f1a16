use draco_protocol::authority::ProtocolAuthority;
use draco_protocol::constants::{
    LOCK_LOTTERY_TYPE, LOTTERY_CLOSE_TIME_BUFFER, PAY_LOTTERY_TYPE,
};
use draco_protocol::errors::ErrorCode;
use draco_protocol::keys::AccountKey;
use draco_protocol::lottery::{
    close, commit_randomness, enforce_lottery_active, reveal_randomness, verify_amount_on_type,
    LotteryState, Ticket,
};
use draco_protocol::protocol::{
    buy_lottery_ticket, claim_lottery_prize_for_combination, commit_lottery_randomness,
    reveal_lottery_randomness, start_lottery,
};
use draco_protocol::reward::{initialize_lottery, LotteryRewardFactors};

fn authority() -> ProtocolAuthority {
    ProtocolAuthority { authority: AccountKey { id: 42 } }
}

fn factors() -> LotteryRewardFactors {
    let mut factors = LotteryRewardFactors {
        reward_full_match: 0,
        reward_suit_match: 0,
        reward_value_match: 0,
        suit_streak_bonuses: [0; 5],
        value_streak_bonuses: [0; 5],
        jackpot_percentage: 0,
        max_boost: 0,
        curvature: 0,
        lock_divider: 1,
    };
    initialize_lottery(&mut factors);
    factors
}

fn fresh_ticket() -> Ticket {
    Ticket {
        lottery_id: 0,
        combination: String::new(),
        participant: AccountKey { id: 0 },
        amount: 0,
        is_claimed: false,
        is_initialized: false,
    }
}

fn pay_lottery() -> LotteryState {
    let (state, treasury_withdrawal) = start_lottery(
        &authority(),
        AccountKey { id: 42 },
        1,
        "weekly".to_string(),
        "weekly pay lottery".to_string(),
        PAY_LOTTERY_TYPE,
        0,
        1_000,
        1_000_000,
        100,
        2,
    )
    .unwrap();
    assert_eq!(treasury_withdrawal, 100_000_000);
    state
}

#[test]
fn start_validates_its_inputs_in_order() {
    let pa = authority();
    let payer = AccountKey { id: 42 };
    let name = || "l".to_string();
    let desc = || "d".to_string();
    assert_eq!(
        start_lottery(&pa, AccountKey { id: 9 }, 1, name(), desc(), PAY_LOTTERY_TYPE, 0, 10, 1, 1, 0)
            .unwrap_err(),
        ErrorCode::InvalidAuthority
    );
    assert_eq!(
        start_lottery(&pa, payer, 1, name(), desc(), 3, 0, 10, 1, 1, 0).unwrap_err(),
        ErrorCode::InvalidLotteryType
    );
    assert_eq!(
        start_lottery(&pa, payer, 1, name(), desc(), PAY_LOTTERY_TYPE, 10, 10, 1, 1, 0)
            .unwrap_err(),
        ErrorCode::InvalidLotteryStartEndDatetime
    );
    assert_eq!(
        start_lottery(&pa, payer, 1, name(), desc(), PAY_LOTTERY_TYPE, 0, 10, 0, 1, 0)
            .unwrap_err(),
        ErrorCode::InvalidInitialPrizePool
    );
    assert_eq!(
        start_lottery(&pa, payer, 1, name(), desc(), PAY_LOTTERY_TYPE, 0, 10, 1, 0, 0)
            .unwrap_err(),
        ErrorCode::InvalidMinTokensPerParticipant
    );
    // Scaling the initial pool past 64 bits fails.
    assert_eq!(
        start_lottery(&pa, payer, 1, name(), desc(), PAY_LOTTERY_TYPE, 0, 10, u64::MAX, 1, 2)
            .unwrap_err(),
        ErrorCode::ArithmeticOverflow
    );
}

#[test]
fn lottery_is_active_only_inside_its_half_open_window() {
    let state = pay_lottery();
    assert_eq!(enforce_lottery_active(&state, 500), Ok(()));
    // The window is [start, end): the start instant is in, the end is out.
    assert_eq!(enforce_lottery_active(&state, 0), Ok(()));
    assert_eq!(enforce_lottery_active(&state, -1), Err(ErrorCode::LotteryNotStarted));
    assert_eq!(enforce_lottery_active(&state, 1_000), Err(ErrorCode::LotteryFinished));
    assert_eq!(enforce_lottery_active(&state, 2_000), Err(ErrorCode::LotteryFinished));
    let mut closed = pay_lottery();
    closed.is_closed = true;
    assert_eq!(enforce_lottery_active(&closed, 500), Err(ErrorCode::LotteryClosed));
}

#[test]
fn a_ticket_can_be_bought_at_the_start_instant() {
    let mut state = pay_lottery();
    let mut ticket = fresh_ticket();
    let contribution = buy_lottery_ticket(
        &mut state,
        &mut ticket,
        1,
        "S2H3C4W5".to_string(),
        100,
        AccountKey { id: 7 },
        0,
        2,
    )
    .unwrap();
    assert_eq!(contribution, 10_000);
    assert!(ticket.is_initialized);
}

#[test]
fn pay_amounts_must_be_positive_multiples_of_the_unit() {
    assert_eq!(verify_amount_on_type(PAY_LOTTERY_TYPE, 100, 300), Ok(()));
    assert_eq!(verify_amount_on_type(PAY_LOTTERY_TYPE, 100, 100), Ok(()));
    assert_eq!(
        verify_amount_on_type(PAY_LOTTERY_TYPE, 100, 150),
        Err(ErrorCode::InvalidAmount)
    );
    assert_eq!(verify_amount_on_type(PAY_LOTTERY_TYPE, 100, 0), Err(ErrorCode::InvalidAmount));
    assert_eq!(verify_amount_on_type(LOCK_LOTTERY_TYPE, 100, 99), Err(ErrorCode::InvalidAmount));
    assert_eq!(verify_amount_on_type(LOCK_LOTTERY_TYPE, 100, 101), Ok(()));
}

/// Buying the same combination twice accumulates the stake in one ticket and
/// still counts a participation each time.
#[test]
fn repeat_purchase_accumulates_the_ticket_and_counts_both_participations() {
    let mut state = pay_lottery();
    let mut ticket = fresh_ticket();
    let payer = AccountKey { id: 7 };

    let first = buy_lottery_ticket(
        &mut state,
        &mut ticket,
        1,
        "S2H3C4W5".to_string(),
        300,
        payer,
        500,
        2,
    )
    .unwrap();
    assert_eq!(first, 30_000);
    assert!(ticket.is_initialized);
    assert_eq!(ticket.amount, 300);
    assert_eq!(state.participants_count, 1);
    assert_eq!(state.accumulated_prize_pool, 1_000_300);

    let second = buy_lottery_ticket(
        &mut state,
        &mut ticket,
        1,
        "S2H3C4W5".to_string(),
        200,
        payer,
        600,
        2,
    )
    .unwrap();
    assert_eq!(second, 20_000);
    assert_eq!(ticket.amount, 500);
    assert!(!ticket.is_claimed);
    assert_eq!(state.participants_count, 2);
    assert_eq!(state.accumulated_prize_pool, 1_000_500);
}

#[test]
fn buying_checks_activity_combination_and_amount_in_order() {
    let mut state = pay_lottery();
    let mut ticket = fresh_ticket();
    let payer = AccountKey { id: 7 };
    assert_eq!(
        buy_lottery_ticket(&mut state, &mut ticket, 1, "S2H3C4W5".to_string(), 300, payer, 1_500, 2),
        Err(ErrorCode::LotteryFinished)
    );
    assert_eq!(
        buy_lottery_ticket(&mut state, &mut ticket, 1, "S2H3C4W!".to_string(), 300, payer, 500, 2),
        Err(ErrorCode::InvalidCombinationValue)
    );
    assert_eq!(
        buy_lottery_ticket(&mut state, &mut ticket, 1, "S2H3C4W5".to_string(), 250, payer, 500, 2),
        Err(ErrorCode::InvalidAmount)
    );
    assert!(!ticket.is_initialized);
    assert_eq!(state.participants_count, 0);
}

/// A commit whose randomness request was not seeded in the immediately
/// preceding slot is rejected as stale.
#[test]
fn commit_rejects_a_request_not_seeded_in_the_previous_slot() {
    let mut state = pay_lottery();
    let oracle = AccountKey { id: 77 };
    // Stale by one slot, lottery long finished.
    assert_eq!(
        commit_randomness(&mut state, oracle, 98, 2_000, 100),
        Err(ErrorCode::RandomnessAlreadyRevealed)
    );
    // Seeded in the current slot rather than the previous one.
    assert_eq!(
        commit_randomness(&mut state, oracle, 100, 2_000, 100),
        Err(ErrorCode::RandomnessAlreadyRevealed)
    );
    assert_eq!(state.randomness_account, AccountKey { id: 0 });
    // A fresh request commits.
    assert_eq!(commit_randomness(&mut state, oracle, 99, 2_000, 100), Ok(()));
    assert_eq!(state.randomness_account, oracle);
}

#[test]
fn commit_requires_a_finished_open_unresolved_lottery() {
    let mut state = pay_lottery();
    let oracle = AccountKey { id: 77 };
    assert_eq!(
        commit_randomness(&mut state, oracle, 99, 500, 100),
        Err(ErrorCode::CantCommitOnNotFinishedLottery)
    );
    let mut closed = pay_lottery();
    closed.is_closed = true;
    assert_eq!(
        commit_randomness(&mut closed, oracle, 99, 2_000, 100),
        Err(ErrorCode::LotteryClosed)
    );
    let mut resolved = pay_lottery();
    resolved.winning_combination = Some("S2H3C4W5".to_string());
    assert_eq!(
        commit_randomness(&mut resolved, oracle, 99, 2_000, 100),
        Err(ErrorCode::CombinationAlreadySet)
    );
}

#[test]
fn reveal_sets_the_winning_combination_from_the_oracle_bytes() {
    let pa = authority();
    let payer = AccountKey { id: 42 };
    let mut state = pay_lottery();
    let oracle = AccountKey { id: 77 };
    assert_eq!(
        commit_lottery_randomness(&pa, payer, &mut state, oracle, 99, 2_000, 100),
        Ok(())
    );
    // The committed request must be the one handed to reveal.
    assert_eq!(
        reveal_lottery_randomness(&pa, payer, &mut state, AccountKey { id: 78 }, 2_000, Some(vec![0; 32])),
        Err(ErrorCode::IncorrectRandomnessAccount)
    );
    // A pending oracle value leaves the lottery unresolved.
    assert_eq!(
        reveal_lottery_randomness(&pa, payer, &mut state, oracle, 2_000, None),
        Err(ErrorCode::RandomnessNotResolved)
    );
    assert_eq!(state.winning_combination, None);
    assert_eq!(
        reveal_lottery_randomness(&pa, payer, &mut state, oracle, 2_000, Some(vec![1, 2, 3, 4, 5, 6, 7, 8])),
        Ok(())
    );
    assert_eq!(state.winning_combination, Some("WKS9HKHA".to_string()));
    // A second reveal is rejected: the combination is already set.
    assert_eq!(
        reveal_lottery_randomness(&pa, payer, &mut state, oracle, 2_000, Some(vec![0; 32])),
        Err(ErrorCode::CombinationAlreadySet)
    );
    assert_eq!(state.winning_combination, Some("WKS9HKHA".to_string()));
}

/// The pay-lottery scenario of the reward tests, driven through the state
/// machine: buy three units of the winning combination, resolve, and claim
/// three times the rounded full reward.
#[test]
fn winning_pay_ticket_claims_the_full_reward_for_each_unit() {
    let mut state = pay_lottery();
    let mut ticket = fresh_ticket();
    let payer = AccountKey { id: 7 };
    buy_lottery_ticket(&mut state, &mut ticket, 1, "S2H3C4W5".to_string(), 300, payer, 500, 2)
        .unwrap();
    state.winning_combination = Some("S2H3C4W5".to_string());

    let outcome = claim_lottery_prize_for_combination(
        &state,
        &mut ticket,
        &factors(),
        1_001,
        2,
        100_000_000,
    )
    .unwrap();
    assert_eq!(outcome.prize, 602_400);
    assert_eq!(outcome.scaled_amount, 60_240_000);
    // The lottery vault holds enough: no treasury backstop.
    assert!(!outcome.from_treasury);
    assert!(ticket.is_claimed);

    // Claiming twice is rejected.
    assert_eq!(
        claim_lottery_prize_for_combination(&state, &mut ticket, &factors(), 1_001, 2, 100_000_000),
        Err(ErrorCode::TicketAlreadyClaimed)
    );
}

#[test]
fn claim_falls_back_to_the_treasury_when_the_lottery_vault_is_short() {
    let mut state = pay_lottery();
    let mut ticket = fresh_ticket();
    let payer = AccountKey { id: 7 };
    buy_lottery_ticket(&mut state, &mut ticket, 1, "S2H3C4W5".to_string(), 300, payer, 500, 2)
        .unwrap();
    state.winning_combination = Some("S2H3C4W5".to_string());
    let outcome = claim_lottery_prize_for_combination(
        &state,
        &mut ticket,
        &factors(),
        1_001,
        2,
        60_239_999,
    )
    .unwrap();
    assert_eq!(outcome.scaled_amount, 60_240_000);
    assert!(outcome.from_treasury);
}

#[test]
fn losing_ticket_is_still_claimed_with_a_zero_prize() {
    let mut state = pay_lottery();
    let mut ticket = fresh_ticket();
    let payer = AccountKey { id: 7 };
    buy_lottery_ticket(&mut state, &mut ticket, 1, "W6W7W8W9".to_string(), 100, payer, 500, 2)
        .unwrap();
    state.winning_combination = Some("S2S3S4S5".to_string());
    let outcome =
        claim_lottery_prize_for_combination(&state, &mut ticket, &factors(), 1_001, 2, 0).unwrap();
    assert_eq!(outcome.prize, 0);
    assert_eq!(outcome.scaled_amount, 0);
    assert!(!outcome.from_treasury);
    assert!(ticket.is_claimed);
}

#[test]
fn claim_requires_a_resolved_finished_open_lottery() {
    let mut state = pay_lottery();
    let mut ticket = fresh_ticket();
    let payer = AccountKey { id: 7 };
    buy_lottery_ticket(&mut state, &mut ticket, 1, "S2H3C4W5".to_string(), 100, payer, 500, 2)
        .unwrap();
    assert_eq!(
        claim_lottery_prize_for_combination(&state, &mut ticket, &factors(), 1_001, 2, 0),
        Err(ErrorCode::WinningCombinationNotSetYet)
    );
    state.winning_combination = Some("S2H3C4W5".to_string());
    assert_eq!(
        claim_lottery_prize_for_combination(&state, &mut ticket, &factors(), 900, 2, 0),
        Err(ErrorCode::LotteryNotFinished)
    );
    state.is_closed = true;
    assert_eq!(
        claim_lottery_prize_for_combination(&state, &mut ticket, &factors(), 1_001, 2, 0),
        Err(ErrorCode::LotteryClosed)
    );
}

/// Closing is rejected before the ten-day cool-down has elapsed, even with
/// the winning combination already set.
#[test]
fn close_rejects_before_the_cool_down_even_when_resolved() {
    let mut state = pay_lottery();
    state.winning_combination = Some("S2H3C4W5".to_string());
    assert_eq!(
        close(&mut state, 1_000 + LOTTERY_CLOSE_TIME_BUFFER, 5_000),
        Err(ErrorCode::LotteryNotReadyToBeClosed)
    );
    assert!(!state.is_closed);
    // One second past the cool-down, the sweep happens.
    assert_eq!(close(&mut state, 1_001 + LOTTERY_CLOSE_TIME_BUFFER, 5_000), Ok(5_000));
    assert!(state.is_closed);
    // Closing twice is rejected.
    let mut reclosed = state;
    assert_eq!(
        close(&mut reclosed, 2_000 + LOTTERY_CLOSE_TIME_BUFFER, 0),
        Err(ErrorCode::LotteryClosed)
    );
}

#[test]
fn close_requires_a_resolved_finished_lottery() {
    let mut state = pay_lottery();
    assert_eq!(
        close(&mut state, 1_001 + LOTTERY_CLOSE_TIME_BUFFER, 0),
        Err(ErrorCode::WinningCombinationNotSetYet)
    );
    state.winning_combination = Some("S2H3C4W5".to_string());
    assert_eq!(close(&mut state, 900, 0), Err(ErrorCode::LotteryNotFinished));
}

#[test]
fn reveal_is_deterministic_in_the_oracle_bytes() {
    let mut first = pay_lottery();
    let mut second = pay_lottery();
    let oracle = AccountKey { id: 77 };
    commit_randomness(&mut first, oracle, 99, 2_000, 100).unwrap();
    commit_randomness(&mut second, oracle, 99, 2_000, 100).unwrap();
    let bytes: Vec<u8> = (0..32).collect();
    reveal_randomness(&mut first, oracle, 2_000, Some(bytes.clone())).unwrap();
    reveal_randomness(&mut second, oracle, 2_000, Some(bytes)).unwrap();
    assert_eq!(first.winning_combination, second.winning_combination);
    assert_eq!(first.winning_combination, Some("S3S8H7H2".to_string()));
}
