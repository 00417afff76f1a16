use draco_protocol::constants::{
    GROWTH_SCALE, INITIAL_CURVATURE, INITIAL_MAX_BOOST, LOCK_LOTTERY_TYPE, PAY_LOTTERY_TYPE,
};
use draco_protocol::errors::ErrorCode;
use draco_protocol::growth::calculate_growth_factor;
use draco_protocol::reward::{
    calculate_num_tickets_reward, calculate_prize, initialize_lottery, update_lottery,
    LotteryRewardFactors,
};

fn default_factors() -> LotteryRewardFactors {
    let mut factors = LotteryRewardFactors {
        reward_full_match: 0,
        reward_suit_match: 0,
        reward_value_match: 0,
        suit_streak_bonuses: [0; 5],
        value_streak_bonuses: [0; 5],
        jackpot_percentage: 0,
        max_boost: 0,
        curvature: 0,
        lock_divider: 1,
    };
    initialize_lottery(&mut factors);
    factors
}

#[test]
fn initial_factors_hold_the_protocol_defaults() {
    let factors = default_factors();
    assert_eq!(factors.reward_full_match, 100);
    assert_eq!(factors.reward_suit_match, 30);
    assert_eq!(factors.reward_value_match, 50);
    assert_eq!(factors.suit_streak_bonuses, [0, 0, 25, 60, 120]);
    assert_eq!(factors.value_streak_bonuses, [0, 0, 50, 120, 220]);
    assert_eq!(factors.jackpot_percentage, 20);
    assert_eq!(factors.max_boost, 55);
    assert_eq!(factors.curvature, 90);
    assert_eq!(factors.lock_divider, 5_000);
}

#[test]
fn updated_factors_replace_the_table() {
    let mut factors = default_factors();
    update_lottery(
        &mut factors,
        200,
        60,
        90,
        [0, 0, 30, 70, 130],
        [0, 0, 60, 130, 230],
        25,
        60,
        95,
        4_000,
    );
    assert_eq!(factors.reward_full_match, 200);
    assert_eq!(factors.suit_streak_bonuses, [0, 0, 30, 70, 130]);
    assert_eq!(factors.value_streak_bonuses, [0, 0, 60, 130, 230]);
    assert_eq!(factors.lock_divider, 4_000);
}

/// The pay-lottery scenario: a 1,000,000 initial pool grown to 1,000,300 by a
/// 300-token purchase of three 100-token units, and a ticket equal to the
/// winning combination. The prize is the rounded full reward times three.
#[test]
fn exact_match_pay_ticket_earns_jackpot_full_matches_and_streaks_thrice() {
    let factors = default_factors();
    let winning = "S2H3C4W5".to_string();
    let ticket = "S2H3C4W5".to_string();
    let prize = calculate_prize(
        &winning,
        &ticket,
        PAY_LOTTERY_TYPE,
        300,
        1_000_000,
        1_000_300,
        100,
        &factors,
    )
    .unwrap();

    // Recompute the reward from its documented parts: four full matches plus
    // the length-four streak bonus on both axes, in hundredths, times the
    // unit price in hundredths, times the growth factor in millionths, plus
    // the jackpot share of the pool; rounded to whole tokens, times the
    // three units bought.
    let growth =
        calculate_growth_factor(1_000_000, 1_000_300, INITIAL_MAX_BOOST, INITIAL_CURVATURE);
    assert_eq!(growth, 1_000_148);
    let units: u128 = (4 * 100 + 120 + 220) as u128;
    let raw = units * (100 * 100) as u128 * growth as u128
        + 20u128 * 1_000_300u128 * 100u128 * 1_000_000u128;
    let reward_tokens = (raw + 5_000_000_000) / 10_000_000_000;
    assert_eq!(reward_tokens, 200_800);
    assert_eq!(prize as u128, reward_tokens * 3);
    assert_eq!(prize, 602_400);
}

#[test]
fn partial_matches_earn_their_factors_and_streak_bonuses() {
    let factors = default_factors();
    // Suits match on all four positions (streak bonus 120); values match
    // only on the last two (streak bonus 50); positions 0 and 1 are
    // suit-only matches (30 each) and positions 2 and 3 full matches (100
    // each). With an ungrown pool the growth factor is 1.0, so the reward
    // is (30 + 30 + 100 + 100 + 120 + 50) * 1.00 = 430 tokens for one unit.
    let winning = "S2H3C4W5".to_string();
    let ticket = "S3H2C4W5".to_string();
    let prize = calculate_prize(
        &winning,
        &ticket,
        PAY_LOTTERY_TYPE,
        100,
        1_000_000,
        1_000_000,
        100,
        &factors,
    )
    .unwrap();
    assert_eq!(prize, 430);
}

#[test]
fn no_matching_position_earns_nothing() {
    let factors = default_factors();
    let prize = calculate_prize(
        &"S2S3S4S5".to_string(),
        &"W6W7W8W9".to_string(),
        PAY_LOTTERY_TYPE,
        100,
        1_000_000,
        1_000_000,
        100,
        &factors,
    )
    .unwrap();
    assert_eq!(prize, 0);
}

#[test]
fn lock_ticket_gets_its_principal_back_on_top_of_the_reward() {
    let factors = default_factors();
    // A 5,000-token lock at a 100-token minimum: the effective unit price is
    // 100 / 50.00 = 2.00 tokens, the pool did not grow, and the number of
    // ticket units is the rounded lock growth factor (1.533633 -> 2).
    let prize = calculate_prize(
        &"S2H3C4W5".to_string(),
        &"S2H3C4W5".to_string(),
        LOCK_LOTTERY_TYPE,
        5_000,
        1_000_000,
        1_000_000,
        100,
        &factors,
    )
    .unwrap();
    // reward = 740 (units) * 200 (hundredths) * 1.0 + 20% of 1,000,000
    // = 200,015.3 tokens rounded to 200,015, times 2 units, plus the
    // 5,000-token principal.
    assert_eq!(prize, 5_000 + 200_015 * 2);
}

#[test]
fn malformed_winning_combination_is_reported_first() {
    let factors = default_factors();
    assert_eq!(
        calculate_prize(
            &"S2H3C4W".to_string(),
            &"X2H3C4W5".to_string(),
            PAY_LOTTERY_TYPE,
            100,
            1_000_000,
            1_000_000,
            100,
            &factors,
        ),
        Err(ErrorCode::InvalidCombinationLength)
    );
    assert_eq!(
        calculate_prize(
            &"S2H3C4W5".to_string(),
            &"X2H3C4W5".to_string(),
            PAY_LOTTERY_TYPE,
            100,
            1_000_000,
            1_000_000,
            100,
            &factors,
        ),
        Err(ErrorCode::InvalidCombinationSuit)
    );
}

#[test]
fn pay_tickets_count_whole_units_of_the_price() {
    assert_eq!(
        calculate_num_tickets_reward(300, 100, PAY_LOTTERY_TYPE, INITIAL_MAX_BOOST, INITIAL_CURVATURE),
        3
    );
    assert_eq!(
        calculate_num_tickets_reward(399, 100, PAY_LOTTERY_TYPE, INITIAL_MAX_BOOST, INITIAL_CURVATURE),
        3
    );
    assert_eq!(
        calculate_num_tickets_reward(99, 100, PAY_LOTTERY_TYPE, INITIAL_MAX_BOOST, INITIAL_CURVATURE),
        0
    );
}

#[test]
fn lock_tickets_count_the_rounded_lock_growth_factor() {
    // growth(100, 5000) = 1.533633, which rounds to 2.
    assert_eq!(
        calculate_num_tickets_reward(5_000, 100, LOCK_LOTTERY_TYPE, INITIAL_MAX_BOOST, INITIAL_CURVATURE),
        2
    );
    // A lock at exactly the minimum does not grow: one unit.
    assert_eq!(
        calculate_num_tickets_reward(100, 100, LOCK_LOTTERY_TYPE, INITIAL_MAX_BOOST, INITIAL_CURVATURE),
        1
    );
}

#[test]
fn unknown_lottery_types_count_one_unit() {
    assert_eq!(calculate_num_tickets_reward(5_000, 100, 7, INITIAL_MAX_BOOST, INITIAL_CURVATURE), 1);
}

#[test]
fn swapping_ticket_and_winning_combination_leaves_the_prize_unchanged() {
    let factors = default_factors();
    let first = "S2H3C4W5".to_string();
    let second = "S3H2C7WA".to_string();
    let one = calculate_prize(
        &first,
        &second,
        PAY_LOTTERY_TYPE,
        100,
        1_000_000,
        1_000_300,
        100,
        &factors,
    )
    .unwrap();
    let other = calculate_prize(
        &second,
        &first,
        PAY_LOTTERY_TYPE,
        100,
        1_000_000,
        1_000_300,
        100,
        &factors,
    )
    .unwrap();
    assert_eq!(one, other);
    assert!(one > 0);
}

#[test]
fn growth_boosts_the_reward_of_a_grown_pool() {
    let factors = default_factors();
    // Same single full-match position, with and without pool growth: the
    // grown pool pays more.
    let flat = calculate_prize(
        &"S2H3C4W5".to_string(),
        &"S2W8W9WT".to_string(),
        PAY_LOTTERY_TYPE,
        100,
        1_000_000,
        1_000_000,
        100,
        &factors,
    )
    .unwrap();
    let grown = calculate_prize(
        &"S2H3C4W5".to_string(),
        &"S2W8W9WT".to_string(),
        PAY_LOTTERY_TYPE,
        100,
        1_000_000,
        2_000_000,
        100,
        &factors,
    )
    .unwrap();
    assert!(grown > flat);
}
