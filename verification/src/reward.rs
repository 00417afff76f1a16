//! The reward computation engine: a pure function from the winning hand, a
//! ticket, the pool state and the tunable reward-factor table to a prize.
//!
//! All factors are fixed-point numbers in hundredths (`FACTOR_SCALE`), growth
//! factors are in millionths (`GROWTH_SCALE`), and every reward term is
//! accumulated exactly in a raw scale of `PRIZE_RAW_SCALE` (hundredths of a
//! factor times hundredths of a unit price times millionths of a growth
//! factor); the total is rounded to whole tokens once, at the end.

use vstd::prelude::*;
use crate::codec::{cards_of, combination_error, verify_combination};
use crate::constants::{
    FACTOR_SCALE, GROWTH_SCALE, INITIAL_CURVATURE, INITIAL_JACKPOT_PERCENTAGE, INITIAL_LOCK_DIVIDER,
    INITIAL_MAX_BOOST, INITIAL_REWARD_FULL_MATCH, INITIAL_REWARD_SUIT_MATCH,
    INITIAL_REWARD_VALUE_MATCH, LOCK_LOTTERY_TYPE, MAX_BOOST_LIMIT, MAX_CURVATURE,
    MAX_REWARD_FACTOR, PAY_LOTTERY_TYPE,
};
use crate::errors::ErrorCode;
use crate::growth::{calculate_growth_factor, growth_factor_spec};
use vstd::arithmetic::div_mod::{lemma_div_is_ordered, lemma_div_nonincreasing};
use vstd::arithmetic::mul::lemma_mul_upper_bound;

verus! {

/// One raw reward unit is `10^-10` tokens: hundredths (factor) times
/// hundredths (unit price) times millionths (growth factor).
pub const PRIZE_RAW_SCALE: u64 = 10_000_000_000;

/// The protocol-wide table of tunable reward weights, in `FACTOR_SCALE`
/// hundredths. Streak bonus tables are indexed by streak length; indices 0
/// and 1 are unused.
pub struct LotteryRewardFactors {
    pub reward_full_match: u64,
    pub reward_suit_match: u64,
    pub reward_value_match: u64,
    pub suit_streak_bonuses: [u64; 5],
    pub value_streak_bonuses: [u64; 5],
    pub jackpot_percentage: u64,
    pub max_boost: u64,
    pub curvature: u64,
    pub lock_divider: u64,
}

impl LotteryRewardFactors {
    /// Every factor is bounded so that all prize arithmetic fits in 128 bits,
    /// and the lock divider can divide.
    pub open spec fn wf(self) -> bool {
        &&& self.reward_full_match <= MAX_REWARD_FACTOR
        &&& self.reward_suit_match <= MAX_REWARD_FACTOR
        &&& self.reward_value_match <= MAX_REWARD_FACTOR
        &&& forall|i: int| 0 <= i < 5 ==> self.suit_streak_bonuses@[i] <= MAX_REWARD_FACTOR
        &&& forall|i: int| 0 <= i < 5 ==> self.value_streak_bonuses@[i] <= MAX_REWARD_FACTOR
        &&& self.jackpot_percentage <= MAX_REWARD_FACTOR
        &&& self.max_boost <= MAX_BOOST_LIMIT
        &&& self.curvature <= MAX_CURVATURE
        &&& 1 <= self.lock_divider
    }
}

/// Writes the initial protocol values into the reward-factor table.
pub fn initialize_lottery(lottery_reward_factors: &mut LotteryRewardFactors)
    ensures
        final(lottery_reward_factors).wf(),
        final(lottery_reward_factors).reward_full_match == INITIAL_REWARD_FULL_MATCH,
        final(lottery_reward_factors).reward_suit_match == INITIAL_REWARD_SUIT_MATCH,
        final(lottery_reward_factors).reward_value_match == INITIAL_REWARD_VALUE_MATCH,
        final(lottery_reward_factors).suit_streak_bonuses@ == seq![0u64, 0u64, 25u64, 60u64, 120u64],
        final(lottery_reward_factors).value_streak_bonuses@ == seq![0u64, 0u64, 50u64, 120u64, 220u64],
        final(lottery_reward_factors).jackpot_percentage == INITIAL_JACKPOT_PERCENTAGE,
        final(lottery_reward_factors).max_boost == INITIAL_MAX_BOOST,
        final(lottery_reward_factors).curvature == INITIAL_CURVATURE,
        final(lottery_reward_factors).lock_divider == INITIAL_LOCK_DIVIDER,
{
    lottery_reward_factors.reward_full_match = INITIAL_REWARD_FULL_MATCH;
    lottery_reward_factors.reward_suit_match = INITIAL_REWARD_SUIT_MATCH;
    lottery_reward_factors.reward_value_match = INITIAL_REWARD_VALUE_MATCH;
    let suit_bonuses: [u64; 5] = [0, 0, 25, 60, 120];
    let value_bonuses: [u64; 5] = [0, 0, 50, 120, 220];
    lottery_reward_factors.suit_streak_bonuses = suit_bonuses;
    lottery_reward_factors.value_streak_bonuses = value_bonuses;
    lottery_reward_factors.jackpot_percentage = INITIAL_JACKPOT_PERCENTAGE;
    lottery_reward_factors.max_boost = INITIAL_MAX_BOOST;
    lottery_reward_factors.curvature = INITIAL_CURVATURE;
    lottery_reward_factors.lock_divider = INITIAL_LOCK_DIVIDER;
    proof {
        assert(final(lottery_reward_factors).suit_streak_bonuses@
            =~= seq![0u64, 0u64, 25u64, 60u64, 120u64]);
        assert(final(lottery_reward_factors).value_streak_bonuses@
            =~= seq![0u64, 0u64, 50u64, 120u64, 220u64]);
    }
}

/// Overwrites the reward-factor table with new weights. The bounds keep the
/// table well formed, so every later prize computation stays in 128 bits.
pub fn update_lottery(
    lottery_reward_factors: &mut LotteryRewardFactors,
    reward_full_match: u64,
    reward_suit_match: u64,
    reward_value_match: u64,
    suit_streak_bonuses: [u64; 5],
    value_streak_bonuses: [u64; 5],
    jackpot_percentage: u64,
    max_boost: u64,
    curvature: u64,
    lock_divider: u64,
)
    requires
        reward_full_match <= MAX_REWARD_FACTOR,
        reward_suit_match <= MAX_REWARD_FACTOR,
        reward_value_match <= MAX_REWARD_FACTOR,
        forall|i: int| 0 <= i < 5 ==> suit_streak_bonuses@[i] <= MAX_REWARD_FACTOR,
        forall|i: int| 0 <= i < 5 ==> value_streak_bonuses@[i] <= MAX_REWARD_FACTOR,
        jackpot_percentage <= MAX_REWARD_FACTOR,
        max_boost <= MAX_BOOST_LIMIT,
        curvature <= MAX_CURVATURE,
        1 <= lock_divider,
    ensures
        final(lottery_reward_factors).wf(),
        *final(lottery_reward_factors) == (LotteryRewardFactors {
            reward_full_match,
            reward_suit_match,
            reward_value_match,
            suit_streak_bonuses,
            value_streak_bonuses,
            jackpot_percentage,
            max_boost,
            curvature,
            lock_divider,
        }),
{
    lottery_reward_factors.reward_full_match = reward_full_match;
    lottery_reward_factors.reward_suit_match = reward_suit_match;
    lottery_reward_factors.reward_value_match = reward_value_match;
    lottery_reward_factors.suit_streak_bonuses = suit_streak_bonuses;
    lottery_reward_factors.value_streak_bonuses = value_streak_bonuses;
    lottery_reward_factors.jackpot_percentage = jackpot_percentage;
    lottery_reward_factors.max_boost = max_boost;
    lottery_reward_factors.curvature = curvature;
    lottery_reward_factors.lock_divider = lock_divider;
}

/// The reward factor a single position earns, in hundredths: a full match
/// beats a suit-only match beats a value-only match.
pub open spec fn position_factor(w: (char, char), t: (char, char), f: LotteryRewardFactors) -> nat {
    if t.0 == w.0 && t.1 == w.1 {
        f.reward_full_match as nat
    } else if t.0 == w.0 {
        f.reward_suit_match as nat
    } else if t.1 == w.1 {
        f.reward_value_match as nat
    } else {
        0
    }
}

/// Sum of the per-position match factors over the first `n` positions.
pub open spec fn match_factor_sum(
    w: Seq<(char, char)>,
    t: Seq<(char, char)>,
    f: LotteryRewardFactors,
    n: nat,
) -> nat
    decreases n,
{
    if n == 0 {
        0
    } else {
        match_factor_sum(w, t, f, (n - 1) as nat) + position_factor(w[n - 1], t[n - 1], f)
    }
}

/// Per-position agreement of ticket and winning hand on one axis: suits when
/// `suit_axis`, values otherwise.
pub open spec fn matches_on(
    w: Seq<(char, char)>,
    t: Seq<(char, char)>,
    suit_axis: bool,
) -> Seq<bool> {
    Seq::new(4, |i: int| if suit_axis {
        t[i].0 == w[i].0
    } else {
        t[i].1 == w[i].1
    })
}

/// The bonus a streak earns when it breaks: the table entry at its length,
/// for lengths 2 up to the table's end; nothing otherwise.
pub open spec fn streak_award(streak: nat, table: Seq<u64>) -> nat {
    if 2 <= streak && streak < table.len() {
        table[streak as int] as nat
    } else {
        0
    }
}

/// Running streak length and bonuses awarded after the first `n` positions:
/// a streak grows while the current and previous positions both match, and
/// pays out when it breaks.
pub open spec fn streak_state(m: Seq<bool>, table: Seq<u64>, n: nat) -> (nat, nat)
    decreases n,
{
    if n == 0 {
        (0, 0)
    } else if n == 1 {
        (if m[0] { 1nat } else { 0nat }, 0)
    } else {
        let (streak, acc) = streak_state(m, table, (n - 1) as nat);
        if m[n - 2] && m[n - 1] {
            (streak + 1, acc)
        } else {
            (if m[n - 1] { 1nat } else { 0nat }, acc + streak_award(streak, table))
        }
    }
}

/// All streak bonuses earned over four positions, the open streak at the end
/// included.
pub open spec fn streak_total(m: Seq<bool>, table: Seq<u64>) -> nat {
    let (streak, acc) = streak_state(m, table, 4);
    acc + streak_award(streak, table)
}

/// All match and streak factors a ticket earns against the winning hand, in
/// hundredths.
pub open spec fn reward_units(
    w: Seq<(char, char)>,
    t: Seq<(char, char)>,
    f: LotteryRewardFactors,
) -> nat {
    match_factor_sum(w, t, f, 4) + streak_total(matches_on(w, t, true), f.suit_streak_bonuses@)
        + streak_total(matches_on(w, t, false), f.value_streak_bonuses@)
}

/// Whether the ticket matches the winning hand exactly on all four positions.
pub open spec fn is_exact_match(w: Seq<(char, char)>, t: Seq<(char, char)>) -> bool {
    forall|i: int| 0 <= i < 4 ==> t[i] == w[i]
}

/// The ticket's effective unit price in hundredths of a token: the plain
/// price for a pay lottery, the price divided by the lock divider otherwise.
pub open spec fn effective_unit_price_h(lottery_type: u8, ticket_price: nat, lock_divider: nat) -> nat {
    if lottery_type == PAY_LOTTERY_TYPE {
        ticket_price * 100
    } else {
        ticket_price * 10_000 / lock_divider
    }
}

/// The ticket's whole reward before rounding, in `PRIZE_RAW_SCALE` units:
/// match and streak factors times the effective unit price times the growth
/// factor, plus the jackpot share of the pool on an exact match.
pub open spec fn prize_raw(
    w: Seq<(char, char)>,
    t: Seq<(char, char)>,
    lottery_type: u8,
    accumulated_prize_pool: nat,
    ticket_price: nat,
    f: LotteryRewardFactors,
    growth: nat,
) -> nat {
    reward_units(w, t, f) * effective_unit_price_h(lottery_type, ticket_price, f.lock_divider as nat)
        * growth + if is_exact_match(w, t) {
        (f.jackpot_percentage as nat) * accumulated_prize_pool * (FACTOR_SCALE as nat)
            * (GROWTH_SCALE as nat)
    } else {
        0nat
    }
}

/// Rounds a raw reward to whole tokens, half away from zero.
pub open spec fn rounded_reward(raw: nat) -> nat {
    (raw + (PRIZE_RAW_SCALE as nat) / 2) / (PRIZE_RAW_SCALE as nat)
}

/// How many ticket units the stake bought: whole units of the price for a
/// pay lottery, the rounded lock growth factor for a lock lottery, one
/// otherwise.
pub open spec fn num_tickets_spec(
    amount_payed: nat,
    ticket_price: nat,
    lottery_type: u8,
    max_boost: nat,
    curvature: nat,
) -> nat {
    if lottery_type == PAY_LOTTERY_TYPE {
        amount_payed / ticket_price
    } else if lottery_type == LOCK_LOTTERY_TYPE {
        (growth_factor_spec(ticket_price, amount_payed, max_boost, curvature)
            + (GROWTH_SCALE as nat) / 2) / (GROWTH_SCALE as nat)
    } else {
        1
    }
}

/// The prize paid for a ticket: the rounded reward times the number of
/// ticket units, with the locked principal returned on top for a lock
/// lottery, saturated at the largest ledger amount.
pub open spec fn prize_spec(
    w: Seq<(char, char)>,
    t: Seq<(char, char)>,
    lottery_type: u8,
    amount_payed: nat,
    initial_prize_pool: nat,
    accumulated_prize_pool: nat,
    ticket_price: nat,
    f: LotteryRewardFactors,
) -> nat {
    let growth = growth_factor_spec(
        initial_prize_pool,
        accumulated_prize_pool,
        f.max_boost as nat,
        f.curvature as nat,
    );
    let reward_tokens = rounded_reward(
        prize_raw(w, t, lottery_type, accumulated_prize_pool, ticket_price, f, growth),
    );
    let nt = num_tickets_spec(
        amount_payed,
        ticket_price,
        lottery_type,
        f.max_boost as nat,
        f.curvature as nat,
    );
    let exact = if lottery_type == PAY_LOTTERY_TYPE {
        reward_tokens * nt
    } else {
        amount_payed + reward_tokens * nt
    };
    if exact > u64::MAX {
        u64::MAX as nat
    } else {
        exact
    }
}

/// The match-factor sum grows by at most one factor per position.
proof fn lemma_match_sum_bound(
    w: Seq<(char, char)>,
    t: Seq<(char, char)>,
    f: LotteryRewardFactors,
    n: nat,
)
    requires
        f.wf(),
    ensures
        match_factor_sum(w, t, f, n) <= n * MAX_REWARD_FACTOR,
    decreases n,
{
    if n > 0 {
        lemma_match_sum_bound(w, t, f, (n - 1) as nat);
        assert((n - 1) as nat * MAX_REWARD_FACTOR + MAX_REWARD_FACTOR == n * MAX_REWARD_FACTOR)
            by (nonlinear_arith)
            requires n >= 1;
    }
}

/// Streak length stays below the position count and the awarded bonuses grow
/// by at most one table entry per position.
proof fn lemma_streak_state_bound(m: Seq<bool>, table: Seq<u64>, n: nat)
    requires
        forall|i: int| 0 <= i < table.len() ==> table[i] <= MAX_REWARD_FACTOR,
    ensures
        streak_state(m, table, n).0 <= n,
        streak_state(m, table, n).1 <= n * MAX_REWARD_FACTOR,
    decreases n,
{
    if n > 0 {
        lemma_streak_state_bound(m, table, (n - 1) as nat);
        assert((n - 1) as nat * MAX_REWARD_FACTOR + MAX_REWARD_FACTOR == n * MAX_REWARD_FACTOR)
            by (nonlinear_arith)
            requires n >= 1;
    }
}

/// A ticket equal to the winning hand earns the full-match factor on every
/// position and the longest streak bonus on both axes, and triggers the
/// jackpot.
pub proof fn lemma_exact_match_reward(c: Seq<(char, char)>, f: LotteryRewardFactors)
    requires
        c.len() == 4,
    ensures
        is_exact_match(c, c),
        match_factor_sum(c, c, f, 4) == 4 * f.reward_full_match,
        streak_total(matches_on(c, c, true), f.suit_streak_bonuses@)
            == f.suit_streak_bonuses@[4],
        streak_total(matches_on(c, c, false), f.value_streak_bonuses@)
            == f.value_streak_bonuses@[4],
        reward_units(c, c, f) == 4 * f.reward_full_match + f.suit_streak_bonuses@[4]
            + f.value_streak_bonuses@[4],
{
    assert(match_factor_sum(c, c, f, 0) == 0);
    assert(match_factor_sum(c, c, f, 1) == f.reward_full_match);
    assert(match_factor_sum(c, c, f, 2) == 2 * f.reward_full_match);
    assert(match_factor_sum(c, c, f, 3) == 3 * f.reward_full_match);
    assert(match_factor_sum(c, c, f, 4) == 4 * f.reward_full_match);
    let sm = matches_on(c, c, true);
    let vm = matches_on(c, c, false);
    assert(sm[0] && sm[1] && sm[2] && sm[3]);
    assert(vm[0] && vm[1] && vm[2] && vm[3]);
    assert(streak_state(sm, f.suit_streak_bonuses@, 1) == (1nat, 0nat));
    assert(streak_state(sm, f.suit_streak_bonuses@, 2) == (2nat, 0nat));
    assert(streak_state(sm, f.suit_streak_bonuses@, 3) == (3nat, 0nat));
    assert(streak_state(sm, f.suit_streak_bonuses@, 4) == (4nat, 0nat));
    assert(streak_state(vm, f.value_streak_bonuses@, 1) == (1nat, 0nat));
    assert(streak_state(vm, f.value_streak_bonuses@, 2) == (2nat, 0nat));
    assert(streak_state(vm, f.value_streak_bonuses@, 3) == (3nat, 0nat));
    assert(streak_state(vm, f.value_streak_bonuses@, 4) == (4nat, 0nat));
    assert(f.suit_streak_bonuses@.len() == 5);
    assert(f.value_streak_bonuses@.len() == 5);
}

/// Each position's factor only tests symbol equality, so it does not care
/// which hand is the ticket and which is the winning one.
proof fn lemma_match_sum_symmetric(
    w: Seq<(char, char)>,
    t: Seq<(char, char)>,
    f: LotteryRewardFactors,
    n: nat,
)
    requires
        n <= w.len(),
        n <= t.len(),
    ensures
        match_factor_sum(w, t, f, n) == match_factor_sum(t, w, f, n),
    decreases n,
{
    if n > 0 {
        lemma_match_sum_symmetric(w, t, f, (n - 1) as nat);
    }
}

/// The whole raw reward is symmetric in the two hands: match factors, streak
/// bonuses and the jackpot trigger all test symbol equality only, so
/// swapping ticket and winning combination leaves the reward unchanged.
pub proof fn lemma_prize_raw_symmetric(
    w: Seq<(char, char)>,
    t: Seq<(char, char)>,
    lottery_type: u8,
    accumulated_prize_pool: nat,
    ticket_price: nat,
    f: LotteryRewardFactors,
    growth: nat,
)
    requires
        w.len() == 4,
        t.len() == 4,
    ensures
        prize_raw(w, t, lottery_type, accumulated_prize_pool, ticket_price, f, growth)
            == prize_raw(t, w, lottery_type, accumulated_prize_pool, ticket_price, f, growth),
{
    lemma_match_sum_symmetric(w, t, f, 4);
    assert(matches_on(w, t, true) =~= matches_on(t, w, true));
    assert(matches_on(w, t, false) =~= matches_on(t, w, false));
    if is_exact_match(w, t) {
        assert forall|i: int| 0 <= i < 4 implies #[trigger] w[i] == t[i] by {
            assert(t[i] == w[i]);
        }
    }
    if is_exact_match(t, w) {
        assert forall|i: int| 0 <= i < 4 implies #[trigger] t[i] == w[i] by {
            assert(w[i] == t[i]);
        }
    }
}

/// The raw reward of a ticket equal to the winning hand is exactly the
/// jackpot share of the pool plus four full-match terms plus the longest
/// streak bonus on both axes, at any growth factor.
pub proof fn lemma_exact_match_prize_raw(
    c: Seq<(char, char)>,
    f: LotteryRewardFactors,
    lottery_type: u8,
    accumulated_prize_pool: nat,
    ticket_price: nat,
    growth: nat,
)
    requires
        c.len() == 4,
    ensures
        prize_raw(c, c, lottery_type, accumulated_prize_pool, ticket_price, f, growth) == (4
            * f.reward_full_match + f.suit_streak_bonuses@[4] + f.value_streak_bonuses@[4])
            * effective_unit_price_h(lottery_type, ticket_price, f.lock_divider as nat) * growth
            + (f.jackpot_percentage as nat) * accumulated_prize_pool * (FACTOR_SCALE as nat) * (
        GROWTH_SCALE as nat),
{
    lemma_exact_match_reward(c, f);
}

/// How many ticket units the stake bought; see `num_tickets_spec`.
pub fn calculate_num_tickets_reward(
    amount_payed: u64,
    ticket_price: u64,
    lottery_type: u8,
    max_boost: u64,
    curvature: u64,
) -> (r: u64)
    requires
        lottery_type == PAY_LOTTERY_TYPE ==> 1 <= ticket_price,
        max_boost <= MAX_BOOST_LIMIT,
        curvature <= MAX_CURVATURE,
    ensures
        r as nat == num_tickets_spec(
            amount_payed as nat,
            ticket_price as nat,
            lottery_type,
            max_boost as nat,
            curvature as nat,
        ),
{
    if lottery_type == PAY_LOTTERY_TYPE {
        amount_payed / ticket_price
    } else if lottery_type == LOCK_LOTTERY_TYPE {
        let g = calculate_growth_factor(ticket_price, amount_payed, max_boost, curvature);
        proof {
            lemma_mul_upper_bound(
                max_boost as int,
                MAX_BOOST_LIMIT as int,
                GROWTH_SCALE as int,
                GROWTH_SCALE as int,
            );
            lemma_div_is_ordered(
                (max_boost * GROWTH_SCALE) as int,
                MAX_BOOST_LIMIT as int * GROWTH_SCALE as int,
                100,
            );
        }
        (g + GROWTH_SCALE / 2) / GROWTH_SCALE
    } else {
        1
    }
}

/// Computes the prize a ticket earns against the winning combination; see
/// `prize_spec`. A malformed winning combination is reported first, then a
/// malformed ticket combination.
pub fn calculate_prize(
    winning_combination: &String,
    combination: &String,
    lottery_type: u8,
    amount_payed: u64,
    initial_prize_pool: u64,
    accumulated_prize_pool: u64,
    ticket_price: u64,
    reward_factors: &LotteryRewardFactors,
) -> (r: Result<u64, ErrorCode>)
    requires
        reward_factors.wf(),
        lottery_type == PAY_LOTTERY_TYPE ==> 1 <= ticket_price,
    ensures
        r is Ok <==> (combination_error(winning_combination@) is None && combination_error(
            combination@,
        ) is None),
        r is Ok ==> r.unwrap() as nat == prize_spec(
            cards_of(winning_combination@),
            cards_of(combination@),
            lottery_type,
            amount_payed as nat,
            initial_prize_pool as nat,
            accumulated_prize_pool as nat,
            ticket_price as nat,
            *reward_factors,
        ),
        r is Err ==> (if combination_error(winning_combination@) is Some {
            combination_error(winning_combination@) == Some(r.unwrap_err())
        } else {
            combination_error(combination@) == Some(r.unwrap_err())
        }),
{
    let winning_cards = match verify_combination(winning_combination) {
        Ok(cards) => cards,
        Err(e) => {
            return Err(e);
        },
    };
    let ticket_cards = match verify_combination(combination) {
        Ok(cards) => cards,
        Err(e) => {
            return Err(e);
        },
    };
    let ghost w = cards_of(winning_combination@);
    let ghost t = cards_of(combination@);
    let ghost f = *reward_factors;
    let ghost sm = matches_on(w, t, true);
    let ghost vm = matches_on(w, t, false);
    let ghost stable = reward_factors.suit_streak_bonuses@;
    let ghost vtable = reward_factors.value_streak_bonuses@;

    let growth = calculate_growth_factor(
        initial_prize_pool,
        accumulated_prize_pool,
        reward_factors.max_boost,
        reward_factors.curvature,
    );
    proof {
        lemma_mul_upper_bound(
            reward_factors.max_boost as int,
            MAX_BOOST_LIMIT as int,
            GROWTH_SCALE as int,
            GROWTH_SCALE as int,
        );
        lemma_div_is_ordered(
            (reward_factors.max_boost * GROWTH_SCALE) as int,
            MAX_BOOST_LIMIT as int * GROWTH_SCALE as int,
            100,
        );
        assert(growth <= 101_000_000);
    }

    let mut units: u64 = 0;
    let mut suit_streak: u64 = 0;
    let mut value_streak: u64 = 0;
    let mut exact: bool = true;
    let mut i: usize = 0;
    while i < 4
        invariant
            winning_cards@ == w,
            ticket_cards@ == t,
            w.len() == 4,
            t.len() == 4,
            f == *reward_factors,
            f.wf(),
            sm == matches_on(w, t, true),
            vm == matches_on(w, t, false),
            stable == f.suit_streak_bonuses@,
            vtable == f.value_streak_bonuses@,
            i <= 4,
            units as nat == match_factor_sum(w, t, f, i as nat) + streak_state(
                sm,
                stable,
                i as nat,
            ).1 + streak_state(vm, vtable, i as nat).1,
            suit_streak as nat == streak_state(sm, stable, i as nat).0,
            value_streak as nat == streak_state(vm, vtable, i as nat).0,
            exact == (forall|j: int| 0 <= j < i ==> t[j] == w[j]),
        decreases 4 - i,
    {
        proof {
            lemma_match_sum_bound(w, t, f, i as nat);
            lemma_streak_state_bound(sm, stable, i as nat);
            lemma_streak_state_bound(vm, vtable, i as nat);
            assert(i as nat * MAX_REWARD_FACTOR <= 4 * MAX_REWARD_FACTOR) by (nonlinear_arith)
                requires i <= 4;
            assert(match_factor_sum(w, t, f, 0) == 0);
        }
        let (winning_suit, winning_value) = winning_cards[i];
        let (ticket_suit, ticket_value) = ticket_cards[i];
        if !(ticket_suit == winning_suit && ticket_value == winning_value) {
            exact = false;
        }
        if ticket_suit == winning_suit && ticket_value == winning_value {
            units = units + reward_factors.reward_full_match;
        } else if ticket_suit == winning_suit {
            units = units + reward_factors.reward_suit_match;
        } else if ticket_value == winning_value {
            units = units + reward_factors.reward_value_match;
        }
        if i > 0 {
            let (prev_winning_suit, prev_winning_value) = winning_cards[i - 1];
            let (prev_ticket_suit, prev_ticket_value) = ticket_cards[i - 1];
            if prev_ticket_suit == prev_winning_suit && ticket_suit == winning_suit {
                suit_streak = suit_streak + 1;
            } else {
                if suit_streak > 1 && suit_streak < 5 {
                    units = units + reward_factors.suit_streak_bonuses[suit_streak as usize];
                }
                suit_streak = if ticket_suit == winning_suit {
                    1
                } else {
                    0
                };
            }
            if prev_ticket_value == prev_winning_value && ticket_value == winning_value {
                value_streak = value_streak + 1;
            } else {
                if value_streak > 1 && value_streak < 5 {
                    units = units + reward_factors.value_streak_bonuses[value_streak as usize];
                }
                value_streak = if ticket_value == winning_value {
                    1
                } else {
                    0
                };
            }
        } else {
            suit_streak = if ticket_suit == winning_suit {
                1
            } else {
                0
            };
            value_streak = if ticket_value == winning_value {
                1
            } else {
                0
            };
        }
        i = i + 1;
    }
    proof {
        lemma_match_sum_bound(w, t, f, 4);
        lemma_streak_state_bound(sm, stable, 4);
        lemma_streak_state_bound(vm, vtable, 4);
        assert(stable.len() == 5);
        assert(vtable.len() == 5);
    }
    if suit_streak > 1 && suit_streak < 5 {
        units = units + reward_factors.suit_streak_bonuses[suit_streak as usize];
    }
    if value_streak > 1 && value_streak < 5 {
        units = units + reward_factors.value_streak_bonuses[value_streak as usize];
    }
    assert(units as nat == reward_units(w, t, f));
    assert(units <= 1_400_000);
    assert(exact == is_exact_match(w, t));

    let unit_h: u128 = if lottery_type == PAY_LOTTERY_TYPE {
        proof {
            lemma_mul_upper_bound(ticket_price as int, u64::MAX as int, 100, 10_000);
        }
        (ticket_price as u128) * 100
    } else {
        proof {
            lemma_mul_upper_bound(ticket_price as int, u64::MAX as int, 10_000, 10_000);
            lemma_div_nonincreasing(
                (ticket_price as nat * 10_000) as int,
                reward_factors.lock_divider as int,
            );
        }
        (ticket_price as u128) * 10_000 / (reward_factors.lock_divider as u128)
    };
    let ghost eup = effective_unit_price_h(
        lottery_type,
        ticket_price as nat,
        f.lock_divider as nat,
    );
    assert(unit_h as nat == eup);
    assert(unit_h <= u64::MAX as u128 * 10_000) by {
        if lottery_type == PAY_LOTTERY_TYPE {
            lemma_mul_upper_bound(ticket_price as int, u64::MAX as int, 100, 10_000);
        } else {
            lemma_mul_upper_bound(ticket_price as int, u64::MAX as int, 10_000, 10_000);
            lemma_div_nonincreasing(
                (ticket_price as nat * 10_000) as int,
                reward_factors.lock_divider as int,
            );
        }
    }

    proof {
        lemma_mul_upper_bound(units as int, 1_400_000, unit_h as int, u64::MAX as int * 10_000);
        lemma_mul_upper_bound(
            (units as nat * unit_h as nat) as int,
            1_400_000 * (u64::MAX as int * 10_000),
            growth as int,
            101_000_000,
        );
    }
    let base: u128 = (units as u128) * unit_h * (growth as u128);
    let raw: u128 = if exact {
        proof {
            lemma_mul_upper_bound(
                reward_factors.jackpot_percentage as int,
                MAX_REWARD_FACTOR as int,
                accumulated_prize_pool as int,
                u64::MAX as int,
            );
            lemma_mul_upper_bound(
                (reward_factors.jackpot_percentage as nat * accumulated_prize_pool as nat) as int,
                MAX_REWARD_FACTOR as int * u64::MAX as int,
                FACTOR_SCALE as int,
                FACTOR_SCALE as int,
            );
            lemma_mul_upper_bound(
                (reward_factors.jackpot_percentage as nat * accumulated_prize_pool as nat
                    * FACTOR_SCALE as nat) as int,
                MAX_REWARD_FACTOR as int * u64::MAX as int * FACTOR_SCALE as int,
                GROWTH_SCALE as int,
                GROWTH_SCALE as int,
            );
        }
        base + (reward_factors.jackpot_percentage as u128) * (accumulated_prize_pool as u128) * (
        FACTOR_SCALE as u128) * (GROWTH_SCALE as u128)
    } else {
        base
    };
    let ghost growth_spec = growth_factor_spec(
        initial_prize_pool as nat,
        accumulated_prize_pool as nat,
        f.max_boost as nat,
        f.curvature as nat,
    );
    assert(raw as nat == prize_raw(
        w,
        t,
        lottery_type,
        accumulated_prize_pool as nat,
        ticket_price as nat,
        f,
        growth_spec,
    ));

    let reward_tokens: u128 = (raw + (PRIZE_RAW_SCALE / 2) as u128) / (PRIZE_RAW_SCALE as u128);
    assert(reward_tokens as nat == rounded_reward(raw as nat));

    let num_tickets = calculate_num_tickets_reward(
        amount_payed,
        ticket_price,
        lottery_type,
        reward_factors.max_boost,
        reward_factors.curvature,
    );
    let ghost nt = num_tickets_spec(
        amount_payed as nat,
        ticket_price as nat,
        lottery_type,
        f.max_boost as nat,
        f.curvature as nat,
    );

    let total_reward: u128 = match reward_tokens.checked_mul(num_tickets as u128) {
        Some(v) => v,
        None => {
            return Ok(u64::MAX);
        },
    };
    if lottery_type == PAY_LOTTERY_TYPE {
        if total_reward > u64::MAX as u128 {
            Ok(u64::MAX)
        } else {
            Ok(total_reward as u64)
        }
    } else {
        let total: u128 = match (amount_payed as u128).checked_add(total_reward) {
            Some(v) => v,
            None => {
                return Ok(u64::MAX);
            },
        };
        if total > u64::MAX as u128 {
            Ok(u64::MAX)
        } else {
            Ok(total as u64)
        }
    }
}

} // verus!
