//! Protocol-wide constants: vault funding, vesting cadence, lottery rules,
//! and the fixed-point scales of the reward arithmetic.

use vstd::prelude::*;

verus! {

/// Tokens contributed to the treasury vault when it is initialized.
pub const TREASURY_INITIAL_AMOUNT: u64 = 300_000_000;

/// Six months, in seconds.
pub const SIX_MONTHS: i64 = 15_768_000;

/// How many cliff transfers may be performed per period.
pub const SIX_MONTHS_TRANSFERS_PER_PERIOD: u64 = 2;

/// Tokens released by one cliff transfer.
pub const SIX_MONTH_CLIFF_AMOUNT: u64 = 50_000_000;

/// A combination encodes four cards as eight characters.
pub const COMBINATION_LENGTH: usize = 8;

/// Lottery type whose tickets are bought in multiples of the unit price.
pub const PAY_LOTTERY_TYPE: u8 = 0;

/// Lottery type whose tickets lock at least the minimum amount.
pub const LOCK_LOTTERY_TYPE: u8 = 1;

/// Cool-down after the end datetime before a lottery may be closed: ten days,
/// in seconds.
pub const LOTTERY_CLOSE_TIME_BUFFER: i64 = 10 * 24 * 60 * 60;

/// Reward factors, the pool-growth boost, the curvature and the lock divider
/// are fixed-point numbers in hundredths: a stored `100` means `1.00`.
pub const FACTOR_SCALE: u64 = 100;

/// Growth factors are fixed-point numbers in millionths: `1_000_000` means a
/// multiplier of `1.0`.
pub const GROWTH_SCALE: u64 = 1_000_000;

/// Scale of the internal pool ratio and of its fractional powers.
pub const POW_SCALE: u64 = 4_294_967_296;

/// Largest admitted reward factor (a `1000.00` multiplier), in hundredths.
/// Keeps every intermediate prize product inside 128 bits.
pub const MAX_REWARD_FACTOR: u64 = 100_000;

/// Largest admitted pool-growth boost (`100.00`), in hundredths.
pub const MAX_BOOST_LIMIT: u64 = 10_000;

/// Largest admitted curvature exponent (`100.00`), in hundredths.
pub const MAX_CURVATURE: u64 = 10_000;

/// Initial reward factor for a full (suit and value) match, in hundredths.
pub const INITIAL_REWARD_FULL_MATCH: u64 = 100;

/// Initial reward factor for a suit-only match, in hundredths.
pub const INITIAL_REWARD_SUIT_MATCH: u64 = 30;

/// Initial reward factor for a value-only match, in hundredths.
pub const INITIAL_REWARD_VALUE_MATCH: u64 = 50;

/// Initial share of the pool paid on an exact match (`0.20`), in hundredths.
pub const INITIAL_JACKPOT_PERCENTAGE: u64 = 20;

/// Initial cap of the pool-growth boost (`0.55`), in hundredths.
pub const INITIAL_MAX_BOOST: u64 = 55;

/// Initial curvature of the pool-growth curve (`0.90`), in hundredths.
pub const INITIAL_CURVATURE: u64 = 90;

/// Initial divisor normalizing lock-type ticket economics (`50.00`), in
/// hundredths.
pub const INITIAL_LOCK_DIVIDER: u64 = 5_000;

} // verus!
