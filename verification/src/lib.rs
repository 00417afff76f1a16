//! A time-boxed, commit-reveal card lottery with a continuously growing prize
//! pool, settled through program-controlled escrow vaults, plus companion
//! vesting flows (treasury cliff, airdrop) that reuse the same custody
//! primitive.
//!
//! The storage substrate that persists entity state, the token ledger that
//! moves balances, and the randomness oracle are external collaborators: they
//! enter every operation as plain values (the current time, an account key, a
//! vault balance, revealed random bytes), and every operation returns the
//! transfer it wants performed as a plain amount. All monetary arithmetic is
//! exact integer arithmetic over documented fixed-point scales; results are
//! rounded once, at the end of a computation.

pub mod errors;
pub mod constants;
pub mod keys;
pub mod escrow;
pub mod codec;
pub mod randomness;
pub mod growth;
pub mod reward;
pub mod lottery;
pub mod authority;
pub mod airdrop;
pub mod cliff;
pub mod protocol;
