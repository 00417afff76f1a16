//! Typed failures shared by every protocol operation.

use vstd::prelude::*;

verus! {

/// Every guard fails fast with one of these codes and aborts the whole
/// transition; callers branch on the specific kind, never on a generic
/// failure.
#[derive(Clone, Copy, Debug, PartialEq, Eq, Structural)]
pub enum ErrorCode {
    /// The caller does not match the protocol authority.
    InvalidAuthority,
    /// Not enough time has passed since the last cliff transfer.
    NotEnoughTimePassed,
    /// The cliff already performed its maximum number of transfers.
    MaxTransfersPerformed,
    /// The lottery has not started yet.
    LotteryNotStarted,
    /// The lottery is not finished yet.
    LotteryNotFinished,
    /// The lottery is already finished.
    LotteryFinished,
    /// The lottery is closed.
    LotteryClosed,
    /// A combination is not exactly eight characters long.
    InvalidCombinationLength,
    /// A character at an even offset is not a suit symbol.
    InvalidCombinationSuit,
    /// A character at an odd offset is not a value symbol.
    InvalidCombinationValue,
    /// The amount does not fit the lottery type's rule.
    InvalidAmount,
    /// The lottery type is neither pay nor lock.
    InvalidLotteryType,
    /// The start datetime is not before the end datetime.
    InvalidLotteryStartEndDatetime,
    /// The initial prize pool is zero.
    InvalidInitialPrizePool,
    /// The minimum tokens per participant is zero.
    InvalidMinTokensPerParticipant,
    /// Randomness cannot be committed before the lottery ends.
    CantCommitOnNotFinishedLottery,
    /// The randomness request is stale or already revealed.
    RandomnessAlreadyRevealed,
    /// The provided randomness account is not the committed one.
    IncorrectRandomnessAccount,
    /// Randomness cannot be revealed before the lottery ends.
    CantRevealOnNotFinishedLottery,
    /// The winning combination was already set.
    CombinationAlreadySet,
    /// The oracle has not resolved the committed randomness yet.
    RandomnessNotResolved,
    /// The winning combination is not set yet.
    WinningCombinationNotSetYet,
    /// The ticket was already claimed.
    TicketAlreadyClaimed,
    /// The cool-down after the end datetime has not elapsed yet.
    LotteryNotReadyToBeClosed,
    /// Scaling an amount to ledger units overflowed.
    ArithmeticOverflow,
    /// The airdrop start datetime is not before its end datetime.
    InvalidAirdropStartEndDatetime,
    /// The airdrop supply is zero or below one claim.
    InvalidAirdropSupply,
    /// The airdrop has not started yet.
    AirdropNotStarted,
    /// The airdrop has ended.
    AirdropEnded,
    /// The airdrop supply cannot cover another claim.
    AirdropSupplyExhausted,
}

impl ErrorCode {
    /// A short stable name for the code, for callers that print failures.
    pub fn name(&self) -> &'static str {
        match self {
            ErrorCode::InvalidAuthority => "invalid authority",
            ErrorCode::NotEnoughTimePassed => "not enough time passed",
            ErrorCode::MaxTransfersPerformed => "max transfers performed",
            ErrorCode::LotteryNotStarted => "lottery not started",
            ErrorCode::LotteryNotFinished => "lottery not finished",
            ErrorCode::LotteryFinished => "lottery finished",
            ErrorCode::LotteryClosed => "lottery closed",
            ErrorCode::InvalidCombinationLength => "invalid combination length",
            ErrorCode::InvalidCombinationSuit => "invalid combination suit",
            ErrorCode::InvalidCombinationValue => "invalid combination value",
            ErrorCode::InvalidAmount => "invalid amount",
            ErrorCode::InvalidLotteryType => "invalid lottery type",
            ErrorCode::InvalidLotteryStartEndDatetime => "invalid lottery start/end datetime",
            ErrorCode::InvalidInitialPrizePool => "invalid initial prize pool",
            ErrorCode::InvalidMinTokensPerParticipant => "invalid min tokens per participant",
            ErrorCode::CantCommitOnNotFinishedLottery => "cannot commit on not finished lottery",
            ErrorCode::RandomnessAlreadyRevealed => "randomness already revealed",
            ErrorCode::IncorrectRandomnessAccount => "incorrect randomness account",
            ErrorCode::CantRevealOnNotFinishedLottery => "cannot reveal on not finished lottery",
            ErrorCode::CombinationAlreadySet => "combination already set",
            ErrorCode::RandomnessNotResolved => "randomness not resolved",
            ErrorCode::WinningCombinationNotSetYet => "winning combination not set yet",
            ErrorCode::TicketAlreadyClaimed => "ticket already claimed",
            ErrorCode::LotteryNotReadyToBeClosed => "lottery not ready to be closed",
            ErrorCode::ArithmeticOverflow => "arithmetic overflow",
            ErrorCode::InvalidAirdropStartEndDatetime => "invalid airdrop start/end datetime",
            ErrorCode::InvalidAirdropSupply => "invalid airdrop supply",
            ErrorCode::AirdropNotStarted => "airdrop not started",
            ErrorCode::AirdropEnded => "airdrop ended",
            ErrorCode::AirdropSupplyExhausted => "airdrop supply exhausted",
        }
    }
}

} // verus!
