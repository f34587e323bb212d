//! The ways in which an operation of the engine fails.

use vstd::prelude::*;

verus! {

/// The rule that refused a request.
#[derive(Clone, Copy, Debug, PartialEq, Eq, Structural)]
pub enum ErrorCode {
    /// An amount left the range of its counter.
    MathOverflow,
    /// The token was launched before.
    AlreadyLaunched,
    /// The collected funds are below the launch threshold.
    ThresholdNotMet,
    /// The cost or boost of a comment is below the minimum.
    InsufficientCost,
    /// The stake is below the minimum.
    InsufficientStake,
    /// The keyword takes no stakes: it is locked or eliminated.
    KeywordLockedOrEliminated,
    /// The keyword is locked and cannot be eliminated.
    KeywordLocked,
    /// The keyword is eliminated and cannot be locked.
    KeywordEliminated,
    /// The reward interval has not passed since the last distribution.
    RewardNotReady,
    /// Nothing is staked on the keyword.
    NoStakes,
    /// No keyword vault was named.
    NoKeywordVaultsProvided,
    /// A keyword vault was named by an index that does not exist.
    InvalidVaultIndex,
}

/// Why an operation did not take place. Whatever the reason, the records it
/// was asked to change are as they were before.
#[derive(Debug, PartialEq, Eq)]
pub enum EngineError {
    /// A rule of the engine refused the request.
    Rule(ErrorCode),
    /// A text is longer than the record that would store it has room for.
    TextTooLong,
    /// The token program refused a transfer or a burn. Its error is passed
    /// on as it came.
    Ledger(anchor_lang::error::Error),
}

} // verus!
