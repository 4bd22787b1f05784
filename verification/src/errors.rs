//! Why an operation of the ledger is refused.

use vstd::prelude::*;

verus! {

/// Every refusal is decided before any state changes: an operation that
/// returns an error leaves all records as they were.
#[derive(Clone, Copy, Debug, PartialEq, Eq, Structural)]
pub enum ErrorCode {
    /// Capacity exceeded: a mint would reserve more than the total supply
    /// allows.
    ExceedsTotalSupply,
    /// Nothing to claim: nothing has vested beyond what was already claimed.
    NoTokensToClaim,
    /// Invalid amount: a stake of zero tokens.
    InvalidAmount,
    /// Duration too short: a stake for less than the pool's minimum duration.
    InsufficientStakeDuration,
    /// Not yet unlocked: an unstake before the stake's unlock time.
    StakingPeriodNotEnded,
    /// Supply underflow: a burn of more than the circulating supply.
    SupplyUnderflow,
    /// A vote outside the proposal's voting window.
    ProposalNotOpen,
    /// A second vote by the same voter on the same proposal.
    AlreadyVoted,
    /// An execution of a proposal that did not pass, or before its
    /// execution delay has run out.
    ProposalNotExecutable,
    /// An execution of a proposal that was executed before.
    AlreadyExecuted,
}

impl ErrorCode {
    /// The text shown for each error.
    pub open spec fn message_text(self) -> Seq<char> {
        match self {
            ErrorCode::ExceedsTotalSupply => "Amount exceeds total supply"@,
            ErrorCode::NoTokensToClaim => "No tokens to claim"@,
            ErrorCode::InvalidAmount => "Invalid amount"@,
            ErrorCode::InsufficientStakeDuration => "Insufficient stake duration"@,
            ErrorCode::StakingPeriodNotEnded => "Staking period has not ended"@,
            ErrorCode::SupplyUnderflow => "Amount exceeds circulating supply"@,
            ErrorCode::ProposalNotOpen => "Proposal is not open for voting"@,
            ErrorCode::AlreadyVoted => "Voter has already voted on this proposal"@,
            ErrorCode::ProposalNotExecutable => "Proposal is not executable"@,
            ErrorCode::AlreadyExecuted => "Proposal has already been executed"@,
        }
    }

    /// The text shown for this error.
    pub fn message(&self) -> (text: &'static str)
        ensures
            text@ == self.message_text(),
    {
        match self {
            ErrorCode::ExceedsTotalSupply => "Amount exceeds total supply",
            ErrorCode::NoTokensToClaim => "No tokens to claim",
            ErrorCode::InvalidAmount => "Invalid amount",
            ErrorCode::InsufficientStakeDuration => "Insufficient stake duration",
            ErrorCode::StakingPeriodNotEnded => "Staking period has not ended",
            ErrorCode::SupplyUnderflow => "Amount exceeds circulating supply",
            ErrorCode::ProposalNotOpen => "Proposal is not open for voting",
            ErrorCode::AlreadyVoted => "Voter has already voted on this proposal",
            ErrorCode::ProposalNotExecutable => "Proposal is not executable",
            ErrorCode::AlreadyExecuted => "Proposal has already been executed",
        }
    }
}

} // verus!
