//! A token ledger with proved bookkeeping.
//!
//! - [`supply`]: the total, circulating and burned counters of a token, and
//!   the allocations that vest into circulation by the schedules of
//!   [`schedule`].
//! - [`staking`]: a pool of locked stakes and the reward they earn.
//! - [`governance`]: proposals, their tallies and the one execution that a
//!   passed proposal gets.
//! - [`registry`]: votes and stakes kept together, with what holds of them
//!   as a whole.
//!
//! Every operation takes the time as an argument, decides before it changes
//! anything, and leaves moving tokens to its caller: a refused operation
//! leaves every record as it was, and an accepted one says in its result
//! what is to be minted or moved.

pub mod errors;
pub mod governance;
pub mod keys;
pub mod math;
pub mod registry;
pub mod schedule;
pub mod staking;
pub mod supply;

pub use errors::ErrorCode;
pub use governance::{
    cast_vote, create_proposal, execute_proposal, proposal_state, Governance, Proposal,
    ProposalState, Vote, VoteType,
};
pub use keys::Pubkey;
pub use registry::{StakeRegistry, VoteRegistry};
pub use schedule::{get_cliff_duration, get_tge_unlock, get_vesting_duration, AllocationType};
pub use staking::{
    calculate_staking_rewards, initialize_staking, stake_tokens, unstake_tokens, StakeAccount,
    StakingPool, Unstaked,
};
pub use supply::{
    burn_tokens, calculate_claimable_amount, claim_vested_tokens, initialize_token, mint_tokens,
    TokenAllocation, TokenData,
};
