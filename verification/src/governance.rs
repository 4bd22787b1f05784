//! The proposal and vote ledger: proposals that are voted on during a
//! window, pass by threshold and majority, and are executed at most once
//! after a delay.

use vstd::prelude::*;
use vstd::utf8::encode_utf8;
use crate::errors::ErrorCode;
use crate::keys::Pubkey;

verus! {

/// Most bytes that a stored proposal holds of its title.
pub const MAX_TITLE_LEN: usize = 100;

/// Most bytes that a stored proposal holds of its description.
pub const MAX_DESCRIPTION_LEN: usize = 500;

/// The rules that all proposals are held to, and the count of proposals
/// made so far.
#[derive(Clone, Copy, Debug, PartialEq, Eq)]
pub struct Governance {
    pub authority: Pubkey,
    pub proposal_count: u64,
    /// Least weight in favour that a proposal needs to pass.
    pub min_threshold: u64,
    /// Seconds a proposal is open for votes.
    pub voting_period: i64,
    /// Seconds between the end of the vote and the earliest execution.
    pub execution_delay: i64,
    pub bump: u8,
}

impl Governance {
    /// Size of a stored governance record.
    pub const LEN: usize = 32 + 8 + 8 + 8 + 8 + 1;

    /// The record after one more proposal was made.
    pub open spec fn counted(self) -> Governance {
        Governance { proposal_count: (self.proposal_count + 1) as u64, ..self }
    }
}

/// Which way a vote goes.
#[derive(Clone, Copy, Debug, PartialEq, Eq, Structural)]
pub enum VoteType {
    For,
    Against,
}

/// Where a proposal stands at a given time.
#[derive(Clone, Copy, Debug, PartialEq, Eq, Structural)]
pub enum ProposalState {
    /// Before the voting window.
    Pending,
    /// Within the voting window.
    Open,
    /// Closed without the threshold or without a majority.
    Rejected,
    /// Closed with threshold and majority, the execution delay still running.
    Passed,
    /// Passed, and the execution delay has run out.
    Executable,
    /// Executed; nothing follows.
    Executed,
}

/// A proposal with its tallies and its voting window.
#[derive(Clone, Debug, PartialEq, Eq)]
pub struct Proposal {
    pub id: u64,
    pub proposer: Pubkey,
    pub title: String,
    pub description: String,
    pub votes_for: u64,
    pub votes_against: u64,
    pub start_time: i64,
    pub end_time: i64,
    pub executed: bool,
    pub bump: u8,
}

impl Proposal {
    /// Size of a stored proposal record.
    pub const LEN: usize = 8 + 32 + 100 + 500 + 8 + 8 + 8 + 8 + 1 + 1;

    /// Title and description fit the stored record.
    pub open spec fn wf(&self) -> bool {
        &&& encode_utf8(self.title@).len() <= MAX_TITLE_LEN
        &&& encode_utf8(self.description@).len() <= MAX_DESCRIPTION_LEN
    }

    /// Votes are taken from the start time up to, not including, the end
    /// time, and never on an executed proposal.
    pub open spec fn is_open(&self, now: i64) -> bool {
        !self.executed && self.start_time <= now < self.end_time
    }

    /// A proposal passes with at least the threshold in favour and more in
    /// favour than against.
    pub open spec fn has_passed(&self, governance: Governance) -> bool {
        self.votes_for >= governance.min_threshold && self.votes_for > self.votes_against
    }

    /// Where the proposal stands at `now`.
    pub open spec fn state(&self, governance: Governance, now: i64) -> ProposalState {
        if self.executed {
            ProposalState::Executed
        } else if now < self.start_time {
            ProposalState::Pending
        } else if now < self.end_time {
            ProposalState::Open
        } else if !self.has_passed(governance) {
            ProposalState::Rejected
        } else if now < self.end_time + governance.execution_delay {
            ProposalState::Passed
        } else {
            ProposalState::Executable
        }
    }

    /// The proposal after a vote of `weight` was added to one tally.
    pub open spec fn tallied(self, vote_type: VoteType, weight: u64) -> Proposal {
        match vote_type {
            VoteType::For => Proposal { votes_for: (self.votes_for + weight) as u64, ..self },
            VoteType::Against => Proposal {
                votes_against: (self.votes_against + weight) as u64,
                ..self
            },
        }
    }

    /// The tally that a vote of the given kind goes to.
    pub open spec fn tally(self, vote_type: VoteType) -> u64 {
        match vote_type {
            VoteType::For => self.votes_for,
            VoteType::Against => self.votes_against,
        }
    }

    /// The proposal once executed.
    pub open spec fn marked_executed(self) -> Proposal {
        Proposal { executed: true, ..self }
    }
}

/// The record of one voter's vote on one proposal. There is at most one for
/// each voter and proposal, and it never changes.
#[derive(Clone, Copy, Debug, PartialEq, Eq)]
pub struct Vote {
    pub voter: Pubkey,
    /// The address of the proposal voted on.
    pub proposal: Pubkey,
    pub vote_type: VoteType,
    pub weight: u64,
    pub bump: u8,
}

impl Vote {
    /// Size of a stored vote record.
    pub const LEN: usize = 32 + 32 + 1 + 8 + 1;
}

/// The proposal that is created at `now` under the given rules: numbered by
/// the count of proposals so far, open from now for the voting period, with
/// empty tallies.
pub open spec fn new_proposal(
    governance: Governance,
    proposer: Pubkey,
    title: String,
    description: String,
    now: i64,
    bump: u8,
) -> Proposal {
    Proposal {
        id: governance.proposal_count,
        proposer,
        title,
        description,
        votes_for: 0,
        votes_against: 0,
        start_time: now,
        end_time: (now + governance.voting_period) as i64,
        executed: false,
        bump,
    }
}

/// Creates a proposal at `now` and counts it. Title and description must
/// fit the stored record; the end time and the count must fit their 64
/// bits.
pub fn create_proposal(
    governance: &mut Governance,
    proposer: Pubkey,
    title: String,
    description: String,
    now: i64,
    bump: u8,
) -> (proposal: Proposal)
    requires
        encode_utf8(title@).len() <= MAX_TITLE_LEN,
        encode_utf8(description@).len() <= MAX_DESCRIPTION_LEN,
        old(governance).proposal_count < u64::MAX,
        i64::MIN <= now + old(governance).voting_period <= i64::MAX,
    ensures
        proposal == new_proposal(*old(governance), proposer, title, description, now, bump),
        proposal.wf(),
        proposal.is_open(now) <==> old(governance).voting_period > 0,
        *final(governance) == old(governance).counted(),
{
    let proposal = Proposal {
        id: governance.proposal_count,
        proposer,
        title,
        description,
        votes_for: 0,
        votes_against: 0,
        start_time: now,
        end_time: now + governance.voting_period,
        executed: false,
        bump,
    };
    governance.proposal_count = governance.proposal_count + 1;
    proposal
}

/// Computes [`Proposal::state`].
pub fn proposal_state(proposal: &Proposal, governance: &Governance, now: i64) -> (state:
    ProposalState)
    ensures
        state == proposal.state(*governance, now),
{
    if proposal.executed {
        ProposalState::Executed
    } else if now < proposal.start_time {
        ProposalState::Pending
    } else if now < proposal.end_time {
        ProposalState::Open
    } else if proposal.votes_for < governance.min_threshold || proposal.votes_for
        <= proposal.votes_against {
        ProposalState::Rejected
    } else if (now as i128) < proposal.end_time as i128 + governance.execution_delay as i128 {
        ProposalState::Passed
    } else {
        ProposalState::Executable
    }
}

/// Whether a vote at `now` is taken: the proposal must be open, and the
/// voter must not have a vote on it yet.
pub open spec fn vote_result(proposal: Proposal, existing: Option<Vote>, now: i64) -> Result<
    (),
    ErrorCode,
> {
    if !proposal.is_open(now) {
        Err(ErrorCode::ProposalNotOpen)
    } else if existing is Some {
        Err(ErrorCode::AlreadyVoted)
    } else {
        Ok(())
    }
}

/// Casts the vote of `voter` on the proposal stored at `proposal_key`.
/// `vote` is the place of the one record that this voter can have on this
/// proposal: empty before the first vote, filled by it, and never written
/// again. A vote that is taken adds its weight to one tally, which must fit
/// its 64 bits. A vote that is refused changes nothing.
pub fn cast_vote(
    proposal: &mut Proposal,
    vote: &mut Option<Vote>,
    voter: Pubkey,
    proposal_key: Pubkey,
    vote_type: VoteType,
    weight: u64,
    now: i64,
    bump: u8,
) -> (result: Result<(), ErrorCode>)
    requires
        vote_result(*old(proposal), *old(vote), now) is Ok ==> old(proposal).tally(vote_type)
            + weight <= u64::MAX,
    ensures
        result == vote_result(*old(proposal), *old(vote), now),
        result is Err ==> *final(proposal) == *old(proposal) && *final(vote) == *old(vote),
        result is Ok ==> *final(proposal) == old(proposal).tallied(vote_type, weight),
        result is Ok ==> *final(vote) == Some(
            Vote { voter, proposal: proposal_key, vote_type, weight, bump },
        ),
{
    if proposal.executed || now < proposal.start_time || now >= proposal.end_time {
        return Err(ErrorCode::ProposalNotOpen);
    }
    if vote.is_some() {
        return Err(ErrorCode::AlreadyVoted);
    }
    match vote_type {
        VoteType::For => {
            proposal.votes_for = proposal.votes_for + weight;
        },
        VoteType::Against => {
            proposal.votes_against = proposal.votes_against + weight;
        },
    }
    *vote = Some(Vote { voter, proposal: proposal_key, vote_type, weight, bump });
    Ok(())
}

/// Whether an execution at `now` is due: never twice, and only of a
/// proposal that is executable.
pub open spec fn execute_result(proposal: Proposal, governance: Governance, now: i64) -> Result<
    (),
    ErrorCode,
> {
    if proposal.executed {
        Err(ErrorCode::AlreadyExecuted)
    } else if proposal.state(governance, now) != ProposalState::Executable {
        Err(ErrorCode::ProposalNotExecutable)
    } else {
        Ok(())
    }
}

/// Marks a proposal as executed. On success the caller carries out what the
/// proposal asks for. A refused execution changes nothing.
pub fn execute_proposal(proposal: &mut Proposal, governance: &Governance, now: i64) -> (result:
    Result<(), ErrorCode>)
    ensures
        result == execute_result(*old(proposal), *governance, now),
        result is Ok ==> *final(proposal) == old(proposal).marked_executed(),
        result is Err ==> *final(proposal) == *old(proposal),
{
    if proposal.executed {
        return Err(ErrorCode::AlreadyExecuted);
    }
    let state = proposal_state(proposal, governance, now);
    if state != ProposalState::Executable {
        return Err(ErrorCode::ProposalNotExecutable);
    }
    proposal.executed = true;
    Ok(())
}

/// A proposal is executed at most once: after an execution that succeeded,
/// every further one is refused with `AlreadyExecuted`, at whatever time
/// and under whatever rules.
pub proof fn lemma_executed_at_most_once(
    proposal: Proposal,
    governance: Governance,
    now: i64,
    later_rules: Governance,
    later: i64,
)
    requires
        execute_result(proposal, governance, now) is Ok,
    ensures
        proposal.marked_executed().state(later_rules, later) == ProposalState::Executed,
        execute_result(proposal.marked_executed(), later_rules, later) == Err::<(), ErrorCode>(
            ErrorCode::AlreadyExecuted,
        ),
{
}

/// A proposal that is not executed is executable exactly from the end of
/// its delay on, if it has the threshold and the majority.
pub proof fn lemma_executable_when(proposal: Proposal, governance: Governance, now: i64)
    requires
        proposal.start_time <= proposal.end_time,
        governance.execution_delay >= 0,
    ensures
        proposal.state(governance, now) == ProposalState::Executable <==> {
            &&& !proposal.executed
            &&& proposal.has_passed(governance)
            &&& now >= proposal.end_time + governance.execution_delay
        },
{
}

} // verus!
