//! Records kept together: the votes of a governance ledger, so that each
//! voter has at most one vote on each proposal, and the open stakes of a
//! pool, so that the pool's total is their sum.

use vstd::prelude::*;
use crate::errors::ErrorCode;
use crate::governance::{cast_vote, vote_result, Proposal, Vote, VoteType};
use crate::keys::Pubkey;
use crate::staking::{
    initialize_staking, pool_after_stake, pool_after_unstake, stake_result, stake_tokens,
    unstake_result, unstake_tokens, StakeAccount, StakingPool, Unstaked,
};

verus! {

/// No two records are by the same voter on the same proposal.
pub open spec fn one_vote_each(votes: Seq<Vote>) -> bool {
    forall|i: int, j: int|
        0 <= i < j < votes.len() ==> !(votes[i].voter == votes[j].voter && votes[i].proposal
            == votes[j].proposal)
}

/// Some record is by `voter` on the proposal at `proposal_key`.
pub open spec fn has_voted(votes: Seq<Vote>, voter: Pubkey, proposal_key: Pubkey) -> bool {
    exists|i: int|
        0 <= i < votes.len() && votes[i].voter == voter && votes[i].proposal == proposal_key
}

/// The record that `voter` has on the proposal at `proposal_key`, if any.
pub open spec fn recorded_vote(votes: Seq<Vote>, voter: Pubkey, proposal_key: Pubkey) -> Option<
    Vote,
> {
    if has_voted(votes, voter, proposal_key) {
        Some(
            votes[choose|i: int|
                0 <= i < votes.len() && votes[i].voter == voter && votes[i].proposal
                    == proposal_key],
        )
    } else {
        None
    }
}

/// All votes cast so far, in the order they were cast.
pub struct VoteRegistry {
    votes: Vec<Vote>,
}

impl View for VoteRegistry {
    type V = Seq<Vote>;

    closed spec fn view(&self) -> Seq<Vote> {
        self.votes@
    }
}

impl VoteRegistry {
    /// Each voter has at most one record on each proposal.
    pub open spec fn wf(&self) -> bool {
        one_vote_each(self@)
    }

    /// A registry without votes.
    pub fn new() -> (registry: VoteRegistry)
        ensures
            registry@ == Seq::<Vote>::empty(),
            registry.wf(),
    {
        VoteRegistry { votes: Vec::new() }
    }

    /// How many votes were cast.
    pub fn len(&self) -> (n: usize)
        ensures
            n == self@.len(),
    {
        self.votes.len()
    }

    /// The vote that was cast as number `index`, counting from zero.
    pub fn get(&self, index: usize) -> (vote: Option<Vote>)
        ensures
            vote == if index < self@.len() {
                Some(self@[index as int])
            } else {
                None
            },
    {
        if index < self.votes.len() {
            Some(self.votes[index])
        } else {
            None
        }
    }

    /// The record that `voter` has on the proposal at `proposal_key`, if
    /// any.
    pub fn find(&self, voter: &Pubkey, proposal_key: &Pubkey) -> (found: Option<Vote>)
        ensures
            found is Some <==> has_voted(self@, *voter, *proposal_key),
            found matches Some(vote) ==> self@.contains(vote) && vote.voter == *voter
                && vote.proposal == *proposal_key,
            self.wf() ==> found == recorded_vote(self@, *voter, *proposal_key),
    {
        let mut i: usize = 0;
        while i < self.votes.len()
            invariant
                i <= self.votes.len(),
                forall|k: int|
                    0 <= k < i ==> !(self.votes@[k].voter == *voter && self.votes@[k].proposal
                        == *proposal_key),
            decreases self.votes.len() - i,
        {
            let vote = self.votes[i];
            if vote.voter == *voter && vote.proposal == *proposal_key {
                proof {
                    lemma_recorded_vote_is_unique(self@, i as int);
                }
                return Some(vote);
            }
            i += 1;
        }
        None
    }

    /// Casts a vote as [`cast_vote`] does, with the voter's place looked up
    /// in the registry: a voter with a record on the proposal is refused
    /// with `AlreadyVoted`, and a vote that is taken is recorded after all
    /// earlier ones. No record is ever changed or removed.
    pub fn cast_vote(
        &mut self,
        proposal: &mut Proposal,
        voter: Pubkey,
        proposal_key: Pubkey,
        vote_type: VoteType,
        weight: u64,
        now: i64,
        bump: u8,
    ) -> (result: Result<(), ErrorCode>)
        requires
            old(self).wf(),
            old(proposal).is_open(now) && !has_voted(old(self)@, voter, proposal_key) ==> old(
                proposal,
            ).tally(vote_type) + weight <= u64::MAX,
        ensures
            result == vote_result(
                *old(proposal),
                recorded_vote(old(self)@, voter, proposal_key),
                now,
            ),
            result is Err ==> *final(proposal) == *old(proposal) && final(self)@ == old(self)@,
            result is Ok ==> *final(proposal) == old(proposal).tallied(vote_type, weight),
            result is Ok ==> final(self)@ == old(self)@.push(
                Vote { voter, proposal: proposal_key, vote_type, weight, bump },
            ),
            final(self).wf(),
    {
        let mut place = self.find(&voter, &proposal_key);
        let result = cast_vote(
            proposal,
            &mut place,
            voter,
            proposal_key,
            vote_type,
            weight,
            now,
            bump,
        );
        if let Some(vote) = place {
            if result.is_ok() {
                proof {
                    lemma_first_vote_keeps_one_each(self@, vote);
                }
                self.votes.push(vote);
            }
        }
        result
    }
}

/// In a registry with one vote each, the record found for a voter and a
/// proposal is the only one, so it is the one that [`recorded_vote`] names.
proof fn lemma_recorded_vote_is_unique(votes: Seq<Vote>, i: int)
    requires
        0 <= i < votes.len(),
    ensures
        has_voted(votes, votes[i].voter, votes[i].proposal),
        votes.contains(votes[i]),
        one_vote_each(votes) ==> recorded_vote(votes, votes[i].voter, votes[i].proposal) == Some(
            votes[i],
        ),
{
    let voter = votes[i].voter;
    let proposal_key = votes[i].proposal;
    assert(has_voted(votes, voter, proposal_key));
    if one_vote_each(votes) {
        let j = choose|j: int|
            0 <= j < votes.len() && votes[j].voter == voter && votes[j].proposal == proposal_key;
        assert(i == j);
    }
}

/// Recording the first vote of a voter on a proposal keeps one vote each.
proof fn lemma_first_vote_keeps_one_each(votes: Seq<Vote>, vote: Vote)
    requires
        one_vote_each(votes),
        !has_voted(votes, vote.voter, vote.proposal),
    ensures
        one_vote_each(votes.push(vote)),
{
    let after = votes.push(vote);
    assert forall|i: int, j: int| 0 <= i < j < after.len() implies !(after[i].voter
        == after[j].voter && after[i].proposal == after[j].proposal) by {
        if j == votes.len() {
            assert(after[i] == votes[i]);
        } else {
            assert(after[i] == votes[i] && after[j] == votes[j]);
        }
    }
}

/// Each voter has at most one vote on each proposal: two records of a
/// registry by the same voter on the same proposal are one and the same
/// record.
pub proof fn lemma_at_most_one_vote(registry: VoteRegistry, i: int, j: int)
    requires
        registry.wf(),
        0 <= i < registry@.len(),
        0 <= j < registry@.len(),
        registry@[i].voter == registry@[j].voter,
        registry@[i].proposal == registry@[j].proposal,
    ensures
        i == j,
{
}

/// A second vote by the same voter on the same proposal is refused: once a
/// vote was taken and recorded, every further one by that voter on that
/// proposal, of whatever kind and weight and at whatever time within the
/// voting window, returns `AlreadyVoted`.
pub proof fn lemma_second_vote_is_refused(
    votes: Seq<Vote>,
    first: Vote,
    later_proposal: Proposal,
    later: i64,
)
    requires
        one_vote_each(votes),
        !has_voted(votes, first.voter, first.proposal),
        later_proposal.is_open(later),
    ensures
        one_vote_each(votes.push(first)),
        vote_result(
            later_proposal,
            recorded_vote(votes.push(first), first.voter, first.proposal),
            later,
        ) == Err::<(), ErrorCode>(ErrorCode::AlreadyVoted),
{
    lemma_first_vote_keeps_one_each(votes, first);
    let after = votes.push(first);
    assert(after[votes.len() as int] == first);
    assert(has_voted(after, first.voter, first.proposal));
}

/// The sum of the amounts of the given stakes.
pub open spec fn total_amount(stakes: Seq<StakeAccount>) -> int
    decreases stakes.len(),
{
    if stakes.len() == 0 {
        0
    } else {
        total_amount(stakes.drop_last()) + stakes.last().amount
    }
}

/// What a [`StakeRegistry`] holds.
pub struct StakeRegistryView {
    pub pool: StakingPool,
    pub stakes: Seq<StakeAccount>,
}

/// A pool together with its open stakes, in the order they were made. A
/// stake is added by [`StakeRegistry::stake`] and leaves with the unstake
/// that succeeds on it.
pub struct StakeRegistry {
    pool: StakingPool,
    stakes: Vec<StakeAccount>,
}

impl View for StakeRegistry {
    type V = StakeRegistryView;

    closed spec fn view(&self) -> StakeRegistryView {
        StakeRegistryView { pool: self.pool, stakes: self.stakes@ }
    }
}

impl StakeRegistry {
    /// The pool's total is the sum of the open stakes, none of which is
    /// empty or locked for less than the pool's minimum.
    pub open spec fn wf(&self) -> bool {
        &&& self@.pool.total_staked == total_amount(self@.stakes)
        &&& forall|i: int|
            0 <= i < self@.stakes.len() ==> {
                &&& (#[trigger] self@.stakes[i]).amount > 0
                &&& self@.stakes[i].unlock_time - self@.stakes[i].stake_time
                    >= self@.pool.min_stake_duration
            }
    }

    /// A new pool without stakes.
    pub fn new(authority: Pubkey, apy_percentage: u16, min_stake_duration: i64, bump: u8) -> (registry:
        StakeRegistry)
        ensures
            registry@.pool == (StakingPool {
                authority,
                apy_percentage,
                min_stake_duration,
                total_staked: 0,
                bump,
            }),
            registry@.stakes == Seq::<StakeAccount>::empty(),
            registry.wf(),
    {
        StakeRegistry {
            pool: initialize_staking(authority, apy_percentage, min_stake_duration, bump),
            stakes: Vec::new(),
        }
    }

    /// The pool as it stands.
    pub fn pool(&self) -> (pool: StakingPool)
        ensures
            pool == self@.pool,
    {
        self.pool
    }

    /// How many stakes are open.
    pub fn len(&self) -> (n: usize)
        ensures
            n == self@.stakes.len(),
    {
        self.stakes.len()
    }

    /// The open stake at `index`, counting from zero.
    pub fn get(&self, index: usize) -> (stake_account: Option<StakeAccount>)
        ensures
            stake_account == if index < self@.stakes.len() {
                Some(self@.stakes[index as int])
            } else {
                None
            },
    {
        if index < self.stakes.len() {
            Some(self.stakes[index])
        } else {
            None
        }
    }

    /// Where the oldest open stake of `user` is, if the user has any.
    pub fn find(&self, user: &Pubkey) -> (found: Option<usize>)
        ensures
            match found {
                Some(index) => {
                    &&& index < self@.stakes.len()
                    &&& self@.stakes[index as int].user == *user
                    &&& forall|k: int| 0 <= k < index ==> self@.stakes[k].user != *user
                },
                None => forall|k: int| 0 <= k < self@.stakes.len() ==> self@.stakes[k].user != *user,
            },
    {
        let mut i: usize = 0;
        while i < self.stakes.len()
            invariant
                i <= self.stakes.len(),
                forall|k: int| 0 <= k < i ==> self.stakes@[k].user != *user,
            decreases self.stakes.len() - i,
        {
            if self.stakes[i].user == *user {
                return Some(i);
            }
            i += 1;
        }
        None
    }

    /// Stakes as [`stake_tokens`] does and keeps the new stake after all
    /// earlier ones. A stake that is refused changes nothing.
    pub fn stake(&mut self, user: Pubkey, amount: u64, duration: i64, now: i64, bump: u8) -> (result:
        Result<(), ErrorCode>)
        requires
            old(self).wf(),
            amount > 0 && duration >= old(self)@.pool.min_stake_duration ==> {
                &&& i64::MIN <= now + duration <= i64::MAX
                &&& old(self)@.pool.total_staked + amount <= u64::MAX
            },
        ensures
            final(self).wf(),
            final(self)@.pool == pool_after_stake(old(self)@.pool, amount, duration),
            match stake_result(old(self)@.pool, user, amount, duration, now, bump) {
                Ok(stake_account) => result is Ok && final(self)@.stakes == old(
                    self,
                )@.stakes.push(stake_account),
                Err(error) => result == Err::<(), ErrorCode>(error) && final(self)@.stakes == old(
                    self,
                )@.stakes,
            },
    {
        match stake_tokens(&mut self.pool, user, amount, duration, now, bump) {
            Ok(stake_account) => {
                proof {
                    lemma_total_amount_push(self.stakes@, stake_account);
                }
                self.stakes.push(stake_account);
                Ok(())
            },
            Err(error) => Err(error),
        }
    }

    /// Unstakes the stake at `index` as [`unstake_tokens`] does. A stake
    /// that is paid out leaves the registry, and those after it move up by
    /// one; an unstake that is refused changes nothing.
    pub fn unstake(&mut self, index: usize, now: i64) -> (result: Result<Unstaked, ErrorCode>)
        requires
            old(self).wf(),
            index < old(self)@.stakes.len(),
        ensures
            final(self).wf(),
            result == unstake_result(old(self)@.pool, old(self)@.stakes[index as int], now),
            final(self)@.pool == pool_after_unstake(
                old(self)@.pool,
                old(self)@.stakes[index as int],
                now,
            ),
            result is Ok ==> final(self)@.stakes == old(self)@.stakes.remove(index as int),
            result is Err ==> final(self)@.stakes == old(self)@.stakes,
    {
        let stake_account = self.stakes[index];
        proof {
            lemma_total_amount_remove(self.stakes@, index as int);
        }
        let result = unstake_tokens(&mut self.pool, &stake_account, now);
        if result.is_ok() {
            self.stakes.remove(index);
        }
        result
    }
}

/// A stake that is added raises the sum by its amount.
proof fn lemma_total_amount_push(stakes: Seq<StakeAccount>, added: StakeAccount)
    ensures
        total_amount(stakes.push(added)) == total_amount(stakes) + added.amount,
{
    assert(stakes.push(added).drop_last() == stakes);
}

/// A stake that is removed lowers the sum by its amount, and no stake is
/// more than the sum.
proof fn lemma_total_amount_remove(stakes: Seq<StakeAccount>, index: int)
    requires
        0 <= index < stakes.len(),
    ensures
        total_amount(stakes.remove(index)) == total_amount(stakes) - stakes[index].amount,
        0 <= total_amount(stakes.remove(index)),
    decreases stakes.len(),
{
    if index == stakes.len() - 1 {
        assert(stakes.remove(index) == stakes.drop_last());
        lemma_total_amount_is_not_negative(stakes.drop_last());
    } else {
        lemma_total_amount_remove(stakes.drop_last(), index);
        assert(stakes.remove(index).drop_last() == stakes.drop_last().remove(index));
        assert(stakes.remove(index).last() == stakes.last());
    }
}

/// A sum of amounts is not negative.
proof fn lemma_total_amount_is_not_negative(stakes: Seq<StakeAccount>)
    ensures
        0 <= total_amount(stakes),
    decreases stakes.len(),
{
    if stakes.len() > 0 {
        lemma_total_amount_is_not_negative(stakes.drop_last());
    }
}

} // verus!
