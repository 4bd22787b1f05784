//! The staking pool: deposits locked for a time that earn a reward in
//! proportion to the time they stayed.

use vstd::prelude::*;
use vstd::arithmetic::div_mod::lemma_hoist_over_denominator;
use crate::errors::ErrorCode;
use crate::keys::Pubkey;
use crate::math::BPS_DENOMINATOR;

verus! {

/// Seconds in a year of 365.25 days.
pub const SECONDS_PER_YEAR: u64 = 31_557_600;

/// A pool of staked tokens with one yearly rate for all its stakes.
#[derive(Clone, Copy, Debug, PartialEq, Eq)]
pub struct StakingPool {
    pub authority: Pubkey,
    /// Yearly reward in basis points of the staked amount.
    pub apy_percentage: u16,
    /// Shortest lock, in seconds, that the pool accepts.
    pub min_stake_duration: i64,
    /// Sum of the amounts of all open stakes.
    pub total_staked: u64,
    pub bump: u8,
}

impl StakingPool {
    /// Size of a stored pool record.
    pub const LEN: usize = 32 + 2 + 8 + 8 + 1;
}

/// One user's open stake. It is created by a stake and spent by the one
/// unstake that succeeds on it.
#[derive(Clone, Copy, Debug, PartialEq, Eq)]
pub struct StakeAccount {
    pub user: Pubkey,
    pub amount: u64,
    /// When the stake was made, in seconds.
    pub stake_time: i64,
    /// From when on the stake can be withdrawn.
    pub unlock_time: i64,
    pub claimed_rewards: u64,
    pub bump: u8,
}

impl StakeAccount {
    /// Size of a stored stake record.
    pub const LEN: usize = 32 + 8 + 8 + 8 + 8 + 1;
}

/// What a successful unstake pays out: the principal goes back from the
/// pool's vault, the reward is newly minted.
#[derive(Clone, Copy, Debug, PartialEq, Eq)]
pub struct Unstaked {
    pub principal: u64,
    pub reward: u64,
}

/// The reward of a stake of `amount` at `apy_percentage` basis points a year,
/// held from `stake_time` to `current_time`:
/// `amount * apy_percentage * seconds / (10000 * 31557600)`, rounded down by
/// the one division. No time or less yields nothing; a reward beyond 64 bits
/// is cut to the largest 64-bit amount.
pub open spec fn staking_reward(
    amount: u64,
    apy_percentage: u16,
    stake_time: i64,
    current_time: i64,
) -> int {
    let elapsed = current_time - stake_time;
    if elapsed <= 0 {
        0
    } else {
        let exact = (amount * apy_percentage * elapsed) / (BPS_DENOMINATOR * SECONDS_PER_YEAR);
        if exact > u64::MAX {
            u64::MAX as int
        } else {
            exact
        }
    }
}

/// Whether an unstake at `now` is due, and what it pays.
pub open spec fn unstake_result(
    pool: StakingPool,
    stake_account: StakeAccount,
    now: i64,
) -> Result<Unstaked, ErrorCode> {
    if now < stake_account.unlock_time {
        Err(ErrorCode::StakingPeriodNotEnded)
    } else {
        Ok(
            Unstaked {
                principal: stake_account.amount,
                reward: staking_reward(
                    stake_account.amount,
                    pool.apy_percentage,
                    stake_account.stake_time,
                    now,
                ) as u64,
            },
        )
    }
}

/// The pool after an unstake at `now`: without the stake's amount if the
/// unstake was due, unchanged if not.
pub open spec fn pool_after_unstake(
    pool: StakingPool,
    stake_account: StakeAccount,
    now: i64,
) -> StakingPool {
    if now < stake_account.unlock_time {
        pool
    } else {
        StakingPool { total_staked: (pool.total_staked - stake_account.amount) as u64, ..pool }
    }
}

/// Computes [`staking_reward`] in 128 bits: the elapsed time is split into
/// whole multiples of the divisor and a rest, so that no product overflows.
pub fn calculate_staking_rewards(
    amount: u64,
    apy_percentage: u16,
    stake_time: i64,
    current_time: i64,
) -> (reward: u64)
    ensures
        reward == staking_reward(amount, apy_percentage, stake_time, current_time),
{
    if current_time <= stake_time {
        return 0;
    }
    let elapsed: u128 = (current_time as i128 - stake_time as i128) as u128;
    proof {
        assert(amount * apy_percentage <= 0xffff_ffff_ffff_ffff * 0xffff) by (nonlinear_arith)
            requires
                0 <= amount <= 0xffff_ffff_ffff_ffff,
                0 <= apy_percentage <= 0xffff,
        ;
        assert(BPS_DENOMINATOR * SECONDS_PER_YEAR == 315_576_000_000) by (nonlinear_arith)
            requires
                BPS_DENOMINATOR == 10_000,
                SECONDS_PER_YEAR == 31_557_600,
        ;
    }
    let weighted: u128 = (amount as u128) * (apy_percentage as u128);
    let divisor: u128 = (BPS_DENOMINATOR as u128) * (SECONDS_PER_YEAR as u128);
    let whole: u128 = elapsed / divisor;
    let rest: u128 = elapsed % divisor;
    proof {
        assert(divisor == 315_576_000_000);
        assert(elapsed <= 0xffff_ffff_ffff_ffff);
        assert(whole <= 58_454_205);
        assert(weighted * whole <= 0xffff_ffff_ffff_ffff * 0xffff * 58_454_205)
            by (nonlinear_arith)
            requires
                weighted <= 0xffff_ffff_ffff_ffff * 0xffff,
                whole <= 58_454_205,
        ;
        assert(weighted * rest <= 0xffff_ffff_ffff_ffff * 0xffff * 315_576_000_000)
            by (nonlinear_arith)
            requires
                weighted <= 0xffff_ffff_ffff_ffff * 0xffff,
                rest <= 315_576_000_000,
        ;
        assert(weighted * elapsed == weighted * rest + (weighted * whole) * divisor)
            by (nonlinear_arith)
            requires
                elapsed == whole * divisor + rest,
        ;
        lemma_hoist_over_denominator(
            (weighted * rest) as int,
            (weighted * whole) as int,
            divisor as nat,
        );
    }
    let total: u128 = weighted * whole + (weighted * rest) / divisor;
    if total > u64::MAX as u128 {
        u64::MAX
    } else {
        total as u64
    }
}

/// Withdraws a stake. Before the unlock time the unstake is refused with
/// `StakingPeriodNotEnded` and the pool stays as it was. From the unlock time
/// on it pays the principal and the reward earned up to `now`, and the pool
/// no longer counts the stake. The stake is spent by a successful unstake:
/// the caller removes the record.
pub fn unstake_tokens(pool: &mut StakingPool, stake_account: &StakeAccount, now: i64) -> (result:
    Result<Unstaked, ErrorCode>)
    requires
        stake_account.amount <= old(pool).total_staked,
    ensures
        result == unstake_result(*old(pool), *stake_account, now),
        *final(pool) == pool_after_unstake(*old(pool), *stake_account, now),
{
    if now < stake_account.unlock_time {
        return Err(ErrorCode::StakingPeriodNotEnded);
    }
    let reward: u64 = calculate_staking_rewards(
        stake_account.amount,
        pool.apy_percentage,
        stake_account.stake_time,
        now,
    );
    pool.total_staked = pool.total_staked - stake_account.amount;
    Ok(Unstaked { principal: stake_account.amount, reward })
}

/// Whether a stake is accepted: a stake of nothing is refused first, then
/// one for less than the pool's minimum duration.
pub open spec fn stake_result(
    pool: StakingPool,
    user: Pubkey,
    amount: u64,
    duration: i64,
    now: i64,
    bump: u8,
) -> Result<StakeAccount, ErrorCode> {
    if amount == 0 {
        Err(ErrorCode::InvalidAmount)
    } else if duration < pool.min_stake_duration {
        Err(ErrorCode::InsufficientStakeDuration)
    } else {
        Ok(
            StakeAccount {
                user,
                amount,
                stake_time: now,
                unlock_time: (now + duration) as i64,
                claimed_rewards: 0,
                bump,
            },
        )
    }
}

/// The pool after a stake: with the amount added if the stake was
/// accepted, unchanged if not.
pub open spec fn pool_after_stake(pool: StakingPool, amount: u64, duration: i64) -> StakingPool {
    if amount == 0 || duration < pool.min_stake_duration {
        pool
    } else {
        StakingPool { total_staked: (pool.total_staked + amount) as u64, ..pool }
    }
}

/// Stakes `amount` tokens of `user` for `duration` seconds from `now`. On
/// success the caller moves the tokens into the pool's vault and keeps the
/// returned stake. The unlock time and the pool's total must fit their 64
/// bits for a stake that is accepted.
pub fn stake_tokens(
    pool: &mut StakingPool,
    user: Pubkey,
    amount: u64,
    duration: i64,
    now: i64,
    bump: u8,
) -> (result: Result<StakeAccount, ErrorCode>)
    requires
        amount > 0 && duration >= old(pool).min_stake_duration ==> {
            &&& i64::MIN <= now + duration <= i64::MAX
            &&& old(pool).total_staked + amount <= u64::MAX
        },
    ensures
        result == stake_result(*old(pool), user, amount, duration, now, bump),
        *final(pool) == pool_after_stake(*old(pool), amount, duration),
{
    if amount == 0 {
        return Err(ErrorCode::InvalidAmount);
    }
    if duration < pool.min_stake_duration {
        return Err(ErrorCode::InsufficientStakeDuration);
    }
    let stake_account = StakeAccount {
        user,
        amount,
        stake_time: now,
        unlock_time: now + duration,
        claimed_rewards: 0,
        bump,
    };
    pool.total_staked = pool.total_staked + amount;
    Ok(stake_account)
}

/// A new pool that pays `apy_percentage` basis points a year and holds no
/// stake yet.
pub fn initialize_staking(
    authority: Pubkey,
    apy_percentage: u16,
    min_stake_duration: i64,
    bump: u8,
) -> (pool: StakingPool)
    ensures
        pool == (StakingPool {
            authority,
            apy_percentage,
            min_stake_duration,
            total_staked: 0,
            bump,
        }),
{
    StakingPool { authority, apy_percentage, min_stake_duration, total_staked: 0, bump }
}

/// A stake cannot be withdrawn before its unlock time: every unstake at an
/// earlier time, the moment of the stake included where the stake is for a
/// positive duration, is refused with `StakingPeriodNotEnded` and leaves
/// the pool as the stake made it.
pub proof fn lemma_unstake_before_unlock_is_refused(
    pool: StakingPool,
    user: Pubkey,
    amount: u64,
    duration: i64,
    now: i64,
    bump: u8,
    later: i64,
)
    requires
        i64::MIN <= now + duration <= i64::MAX,
        stake_result(pool, user, amount, duration, now, bump) is Ok,
        later < now + duration,
    ensures
        unstake_result(
            pool_after_stake(pool, amount, duration),
            stake_result(pool, user, amount, duration, now, bump)->Ok_0,
            later,
        ) == Err::<Unstaked, ErrorCode>(ErrorCode::StakingPeriodNotEnded),
        pool_after_unstake(
            pool_after_stake(pool, amount, duration),
            stake_result(pool, user, amount, duration, now, bump)->Ok_0,
            later,
        ) == pool_after_stake(pool, amount, duration),
{
}

/// A stake that is withdrawn leaves the pool's total as it was before the
/// stake, and pays back exactly what was staked.
pub proof fn lemma_stake_then_unstake_restores_pool(
    pool: StakingPool,
    user: Pubkey,
    amount: u64,
    duration: i64,
    now: i64,
    bump: u8,
    later: i64,
)
    requires
        i64::MIN <= now + duration <= i64::MAX,
        pool.total_staked + amount <= u64::MAX,
        stake_result(pool, user, amount, duration, now, bump) is Ok,
        later >= now + duration,
    ensures
        pool_after_unstake(
            pool_after_stake(pool, amount, duration),
            stake_result(pool, user, amount, duration, now, bump)->Ok_0,
            later,
        ) == pool,
        unstake_result(
            pool_after_stake(pool, amount, duration),
            stake_result(pool, user, amount, duration, now, bump)->Ok_0,
            later,
        ) matches Ok(paid) && paid.principal == amount,
{
}

} // verus!
