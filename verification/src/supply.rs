//! The supply ledger: the total, circulating and burned counters, and the
//! allocations that vest into circulation.

use vstd::prelude::*;
use crate::errors::ErrorCode;
use crate::keys::Pubkey;
use crate::math::{
    lemma_mul_div_floor_bounds, lemma_mul_div_floor_monotonic, mul_div, mul_div_floor,
    BPS_DENOMINATOR,
};
use crate::schedule::{
    cliff_months, get_cliff_duration, get_tge_unlock, get_vesting_duration, lemma_schedule_bounds,
    tge_unlock_bps, vesting_months, AllocationType, SECONDS_PER_MONTH,
};

verus! {

/// The three supply counters of one token.
#[derive(Clone, Copy, Debug, PartialEq, Eq)]
pub struct TokenData {
    pub authority: Pubkey,
    pub mint: Pubkey,
    pub total_supply: u64,
    pub circulating_supply: u64,
    pub burned_supply: u64,
    pub bump: u8,
}

impl TokenData {
    /// Size of a stored ledger record.
    pub const LEN: usize = 32 + 32 + 8 + 8 + 8 + 1;

    /// What circulates and what was burned together stay within the total.
    pub open spec fn within_cap(&self) -> bool {
        self.circulating_supply + self.burned_supply <= self.total_supply
    }

    /// The ledger after `minted` tokens entered circulation.
    pub open spec fn issued(self, minted: int) -> TokenData {
        TokenData { circulating_supply: (self.circulating_supply + minted) as u64, ..self }
    }
}

/// A recipient's share of the supply in one category, with the schedule it
/// vests by and what was minted of it so far.
#[derive(Clone, Copy, Debug, PartialEq, Eq)]
pub struct TokenAllocation {
    pub recipient: Pubkey,
    pub amount: u64,
    pub allocation_type: AllocationType,
    /// When the allocation was made, in seconds.
    pub vesting_start: i64,
    pub cliff_duration: i64,
    pub vesting_duration: i64,
    /// Share released at once, in basis points.
    pub tge_unlock_percentage: u16,
    pub claimed_amount: u64,
    pub bump: u8,
}

impl TokenAllocation {
    /// Size of a stored allocation record.
    pub const LEN: usize = 32 + 8 + 1 + 8 + 8 + 8 + 2 + 8 + 1;

    /// Never more is claimed than was allocated; the cliff and the vesting
    /// duration are not negative, and the share released at once is at most
    /// the whole.
    pub open spec fn wf(&self) -> bool {
        &&& self.claimed_amount <= self.amount
        &&& 0 <= self.cliff_duration
        &&& 0 <= self.vesting_duration
        &&& self.tge_unlock_percentage <= BPS_DENOMINATOR
    }

    /// What has vested by `now`, claimed or not. Nothing vests before the
    /// cliff has passed; from then on the amount vests evenly over the
    /// vesting duration, rounded down, or all at once where there is none.
    pub open spec fn total_vested(&self, now: i64) -> int {
        let unlock_start = self.vesting_start + self.cliff_duration;
        if now < unlock_start {
            0
        } else if self.vesting_duration == 0 {
            self.amount as int
        } else {
            let elapsed = now - unlock_start;
            let progress = if elapsed < self.vesting_duration {
                elapsed
            } else {
                self.vesting_duration as int
            };
            mul_div_floor(self.amount as int, progress, self.vesting_duration as int)
        }
    }

    /// What a claim at `now` would mint: what has vested beyond what was
    /// claimed, and never less than nothing.
    pub open spec fn claimable(&self, now: i64) -> int {
        if self.total_vested(now) > self.claimed_amount {
            self.total_vested(now) - self.claimed_amount
        } else {
            0
        }
    }

    /// The allocation after `minted` more tokens were claimed.
    pub open spec fn claimed(self, minted: int) -> TokenAllocation {
        TokenAllocation { claimed_amount: (self.claimed_amount + minted) as u64, ..self }
    }
}

/// What is minted at once of an allocation of `amount` in a category:
/// `amount * bps / 10000`, rounded down.
pub open spec fn tge_amount(amount: u64, allocation_type: AllocationType) -> int {
    mul_div_floor(amount as int, tge_unlock_bps(allocation_type), BPS_DENOMINATOR as int)
}

/// The allocation that a mint at `now` creates: the category's schedule,
/// starting now, with the share released at once already claimed.
pub open spec fn new_allocation(
    recipient: Pubkey,
    amount: u64,
    allocation_type: AllocationType,
    now: i64,
    bump: u8,
) -> TokenAllocation {
    TokenAllocation {
        recipient,
        amount,
        allocation_type,
        vesting_start: now,
        cliff_duration: (cliff_months(allocation_type) * SECONDS_PER_MONTH) as i64,
        vesting_duration: (vesting_months(allocation_type) * SECONDS_PER_MONTH) as i64,
        tge_unlock_percentage: tge_unlock_bps(allocation_type) as u16,
        claimed_amount: tge_amount(amount, allocation_type) as u64,
        bump,
    }
}

/// A mint is refused when the whole allocation, not only the share minted
/// at once, does not fit between what circulates and the total.
pub open spec fn mint_result(
    token_data: TokenData,
    recipient: Pubkey,
    amount: u64,
    allocation_type: AllocationType,
    now: i64,
    bump: u8,
) -> Result<TokenAllocation, ErrorCode> {
    if token_data.circulating_supply + amount > token_data.total_supply {
        Err(ErrorCode::ExceedsTotalSupply)
    } else {
        Ok(new_allocation(recipient, amount, allocation_type, now, bump))
    }
}

/// The ledger after a mint: only the share minted at once enters
/// circulation; a refused mint changes nothing.
pub open spec fn supply_after_mint(
    token_data: TokenData,
    amount: u64,
    allocation_type: AllocationType,
) -> TokenData {
    if token_data.circulating_supply + amount > token_data.total_supply {
        token_data
    } else {
        token_data.issued(tge_amount(amount, allocation_type))
    }
}

/// Allocates `amount` tokens of a category to `recipient` at time `now`.
/// On success the caller mints `claimed_amount` of the returned allocation
/// to the recipient, if it is not zero.
pub fn mint_tokens(
    token_data: &mut TokenData,
    recipient: Pubkey,
    amount: u64,
    allocation_type: AllocationType,
    now: i64,
    bump: u8,
) -> (result: Result<TokenAllocation, ErrorCode>)
    ensures
        result == mint_result(*old(token_data), recipient, amount, allocation_type, now, bump),
        *final(token_data) == supply_after_mint(*old(token_data), amount, allocation_type),
        result is Ok ==> result->Ok_0.wf(),
        result is Ok ==> final(token_data).circulating_supply <= final(token_data).total_supply,
{
    if amount > token_data.total_supply || token_data.circulating_supply
        > token_data.total_supply - amount {
        return Err(ErrorCode::ExceedsTotalSupply);
    }
    let tge_unlock_percentage: u16 = get_tge_unlock(&allocation_type);
    proof {
        lemma_schedule_bounds(allocation_type);
        lemma_mul_div_floor_bounds(
            amount as int,
            tge_unlock_percentage as int,
            BPS_DENOMINATOR as int,
        );
    }
    let tge_amount: u64 = mul_div(amount, tge_unlock_percentage as u64, BPS_DENOMINATOR);
    let allocation = TokenAllocation {
        recipient,
        amount,
        allocation_type,
        vesting_start: now,
        cliff_duration: get_cliff_duration(&allocation_type),
        vesting_duration: get_vesting_duration(&allocation_type),
        tge_unlock_percentage,
        claimed_amount: tge_amount,
        bump,
    };
    token_data.circulating_supply = token_data.circulating_supply + tge_amount;
    Ok(allocation)
}

/// What has vested at no point exceeds the allocation.
pub proof fn lemma_total_vested_bounds(allocation: TokenAllocation, now: i64)
    ensures
        0 <= allocation.total_vested(now) <= allocation.amount,
        allocation.claimed_amount + allocation.claimable(now) <= u64::MAX,
{
    let unlock_start = allocation.vesting_start + allocation.cliff_duration;
    let duration = allocation.vesting_duration as int;
    if now >= unlock_start && duration != 0 {
        let elapsed = now - unlock_start;
        if duration > 0 {
            let progress = if elapsed < duration {
                elapsed
            } else {
                duration
            };
            lemma_mul_div_floor_bounds(allocation.amount as int, progress, duration);
        } else {
            lemma_whole_fraction(allocation.amount as int, duration);
        }
    }
}

/// A fraction of `d / d` is the whole, whatever the sign of `d`.
proof fn lemma_whole_fraction(a: int, d: int)
    requires
        d != 0,
    ensures
        mul_div_floor(a, d, d) == a,
{
    assert((a * d) / d == a) by (nonlinear_arith)
        requires
            d != 0,
    ;
}

/// Computes [`TokenAllocation::claimable`] for the time `current_time`.
pub fn calculate_claimable_amount(allocation: &TokenAllocation, current_time: i64) -> (claimable:
    u64)
    ensures
        claimable == allocation.claimable(current_time),
{
    let unlock_start: i128 = allocation.vesting_start as i128 + allocation.cliff_duration as i128;
    if (current_time as i128) < unlock_start {
        return 0;
    }
    let total_vested: u64 = if allocation.vesting_duration <= 0 {
        proof {
            if allocation.vesting_duration < 0 {
                lemma_whole_fraction(allocation.amount as int, allocation.vesting_duration as int);
            }
        }
        allocation.amount
    } else {
        let elapsed: i128 = current_time as i128 - unlock_start;
        let progress: u64 = if elapsed < allocation.vesting_duration as i128 {
            elapsed as u64
        } else {
            allocation.vesting_duration as u64
        };
        mul_div(allocation.amount, progress, allocation.vesting_duration as u64)
    };
    if total_vested > allocation.claimed_amount {
        total_vested - allocation.claimed_amount
    } else {
        0
    }
}

/// A claim is refused when nothing can be claimed; else it mints all that
/// can.
pub open spec fn claim_result(allocation: TokenAllocation, now: i64) -> Result<u64, ErrorCode> {
    if allocation.claimable(now) == 0 {
        Err(ErrorCode::NoTokensToClaim)
    } else {
        Ok(allocation.claimable(now) as u64)
    }
}

/// Claims what has vested of an allocation by `now`. On success the
/// returned amount is what the caller mints to the recipient; it is added
/// to what the allocation has claimed and to what circulates. A refused
/// claim changes nothing.
pub fn claim_vested_tokens(
    token_data: &mut TokenData,
    allocation: &mut TokenAllocation,
    now: i64,
) -> (result: Result<u64, ErrorCode>)
    requires
        old(token_data).circulating_supply + old(allocation).claimable(now) <= u64::MAX,
    ensures
        result == claim_result(*old(allocation), now),
        *final(allocation) == old(allocation).claimed(old(allocation).claimable(now)),
        *final(token_data) == old(token_data).issued(old(allocation).claimable(now)),
        final(allocation).claimed_amount >= old(allocation).claimed_amount,
        old(allocation).wf() ==> final(allocation).wf(),
        result is Ok ==> final(allocation).claimable(now) == 0,
{
    let claimable_amount: u64 = calculate_claimable_amount(allocation, now);
    if claimable_amount == 0 {
        return Err(ErrorCode::NoTokensToClaim);
    }
    proof {
        lemma_total_vested_bounds(*allocation, now);
    }
    allocation.claimed_amount = allocation.claimed_amount + claimable_amount;
    token_data.circulating_supply = token_data.circulating_supply + claimable_amount;
    Ok(claimable_amount)
}

/// A burn is refused when it asks for more than circulates.
pub open spec fn burn_result(token_data: TokenData, amount: u64) -> Result<(), ErrorCode> {
    if amount > token_data.circulating_supply {
        Err(ErrorCode::SupplyUnderflow)
    } else {
        Ok(())
    }
}

/// The ledger after a burn: the amount moves from circulating to burned; a
/// refused burn changes nothing.
pub open spec fn supply_after_burn(token_data: TokenData, amount: u64) -> TokenData {
    if amount > token_data.circulating_supply {
        token_data
    } else {
        TokenData {
            circulating_supply: (token_data.circulating_supply - amount) as u64,
            burned_supply: (token_data.burned_supply + amount) as u64,
            ..token_data
        }
    }
}

/// Burns `amount` tokens out of circulation. On success the caller moves
/// the tokens to the burn vault.
pub fn burn_tokens(token_data: &mut TokenData, amount: u64) -> (result: Result<(), ErrorCode>)
    requires
        amount <= old(token_data).circulating_supply ==> old(token_data).burned_supply + amount
            <= u64::MAX,
    ensures
        result == burn_result(*old(token_data), amount),
        *final(token_data) == supply_after_burn(*old(token_data), amount),
        final(token_data).circulating_supply + final(token_data).burned_supply == old(
            token_data,
        ).circulating_supply + old(token_data).burned_supply,
        old(token_data).within_cap() ==> final(token_data).within_cap(),
{
    if amount > token_data.circulating_supply {
        return Err(ErrorCode::SupplyUnderflow);
    }
    token_data.burned_supply = token_data.burned_supply + amount;
    token_data.circulating_supply = token_data.circulating_supply - amount;
    Ok(())
}

/// A new ledger for `total_supply` tokens: nothing circulates, nothing is
/// burned.
pub fn initialize_token(authority: Pubkey, mint: Pubkey, total_supply: u64, bump: u8) -> (token_data:
    TokenData)
    ensures
        token_data == (TokenData {
            authority,
            mint,
            total_supply,
            circulating_supply: 0,
            burned_supply: 0,
            bump,
        }),
        token_data.within_cap(),
{
    TokenData { authority, mint, total_supply, circulating_supply: 0, burned_supply: 0, bump }
}

/// The supply stays within its cap, circulating plus burned at most the
/// total, whenever what is newly minted fits into what the cap leaves. A
/// mint or a claim checks no such thing: it leaves the cap intact exactly
/// when its amount fits.
pub proof fn lemma_issue_within_cap(token_data: TokenData, minted: u64)
    requires
        token_data.within_cap(),
        token_data.circulating_supply + minted <= u64::MAX,
    ensures
        token_data.issued(minted as int).within_cap() <==> token_data.circulating_supply
            + token_data.burned_supply + minted <= token_data.total_supply,
{
}

/// A claim keeps an allocation valid and never lowers what it has claimed,
/// at whatever time it is made and whether it is refused or not.
pub proof fn lemma_claim_keeps_allocation_valid(allocation: TokenAllocation, now: i64)
    requires
        allocation.wf(),
    ensures
        allocation.claimed(allocation.claimable(now)).wf(),
        allocation.claimed(allocation.claimable(now)).claimed_amount >= allocation.claimed_amount,
{
    lemma_total_vested_bounds(allocation, now);
}

/// After a claim that succeeded, nothing more can be claimed at the same
/// time: a second claim is refused.
pub proof fn lemma_second_claim_is_refused(allocation: TokenAllocation, now: i64)
    requires
        claim_result(allocation, now) is Ok,
    ensures
        allocation.claimed(allocation.claimable(now)).claimable(now) == 0,
        claim_result(allocation.claimed(allocation.claimable(now)), now) == Err::<
            u64,
            ErrorCode,
        >(ErrorCode::NoTokensToClaim),
{
    lemma_total_vested_bounds(allocation, now);
}

/// Once the cliff and the whole vesting duration have passed, one claim
/// brings what was claimed to the full amount.
pub proof fn lemma_full_vesting(allocation: TokenAllocation, now: i64)
    requires
        allocation.wf(),
        now >= allocation.vesting_start + allocation.cliff_duration + allocation.vesting_duration,
    ensures
        allocation.total_vested(now) == allocation.amount,
        allocation.claimed(allocation.claimable(now)).claimed_amount == allocation.amount,
{
    if allocation.vesting_duration != 0 {
        lemma_mul_div_floor_bounds(
            allocation.amount as int,
            allocation.vesting_duration as int,
            allocation.vesting_duration as int,
        );
    }
}

/// What has vested never shrinks as time goes on.
pub proof fn lemma_vesting_grows_with_time(allocation: TokenAllocation, earlier: i64, later: i64)
    requires
        allocation.wf(),
        earlier <= later,
    ensures
        allocation.total_vested(earlier) <= allocation.total_vested(later),
{
    lemma_total_vested_bounds(allocation, earlier);
    lemma_total_vested_bounds(allocation, later);
    let unlock_start = allocation.vesting_start + allocation.cliff_duration;
    let duration = allocation.vesting_duration as int;
    if earlier >= unlock_start && duration > 0 {
        let progress_earlier = if earlier - unlock_start < duration {
            earlier - unlock_start
        } else {
            duration
        };
        let progress_later = if later - unlock_start < duration {
            later - unlock_start
        } else {
            duration
        };
        lemma_mul_div_floor_monotonic(
            allocation.amount as int,
            progress_earlier,
            progress_later,
            duration,
        );
    }
}

} // verus!
