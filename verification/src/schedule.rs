//! The vesting schedule of each allocation category: how long nothing
//! vests, over how long the allocation then vests, and which share is
//! released at once.

use vstd::prelude::*;
use crate::math::BPS_DENOMINATOR;

verus! {

/// A month of the schedule: 30 days of 24 hours.
pub const SECONDS_PER_MONTH: i64 = 2_592_000;

/// The seven categories an allocation can belong to.
#[derive(Clone, Copy, Debug, PartialEq, Eq, Structural)]
pub enum AllocationType {
    TokenSale,
    TeamAdvisors,
    EcosystemGrowth,
    Liquidity,
    PlatformReserve,
    BuybackBurn,
    Marketing,
}

/// Months before vesting starts.
pub open spec fn cliff_months(allocation_type: AllocationType) -> int {
    match allocation_type {
        AllocationType::TeamAdvisors => 12,
        AllocationType::PlatformReserve => 6,
        _ => 0,
    }
}

/// Months over which the allocation vests once the cliff has passed.
pub open spec fn vesting_months(allocation_type: AllocationType) -> int {
    match allocation_type {
        AllocationType::TokenSale => 12,
        AllocationType::TeamAdvisors => 36,
        AllocationType::EcosystemGrowth => 48,
        AllocationType::Liquidity => 6,
        AllocationType::PlatformReserve => 60,
        AllocationType::BuybackBurn => 24,
        AllocationType::Marketing => 18,
    }
}

/// Share released when the allocation is made, in basis points.
pub open spec fn tge_unlock_bps(allocation_type: AllocationType) -> int {
    match allocation_type {
        AllocationType::TokenSale => 1000,
        AllocationType::TeamAdvisors => 0,
        AllocationType::EcosystemGrowth => 1500,
        AllocationType::Liquidity => 5000,
        AllocationType::PlatformReserve => 500,
        AllocationType::BuybackBurn => 0,
        AllocationType::Marketing => 2000,
    }
}

/// Every category has a cliff that is not negative, vests over a positive
/// time and releases at most the whole at once.
pub proof fn lemma_schedule_bounds(allocation_type: AllocationType)
    ensures
        0 <= cliff_months(allocation_type) <= 12,
        0 < vesting_months(allocation_type) <= 60,
        0 <= tge_unlock_bps(allocation_type) <= BPS_DENOMINATOR,
{
}

/// The cliff of a category in seconds.
pub fn get_cliff_duration(allocation_type: &AllocationType) -> (seconds: i64)
    ensures
        seconds == cliff_months(*allocation_type) * SECONDS_PER_MONTH,
{
    match allocation_type {
        AllocationType::TeamAdvisors => 12 * SECONDS_PER_MONTH,
        AllocationType::PlatformReserve => 6 * SECONDS_PER_MONTH,
        AllocationType::TokenSale
        | AllocationType::EcosystemGrowth
        | AllocationType::Liquidity
        | AllocationType::BuybackBurn
        | AllocationType::Marketing => 0,
    }
}

/// The vesting time of a category in seconds.
pub fn get_vesting_duration(allocation_type: &AllocationType) -> (seconds: i64)
    ensures
        seconds == vesting_months(*allocation_type) * SECONDS_PER_MONTH,
{
    let months: i64 = match allocation_type {
        AllocationType::TokenSale => 12,
        AllocationType::TeamAdvisors => 36,
        AllocationType::EcosystemGrowth => 48,
        AllocationType::Liquidity => 6,
        AllocationType::PlatformReserve => 60,
        AllocationType::BuybackBurn => 24,
        AllocationType::Marketing => 18,
    };
    months * SECONDS_PER_MONTH
}

/// The share of a category that is released at once, in basis points.
pub fn get_tge_unlock(allocation_type: &AllocationType) -> (bps: u16)
    ensures
        bps == tge_unlock_bps(*allocation_type),
{
    match allocation_type {
        AllocationType::TokenSale => 1000,
        AllocationType::TeamAdvisors => 0,
        AllocationType::EcosystemGrowth => 1500,
        AllocationType::Liquidity => 5000,
        AllocationType::PlatformReserve => 500,
        AllocationType::BuybackBurn => 0,
        AllocationType::Marketing => 2000,
    }
}

} // verus!
