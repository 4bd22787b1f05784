use vtr_token::math::mul_div;
use vtr_token::{
    burn_tokens, calculate_claimable_amount, claim_vested_tokens, initialize_token, mint_tokens,
    AllocationType, ErrorCode, Pubkey, TokenAllocation, TokenData,
};

fn key(tag: u8) -> Pubkey {
    Pubkey::new([tag; 32])
}

fn ledger(total_supply: u64) -> TokenData {
    initialize_token(key(1), key(2), total_supply, 255)
}

fn linear_allocation(amount: u64, start: i64, cliff: i64, duration: i64, claimed: u64) -> TokenAllocation {
    TokenAllocation {
        recipient: key(7),
        amount,
        allocation_type: AllocationType::TokenSale,
        vesting_start: start,
        cliff_duration: cliff,
        vesting_duration: duration,
        tge_unlock_percentage: 0,
        claimed_amount: claimed,
        bump: 3,
    }
}

#[test]
fn record_sizes() {
    assert_eq!(TokenData::LEN, 89);
    assert_eq!(TokenAllocation::LEN, 76);
}

#[test]
fn keys_compare_by_bytes() {
    assert_eq!(key(4), key(4));
    assert_ne!(key(4), key(5));
    let mut bytes = [4u8; 32];
    bytes[31] = 5;
    assert_ne!(Pubkey::new(bytes), key(4));
    assert_eq!(Pubkey::new(bytes).bytes, bytes);
}

#[test]
fn mul_div_rounds_down() {
    assert_eq!(mul_div(1000, 30, 100), 300);
    assert_eq!(mul_div(10, 1, 3), 3);
    assert_eq!(mul_div(10, 2, 3), 6);
    assert_eq!(mul_div(u64::MAX, 9_999, 10_000), 18_444_899_399_302_180_659);
    assert_eq!(mul_div(u64::MAX, u64::MAX, u64::MAX), u64::MAX);
    assert_eq!(mul_div(7, 0, 5), 0);
}

#[test]
fn initialize_sets_total_and_zeroes_the_rest() {
    let token_data = ledger(1_000_000);
    assert_eq!(
        token_data,
        TokenData {
            authority: key(1),
            mint: key(2),
            total_supply: 1_000_000,
            circulating_supply: 0,
            burned_supply: 0,
            bump: 255,
        }
    );
}

#[test]
fn token_sale_mint_releases_a_tenth() {
    let mut token_data = ledger(1_000_000);
    let allocation =
        mint_tokens(&mut token_data, key(7), 10_000, AllocationType::TokenSale, 1_700_000_000, 9)
            .unwrap();
    assert_eq!(
        allocation,
        TokenAllocation {
            recipient: key(7),
            amount: 10_000,
            allocation_type: AllocationType::TokenSale,
            vesting_start: 1_700_000_000,
            cliff_duration: 0,
            vesting_duration: 31_104_000,
            tge_unlock_percentage: 1000,
            claimed_amount: 1000,
            bump: 9,
        }
    );
    assert_eq!(token_data.circulating_supply, 1000);
    assert_eq!(token_data.burned_supply, 0);
    assert_eq!(token_data.total_supply, 1_000_000);
}

#[test]
fn mint_releases_each_category_share() {
    let cases: [(AllocationType, u64); 7] = [
        (AllocationType::TokenSale, 1_000),
        (AllocationType::TeamAdvisors, 0),
        (AllocationType::EcosystemGrowth, 1_500),
        (AllocationType::Liquidity, 5_000),
        (AllocationType::PlatformReserve, 500),
        (AllocationType::BuybackBurn, 0),
        (AllocationType::Marketing, 2_000),
    ];
    for (category, released) in cases.iter() {
        let mut token_data = ledger(10_000);
        let allocation = mint_tokens(&mut token_data, key(7), 10_000, *category, 0, 0).unwrap();
        assert_eq!(allocation.claimed_amount, *released);
        assert_eq!(token_data.circulating_supply, *released);
        assert_eq!(allocation.allocation_type, *category);
    }
}

#[test]
fn mint_share_is_rounded_down() {
    let mut token_data = ledger(100);
    let allocation =
        mint_tokens(&mut token_data, key(7), 19, AllocationType::EcosystemGrowth, 0, 0).unwrap();
    // 19 * 1500 / 10000 = 2.85
    assert_eq!(allocation.claimed_amount, 2);
    assert_eq!(token_data.circulating_supply, 2);
}

#[test]
fn mint_reserves_the_whole_amount_against_the_cap() {
    let mut token_data = ledger(1_000);
    token_data.circulating_supply = 600;
    let before = token_data;
    assert_eq!(
        mint_tokens(&mut token_data, key(7), 401, AllocationType::TeamAdvisors, 0, 0),
        Err(ErrorCode::ExceedsTotalSupply)
    );
    assert_eq!(token_data, before);
    let allocation =
        mint_tokens(&mut token_data, key(7), 400, AllocationType::TeamAdvisors, 0, 0).unwrap();
    assert_eq!(allocation.claimed_amount, 0);
    assert_eq!(token_data.circulating_supply, 600);
}

#[test]
fn mint_beyond_sixty_four_bits_is_refused() {
    let mut token_data = ledger(u64::MAX);
    token_data.circulating_supply = 2;
    assert_eq!(
        mint_tokens(&mut token_data, key(7), u64::MAX - 1, AllocationType::Liquidity, 0, 0),
        Err(ErrorCode::ExceedsTotalSupply)
    );
    let allocation =
        mint_tokens(&mut token_data, key(7), u64::MAX - 2, AllocationType::Liquidity, 0, 0)
            .unwrap();
    assert_eq!(allocation.claimed_amount, (u64::MAX - 2) / 2);
}

#[test]
fn linear_vesting_example() {
    let allocation = linear_allocation(1000, 500, 0, 100, 0);
    assert_eq!(calculate_claimable_amount(&allocation, 530), 300);
    let mut token_data = ledger(10_000);
    let mut allocation = allocation;
    assert_eq!(claim_vested_tokens(&mut token_data, &mut allocation, 530), Ok(300));
    assert_eq!(allocation.claimed_amount, 300);
    assert_eq!(token_data.circulating_supply, 300);
}

#[test]
fn nothing_vests_before_the_cliff_has_passed() {
    let allocation = linear_allocation(1000, 100, 50, 100, 0);
    assert_eq!(calculate_claimable_amount(&allocation, i64::MIN), 0);
    assert_eq!(calculate_claimable_amount(&allocation, 100), 0);
    assert_eq!(calculate_claimable_amount(&allocation, 149), 0);
    assert_eq!(calculate_claimable_amount(&allocation, 150), 0);
    assert_eq!(calculate_claimable_amount(&allocation, 151), 10);
    assert_eq!(calculate_claimable_amount(&allocation, 250), 1000);
    assert_eq!(calculate_claimable_amount(&allocation, i64::MAX), 1000);
}

#[test]
fn vesting_is_rounded_down() {
    let allocation = linear_allocation(10, 0, 0, 3, 0);
    assert_eq!(calculate_claimable_amount(&allocation, 1), 3);
    assert_eq!(calculate_claimable_amount(&allocation, 2), 6);
    assert_eq!(calculate_claimable_amount(&allocation, 3), 10);
}

#[test]
fn zero_duration_vests_all_at_the_cliff() {
    let allocation = linear_allocation(1000, 10, 5, 0, 100);
    assert_eq!(calculate_claimable_amount(&allocation, 14), 0);
    assert_eq!(calculate_claimable_amount(&allocation, 15), 900);
}

#[test]
fn claimable_is_never_negative() {
    let allocation = linear_allocation(1000, 0, 0, 100, 800);
    assert_eq!(calculate_claimable_amount(&allocation, 30), 0);
    assert_eq!(calculate_claimable_amount(&allocation, 80), 0);
    assert_eq!(calculate_claimable_amount(&allocation, 81), 10);
}

#[test]
fn claimable_at_the_ends_of_time() {
    let allocation = linear_allocation(u64::MAX, i64::MIN, 0, i64::MAX, 0);
    assert_eq!(calculate_claimable_amount(&allocation, i64::MIN), 0);
    assert_eq!(calculate_claimable_amount(&allocation, i64::MAX), u64::MAX);
    let late = linear_allocation(u64::MAX, i64::MAX, i64::MAX, 1, 0);
    assert_eq!(calculate_claimable_amount(&late, i64::MAX), 0);
}

#[test]
fn claim_with_nothing_vested_is_refused() {
    let mut token_data = ledger(10_000);
    let mut allocation = linear_allocation(1000, 100, 50, 100, 0);
    let before = (token_data, allocation);
    assert_eq!(
        claim_vested_tokens(&mut token_data, &mut allocation, 120),
        Err(ErrorCode::NoTokensToClaim)
    );
    assert_eq!((token_data, allocation), before);
}

#[test]
fn second_claim_at_the_same_time_is_refused() {
    let mut token_data = ledger(10_000);
    let mut allocation = linear_allocation(1000, 0, 0, 100, 0);
    assert_eq!(claim_vested_tokens(&mut token_data, &mut allocation, 42), Ok(420));
    assert_eq!(calculate_claimable_amount(&allocation, 42), 0);
    let before = (token_data, allocation);
    assert_eq!(
        claim_vested_tokens(&mut token_data, &mut allocation, 42),
        Err(ErrorCode::NoTokensToClaim)
    );
    assert_eq!((token_data, allocation), before);
}

#[test]
fn claims_never_exceed_the_amount_and_never_go_down() {
    let mut token_data = ledger(1_000_000);
    let mut allocation =
        mint_tokens(&mut token_data, key(7), 100_000, AllocationType::Marketing, 0, 0).unwrap();
    assert_eq!(allocation.claimed_amount, 20_000);
    let mut last = allocation.claimed_amount;
    let month = 2_592_000i64;
    for step in 0..40 {
        let now = step * month / 2;
        let _ = claim_vested_tokens(&mut token_data, &mut allocation, now);
        assert!(allocation.claimed_amount >= last);
        assert!(allocation.claimed_amount <= allocation.amount);
        last = allocation.claimed_amount;
    }
    assert_eq!(allocation.claimed_amount, 100_000);
    assert_eq!(token_data.circulating_supply, 100_000);
}

#[test]
fn one_claim_after_full_vesting_claims_everything() {
    let mut token_data = ledger(1_000_000);
    let mut allocation =
        mint_tokens(&mut token_data, key(7), 9_999, AllocationType::PlatformReserve, 1_000, 0)
            .unwrap();
    assert_eq!(allocation.claimed_amount, 499);
    let end = 1_000 + 6 * 2_592_000 + 60 * 2_592_000;
    assert_eq!(claim_vested_tokens(&mut token_data, &mut allocation, end), Ok(9_500));
    assert_eq!(allocation.claimed_amount, 9_999);
    assert_eq!(token_data.circulating_supply, 9_999);
}

#[test]
fn team_allocation_vests_after_its_cliff() {
    let mut token_data = ledger(1_000_000);
    let month = 2_592_000i64;
    let mut allocation =
        mint_tokens(&mut token_data, key(7), 36_000, AllocationType::TeamAdvisors, 0, 0).unwrap();
    assert_eq!(
        claim_vested_tokens(&mut token_data, &mut allocation, 12 * month),
        Err(ErrorCode::NoTokensToClaim)
    );
    assert_eq!(claim_vested_tokens(&mut token_data, &mut allocation, 13 * month), Ok(1_000));
    assert_eq!(claim_vested_tokens(&mut token_data, &mut allocation, 30 * month), Ok(17_000));
    assert_eq!(claim_vested_tokens(&mut token_data, &mut allocation, 48 * month), Ok(18_000));
    assert_eq!(allocation.claimed_amount, 36_000);
}

#[test]
fn burn_moves_tokens_from_circulating_to_burned() {
    let mut token_data = ledger(1_000);
    token_data.circulating_supply = 700;
    token_data.burned_supply = 100;
    assert_eq!(burn_tokens(&mut token_data, 250), Ok(()));
    assert_eq!(token_data.circulating_supply, 450);
    assert_eq!(token_data.burned_supply, 350);
    assert_eq!(token_data.total_supply, 1_000);
    assert_eq!(burn_tokens(&mut token_data, 450), Ok(()));
    assert_eq!(token_data.circulating_supply, 0);
    assert_eq!(token_data.burned_supply, 800);
}

#[test]
fn burn_of_more_than_circulates_is_refused() {
    let mut token_data = ledger(1_000);
    token_data.circulating_supply = 700;
    let before = token_data;
    assert_eq!(burn_tokens(&mut token_data, 701), Err(ErrorCode::SupplyUnderflow));
    assert_eq!(token_data, before);
    let mut empty = ledger(1_000);
    assert_eq!(burn_tokens(&mut empty, 1), Err(ErrorCode::SupplyUnderflow));
    assert_eq!(burn_tokens(&mut empty, 0), Ok(()));
}

#[test]
fn supply_stays_within_the_cap_while_mints_fit() {
    let mut token_data = ledger(100_000);
    let within = |t: &TokenData| {
        t.circulating_supply as u128 + t.burned_supply as u128 <= t.total_supply as u128
    };
    assert!(within(&token_data));
    let mut allocation =
        mint_tokens(&mut token_data, key(7), 60_000, AllocationType::Liquidity, 0, 0).unwrap();
    assert!(within(&token_data));
    assert_eq!(burn_tokens(&mut token_data, 10_000), Ok(()));
    assert!(within(&token_data));
    assert_eq!(claim_vested_tokens(&mut token_data, &mut allocation, 6 * 2_592_000), Ok(30_000));
    assert!(within(&token_data));
    assert_eq!(token_data.circulating_supply, 50_000);
    assert_eq!(token_data.burned_supply, 10_000);
}

#[test]
fn claims_of_two_full_reservations_pass_the_cap() {
    let mut token_data = ledger(100);
    let mut first =
        mint_tokens(&mut token_data, key(7), 100, AllocationType::BuybackBurn, 0, 0).unwrap();
    let mut second =
        mint_tokens(&mut token_data, key(8), 100, AllocationType::BuybackBurn, 0, 0).unwrap();
    let end = 24 * 2_592_000;
    assert_eq!(claim_vested_tokens(&mut token_data, &mut first, end), Ok(100));
    assert_eq!(claim_vested_tokens(&mut token_data, &mut second, end), Ok(100));
    assert_eq!(token_data.circulating_supply, 200);
    assert_eq!(token_data.total_supply, 100);
}

#[test]
fn error_messages() {
    assert_eq!(ErrorCode::ExceedsTotalSupply.message(), "Amount exceeds total supply");
    assert_eq!(ErrorCode::NoTokensToClaim.message(), "No tokens to claim");
    assert_eq!(ErrorCode::InvalidAmount.message(), "Invalid amount");
    assert_eq!(ErrorCode::InsufficientStakeDuration.message(), "Insufficient stake duration");
    assert_eq!(ErrorCode::StakingPeriodNotEnded.message(), "Staking period has not ended");
    assert_eq!(ErrorCode::SupplyUnderflow.message(), "Amount exceeds circulating supply");
    assert_eq!(ErrorCode::ProposalNotOpen.message(), "Proposal is not open for voting");
    assert_eq!(ErrorCode::AlreadyVoted.message(), "Voter has already voted on this proposal");
    assert_eq!(ErrorCode::ProposalNotExecutable.message(), "Proposal is not executable");
    assert_eq!(ErrorCode::AlreadyExecuted.message(), "Proposal has already been executed");
}
