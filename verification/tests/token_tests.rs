//! Tokens, staking and liquidity pools.

use tribechain::liquidity::LiquidityPool;
use tribechain::staking::StakingContract;
use tribechain::tokens::{TokenContract, TokenOperation};

#[test]
fn token_creation_assigns_the_supply_to_the_owner() {
    let token = TokenContract::new(
        "Test Token".to_string(),
        "TEST".to_string(),
        1_000_000,
        6,
        "creator".to_string(),
    )
    .unwrap();
    assert_eq!(token.total_supply, 1_000_000);
    assert_eq!(token.balance_of("creator"), 1_000_000);
    assert!(token.is_minter("creator"));
    assert!(!token.is_paused);
}

#[test]
fn token_creation_rejects_bad_parameters() {
    assert!(TokenContract::new("".to_string(), "T".to_string(), 1, 0, "o".to_string()).is_err());
    assert!(TokenContract::new("T".to_string(), "".to_string(), 1, 0, "o".to_string()).is_err());
    assert!(TokenContract::new("T".to_string(), "T".to_string(), 0, 0, "o".to_string()).is_err());
    assert!(TokenContract::new("T".to_string(), "T".to_string(), 1, 19, "o".to_string()).is_err());
}

#[test]
fn token_transfer_moves_exact_amounts() {
    let mut token = TokenContract::new(
        "Test".to_string(),
        "TST".to_string(),
        1000,
        6,
        "owner".to_string(),
    )
    .unwrap();
    token.transfer("owner", "alice", 300).unwrap();
    assert_eq!(token.balance_of("owner"), 700);
    assert_eq!(token.balance_of("alice"), 300);
    assert!(token.transfer("alice", "bob", 301).is_err());
    assert_eq!(token.balance_of("alice"), 300);
}

#[test]
fn token_allowance_cycle() {
    let mut token = TokenContract::new(
        "Test".to_string(),
        "TST".to_string(),
        1000,
        6,
        "owner".to_string(),
    )
    .unwrap();
    token.approve("owner", "spender", 200).unwrap();
    assert_eq!(token.allowance("owner", "spender"), 200);
    token.transfer_from("spender", "owner", "carol", 150).unwrap();
    assert_eq!(token.allowance("owner", "spender"), 50);
    assert_eq!(token.balance_of("carol"), 150);
    assert!(token.transfer_from("spender", "owner", "carol", 51).is_err());
}

#[test]
fn token_mint_and_burn_track_the_supply() {
    let mut token = TokenContract::new(
        "Test".to_string(),
        "TST".to_string(),
        1000,
        6,
        "owner".to_string(),
    )
    .unwrap();
    token.mint("owner", "alice", 500).unwrap();
    assert_eq!(token.total_supply, 1500);
    assert_eq!(token.balance_of("alice"), 500);
    assert!(token.mint("alice", "alice", 1).is_err());
    token.burn("alice", 200).unwrap();
    assert_eq!(token.total_supply, 1300);
    assert_eq!(token.balance_of("alice"), 300);
}

#[test]
fn validate_operation_enforces_rights() {
    let mut token = TokenContract::new(
        "Test".to_string(),
        "TST".to_string(),
        1000,
        6,
        "owner".to_string(),
    )
    .unwrap();
    token.transfer("owner", "alice", 100).unwrap();

    let own_transfer = TokenOperation::Transfer {
        from: "alice".to_string(),
        to: "bob".to_string(),
        amount: 50,
    };
    assert!(token.validate_operation(&own_transfer, "alice").is_ok());
    assert!(token.validate_operation(&own_transfer, "bob").is_err());

    let overdraft = TokenOperation::Transfer {
        from: "alice".to_string(),
        to: "bob".to_string(),
        amount: 101,
    };
    assert!(token.validate_operation(&overdraft, "alice").is_err());

    let mint = TokenOperation::Mint { to: "bob".to_string(), amount: 1 };
    assert!(token.validate_operation(&mint, "owner").is_ok());
    assert!(token.validate_operation(&mint, "alice").is_err());

    assert!(token.validate_operation(&TokenOperation::Pause, "owner").is_ok());
    assert!(token.validate_operation(&TokenOperation::Pause, "alice").is_err());
}

#[test]
fn paused_token_refuses_transfers() {
    let mut token = TokenContract::new(
        "Test".to_string(),
        "TST".to_string(),
        1000,
        6,
        "owner".to_string(),
    )
    .unwrap();
    token.pause("owner").unwrap();
    assert!(token.transfer("owner", "alice", 1).is_err());
    token.unpause("owner").unwrap();
    assert!(token.transfer("owner", "alice", 1).is_ok());
}

#[test]
fn staking_contract_enforces_the_minimum() {
    let mut staking = StakingContract::new(
        "token-1".to_string(),
        "validator-1".to_string(),
        100,
        50,
    )
    .unwrap();
    assert!(staking.stake("alice", 99).is_err());
    staking.stake("alice", 100).unwrap();
    staking.stake("alice", 400).unwrap();
    assert_eq!(staking.staked_amount("alice"), 500);
    assert_eq!(staking.total_staked, 500);
    assert!(staking.unstake("alice", 501).is_err());
    staking.unstake("alice", 200).unwrap();
    assert_eq!(staking.staked_amount("alice"), 300);
    assert_eq!(staking.total_staked, 300);
}

#[test]
fn staking_rewards_prorate_over_a_year() {
    let mut staking = StakingContract::new(
        "token-1".to_string(),
        "validator-1".to_string(),
        100,
        100,
    )
    .unwrap();
    staking.stake("alice", 1_000_000).unwrap();
    // A full year at one hundred permille yields a tenth of the stake.
    assert_eq!(staking.calculate_rewards("alice", 31_536_000), 100_000);
    // Half a year yields half of that.
    assert_eq!(staking.calculate_rewards("alice", 15_768_000), 50_000);
}

#[test]
fn staking_contract_rejects_bad_parameters() {
    assert!(StakingContract::new("".to_string(), "v".to_string(), 1, 1).is_err());
    assert!(StakingContract::new("t".to_string(), "".to_string(), 1, 1).is_err());
    assert!(StakingContract::new("t".to_string(), "v".to_string(), 0, 1).is_err());
}

#[test]
fn liquidity_pool_first_deposit_sets_the_shares() {
    let mut pool = LiquidityPool::new("A".to_string(), "B".to_string(), 3).unwrap();
    let minted = pool.add_liquidity("alice", 1000, 4000).unwrap();
    assert_eq!(minted, 1000);
    assert_eq!(pool.reserve_a, 1000);
    assert_eq!(pool.reserve_b, 4000);
    assert_eq!(pool.total_shares, 1000);
    assert_eq!(pool.share_of("alice"), 1000);
}

#[test]
fn liquidity_pool_rejects_off_ratio_deposits() {
    let mut pool = LiquidityPool::new("A".to_string(), "B".to_string(), 3).unwrap();
    pool.add_liquidity("alice", 1000, 4000).unwrap();
    assert!(pool.add_liquidity("bob", 100, 399).is_err());
    let minted = pool.add_liquidity("bob", 100, 400).unwrap();
    assert_eq!(minted, 100);
    assert_eq!(pool.share_of("bob"), 100);
}

#[test]
fn liquidity_swap_charges_the_fee() {
    let mut pool = LiquidityPool::new("A".to_string(), "B".to_string(), 3).unwrap();
    pool.add_liquidity("alice", 1000, 1000).unwrap();
    // 100 in at a 0.3% fee: 99 effective, 1000 * 99 / 1099 = 90 out.
    let out = pool.swap_a_for_b(100).unwrap();
    assert_eq!(out, 90);
    assert_eq!(pool.reserve_a, 1100);
    assert_eq!(pool.reserve_b, 910);
}

#[test]
fn liquidity_removal_pays_both_sides() {
    let mut pool = LiquidityPool::new("A".to_string(), "B".to_string(), 3).unwrap();
    pool.add_liquidity("alice", 1000, 4000).unwrap();
    let (a, b) = pool.remove_liquidity("alice", 500).unwrap();
    assert_eq!(a, 500);
    assert_eq!(b, 2000);
    assert_eq!(pool.reserve_a, 500);
    assert_eq!(pool.reserve_b, 2000);
    assert_eq!(pool.total_shares, 500);
    assert!(pool.remove_liquidity("alice", 501).is_err());
}

#[test]
fn liquidity_pool_rejects_bad_parameters() {
    assert!(LiquidityPool::new("A".to_string(), "A".to_string(), 3).is_err());
    assert!(LiquidityPool::new("".to_string(), "B".to_string(), 3).is_err());
    assert!(LiquidityPool::new("A".to_string(), "B".to_string(), 1000).is_err());
}
