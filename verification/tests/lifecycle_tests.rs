use origin_dex::errors::DexError;
use origin_dex::ops::add_liquidity_to_position;
use origin_dex::ops::close_position;
use origin_dex::ops::create_lp_position;
use origin_dex::ops::create_pool;
use origin_dex::ops::init_registry;
use origin_dex::ops::initialize;
use origin_dex::ops::set_admin;
use origin_dex::ops::stake_lp_nft;
use origin_dex::ops::unstake_lp_nft;
use origin_dex::state::Config;
use origin_dex::state::Pool;
use origin_dex::state::Position;
use origin_dex::state::Registry;
use origin_dex::state::Stake;

const ADMIN: u64 = 7;
const OWNER: u64 = 9;
const OTHER: u64 = 11;
const MINT_A: u64 = 101;
const MINT_B: u64 = 102;
const LP_MINT: u64 = 103;
const GUARANTEE: u64 = 104;

fn admin_registry() -> Registry {
    let mut registry = Registry::new();
    init_registry(&mut registry, ADMIN).unwrap();
    registry
}

fn valid_pool(registry: &mut Registry) -> Pool {
    create_pool(
        registry, ADMIN, 100, 100, 200, 3, 3, MINT_A, false, MINT_B, false, 0, 0, GUARANTEE,
    )
    .unwrap()
}

fn valid_position(pool: &mut Pool) -> Position {
    let mut position = Position::new();
    create_lp_position(
        pool,
        &mut position,
        OWNER,
        LP_MINT,
        100,
        300,
        1,
        [1, 0, 0, 0, 0],
        2,
        [3, 2, 5, 0, -1],
    )
    .unwrap();
    position
}

#[test]
fn config_initializes_once() {
    let mut config = Config::new();
    assert_eq!(initialize(&mut config, ADMIN), Ok(()));
    assert_eq!(config.admin, ADMIN);
    assert!(config.initialized);
    assert_eq!(initialize(&mut config, OTHER), Err(DexError::AlreadyInitialized));
    assert_eq!(config.admin, ADMIN);
}

#[test]
fn set_admin_is_admin_only() {
    let mut config = Config::new();
    initialize(&mut config, ADMIN).unwrap();
    assert_eq!(set_admin(&mut config, OTHER, OTHER), Err(DexError::Unauthorized));
    assert_eq!(config.admin, ADMIN);
    assert_eq!(set_admin(&mut config, ADMIN, OTHER), Ok(()));
    assert_eq!(config.admin, OTHER);
    assert_eq!(set_admin(&mut config, OTHER, ADMIN), Ok(()));
    assert_eq!(config.admin, ADMIN);
}

#[test]
fn registry_initializes_once() {
    let mut registry = Registry::new();
    assert_eq!(init_registry(&mut registry, ADMIN), Ok(()));
    assert_eq!(registry.admin, ADMIN);
    assert_eq!(registry.next_pool_id, 0);
    assert_eq!(init_registry(&mut registry, ADMIN), Err(DexError::AlreadyInitialized));
}

#[test]
fn create_pool_is_admin_only() {
    let mut registry = admin_registry();
    let r = create_pool(
        &mut registry, OTHER, 100, 100, 200, 3, 3, MINT_A, false, MINT_B, false, 0, 0, GUARANTEE,
    );
    assert_eq!(r, Err(DexError::Unauthorized));
    assert_eq!(registry.next_pool_id, 0);
}

#[test]
fn create_pool_rejects_a_fee_over_the_cap() {
    let mut registry = admin_registry();
    let r = create_pool(
        &mut registry, ADMIN, 10001, 100, 200, 3, 3, MINT_A, false, MINT_B, false, 0, 0, GUARANTEE,
    );
    assert_eq!(r, Err(DexError::InvalidFee));
}

#[test]
fn create_pool_checks_both_token_kinds() {
    let mut registry = admin_registry();
    let r = create_pool(
        &mut registry, ADMIN, 100, 100, 200, 1, 3, MINT_A, false, MINT_B, false, 0, 0, GUARANTEE,
    );
    assert_eq!(r, Err(DexError::MintNotFrozen));
    let r = create_pool(
        &mut registry, ADMIN, 100, 100, 200, 3, 2, MINT_A, false, MINT_B, true, 0, 0, GUARANTEE,
    );
    assert_eq!(r, Err(DexError::MintMustBeUnfrozen));
    let r = create_pool(
        &mut registry, ADMIN, 100, 100, 200, 8, 3, MINT_A, true, MINT_B, false, 0, 0, GUARANTEE,
    );
    assert_eq!(r, Err(DexError::InvalidTokenKind));
}

#[test]
fn create_pool_checks_the_guarantee_policy() {
    let mut registry = admin_registry();
    let r = create_pool(
        &mut registry, ADMIN, 100, 100, 200, 3, 3, MINT_A, false, MINT_B, false, 2, 0, GUARANTEE,
    );
    assert_eq!(r, Err(DexError::InvalidGuaranteePolicy));
}

#[test]
fn create_pool_checks_the_seed_prices() {
    let mut registry = admin_registry();
    let r = create_pool(
        &mut registry, ADMIN, 100, 0, 200, 3, 3, MINT_A, false, MINT_B, false, 0, 0, GUARANTEE,
    );
    assert_eq!(r, Err(DexError::InvalidPrice));
    let r = create_pool(
        &mut registry, ADMIN, 100, u64::MAX, 1, 3, 3, MINT_A, false, MINT_B, false, 0, 0, GUARANTEE,
    );
    assert_eq!(r, Err(DexError::Overflow));
}

#[test]
fn create_pool_fills_the_pool_record() {
    let mut registry = admin_registry();
    let pool = valid_pool(&mut registry);
    assert_eq!(pool.pool_id, 0);
    assert_eq!(pool.creator, ADMIN);
    assert_eq!(pool.fee_bps, 100);
    assert_eq!(pool.house_fee_bps, 5);
    assert_eq!(pool.lp_fee_bps, 95);
    assert_eq!(pool.bin_spacing_milli_cents, 1500);
    assert_eq!(pool.guarantee_policy, 0);
    assert_eq!(pool.guarantee_mint, GUARANTEE);
    assert_eq!(pool.next_position_id, 0);
    assert_eq!(registry.next_pool_id, 1);
}

#[test]
fn successive_pools_get_consecutive_ids() {
    let mut registry = admin_registry();
    let mut ids: Vec<u64> = Vec::new();
    for _ in 0..5 {
        ids.push(valid_pool(&mut registry).pool_id);
    }
    assert_eq!(ids, vec![0, 1, 2, 3, 4]);
    assert_eq!(registry.next_pool_id, 5);
}

#[test]
fn pool_counter_overflow_is_rejected() {
    let mut registry = admin_registry();
    registry.next_pool_id = u64::MAX;
    let r = create_pool(
        &mut registry, ADMIN, 100, 100, 200, 3, 3, MINT_A, false, MINT_B, false, 0, 0, GUARANTEE,
    );
    assert_eq!(r, Err(DexError::Overflow));
    assert_eq!(registry.next_pool_id, u64::MAX);
}

#[test]
fn position_rejects_an_unordered_price_range() {
    let mut registry = admin_registry();
    let mut pool = valid_pool(&mut registry);
    let mut position = Position::new();
    let r = create_lp_position(
        &mut pool,
        &mut position,
        OWNER,
        LP_MINT,
        300,
        100,
        1,
        [0; 5],
        1,
        [0; 5],
    );
    assert_eq!(r, Err(DexError::InvalidPriceRange));
    let r = create_lp_position(
        &mut pool,
        &mut position,
        OWNER,
        LP_MINT,
        200,
        200,
        1,
        [0; 5],
        1,
        [0; 5],
    );
    assert_eq!(r, Err(DexError::InvalidPriceRange));
    assert!(!position.initialized);
}

#[test]
fn position_validates_both_curve_sides() {
    let mut registry = admin_registry();
    let mut pool = valid_pool(&mut registry);
    let mut position = Position::new();
    let r = create_lp_position(
        &mut pool,
        &mut position,
        OWNER,
        LP_MINT,
        100,
        300,
        2,
        [3, 0, 5, 0, 0],
        1,
        [0; 5],
    );
    assert_eq!(r, Err(DexError::InvalidFunctionSpec));
    let r = create_lp_position(
        &mut pool,
        &mut position,
        OWNER,
        LP_MINT,
        100,
        300,
        1,
        [0; 5],
        3,
        [0; 5],
    );
    assert_eq!(r, Err(DexError::InvalidFunctionSpec));
    assert_eq!(pool.next_position_id, 0);
}

#[test]
fn position_slot_cannot_be_reused_while_initialized() {
    let mut registry = admin_registry();
    let mut pool = valid_pool(&mut registry);
    let mut position = valid_position(&mut pool);
    let r = create_lp_position(
        &mut pool,
        &mut position,
        OWNER,
        LP_MINT,
        100,
        300,
        1,
        [0; 5],
        1,
        [0; 5],
    );
    assert_eq!(r, Err(DexError::PositionAlreadyInitialized));
    assert_eq!(pool.next_position_id, 1);
}

#[test]
fn position_counter_overflow_is_rejected() {
    let mut registry = admin_registry();
    let mut pool = valid_pool(&mut registry);
    pool.next_position_id = u64::MAX;
    let mut position = Position::new();
    let r = create_lp_position(
        &mut pool,
        &mut position,
        OWNER,
        LP_MINT,
        100,
        300,
        1,
        [0; 5],
        1,
        [0; 5],
    );
    assert_eq!(r, Err(DexError::Overflow));
}

#[test]
fn position_creation_issues_ids_and_one_unit() {
    let mut registry = admin_registry();
    let mut pool = valid_pool(&mut registry);
    let position = valid_position(&mut pool);
    assert_eq!(position.position_id, 0);
    assert_eq!(position.pool_id, pool.pool_id);
    assert_eq!(position.owner, OWNER);
    assert_eq!(position.owner_units, 1);
    assert_eq!(position.escrow_units, 0);
    assert!(position.initialized);
    assert_eq!(pool.next_position_id, 1);
    let second = valid_position(&mut pool);
    assert_eq!(second.position_id, 1);
    assert_eq!(pool.next_position_id, 2);
}

#[test]
fn add_liquidity_checks_references_and_owner() {
    let mut registry = admin_registry();
    let mut pool = valid_pool(&mut registry);
    let other_pool = valid_pool(&mut registry);
    let mut position = valid_position(&mut pool);
    assert_eq!(
        add_liquidity_to_position(&other_pool, &mut position, OWNER),
        Err(DexError::InvalidPosition)
    );
    assert_eq!(
        add_liquidity_to_position(&pool, &mut position, OTHER),
        Err(DexError::Unauthorized)
    );
    assert_eq!(add_liquidity_to_position(&pool, &mut position, OWNER), Ok(()));
    assert_eq!(position.owner_units, 2);
    assert_eq!(add_liquidity_to_position(&pool, &mut position, OWNER), Ok(()));
    assert_eq!(position.owner_units, 3);
}

#[test]
fn add_liquidity_rejects_a_supply_overflow() {
    let mut registry = admin_registry();
    let mut pool = valid_pool(&mut registry);
    let mut position = valid_position(&mut pool);
    position.owner_units = u64::MAX;
    assert_eq!(
        add_liquidity_to_position(&pool, &mut position, OWNER),
        Err(DexError::Overflow)
    );
    assert_eq!(position.owner_units, u64::MAX);
}

#[test]
fn stake_records_the_escrow() {
    let mut registry = admin_registry();
    let mut pool = valid_pool(&mut registry);
    let mut position = valid_position(&mut pool);
    let mut stake = Stake::new();
    assert_eq!(stake_lp_nft(&pool, &mut position, &mut stake, OWNER, 1234), Ok(()));
    assert!(stake.active);
    assert_eq!(stake.pool_id, pool.pool_id);
    assert_eq!(stake.position_id, position.position_id);
    assert_eq!(stake.owner, OWNER);
    assert_eq!(stake.staked_at_slot, 1234);
    assert_eq!(stake.rebate_bps, 0);
    assert_eq!(position.owner_units, 0);
    assert_eq!(position.escrow_units, 1);
}

#[test]
fn stake_checks_references_and_owner() {
    let mut registry = admin_registry();
    let mut pool = valid_pool(&mut registry);
    let other_pool = valid_pool(&mut registry);
    let mut position = valid_position(&mut pool);
    let mut stake = Stake::new();
    assert_eq!(
        stake_lp_nft(&other_pool, &mut position, &mut stake, OWNER, 1),
        Err(DexError::InvalidPosition)
    );
    assert_eq!(
        stake_lp_nft(&pool, &mut position, &mut stake, OTHER, 1),
        Err(DexError::Unauthorized)
    );
    assert!(!stake.active);
    assert_eq!(position.owner_units, 1);
}

#[test]
fn staking_twice_fails_already_staked() {
    let mut registry = admin_registry();
    let mut pool = valid_pool(&mut registry);
    let mut position = valid_position(&mut pool);
    let mut stake = Stake::new();
    stake_lp_nft(&pool, &mut position, &mut stake, OWNER, 1).unwrap();
    assert_eq!(
        stake_lp_nft(&pool, &mut position, &mut stake, OWNER, 2),
        Err(DexError::AlreadyStaked)
    );
    assert_eq!(position.escrow_units, 1);
}

#[test]
fn unstake_demands_an_active_stake() {
    let mut registry = admin_registry();
    let mut pool = valid_pool(&mut registry);
    let mut position = valid_position(&mut pool);
    let mut stake = Stake::new();
    assert_eq!(
        unstake_lp_nft(&pool, &mut position, &mut stake, OWNER),
        Err(DexError::NotStaked)
    );
}

#[test]
fn unstake_demands_the_stake_owner() {
    let mut registry = admin_registry();
    let mut pool = valid_pool(&mut registry);
    let mut position = valid_position(&mut pool);
    let mut stake = Stake::new();
    stake_lp_nft(&pool, &mut position, &mut stake, OWNER, 1).unwrap();
    // A forged stake record naming another owner is rejected even though
    // the position's owner matches the caller.
    stake.owner = OTHER;
    assert_eq!(
        unstake_lp_nft(&pool, &mut position, &mut stake, OWNER),
        Err(DexError::Unauthorized)
    );
    assert!(stake.active);
}

#[test]
fn unstake_returns_the_escrowed_unit() {
    let mut registry = admin_registry();
    let mut pool = valid_pool(&mut registry);
    let mut position = valid_position(&mut pool);
    let mut stake = Stake::new();
    stake_lp_nft(&pool, &mut position, &mut stake, OWNER, 1).unwrap();
    assert_eq!(unstake_lp_nft(&pool, &mut position, &mut stake, OWNER), Ok(()));
    assert!(!stake.active);
    assert_eq!(position.owner_units, 1);
    assert_eq!(position.escrow_units, 0);
}

#[test]
fn close_fails_while_the_stake_is_active() {
    let mut registry = admin_registry();
    let mut pool = valid_pool(&mut registry);
    let mut position = valid_position(&mut pool);
    let mut stake = Stake::new();
    stake_lp_nft(&pool, &mut position, &mut stake, OWNER, 1).unwrap();
    assert_eq!(
        close_position(&pool, &mut position, &stake, OWNER),
        Err(DexError::AlreadyStaked)
    );
    assert!(position.initialized);
}

#[test]
fn close_checks_references_and_owner() {
    let mut registry = admin_registry();
    let mut pool = valid_pool(&mut registry);
    let other_pool = valid_pool(&mut registry);
    let mut position = valid_position(&mut pool);
    let stake = Stake::new();
    assert_eq!(
        close_position(&other_pool, &mut position, &stake, OWNER),
        Err(DexError::InvalidPosition)
    );
    assert_eq!(
        close_position(&pool, &mut position, &stake, OTHER),
        Err(DexError::Unauthorized)
    );
    assert!(position.initialized);
}

#[test]
fn close_burns_and_frees_the_slot() {
    let mut registry = admin_registry();
    let mut pool = valid_pool(&mut registry);
    let mut position = valid_position(&mut pool);
    let stake = Stake::new();
    assert_eq!(close_position(&pool, &mut position, &stake, OWNER), Ok(()));
    assert!(!position.initialized);
    assert_eq!(position.owner_units, 0);
    assert_eq!(position.escrow_units, 0);
}

#[test]
fn end_to_end_lifecycle() {
    let mut registry = Registry::new();
    init_registry(&mut registry, ADMIN).unwrap();
    let mut pool = create_pool(
        &mut registry, ADMIN, 100, 100, 200, 3, 3, MINT_A, false, MINT_B, false, 0, 0, GUARANTEE,
    )
    .unwrap();
    assert_eq!((pool.house_fee_bps, pool.lp_fee_bps), (5, 95));
    assert_eq!(pool.bin_spacing_milli_cents, 1500);

    let mut position = Position::new();
    create_lp_position(
        &mut pool,
        &mut position,
        OWNER,
        LP_MINT,
        100,
        300,
        1,
        [2, 100, 50, 0, 0],
        2,
        [3, 2, 5, 300, -1],
    )
    .unwrap();
    assert_eq!(position.position_id, 0);

    let mut stake = Stake::new();
    stake_lp_nft(&pool, &mut position, &mut stake, OWNER, 555).unwrap();
    unstake_lp_nft(&pool, &mut position, &mut stake, OWNER).unwrap();
    assert_eq!(close_position(&pool, &mut position, &stake, OWNER), Ok(()));
    assert_eq!(position.owner_units, 0);
    assert!(!position.initialized);
}
