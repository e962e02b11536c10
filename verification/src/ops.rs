//! The operations of the core, each written twice: a specification
//! transition, a pure function from the old records and the request to
//! either the new records or the rejecting error, and an executable
//! operation proved to implement it exactly. A rejected operation leaves
//! every record unchanged.
//!
//! The surrounding program supplies the verified caller identity, the
//! mints' freeze flags and the clock slot, and performs the token-ledger
//! movements the transitions prescribe: one ownership unit minted to the
//! owner on creation and on each liquidity addition, one unit moved into
//! the stake's escrow vault on staking and back on unstaking, and the
//! owner's balance burned on closing.

use vstd::prelude::*;

use crate::errors::DexError;
use crate::math::compute_bin_spacing_milli_cents;
use crate::math::compute_fee_split;
use crate::math::spec_bin_spacing;
use crate::math::spec_house_fee_bps;
use crate::state::Config;
use crate::state::Pool;
use crate::state::Position;
use crate::state::Registry;
use crate::state::Stake;
use crate::state::custody_wf;
use crate::state::pool_wf;
use crate::state::position_wf;
use crate::state::spec_position_default;
use crate::validate::spec_function_spec_check;
use crate::validate::spec_guarantee_policy_check;
use crate::validate::spec_token_kind_check;
use crate::validate::validate_function_spec;
use crate::validate::validate_guarantee_policy;
use crate::validate::validate_token_kind;

verus! {

/// The rebate rate recorded on every new stake, in basis points.
pub const HOUSE_FEE_REBATE_BPS: u16 = 0;

/// What `initialize` does: reject a second initialization, otherwise record
/// the caller as admin.
pub open spec fn spec_initialize(config: Config, caller: u64) -> Result<Config, DexError> {
    if config.initialized {
        Err(DexError::AlreadyInitialized)
    } else {
        Ok(Config { admin: caller, initialized: true })
    }
}

/// What `set_admin` does: only the stored admin may replace the admin, and
/// the replacement is unconditional.
pub open spec fn spec_set_admin(config: Config, caller: u64, new_admin: u64) -> Result<
    Config,
    DexError,
> {
    if config.admin != caller {
        Err(DexError::Unauthorized)
    } else {
        Ok(Config { admin: new_admin, ..config })
    }
}

/// What `init_registry` does: reject a second initialization, otherwise
/// record the caller as admin and zero the pool counter.
pub open spec fn spec_init_registry(registry: Registry, caller: u64) -> Result<
    Registry,
    DexError,
> {
    if registry.initialized {
        Err(DexError::AlreadyInitialized)
    } else {
        Ok(Registry { admin: caller, next_pool_id: 0, initialized: true })
    }
}

/// What `create_pool` does: admin-only; the fee cap, both token kinds, the
/// guarantee policy and the seed prices are validated in that order; on
/// success the new pool takes the registry's counter value as its
/// identifier and the counter steps by one.
pub open spec fn spec_create_pool(
    registry: Registry,
    caller: u64,
    fee_bps: u16,
    token_a_price_cents: u64,
    token_b_price_cents: u64,
    token_a_kind: u8,
    token_b_kind: u8,
    token_a_mint: u64,
    token_a_frozen: bool,
    token_b_mint: u64,
    token_b_frozen: bool,
    guarantee_policy: u8,
    allowed_assets_mask: u16,
    guarantee_mint: u64,
) -> Result<(Registry, Pool), DexError> {
    if registry.admin != caller {
        Err(DexError::Unauthorized)
    } else if fee_bps > 10000 {
        Err(DexError::InvalidFee)
    } else {
        match spec_token_kind_check(token_a_kind, token_a_frozen) {
            Err(e) => Err(e),
            Ok(_) => match spec_token_kind_check(token_b_kind, token_b_frozen) {
                Err(e) => Err(e),
                Ok(_) => match spec_guarantee_policy_check(
                    guarantee_policy,
                    allowed_assets_mask,
                    guarantee_mint,
                ) {
                    Err(e) => Err(e),
                    Ok(_) => match spec_bin_spacing(token_a_price_cents, token_b_price_cents) {
                        Err(e) => Err(e),
                        Ok(spacing) => if registry.next_pool_id == u64::MAX {
                            Err(DexError::Overflow)
                        } else {
                            Ok(
                                (
                                    Registry {
                                        next_pool_id: (registry.next_pool_id + 1) as u64,
                                        ..registry
                                    },
                                    Pool {
                                        pool_id: registry.next_pool_id,
                                        creator: caller,
                                        token_a_mint,
                                        token_b_mint,
                                        token_a_kind,
                                        token_b_kind,
                                        token_a_frozen,
                                        token_b_frozen,
                                        fee_bps,
                                        lp_fee_bps: (fee_bps - spec_house_fee_bps(fee_bps)) as u16,
                                        house_fee_bps: spec_house_fee_bps(fee_bps),
                                        bin_spacing_milli_cents: spacing,
                                        guarantee_policy,
                                        allowed_assets_mask,
                                        guarantee_mint,
                                        next_position_id: 0,
                                    },
                                ),
                            )
                        },
                    },
                },
            },
        }
    }
}

/// What `create_lp_position` does: the price range must be ordered and both
/// curve specifications valid; the position slot must still be
/// uninitialized; on success the position takes the pool's counter value as
/// its identifier, the counter steps by one, and one ownership unit is
/// issued to the owner.
pub open spec fn spec_create_lp_position(
    pool: Pool,
    position: Position,
    owner: u64,
    lp_mint: u64,
    min_price_cents: u64,
    max_price_cents: u64,
    left_function_type: u8,
    left_params: [i64; 5],
    right_function_type: u8,
    right_params: [i64; 5],
) -> Result<(Pool, Position), DexError> {
    if min_price_cents >= max_price_cents {
        Err(DexError::InvalidPriceRange)
    } else {
        match spec_function_spec_check(left_function_type, left_params@) {
            Err(e) => Err(e),
            Ok(_) => match spec_function_spec_check(right_function_type, right_params@) {
                Err(e) => Err(e),
                Ok(_) => if position.initialized {
                    Err(DexError::PositionAlreadyInitialized)
                } else if pool.next_position_id == u64::MAX {
                    Err(DexError::Overflow)
                } else {
                    Ok(
                        (
                            Pool { next_position_id: (pool.next_position_id + 1) as u64, ..pool },
                            Position {
                                pool_id: pool.pool_id,
                                owner,
                                position_id: pool.next_position_id,
                                lp_mint,
                                min_price_cents,
                                max_price_cents,
                                left_function_type,
                                right_function_type,
                                left_params,
                                right_params,
                                initialized: true,
                                owner_units: 1,
                                escrow_units: 0,
                            },
                        ),
                    )
                },
            },
        }
    }
}

/// What `add_liquidity_to_position` does: the position must belong to the
/// given pool and the caller must be its owner; one more ownership unit is
/// minted to the owner.
pub open spec fn spec_add_liquidity(pool: Pool, position: Position, caller: u64) -> Result<
    Position,
    DexError,
> {
    if position.pool_id != pool.pool_id {
        Err(DexError::InvalidPosition)
    } else if position.owner != caller {
        Err(DexError::Unauthorized)
    } else if position.owner_units == u64::MAX {
        Err(DexError::Overflow)
    } else {
        Ok(Position { owner_units: (position.owner_units + 1) as u64, ..position })
    }
}

/// What `stake_lp_nft` does: the position must belong to the given pool and
/// the caller must be its owner; a stake that is already active is
/// rejected; on success the stake records pool, position, owner, the clock
/// slot and the rebate rate, and one ownership unit moves from the owner
/// into escrow.
pub open spec fn spec_stake(
    pool: Pool,
    position: Position,
    stake: Stake,
    caller: u64,
    now_slot: u64,
) -> Result<(Position, Stake), DexError> {
    if position.pool_id != pool.pool_id {
        Err(DexError::InvalidPosition)
    } else if position.owner != caller {
        Err(DexError::Unauthorized)
    } else if stake.active {
        Err(DexError::AlreadyStaked)
    } else {
        Ok(
            (
                Position {
                    owner_units: (position.owner_units - 1) as u64,
                    escrow_units: (position.escrow_units + 1) as u64,
                    ..position
                },
                Stake {
                    pool_id: pool.pool_id,
                    position_id: position.position_id,
                    owner: caller,
                    staked_at_slot: now_slot,
                    rebate_bps: HOUSE_FEE_REBATE_BPS,
                    active: true,
                },
            ),
        )
    }
}

/// What `unstake_lp_nft` does: the position must belong to the given pool
/// and the caller must be its owner; a stake that is not active is
/// rejected, as is a caller that is not the stake's recorded owner; on
/// success the stake deactivates and the escrowed unit returns to the
/// owner.
pub open spec fn spec_unstake(pool: Pool, position: Position, stake: Stake, caller: u64) -> Result<
    (Position, Stake),
    DexError,
> {
    if position.pool_id != pool.pool_id {
        Err(DexError::InvalidPosition)
    } else if position.owner != caller {
        Err(DexError::Unauthorized)
    } else if !stake.active {
        Err(DexError::NotStaked)
    } else if stake.owner != caller {
        Err(DexError::Unauthorized)
    } else {
        Ok(
            (
                Position {
                    owner_units: (position.owner_units + 1) as u64,
                    escrow_units: (position.escrow_units - 1) as u64,
                    ..position
                },
                Stake { active: false, ..stake },
            ),
        )
    }
}

/// What `close_position` does: the position must belong to the given pool
/// and the caller must be its owner; a position whose stake is active
/// cannot be closed; on success the owner's ownership-token balance is
/// burned and the position record is removed, leaving the slot as a fresh
/// uninitialized record.
pub open spec fn spec_close_position(
    pool: Pool,
    position: Position,
    stake: Stake,
    caller: u64,
) -> Result<Position, DexError> {
    if position.pool_id != pool.pool_id {
        Err(DexError::InvalidPosition)
    } else if position.owner != caller {
        Err(DexError::Unauthorized)
    } else if stake.active {
        Err(DexError::AlreadyStaked)
    } else {
        Ok(spec_position_default())
    }
}

/// Initializes the config record with the caller as admin; a second call
/// fails with `AlreadyInitialized`.
pub fn initialize(config: &mut Config, caller: u64) -> (r: Result<(), DexError>)
    ensures
        match spec_initialize(*old(config), caller) {
            Ok(c) => r == Ok::<(), DexError>(()) && *final(config) == c,
            Err(e) => r == Err::<(), DexError>(e) && *final(config) == *old(config),
        },
{
    if config.initialized {
        return Err(DexError::AlreadyInitialized);
    }
    config.admin = caller;
    config.initialized = true;
    Ok(())
}

/// Replaces the admin of the config record; only the stored admin may call
/// it.
pub fn set_admin(config: &mut Config, caller: u64, new_admin: u64) -> (r: Result<(), DexError>)
    ensures
        match spec_set_admin(*old(config), caller, new_admin) {
            Ok(c) => r == Ok::<(), DexError>(()) && *final(config) == c,
            Err(e) => r == Err::<(), DexError>(e) && *final(config) == *old(config),
        },
{
    if config.admin != caller {
        return Err(DexError::Unauthorized);
    }
    config.admin = new_admin;
    Ok(())
}

/// Initializes the registry with the caller as admin and a zeroed pool
/// counter; a second call fails with `AlreadyInitialized`.
pub fn init_registry(registry: &mut Registry, caller: u64) -> (r: Result<(), DexError>)
    ensures
        match spec_init_registry(*old(registry), caller) {
            Ok(g) => r == Ok::<(), DexError>(()) && *final(registry) == g,
            Err(e) => r == Err::<(), DexError>(e) && *final(registry) == *old(registry),
        },
{
    if registry.initialized {
        return Err(DexError::AlreadyInitialized);
    }
    registry.admin = caller;
    registry.next_pool_id = 0;
    registry.initialized = true;
    Ok(())
}

/// Creates a pool under the registry: validates the request, issues the
/// next pool identifier, and steps the registry's counter. Either both the
/// new pool and the stepped counter take effect, or neither does. Every
/// successfully created pool is well formed.
pub fn create_pool(
    registry: &mut Registry,
    caller: u64,
    fee_bps: u16,
    token_a_price_cents: u64,
    token_b_price_cents: u64,
    token_a_kind: u8,
    token_b_kind: u8,
    token_a_mint: u64,
    token_a_frozen: bool,
    token_b_mint: u64,
    token_b_frozen: bool,
    guarantee_policy: u8,
    allowed_assets_mask: u16,
    guarantee_mint: u64,
) -> (r: Result<Pool, DexError>)
    ensures
        match spec_create_pool(
            *old(registry),
            caller,
            fee_bps,
            token_a_price_cents,
            token_b_price_cents,
            token_a_kind,
            token_b_kind,
            token_a_mint,
            token_a_frozen,
            token_b_mint,
            token_b_frozen,
            guarantee_policy,
            allowed_assets_mask,
            guarantee_mint,
        ) {
            Ok(out) => r == Ok::<Pool, DexError>(out.1) && *final(registry) == out.0,
            Err(e) => r == Err::<Pool, DexError>(e) && *final(registry) == *old(registry),
        },
        r matches Ok(pool) ==> pool_wf(pool),
{
    if registry.admin != caller {
        return Err(DexError::Unauthorized);
    }
    if fee_bps > 10000 {
        return Err(DexError::InvalidFee);
    }
    match validate_token_kind(token_a_kind, token_a_frozen) {
        Err(e) => {
            return Err(e);
        },
        Ok(_) => {},
    }
    match validate_token_kind(token_b_kind, token_b_frozen) {
        Err(e) => {
            return Err(e);
        },
        Ok(_) => {},
    }
    match validate_guarantee_policy(guarantee_policy, allowed_assets_mask, guarantee_mint) {
        Err(e) => {
            return Err(e);
        },
        Ok(_) => {},
    }
    let bin_spacing_milli_cents: u64;
    match compute_bin_spacing_milli_cents(token_a_price_cents, token_b_price_cents) {
        Err(e) => {
            return Err(e);
        },
        Ok(spacing) => {
            bin_spacing_milli_cents = spacing;
        },
    }
    if registry.next_pool_id == u64::MAX {
        return Err(DexError::Overflow);
    }
    let (house_fee_bps, lp_fee_bps): (u16, u16) = compute_fee_split(fee_bps);
    let pool = Pool {
        pool_id: registry.next_pool_id,
        creator: caller,
        token_a_mint,
        token_b_mint,
        token_a_kind,
        token_b_kind,
        token_a_frozen,
        token_b_frozen,
        fee_bps,
        lp_fee_bps,
        house_fee_bps,
        bin_spacing_milli_cents,
        guarantee_policy,
        allowed_assets_mask,
        guarantee_mint,
        next_position_id: 0,
    };
    registry.next_pool_id = registry.next_pool_id + 1;
    Ok(pool)
}

/// Creates a liquidity position in the pool: validates the range and both
/// curve specifications, fills the uninitialized position slot, issues the
/// next position identifier, steps the pool's counter, and issues one
/// ownership unit to the owner. Every successfully created position is well
/// formed and carries its unit with the owner.
pub fn create_lp_position(
    pool: &mut Pool,
    position: &mut Position,
    owner: u64,
    lp_mint: u64,
    min_price_cents: u64,
    max_price_cents: u64,
    left_function_type: u8,
    left_params: [i64; 5],
    right_function_type: u8,
    right_params: [i64; 5],
) -> (r: Result<(), DexError>)
    ensures
        match spec_create_lp_position(
            *old(pool),
            *old(position),
            owner,
            lp_mint,
            min_price_cents,
            max_price_cents,
            left_function_type,
            left_params,
            right_function_type,
            right_params,
        ) {
            Ok(out) => r == Ok::<(), DexError>(()) && *final(pool) == out.0 && *final(position)
                == out.1,
            Err(e) => r == Err::<(), DexError>(e) && *final(pool) == *old(pool) && *final(position)
                == *old(position),
        },
        r matches Ok(u) ==> position_wf(*final(position)),
{
    if min_price_cents >= max_price_cents {
        return Err(DexError::InvalidPriceRange);
    }
    match validate_function_spec(left_function_type, &left_params) {
        Err(e) => {
            return Err(e);
        },
        Ok(_) => {},
    }
    match validate_function_spec(right_function_type, &right_params) {
        Err(e) => {
            return Err(e);
        },
        Ok(_) => {},
    }
    if position.initialized {
        return Err(DexError::PositionAlreadyInitialized);
    }
    if pool.next_position_id == u64::MAX {
        return Err(DexError::Overflow);
    }
    position.pool_id = pool.pool_id;
    position.owner = owner;
    position.position_id = pool.next_position_id;
    position.lp_mint = lp_mint;
    position.min_price_cents = min_price_cents;
    position.max_price_cents = max_price_cents;
    position.left_function_type = left_function_type;
    position.right_function_type = right_function_type;
    position.left_params = left_params;
    position.right_params = right_params;
    position.initialized = true;
    position.owner_units = 1;
    position.escrow_units = 0;
    pool.next_position_id = pool.next_position_id + 1;
    Ok(())
}

/// Mints one more ownership unit to the owner of the position; the caller
/// must be the recorded owner and the position must belong to the given
/// pool. Range and curve state do not change.
pub fn add_liquidity_to_position(pool: &Pool, position: &mut Position, caller: u64) -> (r: Result<
    (),
    DexError,
>)
    ensures
        match spec_add_liquidity(*pool, *old(position), caller) {
            Ok(p) => r == Ok::<(), DexError>(()) && *final(position) == p,
            Err(e) => r == Err::<(), DexError>(e) && *final(position) == *old(position),
        },
{
    if position.pool_id != pool.pool_id {
        return Err(DexError::InvalidPosition);
    }
    if position.owner != caller {
        return Err(DexError::Unauthorized);
    }
    if position.owner_units == u64::MAX {
        return Err(DexError::Overflow);
    }
    position.owner_units = position.owner_units + 1;
    Ok(())
}

/// Activates the stake on a position: the stake records pool, position,
/// owner, the clock slot and the rebate rate, and one ownership unit moves
/// from the owner's balance into the stake's escrow vault. An already
/// active stake is rejected with `AlreadyStaked`. The custody invariant is
/// preserved.
pub fn stake_lp_nft(
    pool: &Pool,
    position: &mut Position,
    stake: &mut Stake,
    caller: u64,
    now_slot: u64,
) -> (r: Result<(), DexError>)
    requires
        old(position).initialized,
        position_wf(*old(position)),
        custody_wf(*old(position), *old(stake)),
    ensures
        match spec_stake(*pool, *old(position), *old(stake), caller, now_slot) {
            Ok(out) => r == Ok::<(), DexError>(()) && *final(position) == out.0 && *final(stake)
                == out.1,
            Err(e) => r == Err::<(), DexError>(e) && *final(position) == *old(position)
                && *final(stake) == *old(stake),
        },
        position_wf(*final(position)),
        custody_wf(*final(position), *final(stake)),
{
    if position.pool_id != pool.pool_id {
        return Err(DexError::InvalidPosition);
    }
    if position.owner != caller {
        return Err(DexError::Unauthorized);
    }
    if stake.active {
        return Err(DexError::AlreadyStaked);
    }
    stake.pool_id = pool.pool_id;
    stake.position_id = position.position_id;
    stake.owner = caller;
    stake.staked_at_slot = now_slot;
    stake.rebate_bps = HOUSE_FEE_REBATE_BPS;
    stake.active = true;
    position.owner_units = position.owner_units - 1;
    position.escrow_units = position.escrow_units + 1;
    Ok(())
}

/// Deactivates the stake on a position and returns the escrowed ownership
/// unit to the owner; the caller must be both the position's and the
/// stake's recorded owner, and a stake that is not active is rejected with
/// `NotStaked`. The custody invariant is preserved.
pub fn unstake_lp_nft(pool: &Pool, position: &mut Position, stake: &mut Stake, caller: u64) -> (r:
    Result<(), DexError>)
    requires
        old(position).initialized,
        position_wf(*old(position)),
        custody_wf(*old(position), *old(stake)),
    ensures
        match spec_unstake(*pool, *old(position), *old(stake), caller) {
            Ok(out) => r == Ok::<(), DexError>(()) && *final(position) == out.0 && *final(stake)
                == out.1,
            Err(e) => r == Err::<(), DexError>(e) && *final(position) == *old(position)
                && *final(stake) == *old(stake),
        },
        position_wf(*final(position)),
        custody_wf(*final(position), *final(stake)),
{
    if position.pool_id != pool.pool_id {
        return Err(DexError::InvalidPosition);
    }
    if position.owner != caller {
        return Err(DexError::Unauthorized);
    }
    if !stake.active {
        return Err(DexError::NotStaked);
    }
    if stake.owner != caller {
        return Err(DexError::Unauthorized);
    }
    stake.active = false;
    position.owner_units = position.owner_units + 1;
    position.escrow_units = position.escrow_units - 1;
    Ok(())
}

/// Closes a position: the caller must be the recorded owner, the position
/// must belong to the given pool, and its stake must not be active. The
/// owner's ownership-token balance is burned and the position slot returns
/// to the fresh uninitialized state.
pub fn close_position(pool: &Pool, position: &mut Position, stake: &Stake, caller: u64) -> (r:
    Result<(), DexError>)
    requires
        old(position).initialized,
    ensures
        match spec_close_position(*pool, *old(position), *stake, caller) {
            Ok(p) => r == Ok::<(), DexError>(()) && *final(position) == p,
            Err(e) => r == Err::<(), DexError>(e) && *final(position) == *old(position),
        },
{
    if position.pool_id != pool.pool_id {
        return Err(DexError::InvalidPosition);
    }
    if position.owner != caller {
        return Err(DexError::Unauthorized);
    }
    if stake.active {
        return Err(DexError::AlreadyStaked);
    }
    *position = Position::new();
    Ok(())
}

} // verus!
