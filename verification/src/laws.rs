//! Laws of the core, proved once and for all over the specification
//! transitions: sequential pool-identifier allocation and the exclusivity
//! of an active stake.

use vstd::prelude::*;

use crate::errors::DexError;
use crate::ops::spec_close_position;
use crate::ops::spec_create_lp_position;
use crate::ops::spec_create_pool;
use crate::ops::spec_stake;
use crate::ops::spec_unstake;
use crate::state::Pool;
use crate::state::Position;
use crate::state::Registry;
use crate::state::Stake;

verus! {

/// One successful pool creation as seen by the registry: the new pool takes
/// the counter value as its identifier and the counter steps by exactly
/// one.
pub open spec fn pool_creation_step(before: Registry, after: Registry, created: Pool) -> bool {
    &&& created.pool_id == before.next_pool_id
    &&& after.next_pool_id == before.next_pool_id + 1
}

/// Every successful `create_pool` transition is a `pool_creation_step` of
/// its registry, and it does not change the registry's admin.
pub proof fn lemma_create_pool_is_creation_step(
    registry: Registry,
    caller: u64,
    fee_bps: u16,
    token_a_price_cents: u64,
    token_b_price_cents: u64,
    token_a_kind: u8,
    token_b_kind: u8,
    token_a_mint: u64,
    token_a_frozen: bool,
    token_b_mint: u64,
    token_b_frozen: bool,
    guarantee_policy: u8,
    allowed_assets_mask: u16,
    guarantee_mint: u64,
)
    requires
        spec_create_pool(
            registry,
            caller,
            fee_bps,
            token_a_price_cents,
            token_b_price_cents,
            token_a_kind,
            token_b_kind,
            token_a_mint,
            token_a_frozen,
            token_b_mint,
            token_b_frozen,
            guarantee_policy,
            allowed_assets_mask,
            guarantee_mint,
        ) is Ok,
    ensures
        ({
            let out = spec_create_pool(
                registry,
                caller,
                fee_bps,
                token_a_price_cents,
                token_b_price_cents,
                token_a_kind,
                token_b_kind,
                token_a_mint,
                token_a_frozen,
                token_b_mint,
                token_b_frozen,
                guarantee_policy,
                allowed_assets_mask,
                guarantee_mint,
            )->Ok_0;
            pool_creation_step(registry, out.0, out.1) && out.0.admin == registry.admin
        }),
{
}

/// After `i` creation steps from a fresh registry the counter reads `i`.
proof fn lemma_counter_after_steps(regs: Seq<Registry>, pools: Seq<Pool>, i: int)
    requires
        regs.len() == pools.len() + 1,
        regs[0].next_pool_id == 0,
        forall|k: int|
            0 <= k < pools.len() ==> #[trigger] pool_creation_step(regs[k], regs[k + 1], pools[k]),
        0 <= i < regs.len(),
    ensures
        regs[i].next_pool_id == i,
    decreases i,
{
    if i > 0 {
        let j = i - 1;
        lemma_counter_after_steps(regs, pools, j);
        assert(pool_creation_step(regs[j], regs[j + 1], pools[j]));
    }
}

/// Sequential identifier allocation: any run of successful pool creations
/// against one registry, starting from the freshly initialized registry,
/// issues exactly the identifiers `0, 1, ..., N - 1`, in order, with no
/// duplicate and no gap.
pub proof fn lemma_pool_ids_sequential(regs: Seq<Registry>, pools: Seq<Pool>)
    requires
        regs.len() == pools.len() + 1,
        regs[0].next_pool_id == 0,
        forall|k: int|
            0 <= k < pools.len() ==> #[trigger] pool_creation_step(regs[k], regs[k + 1], pools[k]),
    ensures
        forall|i: int| 0 <= i < pools.len() ==> (#[trigger] pools[i]).pool_id == i,
        forall|i: int, j: int|
            #![trigger pools[i], pools[j]]
            0 <= i < pools.len() && 0 <= j < pools.len() && i != j ==> pools[i].pool_id
                != pools[j].pool_id,
{
    assert forall|i: int| 0 <= i < pools.len() implies (#[trigger] pools[i]).pool_id == i by {
        lemma_counter_after_steps(regs, pools, i);
        assert(pool_creation_step(regs[i], regs[i + 1], pools[i]));
    }
}

/// One successful position creation as seen by the pool: the new position
/// takes the counter value as its identifier and the counter steps by
/// exactly one.
pub open spec fn position_creation_step(before: Pool, after: Pool, created: Position) -> bool {
    &&& created.position_id == before.next_position_id
    &&& after.next_position_id == before.next_position_id + 1
}

/// Every successful `create_lp_position` transition is a
/// `position_creation_step` of its pool, and it changes nothing of the
/// pool but the position counter.
pub proof fn lemma_create_lp_position_is_creation_step(
    pool: Pool,
    position: Position,
    owner: u64,
    lp_mint: u64,
    min_price_cents: u64,
    max_price_cents: u64,
    left_function_type: u8,
    left_params: [i64; 5],
    right_function_type: u8,
    right_params: [i64; 5],
)
    requires
        spec_create_lp_position(
            pool,
            position,
            owner,
            lp_mint,
            min_price_cents,
            max_price_cents,
            left_function_type,
            left_params,
            right_function_type,
            right_params,
        ) is Ok,
    ensures
        ({
            let out = spec_create_lp_position(
                pool,
                position,
                owner,
                lp_mint,
                min_price_cents,
                max_price_cents,
                left_function_type,
                left_params,
                right_function_type,
                right_params,
            )->Ok_0;
            &&& position_creation_step(pool, out.0, out.1)
            &&& out.0 == (Pool { next_position_id: out.0.next_position_id, ..pool })
        }),
{
}

/// After `i` creation steps the pool's position counter reads `i` more
/// than at the start.
proof fn lemma_position_counter_after_steps(pools: Seq<Pool>, positions: Seq<Position>, i: int)
    requires
        pools.len() == positions.len() + 1,
        forall|k: int|
            0 <= k < positions.len() ==> #[trigger] position_creation_step(
                pools[k],
                pools[k + 1],
                positions[k],
            ),
        0 <= i < pools.len(),
    ensures
        pools[i].next_position_id == pools[0].next_position_id + i,
    decreases i,
{
    if i > 0 {
        let j = i - 1;
        lemma_position_counter_after_steps(pools, positions, j);
        assert(position_creation_step(pools[j], pools[j + 1], positions[j]));
    }
}

/// Sequential identifier allocation within one pool: any run of successful
/// position creations issues strictly increasing, consecutive identifiers
/// starting at the pool's counter value, with no duplicate and no gap.
pub proof fn lemma_position_ids_sequential(pools: Seq<Pool>, positions: Seq<Position>)
    requires
        pools.len() == positions.len() + 1,
        forall|k: int|
            0 <= k < positions.len() ==> #[trigger] position_creation_step(
                pools[k],
                pools[k + 1],
                positions[k],
            ),
    ensures
        forall|i: int|
            0 <= i < positions.len() ==> (#[trigger] positions[i]).position_id
                == pools[0].next_position_id + i,
        forall|i: int, j: int|
            #![trigger positions[i], positions[j]]
            0 <= i < positions.len() && 0 <= j < positions.len() && i != j
                ==> positions[i].position_id != positions[j].position_id,
{
    assert forall|i: int|
        0 <= i < positions.len() implies (#[trigger] positions[i]).position_id == pools[0].next_position_id
        + i by {
        lemma_position_counter_after_steps(pools, positions, i);
        assert(position_creation_step(pools[i], pools[i + 1], positions[i]));
    }
}

/// Stake exclusivity: once a stake has been taken, a second stake on the
/// same position without an intervening unstake is rejected with
/// `AlreadyStaked`, and so is closing the position.
pub proof fn lemma_stake_exclusive(
    pool: Pool,
    position: Position,
    stake: Stake,
    caller: u64,
    slot1: u64,
    slot2: u64,
)
    requires
        spec_stake(pool, position, stake, caller, slot1) is Ok,
    ensures
        ({
            let out = spec_stake(pool, position, stake, caller, slot1)->Ok_0;
            &&& spec_stake(pool, out.0, out.1, caller, slot2) == Err::<
                (Position, Stake),
                DexError,
            >(DexError::AlreadyStaked)
            &&& spec_close_position(pool, out.0, out.1, caller) == Err::<Position, DexError>(
                DexError::AlreadyStaked,
            )
        }),
{
}

/// While a stake is active the underlying position cannot be dissolved:
/// `close_position` is rejected whoever calls it and whatever pool record
/// is supplied.
pub proof fn lemma_no_close_while_staked(pool: Pool, position: Position, stake: Stake, caller: u64)
    requires
        stake.active,
    ensures
        spec_close_position(pool, position, stake, caller) is Err,
{
}

/// Release of exclusivity: after a successful unstake the stake is no
/// longer active, and closing the position succeeds.
pub proof fn lemma_unstake_then_close(pool: Pool, position: Position, stake: Stake, caller: u64)
    requires
        spec_unstake(pool, position, stake, caller) is Ok,
    ensures
        ({
            let out = spec_unstake(pool, position, stake, caller)->Ok_0;
            &&& !out.1.active
            &&& spec_close_position(pool, out.0, out.1, caller) is Ok
        }),
{
}

} // verus!
