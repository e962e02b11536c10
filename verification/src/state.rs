//! The records of the core and their well-formedness predicates.
//!
//! Principals and mints are identified by plain `u64` account identifiers;
//! the surrounding program maps them to its own key space, and `0` stands
//! for the default (absent) identity. Custody of a position's ownership
//! token is modelled by two unit counters on the position: the units held
//! by the owner's token account and the units held in the stake's escrow
//! vault.

use vstd::prelude::*;

use crate::errors::DexError;
use crate::math::spec_house_fee_bps;
use crate::validate::spec_function_spec_check;
use crate::validate::spec_guarantee_policy_check;
use crate::validate::spec_token_kind_check;

verus! {

/// The deployment-wide config record: the admin identity.
#[derive(Clone, Copy, Debug, PartialEq, Eq)]
pub struct Config {
    /// The admin principal.
    pub admin: u64,
    /// Whether the record has been initialized.
    pub initialized: bool,
}

/// The deployment-wide registry: the admin allowed to create pools and the
/// counter issuing unique pool identifiers.
#[derive(Clone, Copy, Debug, PartialEq, Eq)]
pub struct Registry {
    /// The admin principal allowed to create pools.
    pub admin: u64,
    /// The identifier the next created pool receives.
    pub next_pool_id: u64,
    /// Whether the record has been initialized.
    pub initialized: bool,
}

/// A pool: the configuration of one token pair and the counter issuing
/// unique position identifiers within the pool.
#[derive(Clone, Copy, Debug, PartialEq, Eq)]
pub struct Pool {
    /// The identifier the registry issued to this pool.
    pub pool_id: u64,
    /// The principal that created the pool.
    pub creator: u64,
    /// The mint of the first token of the pair.
    pub token_a_mint: u64,
    /// The mint of the second token of the pair.
    pub token_b_mint: u64,
    /// The kind of the first token.
    pub token_a_kind: u8,
    /// The kind of the second token.
    pub token_b_kind: u8,
    /// Whether the first token's mint carries a freeze authority.
    pub token_a_frozen: bool,
    /// Whether the second token's mint carries a freeze authority.
    pub token_b_frozen: bool,
    /// The total fee in basis points.
    pub fee_bps: u16,
    /// The liquidity providers' share of the fee in basis points.
    pub lp_fee_bps: u16,
    /// The house's share of the fee in basis points.
    pub house_fee_bps: u16,
    /// The price granularity derived from the seed prices, in milli-cents.
    pub bin_spacing_milli_cents: u64,
    /// The guarantee policy, fixed mint or user choice.
    pub guarantee_policy: u8,
    /// The allowed-asset mask of the user-choice policy.
    pub allowed_assets_mask: u16,
    /// The fixed guarantee mint, or `0` under the user-choice policy.
    pub guarantee_mint: u64,
    /// The identifier the next created position receives.
    pub next_position_id: u64,
}

/// A liquidity position: a price range, one curve specification per side of
/// the range, and the custody counters of its ownership token.
#[derive(Clone, Copy, Debug, PartialEq, Eq)]
pub struct Position {
    /// The identifier of the pool the position belongs to.
    pub pool_id: u64,
    /// The principal that owns the position.
    pub owner: u64,
    /// The identifier the pool issued to this position.
    pub position_id: u64,
    /// The mint of the position's ownership token.
    pub lp_mint: u64,
    /// The lower end of the price range, in cents.
    pub min_price_cents: u64,
    /// The upper end of the price range, in cents.
    pub max_price_cents: u64,
    /// The curve type of the left side of the range.
    pub left_function_type: u8,
    /// The curve type of the right side of the range.
    pub right_function_type: u8,
    /// The five fixed-point parameters of the left curve.
    pub left_params: [i64; 5],
    /// The five fixed-point parameters of the right curve.
    pub right_params: [i64; 5],
    /// Whether the record has been initialized.
    pub initialized: bool,
    /// Ownership-token units held by the owner's token account.
    pub owner_units: u64,
    /// Ownership-token units held in the stake's escrow vault.
    pub escrow_units: u64,
}

/// A stake record: while active it holds custody of one unit of a
/// position's ownership token in exchange for a rebate.
#[derive(Clone, Copy, Debug, PartialEq, Eq)]
pub struct Stake {
    /// The identifier of the pool of the staked position.
    pub pool_id: u64,
    /// The identifier of the staked position.
    pub position_id: u64,
    /// The principal that staked the position.
    pub owner: u64,
    /// The slot of the monotonic clock at which the stake was taken.
    pub staked_at_slot: u64,
    /// The rebate rate recorded for this stake, in basis points.
    pub rebate_bps: u16,
    /// Whether the stake currently holds the escrowed unit.
    pub active: bool,
}

/// A pool is well formed when its fee respects the cap and splits exactly,
/// its bin spacing is positive, and its guarantee policy, token kinds and
/// freeze flags pass the validators.
pub open spec fn pool_wf(p: Pool) -> bool {
    &&& p.fee_bps <= 10000
    &&& p.house_fee_bps + p.lp_fee_bps == p.fee_bps
    &&& p.house_fee_bps == spec_house_fee_bps(p.fee_bps)
    &&& p.bin_spacing_milli_cents > 0
    &&& spec_token_kind_check(p.token_a_kind, p.token_a_frozen) == Ok::<(), DexError>(())
    &&& spec_token_kind_check(p.token_b_kind, p.token_b_frozen) == Ok::<(), DexError>(())
    &&& spec_guarantee_policy_check(p.guarantee_policy, p.allowed_assets_mask, p.guarantee_mint)
        == Ok::<(), DexError>(())
    &&& (p.guarantee_policy == 0 || p.guarantee_policy == 1)
}

/// An initialized position is well formed when its price range is ordered,
/// both curve specifications pass the validator, and its custody counters
/// cannot overflow when a unit moves between them.
pub open spec fn position_wf(p: Position) -> bool {
    p.initialized ==> {
        &&& p.min_price_cents < p.max_price_cents
        &&& spec_function_spec_check(p.left_function_type, p.left_params@)
            == Ok::<(), DexError>(())
        &&& spec_function_spec_check(p.right_function_type, p.right_params@)
            == Ok::<(), DexError>(())
        &&& p.owner_units + p.escrow_units <= u64::MAX
    }
}

/// The custody invariant tying a position to its stake record: while the
/// stake is active the escrow vault holds a unit, and while it is not the
/// owner holds one.
pub open spec fn custody_wf(position: Position, stake: Stake) -> bool {
    position.initialized ==> {
        &&& stake.active ==> position.escrow_units >= 1
        &&& !stake.active ==> position.owner_units >= 1
    }
}

impl Config {
    /// A fresh, uninitialized config record, as a newly allocated zeroed
    /// account reads.
    pub fn new() -> (c: Config)
        ensures
            c.admin == 0,
            !c.initialized,
    {
        Config { admin: 0, initialized: false }
    }
}

impl Registry {
    /// A fresh, uninitialized registry record, as a newly allocated zeroed
    /// account reads.
    pub fn new() -> (r: Registry)
        ensures
            r.admin == 0,
            r.next_pool_id == 0,
            !r.initialized,
    {
        Registry { admin: 0, next_pool_id: 0, initialized: false }
    }
}

impl Position {
    /// A fresh, uninitialized position record, as a newly allocated zeroed
    /// account reads.
    pub fn new() -> (p: Position)
        ensures
            p == spec_position_default(),
    {
        Position {
            pool_id: 0,
            owner: 0,
            position_id: 0,
            lp_mint: 0,
            min_price_cents: 0,
            max_price_cents: 0,
            left_function_type: 0,
            right_function_type: 0,
            left_params: [0, 0, 0, 0, 0],
            right_params: [0, 0, 0, 0, 0],
            initialized: false,
            owner_units: 0,
            escrow_units: 0,
        }
    }
}

/// The zeroed position record: the state of a position slot before creation
/// and after closing.
pub open spec fn spec_position_default() -> Position {
    Position {
        pool_id: 0,
        owner: 0,
        position_id: 0,
        lp_mint: 0,
        min_price_cents: 0,
        max_price_cents: 0,
        left_function_type: 0,
        right_function_type: 0,
        left_params: [0, 0, 0, 0, 0],
        right_params: [0, 0, 0, 0, 0],
        initialized: false,
        owner_units: 0,
        escrow_units: 0,
    }
}

impl Stake {
    /// A fresh, inactive stake record, as a newly allocated zeroed account
    /// reads.
    pub fn new() -> (s: Stake)
        ensures
            s.pool_id == 0,
            s.position_id == 0,
            s.owner == 0,
            s.staked_at_slot == 0,
            s.rebate_bps == 0,
            !s.active,
    {
        Stake {
            pool_id: 0,
            position_id: 0,
            owner: 0,
            staked_at_slot: 0,
            rebate_bps: 0,
            active: false,
        }
    }
}

} // verus!
