//! Pure validators: the token-kind/freeze compatibility table, the
//! guarantee-policy exclusivity rule, and the bonding-curve specification
//! check. None of them touches state; each returns the first violated
//! condition as a typed error.

use vstd::prelude::*;

use crate::errors::DexError;

verus! {

/// Wrapped foreign-chain asset proxy; its mint must be frozen.
pub const TOKEN_KIND_ERC20_PROXY: u8 = 1;

/// Fiat- or commodity-backed proxy; its mint must not be frozen.
pub const TOKEN_KIND_FIAT_GOLD_PROXY: u8 = 2;

/// Native gas-token wrapper; no freeze requirement.
pub const TOKEN_KIND_WRAPPED_SOL: u8 = 3;

/// Stable dollar-pegged asset; its mint must be frozen.
pub const TOKEN_KIND_USDC: u8 = 4;

/// Euro-pegged asset; its mint must be frozen.
pub const TOKEN_KIND_EUR: u8 = 5;

/// Commodity proxy; its mint must be frozen.
pub const TOKEN_KIND_COMMODITY_PROXY: u8 = 6;

/// Platform-native token; its mint must be frozen.
pub const TOKEN_KIND_NATIVE_TOKEN: u8 = 7;

/// Guarantee policy 0: the pool is backed by one fixed guarantee mint.
pub const GUARANTEE_POLICY_FIXED_MINT: u8 = 0;

/// Guarantee policy 1: the caller picks an asset from an allowed set.
pub const GUARANTEE_POLICY_USER_CHOICE: u8 = 1;

/// Allowed-asset mask bit of the native gas-token wrapper.
pub const ASSET_MASK_WSOL: u16 = 1 << 0;

/// Allowed-asset mask bit of the stable dollar-pegged asset.
pub const ASSET_MASK_USDC: u16 = 1 << 1;

/// Allowed-asset mask bit of the platform-native token.
pub const ASSET_MASK_NATIVE_TOKEN: u16 = 1 << 2;

/// Allowed-asset mask bit of the euro-pegged asset.
pub const ASSET_MASK_EUR_TOKEN: u16 = 1 << 3;

/// Allowed-asset mask bit of the fiat- or commodity-backed proxy.
pub const ASSET_MASK_FIAT_GOLD_PROXY: u16 = 1 << 4;

/// Allowed-asset mask bit of the commodity proxy.
pub const ASSET_MASK_COMMODITY_PROXY: u16 = 1 << 5;

/// Curve type 1: `f(x) = m * (x - x0) + y0`, parameters `[m, x0, y0, _, _]`.
pub const FUNCTION_LINEAR: u8 = 1;

/// Curve type 2: `g(x) = A * log_B(C * (-x + h)) + k`, parameters
/// `[A, B, C, h, k]`.
pub const FUNCTION_LOG: u8 = 2;

/// Fixed-point scale of curve parameters.
pub const PARAM_SCALE: i64 = 1_000_000;

/// The token-kind compatibility table. Kinds 1, 4, 5, 6 and 7 demand a
/// frozen mint, kind 2 demands an unfrozen mint, kind 3 accepts either, and
/// every other kind value is undefined.
pub open spec fn spec_token_kind_check(kind: u8, mint_frozen: bool) -> Result<(), DexError> {
    if kind == TOKEN_KIND_ERC20_PROXY || kind == TOKEN_KIND_USDC || kind == TOKEN_KIND_EUR
        || kind == TOKEN_KIND_COMMODITY_PROXY || kind == TOKEN_KIND_NATIVE_TOKEN {
        if mint_frozen {
            Ok(())
        } else {
            Err(DexError::MintNotFrozen)
        }
    } else if kind == TOKEN_KIND_FIAT_GOLD_PROXY {
        if mint_frozen {
            Err(DexError::MintMustBeUnfrozen)
        } else {
            Ok(())
        }
    } else if kind == TOKEN_KIND_WRAPPED_SOL {
        Ok(())
    } else {
        Err(DexError::InvalidTokenKind)
    }
}

/// Checks a token kind against its mint's freeze state, where
/// `mint_frozen` says whether the mint carries a freeze authority.
pub fn validate_token_kind(kind: u8, mint_frozen: bool) -> (r: Result<(), DexError>)
    ensures
        r == spec_token_kind_check(kind, mint_frozen),
{
    match kind {
        1 | 4 | 5 | 6 | 7 => {
            if !mint_frozen {
                return Err(DexError::MintNotFrozen);
            }
        },
        2 => {
            if mint_frozen {
                return Err(DexError::MintMustBeUnfrozen);
            }
        },
        3 => {},
        _ => {
            return Err(DexError::InvalidTokenKind);
        },
    }
    Ok(())
}

/// The guarantee-policy exclusivity rule. Policy 0 demands a non-default
/// guarantee mint and an empty asset mask; policy 1 demands a non-empty
/// asset mask and a default guarantee mint; every other policy value is
/// undefined.
pub open spec fn spec_guarantee_policy_check(
    policy: u8,
    allowed_assets_mask: u16,
    guarantee_mint: u64,
) -> Result<(), DexError> {
    if policy == GUARANTEE_POLICY_FIXED_MINT {
        if guarantee_mint == 0 || allowed_assets_mask != 0 {
            Err(DexError::InvalidGuaranteePolicy)
        } else {
            Ok(())
        }
    } else if policy == GUARANTEE_POLICY_USER_CHOICE {
        if allowed_assets_mask == 0 || guarantee_mint != 0 {
            Err(DexError::InvalidGuaranteePolicy)
        } else {
            Ok(())
        }
    } else {
        Err(DexError::InvalidGuaranteePolicy)
    }
}

/// Checks a guarantee policy against its asset mask and guarantee mint,
/// where a `guarantee_mint` of zero is the default (absent) mint.
pub fn validate_guarantee_policy(
    policy: u8,
    allowed_assets_mask: u16,
    guarantee_mint: u64,
) -> (r: Result<(), DexError>)
    ensures
        r == spec_guarantee_policy_check(policy, allowed_assets_mask, guarantee_mint),
{
    match policy {
        0 => {
            if guarantee_mint == 0 || allowed_assets_mask != 0 {
                return Err(DexError::InvalidGuaranteePolicy);
            }
        },
        1 => {
            if allowed_assets_mask == 0 || guarantee_mint != 0 {
                return Err(DexError::InvalidGuaranteePolicy);
            }
        },
        _ => {
            return Err(DexError::InvalidGuaranteePolicy);
        },
    }
    Ok(())
}

/// The bonding-curve rule. A linear spec accepts every parameter tuple; a
/// logarithmic spec demands a non-zero base parameter `B` and a non-zero
/// scale parameter `C`; every other curve type is undefined.
pub open spec fn spec_function_spec_check(function_type: u8, params: Seq<i64>) -> Result<
    (),
    DexError,
> {
    if function_type == FUNCTION_LINEAR {
        Ok(())
    } else if function_type == FUNCTION_LOG {
        if params[1] == 0 || params[2] == 0 {
            Err(DexError::InvalidFunctionSpec)
        } else {
            Ok(())
        }
    } else {
        Err(DexError::InvalidFunctionSpec)
    }
}

/// Checks one side's curve specification: the curve type and its five
/// fixed-point parameters.
pub fn validate_function_spec(function_type: u8, params: &[i64; 5]) -> (r: Result<(), DexError>)
    ensures
        r == spec_function_spec_check(function_type, params@),
{
    match function_type {
        1 => {},
        2 => {
            if params[1] == 0 || params[2] == 0 {
                return Err(DexError::InvalidFunctionSpec);
            }
        },
        _ => {
            return Err(DexError::InvalidFunctionSpec);
        },
    }
    Ok(())
}

} // verus!
