//! Fee-split and bin-spacing arithmetic.
//!
//! The house/LP fee split takes five percent of the total fee (rounded down)
//! for the house and leaves the rest to liquidity providers. Bin spacing is
//! the average of the two seed prices, in cents, expressed in milli-cents.

use vstd::prelude::*;

use crate::errors::DexError;

verus! {

/// The house share of a total fee: five percent of `fee_bps`, rounded down,
/// with the multiplication saturating at the `u16` ceiling first.
pub open spec fn spec_house_fee_bps(fee_bps: u16) -> u16 {
    if fee_bps * 5 > u16::MAX {
        (u16::MAX as int / 100) as u16
    } else {
        (fee_bps * 5 / 100) as u16
    }
}

/// What the bin-spacing computation returns: the average of the two seed
/// prices times ten, rejecting a zero price and any overflow.
pub open spec fn spec_bin_spacing(
    token_a_price_cents: u64,
    token_b_price_cents: u64,
) -> Result<u64, DexError> {
    if token_a_price_cents == 0 || token_b_price_cents == 0 {
        Err(DexError::InvalidPrice)
    } else if token_a_price_cents + token_b_price_cents > u64::MAX {
        Err(DexError::Overflow)
    } else if (token_a_price_cents + token_b_price_cents) / 2 * 10 > u64::MAX {
        Err(DexError::Overflow)
    } else {
        Ok((((token_a_price_cents + token_b_price_cents) / 2) * 10) as u64)
    }
}

/// Splits a total fee into the house share and the liquidity-provider share.
///
/// The two shares always rebuild the total exactly, and within the admitted
/// fee domain (at most 10000 basis points) the house share is
/// `fee_bps * 5 / 100` with no saturation.
pub fn compute_fee_split(fee_bps: u16) -> (r: (u16, u16))
    ensures
        r.0 == spec_house_fee_bps(fee_bps),
        r.0 <= fee_bps,
        r.0 + r.1 == fee_bps,
        fee_bps <= 10000 ==> r.0 == fee_bps * 5 / 100,
{
    let scaled: u16 = if fee_bps > u16::MAX / 5 {
        u16::MAX
    } else {
        fee_bps * 5
    };
    let house_fee_bps: u16 = scaled / 100;
    let lp_fee_bps: u16 = fee_bps - house_fee_bps;
    (house_fee_bps, lp_fee_bps)
}

/// Derives a pool's bin spacing from its two seed prices, in milli-cents:
/// the average price times ten. A zero price is rejected as `InvalidPrice`;
/// a sum or product that leaves `u64` is rejected as `Overflow`.
pub fn compute_bin_spacing_milli_cents(
    token_a_price_cents: u64,
    token_b_price_cents: u64,
) -> (r: Result<u64, DexError>)
    ensures
        r == spec_bin_spacing(token_a_price_cents, token_b_price_cents),
        r matches Ok(spacing) ==> spacing > 0,
{
    if token_a_price_cents == 0 || token_b_price_cents == 0 {
        return Err(DexError::InvalidPrice);
    }
    if token_b_price_cents > u64::MAX - token_a_price_cents {
        return Err(DexError::Overflow);
    }
    let avg_cents: u64 = (token_a_price_cents + token_b_price_cents) / 2;
    if avg_cents > u64::MAX / 10 {
        return Err(DexError::Overflow);
    }
    Ok(avg_cents * 10)
}

} // verus!
