//! The error taxonomy of the core: every operation fails with exactly one of
//! these terminal, non-retryable validation or authorization errors, and a
//! failing operation leaves all state unchanged.

use vstd::prelude::*;

verus! {

/// Why an operation was rejected.
#[derive(Clone, Copy, Debug, PartialEq, Eq)]
pub enum DexError {
    /// The config or registry record was already initialized.
    AlreadyInitialized,
    /// The caller is not the stored admin or owner.
    Unauthorized,
    /// The total fee exceeds 10000 basis points.
    InvalidFee,
    /// The token kind demands a frozen mint and the mint is not frozen.
    MintNotFrozen,
    /// The token kind demands an unfrozen mint and the mint is frozen.
    MintMustBeUnfrozen,
    /// The token kind is not one of the defined kinds.
    InvalidTokenKind,
    /// The guarantee policy value or its mask/mint pairing is inconsistent.
    InvalidGuaranteePolicy,
    /// The position's stake is already active.
    AlreadyStaked,
    /// The position's stake is not active.
    NotStaked,
    /// The position does not belong to the given pool.
    InvalidPosition,
    /// A counter increment or a fee/spacing computation left the numeric
    /// domain.
    Overflow,
    /// A seed price is zero.
    InvalidPrice,
    /// The position record was already initialized.
    PositionAlreadyInitialized,
    /// The minimum price is not strictly below the maximum price.
    InvalidPriceRange,
    /// The curve specification is not a well-formed linear or logarithmic
    /// spec.
    InvalidFunctionSpec,
}

} // verus!
