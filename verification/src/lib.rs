//! Core ledger logic of an automated-market-maker: a registry that issues
//! pool identifiers, pools that pair two tokens and issue position
//! identifiers, liquidity positions carrying piecewise price-response
//! curves, and stake records that escrow a position's ownership token.
//!
//! Every operation is a pure transition on plain values: the deterministic
//! addressing of records, signature verification and the token ledger that
//! moves ownership units are collaborators of the surrounding program, which
//! hands this crate the values it read and applies the transitions it
//! returns.

pub mod errors;
pub mod math;
pub mod validate;
pub mod state;
pub mod ops;
pub mod laws;
