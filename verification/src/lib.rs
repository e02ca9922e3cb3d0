//! Verified core of the Tradium constant-product pool: the pool state, the
//! checks each instruction makes, the liquidity and swap arithmetic, and the
//! transfer-hook rules for token mints.

pub mod arith;
pub mod constants;
pub mod error;
pub mod keys;
pub mod laws;
pub mod token_programs;
pub mod instructions;
pub mod state;
