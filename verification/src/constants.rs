//! Configuration values of the pool.

use vstd::prelude::*;

verus! {

/// How many transfer-hook programs a pool can whitelist.
pub const MAX_WHITELISTED_HOOKS: usize = 10;

/// Minimum liquidity of a pool.
pub const MIN_LIQUIDITY: u64 = 1000;

/// Denominator of every fee fraction (one basis point is 1 / 10000).
pub const FEE_DENOMINATOR: u64 = 10000;

/// Trade fee of a new pool, in basis points.
pub const DEFAULT_TRADE_FEE: u64 = 30;

/// Owner (swap) fee of a new pool, in basis points.
pub const DEFAULT_OWNER_FEE: u64 = 5;

/// Size of the replace-order id tables of the order book state.
pub const MAX_ORDER_LIMIT: usize = 10;

} // verus!
