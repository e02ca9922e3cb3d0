//! The errors the pool's instructions report.

use vstd::prelude::*;

verus! {

/// Every way an instruction of the pool can be refused.
#[derive(Debug, Clone, Copy, PartialEq, Eq, Structural)]
pub enum TradiumError {
    UnwhitelistedTransferHookProgram,
    InvalidToken2022Mint,
    MissingTransferHookAccount,
    InvalidTokenProgram,
    InsufficientLiquidity,
    SlippageToleranceExceeded,
    InvalidTransferHookProgram,
    InvalidPoolState,
    InvalidCoinMint,
    InvalidPcMint,
    Unauthorized,
    MathOverflow,
    InvalidAmount,
    InvalidDepositAmount,
    InvalidCoinTokenProgram,
    InvalidPcTokenProgram,
    InvalidCoinVault,
    InvalidPcVault,
    InvalidLpMint,
    InsufficientLiquidityMinted,
    InsufficientBalance,
    EmptyPool,
    InsufficientWithdrawal,
    MissingTransferHookProgram,
    InvalidSwapDirection,
    InvalidInputAmount,
    SlippageExceeded,
}

} // verus!
