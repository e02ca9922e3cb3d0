//! Swaps: one token of the pool in, the other out, priced by the constant
//! product of the vault balances after the swap fee.

use vstd::prelude::*;

use crate::error::TradiumError;
use crate::instructions::shared::{MintInfo, mint_hook_program};
use crate::keys::{Key, is_default, keys_equal};
use crate::state::Tradium;
use crate::token_programs::token_2022_id;

verus! {

/// What a swap reads of its accounts: the two vaults and their balances
/// before the swap, the two mints, the token programs given for the input
/// and the output side, and the optional hook-program accounts.
#[derive(Debug, Clone, Copy)]
pub struct Swap {
    pub coin_vault: Key,
    pub coin_vault_amount: u64,
    pub pc_vault: Key,
    pub pc_vault_amount: u64,
    pub coin_mint: MintInfo,
    pub pc_mint: MintInfo,
    pub input_token_program: Key,
    pub output_token_program: Key,
    pub coin_transfer_hook_program: Option<Key>,
    pub pc_transfer_hook_program: Option<Key>,
}

/// One of the pool's two tokens.
#[derive(Debug, Clone, Copy, PartialEq, Eq, Structural)]
pub enum PoolSide {
    Coin,
    Pc,
}

/// The side a swap takes in: the coin for direction 0, the pc otherwise.
pub open spec fn input_side(swap_direction: u8) -> PoolSide {
    if swap_direction == 0 {
        PoolSide::Coin
    } else {
        PoolSide::Pc
    }
}

/// The side a swap pays out.
pub open spec fn output_side(swap_direction: u8) -> PoolSide {
    if swap_direction == 0 {
        PoolSide::Pc
    } else {
        PoolSide::Coin
    }
}

/// The checks a swap makes before pricing, in order: a direction of 0 or 1,
/// a positive input, and the pool's token programs for the input and the
/// output side.
pub open spec fn swap_checks(pool: Tradium, accounts: Swap, amount_in: u64, swap_direction: u8) -> Result<
    (),
    TradiumError,
> {
    let input_expected = if swap_direction == 0 {
        pool.coin_token_program
    } else {
        pool.pc_token_program
    };
    let output_expected = if swap_direction == 0 {
        pool.pc_token_program
    } else {
        pool.coin_token_program
    };
    if swap_direction > 1 {
        Err(TradiumError::InvalidSwapDirection)
    } else if amount_in == 0 {
        Err(TradiumError::InvalidInputAmount)
    } else if accounts.input_token_program@ != input_expected@ {
        Err(TradiumError::InvalidTokenProgram)
    } else if accounts.output_token_program@ != output_expected@ {
        Err(TradiumError::InvalidTokenProgram)
    } else {
        Ok(())
    }
}

/// First step of a swap: the checks of `swap_checks`.
pub fn swap(pool: &Tradium, accounts: &Swap, amount_in: u64, swap_direction: u8) -> (r: Result<
    (),
    TradiumError,
>)
    ensures
        r == swap_checks(*pool, *accounts, amount_in, swap_direction),
{
    if swap_direction > 1 {
        return Err(TradiumError::InvalidSwapDirection);
    }
    if amount_in == 0 {
        return Err(TradiumError::InvalidInputAmount);
    }
    let (input_expected, output_expected) = if swap_direction == 0 {
        (&pool.coin_token_program, &pool.pc_token_program)
    } else {
        (&pool.pc_token_program, &pool.coin_token_program)
    };
    if !keys_equal(&accounts.input_token_program, input_expected) {
        return Err(TradiumError::InvalidTokenProgram);
    }
    if !keys_equal(&accounts.output_token_program, output_expected) {
        return Err(TradiumError::InvalidTokenProgram);
    }
    Ok(())
}

/// The input that remains after the swap fee: `amount_in * (den - num) / den`,
/// rounded down.
pub open spec fn amount_after_fee(amount_in: u64, fee_numerator: u64, fee_denominator: u64) -> int {
    (amount_in * (fee_denominator - fee_numerator)) / (fee_denominator as int)
}

/// The output of a swap of `amount_in` against the reserves `reserve_in` and
/// `reserve_out`: with `a` the input after the fee,
/// `a * reserve_out / (reserve_in + a)`, rounded down. Each step of the
/// computation fails with `MathOverflow` when it leaves `u64` or divides by
/// zero (a fee numerator above its denominator counts as such a step).
pub open spec fn swap_output(
    amount_in: u64,
    fee_numerator: u64,
    fee_denominator: u64,
    reserve_in: u64,
    reserve_out: u64,
) -> Result<u64, TradiumError> {
    let a = amount_after_fee(amount_in, fee_numerator, fee_denominator);
    if fee_numerator > fee_denominator {
        Err(TradiumError::MathOverflow)
    } else if amount_in * (fee_denominator - fee_numerator) > u64::MAX {
        Err(TradiumError::MathOverflow)
    } else if fee_denominator == 0 {
        Err(TradiumError::MathOverflow)
    } else if reserve_in + a > u64::MAX {
        Err(TradiumError::MathOverflow)
    } else if a * reserve_out > u64::MAX {
        Err(TradiumError::MathOverflow)
    } else if reserve_in + a == 0 {
        Err(TradiumError::MathOverflow)
    } else if (a * reserve_out) / (reserve_in + a) <= reserve_out {
        Ok(((a * reserve_out) / (reserve_in + a)) as u64)
    } else {
        Err(TradiumError::InsufficientLiquidity)
    }
}

/// `swap_output`, computed with checked `u64` arithmetic.
pub fn compute_swap_output(
    amount_in: u64,
    fee_numerator: u64,
    fee_denominator: u64,
    reserve_in: u64,
    reserve_out: u64,
) -> (r: Result<u64, TradiumError>)
    ensures
        r == swap_output(amount_in, fee_numerator, fee_denominator, reserve_in, reserve_out),
{
    let keep = match fee_denominator.checked_sub(fee_numerator) {
        None => return Err(TradiumError::MathOverflow),
        Some(k) => k,
    };
    let gross = match amount_in.checked_mul(keep) {
        None => return Err(TradiumError::MathOverflow),
        Some(g) => g,
    };
    let after_fee = match gross.checked_div(fee_denominator) {
        None => return Err(TradiumError::MathOverflow),
        Some(a) => a,
    };
    let new_reserve_in = match reserve_in.checked_add(after_fee) {
        None => return Err(TradiumError::MathOverflow),
        Some(n) => n,
    };
    let product = match after_fee.checked_mul(reserve_out) {
        None => return Err(TradiumError::MathOverflow),
        Some(p) => p,
    };
    let amount_out = match product.checked_div(new_reserve_in) {
        None => return Err(TradiumError::MathOverflow),
        Some(o) => o,
    };
    if amount_out <= reserve_out {
        Ok(amount_out)
    } else {
        Err(TradiumError::InsufficientLiquidity)
    }
}

/// The token movements of an accepted swap: `amount_in` of the input side
/// from the user into its vault, `amount_out` of the output side from its
/// vault to the user.
#[derive(Debug, Clone, Copy, PartialEq, Eq, Structural)]
pub struct SwapPlan {
    pub amount_in: u64,
    pub amount_out: u64,
    pub input_side: PoolSide,
    pub output_side: PoolSide,
}

/// The priced swap: `swap_output` against the vault balances from before the
/// swap, with the pool's swap fee, in the given direction, refused when the
/// output falls below `minimum_amount_out`.
pub open spec fn swap_quote(
    pool: Tradium,
    accounts: Swap,
    amount_in: u64,
    minimum_amount_out: u64,
    swap_direction: u8,
) -> Result<SwapPlan, TradiumError> {
    let out = if swap_direction == 0 {
        swap_output(
            amount_in,
            pool.fees.swap_fee_numerator,
            pool.fees.swap_fee_denominator,
            accounts.coin_vault_amount,
            accounts.pc_vault_amount,
        )
    } else {
        swap_output(
            amount_in,
            pool.fees.swap_fee_numerator,
            pool.fees.swap_fee_denominator,
            accounts.pc_vault_amount,
            accounts.coin_vault_amount,
        )
    };
    match out {
        Err(e) => Err(e),
        Ok(amount_out) => if amount_out >= minimum_amount_out {
            Ok(
                SwapPlan {
                    amount_in,
                    amount_out,
                    input_side: input_side(swap_direction),
                    output_side: output_side(swap_direction),
                },
            )
        } else {
            Err(TradiumError::SlippageExceeded)
        },
    }
}

/// Second step of a swap: prices it and checks the slippage bound.
pub fn quote_swap(
    pool: &Tradium,
    accounts: &Swap,
    amount_in: u64,
    minimum_amount_out: u64,
    swap_direction: u8,
) -> (r: Result<SwapPlan, TradiumError>)
    ensures
        r == swap_quote(*pool, *accounts, amount_in, minimum_amount_out, swap_direction),
{
    let fee_numerator = pool.fees.swap_fee_numerator;
    let fee_denominator = pool.fees.swap_fee_denominator;
    let amount_out = if swap_direction == 0 {
        compute_swap_output(
            amount_in,
            fee_numerator,
            fee_denominator,
            accounts.coin_vault_amount,
            accounts.pc_vault_amount,
        )?
    } else {
        compute_swap_output(
            amount_in,
            fee_numerator,
            fee_denominator,
            accounts.pc_vault_amount,
            accounts.coin_vault_amount,
        )?
    };
    if amount_out >= minimum_amount_out {
        Ok(
            SwapPlan {
                amount_in,
                amount_out,
                input_side: if swap_direction == 0 {
                    PoolSide::Coin
                } else {
                    PoolSide::Pc
                },
                output_side: if swap_direction == 0 {
                    PoolSide::Pc
                } else {
                    PoolSide::Coin
                },
            },
        )
    } else {
        Err(TradiumError::SlippageExceeded)
    }
}

/// The extra account of a token transfer made for a swap: when the mint
/// names a hook program, a given hook-program account must be that program
/// and is passed along; with no account given, the transfer goes without.
pub open spec fn swap_transfer_extra_account(mint: MintInfo, transfer_hook_program: Option<Key>) -> Result<
    Option<Key>,
    TradiumError,
> {
    match mint_hook_program(mint) {
        Some(hook) => match transfer_hook_program {
            Some(program) => if program@ == hook {
                Ok(Some(program))
            } else {
                Err(TradiumError::InvalidTransferHookProgram)
            },
            None => Ok(None),
        },
        None => Ok(None),
    }
}

/// Decides the extra account of a token transfer made for a swap: see
/// `swap_transfer_extra_account`.
pub fn swap_transfer_remaining_account(mint: &MintInfo, transfer_hook_program: Option<Key>) -> (r:
    Result<Option<Key>, TradiumError>)
    ensures
        r == swap_transfer_extra_account(*mint, transfer_hook_program),
{
    let token_2022 = token_2022_id();
    if keys_equal(&mint.owner, &token_2022) {
        if let Some(hook) = &mint.transfer_hook {
            if !is_default(hook) {
                if let Some(program) = transfer_hook_program {
                    if !keys_equal(&program, hook) {
                        return Err(TradiumError::InvalidTransferHookProgram);
                    }
                    return Ok(Some(program));
                }
            }
        }
    }
    Ok(None)
}

/// Last step of a swap, once the tokens have moved: the pool advances its
/// nonce, which fails when the nonce is at its maximum.
pub fn record_swap(pool: &mut Tradium) -> (r: Result<(), TradiumError>)
    ensures
        *final(pool) == (Tradium { nonce: final(pool).nonce, ..*old(pool) }),
        old(pool).nonce[0] == u8::MAX ==> r == Err::<(), TradiumError>(TradiumError::MathOverflow)
            && final(pool).nonce@ == old(pool).nonce@,
        old(pool).nonce[0] < u8::MAX ==> r is Ok && final(pool).nonce@ == seq![
            (old(pool).nonce[0] + 1) as u8,
        ],
{
    match pool.nonce[0].checked_add(1) {
        None => Err(TradiumError::MathOverflow),
        Some(next) => {
            pool.nonce = [next];
            Ok(())
        },
    }
}

} // verus!
