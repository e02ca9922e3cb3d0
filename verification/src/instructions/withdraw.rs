//! Withdrawals: LP tokens burned for a proportional part of both vaults.

use vstd::prelude::*;

use crate::error::TradiumError;
use crate::instructions::shared::{MintInfo, is_whitelisted, mint_hook_program, whitelist_contains};
use crate::keys::{Key, is_default, keys_equal};
use crate::state::Tradium;
use crate::token_programs::token_2022_id;

verus! {

/// What a withdrawal reads of its accounts: the user's LP balance, the
/// vaults and their balances, the mints, the LP supply, the token programs
/// given, and the optional hook-program accounts.
#[derive(Debug, Clone, Copy)]
pub struct Withdraw {
    pub user_lp_amount: u64,
    pub coin_vault: Key,
    pub coin_vault_amount: u64,
    pub pc_vault: Key,
    pub pc_vault_amount: u64,
    pub coin_vault_mint: MintInfo,
    pub pc_vault_mint: MintInfo,
    pub lp_mint: Key,
    pub lp_supply: u64,
    pub lp_token_program: Key,
    pub coin_token_program: Key,
    pub pc_token_program: Key,
    pub coin_transfer_hook_program: Option<Key>,
    pub pc_transfer_hook_program: Option<Key>,
}

/// What an accepted withdrawal does: burns `lp_amount` LP tokens of the user
/// and pays `coin_amount` and `pc_amount` out of the vaults.
#[derive(Debug, Clone, Copy, PartialEq, Eq, Structural)]
pub struct WithdrawPlan {
    pub lp_amount: u64,
    pub coin_amount: u64,
    pub pc_amount: u64,
}

/// The part of a vault that `lp_amount` LP tokens claim out of `supply`:
/// `balance * lp_amount / supply`, rounded down and cut to 64 bits.
pub open spec fn vault_share(balance: u64, lp_amount: u64, supply: u64) -> u64 {
    ((balance * lp_amount) / (supply as int)) as u64
}

/// The outcome of a withdrawal, check by check: a positive amount, within
/// the user's LP balance, the pool's token programs, a pool with LP supply,
/// and a positive payout on both sides.
pub open spec fn withdraw_outcome(pool: Tradium, accounts: Withdraw, lp_amount: u64) -> Result<
    WithdrawPlan,
    TradiumError,
> {
    if lp_amount == 0 {
        Err(TradiumError::InvalidAmount)
    } else if accounts.user_lp_amount < lp_amount {
        Err(TradiumError::InsufficientBalance)
    } else if accounts.coin_token_program@ != pool.coin_token_program@ {
        Err(TradiumError::InvalidCoinTokenProgram)
    } else if accounts.pc_token_program@ != pool.pc_token_program@ {
        Err(TradiumError::InvalidPcTokenProgram)
    } else if accounts.lp_supply == 0 {
        Err(TradiumError::EmptyPool)
    } else if vault_share(accounts.coin_vault_amount, lp_amount, accounts.lp_supply) == 0 {
        Err(TradiumError::InsufficientWithdrawal)
    } else if vault_share(accounts.pc_vault_amount, lp_amount, accounts.lp_supply) == 0 {
        Err(TradiumError::InsufficientWithdrawal)
    } else {
        Ok(
            WithdrawPlan {
                lp_amount,
                coin_amount: vault_share(accounts.coin_vault_amount, lp_amount, accounts.lp_supply),
                pc_amount: vault_share(accounts.pc_vault_amount, lp_amount, accounts.lp_supply),
            },
        )
    }
}

/// `vault_share`, computed in 128 bits.
fn compute_vault_share(balance: u64, lp_amount: u64, supply: u64) -> (r: u64)
    requires
        supply > 0,
    ensures
        r == vault_share(balance, lp_amount, supply),
{
    proof {
        assert((balance as u128) * (lp_amount as u128) <= u128::MAX) by (nonlinear_arith)
            requires
                balance <= u64::MAX,
                lp_amount <= u64::MAX,
        ;
    }
    let product = (balance as u128) * (lp_amount as u128);
    let share = product / (supply as u128);
    share as u64
}

/// The decisions of a withdrawal: the checks of `withdraw_outcome` and the
/// amounts it burns and pays out.
pub fn withdraw(pool: &Tradium, accounts: &Withdraw, lp_amount: u64) -> (r: Result<
    WithdrawPlan,
    TradiumError,
>)
    ensures
        r == withdraw_outcome(*pool, *accounts, lp_amount),
{
    if lp_amount == 0 {
        return Err(TradiumError::InvalidAmount);
    }
    if accounts.user_lp_amount < lp_amount {
        return Err(TradiumError::InsufficientBalance);
    }
    if !keys_equal(&accounts.coin_token_program, &pool.coin_token_program) {
        return Err(TradiumError::InvalidCoinTokenProgram);
    }
    if !keys_equal(&accounts.pc_token_program, &pool.pc_token_program) {
        return Err(TradiumError::InvalidPcTokenProgram);
    }
    if accounts.lp_supply == 0 {
        return Err(TradiumError::EmptyPool);
    }
    let coin_amount = compute_vault_share(accounts.coin_vault_amount, lp_amount, accounts.lp_supply);
    let pc_amount = compute_vault_share(accounts.pc_vault_amount, lp_amount, accounts.lp_supply);
    if coin_amount == 0 {
        return Err(TradiumError::InsufficientWithdrawal);
    }
    if pc_amount == 0 {
        return Err(TradiumError::InsufficientWithdrawal);
    }
    Ok(WithdrawPlan { lp_amount, coin_amount, pc_amount })
}

/// The withdrawal's hook-program check panics: the whitelist is read up to
/// `num_whitelisted` entries, and that runs past its end when the given
/// program is the mint's hook program, is not found among the entries the
/// whitelist has, and `num_whitelisted` exceeds its length.
pub open spec fn withdraw_hook_check_panics(
    mint: MintInfo,
    transfer_hook_program: Key,
    whitelist: Seq<Key>,
    num_whitelisted: u8,
) -> bool {
    &&& mint_hook_program(mint) == Some(transfer_hook_program@)
    &&& num_whitelisted > whitelist.len()
    &&& !is_whitelisted(whitelist, num_whitelisted, transfer_hook_program@)
}

/// The withdrawal's constraint on a given hook-program account: accepted only
/// when it is the mint's hook program and that program is whitelisted. A
/// mint without a hook program accepts no such account.
pub open spec fn withdraw_hook_accepted(
    mint: MintInfo,
    transfer_hook_program: Key,
    whitelist: Seq<Key>,
    num_whitelisted: u8,
) -> bool {
    mint_hook_program(mint) == Some(transfer_hook_program@) && is_whitelisted(
        whitelist,
        num_whitelisted,
        transfer_hook_program@,
    )
}

/// Tells whether `validate_transfer_hook_program` would run past the end of
/// the whitelist on these arguments.
pub fn hook_check_panics(
    mint: &MintInfo,
    transfer_hook_program: &Key,
    whitelisted_hooks: &[Key],
    num_whitelisted: u8,
) -> (r: bool)
    ensures
        r == withdraw_hook_check_panics(
            *mint,
            *transfer_hook_program,
            whitelisted_hooks@,
            num_whitelisted,
        ),
{
    let token_2022 = token_2022_id();
    if !keys_equal(&mint.owner, &token_2022) {
        return false;
    }
    match &mint.transfer_hook {
        None => false,
        Some(hook) => {
            if is_default(hook) || !keys_equal(transfer_hook_program, hook) {
                return false;
            }
            (num_whitelisted as usize) > whitelisted_hooks.len() && !whitelist_contains(
                whitelisted_hooks,
                num_whitelisted,
                hook,
            )
        },
    }
}

/// The account constraint on a hook-program account given for a withdrawal:
/// see `withdraw_hook_accepted`.
pub fn validate_transfer_hook_program(
    mint: &MintInfo,
    transfer_hook_program: &Key,
    whitelisted_hooks: &[Key],
    num_whitelisted: u8,
) -> (r: bool)
    requires
        !withdraw_hook_check_panics(
            *mint,
            *transfer_hook_program,
            whitelisted_hooks@,
            num_whitelisted,
        ),
    ensures
        r == withdraw_hook_accepted(
            *mint,
            *transfer_hook_program,
            whitelisted_hooks@,
            num_whitelisted,
        ),
{
    let token_2022 = token_2022_id();
    if !keys_equal(&mint.owner, &token_2022) {
        return false;
    }
    let hook = match &mint.transfer_hook {
        None => return false,
        Some(hook) => hook,
    };
    if is_default(hook) {
        return false;
    }
    if !keys_equal(transfer_hook_program, hook) {
        return false;
    }
    let n = num_whitelisted as usize;
    let mut i: usize = 0;
    while i < n
        invariant
            i <= n,
            n == num_whitelisted,
            n <= whitelisted_hooks@.len() || is_whitelisted(
                whitelisted_hooks@,
                num_whitelisted,
                hook@,
            ),
            forall|j: int| 0 <= j < i ==> #[trigger] whitelisted_hooks@[j]@ != hook@,
            transfer_hook_program@ == hook@,
            mint_hook_program(*mint) == Some(hook@),
        decreases n - i,
    {
        if keys_equal(&whitelisted_hooks[i], hook) {
            assert(whitelisted_hooks@[i as int]@ == hook@);
            assert(is_whitelisted(whitelisted_hooks@, num_whitelisted, hook@));
            return true;
        }
        i = i + 1;
    }
    false
}

} // verus!
