//! Deposits: the liquidity a deposit mints and the checks around it.

use vstd::prelude::*;
use vstd::arithmetic::power::{lemma_pow_increases, lemma_pow_positive, pow};

use crate::arith::{is_isqrt, isqrt, lemma_isqrt_is_root, lemma_isqrt_unique, lemma_newton_step_bounds_root, lemma_newton_step_decreases, lemma_newton_step_no_overflow};
use crate::error::TradiumError;
use crate::instructions::shared::MintInfo;
use crate::keys::{Key, keys_equal};
use crate::state::Tradium;

verus! {

/// Integer square root by Newton's method: the largest `r` with `r * r <= n`.
/// `n == u64::MAX` is left out: there the first step `n + 1` overflows.
pub fn integer_sqrt(n: u64) -> (r: Result<u64, TradiumError>)
    requires
        n < u64::MAX,
    ensures
        r matches Ok(x) && x == isqrt(n as nat) && is_isqrt(n as int, x as int),
{
    proof {
        lemma_isqrt_is_root(n as nat);
    }
    if n == 0 {
        return Ok(0);
    }
    let mut x: u64 = n;
    let mut y: u64 = (x + 1) / 2;
    proof {
        assert(n as int / n as int == 1) by (nonlinear_arith)
            requires
                n >= 1,
        ;
        assert forall|r: int| 0 <= r && #[trigger] (r * r) <= n implies r <= n by {
            if r >= 1 {
                assert(r <= r * r) by (nonlinear_arith)
                    requires
                        r >= 1,
                ;
            }
        }
    }
    while y < x
        invariant
            1 <= x <= n,
            n < u64::MAX,
            y == (x + n / x) / 2,
            forall|r: int| 0 <= r && #[trigger] (r * r) <= n ==> r <= x,
        decreases x,
    {
        proof {
            assert forall|r: int| 0 <= r && #[trigger] (r * r) <= n implies r <= y by {
                lemma_newton_step_bounds_root(n as int, x as int, r);
            }
            assert(1 * 1 <= n);
        }
        x = y;
        proof {
            lemma_newton_step_no_overflow(n as int, x as int);
        }
        y = (x + n / x) / 2;
    }
    proof {
        if x * x > n {
            lemma_newton_step_decreases(n as int, x as int);
        }
        if (x + 1) * (x + 1) <= n {
            let r = x + 1;
            assert(r * r <= n);
        }
        lemma_isqrt_unique(n as int, x as int, isqrt(n as nat) as int);
    }
    Ok(x)
}


/// `10^e`, for the exponents whose power fits in a `u64` (`e <= 19`); above
/// that the power overflows.
pub fn pow10(e: u32) -> (p: u64)
    requires
        e <= 19,
    ensures
        p == pow(10, e as nat),
{
    proof {
        reveal_with_fuel(pow, 20);
        assert(pow(10, 19) == 10_000_000_000_000_000_000int);
    }
    let mut p: u64 = 1;
    let mut i: u32 = 0;
    while i < e
        invariant
            i <= e <= 19,
            p == pow(10, i as nat),
            pow(10, 19) == 10_000_000_000_000_000_000int,
        decreases e - i,
    {
        proof {
            lemma_pow_increases(10, (i + 1) as nat, 19);
            reveal_with_fuel(pow, 2);
            assert(pow(10, (i + 1) as nat) == 10 * pow(10, i as nat));
        }
        p = p * 10;
        i = i + 1;
    }
    p
}

/// The power of ten by which `normalize_amount` scales: the distance between
/// the two decimal counts, cut to 32 bits as the exponent of `u64::pow`.
pub open spec fn normalize_exponent(token_decimals: u64, sys_decimals: u64) -> u32 {
    if sys_decimals >= token_decimals {
        (sys_decimals - token_decimals) as u32
    } else {
        (token_decimals - sys_decimals) as u32
    }
}

/// `normalize_amount` does not panic: its power of ten fits in a `u64`.
pub open spec fn normalize_defined(token_decimals: u64, sys_decimals: u64) -> bool {
    normalize_exponent(token_decimals, sys_decimals) <= 19
}

/// An amount with `token_decimals` decimals, expressed with `sys_decimals`
/// decimals: scaled up (failing on overflow) or divided down (rounding down).
pub open spec fn normalized(amount: u64, token_decimals: u64, sys_decimals: u64) -> Result<
    u64,
    TradiumError,
> {
    let p = pow(10, normalize_exponent(token_decimals, sys_decimals) as nat);
    if sys_decimals >= token_decimals {
        if amount * p <= u64::MAX {
            Ok((amount * p) as u64)
        } else {
            Err(TradiumError::MathOverflow)
        }
    } else {
        Ok((amount as int / p) as u64)
    }
}

/// Rescales an amount from the token's decimals to the pool's decimals.
pub fn normalize_amount(amount: u64, token_decimals: u64, sys_decimals: u64) -> (r: Result<
    u64,
    TradiumError,
>)
    requires
        normalize_defined(token_decimals, sys_decimals),
    ensures
        r == normalized(amount, token_decimals, sys_decimals),
{
    if sys_decimals >= token_decimals {
        let p = pow10((sys_decimals - token_decimals) as u32);
        amount.checked_mul(p).ok_or(TradiumError::MathOverflow)
    } else {
        let p = pow10((token_decimals - sys_decimals) as u32);
        proof {
            lemma_pow_positive(10, normalize_exponent(token_decimals, sys_decimals) as nat);
        }
        amount.checked_div(p).ok_or(TradiumError::MathOverflow)
    }
}

/// The share of LP supply that `amount` earns against a vault that held
/// `balance_before`: `amount * supply / balance_before`, rounded down, and zero
/// when either the vault or the amount is empty.
pub open spec fn proportional_share(amount: u64, supply: u64, balance_before: u64) -> Result<
    u64,
    TradiumError,
> {
    if balance_before > 0 && amount > 0 {
        if amount * supply <= u64::MAX {
            Ok(((amount * supply) / (balance_before as int)) as u64)
        } else {
            Err(TradiumError::MathOverflow)
        }
    } else {
        Ok(0)
    }
}

/// `calculate_lp_tokens` does not panic on these inputs: on a first deposit
/// both rescalings have a power of ten that fits, and the product whose
/// square root is taken is not `u64::MAX`.
pub open spec fn lp_tokens_defined(pool: Tradium, amount_coin: u64, amount_pc: u64, total_lp_supply: u64) -> bool {
    total_lp_supply == 0 ==> {
        &&& normalize_defined(pool.coin_decimals, pool.sys_decimal_value)
        &&& normalized(amount_coin, pool.coin_decimals, pool.sys_decimal_value) is Ok ==> {
            &&& normalize_defined(pool.pc_decimals, pool.sys_decimal_value)
            &&& normalized(amount_pc, pool.pc_decimals, pool.sys_decimal_value) is Ok ==>
                normalized(amount_coin, pool.coin_decimals, pool.sys_decimal_value)->Ok_0
                    * normalized(amount_pc, pool.pc_decimals, pool.sys_decimal_value)->Ok_0
                    != u64::MAX
        }
    }
}

/// Tells whether `calculate_lp_tokens` can run on these inputs without
/// panicking (see `lp_tokens_defined`).
pub fn lp_tokens_computable(pool: &Tradium, amount_coin: u64, amount_pc: u64, total_lp_supply: u64) -> (r:
    bool)
    ensures
        r == lp_tokens_defined(*pool, amount_coin, amount_pc, total_lp_supply),
{
    if total_lp_supply != 0 {
        return true;
    }
    if !exponent_fits(pool.coin_decimals, pool.sys_decimal_value) {
        return false;
    }
    let coin_n = match normalize_amount(amount_coin, pool.coin_decimals, pool.sys_decimal_value) {
        Err(_) => return true,
        Ok(n) => n,
    };
    if !exponent_fits(pool.pc_decimals, pool.sys_decimal_value) {
        return false;
    }
    let pc_n = match normalize_amount(amount_pc, pool.pc_decimals, pool.sys_decimal_value) {
        Err(_) => return true,
        Ok(n) => n,
    };
    match coin_n.checked_mul(pc_n) {
        None => true,
        Some(product) => product != u64::MAX,
    }
}

/// Whether `normalize_amount` can run with these decimals.
fn exponent_fits(token_decimals: u64, sys_decimals: u64) -> (r: bool)
    ensures
        r == normalize_defined(token_decimals, sys_decimals),
{
    if sys_decimals >= token_decimals {
        ((sys_decimals - token_decimals) as u32) <= 19
    } else {
        ((token_decimals - sys_decimals) as u32) <= 19
    }
}

/// The LP tokens a deposit earns. The first deposit (no LP supply yet) earns
/// the geometric mean of the two amounts rescaled to the pool's decimals;
/// later ones earn the smaller of the two proportional shares.
pub open spec fn lp_tokens(
    pool: Tradium,
    amount_coin: u64,
    amount_pc: u64,
    coin_vault_balance_before: u64,
    pc_vault_balance_before: u64,
    total_lp_supply: u64,
) -> Result<u64, TradiumError> {
    if total_lp_supply == 0 {
        match normalized(amount_coin, pool.coin_decimals, pool.sys_decimal_value) {
            Err(e) => Err(e),
            Ok(coin_n) => match normalized(amount_pc, pool.pc_decimals, pool.sys_decimal_value) {
                Err(e) => Err(e),
                Ok(pc_n) => if coin_n * pc_n <= u64::MAX {
                    Ok(isqrt((coin_n * pc_n) as nat) as u64)
                } else {
                    Err(TradiumError::MathOverflow)
                },
            },
        }
    } else {
        match proportional_share(amount_coin, total_lp_supply, coin_vault_balance_before) {
            Err(e) => Err(e),
            Ok(coin_share) => match proportional_share(
                amount_pc,
                total_lp_supply,
                pc_vault_balance_before,
            ) {
                Err(e) => Err(e),
                Ok(pc_share) => Ok(
                    if coin_share <= pc_share {
                        coin_share
                    } else {
                        pc_share
                    },
                ),
            },
        }
    }
}

/// `proportional_share`, computed.
fn share_of_supply(amount: u64, supply: u64, balance_before: u64) -> (r: Result<u64, TradiumError>)
    ensures
        r == proportional_share(amount, supply, balance_before),
{
    if balance_before > 0 && amount > 0 {
        match amount.checked_mul(supply) {
            None => Err(TradiumError::MathOverflow),
            Some(product) => product.checked_div(balance_before).ok_or(TradiumError::MathOverflow),
        }
    } else {
        Ok(0)
    }
}

/// The LP tokens to mint for a deposit of `amount_coin` and `amount_pc`, given
/// the vault balances and the LP supply from before the deposit.
pub fn calculate_lp_tokens(
    pool: &Tradium,
    amount_coin: u64,
    amount_pc: u64,
    coin_vault_balance_before: u64,
    pc_vault_balance_before: u64,
    total_lp_supply: u64,
) -> (r: Result<u64, TradiumError>)
    requires
        lp_tokens_defined(*pool, amount_coin, amount_pc, total_lp_supply),
    ensures
        r == lp_tokens(
            *pool,
            amount_coin,
            amount_pc,
            coin_vault_balance_before,
            pc_vault_balance_before,
            total_lp_supply,
        ),
{
    if total_lp_supply == 0 {
        let coin_n = normalize_amount(amount_coin, pool.coin_decimals, pool.sys_decimal_value)?;
        let pc_n = normalize_amount(amount_pc, pool.pc_decimals, pool.sys_decimal_value)?;
        match coin_n.checked_mul(pc_n) {
            None => Err(TradiumError::MathOverflow),
            Some(product) => integer_sqrt(product),
        }
    } else {
        let coin_share = share_of_supply(amount_coin, total_lp_supply, coin_vault_balance_before)?;
        let pc_share = share_of_supply(amount_pc, total_lp_supply, pc_vault_balance_before)?;
        if coin_share <= pc_share {
            Ok(coin_share)
        } else {
            Ok(pc_share)
        }
    }
}


/// What a deposit reads of its accounts: the addresses it checks against the
/// pool, the vault balances and LP supply from before the deposit, the two
/// mints, and the optional hook-program accounts.
#[derive(Debug, Clone, Copy)]
pub struct Deposit {
    pub coin_vault: Key,
    pub coin_vault_amount: u64,
    pub pc_vault: Key,
    pub pc_vault_amount: u64,
    pub lp_mint: Key,
    pub lp_supply: u64,
    pub coin_mint: MintInfo,
    pub pc_mint: MintInfo,
    pub coin_token_program: Key,
    pub pc_token_program: Key,
    pub coin_transfer_hook_program: Option<Key>,
    pub pc_transfer_hook_program: Option<Key>,
}

/// The token transfers into the vaults that an accepted deposit makes.
#[derive(Debug, Clone, Copy, PartialEq, Eq, Structural)]
pub struct DepositTransfers {
    pub coin_amount: Option<u64>,
    pub pc_amount: Option<u64>,
}

/// The checks a deposit passes before any token moves, in the order they are
/// made, and the transfers it then makes: a side is transferred when its
/// amount is not zero.
pub open spec fn deposit_checks(
    pool: Tradium,
    accounts: Deposit,
    amount_coin: u64,
    amount_pc: u64,
) -> Result<DepositTransfers, TradiumError> {
    if !(amount_coin > 0 || amount_pc > 0) {
        Err(TradiumError::InvalidDepositAmount)
    } else if accounts.coin_token_program@ != pool.coin_token_program@ {
        Err(TradiumError::InvalidCoinTokenProgram)
    } else if accounts.pc_token_program@ != pool.pc_token_program@ {
        Err(TradiumError::InvalidPcTokenProgram)
    } else if accounts.coin_vault@ != pool.coin_vault@ {
        Err(TradiumError::InvalidCoinVault)
    } else if accounts.pc_vault@ != pool.pc_vault@ {
        Err(TradiumError::InvalidPcVault)
    } else if accounts.lp_mint@ != pool.lp_mint@ {
        Err(TradiumError::InvalidLpMint)
    } else if accounts.coin_mint.key@ != pool.coin_vault_mint@ {
        Err(TradiumError::InvalidCoinMint)
    } else if accounts.pc_mint.key@ != pool.pc_vault_mint@ {
        Err(TradiumError::InvalidPcMint)
    } else {
        Ok(
            DepositTransfers {
                coin_amount: if amount_coin > 0 {
                    Some(amount_coin)
                } else {
                    None
                },
                pc_amount: if amount_pc > 0 {
                    Some(amount_pc)
                } else {
                    None
                },
            },
        )
    }
}

/// First step of a deposit: checks the amounts and that the accounts are the
/// pool's own, and returns the transfers to make into the vaults.
pub fn deposit(pool: &Tradium, accounts: &Deposit, amount_coin: u64, amount_pc: u64) -> (r: Result<
    DepositTransfers,
    TradiumError,
>)
    ensures
        r == deposit_checks(*pool, *accounts, amount_coin, amount_pc),
{
    if !(amount_coin > 0 || amount_pc > 0) {
        return Err(TradiumError::InvalidDepositAmount);
    }
    if !keys_equal(&accounts.coin_token_program, &pool.coin_token_program) {
        return Err(TradiumError::InvalidCoinTokenProgram);
    }
    if !keys_equal(&accounts.pc_token_program, &pool.pc_token_program) {
        return Err(TradiumError::InvalidPcTokenProgram);
    }
    if !keys_equal(&accounts.coin_vault, &pool.coin_vault) {
        return Err(TradiumError::InvalidCoinVault);
    }
    if !keys_equal(&accounts.pc_vault, &pool.pc_vault) {
        return Err(TradiumError::InvalidPcVault);
    }
    if !keys_equal(&accounts.lp_mint, &pool.lp_mint) {
        return Err(TradiumError::InvalidLpMint);
    }
    if !keys_equal(&accounts.coin_mint.key, &pool.coin_vault_mint) {
        return Err(TradiumError::InvalidCoinMint);
    }
    if !keys_equal(&accounts.pc_mint.key, &pool.pc_vault_mint) {
        return Err(TradiumError::InvalidPcMint);
    }
    Ok(
        DepositTransfers {
            coin_amount: if amount_coin > 0 {
                Some(amount_coin)
            } else {
                None
            },
            pc_amount: if amount_pc > 0 {
                Some(amount_pc)
            } else {
                None
            },
        },
    )
}

/// The LP tokens a deposit mints: `lp_tokens` over the balances and supply
/// from before the deposit, refused when it comes to zero.
pub open spec fn deposit_minted(pool: Tradium, accounts: Deposit, amount_coin: u64, amount_pc: u64) -> Result<
    u64,
    TradiumError,
> {
    match lp_tokens(
        pool,
        amount_coin,
        amount_pc,
        accounts.coin_vault_amount,
        accounts.pc_vault_amount,
        accounts.lp_supply,
    ) {
        Err(e) => Err(e),
        Ok(lp) => if lp > 0 {
            Ok(lp)
        } else {
            Err(TradiumError::InsufficientLiquidityMinted)
        },
    }
}

/// Second step of a deposit, once the tokens are in the vaults: the LP
/// tokens to mint to the depositor.
pub fn deposit_lp_to_mint(pool: &Tradium, accounts: &Deposit, amount_coin: u64, amount_pc: u64) -> (r:
    Result<u64, TradiumError>)
    requires
        lp_tokens_defined(*pool, amount_coin, amount_pc, accounts.lp_supply),
    ensures
        r == deposit_minted(*pool, *accounts, amount_coin, amount_pc),
{
    let lp = calculate_lp_tokens(
        pool,
        amount_coin,
        amount_pc,
        accounts.coin_vault_amount,
        accounts.pc_vault_amount,
        accounts.lp_supply,
    )?;
    if lp > 0 {
        Ok(lp)
    } else {
        Err(TradiumError::InsufficientLiquidityMinted)
    }
}

/// Last step of a deposit, once the LP tokens are minted: the pool counts
/// them in `lp_amount` and advances its nonce. Either addition may overflow;
/// the LP count is written before the nonce is checked.
pub fn record_deposit(pool: &mut Tradium, lp_amount: u64) -> (r: Result<(), TradiumError>)
    ensures
        old(pool).lp_amount + lp_amount > u64::MAX ==> r == Err::<(), TradiumError>(
            TradiumError::MathOverflow,
        ) && *final(pool) == *old(pool),
        old(pool).lp_amount + lp_amount <= u64::MAX ==> {
            &&& *final(pool) == (Tradium {
                lp_amount: (old(pool).lp_amount + lp_amount) as u64,
                nonce: final(pool).nonce,
                ..*old(pool)
            })
            &&& old(pool).nonce[0] == u8::MAX ==> r == Err::<(), TradiumError>(
                TradiumError::MathOverflow,
            ) && final(pool).nonce@ == old(pool).nonce@
            &&& old(pool).nonce[0] < u8::MAX ==> r is Ok && final(pool).nonce@ == seq![
                (old(pool).nonce[0] + 1) as u8,
            ]
        },
{
    match pool.lp_amount.checked_add(lp_amount) {
        None => return Err(TradiumError::MathOverflow),
        Some(total) => {
            pool.lp_amount = total;
        },
    }
    match pool.nonce[0].checked_add(1) {
        None => Err(TradiumError::MathOverflow),
        Some(next) => {
            pool.nonce = [next];
            Ok(())
        },
    }
}

} // verus!
