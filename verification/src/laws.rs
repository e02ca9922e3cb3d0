//! Properties of the pool that span its computations: what a swap keeps,
//! what a deposit earns, and what a withdrawal pays.

use vstd::prelude::*;
use vstd::arithmetic::mul::{lemma_mul_inequality, lemma_mul_upper_bound};

use crate::arith::{
    is_isqrt, isqrt, lemma_div_at_most, lemma_isqrt_monotonic, lemma_floor_div_bounds, lemma_isqrt_is_root, lemma_mul_div_cancel,
};
use crate::error::TradiumError;
use crate::instructions::deposit::{
    Deposit, deposit_minted, lp_tokens, normalize_exponent, normalized, proportional_share,
};
use vstd::arithmetic::power::{lemma_pow_positive, pow};
use crate::instructions::shared::{MintInfo, hook_program_accepted, is_whitelisted};
use crate::instructions::initialize_pool::{
    InitializePool, TokenProgramKind, VaultSetup, initialized_pool, pool_setup,
};
use crate::instructions::swap::{PoolSide, Swap, SwapPlan, amount_after_fee, swap_output, swap_quote};
use crate::instructions::withdraw::{
    Withdraw, WithdrawPlan, vault_share, withdraw_hook_accepted, withdraw_outcome,
};
use crate::keys::{Key, zero_key};
use crate::token_programs::{spl_token_program_key, token_2022_program_key};
use crate::state::Tradium;

verus! {

/// The input left after the swap fee never exceeds the input.
proof fn lemma_fee_shrinks_input(amount_in: u64, fee_numerator: u64, fee_denominator: u64)
    requires
        fee_numerator <= fee_denominator,
        fee_denominator > 0,
    ensures
        0 <= amount_after_fee(amount_in, fee_numerator, fee_denominator) <= amount_in,
{
    let keep = fee_denominator - fee_numerator;
    lemma_mul_upper_bound(amount_in as int, amount_in as int, keep, fee_denominator as int);
    lemma_div_at_most(amount_in * keep, fee_denominator as int, amount_in as int);
    lemma_floor_div_bounds(amount_in * keep, fee_denominator as int);
}

/// A swap never pays out more than the output reserve holds: it never fails
/// with `InsufficientLiquidity`, and any output it computes is at most
/// `reserve_out`.
pub proof fn lemma_swap_output_within_reserve(
    amount_in: u64,
    fee_numerator: u64,
    fee_denominator: u64,
    reserve_in: u64,
    reserve_out: u64,
)
    ensures
        swap_output(amount_in, fee_numerator, fee_denominator, reserve_in, reserve_out) != Err::<
            u64,
            TradiumError,
        >(TradiumError::InsufficientLiquidity),
        swap_output(amount_in, fee_numerator, fee_denominator, reserve_in, reserve_out) matches Ok(
            out,
        ) ==> out <= reserve_out,
{
    if fee_numerator <= fee_denominator && fee_denominator > 0 {
        let a = amount_after_fee(amount_in, fee_numerator, fee_denominator);
        lemma_fee_shrinks_input(amount_in, fee_numerator, fee_denominator);
        let s = reserve_in + a;
        if s > 0 {
            lemma_mul_upper_bound(a, s, reserve_out as int, reserve_out as int);
            assert(s * reserve_out == reserve_out * s) by (nonlinear_arith);
            lemma_div_at_most(a * reserve_out, s, reserve_out as int);
        }
    }
}

/// The constant-product rule: after a swap, the product of the vault
/// balances (the whole input in, the output out) is at least what it was.
pub proof fn lemma_swap_keeps_constant_product(
    amount_in: u64,
    fee_numerator: u64,
    fee_denominator: u64,
    reserve_in: u64,
    reserve_out: u64,
)
    requires
        swap_output(amount_in, fee_numerator, fee_denominator, reserve_in, reserve_out) is Ok,
    ensures
        ({
            let out = swap_output(
                amount_in,
                fee_numerator,
                fee_denominator,
                reserve_in,
                reserve_out,
            )->Ok_0;
            (reserve_in + amount_in) * (reserve_out - out) >= reserve_in * reserve_out
        }),
{
    let out = swap_output(amount_in, fee_numerator, fee_denominator, reserve_in, reserve_out)->Ok_0;
    let a = amount_after_fee(amount_in, fee_numerator, fee_denominator);
    lemma_fee_shrinks_input(amount_in, fee_numerator, fee_denominator);
    lemma_swap_output_within_reserve(amount_in, fee_numerator, fee_denominator, reserve_in, reserve_out);
    let s = reserve_in + a;
    let r = reserve_out as int;
    lemma_floor_div_bounds(a * r, s);
    assert(out == (a * r) / s);
    assert(out * s <= a * r);
    assert(s * (r - out) >= reserve_in * r) by (nonlinear_arith)
        requires
            out * s <= a * r,
            s == reserve_in + a,
    ;
    lemma_mul_inequality(s, reserve_in + amount_in, r - out);
}

/// A swap against a non-empty input reserve never empties the output
/// reserve.
pub proof fn lemma_swap_cannot_drain(
    amount_in: u64,
    fee_numerator: u64,
    fee_denominator: u64,
    reserve_in: u64,
    reserve_out: u64,
)
    requires
        reserve_in > 0,
        reserve_out > 0,
        swap_output(amount_in, fee_numerator, fee_denominator, reserve_in, reserve_out) is Ok,
    ensures
        swap_output(amount_in, fee_numerator, fee_denominator, reserve_in, reserve_out)->Ok_0
            < reserve_out,
{
    let out = swap_output(amount_in, fee_numerator, fee_denominator, reserve_in, reserve_out)->Ok_0;
    let a = amount_after_fee(amount_in, fee_numerator, fee_denominator);
    lemma_fee_shrinks_input(amount_in, fee_numerator, fee_denominator);
    let s = reserve_in + a;
    let r = reserve_out as int;
    lemma_floor_div_bounds(a * r, s);
    assert(out * s <= a * r);
    assert(out < r) by (nonlinear_arith)
        requires
            out * s <= a * r,
            s == reserve_in + a,
            reserve_in > 0,
            r > 0,
            a >= 0,
            out >= 0,
    ;
}


/// An accepted swap pays at least the minimum output the user asked for.
pub proof fn lemma_swap_respects_slippage_bound(
    pool: Tradium,
    accounts: Swap,
    amount_in: u64,
    minimum_amount_out: u64,
    swap_direction: u8,
)
    requires
        swap_quote(pool, accounts, amount_in, minimum_amount_out, swap_direction) is Ok,
    ensures
        swap_quote(pool, accounts, amount_in, minimum_amount_out, swap_direction)->Ok_0.amount_out
            >= minimum_amount_out,
{
}

/// Putting more in never gets less out: against the same reserves and fee,
/// a larger input, when it is priced, pays at least as much.
pub proof fn lemma_swap_output_monotonic(
    smaller_in: u64,
    larger_in: u64,
    fee_numerator: u64,
    fee_denominator: u64,
    reserve_in: u64,
    reserve_out: u64,
)
    requires
        smaller_in <= larger_in,
        swap_output(smaller_in, fee_numerator, fee_denominator, reserve_in, reserve_out) is Ok,
        swap_output(larger_in, fee_numerator, fee_denominator, reserve_in, reserve_out) is Ok,
    ensures
        swap_output(smaller_in, fee_numerator, fee_denominator, reserve_in, reserve_out)->Ok_0
            <= swap_output(larger_in, fee_numerator, fee_denominator, reserve_in, reserve_out)->Ok_0,
{
    let keep = fee_denominator - fee_numerator;
    let d = fee_denominator as int;
    let r = reserve_out as int;
    let b = reserve_in as int;
    let a1 = amount_after_fee(smaller_in, fee_numerator, fee_denominator);
    let a2 = amount_after_fee(larger_in, fee_numerator, fee_denominator);
    lemma_fee_shrinks_input(smaller_in, fee_numerator, fee_denominator);
    lemma_fee_shrinks_input(larger_in, fee_numerator, fee_denominator);
    lemma_mul_inequality(smaller_in as int, larger_in as int, keep);
    vstd::arithmetic::div_mod::lemma_div_is_ordered(smaller_in * keep, larger_in * keep, d);
    assert(a1 <= a2);
    let s1 = b + a1;
    let s2 = b + a2;
    let x1 = a1 * r;
    let x2 = a2 * r;
    let q1 = x1 / s1;
    let q2 = x2 / s2;
    lemma_floor_div_bounds(x1, s1);
    lemma_floor_div_bounds(x2, s2);
    assert(x1 * s2 <= x2 * s1) by (nonlinear_arith)
        requires
            x1 == a1 * r,
            x2 == a2 * r,
            s1 == b + a1,
            s2 == b + a2,
            0 <= a1 <= a2,
            b >= 0,
            r >= 0,
    ;
    assert(q1 * s2 <= x2) by (nonlinear_arith)
        requires
            q1 * s1 <= x1,
            x1 * s2 <= x2 * s1,
            s1 > 0,
            s2 > 0,
            q1 >= 0,
    ;
    if q1 > q2 {
        assert(q1 * s2 <= x2);
        assert(x2 < (q2 + 1) * s2);
        lemma_mul_inequality(q2 + 1, q1, s2);
    }
}

/// A share of supply, when positive, comes from a non-empty vault and a
/// positive amount, and `share * balance_before <= amount * supply`.
proof fn lemma_share_bound(amount: u64, supply: u64, balance_before: u64)
    requires
        proportional_share(amount, supply, balance_before) is Ok,
    ensures
        ({
            let share = proportional_share(amount, supply, balance_before)->Ok_0;
            &&& share > 0 ==> balance_before > 0 && amount > 0
            &&& share * balance_before <= amount * supply
        }),
{
    if balance_before > 0 && amount > 0 {
        let x = amount * supply;
        let d = balance_before as int;
        lemma_floor_div_bounds(x, d);
        assert(x / d <= x) by (nonlinear_arith)
            requires
                (x / d) * d <= x,
                d >= 1,
                x / d >= 0,
        ;
    } else {
        assert(0 * balance_before <= amount * supply) by (nonlinear_arith)
            requires
                amount >= 0,
                supply >= 0,
        ;
    }
}

/// A later deposit (the pool already has LP supply) never mints more than
/// either side's proportional share: `lp * balance_before <= amount * supply`
/// for the coin side and for the pc side.
pub proof fn lemma_deposit_is_proportional(
    pool: Tradium,
    amount_coin: u64,
    amount_pc: u64,
    coin_vault_balance_before: u64,
    pc_vault_balance_before: u64,
    total_lp_supply: u64,
)
    requires
        total_lp_supply > 0,
        lp_tokens(
            pool,
            amount_coin,
            amount_pc,
            coin_vault_balance_before,
            pc_vault_balance_before,
            total_lp_supply,
        ) is Ok,
    ensures
        ({
            let lp = lp_tokens(
                pool,
                amount_coin,
                amount_pc,
                coin_vault_balance_before,
                pc_vault_balance_before,
                total_lp_supply,
            )->Ok_0;
            &&& lp * coin_vault_balance_before <= amount_coin * total_lp_supply
            &&& lp * pc_vault_balance_before <= amount_pc * total_lp_supply
        }),
{
    let coin_share = proportional_share(amount_coin, total_lp_supply, coin_vault_balance_before)->Ok_0;
    let pc_share = proportional_share(amount_pc, total_lp_supply, pc_vault_balance_before)->Ok_0;
    lemma_share_bound(amount_coin, total_lp_supply, coin_vault_balance_before);
    lemma_share_bound(amount_pc, total_lp_supply, pc_vault_balance_before);
    let lp = if coin_share <= pc_share { coin_share } else { pc_share };
    lemma_mul_inequality(lp as int, coin_share as int, coin_vault_balance_before as int);
    lemma_mul_inequality(lp as int, pc_share as int, pc_vault_balance_before as int);
}

/// A deposit of one token only into a pool that already has LP supply is
/// always refused: one of the two shares is zero, so no LP token is minted.
pub proof fn lemma_one_sided_deposit_refused(
    pool: Tradium,
    accounts: Deposit,
    amount_coin: u64,
    amount_pc: u64,
)
    requires
        accounts.lp_supply > 0,
        amount_coin == 0 || amount_pc == 0,
    ensures
        deposit_minted(pool, accounts, amount_coin, amount_pc) is Err,
{
}

/// The first deposit mints the integer geometric mean of the two rescaled
/// amounts: `lp * lp <= coin_n * pc_n < (lp + 1) * (lp + 1)`.
pub proof fn lemma_first_deposit_geometric_mean(
    pool: Tradium,
    amount_coin: u64,
    amount_pc: u64,
    coin_vault_balance_before: u64,
    pc_vault_balance_before: u64,
)
    requires
        lp_tokens(pool, amount_coin, amount_pc, coin_vault_balance_before, pc_vault_balance_before, 0) is Ok,
    ensures
        ({
            let lp = lp_tokens(
                pool,
                amount_coin,
                amount_pc,
                coin_vault_balance_before,
                pc_vault_balance_before,
                0,
            )->Ok_0;
            let coin_n = normalized(
                amount_coin,
                pool.coin_decimals,
                pool.sys_decimal_value,
            )->Ok_0;
            let pc_n = normalized(
                amount_pc,
                pool.pc_decimals,
                pool.sys_decimal_value,
            )->Ok_0;
            is_isqrt(coin_n * pc_n, lp as int)
        }),
{
    let coin_n = normalized(
        amount_coin,
        pool.coin_decimals,
        pool.sys_decimal_value,
    )->Ok_0;
    let pc_n = normalized(
        amount_pc,
        pool.pc_decimals,
        pool.sys_decimal_value,
    )->Ok_0;
    lemma_isqrt_is_root((coin_n * pc_n) as nat);
}

/// A deposit followed at once by the withdrawal of the LP tokens it minted
/// pays back at most what was deposited, on each side. This holds for every
/// deposit into a pool with LP supply, and for a first deposit into empty
/// vaults.
pub proof fn lemma_deposit_then_withdraw_pays_no_more(
    pool: Tradium,
    deposit_accounts: Deposit,
    amount_coin: u64,
    amount_pc: u64,
    withdraw_accounts: Withdraw,
)
    requires
        deposit_minted(pool, deposit_accounts, amount_coin, amount_pc) is Ok,
        deposit_accounts.lp_supply > 0 || (deposit_accounts.coin_vault_amount == 0
            && deposit_accounts.pc_vault_amount == 0),
        withdraw_accounts.coin_vault_amount == deposit_accounts.coin_vault_amount + amount_coin,
        withdraw_accounts.pc_vault_amount == deposit_accounts.pc_vault_amount + amount_pc,
        withdraw_accounts.lp_supply == deposit_accounts.lp_supply + deposit_minted(
            pool,
            deposit_accounts,
            amount_coin,
            amount_pc,
        )->Ok_0,
    ensures
        withdraw_outcome(
            pool,
            withdraw_accounts,
            deposit_minted(pool, deposit_accounts, amount_coin, amount_pc)->Ok_0,
        ) matches Ok(plan) ==> plan.coin_amount <= amount_coin && plan.pc_amount <= amount_pc,
{
    let lp = deposit_minted(pool, deposit_accounts, amount_coin, amount_pc)->Ok_0;
    let s = deposit_accounts.lp_supply;
    let cb = deposit_accounts.coin_vault_amount;
    let pb = deposit_accounts.pc_vault_amount;
    if s > 0 {
        lemma_deposit_is_proportional(pool, amount_coin, amount_pc, cb, pb, s);
        lemma_side_pays_no_more(cb, amount_coin, lp, s);
        lemma_side_pays_no_more(pb, amount_pc, lp, s);
    } else {
        lemma_mul_div_cancel(amount_coin as int, lp as int);
        lemma_mul_div_cancel(amount_pc as int, lp as int);
    }
}

/// One side of the round trip: from `lp * before <= amount * supply`, the
/// share of `before + amount` that `lp` claims out of `supply + lp` is at
/// most `amount`.
proof fn lemma_side_pays_no_more(before: u64, amount: u64, lp: u64, supply: u64)
    requires
        lp > 0,
        lp * before <= amount * supply,
        before + amount <= u64::MAX,
        supply + lp <= u64::MAX,
    ensures
        vault_share((before + amount) as u64, lp, (supply + lp) as u64) <= amount,
{
    let t = supply + lp;
    assert((before + amount) * lp <= amount * t) by (nonlinear_arith)
        requires
            lp * before <= amount * supply,
            t == supply + lp,
    ;
    lemma_div_at_most((before + amount) * lp, t, amount as int);
}

/// A withdrawal of no more LP tokens than the supply never pays out more
/// than a vault holds, and pays each side at most its proportional part:
/// `amount * supply <= balance * lp_amount`.
pub proof fn lemma_withdraw_is_proportional(pool: Tradium, accounts: Withdraw, lp_amount: u64)
    requires
        lp_amount <= accounts.lp_supply,
        withdraw_outcome(pool, accounts, lp_amount) is Ok,
    ensures
        ({
            let plan = withdraw_outcome(pool, accounts, lp_amount)->Ok_0;
            &&& plan.coin_amount <= accounts.coin_vault_amount
            &&& plan.pc_amount <= accounts.pc_vault_amount
            &&& plan.coin_amount * accounts.lp_supply <= accounts.coin_vault_amount * lp_amount
            &&& plan.pc_amount * accounts.lp_supply <= accounts.pc_vault_amount * lp_amount
        }),
{
    lemma_share_within_vault(accounts.coin_vault_amount, lp_amount, accounts.lp_supply);
    lemma_share_within_vault(accounts.pc_vault_amount, lp_amount, accounts.lp_supply);
}

/// `vault_share` of at most the whole supply fits the vault and is at most
/// the proportional part.
proof fn lemma_share_within_vault(balance: u64, lp_amount: u64, supply: u64)
    requires
        0 < supply,
        lp_amount <= supply,
    ensures
        vault_share(balance, lp_amount, supply) <= balance,
        vault_share(balance, lp_amount, supply) * supply <= balance * lp_amount,
{
    lemma_mul_upper_bound(balance as int, balance as int, lp_amount as int, supply as int);
    assert(balance * supply == supply * balance) by (nonlinear_arith);
    lemma_div_at_most(balance * lp_amount, supply as int, balance as int);
    lemma_floor_div_bounds(balance * lp_amount, supply as int);
}

/// The withdrawal's hook-program constraint is stricter than the one of
/// deposits and swaps: what it accepts, they accept too.
pub proof fn lemma_withdraw_hook_check_is_stricter(
    mint: MintInfo,
    transfer_hook_program: Key,
    whitelist: Seq<Key>,
    num_whitelisted: u8,
)
    ensures
        withdraw_hook_accepted(mint, transfer_hook_program, whitelist, num_whitelisted)
            ==> hook_program_accepted(mint, transfer_hook_program, whitelist, num_whitelisted),
{
}


/// The swap fee keeps more of a larger input: the input after the fee
/// never decreases as the input grows.
pub proof fn lemma_fee_monotonic(
    smaller_in: u64,
    larger_in: u64,
    fee_numerator: u64,
    fee_denominator: u64,
)
    requires
        smaller_in <= larger_in,
        fee_numerator <= fee_denominator,
        fee_denominator > 0,
    ensures
        amount_after_fee(smaller_in, fee_numerator, fee_denominator) <= amount_after_fee(
            larger_in,
            fee_numerator,
            fee_denominator,
        ),
{
    let keep = fee_denominator - fee_numerator;
    lemma_mul_inequality(smaller_in as int, larger_in as int, keep);
    vstd::arithmetic::div_mod::lemma_div_is_ordered(
        smaller_in * keep,
        larger_in * keep,
        fee_denominator as int,
    );
}

/// Counting more entries of a whitelist never drops a program from it.
pub proof fn lemma_whitelist_monotonic(
    whitelist: Seq<Key>,
    smaller_num: u8,
    larger_num: u8,
    program: Seq<u8>,
)
    requires
        smaller_num <= larger_num,
        is_whitelisted(whitelist, smaller_num, program),
    ensures
        is_whitelisted(whitelist, larger_num, program),
{
    let i = choose|i: int|
        0 <= i < smaller_num && i < whitelist.len() && #[trigger] whitelist[i]@ == program;
    assert(0 <= i < larger_num && i < whitelist.len() && whitelist[i]@ == program);
}

/// Rescaling to the pool's decimals keeps the order of amounts.
proof fn lemma_normalized_monotonic(
    smaller: u64,
    larger: u64,
    token_decimals: u64,
    sys_decimals: u64,
)
    requires
        smaller <= larger,
        normalized(smaller, token_decimals, sys_decimals) is Ok,
        normalized(larger, token_decimals, sys_decimals) is Ok,
    ensures
        normalized(smaller, token_decimals, sys_decimals)->Ok_0 <= normalized(
            larger,
            token_decimals,
            sys_decimals,
        )->Ok_0,
{
    let p = pow(10, normalize_exponent(token_decimals, sys_decimals) as nat);
    lemma_pow_positive(10, normalize_exponent(token_decimals, sys_decimals) as nat);
    if sys_decimals >= token_decimals {
        lemma_mul_inequality(smaller as int, larger as int, p);
    } else {
        vstd::arithmetic::div_mod::lemma_div_is_ordered(smaller as int, larger as int, p);
        lemma_floor_div_bounds(smaller as int, p);
        lemma_floor_div_bounds(larger as int, p);
        assert((larger as int) / p <= larger) by (nonlinear_arith)
            requires
                ((larger as int) / p) * p <= larger,
                p >= 1,
                (larger as int) / p >= 0,
        ;
    }
}

/// A proportional share never shrinks as the amount grows.
proof fn lemma_share_monotonic(smaller: u64, larger: u64, supply: u64, balance_before: u64)
    requires
        smaller <= larger,
        proportional_share(smaller, supply, balance_before) is Ok,
        proportional_share(larger, supply, balance_before) is Ok,
    ensures
        proportional_share(smaller, supply, balance_before)->Ok_0 <= proportional_share(
            larger,
            supply,
            balance_before,
        )->Ok_0,
{
    lemma_share_bound(smaller, supply, balance_before);
    lemma_share_bound(larger, supply, balance_before);
    if balance_before > 0 && smaller > 0 {
        let d = balance_before as int;
        lemma_mul_inequality(smaller as int, larger as int, supply as int);
        vstd::arithmetic::div_mod::lemma_div_is_ordered(smaller * supply, larger * supply, d);
        lemma_floor_div_bounds(smaller * supply, d);
        lemma_floor_div_bounds(larger * supply, d);
        assert((larger * supply) / d <= larger * supply) by (nonlinear_arith)
            requires
                ((larger * supply) / d) * d <= larger * supply,
                d >= 1,
                (larger * supply) / d >= 0,
        ;
        assert((smaller * supply) / d <= smaller * supply) by (nonlinear_arith)
            requires
                ((smaller * supply) / d) * d <= smaller * supply,
                d >= 1,
                (smaller * supply) / d >= 0,
        ;
    }
}

/// Depositing more of either token never mints fewer LP tokens: with the
/// same pool, vault balances and supply, larger (or equal) amounts on both
/// sides, when both deposits are priced, earn at least as many LP tokens.
pub proof fn lemma_lp_tokens_monotonic(
    pool: Tradium,
    amount_coin1: u64,
    amount_pc1: u64,
    amount_coin2: u64,
    amount_pc2: u64,
    coin_vault_balance_before: u64,
    pc_vault_balance_before: u64,
    total_lp_supply: u64,
)
    requires
        amount_coin1 <= amount_coin2,
        amount_pc1 <= amount_pc2,
        lp_tokens(
            pool,
            amount_coin1,
            amount_pc1,
            coin_vault_balance_before,
            pc_vault_balance_before,
            total_lp_supply,
        ) is Ok,
        lp_tokens(
            pool,
            amount_coin2,
            amount_pc2,
            coin_vault_balance_before,
            pc_vault_balance_before,
            total_lp_supply,
        ) is Ok,
    ensures
        lp_tokens(
            pool,
            amount_coin1,
            amount_pc1,
            coin_vault_balance_before,
            pc_vault_balance_before,
            total_lp_supply,
        )->Ok_0 <= lp_tokens(
            pool,
            amount_coin2,
            amount_pc2,
            coin_vault_balance_before,
            pc_vault_balance_before,
            total_lp_supply,
        )->Ok_0,
{
    let sys = pool.sys_decimal_value;
    if total_lp_supply == 0 {
        lemma_normalized_monotonic(amount_coin1, amount_coin2, pool.coin_decimals, sys);
        lemma_normalized_monotonic(amount_pc1, amount_pc2, pool.pc_decimals, sys);
        let c1 = normalized(amount_coin1, pool.coin_decimals, sys)->Ok_0;
        let c2 = normalized(amount_coin2, pool.coin_decimals, sys)->Ok_0;
        let p1 = normalized(amount_pc1, pool.pc_decimals, sys)->Ok_0;
        let p2 = normalized(amount_pc2, pool.pc_decimals, sys)->Ok_0;
        lemma_mul_upper_bound(c1 as int, c2 as int, p1 as int, p2 as int);
        lemma_isqrt_is_root((c1 * p1) as nat);
        lemma_isqrt_is_root((c2 * p2) as nat);
        lemma_isqrt_monotonic(
            c1 * p1,
            c2 * p2,
            isqrt((c1 * p1) as nat) as int,
            isqrt((c2 * p2) as nat) as int,
        );
    } else {
        lemma_share_monotonic(amount_coin1, amount_coin2, total_lp_supply, coin_vault_balance_before);
        lemma_share_monotonic(amount_pc1, amount_pc2, total_lp_supply, pc_vault_balance_before);
    }
}


/// What a swap quote is, in both directions: with `N / D` the pool's swap
/// fee, the input left after the fee is `a = amount_in * (D - N) / D`, and
/// the swap pays `a * R_out / (R_in + a)` (both rounded down), where `R_in`
/// and `R_out` are the balances of the input and output vaults: the coin
/// vault in and the pc vault out for direction 0, the other way round
/// otherwise. The quote is accepted exactly when `N <= D`, `D > 0`, every
/// intermediate value fits in a `u64`, `R_in + a > 0`, and the payout
/// reaches `minimum_amount_out`.
pub proof fn lemma_swap_quote_is_fee_then_constant_product(
    pool: Tradium,
    accounts: Swap,
    amount_in: u64,
    minimum_amount_out: u64,
    swap_direction: u8,
)
    ensures
        ({
            let n = pool.fees.swap_fee_numerator as int;
            let d = pool.fees.swap_fee_denominator as int;
            let r_in = if swap_direction == 0 {
                accounts.coin_vault_amount as int
            } else {
                accounts.pc_vault_amount as int
            };
            let r_out = if swap_direction == 0 {
                accounts.pc_vault_amount as int
            } else {
                accounts.coin_vault_amount as int
            };
            let a = (amount_in * (d - n)) / d;
            let out = (a * r_out) / (r_in + a);
            let accepted = n <= d && amount_in * (d - n) <= u64::MAX && d > 0 && r_in + a
                <= u64::MAX && a * r_out <= u64::MAX && r_in + a > 0 && out >= minimum_amount_out;
            &&& (swap_quote(pool, accounts, amount_in, minimum_amount_out, swap_direction) is Ok
                <==> accepted)
            &&& accepted ==> swap_quote(
                pool,
                accounts,
                amount_in,
                minimum_amount_out,
                swap_direction,
            ) == Ok::<SwapPlan, TradiumError>(
                SwapPlan {
                    amount_in,
                    amount_out: out as u64,
                    input_side: if swap_direction == 0 {
                        PoolSide::Coin
                    } else {
                        PoolSide::Pc
                    },
                    output_side: if swap_direction == 0 {
                        PoolSide::Pc
                    } else {
                        PoolSide::Coin
                    },
                },
            )
        }),
{
    let n = pool.fees.swap_fee_numerator;
    let d = pool.fees.swap_fee_denominator;
    let (r_in, r_out) = if swap_direction == 0 {
        (accounts.coin_vault_amount, accounts.pc_vault_amount)
    } else {
        (accounts.pc_vault_amount, accounts.coin_vault_amount)
    };
    lemma_swap_output_within_reserve(amount_in, n, d, r_in, r_out);
    if n <= d && d > 0 {
        assert(amount_after_fee(amount_in, n, d) == (amount_in * (d - n)) / (d as int));
    }
}

/// The two directions of a swap are priced alike: a pc-to-coin quote pays
/// exactly what a coin-to-pc quote pays against the exchanged vault
/// balances, with the same fee, and the two are accepted together.
pub proof fn lemma_swap_directions_symmetric(
    pool: Tradium,
    accounts: Swap,
    amount_in: u64,
    minimum_amount_out: u64,
)
    ensures
        ({
            let exchanged = Swap {
                coin_vault_amount: accounts.pc_vault_amount,
                pc_vault_amount: accounts.coin_vault_amount,
                ..accounts
            };
            let q1 = swap_quote(pool, accounts, amount_in, minimum_amount_out, 1);
            let q0 = swap_quote(pool, exchanged, amount_in, minimum_amount_out, 0);
            &&& (q1 is Ok <==> q0 is Ok)
            &&& q1 is Ok ==> q1->Ok_0.amount_out == q0->Ok_0.amount_out
            &&& q1 matches Err(e1) ==> q0 == Err::<SwapPlan, TradiumError>(e1)
        }),
{
}

/// The hook-program constraint of deposits and swaps, on any mint, whitelist
/// and count: an absent account (the all-zero address) is always accepted,
/// and a given one is accepted exactly when the mint is owned by Token-2022,
/// its `TransferHook` extension names that very program, and the program is
/// among the first `num_whitelisted` entries of the whitelist.
pub proof fn lemma_hook_program_acceptance(
    mint: MintInfo,
    transfer_hook_program: Key,
    whitelist: Seq<Key>,
    num_whitelisted: u8,
)
    ensures
        transfer_hook_program@ == zero_key() ==> hook_program_accepted(
            mint,
            transfer_hook_program,
            whitelist,
            num_whitelisted,
        ),
        transfer_hook_program@ != zero_key() ==> (hook_program_accepted(
            mint,
            transfer_hook_program,
            whitelist,
            num_whitelisted,
        ) <==> {
            &&& mint.owner@ == token_2022_program_key()
            &&& mint.transfer_hook matches Some(hook) && hook@ == transfer_hook_program@
            &&& exists|i: int|
                0 <= i < num_whitelisted && i < whitelist.len() && #[trigger] whitelist[i]@
                    == transfer_hook_program@
        }),
{
}

/// The withdrawal's hook-program constraint, on any mint, whitelist and
/// count: a given account is accepted exactly when it is not the all-zero
/// address, the mint is owned by Token-2022, its `TransferHook` extension
/// names that very program, and the program is among the first
/// `num_whitelisted` entries of the whitelist.
pub proof fn lemma_withdraw_hook_program_acceptance(
    mint: MintInfo,
    transfer_hook_program: Key,
    whitelist: Seq<Key>,
    num_whitelisted: u8,
)
    ensures
        withdraw_hook_accepted(mint, transfer_hook_program, whitelist, num_whitelisted) <==> {
            &&& transfer_hook_program@ != zero_key()
            &&& mint.owner@ == token_2022_program_key()
            &&& mint.transfer_hook matches Some(hook) && hook@ == transfer_hook_program@
            &&& exists|i: int|
                0 <= i < num_whitelisted && i < whitelist.len() && #[trigger] whitelist[i]@
                    == transfer_hook_program@
        },
{
}

/// Pool creation looks at each side's token program on its own: it succeeds
/// exactly when each program is SPL Token or Token-2022 (the same program on
/// both sides included), and each vault is then set up by Token-2022 when
/// its side's program is Token-2022 and by SPL Token otherwise. Any other
/// program is refused with `InvalidTokenProgram`.
pub proof fn lemma_pool_setup_per_side(accounts: InitializePool)
    ensures
        ({
            let coin = accounts.coin_token_program@;
            let pc = accounts.pc_token_program@;
            let coin_known = coin == spl_token_program_key() || coin == token_2022_program_key();
            let pc_known = pc == spl_token_program_key() || pc == token_2022_program_key();
            &&& coin_known && pc_known ==> pool_setup(accounts) == Ok::<VaultSetup, TradiumError>(
                VaultSetup {
                    coin_vault_program: if coin == token_2022_program_key() {
                        TokenProgramKind::Token2022
                    } else {
                        TokenProgramKind::Token
                    },
                    pc_vault_program: if pc == token_2022_program_key() {
                        TokenProgramKind::Token2022
                    } else {
                        TokenProgramKind::Token
                    },
                },
            )
            &&& !(coin_known && pc_known) ==> pool_setup(accounts) == Err::<VaultSetup, TradiumError>(
                TradiumError::InvalidTokenProgram,
            )
        }),
{
}


/// What a withdrawal pays: `lp_amount` LP tokens out of a supply `S` claim
/// `balance * lp_amount / S` of each vault (rounded down, cut to 64 bits).
/// It is accepted exactly when the amount is positive and within the user's
/// LP balance, both token programs are the pool's, the supply is positive,
/// and both payouts are positive.
pub proof fn lemma_withdraw_pays_proportionally(pool: Tradium, accounts: Withdraw, lp_amount: u64)
    ensures
        ({
            let s = accounts.lp_supply as int;
            let coin = ((accounts.coin_vault_amount * lp_amount) / s) as u64;
            let pc = ((accounts.pc_vault_amount * lp_amount) / s) as u64;
            let accepted = lp_amount > 0 && accounts.user_lp_amount >= lp_amount
                && accounts.coin_token_program@ == pool.coin_token_program@
                && accounts.pc_token_program@ == pool.pc_token_program@ && s > 0 && coin > 0 && pc
                > 0;
            &&& (withdraw_outcome(pool, accounts, lp_amount) is Ok <==> accepted)
            &&& accepted ==> withdraw_outcome(pool, accounts, lp_amount) == Ok::<
                WithdrawPlan,
                TradiumError,
            >(WithdrawPlan { lp_amount, coin_amount: coin, pc_amount: pc })
        }),
{
}

/// What a later deposit mints (the pool already has LP supply `S`): each
/// side earns `amount * S / balance_before` (rounded down; nothing when the
/// amount or the vault is empty), and the deposit earns the smaller of the
/// two; it fails with `MathOverflow` only when `amount * S` leaves `u64`.
pub proof fn lemma_later_deposit_mints_smaller_share(
    pool: Tradium,
    amount_coin: u64,
    amount_pc: u64,
    coin_vault_balance_before: u64,
    pc_vault_balance_before: u64,
    total_lp_supply: u64,
)
    requires
        total_lp_supply > 0,
    ensures
        ({
            let s = total_lp_supply as int;
            let coin_counts = coin_vault_balance_before > 0 && amount_coin > 0;
            let pc_counts = pc_vault_balance_before > 0 && amount_pc > 0;
            let coin_share = if coin_counts {
                (amount_coin * s) / (coin_vault_balance_before as int)
            } else {
                0
            };
            let pc_share = if pc_counts {
                (amount_pc * s) / (pc_vault_balance_before as int)
            } else {
                0
            };
            let fits = (coin_counts ==> amount_coin * s <= u64::MAX) && (pc_counts ==> amount_pc
                * s <= u64::MAX);
            let lp = lp_tokens(
                pool,
                amount_coin,
                amount_pc,
                coin_vault_balance_before,
                pc_vault_balance_before,
                total_lp_supply,
            );
            &&& fits ==> lp is Ok && lp->Ok_0 == (if coin_share <= pc_share {
                coin_share
            } else {
                pc_share
            })
            &&& !fits ==> lp == Err::<u64, TradiumError>(TradiumError::MathOverflow)
        }),
{
    if coin_vault_balance_before > 0 && amount_coin > 0 && amount_coin * total_lp_supply
        <= u64::MAX {
        lemma_floor_div_bounds(amount_coin * total_lp_supply, coin_vault_balance_before as int);
        assert((amount_coin * total_lp_supply) / (coin_vault_balance_before as int) <= amount_coin
            * total_lp_supply) by (nonlinear_arith)
            requires
                ((amount_coin * total_lp_supply) / (coin_vault_balance_before as int)) * (
                coin_vault_balance_before as int) <= amount_coin * total_lp_supply,
                coin_vault_balance_before >= 1,
                (amount_coin * total_lp_supply) / (coin_vault_balance_before as int) >= 0,
        ;
    }
    if pc_vault_balance_before > 0 && amount_pc > 0 && amount_pc * total_lp_supply <= u64::MAX {
        lemma_floor_div_bounds(amount_pc * total_lp_supply, pc_vault_balance_before as int);
        assert((amount_pc * total_lp_supply) / (pc_vault_balance_before as int) <= amount_pc
            * total_lp_supply) by (nonlinear_arith)
            requires
                ((amount_pc * total_lp_supply) / (pc_vault_balance_before as int)) * (
                pc_vault_balance_before as int) <= amount_pc * total_lp_supply,
                pc_vault_balance_before >= 1,
                (amount_pc * total_lp_supply) / (pc_vault_balance_before as int) >= 0,
        ;
    }
}

/// A freshly created pool is active and charges the default fees: a trade
/// fee of 30 and a swap fee of 5 basis points (out of 10000), with no hook
/// program whitelisted, its nonce its bump, and both mints' decimals kept.
pub proof fn lemma_new_pool_defaults(
    before: Tradium,
    after: Tradium,
    accounts: InitializePool,
    pool_bump: u8,
)
    requires
        initialized_pool(before, after, accounts, pool_bump),
    ensures
        after.status == 1,
        after.fees.trade_fee_numerator == 30,
        after.fees.trade_fee_denominator == 10000,
        after.fees.swap_fee_numerator == 5,
        after.fees.swap_fee_denominator == 10000,
        after.num_whitelisted_hooks == 0,
        after.nonce[0] == pool_bump,
        after.coin_decimals == accounts.coin_mint_decimals,
        after.pc_decimals == accounts.pc_mint_decimals,
        after.coin_token_program == accounts.coin_token_program,
        after.pc_token_program == accounts.pc_token_program,
        after.state_data.initialized,
        after.lp_amount == before.lp_amount,
{
}

} // verus!
