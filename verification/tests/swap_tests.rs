use tradium::error::TradiumError;
use tradium::instructions::shared::MintInfo;
use tradium::instructions::swap::{
    compute_swap_output, quote_swap, record_swap, swap, PoolSide, Swap, SwapPlan,
};
use tradium::state::Tradium;

fn key(b: u8) -> [u8; 32] {
    [b; 32]
}

fn mint(b: u8) -> MintInfo {
    MintInfo { key: key(b), owner: key(90), transfer_hook: None }
}

fn pool() -> Tradium {
    let mut pool = Tradium::default();
    pool.coin_token_program = key(1);
    pool.pc_token_program = key(2);
    pool.fees.swap_fee_numerator = 5;
    pool.fees.swap_fee_denominator = 10_000;
    pool.nonce = [3];
    pool
}

fn accounts(input: u8, output: u8) -> Swap {
    Swap {
        coin_vault: key(3),
        coin_vault_amount: 100_000,
        pc_vault: key(4),
        pc_vault_amount: 200_000,
        coin_mint: mint(6),
        pc_mint: mint(7),
        input_token_program: key(input),
        output_token_program: key(output),
        coin_transfer_hook_program: None,
        pc_transfer_hook_program: None,
    }
}

#[test]
fn swap_checks_direction_amount_and_programs() {
    assert_eq!(swap(&pool(), &accounts(1, 2), 10, 0), Ok(()));
    assert_eq!(swap(&pool(), &accounts(2, 1), 10, 1), Ok(()));
    assert_eq!(swap(&pool(), &accounts(1, 2), 10, 2), Err(TradiumError::InvalidSwapDirection));
    assert_eq!(swap(&pool(), &accounts(1, 2), 0, 0), Err(TradiumError::InvalidInputAmount));
    assert_eq!(swap(&pool(), &accounts(2, 1), 10, 0), Err(TradiumError::InvalidTokenProgram));
    assert_eq!(swap(&pool(), &accounts(1, 1), 10, 0), Err(TradiumError::InvalidTokenProgram));
}

#[test]
fn swap_output_exact_values() {
    // after fee: 1000 * 9995 / 10000 = 999; out: 999 * 100000 / 100999 = 989.
    assert_eq!(compute_swap_output(1000, 5, 10_000, 100_000, 100_000), Ok(989));
    // no fee: 100 * 300 / (200 + 100) = 100.
    assert_eq!(compute_swap_output(100, 0, 1, 200, 300), Ok(100));
}

#[test]
fn swap_output_failures() {
    assert_eq!(compute_swap_output(10, 2, 1, 5, 5), Err(TradiumError::MathOverflow));
    assert_eq!(compute_swap_output(10, 0, 0, 5, 5), Err(TradiumError::MathOverflow));
    assert_eq!(compute_swap_output(u64::MAX, 0, 2, 5, 5), Err(TradiumError::MathOverflow));
    assert_eq!(compute_swap_output(10, 0, 1, u64::MAX, 5), Err(TradiumError::MathOverflow));
    assert_eq!(compute_swap_output(10, 0, 1, 5, u64::MAX), Err(TradiumError::MathOverflow));
    // Nothing after the fee against an empty input reserve divides by zero.
    assert_eq!(compute_swap_output(1, 1, 2, 0, 5), Err(TradiumError::MathOverflow));
}

#[test]
fn quote_swap_both_directions() {
    assert_eq!(
        quote_swap(&pool(), &accounts(1, 2), 1000, 0, 0),
        Ok(SwapPlan {
            amount_in: 1000,
            amount_out: 1978,
            input_side: PoolSide::Coin,
            output_side: PoolSide::Pc,
        })
    );
    assert_eq!(
        quote_swap(&pool(), &accounts(2, 1), 1000, 0, 1),
        Ok(SwapPlan {
            amount_in: 1000,
            amount_out: 497,
            input_side: PoolSide::Pc,
            output_side: PoolSide::Coin,
        })
    );
}

#[test]
fn quote_swap_slippage() {
    assert_eq!(
        quote_swap(&pool(), &accounts(1, 2), 1000, 1979, 0),
        Err(TradiumError::SlippageExceeded)
    );
    assert!(quote_swap(&pool(), &accounts(1, 2), 1000, 1978, 0).is_ok());
}

#[test]
fn record_swap_advances_nonce() {
    let mut p = pool();
    assert_eq!(record_swap(&mut p), Ok(()));
    assert_eq!(p.nonce, [4]);
    p.nonce = [255];
    assert_eq!(record_swap(&mut p), Err(TradiumError::MathOverflow));
    assert_eq!(p.nonce, [255]);
}

#[test]
fn swap_keeps_constant_product_on_samples() {
    let reserves: [(u64, u64); 4] = [(100_000, 200_000), (1, 1_000_000), (5_000, 5_000), (7, 3)];
    for (rin, rout) in reserves {
        for amount_in in [1u64, 2, 10, 999, 123_456] {
            if let Ok(out) = compute_swap_output(amount_in, 5, 10_000, rin, rout) {
                assert!(out <= rout);
                let before = (rin as u128) * (rout as u128);
                let after = ((rin + amount_in) as u128) * ((rout - out) as u128);
                assert!(after >= before);
                assert!(out < rout);
            }
        }
    }
}
