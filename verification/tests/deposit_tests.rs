use tradium::error::TradiumError;
use tradium::instructions::deposit::{
    deposit, deposit_lp_to_mint, record_deposit, Deposit, DepositTransfers,
};
use tradium::instructions::shared::MintInfo;
use tradium::state::Tradium;

fn key(b: u8) -> [u8; 32] {
    [b; 32]
}

fn mint(b: u8) -> MintInfo {
    MintInfo { key: key(b), owner: key(90), transfer_hook: None }
}

fn pool() -> Tradium {
    let mut pool = Tradium::default();
    pool.coin_token_program = key(1);
    pool.pc_token_program = key(2);
    pool.coin_vault = key(3);
    pool.pc_vault = key(4);
    pool.lp_mint = key(5);
    pool.coin_vault_mint = key(6);
    pool.pc_vault_mint = key(7);
    pool.nonce = [9];
    pool.lp_amount = 50;
    pool
}

fn accounts() -> Deposit {
    Deposit {
        coin_vault: key(3),
        coin_vault_amount: 1_000,
        pc_vault: key(4),
        pc_vault_amount: 4_000,
        lp_mint: key(5),
        lp_supply: 2_000,
        coin_mint: mint(6),
        pc_mint: mint(7),
        coin_token_program: key(1),
        pc_token_program: key(2),
        coin_transfer_hook_program: None,
        pc_transfer_hook_program: None,
    }
}

#[test]
fn deposit_accepts_matching_accounts() {
    assert_eq!(
        deposit(&pool(), &accounts(), 10, 0),
        Ok(DepositTransfers { coin_amount: Some(10), pc_amount: None })
    );
    assert_eq!(
        deposit(&pool(), &accounts(), 10, 40),
        Ok(DepositTransfers { coin_amount: Some(10), pc_amount: Some(40) })
    );
}

#[test]
fn deposit_refuses_zero_amounts() {
    assert_eq!(deposit(&pool(), &accounts(), 0, 0), Err(TradiumError::InvalidDepositAmount));
}

#[test]
fn deposit_refuses_foreign_accounts_in_order() {
    let mut a = accounts();
    a.coin_token_program = key(42);
    a.pc_vault = key(42);
    assert_eq!(deposit(&pool(), &a, 1, 1), Err(TradiumError::InvalidCoinTokenProgram));
    let mut a = accounts();
    a.pc_token_program = key(42);
    assert_eq!(deposit(&pool(), &a, 1, 1), Err(TradiumError::InvalidPcTokenProgram));
    let mut a = accounts();
    a.coin_vault = key(42);
    assert_eq!(deposit(&pool(), &a, 1, 1), Err(TradiumError::InvalidCoinVault));
    let mut a = accounts();
    a.pc_vault = key(42);
    assert_eq!(deposit(&pool(), &a, 1, 1), Err(TradiumError::InvalidPcVault));
    let mut a = accounts();
    a.lp_mint = key(42);
    assert_eq!(deposit(&pool(), &a, 1, 1), Err(TradiumError::InvalidLpMint));
    let mut a = accounts();
    a.coin_mint = mint(42);
    assert_eq!(deposit(&pool(), &a, 1, 1), Err(TradiumError::InvalidCoinMint));
    let mut a = accounts();
    a.pc_mint = mint(42);
    assert_eq!(deposit(&pool(), &a, 1, 1), Err(TradiumError::InvalidPcMint));
}

#[test]
fn deposit_mints_proportional_lp() {
    // coin share 10 * 2000 / 1000 = 20, pc share 40 * 2000 / 4000 = 20.
    assert_eq!(deposit_lp_to_mint(&pool(), &accounts(), 10, 40), Ok(20));
    // pc share 30 * 2000 / 4000 = 15 is the smaller.
    assert_eq!(deposit_lp_to_mint(&pool(), &accounts(), 10, 30), Ok(15));
}

#[test]
fn deposit_of_one_side_mints_nothing() {
    assert_eq!(
        deposit_lp_to_mint(&pool(), &accounts(), 10, 0),
        Err(TradiumError::InsufficientLiquidityMinted)
    );
}

#[test]
fn deposit_too_small_mints_nothing() {
    // 1 * 2000 / 4000 = 0.
    assert_eq!(
        deposit_lp_to_mint(&pool(), &accounts(), 1, 1),
        Err(TradiumError::InsufficientLiquidityMinted)
    );
}

#[test]
fn record_deposit_counts_lp_and_advances_nonce() {
    let mut p = pool();
    assert_eq!(record_deposit(&mut p, 20), Ok(()));
    assert_eq!(p.lp_amount, 70);
    assert_eq!(p.nonce, [10]);
}

#[test]
fn record_deposit_overflows() {
    let mut p = pool();
    p.lp_amount = u64::MAX;
    assert_eq!(record_deposit(&mut p, 1), Err(TradiumError::MathOverflow));
    assert_eq!(p.lp_amount, u64::MAX);
    let mut p = pool();
    p.nonce = [255];
    assert_eq!(record_deposit(&mut p, 1), Err(TradiumError::MathOverflow));
    assert_eq!(p.lp_amount, 51);
    assert_eq!(p.nonce, [255]);
}
