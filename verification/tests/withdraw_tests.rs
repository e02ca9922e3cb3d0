use tradium::error::TradiumError;
use tradium::instructions::shared::MintInfo;
use tradium::instructions::withdraw::{withdraw, Withdraw, WithdrawPlan};
use tradium::state::Tradium;

fn key(b: u8) -> [u8; 32] {
    [b; 32]
}

fn mint(b: u8) -> MintInfo {
    MintInfo { key: key(b), owner: key(90), transfer_hook: None }
}

fn pool() -> Tradium {
    let mut pool = Tradium::default();
    pool.coin_token_program = key(1);
    pool.pc_token_program = key(2);
    pool
}

fn accounts() -> Withdraw {
    Withdraw {
        user_lp_amount: 500,
        coin_vault: key(3),
        coin_vault_amount: 10_000,
        pc_vault: key(4),
        pc_vault_amount: 3_000,
        coin_vault_mint: mint(6),
        pc_vault_mint: mint(7),
        lp_mint: key(5),
        lp_supply: 1_000,
        lp_token_program: key(1),
        coin_token_program: key(1),
        pc_token_program: key(2),
        coin_transfer_hook_program: None,
        pc_transfer_hook_program: None,
    }
}

#[test]
fn withdraw_pays_proportional_amounts() {
    assert_eq!(
        withdraw(&pool(), &accounts(), 250),
        Ok(WithdrawPlan { lp_amount: 250, coin_amount: 2_500, pc_amount: 750 })
    );
    // 3000 * 7 / 1000 = 21 (rounded down from 21).
    assert_eq!(
        withdraw(&pool(), &accounts(), 7),
        Ok(WithdrawPlan { lp_amount: 7, coin_amount: 70, pc_amount: 21 })
    );
}

#[test]
fn withdraw_refusals() {
    assert_eq!(withdraw(&pool(), &accounts(), 0), Err(TradiumError::InvalidAmount));
    assert_eq!(withdraw(&pool(), &accounts(), 501), Err(TradiumError::InsufficientBalance));
    let mut a = accounts();
    a.coin_token_program = key(9);
    assert_eq!(withdraw(&pool(), &a, 1), Err(TradiumError::InvalidCoinTokenProgram));
    let mut a = accounts();
    a.pc_token_program = key(9);
    assert_eq!(withdraw(&pool(), &a, 1), Err(TradiumError::InvalidPcTokenProgram));
    let mut a = accounts();
    a.lp_supply = 0;
    assert_eq!(withdraw(&pool(), &a, 1), Err(TradiumError::EmptyPool));
    // pc side: 3000 * 1 / 5000 = 0.
    let mut a = accounts();
    a.lp_supply = 5_000;
    assert_eq!(withdraw(&pool(), &a, 1), Err(TradiumError::InsufficientWithdrawal));
    let mut a = accounts();
    a.coin_vault_amount = 0;
    assert_eq!(withdraw(&pool(), &a, 1), Err(TradiumError::InsufficientWithdrawal));
}

#[test]
fn withdraw_share_is_cut_to_64_bits() {
    // More LP than the supply: the share passes u64 and is cut to its low 64 bits.
    let mut a = accounts();
    a.user_lp_amount = u64::MAX;
    a.coin_vault_amount = u64::MAX;
    a.pc_vault_amount = u64::MAX;
    a.lp_supply = 1;
    let big = (u64::MAX as u128) * 3;
    assert_eq!(
        withdraw(&pool(), &a, 3),
        Ok(WithdrawPlan { lp_amount: 3, coin_amount: big as u64, pc_amount: big as u64 })
    );
}
