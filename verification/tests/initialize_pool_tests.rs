use tradium::error::TradiumError;
use tradium::instructions::initialize_pool::{
    initialize_pool, InitializePool, TokenProgramKind, VaultSetup,
};
use tradium::state::Tradium;

fn key(b: u8) -> [u8; 32] {
    [b; 32]
}

fn accounts(coin_program: [u8; 32], pc_program: [u8; 32]) -> InitializePool {
    InitializePool {
        coin_mint: key(6),
        coin_mint_decimals: 9,
        pc_mint: key(7),
        pc_mint_decimals: 6,
        lp_mint: key(5),
        coin_vault: key(3),
        pc_vault: key(4),
        coin_token_program: coin_program,
        pc_token_program: pc_program,
    }
}

#[test]
fn initialize_pool_with_both_token_programs() {
    let spl = spl_token::ID.to_bytes();
    let t22 = spl_token_2022::ID.to_bytes();
    let mut pool = Tradium::default();
    pool.sys_decimal_value = 4;
    let r = initialize_pool(&mut pool, &accounts(spl, t22), 254);
    assert_eq!(
        r,
        Ok(VaultSetup {
            coin_vault_program: TokenProgramKind::Token,
            pc_vault_program: TokenProgramKind::Token2022,
        })
    );
    assert_eq!(pool.status, 1);
    assert_eq!(pool.nonce, [254]);
    assert_eq!(pool.coin_decimals, 9);
    assert_eq!(pool.pc_decimals, 6);
    assert_eq!(pool.coin_vault_mint, key(6));
    assert_eq!(pool.pc_vault_mint, key(7));
    assert_eq!(pool.lp_mint, key(5));
    assert_eq!(pool.coin_vault, key(3));
    assert_eq!(pool.pc_vault, key(4));
    assert_eq!(pool.coin_token_program, spl);
    assert_eq!(pool.pc_token_program, t22);
    assert_eq!(pool.fees.trade_fee_numerator, 30);
    assert_eq!(pool.fees.trade_fee_denominator, 10_000);
    assert_eq!(pool.fees.swap_fee_numerator, 5);
    assert_eq!(pool.fees.swap_fee_denominator, 10_000);
    assert_eq!(pool.whitelisted_transfer_hooks, [[0u8; 32]; 10]);
    assert_eq!(pool.num_whitelisted_hooks, 0);
    assert!(pool.state_data.initialized);
    assert_eq!(pool.sys_decimal_value, 4);
}

#[test]
fn initialize_pool_token_program_ids() {
    let spl = spl_token::ID.to_bytes();
    let t22 = spl_token_2022::ID.to_bytes();
    assert_eq!(spl[..4], [6, 221, 246, 225]);
    let mut pool = Tradium::default();
    assert_eq!(
        initialize_pool(&mut pool, &accounts(t22, spl), 1),
        Ok(VaultSetup {
            coin_vault_program: TokenProgramKind::Token2022,
            pc_vault_program: TokenProgramKind::Token,
        })
    );
}

#[test]
fn initialize_pool_refuses_other_programs() {
    let spl = spl_token::ID.to_bytes();
    let mut pool = Tradium::default();
    assert_eq!(
        initialize_pool(&mut pool, &accounts(key(1), spl), 1),
        Err(TradiumError::InvalidTokenProgram)
    );
    assert_eq!(
        initialize_pool(&mut pool, &accounts(spl, key(1)), 1),
        Err(TradiumError::InvalidTokenProgram)
    );
    assert_eq!(pool, Tradium::default());
}
