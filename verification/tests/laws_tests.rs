use tradium::instructions::deposit::{deposit_lp_to_mint, Deposit};
use tradium::instructions::shared::{validate_transfer_hook_program, MintInfo};
use tradium::instructions::withdraw::{self, withdraw, Withdraw};
use tradium::state::Tradium;

fn key(b: u8) -> [u8; 32] {
    [b; 32]
}

fn mint(b: u8) -> MintInfo {
    MintInfo { key: key(b), owner: key(90), transfer_hook: None }
}

fn pool() -> Tradium {
    let mut pool = Tradium::default();
    pool.coin_token_program = key(1);
    pool.pc_token_program = key(2);
    pool
}

fn deposit_accounts(coin: u64, pc: u64, supply: u64) -> Deposit {
    Deposit {
        coin_vault: key(3),
        coin_vault_amount: coin,
        pc_vault: key(4),
        pc_vault_amount: pc,
        lp_mint: key(5),
        lp_supply: supply,
        coin_mint: mint(6),
        pc_mint: mint(7),
        coin_token_program: key(1),
        pc_token_program: key(2),
        coin_transfer_hook_program: None,
        pc_transfer_hook_program: None,
    }
}

fn withdraw_accounts(coin: u64, pc: u64, supply: u64, user_lp: u64) -> Withdraw {
    Withdraw {
        user_lp_amount: user_lp,
        coin_vault: key(3),
        coin_vault_amount: coin,
        pc_vault: key(4),
        pc_vault_amount: pc,
        coin_vault_mint: mint(6),
        pc_vault_mint: mint(7),
        lp_mint: key(5),
        lp_supply: supply,
        lp_token_program: key(1),
        coin_token_program: key(1),
        pc_token_program: key(2),
        coin_transfer_hook_program: None,
        pc_transfer_hook_program: None,
    }
}

#[test]
fn deposit_then_withdraw_returns_no_more() {
    let cases: [(u64, u64, u64, u64, u64); 4] = [
        (1_000, 4_000, 2_000, 10, 40),
        (1_000, 4_000, 2_000, 17, 33),
        (333, 777, 1_000, 5, 9),
        (10, 10, 7, 3, 3),
    ];
    for (cb, pb, s, ac, ap) in cases {
        let d = deposit_accounts(cb, pb, s);
        if let Ok(lp) = deposit_lp_to_mint(&pool(), &d, ac, ap) {
            // Each side earns at most its proportional share.
            assert!((lp as u128) * (cb as u128) <= (ac as u128) * (s as u128));
            assert!((lp as u128) * (pb as u128) <= (ap as u128) * (s as u128));
            let w = withdraw_accounts(cb + ac, pb + ap, s + lp, lp);
            if let Ok(plan) = withdraw(&pool(), &w, lp) {
                assert!(plan.coin_amount <= ac);
                assert!(plan.pc_amount <= ap);
            }
        }
    }
}

#[test]
fn first_deposit_round_trip_is_exact() {
    let d = deposit_accounts(0, 0, 0);
    let lp = deposit_lp_to_mint(&pool(), &d, 100, 400).unwrap();
    assert_eq!(lp, 200);
    let plan = withdraw(&pool(), &withdraw_accounts(100, 400, 200, 200), 200).unwrap();
    assert_eq!((plan.coin_amount, plan.pc_amount), (100, 400));
}

#[test]
fn withdraw_stays_within_vaults() {
    for lp in [1u64, 9, 333, 1_000] {
        if let Ok(plan) = withdraw(&pool(), &withdraw_accounts(5_000, 777, 1_000, 1_000), lp) {
            assert!(plan.coin_amount <= 5_000);
            assert!(plan.pc_amount <= 777);
            assert!((plan.coin_amount as u128) * 1_000 <= 5_000 * (lp as u128));
        }
    }
}

#[test]
fn withdraw_hook_acceptance_implies_general_acceptance() {
    let list = [key(77)];
    let m = MintInfo { key: key(6), owner: spl_token_2022::ID.to_bytes(), transfer_hook: Some(key(77)) };
    for program in [key(77), key(78), [0u8; 32]] {
        if withdraw::validate_transfer_hook_program(&m, &program, &list, 1) {
            assert!(validate_transfer_hook_program(&m, &program, &list, 1));
        }
    }
}

#[test]
fn larger_swap_input_pays_no_less() {
    let mut last = 0u64;
    for amount_in in [1u64, 5, 50, 500, 5_000, 50_000, 500_000] {
        let out = tradium::instructions::swap::compute_swap_output(amount_in, 30, 10_000, 70_000, 90_000)
            .unwrap();
        assert!(out >= last);
        last = out;
    }
}

#[test]
fn larger_deposit_mints_no_fewer_lp_tokens() {
    let p = pool();
    let amounts: [u64; 6] = [0, 1, 7, 40, 333, 5_000];
    for supply in [0u64, 2_000] {
        for &c1 in &amounts {
            for &c2 in &amounts {
                for &q1 in &amounts {
                    for &q2 in &amounts {
                        if c1 <= c2 && q1 <= q2 {
                            let l1 = tradium::instructions::deposit::calculate_lp_tokens(
                                &p, c1, q1, 1_000, 4_000, supply,
                            );
                            let l2 = tradium::instructions::deposit::calculate_lp_tokens(
                                &p, c2, q2, 1_000, 4_000, supply,
                            );
                            if let (Ok(a), Ok(b)) = (l1, l2) {
                                assert!(a <= b);
                            }
                        }
                    }
                }
            }
        }
    }
}
