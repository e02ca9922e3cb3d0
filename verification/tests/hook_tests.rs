use spl_token_2022::extension::transfer_hook::TransferHook;
use spl_token_2022::extension::{
    BaseStateWithExtensionsMut, ExtensionType, StateWithExtensionsMut,
};
use spl_token_2022::solana_program::pubkey::Pubkey;
use spl_token_2022::state::Mint;
use tradium::error::TradiumError;
use tradium::instructions::shared::{
    transfer_hook_remaining_account, validate_transfer_hook_program, whitelist_contains, MintInfo,
};
use tradium::instructions::swap::swap_transfer_remaining_account;
use tradium::instructions::withdraw;

fn key(b: u8) -> [u8; 32] {
    [b; 32]
}

fn t22() -> [u8; 32] {
    spl_token_2022::ID.to_bytes()
}

/// Data of an initialised Token-2022 mint, with a `TransferHook` extension
/// naming `hook` when one is given.
fn mint_data(hook: Option<[u8; 32]>) -> Vec<u8> {
    let extensions: Vec<ExtensionType> = match hook {
        Some(_) => vec![ExtensionType::TransferHook],
        None => vec![],
    };
    let len = ExtensionType::try_calculate_account_len::<Mint>(&extensions).unwrap();
    let mut data = vec![0u8; len];
    {
        let mut state = StateWithExtensionsMut::<Mint>::unpack_uninitialized(&mut data).unwrap();
        if let Some(h) = hook {
            let ext = state.init_extension::<TransferHook>(true).unwrap();
            ext.program_id.0 = Pubkey::new_from_array(h);
        }
        state.base.decimals = 6;
        state.base.is_initialized = true;
        state.pack_base();
        if hook.is_some() {
            state.init_account_type().unwrap();
        }
    }
    data
}

fn hooked_mint(hook: [u8; 32]) -> MintInfo {
    MintInfo { key: key(6), owner: t22(), transfer_hook: Some(hook) }
}

#[test]
fn mint_info_reads_the_hook_extension() {
    let data = mint_data(Some(key(77)));
    let m = MintInfo::read(key(6), t22(), &data);
    assert_eq!(m.key, key(6));
    assert_eq!(m.owner, t22());
    assert_eq!(m.transfer_hook, Some(key(77)));
}

#[test]
fn mint_info_without_extension() {
    let data = mint_data(None);
    let m = MintInfo::read(key(6), t22(), &data);
    assert_eq!(m.transfer_hook, None);
    let m = MintInfo::read(key(6), t22(), &[1, 2, 3]);
    assert_eq!(m.transfer_hook, None);
}

#[test]
fn whitelist_lookup_respects_count() {
    let list = [key(1), key(2), key(3)];
    assert!(whitelist_contains(&list, 2, &key(2)));
    assert!(!whitelist_contains(&list, 1, &key(2)));
    assert!(!whitelist_contains(&list, 3, &key(4)));
    assert!(whitelist_contains(&list, 200, &key(3)));
}

#[test]
fn hook_validation_for_deposits_and_swaps() {
    let list = [key(77), key(0), key(0)];
    let m = hooked_mint(key(77));
    // No account given: always accepted.
    assert!(validate_transfer_hook_program(&m, &[0u8; 32], &list, 1));
    // The mint's own, whitelisted hook program.
    assert!(validate_transfer_hook_program(&m, &key(77), &list, 1));
    // Not counted in the whitelist.
    assert!(!validate_transfer_hook_program(&m, &key(77), &list, 0));
    // Another program than the mint's.
    assert!(!validate_transfer_hook_program(&m, &key(78), &[key(78)], 1));
    // A mint without a hook accepts no hook account.
    let plain = MintInfo { key: key(6), owner: key(90), transfer_hook: Some(key(77)) };
    assert!(!validate_transfer_hook_program(&plain, &key(77), &list, 1));
    let zero_hook = hooked_mint([0u8; 32]);
    assert!(!validate_transfer_hook_program(&zero_hook, &key(77), &list, 1));
}

#[test]
fn hook_validation_for_withdrawals() {
    let list = [key(77), key(0), key(0)];
    let m = hooked_mint(key(77));
    assert!(withdraw::validate_transfer_hook_program(&m, &key(77), &list, 1));
    assert!(!withdraw::validate_transfer_hook_program(&m, &key(77), &list, 0));
    // Unlike deposits and swaps, an absent account (all zeros) is refused.
    assert!(!withdraw::validate_transfer_hook_program(&m, &[0u8; 32], &list, 1));
    let plain = MintInfo { key: key(6), owner: key(90), transfer_hook: None };
    assert!(!withdraw::validate_transfer_hook_program(&plain, &[0u8; 32], &list, 1));
}

#[test]
fn withdraw_hook_check_past_the_whitelist() {
    let list = [key(1), key(2)];
    let m = hooked_mint(key(77));
    assert!(withdraw::hook_check_panics(&m, &key(77), &list, 5));
    assert!(!withdraw::hook_check_panics(&m, &key(77), &list, 2));
    assert!(!withdraw::hook_check_panics(&m, &key(2), &list, 5));
    let found = hooked_mint(key(2));
    assert!(!withdraw::hook_check_panics(&found, &key(2), &list, 5));
    assert!(withdraw::validate_transfer_hook_program(&found, &key(2), &list, 5));
}

#[test]
fn transfer_accounts_for_deposits_and_withdrawals() {
    let m = hooked_mint(key(77));
    assert_eq!(transfer_hook_remaining_account(&m, Some(key(77))), Ok(Some(key(77))));
    // The shared rule passes along whatever account is given.
    assert_eq!(transfer_hook_remaining_account(&m, Some(key(5))), Ok(Some(key(5))));
    assert_eq!(
        transfer_hook_remaining_account(&m, None),
        Err(TradiumError::InvalidTransferHookProgram)
    );
    let plain = MintInfo { key: key(6), owner: key(90), transfer_hook: Some(key(77)) };
    assert_eq!(transfer_hook_remaining_account(&plain, None), Ok(None));
}

#[test]
fn transfer_accounts_for_swaps() {
    let m = hooked_mint(key(77));
    assert_eq!(swap_transfer_remaining_account(&m, Some(key(77))), Ok(Some(key(77))));
    assert_eq!(
        swap_transfer_remaining_account(&m, Some(key(5))),
        Err(TradiumError::InvalidTransferHookProgram)
    );
    assert_eq!(swap_transfer_remaining_account(&m, None), Ok(None));
    let zero_hook = hooked_mint([0u8; 32]);
    assert_eq!(swap_transfer_remaining_account(&zero_hook, Some(key(5))), Ok(None));
}
