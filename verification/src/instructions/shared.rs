//! What the pool reads of a token mint, and the transfer-hook rules shared by
//! the deposit and withdraw instructions.

use vstd::prelude::*;

use crate::error::TradiumError;
use crate::keys::{Key, is_default, is_default_key, keys_equal};
use crate::token_programs::{
    read_transfer_hook_extension, token_2022_id, token_2022_program_key, transfer_hook_extension,
};

verus! {

/// What the pool reads of a mint account: its address, the program that
/// owns it, and the raw program id of its `TransferHook` extension, where
/// its data holds one.
#[derive(Debug, Clone, Copy)]
pub struct MintInfo {
    pub key: Key,
    pub owner: Key,
    pub transfer_hook: Option<Key>,
}

impl MintInfo {
    /// Reads a mint account: the `TransferHook` extension is looked up in its data.
    pub fn read(key: Key, owner: Key, data: &[u8]) -> (m: MintInfo)
        ensures
            m.key == key,
            m.owner == owner,
            m.transfer_hook == transfer_hook_extension(data@),
    {
        MintInfo { key, owner, transfer_hook: read_transfer_hook_extension(data) }
    }
}

/// Whether the mint is owned by the Token-2022 program.
pub open spec fn owned_by_token_2022(mint: MintInfo) -> bool {
    mint.owner@ == token_2022_program_key()
}

/// The transfer-hook program a mint names: present when the mint is owned by
/// Token-2022, carries a `TransferHook` extension, and that extension's
/// program id is not all zeros.
pub open spec fn mint_hook_program(mint: MintInfo) -> Option<Seq<u8>> {
    if owned_by_token_2022(mint) && mint.transfer_hook is Some && !is_default_key(
        mint.transfer_hook->0,
    ) {
        Some(mint.transfer_hook->0@)
    } else {
        None
    }
}

/// `program` stands among the first `num_whitelisted` entries of the whitelist.
pub open spec fn is_whitelisted(whitelist: Seq<Key>, num_whitelisted: u8, program: Seq<u8>) -> bool {
    exists|i: int| 0 <= i < num_whitelisted && i < whitelist.len() && #[trigger] whitelist[i]@ == program
}

/// The hook-program account given beside a mint is acceptable: either no
/// program is given (the all-zero address), or it is the mint's own hook
/// program and that program is whitelisted.
pub open spec fn hook_program_accepted(
    mint: MintInfo,
    transfer_hook_program: Key,
    whitelist: Seq<Key>,
    num_whitelisted: u8,
) -> bool {
    is_default_key(transfer_hook_program) || (mint_hook_program(mint) == Some(
        transfer_hook_program@,
    ) && is_whitelisted(whitelist, num_whitelisted, transfer_hook_program@))
}

/// Whether `program` is among the first `num_whitelisted` entries of `whitelist`.
pub fn whitelist_contains(whitelist: &[Key], num_whitelisted: u8, program: &Key) -> (r: bool)
    ensures
        r == is_whitelisted(whitelist@, num_whitelisted, program@),
{
    let n = num_whitelisted as usize;
    let mut i: usize = 0;
    while i < n
        invariant
            i <= n,
            n == num_whitelisted,
            forall|j: int|
                0 <= j < i && j < whitelist@.len() ==> #[trigger] whitelist@[j]@ != program@,
        decreases n - i,
    {
        if i < whitelist.len() && keys_equal(&whitelist[i], program) {
            assert(whitelist@[i as int]@ == program@);
            return true;
        }
        i = i + 1;
    }
    false
}

/// The account constraint on an optional hook-program account (the all-zero
/// address when the account is absent): see `hook_program_accepted`.
pub fn validate_transfer_hook_program(
    mint: &MintInfo,
    transfer_hook_program: &Key,
    whitelisted_hooks: &[Key],
    num_whitelisted: u8,
) -> (r: bool)
    ensures
        r == hook_program_accepted(*mint, *transfer_hook_program, whitelisted_hooks@, num_whitelisted),
{
    if is_default(transfer_hook_program) {
        return true;
    }
    let token_2022 = token_2022_id();
    if keys_equal(&mint.owner, &token_2022) {
        if let Some(hook) = &mint.transfer_hook {
            if !is_default(hook) {
                if !keys_equal(transfer_hook_program, hook) {
                    return false;
                }
                return whitelist_contains(whitelisted_hooks, num_whitelisted, hook);
            }
        }
    }
    is_default(transfer_hook_program)
}

/// The extra account a token transfer carries for a mint: the hook program
/// account when the mint is a Token-2022 mint with a `TransferHook`
/// extension (refused when that account is missing), and none otherwise.
pub open spec fn transfer_extra_account(mint: MintInfo, transfer_hook_program: Option<Key>) -> Result<
    Option<Key>,
    TradiumError,
> {
    if owned_by_token_2022(mint) && mint.transfer_hook is Some {
        match transfer_hook_program {
            Some(program) => Ok(Some(program)),
            None => Err(TradiumError::InvalidTransferHookProgram),
        }
    } else {
        Ok(None)
    }
}

/// Decides the extra account of a token transfer made for a deposit or a
/// withdrawal: see `transfer_extra_account`.
pub fn transfer_hook_remaining_account(mint: &MintInfo, transfer_hook_program: Option<Key>) -> (r:
    Result<Option<Key>, TradiumError>)
    ensures
        r == transfer_extra_account(*mint, transfer_hook_program),
{
    let token_2022 = token_2022_id();
    if keys_equal(&mint.owner, &token_2022) && mint.transfer_hook.is_some() {
        match transfer_hook_program {
            Some(program) => Ok(Some(program)),
            None => Err(TradiumError::InvalidTransferHookProgram),
        }
    } else {
        Ok(None)
    }
}

} // verus!
