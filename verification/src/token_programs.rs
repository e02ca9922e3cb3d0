//! What the pool learns from the SPL token programs: their program ids and
//! the transfer-hook extension of a Token-2022 mint.

use vstd::prelude::*;
use spl_token_2022::extension::transfer_hook::TransferHook;
use spl_token_2022::extension::{BaseStateWithExtensions, StateWithExtensions};

use crate::keys::Key;

verus! {

/// The address of the SPL Token program, `TokenkegQfeZyiNwAJbNbGKPFXCWuBvf9Ss623VQ5DA`.
pub open spec fn spl_token_program_key() -> Seq<u8> {
    seq![
        6u8, 221, 246, 225, 215, 101, 161, 147, 217, 203, 225, 70, 206, 235, 121, 172,
        28, 180, 133, 237, 95, 91, 55, 145, 58, 140, 245, 133, 126, 255, 0, 169,
    ]
}

/// The address of the Token-2022 program, `TokenzQdBNbLqP5VEhdkAS6EPFLC1PHnBqCXEpPxuEb`.
pub open spec fn token_2022_program_key() -> Seq<u8> {
    seq![
        6u8, 221, 246, 225, 238, 117, 143, 222, 24, 66, 93, 188, 228, 108, 205, 218,
        182, 26, 252, 77, 131, 185, 13, 39, 254, 189, 249, 40, 216, 161, 139, 252,
    ]
}

/// `spl_token::ID`, as bytes. Trusted: the crate declares this id with
/// `declare_id!`, and the bytes stated are its base58 text decoded.
#[verifier::external_body]
pub(crate) fn spl_token_id() -> (k: Key)
    ensures
        k@ == spl_token_program_key(),
{
    spl_token::ID.to_bytes()
}

/// `spl_token_2022::ID`, as bytes. Trusted: the crate declares this id with
/// `declare_id!`, and the bytes stated are its base58 text decoded.
#[verifier::external_body]
pub(crate) fn token_2022_id() -> (k: Key)
    ensures
        k@ == token_2022_program_key(),
{
    spl_token_2022::ID.to_bytes()
}

/// The raw `program_id` field of the `TransferHook` extension found in a
/// Token-2022 mint account's data, or `None` where the data does not unpack
/// as a mint with extensions or holds no such extension. All zeros in the
/// field means that no hook program is set.
pub uninterp spec fn transfer_hook_extension(mint_data: Seq<u8>) -> Option<[u8; 32]>;

/// Reads the `TransferHook` extension of a mint: calls
/// `StateWithExtensions::<Mint>::unpack` and then `get_extension::<TransferHook>`
/// on the result. Trusted: the result depends on the bytes alone and is named
/// `transfer_hook_extension`; how spl-token-2022 parses the bytes is not stated.
#[verifier::external_body]
pub(crate) fn read_transfer_hook_extension(mint_data: &[u8]) -> (r: Option<Key>)
    ensures
        r == transfer_hook_extension(mint_data@),
{
    match StateWithExtensions::<spl_token_2022::state::Mint>::unpack(mint_data) {
        Ok(state) => match state.get_extension::<TransferHook>() {
            Ok(hook) => Some(hook.program_id.0.to_bytes()),
            Err(_) => None,
        },
        Err(_) => None,
    }
}

} // verus!
