//! Creating a pool: its token programs are checked and its state is set.

use vstd::prelude::*;

use crate::constants::{DEFAULT_OWNER_FEE, DEFAULT_TRADE_FEE, FEE_DENOMINATOR};
use crate::error::TradiumError;
use crate::keys::{Key, is_default_key, keys_equal};
use crate::state::{Fees, StateData, Tradium};
use crate::token_programs::{
    spl_token_id, spl_token_program_key, token_2022_id, token_2022_program_key,
};

verus! {

/// What pool creation reads of its accounts: the two mints and their
/// decimals, the LP mint and the two vaults created with the pool, and the
/// token program given for each side.
#[derive(Debug, Clone, Copy)]
pub struct InitializePool {
    pub coin_mint: Key,
    pub coin_mint_decimals: u8,
    pub pc_mint: Key,
    pub pc_mint_decimals: u8,
    pub lp_mint: Key,
    pub coin_vault: Key,
    pub pc_vault: Key,
    pub coin_token_program: Key,
    pub pc_token_program: Key,
}

/// The token program that owns a vault, and so builds its initialisation.
#[derive(Debug, Clone, Copy, PartialEq, Eq, Structural)]
pub enum TokenProgramKind {
    Token,
    Token2022,
}

/// The token program each vault of a new pool is initialised with.
#[derive(Debug, Clone, Copy, PartialEq, Eq, Structural)]
pub struct VaultSetup {
    pub coin_vault_program: TokenProgramKind,
    pub pc_vault_program: TokenProgramKind,
}

/// The kind of a token program address: Token-2022, SPL Token, or neither.
pub open spec fn token_program_kind(program: Key) -> Option<TokenProgramKind> {
    if program@ == token_2022_program_key() {
        Some(TokenProgramKind::Token2022)
    } else if program@ == spl_token_program_key() {
        Some(TokenProgramKind::Token)
    } else {
        None
    }
}

/// The vault setup of a new pool, refused unless both token programs are
/// SPL Token or Token-2022.
pub open spec fn pool_setup(accounts: InitializePool) -> Result<VaultSetup, TradiumError> {
    match (
        token_program_kind(accounts.coin_token_program),
        token_program_kind(accounts.pc_token_program),
    ) {
        (Some(coin), Some(pc)) => Ok(VaultSetup { coin_vault_program: coin, pc_vault_program: pc }),
        _ => Err(TradiumError::InvalidTokenProgram),
    }
}

/// The state of a freshly created pool: active, its nonce the pool's bump,
/// the decimals of both mints, the mints, vaults and token programs recorded,
/// the default trade and swap fees, an empty hook whitelist, and marked
/// initialised; every other field keeps its value.
pub open spec fn initialized_pool(
    before: Tradium,
    after: Tradium,
    accounts: InitializePool,
    pool_bump: u8,
) -> bool {
    &&& after == Tradium {
        status: 1,
        nonce: after.nonce,
        coin_decimals: accounts.coin_mint_decimals as u64,
        pc_decimals: accounts.pc_mint_decimals as u64,
        coin_vault_mint: accounts.coin_mint,
        pc_vault_mint: accounts.pc_mint,
        lp_mint: accounts.lp_mint,
        coin_vault: accounts.coin_vault,
        pc_vault: accounts.pc_vault,
        coin_token_program: accounts.coin_token_program,
        pc_token_program: accounts.pc_token_program,
        fees: Fees {
            trade_fee_numerator: DEFAULT_TRADE_FEE,
            trade_fee_denominator: FEE_DENOMINATOR,
            swap_fee_numerator: DEFAULT_OWNER_FEE,
            swap_fee_denominator: FEE_DENOMINATOR,
            ..before.fees
        },
        whitelisted_transfer_hooks: after.whitelisted_transfer_hooks,
        num_whitelisted_hooks: 0,
        state_data: StateData { initialized: true, ..before.state_data },
        ..before
    }
    &&& after.nonce@ == seq![pool_bump]
    &&& forall|i: int| 0 <= i < 10 ==> is_default_key(#[trigger] after.whitelisted_transfer_hooks[i])
}

/// The kind of a token program address, computed.
fn classify_token_program(program: &Key) -> (r: Option<TokenProgramKind>)
    ensures
        r == token_program_kind(*program),
{
    let token_2022 = token_2022_id();
    let spl_token = spl_token_id();
    if keys_equal(program, &token_2022) {
        Some(TokenProgramKind::Token2022)
    } else if keys_equal(program, &spl_token) {
        Some(TokenProgramKind::Token)
    } else {
        None
    }
}

/// Creates a pool: checks both token programs, then sets the pool's state.
/// The returned setup says which token program initialises each vault.
pub fn initialize_pool(pool: &mut Tradium, accounts: &InitializePool, pool_bump: u8) -> (r: Result<
    VaultSetup,
    TradiumError,
>)
    ensures
        r == pool_setup(*accounts),
        r is Ok ==> initialized_pool(*old(pool), *final(pool), *accounts, pool_bump),
        r is Err ==> *final(pool) == *old(pool),
{
    let coin = match classify_token_program(&accounts.coin_token_program) {
        None => return Err(TradiumError::InvalidTokenProgram),
        Some(kind) => kind,
    };
    let pc = match classify_token_program(&accounts.pc_token_program) {
        None => return Err(TradiumError::InvalidTokenProgram),
        Some(kind) => kind,
    };
    pool.status = 1;
    pool.nonce = [pool_bump];
    pool.coin_decimals = accounts.coin_mint_decimals as u64;
    pool.pc_decimals = accounts.pc_mint_decimals as u64;
    pool.coin_vault_mint = accounts.coin_mint;
    pool.pc_vault_mint = accounts.pc_mint;
    pool.lp_mint = accounts.lp_mint;
    pool.coin_vault = accounts.coin_vault;
    pool.pc_vault = accounts.pc_vault;
    pool.coin_token_program = accounts.coin_token_program;
    pool.pc_token_program = accounts.pc_token_program;
    pool.fees.trade_fee_numerator = DEFAULT_TRADE_FEE;
    pool.fees.trade_fee_denominator = FEE_DENOMINATOR;
    pool.fees.swap_fee_numerator = DEFAULT_OWNER_FEE;
    pool.fees.swap_fee_denominator = FEE_DENOMINATOR;
    pool.whitelisted_transfer_hooks = [[0u8; 32]; 10];
    pool.num_whitelisted_hooks = 0;
    pool.state_data.initialized = true;
    proof {
        assert forall|i: int| 0 <= i < 10 implies is_default_key(
            #[trigger] pool.whitelisted_transfer_hooks[i],
        ) by {
            assert(pool.whitelisted_transfer_hooks[i]@ =~= crate::keys::zero_key());
        }
        assert(pool.nonce@ =~= seq![pool_bump]);
    }
    Ok(VaultSetup { coin_vault_program: coin, pc_vault_program: pc })
}

} // verus!
