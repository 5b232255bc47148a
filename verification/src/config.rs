//! The global configuration, set once when the program is initialised.

use anchor_lang::prelude::Pubkey;
use vstd::prelude::*;

verus! {

/// Seed of the vault's program-derived address, the bytes of `vault`.
pub const VAULT_SEED: [u8; 5] = [118, 97, 117, 108, 116];

/// The global configuration of the program.
#[derive(Clone, Copy, Debug, PartialEq, Eq)]
pub struct Config {
    /// The only key whose signature on a ticket is accepted.
    pub admin_pubkey: [u8; 32],
    /// The mint of the token that is distributed.
    pub token_mint: [u8; 32],
    /// The program-derived address that owns the vault's token account.
    pub vault_pda: [u8; 32],
    /// The bump seed of that address.
    pub vault_bump: u8,
}

/// What initialisation starts from: who initialises, and for which program.
#[derive(Clone, Copy, Debug, PartialEq, Eq)]
pub struct InitializeConfig {
    /// The signer who initialises and becomes the administrator.
    pub initializer: [u8; 32],
    /// The identity of the program that is being initialised.
    pub program_id: [u8; 32],
}

/// What `Pubkey::try_find_program_address` finds for one seed and a program
/// identity: the program-derived address and its bump seed, or `None` where
/// the call finds no address.
pub uninterp spec fn program_address(seed: Seq<u8>, program_id: Seq<u8>) -> Option<(Seq<u8>, u8)>;

/// The address and bump seed that were found, as plain values.
pub open spec fn address_view(found: Option<([u8; 32], u8)>) -> Option<(Seq<u8>, u8)> {
    match found {
        Some((address, bump)) => Some((address@, bump)),
        None => None,
    }
}

/// Calls `Pubkey::try_find_program_address` with one seed.
///
/// Trusted: the address and the bump seed that the call finds are a
/// function of the seed and the program identity alone, named
/// `program_address`.
#[verifier::external_body]
fn try_find_program_address(seed: &[u8], program_id: &[u8; 32]) -> (found: Option<([u8; 32], u8)>)
    ensures
        address_view(found) == program_address(seed@, program_id@),
{
    let program_id = Pubkey::new_from_array(*program_id);
    match Pubkey::try_find_program_address(&[seed], &program_id) {
        Some((address, bump)) => Some((address.to_bytes(), bump)),
        None => None,
    }
}

/// Makes the global configuration: the initialiser becomes the
/// administrator, and the vault's address is derived from the program's
/// identity.
///
/// Returns `None` only where the program's identity admits no vault address.
pub fn initialize_config(ctx: &InitializeConfig, token_mint: [u8; 32]) -> (config: Option<Config>)
    ensures
        config is Some <==> program_address(VAULT_SEED@, ctx.program_id@) is Some,
        config matches Some(made) ==> made.admin_pubkey == ctx.initializer,
        config matches Some(made) ==> made.token_mint == token_mint,
        config matches Some(made) ==> program_address(VAULT_SEED@, ctx.program_id@) == Some(
            (made.vault_pda@, made.vault_bump),
        ),
{
    match try_find_program_address(VAULT_SEED.as_slice(), &ctx.program_id) {
        Some((vault_pda, vault_bump)) => Some(
            Config { admin_pubkey: ctx.initializer, token_mint, vault_pda, vault_bump },
        ),
        None => None,
    }
}

} // verus!
