//! The custodial vault: one pooled holding per token type.

use vstd::prelude::*;

verus! {

/// Describes one custodial pool for a single token type.
///
/// The custodial balance is logically owned by this state and may only move
/// under an authority derived from the recorded seeds; the engine itself can
/// then authorize outgoing transfers without a human signer. A `VaultState`
/// is immutable after creation; the surrounding store enforces that at most
/// one exists per configuration.
#[derive(Clone, Copy, Debug, PartialEq, Eq)]
pub struct VaultState {
    /// Address of the balance holding all deposited tokens for this vault.
    pub vault_token_account: [u8; 32],
    /// Seed byte that lets the vault authorize transfers out of the
    /// custodial balance.
    pub vault_bump: u8,
    /// Identifier of the fungible asset this vault holds.
    pub mint: [u8; 32],
    /// Seed byte under which the vault state itself is addressed.
    pub bump: u8,
}

/// Establishes the vault state for one custodial pool.
///
/// The caller has already created the custodial balance (at zero) and derived
/// the addresses and seed bytes; this records them. Rejecting a second vault
/// for the same configuration is the store's duty, not re-checked here.
pub fn initialize_vault(
    vault_token_account: [u8; 32],
    vault_bump: u8,
    mint: [u8; 32],
    bump: u8,
) -> (vault_state: VaultState)
    ensures
        vault_state == (VaultState { vault_token_account, vault_bump, mint, bump }),
{
    VaultState { vault_token_account, vault_bump, mint, bump }
}

} // verus!
