use vstd::prelude::*;

use crate::events::VaultInitialized;
use crate::pubkey::Pubkey;
use crate::state::VaultState;

verus! {

/// The accounts that setting up a vault works on.
#[derive(Debug, Clone)]
pub struct Initialize {
    /// Who sets the vault up; becomes its authority.
    pub authority: Pubkey,
    /// Address of the new vault's state.
    pub vault_key: Pubkey,
    /// The vault's state, filled in by the handler.
    pub vault_state: VaultState,
    /// Mint of the asset the vault takes in.
    pub asset_mint: Pubkey,
    /// Mint of the vault's shares.
    pub share_mint: Pubkey,
    /// Derivation bumps of the vault state, the share mint and the vault's
    /// signing authority.
    pub vault_bump: u8,
    pub share_bump: u8,
    pub authority_bump: u8,
}

/// What the handler does, relating the accounts before (`o`) and after
/// (`n`) to the result `r`.
pub open spec fn outcome(o: Initialize, timestamp: i64, r: VaultInitialized, n: Initialize) -> bool {
    &&& n.vault_state.authority == o.authority
    &&& n.vault_state.asset_mint == o.asset_mint
    &&& n.vault_state.share_mint == o.share_mint
    &&& n.vault_state.total_assets == 0
    &&& n.vault_state.total_shares == 0
    &&& n.vault_state.bump == o.vault_bump
    &&& n.vault_state.share_bump == o.share_bump
    &&& n.vault_state.authority_bump == o.authority_bump
    &&& forall|i: int| 0 <= i < 128 ==> n.vault_state._reserved@[i] == 0
    &&& n.authority == o.authority
    &&& n.vault_key == o.vault_key
    &&& n.asset_mint == o.asset_mint
    &&& n.share_mint == o.share_mint
    &&& n.vault_bump == o.vault_bump
    &&& n.share_bump == o.share_bump
    &&& n.authority_bump == o.authority_bump
    &&& r == (VaultInitialized {
        vault: o.vault_key,
        authority: o.authority,
        asset_mint: o.asset_mint,
        share_mint: o.share_mint,
        timestamp,
    })
}

/// Sets the vault up with empty books and the signer as authority.
pub fn handler(ctx: &mut Initialize, timestamp: i64) -> (r: VaultInitialized)
    ensures
        outcome(*old(ctx), timestamp, r, *final(ctx)),
{
    ctx.vault_state = VaultState {
        authority: ctx.authority,
        asset_mint: ctx.asset_mint,
        share_mint: ctx.share_mint,
        total_assets: 0,
        total_shares: 0,
        bump: ctx.vault_bump,
        share_bump: ctx.share_bump,
        authority_bump: ctx.authority_bump,
        _reserved: [0u8; 128],
    };
    VaultInitialized {
        vault: ctx.vault_key,
        authority: ctx.vault_state.authority,
        asset_mint: ctx.vault_state.asset_mint,
        share_mint: ctx.vault_state.share_mint,
        timestamp,
    }
}

} // verus!
