//! Records of what each operation did, for off-chain tracking.
use vstd::prelude::*;

use crate::pubkey::Pubkey;

verus! {

/// A vault was set up.
#[derive(Debug, Clone)]
pub struct VaultInitialized {
    pub vault: Pubkey,
    pub authority: Pubkey,
    pub asset_mint: Pubkey,
    pub share_mint: Pubkey,
    pub timestamp: i64,
}

/// Assets were deposited and shares minted for them.
#[derive(Debug, Clone)]
pub struct Deposited {
    pub vault: Pubkey,
    pub user: Pubkey,
    pub asset_amount: u64,
    pub shares_minted: u64,
    pub total_assets: u64,
    pub total_shares: u64,
    pub timestamp: i64,
}

/// Vault assets were sent to an approved protocol.
#[derive(Debug, Clone)]
pub struct Invested {
    pub vault: Pubkey,
    pub authority: Pubkey,
    pub target: Pubkey,
    pub protocol_name: String,
    pub amount: u64,
    pub total_assets: u64,
    pub timestamp: i64,
}

/// A protocol joined the registry.
#[derive(Debug, Clone)]
pub struct ProtocolAdded {
    pub vault: Pubkey,
    pub target: Pubkey,
    pub name: String,
    pub timestamp: i64,
}

/// A protocol was switched on or off.
#[derive(Debug, Clone)]
pub struct ProtocolToggled {
    pub vault: Pubkey,
    pub target: Pubkey,
    pub enabled: bool,
    pub timestamp: i64,
}

} // verus!
