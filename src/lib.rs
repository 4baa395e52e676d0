//! A custody vault: depositors receive shares in proportion to the assets
//! they bring, and an authority may move idle assets into a bounded,
//! revocable whitelist of investment targets.
//!
//! The entry points below validate an operation and update the books; the
//! token movements they call for are the caller's to make, after a
//! successful return.
use vstd::prelude::*;

pub mod constants;
pub mod errors;
pub mod events;
pub mod instructions;
pub mod pubkey;
pub mod state;
pub mod theorems;

use crate::errors::VaultError;
use crate::events::{Deposited, Invested, ProtocolAdded, ProtocolToggled, VaultInitialized};
use crate::instructions::add_protocol::AddProtocol;
use crate::instructions::deposit::Deposit;
use crate::instructions::initialize::Initialize;
use crate::instructions::invest::Invest;
use crate::instructions::toggle_protocol::ToggleProtocol;
use crate::pubkey::Pubkey;

verus! {

/// Sets up a vault for an asset, with empty books.
pub fn initialize(ctx: &mut Initialize, timestamp: i64) -> (r: VaultInitialized)
    ensures
        instructions::initialize::outcome(*old(ctx), timestamp, r, *final(ctx)),
{
    instructions::initialize::handler(ctx, timestamp)
}

/// Books a deposit; the caller then moves the assets in and mints the shares.
pub fn deposit(ctx: &mut Deposit, amount: u64, timestamp: i64) -> (r: Result<Deposited, VaultError>)
    ensures
        instructions::deposit::outcome(*old(ctx), amount, timestamp, r, *final(ctx)),
{
    instructions::deposit::handler(ctx, amount, timestamp)
}

/// Books an investment in an approved protocol; the caller then moves the
/// assets out.
pub fn invest(ctx: &mut Invest, amount: u64, timestamp: i64) -> (r: Result<Invested, VaultError>)
    ensures
        instructions::invest::outcome(*old(ctx), amount, timestamp, r, *final(ctx)),
{
    instructions::invest::handler(ctx, amount, timestamp)
}

/// Adds a protocol to the whitelist; authority only. A registry not yet
/// claimed needs a real vault address, never the all-zero identity.
pub fn add_protocol(ctx: &mut AddProtocol, target: Pubkey, name: String, timestamp: i64) -> (r: Result<ProtocolAdded, VaultError>)
    requires
        old(ctx).protocol_registry@.is_initialized() || !old(ctx).vault_key.spec_is_unset(),
    ensures
        instructions::add_protocol::outcome(*old(ctx), target, name, timestamp, r, *final(ctx)),
{
    instructions::add_protocol::handler(ctx, target, name, timestamp)
}

/// Switches a whitelisted protocol on or off; authority only.
pub fn toggle_protocol(ctx: &mut ToggleProtocol, target: Pubkey, enabled: bool, timestamp: i64) -> (r: Result<ProtocolToggled, VaultError>)
    ensures
        instructions::toggle_protocol::outcome(*old(ctx), target, enabled, timestamp, r, *final(ctx)),
{
    instructions::toggle_protocol::handler(ctx, target, enabled, timestamp)
}

} // verus!
