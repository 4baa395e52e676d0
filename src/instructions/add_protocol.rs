use vstd::prelude::*;

use crate::errors::VaultError;
use crate::events::ProtocolAdded;
use crate::pubkey::Pubkey;
use crate::state::{ProtocolRegistry, VaultState};

verus! {

/// The accounts that registering a protocol works on.
#[derive(Debug, Clone)]
pub struct AddProtocol {
    /// The signer; must be the vault's authority.
    pub authority: Pubkey,
    /// Address of the vault's state.
    pub vault_key: Pubkey,
    pub vault_state: VaultState,
    /// The registry, all zero when it was just created.
    pub protocol_registry: ProtocolRegistry,
    /// Derivation bump of the registry's address.
    pub registry_bump: u8,
}

/// What the handler does, relating the accounts before (`o`) and after
/// (`n`) to the result `r`.
pub open spec fn outcome(
    o: AddProtocol,
    target: Pubkey,
    name: String,
    timestamp: i64,
    r: Result<ProtocolAdded, VaultError>,
    n: AddProtocol,
) -> bool {
    let authorized = o.authority == o.vault_state.authority;
    let registered = o.protocol_registry@.register_result(target, name@);
    &&& n.authority == o.authority
    &&& n.vault_key == o.vault_key
    &&& n.vault_state == o.vault_state
    &&& n.registry_bump == o.registry_bump
    &&& !authorized ==> r == Err::<ProtocolAdded, VaultError>(VaultError::Unauthorized)
    &&& authorized && registered is Err ==> r == Err::<ProtocolAdded, VaultError>(
        registered->Err_0,
    )
    &&& authorized && registered is Ok ==> r is Ok
    &&& r is Err ==> n.protocol_registry@ == o.protocol_registry@
    &&& r is Ok ==> n.protocol_registry@ == o.protocol_registry@.registered(
        o.vault_key,
        o.registry_bump,
        target,
        name,
    )
    &&& r is Ok ==> r->Ok_0 == (ProtocolAdded {
        vault: n.protocol_registry.vault,
        target,
        name,
        timestamp,
    })
}

/// Registers `target` under `name` in the vault's registry, claiming the
/// registry for the vault on first use. Fails with `Unauthorized` unless
/// the signer is the vault's authority, else as `ProtocolRegistry::register`
/// does; a failure changes nothing. A registry not yet claimed needs a
/// real vault address, never the all-zero identity.
pub fn handler(ctx: &mut AddProtocol, target: Pubkey, name: String, timestamp: i64) -> (r: Result<ProtocolAdded, VaultError>)
    requires
        old(ctx).protocol_registry@.is_initialized() || !old(ctx).vault_key.spec_is_unset(),
    ensures
        outcome(*old(ctx), target, name, timestamp, r, *final(ctx)),
{
    if ctx.authority != ctx.vault_state.authority {
        return Err(VaultError::Unauthorized);
    }
    let registry = &mut ctx.protocol_registry;
    registry.register(ctx.vault_key, ctx.registry_bump, target, name.clone())?;
    Ok(ProtocolAdded { vault: registry.vault, target, name, timestamp })
}

} // verus!
