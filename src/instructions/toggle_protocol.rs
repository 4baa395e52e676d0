use vstd::prelude::*;

use crate::errors::VaultError;
use crate::events::ProtocolToggled;
use crate::pubkey::Pubkey;
use crate::state::{contains_target, ProtocolRegistry, VaultState};

verus! {

/// The accounts that switching a protocol on or off works on.
#[derive(Debug, Clone)]
pub struct ToggleProtocol {
    /// The signer; must be the vault's authority.
    pub authority: Pubkey,
    pub vault_state: VaultState,
    pub protocol_registry: ProtocolRegistry,
}

/// What the handler does, relating the accounts before (`o`) and after
/// (`n`) to the result `r`.
pub open spec fn outcome(
    o: ToggleProtocol,
    target: Pubkey,
    enabled: bool,
    timestamp: i64,
    r: Result<ProtocolToggled, VaultError>,
    n: ToggleProtocol,
) -> bool {
    let authorized = o.authority == o.vault_state.authority;
    let found = contains_target(o.protocol_registry@.entries, target);
    &&& n.authority == o.authority
    &&& n.vault_state == o.vault_state
    &&& !authorized ==> r == Err::<ProtocolToggled, VaultError>(VaultError::Unauthorized)
    &&& authorized && !found ==> r == Err::<ProtocolToggled, VaultError>(
        VaultError::ProtocolNotFound,
    )
    &&& authorized && found ==> r is Ok
    &&& r is Err ==> n.protocol_registry@ == o.protocol_registry@
    &&& r is Ok ==> n.protocol_registry@ == o.protocol_registry@.with_enabled(target, enabled)
    &&& r is Ok ==> r->Ok_0 == (ProtocolToggled {
        vault: o.protocol_registry.vault,
        target,
        enabled,
        timestamp,
    })
}

/// Switches `target` on or off. Fails with `Unauthorized` unless the signer
/// is the vault's authority, and with `ProtocolNotFound` when the registry
/// lacks `target`; a failure changes nothing.
pub fn handler(ctx: &mut ToggleProtocol, target: Pubkey, enabled: bool, timestamp: i64) -> (r: Result<ProtocolToggled, VaultError>)
    ensures
        outcome(*old(ctx), target, enabled, timestamp, r, *final(ctx)),
{
    if ctx.authority != ctx.vault_state.authority {
        return Err(VaultError::Unauthorized);
    }
    ctx.protocol_registry.set_enabled(&target, enabled)?;
    Ok(ProtocolToggled { vault: ctx.protocol_registry.vault, target, enabled, timestamp })
}

} // verus!
