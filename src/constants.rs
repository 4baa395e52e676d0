use vstd::prelude::*;

verus! {

/// Seed of the vault state's derived address.
pub const VAULT_SEED: &'static str = "vault";

/// Seed of the share mint's derived address.
pub const SHARE_MINT_SEED: &'static str = "shares";

/// Seed of the vault's signing authority, which owns its token account.
pub const VAULT_AUTHORITY_SEED: &'static str = "vault_authority";

/// Seed of the protocol registry's derived address.
pub const PROTOCOL_REGISTRY_SEED: &'static str = "protocol_registry";

/// Bytes of a vault state account: tag, three keys, two totals, three bumps
/// and 128 bytes of padding.
pub const VAULT_STATE_SIZE: usize = 8 + 32 + 32 + 32 + 8 + 8 + 1 + 1 + 1 + 128;

} // verus!
