use vstd::prelude::*;

use crate::errors::VaultError;
use crate::events::Invested;
use crate::instructions::TokenAccount;
use crate::pubkey::Pubkey;
use crate::state::{contains_target, lemma_with_same_entry, ProtocolRegistry, VaultState};

verus! {

/// The accounts that an investment works on.
#[derive(Debug, Clone)]
pub struct Invest {
    /// The signer; must be the vault's authority.
    pub authority: Pubkey,
    /// Address of the vault's state.
    pub vault_key: Pubkey,
    pub vault_state: VaultState,
    pub protocol_registry: ProtocolRegistry,
    /// The vault's signing authority, which owns its token account.
    pub vault_authority: Pubkey,
    /// Where the invested assets come from.
    pub vault_token_account: TokenAccount,
    /// Where they go; its address must be an approved protocol.
    pub target_token_account: TokenAccount,
}

impl Invest {
    /// Why investing `amount` is refused, if it is; checked in this order:
    /// the signer, the token accounts, the amount, the whitelist, the
    /// vault's balance on hand, its booked total, and the protocol's total.
    pub open spec fn refusal(self, amount: u64) -> Option<VaultError> {
        let target = self.target_token_account.key;
        if self.authority != self.vault_state.authority {
            Some(VaultError::Unauthorized)
        } else if self.vault_token_account.mint != self.vault_state.asset_mint {
            Some(VaultError::InvalidMint)
        } else if self.vault_token_account.owner != self.vault_authority {
            Some(VaultError::InvalidOwner)
        } else if self.target_token_account.mint != self.vault_state.asset_mint {
            Some(VaultError::InvalidMint)
        } else if amount == 0 {
            Some(VaultError::ZeroInvestAmount)
        } else if !self.protocol_registry@.is_approved(target) {
            Some(VaultError::ProtocolNotApproved)
        } else if self.vault_token_account.amount < amount {
            Some(VaultError::InsufficientVaultBalance)
        } else if amount > self.vault_state.total_assets {
            Some(VaultError::InvestAmountTooLarge)
        } else if self.protocol_registry@.investment_overflows(target, amount) {
            Some(VaultError::MathOverflow)
        } else {
            None
        }
    }
}

/// What the handler does, relating the accounts before (`o`) and after
/// (`n`) to the result `r`.
pub open spec fn outcome(
    o: Invest,
    amount: u64,
    timestamp: i64,
    r: Result<Invested, VaultError>,
    n: Invest,
) -> bool {
    let target = o.target_token_account.key;
    &&& n.authority == o.authority
    &&& n.vault_key == o.vault_key
    &&& n.vault_state == o.vault_state
    &&& n.vault_authority == o.vault_authority
    &&& n.vault_token_account == o.vault_token_account
    &&& n.target_token_account == o.target_token_account
    &&& n.protocol_registry.vault == o.protocol_registry.vault
    &&& n.protocol_registry.bump == o.protocol_registry.bump
    &&& o.refusal(amount) is Some ==> r == Err::<Invested, VaultError>(
        o.refusal(amount)->Some_0,
    ) && n.protocol_registry@ == o.protocol_registry@
    &&& o.refusal(amount) is None ==> r is Ok && n.protocol_registry@
        == o.protocol_registry@.with_investment(target, amount)
    &&& r is Ok ==> r->Ok_0 == (Invested {
        vault: o.vault_key,
        authority: o.authority,
        target,
        protocol_name: o.protocol_registry@.entry(target).name,
        amount,
        total_assets: o.vault_state.total_assets,
        timestamp,
    })
}

/// Books an investment of `amount` in the protocol at the target account:
/// validates it, then adds it to the protocol's invested total. On success
/// the caller moves `amount` from the vault's token account to the target,
/// signing as the vault's authority; on failure nothing has changed.
pub fn handler(ctx: &mut Invest, amount: u64, timestamp: i64) -> (r: Result<Invested, VaultError>)
    ensures
        outcome(*old(ctx), amount, timestamp, r, *final(ctx)),
{
    if ctx.authority != ctx.vault_state.authority {
        return Err(VaultError::Unauthorized);
    }
    if ctx.vault_token_account.mint != ctx.vault_state.asset_mint {
        return Err(VaultError::InvalidMint);
    }
    if ctx.vault_token_account.owner != ctx.vault_authority {
        return Err(VaultError::InvalidOwner);
    }
    if ctx.target_token_account.mint != ctx.vault_state.asset_mint {
        return Err(VaultError::InvalidMint);
    }
    if amount == 0 {
        return Err(VaultError::ZeroInvestAmount);
    }
    let target = ctx.target_token_account.key;
    if !ctx.protocol_registry.is_protocol_approved(&target) {
        return Err(VaultError::ProtocolNotApproved);
    }
    if ctx.vault_token_account.amount < amount {
        return Err(VaultError::InsufficientVaultBalance);
    }
    if amount > ctx.vault_state.total_assets {
        return Err(VaultError::InvestAmountTooLarge);
    }
    proof {
        let i = choose|i: int|
            0 <= i < ctx.protocol_registry@.entries.len()
                && (#[trigger] ctx.protocol_registry@.entries[i]).target == target
                && ctx.protocol_registry@.entries[i].enabled;
        assert(contains_target(ctx.protocol_registry@.entries, target));
        lemma_with_same_entry(ctx.protocol_registry@, target);
    }
    let protocol_name = match ctx.protocol_registry.get_protocol_mut(&target) {
        Some(p) => p.name.clone(),
        None => "Unknown".to_owned(),
    };
    ctx.protocol_registry.track_investment(&target, amount)?;
    Ok(Invested {
        vault: ctx.vault_key,
        authority: ctx.authority,
        target,
        protocol_name,
        amount,
        total_assets: ctx.vault_state.total_assets,
        timestamp,
    })
}

} // verus!
