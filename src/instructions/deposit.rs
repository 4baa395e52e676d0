use vstd::prelude::*;

use crate::errors::VaultError;
use crate::events::Deposited;
use crate::instructions::TokenAccount;
use crate::pubkey::Pubkey;
use crate::state::{deposit_fits, VaultState};

verus! {

/// The accounts that a deposit works on.
#[derive(Debug, Clone)]
pub struct Deposit {
    /// The depositor, who signed.
    pub user: Pubkey,
    /// Address of the vault's state.
    pub vault_key: Pubkey,
    pub vault_state: VaultState,
    /// The vault's signing authority, which owns its token account.
    pub vault_authority: Pubkey,
    /// Where the deposited assets come from.
    pub user_asset_account: TokenAccount,
    /// Where the minted shares go.
    pub user_share_account: TokenAccount,
    /// Where the deposited assets go.
    pub vault_token_account: TokenAccount,
}

impl Deposit {
    /// The first thing wrong with the token accounts, if any: each must be
    /// of the right mint and have the right owner.
    pub open spec fn account_error(self) -> Option<VaultError> {
        if self.user_asset_account.mint != self.vault_state.asset_mint {
            Some(VaultError::InvalidMint)
        } else if self.user_asset_account.owner != self.user {
            Some(VaultError::InvalidOwner)
        } else if self.user_share_account.mint != self.vault_state.share_mint {
            Some(VaultError::InvalidMint)
        } else if self.user_share_account.owner != self.user {
            Some(VaultError::InvalidOwner)
        } else if self.vault_token_account.mint != self.vault_state.asset_mint {
            Some(VaultError::InvalidMint)
        } else if self.vault_token_account.owner != self.vault_authority {
            Some(VaultError::InvalidOwner)
        } else {
            None
        }
    }

    /// Checks that each token account is of the right mint and owner.
    pub fn validate(&self) -> (r: Result<(), VaultError>)
        ensures
            match self.account_error() {
                Some(e) => r == Err::<(), VaultError>(e),
                None => r is Ok,
            },
    {
        if self.user_asset_account.mint != self.vault_state.asset_mint {
            return Err(VaultError::InvalidMint);
        }
        if self.user_asset_account.owner != self.user {
            return Err(VaultError::InvalidOwner);
        }
        if self.user_share_account.mint != self.vault_state.share_mint {
            return Err(VaultError::InvalidMint);
        }
        if self.user_share_account.owner != self.user {
            return Err(VaultError::InvalidOwner);
        }
        if self.vault_token_account.mint != self.vault_state.asset_mint {
            return Err(VaultError::InvalidMint);
        }
        if self.vault_token_account.owner != self.vault_authority {
            return Err(VaultError::InvalidOwner);
        }
        Ok(())
    }
}

/// What the handler does, relating the accounts before (`o`) and after
/// (`n`) to the result `r`.
pub open spec fn outcome(
    o: Deposit,
    amount: u64,
    timestamp: i64,
    r: Result<Deposited, VaultError>,
    n: Deposit,
) -> bool {
    let fits = deposit_fits(
        o.vault_state.total_assets as nat,
        o.vault_state.total_shares as nat,
        amount as nat,
    );
    let shares = o.vault_state.spec_shares_for(amount as nat);
    &&& o.account_error() is Some ==> r == Err::<Deposited, VaultError>(
        o.account_error()->Some_0,
    )
    &&& o.account_error() is None && amount == 0 ==> r == Err::<Deposited, VaultError>(
        VaultError::ZeroDepositAmount,
    )
    &&& o.account_error() is None && amount > 0 && !fits ==> r == Err::<Deposited, VaultError>(
        VaultError::MathOverflow,
    )
    &&& o.account_error() is None && amount > 0 && fits ==> r is Ok
    &&& r is Err ==> n == o
    &&& r is Ok ==> n.vault_state.total_assets == o.vault_state.total_assets + amount
    &&& r is Ok ==> n.vault_state.total_shares == o.vault_state.total_shares
        + r->Ok_0.shares_minted
    &&& r is Ok ==> n == (Deposit {
        vault_state: VaultState {
            total_assets: (o.vault_state.total_assets + amount) as u64,
            total_shares: (o.vault_state.total_shares + shares) as u64,
            ..o.vault_state
        },
        ..o
    })
    &&& r is Ok ==> r->Ok_0 == (Deposited {
        vault: o.vault_key,
        user: o.user,
        asset_amount: amount,
        shares_minted: shares as u64,
        total_assets: n.vault_state.total_assets,
        total_shares: n.vault_state.total_shares,
        timestamp,
    })
}

/// Books a deposit of `amount`: validates the accounts, then updates the
/// vault's totals as `VaultState::record_deposit` does. On success the
/// caller moves `amount` from the user to the vault and mints
/// `shares_minted` to the user; on failure nothing has changed.
pub fn handler(ctx: &mut Deposit, amount: u64, timestamp: i64) -> (r: Result<Deposited, VaultError>)
    ensures
        outcome(*old(ctx), amount, timestamp, r, *final(ctx)),
{
    ctx.validate()?;
    let shares_to_mint = ctx.vault_state.record_deposit(amount)?;
    Ok(Deposited {
        vault: ctx.vault_key,
        user: ctx.user,
        asset_amount: amount,
        shares_minted: shares_to_mint,
        total_assets: ctx.vault_state.total_assets,
        total_shares: ctx.vault_state.total_shares,
        timestamp,
    })
}

} // verus!
