//! The vault's operations. Each takes the accounts it works on, already
//! loaded and with signatures checked, validates them, updates the books,
//! and returns the record of what it did. Moving tokens is left to the
//! caller, which must do it only after a successful return.
use vstd::prelude::*;

use crate::pubkey::Pubkey;

pub mod add_protocol;
pub mod deposit;
pub mod initialize;
pub mod invest;
pub mod toggle_protocol;

verus! {

/// A token account as the operations read it.
#[derive(Debug, Clone, Copy)]
pub struct TokenAccount {
    /// Address of the account.
    pub key: Pubkey,
    /// Mint of the tokens it holds.
    pub mint: Pubkey,
    /// Identity allowed to move them.
    pub owner: Pubkey,
    /// Tokens it holds.
    pub amount: u64,
}

} // verus!
