use crate::address::Address;
use vstd::prelude::*;

verus! {

/// The summary form of a vault: who has authority over it, what was
/// deposited and what of it is locked.
#[derive(Clone, Copy, Debug, PartialEq, Eq)]
pub struct Vault {
    pub authority: Address,
    pub total_deposited: u64,
    pub locked_collateral: u64,
    pub bump: u8,
}

/// Bytes reserved for a stored vault: the tag, the four fields, and fifty
/// bytes to spare.
pub const VAULT_LEN: usize = 8 + 32 + 8 + 8 + 1 + 50;

impl Vault {
    /// Bytes reserved for a stored vault.
    pub const LEN: usize = VAULT_LEN;
}

} // verus!
