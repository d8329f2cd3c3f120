use vstd::prelude::*;

use crate::identity::Identity;

verus! {

/// The singleton registry configuration record.
#[derive(Clone, Copy, Debug)]
pub struct Whitelist {
    /// Bump seed of the record's derived address, stored at creation.
    pub bump: u8,
    pub token_mint: Identity,
    pub admin: Identity,
    pub vault_mint: Identity,
}

/// The record whose existence authorizes one subject.
#[derive(Clone, Copy, Debug)]
pub struct WhitelistEntry {
    pub user_address: Identity,
    /// Bump seed of the entry's derived address, stored at creation.
    pub bump: u8,
}

} // verus!
