use vstd::prelude::*;

use crate::error::VaultError;
use crate::gate::{
    check_is_transferring, check_transfer, guard_outcome, read_transferring_flag, registry_gate_outcome,
    transferring_flag_of,
};
use crate::identity::Identity;
use crate::registry::Registry;
use crate::resolver::Policy;

verus! {

/// A holding record: an amount of one asset held for one owner.
#[derive(Clone, Copy, Debug)]
pub struct TokenHolding {
    pub mint: Identity,
    pub owner: Identity,
    pub amount: u64,
}

/// The records of a deposit: the depositor's source holding and the vault
/// holding that receives the amount, both of `token_mint`; `owner` is the
/// identity that authorizes the transfer.
#[derive(Clone, Copy, Debug)]
pub struct Make {
    pub token_mint: Identity,
    pub owner: Identity,
    pub maker_ata: TokenHolding,
    pub vault: TokenHolding,
}

/// What a deposit of `amount` returns, the transfer-hook state being
/// `transferring` while the transfer runs.
pub open spec fn deposit_outcome(
    make: Make,
    registry: Registry,
    amount: u64,
    transferring: Option<bool>,
    policy: Policy,
) -> Result<(), VaultError> {
    if make.maker_ata.mint@ != make.token_mint@ || make.maker_ata.owner@ != make.owner@ {
        Err(VaultError::InvalidHolding)
    } else if make.maker_ata.amount < amount {
        Err(VaultError::InsufficientFunds)
    } else if make.vault.amount + amount > u64::MAX {
        Err(VaultError::AmountOverflow)
    } else if registry_gate_outcome(registry, transferring, make.owner@, make.vault.owner@, policy) is Err {
        registry_gate_outcome(registry, transferring, make.owner@, make.vault.owner@, policy)
    } else {
        guard_outcome(transferring)
    }
}

impl Make {
    /// Moves `amount` from the source holding to the vault. The transfer
    /// runs the callback against the registry, and the transferring flag is
    /// checked again once it returns; on any failure nothing changes.
    pub fn deposit(&mut self, registry: &Registry, deposit: u64, transferring: Option<bool>, policy: Policy) -> (r: Result<(), VaultError>)
        ensures
            r == deposit_outcome(*old(self), *registry, deposit, transferring, policy),
            r is Ok ==> final(self).maker_ata.amount == old(self).maker_ata.amount - deposit
                && final(self).vault.amount == old(self).vault.amount + deposit
                && final(self).maker_ata.mint == old(self).maker_ata.mint
                && final(self).maker_ata.owner == old(self).maker_ata.owner
                && final(self).vault.mint == old(self).vault.mint
                && final(self).vault.owner == old(self).vault.owner
                && final(self).token_mint == old(self).token_mint
                && final(self).owner == old(self).owner,
            r is Err ==> *final(self) == *old(self),
    {
        if !self.maker_ata.mint.same_as(&self.token_mint) || !self.maker_ata.owner.same_as(&self.owner) {
            return Err(VaultError::InvalidHolding);
        }
        if self.maker_ata.amount < deposit {
            return Err(VaultError::InsufficientFunds);
        }
        if self.vault.amount > u64::MAX - deposit {
            return Err(VaultError::AmountOverflow);
        }
        let gate = check_transfer(registry, transferring, &self.owner, &self.vault.owner, policy);
        if gate.is_err() {
            return gate;
        }
        let post = check_is_transferring(transferring);
        if post.is_err() {
            return post;
        }
        self.maker_ata.amount = self.maker_ata.amount - deposit;
        self.vault.amount = self.vault.amount + deposit;
        Ok(())
    }

    /// A deposit whose transfer-hook state is read from the bytes of the
    /// record that carries the extension.
    pub fn deposit_with_record(&mut self, registry: &Registry, deposit: u64, record: &Vec<u8>, policy: Policy) -> (r: Result<(), VaultError>)
        ensures
            r == deposit_outcome(*old(self), *registry, deposit, transferring_flag_of(record@), policy),
            r is Ok ==> final(self).maker_ata.amount == old(self).maker_ata.amount - deposit
                && final(self).vault.amount == old(self).vault.amount + deposit,
            r is Err ==> *final(self) == *old(self),
    {
        let transferring = read_transferring_flag(record);
        self.deposit(registry, deposit, transferring, policy)
    }
}

} // verus!
