use vstd::prelude::*;

verus! {

/// Typed, recoverable failures of the access-control operations.
#[derive(Clone, Copy, Debug, PartialEq, Eq, Structural)]
pub enum VaultError {
    /// The caller is not the registry's admin.
    Unauthorized,
    /// The registry configuration record already exists.
    AlreadyInitialized,
    /// The registry configuration record does not exist yet.
    NotInitialized,
    /// The subject already has a whitelist entry.
    AlreadyWhitelisted,
    /// The subject has no whitelist entry, or the entry supplied is not its own.
    NotWhitelisted,
    /// The asset record lacks the transfer-hook extension.
    InvalidAssetCapability,
    /// The asset record is not in the middle of a transfer.
    NotTransferring,
    /// No bump seed yields a viable derived address for the seeds.
    AddressDerivationFailed,
    /// The source holding record is not of the expected asset and owner.
    InvalidHolding,
    /// The source holding record holds less than the amount asked for.
    InsufficientFunds,
    /// The destination balance would exceed the largest amount.
    AmountOverflow,
}

} // verus!
