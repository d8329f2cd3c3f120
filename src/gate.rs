use anchor_spl::token_2022::spl_token_2022::extension::transfer_hook::TransferHookAccount;
use anchor_spl::token_2022::spl_token_2022::extension::{BaseStateWithExtensions, PodStateWithExtensions};
use anchor_spl::token_2022::spl_token_2022::pod::PodAccount;
use vstd::prelude::*;

use crate::error::VaultError;
use crate::identity::Identity;
use crate::registry::Registry;
use crate::resolver::Policy;
use crate::state::WhitelistEntry;

verus! {

/// The mid-transfer guard on the asset's transfer-hook state: `None` where
/// the asset record has no transfer-hook extension, else its `transferring`
/// flag.
pub open spec fn guard_outcome(transferring: Option<bool>) -> Result<(), VaultError> {
    match transferring {
        None => Err(VaultError::InvalidAssetCapability),
        Some(false) => Err(VaultError::NotTransferring),
        Some(true) => Ok(()),
    }
}

/// The `transferring` flag of the transfer-hook extension in a holding
/// record's bytes, or `None` where the bytes hold no initialized record with
/// that extension.
pub uninterp spec fn transferring_flag_of(data: Seq<u8>) -> Option<bool>;

/// Relies on spl-token-2022's `PodStateWithExtensions::<PodAccount>::unpack`
/// and `get_extension::<TransferHookAccount>`: they read the flag from the
/// record's bytes alone, and fail rather than panic on malformed bytes.
#[verifier::external_body]
pub(crate) fn read_transferring_flag(data: &Vec<u8>) -> (r: Option<bool>)
    ensures
        r == transferring_flag_of(data@),
{
    PodStateWithExtensions::<PodAccount>::unpack(data.as_slice())
        .and_then(|s| s.get_extension::<TransferHookAccount>().map(|e| bool::from(e.transferring)))
        .ok()
}

/// Whether the record found at an owner's entry address authorizes it.
pub open spec fn authorizes(entry: Option<WhitelistEntry>, owner: Seq<u8>) -> bool {
    match entry {
        Some(e) => e.user_address@ == owner,
        None => false,
    }
}

/// The callback's verdict on the records it was handed.
pub open spec fn gate_outcome(
    transferring: Option<bool>,
    owner: Seq<u8>,
    source_entry: Option<WhitelistEntry>,
    destination_owner: Seq<u8>,
    destination_entry: Option<WhitelistEntry>,
    policy: Policy,
) -> Result<(), VaultError> {
    if guard_outcome(transferring) is Err {
        guard_outcome(transferring)
    } else if !authorizes(source_entry, owner) {
        Err(VaultError::NotWhitelisted)
    } else if policy == Policy::SourceAndDestinationOwners && !authorizes(destination_entry, destination_owner) {
        Err(VaultError::NotWhitelisted)
    } else {
        Ok(())
    }
}

/// The callback's verdict where the records come from the registry itself.
pub open spec fn registry_gate_outcome(
    registry: Registry,
    transferring: Option<bool>,
    owner: Seq<u8>,
    destination_owner: Seq<u8>,
    policy: Policy,
) -> Result<(), VaultError> {
    if guard_outcome(transferring) is Err {
        guard_outcome(transferring)
    } else if !registry.is_member(owner) {
        Err(VaultError::NotWhitelisted)
    } else if policy == Policy::SourceAndDestinationOwners && !registry.is_member(destination_owner) {
        Err(VaultError::NotWhitelisted)
    } else {
        Ok(())
    }
}

/// Fails unless the asset record is in the middle of a transfer.
pub fn check_is_transferring(transferring: Option<bool>) -> (r: Result<(), VaultError>)
    ensures
        r == guard_outcome(transferring),
{
    match transferring {
        None => Err(VaultError::InvalidAssetCapability),
        Some(false) => Err(VaultError::NotTransferring),
        Some(true) => Ok(()),
    }
}

/// Reads the transfer-hook state from a holding record's bytes, then applies
/// the mid-transfer guard to it.
pub fn check_record_is_transferring(data: &Vec<u8>) -> (r: Result<(), VaultError>)
    ensures
        r == guard_outcome(transferring_flag_of(data@)),
{
    check_is_transferring(read_transferring_flag(data))
}

fn entry_authorizes(entry: &Option<WhitelistEntry>, owner: &Identity) -> (r: bool)
    ensures
        r == authorizes(*entry, owner@),
{
    match entry {
        Some(e) => e.user_address.same_as(owner),
        None => false,
    }
}

/// The transfer callback: the guard first, then the owners' entries, whose
/// stored subject must be the owner being authorized.
pub fn transfer_hook(
    transferring: Option<bool>,
    owner: &Identity,
    source_entry: &Option<WhitelistEntry>,
    destination_owner: &Identity,
    destination_entry: &Option<WhitelistEntry>,
    policy: Policy,
) -> (r: Result<(), VaultError>)
    ensures
        r == gate_outcome(transferring, owner@, *source_entry, destination_owner@, *destination_entry, policy),
{
    let guard = check_is_transferring(transferring);
    if guard.is_err() {
        return guard;
    }
    if !entry_authorizes(source_entry, owner) {
        return Err(VaultError::NotWhitelisted);
    }
    if policy == Policy::SourceAndDestinationOwners && !entry_authorizes(destination_entry, destination_owner) {
        return Err(VaultError::NotWhitelisted);
    }
    Ok(())
}

/// Runs the callback on the entries that the registry holds for the owners.
pub fn check_transfer(
    registry: &Registry,
    transferring: Option<bool>,
    owner: &Identity,
    destination_owner: &Identity,
    policy: Policy,
) -> (r: Result<(), VaultError>)
    ensures
        r == registry_gate_outcome(*registry, transferring, owner@, destination_owner@, policy),
{
    let source_entry = registry.entry_of(owner);
    let destination_entry = registry.entry_of(destination_owner);
    transfer_hook(transferring, owner, &source_entry, destination_owner, &destination_entry, policy)
}

/// An owner without an entry is never authorized: the callback refuses any
/// transfer it authorizes, with `NotWhitelisted` once the guard has passed.
pub proof fn lemma_unlisted_owner_refused(
    registry: Registry,
    transferring: Option<bool>,
    owner: Seq<u8>,
    destination_owner: Seq<u8>,
    policy: Policy,
)
    requires
        !registry.is_member(owner),
    ensures
        registry_gate_outcome(registry, transferring, owner, destination_owner, policy) is Err,
        transferring == Some(true) ==> registry_gate_outcome(registry, transferring, owner, destination_owner, policy)
            == Err::<(), VaultError>(VaultError::NotWhitelisted),
        forall|e: Option<WhitelistEntry>, d: Option<WhitelistEntry>|
            !authorizes(e, owner) ==> (#[trigger] gate_outcome(transferring, owner, e, destination_owner, d, policy)) is Err,
{
}

/// With the transferring flag unset the callback fails with
/// `NotTransferring`, whatever the entries and the registry hold.
pub proof fn lemma_guard_bypass_refused(
    registry: Registry,
    owner: Seq<u8>,
    destination_owner: Seq<u8>,
    policy: Policy,
)
    ensures
        registry_gate_outcome(registry, Some(false), owner, destination_owner, policy)
            == Err::<(), VaultError>(VaultError::NotTransferring),
        forall|e: Option<WhitelistEntry>, d: Option<WhitelistEntry>|
            #[trigger] gate_outcome(Some(false), owner, e, destination_owner, d, policy)
                == Err::<(), VaultError>(VaultError::NotTransferring),
{
}

} // verus!
