use std::str::FromStr;

use anchor_lang::prelude::Pubkey;
use anchor_spl::token_2022::spl_token_2022::extension::transfer_hook::TransferHookAccount;
use anchor_spl::token_2022::spl_token_2022::extension::{
    BaseStateWithExtensionsMut, ExtensionType, PodStateWithExtensionsMut,
};
use anchor_spl::token_2022::spl_token_2022::pod::PodAccount;
use anchor_spl::token_2022::spl_token_2022::state::Account;
use spl_tlv_account_resolution::account::ExtraAccountMeta;
use spl_tlv_account_resolution::seeds::Seed;
use transfer_enabled_vault::address::{entry_address, registry_address};
use transfer_enabled_vault::error::VaultError;
use transfer_enabled_vault::gate::{check_is_transferring, check_record_is_transferring, check_transfer, transfer_hook};
use transfer_enabled_vault::identity::Identity;
use transfer_enabled_vault::meta::{encode_descriptor, extra_account_meta_records};
use transfer_enabled_vault::registry::Registry;
use transfer_enabled_vault::resolver::{
    extra_account_metas, resolve_descriptor, resolve_extra_accounts, AccountDescriptor, Participant, Policy,
};
use transfer_enabled_vault::state::WhitelistEntry;
use transfer_enabled_vault::vault::{Make, TokenHolding};

fn program() -> Identity {
    Identity::new(
        Pubkey::from_str("H7N63tnhQaS6VJb3bAoqGwycD55cNV5Nn8qpNG4EPESd")
            .unwrap()
            .to_bytes(),
    )
}

fn id(b: u8) -> Identity {
    Identity::new([b; 32])
}

fn holding_record(transferring: bool) -> Vec<u8> {
    let len = ExtensionType::try_calculate_account_len::<Account>(&[ExtensionType::TransferHookAccount]).unwrap();
    let mut data = vec![0u8; len];
    {
        let mut state = PodStateWithExtensionsMut::<PodAccount>::unpack_uninitialized(&mut data).unwrap();
        let ext = state.init_extension::<TransferHookAccount>(true).unwrap();
        ext.transferring = transferring.into();
        state.init_account_type().unwrap();
        state.base.state = 1;
    }
    data
}

fn participants(owner: &Identity, destination_owner: &Identity) -> Vec<Participant> {
    let mut destination_data = vec![0u8; 165];
    destination_data[32..64].copy_from_slice(&destination_owner.bytes);
    vec![
        Participant { key: id(10), data: vec![0u8; 165] },
        Participant { key: id(11), data: vec![] },
        Participant { key: id(12), data: destination_data },
        Participant { key: *owner, data: vec![] },
    ]
}

fn registry_with(admin: &Identity, members: &[Identity]) -> Registry {
    let mut r = Registry::new(program());
    r.initialize_whitelist(admin, &id(9), &id(9)).unwrap();
    for m in members {
        r.add_to_whitelist(admin, m).unwrap();
    }
    r
}

#[test]
fn descriptor_order_single_sided() {
    let ds = extra_account_metas(&program(), Policy::SourceOwner).unwrap();
    assert_eq!(ds.len(), 2);
    let (registry, _) = registry_address(&program()).unwrap();
    assert!(matches!(ds[0], AccountDescriptor::FixedAddress { address } if address.same_as(&registry)));
    assert!(matches!(ds[1], AccountDescriptor::DerivedFromKey { slot: 3 }));
}

#[test]
fn descriptor_order_two_sided() {
    let ds = extra_account_metas(&program(), Policy::SourceAndDestinationOwners).unwrap();
    assert_eq!(ds.len(), 3);
    assert!(matches!(ds[1], AccountDescriptor::DerivedFromKey { slot: 3 }));
    assert!(matches!(
        ds[2],
        AccountDescriptor::DerivedFromData { slot: 2, offset: 32, length: 32 }
    ));
}

#[test]
fn resolution_is_deterministic() {
    let parts = participants(&id(1), &id(2));
    let a = resolve_extra_accounts(&program(), &parts, Policy::SourceAndDestinationOwners).unwrap();
    let b = resolve_extra_accounts(&program(), &participants(&id(1), &id(2)), Policy::SourceAndDestinationOwners)
        .unwrap();
    assert_eq!(a.len(), 3);
    assert_eq!(a.len(), b.len());
    for i in 0..a.len() {
        assert!(a[i].same_as(&b[i]));
    }
    let (registry, _) = registry_address(&program()).unwrap();
    let (source, _) = entry_address(&program(), &id(1)).unwrap();
    let (destination, _) = entry_address(&program(), &id(2)).unwrap();
    assert!(a[0].same_as(&registry));
    assert!(a[1].same_as(&source));
    assert!(a[2].same_as(&destination));
}

#[test]
fn resolution_single_sided() {
    let a = resolve_extra_accounts(&program(), &participants(&id(1), &id(2)), Policy::SourceOwner).unwrap();
    assert_eq!(a.len(), 2);
    assert!(a[1].same_as(&entry_address(&program(), &id(1)).unwrap().0));
}

#[test]
fn resolution_needs_participants() {
    let mut parts = participants(&id(1), &id(2));
    parts.truncate(3);
    assert!(resolve_extra_accounts(&program(), &parts, Policy::SourceOwner).is_none());
    let mut parts = participants(&id(1), &id(2));
    parts[2].data.truncate(40);
    assert!(resolve_extra_accounts(&program(), &parts, Policy::SourceOwner).is_some());
    assert!(resolve_extra_accounts(&program(), &parts, Policy::SourceAndDestinationOwners).is_none());
    let d = AccountDescriptor::DerivedFromData { slot: 2, offset: 32, length: 8 };
    let (expected, _) = entry_address(&program(), &Identity::new([0u8; 32])).unwrap();
    assert!(!resolve_descriptor(&d, &parts, &program()).unwrap().same_as(&expected));
}

#[test]
fn encoding_matches_ledger_format() {
    let (registry, _) = registry_address(&program()).unwrap();
    let fixed = encode_descriptor(&AccountDescriptor::FixedAddress { address: registry });
    let want = ExtraAccountMeta::new_with_pubkey(&Pubkey::new_from_array(registry.bytes), false, false).unwrap();
    assert_eq!(fixed.discriminator, 0);
    assert_eq!(fixed.address_config, want.address_config);

    let from_key = encode_descriptor(&AccountDescriptor::DerivedFromKey { slot: 3 });
    let mut config = [0u8; 32];
    config[..11].copy_from_slice(b"\x01\x09whitelist");
    config[11] = 3;
    config[12] = 3;
    assert_eq!(from_key.discriminator, 1);
    assert_eq!(from_key.address_config, config);
    assert!(!from_key.is_signer && !from_key.is_writable);

    let from_data = encode_descriptor(&AccountDescriptor::DerivedFromData { slot: 2, offset: 32, length: 32 });
    let want = ExtraAccountMeta::new_with_seeds(
        &[
            Seed::Literal { bytes: b"whitelist".to_vec() },
            Seed::AccountData { account_index: 2, data_index: 32, length: 32 },
        ],
        false,
        false,
    )
    .unwrap();
    assert_eq!(from_data.address_config, want.address_config);
    assert_eq!(&from_data.address_config[11..15], &[4u8, 2, 32, 32]);
}

#[test]
fn meta_records_follow_descriptors() {
    let records = extra_account_meta_records(&program(), Policy::SourceAndDestinationOwners).unwrap();
    assert_eq!(records.len(), 3);
    assert_eq!(records[0].discriminator, 0);
    assert_eq!(records[1].discriminator, 1);
    assert_eq!(records[2].discriminator, 1);
    assert_eq!(records[1].address_config[11], 3);
    assert_eq!(records[2].address_config[11], 4);
}

#[test]
fn guard_states() {
    assert_eq!(check_is_transferring(Some(true)), Ok(()));
    assert_eq!(check_is_transferring(Some(false)), Err(VaultError::NotTransferring));
    assert_eq!(check_is_transferring(None), Err(VaultError::InvalidAssetCapability));
}

#[test]
fn guard_reads_record() {
    assert_eq!(check_record_is_transferring(&holding_record(true)), Ok(()));
    assert_eq!(check_record_is_transferring(&holding_record(false)), Err(VaultError::NotTransferring));
    assert_eq!(check_record_is_transferring(&vec![0u8; 10]), Err(VaultError::InvalidAssetCapability));
}

#[test]
fn guard_bypass_fails_regardless_of_whitelist() {
    let entry = Some(WhitelistEntry { user_address: id(1), bump: 0 });
    for policy in [Policy::SourceOwner, Policy::SourceAndDestinationOwners] {
        assert_eq!(
            transfer_hook(Some(false), &id(1), &entry, &id(1), &entry, policy),
            Err(VaultError::NotTransferring)
        );
        assert_eq!(transfer_hook(Some(false), &id(1), &None, &id(2), &None, policy), Err(VaultError::NotTransferring));
    }
    let r = registry_with(&id(7), &[id(1)]);
    assert_eq!(check_transfer(&r, Some(false), &id(1), &id(1), Policy::SourceOwner), Err(VaultError::NotTransferring));
}

#[test]
fn gate_checks_entry_subjects() {
    let own = Some(WhitelistEntry { user_address: id(1), bump: 0 });
    let other = Some(WhitelistEntry { user_address: id(2), bump: 0 });
    assert_eq!(transfer_hook(Some(true), &id(1), &own, &id(2), &None, Policy::SourceOwner), Ok(()));
    assert_eq!(
        transfer_hook(Some(true), &id(1), &other, &id(2), &other, Policy::SourceOwner),
        Err(VaultError::NotWhitelisted)
    );
    assert_eq!(
        transfer_hook(Some(true), &id(1), &own, &id(2), &None, Policy::SourceAndDestinationOwners),
        Err(VaultError::NotWhitelisted)
    );
    assert_eq!(
        transfer_hook(Some(true), &id(1), &own, &id(2), &other, Policy::SourceAndDestinationOwners),
        Ok(())
    );
    assert_eq!(
        transfer_hook(None, &id(1), &own, &id(2), &other, Policy::SourceOwner),
        Err(VaultError::InvalidAssetCapability)
    );
}

#[test]
fn unlisted_owner_is_refused() {
    let r = registry_with(&id(7), &[id(1)]);
    assert_eq!(check_transfer(&r, Some(true), &id(2), &id(1), Policy::SourceOwner), Err(VaultError::NotWhitelisted));
    assert_eq!(check_transfer(&r, Some(true), &id(1), &id(2), Policy::SourceOwner), Ok(()));
    assert_eq!(
        check_transfer(&r, Some(true), &id(1), &id(2), Policy::SourceAndDestinationOwners),
        Err(VaultError::NotWhitelisted)
    );
}

fn make_for(owner: &Identity, amount: u64) -> Make {
    let mint = id(20);
    Make {
        token_mint: mint,
        owner: *owner,
        maker_ata: TokenHolding { mint, owner: *owner, amount },
        vault: TokenHolding { mint, owner: id(30), amount: 0 },
    }
}

#[test]
fn deposit_scenario() {
    let admin = id(7);
    let u1 = id(1);
    let u2 = id(2);
    let mut r = Registry::new(program());
    r.initialize_whitelist(&admin, &id(20), &id(20)).unwrap();
    r.add_to_whitelist(&admin, &u1).unwrap();

    let mut make = make_for(&u1, 500);
    assert_eq!(make.deposit(&r, 100, Some(true), Policy::SourceOwner), Ok(()));
    assert_eq!(make.vault.amount, 100);
    assert_eq!(make.maker_ata.amount, 400);

    let mut other = make_for(&u2, 500);
    other.vault.amount = make.vault.amount;
    assert_eq!(other.deposit(&r, 50, Some(true), Policy::SourceOwner), Err(VaultError::NotWhitelisted));
    assert_eq!(other.vault.amount, 100);
    assert_eq!(other.maker_ata.amount, 500);
}

#[test]
fn deposit_reads_record() {
    let r = registry_with(&id(7), &[id(1)]);
    let mut make = make_for(&id(1), 10);
    assert_eq!(make.deposit_with_record(&r, 4, &holding_record(true), Policy::SourceOwner), Ok(()));
    assert_eq!(make.vault.amount, 4);
    assert_eq!(
        make.deposit_with_record(&r, 4, &holding_record(false), Policy::SourceOwner),
        Err(VaultError::NotTransferring)
    );
    assert_eq!(make.vault.amount, 4);
}

#[test]
fn deposit_errors() {
    let r = registry_with(&id(7), &[id(1)]);
    let mut make = make_for(&id(1), 10);
    make.maker_ata.mint = id(21);
    assert_eq!(make.deposit(&r, 1, Some(true), Policy::SourceOwner), Err(VaultError::InvalidHolding));
    let mut make = make_for(&id(1), 10);
    make.maker_ata.owner = id(2);
    assert_eq!(make.deposit(&r, 1, Some(true), Policy::SourceOwner), Err(VaultError::InvalidHolding));
    let mut make = make_for(&id(1), 10);
    assert_eq!(make.deposit(&r, 11, Some(true), Policy::SourceOwner), Err(VaultError::InsufficientFunds));
    make.vault.amount = u64::MAX;
    assert_eq!(make.deposit(&r, 1, Some(true), Policy::SourceOwner), Err(VaultError::AmountOverflow));
    let mut make = make_for(&id(1), 10);
    assert_eq!(make.deposit(&r, 1, Some(false), Policy::SourceOwner), Err(VaultError::NotTransferring));
    assert_eq!(make.deposit(&r, 1, None, Policy::SourceOwner), Err(VaultError::InvalidAssetCapability));
    assert_eq!(make.deposit(&r, 10, Some(true), Policy::SourceOwner), Ok(()));
    assert_eq!(make.maker_ata.amount, 0);
}
