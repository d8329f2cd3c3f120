use anchor_lang::prelude::Pubkey;
use spl_tlv_account_resolution::account::ExtraAccountMeta;
use spl_tlv_account_resolution::seeds::Seed;
use vstd::prelude::*;

use crate::address::{program_address_of, registry_seeds, whitelist_literal, whitelist_literal_bytes};
use crate::identity::Identity;
use crate::resolver::{descriptors_for, extra_account_metas, AccountDescriptor, Policy};

verus! {

#[verifier::external_type_specification]
pub struct ExSeed(Seed);

/// The bytes that one seed configuration packs to, or `None` for a seed that
/// cannot be packed.
pub open spec fn seed_bytes(s: Seed) -> Option<Seq<u8>> {
    match s {
        Seed::Uninitialized => None,
        Seed::Literal { bytes } => Some(seq![1u8, bytes@.len() as u8] + bytes@),
        Seed::InstructionData { index, length } => Some(seq![2u8, index, length]),
        Seed::AccountKey { index } => Some(seq![3u8, index]),
        Seed::AccountData { account_index, data_index, length } => Some(
            seq![4u8, account_index, data_index, length],
        ),
    }
}

/// The seed configurations packed one after the other.
pub open spec fn packed_seeds(seeds: Seq<Seed>) -> Option<Seq<u8>>
    decreases seeds.len(),
{
    if seeds.len() == 0 {
        Some(Seq::empty())
    } else {
        match (packed_seeds(seeds.drop_last()), seed_bytes(seeds.last())) {
            (Some(p), Some(b)) => Some(p + b),
            _ => None,
        }
    }
}

/// A packed configuration padded with zeros to 32 bytes.
pub open spec fn padded(p: Seq<u8>) -> Seq<u8> {
    p + Seq::new((32 - p.len()) as nat, |i: int| 0u8)
}

pub open spec fn literal_fits(s: Seed) -> bool {
    match s {
        Seed::Literal { bytes } => bytes@.len() <= 32,
        _ => true,
    }
}

/// Relies on spl-tlv-account-resolution's `ExtraAccountMeta::new_with_seeds`:
/// discriminator 1 and the seeds packed into 32 bytes, zero-filled; an error
/// where a seed is uninitialized or the packed seeds exceed 32 bytes.
#[verifier::external_body]
fn new_with_seeds(seeds: &Vec<Seed>, is_signer: bool, is_writable: bool) -> (r: Option<(u8, [u8; 32], bool, bool)>)
    requires
        forall|i: int| 0 <= i < seeds@.len() ==> literal_fits(#[trigger] seeds@[i]),
    ensures
        match packed_seeds(seeds@) {
            Some(p) => if p.len() <= 32 {
                r is Some && (r->0).0 == 1 && (r->0).1@ == padded(p) && (r->0).2 == is_signer
                    && (r->0).3 == is_writable
            } else {
                r is None
            },
            None => r is None,
        },
{
    ExtraAccountMeta::new_with_seeds(seeds, is_signer, is_writable)
        .ok()
        .map(|m| (m.discriminator, m.address_config, bool::from(m.is_signer), bool::from(m.is_writable)))
}

/// Relies on spl-tlv-account-resolution's `ExtraAccountMeta::new_with_pubkey`:
/// discriminator 0 and the address itself; it never fails.
#[verifier::external_body]
fn new_with_pubkey(address: &Identity, is_signer: bool, is_writable: bool) -> (r: Option<(u8, [u8; 32], bool, bool)>)
    ensures
        r is Some && (r->0).0 == 0 && (r->0).1@ == address@ && (r->0).2 == is_signer && (r->0).3 == is_writable,
{
    ExtraAccountMeta::new_with_pubkey(&Pubkey::new_from_array(address.bytes), is_signer, is_writable)
        .ok()
        .map(|m| (m.discriminator, m.address_config, bool::from(m.is_signer), bool::from(m.is_writable)))
}

/// One entry of the ledger's extra-account-meta list, field for field.
#[derive(Clone, Copy, Debug)]
pub struct MetaRecord {
    pub discriminator: u8,
    pub address_config: [u8; 32],
    pub is_signer: bool,
    pub is_writable: bool,
}

/// The record that a descriptor encodes to: read-only, never a signer.
pub open spec fn encoded(d: AccountDescriptor) -> (u8, Seq<u8>) {
    match d {
        AccountDescriptor::FixedAddress { address } => (0u8, address@),
        AccountDescriptor::DerivedFromKey { slot } => (
            1u8,
            padded(seq![1u8, 9u8] + whitelist_literal() + seq![3u8, slot]),
        ),
        AccountDescriptor::DerivedFromData { slot, offset, length } => (
            1u8,
            padded(seq![1u8, 9u8] + whitelist_literal() + seq![4u8, slot, offset, length]),
        ),
    }
}

pub open spec fn encodes(m: MetaRecord, d: AccountDescriptor) -> bool {
    &&& m.discriminator == encoded(d).0
    &&& m.address_config@ == encoded(d).1
    &&& !m.is_signer
    &&& !m.is_writable
}

proof fn lemma_pack_two(a: Seed, b: Seed)
    requires
        seed_bytes(a) is Some,
        seed_bytes(b) is Some,
    ensures
        packed_seeds(seq![a, b]) == Some(seed_bytes(a)->0 + seed_bytes(b)->0),
{
    assert(seq![a, b].drop_last() =~= seq![a]);
    assert(seq![a].drop_last() =~= Seq::<Seed>::empty());
    assert(packed_seeds(Seq::<Seed>::empty()) == Some(Seq::<u8>::empty()));
    assert(Seq::<u8>::empty() + seed_bytes(a)->0 =~= seed_bytes(a)->0);
    assert(packed_seeds(seq![a]) == Some(seed_bytes(a)->0));
}

proof fn lemma_whitelist_literal_seed(s: Seed)
    requires
        s matches Seed::Literal { bytes } && bytes@ == whitelist_literal(),
    ensures
        seed_bytes(s) == Some(seq![1u8, 9u8] + whitelist_literal()),
        literal_fits(s),
{
    assert(whitelist_literal().len() == 9);
}

/// Encodes one descriptor as an extra-account-meta record.
pub fn encode_descriptor(d: &AccountDescriptor) -> (r: MetaRecord)
    ensures
        encodes(r, *d),
{
    let out = match d {
        AccountDescriptor::FixedAddress { address } => new_with_pubkey(address, false, false),
        AccountDescriptor::DerivedFromKey { slot } => {
            let lit = Seed::Literal { bytes: whitelist_literal_bytes() };
            let key = Seed::AccountKey { index: *slot };
            let ghost (g0, g1) = (lit, key);
            let mut seeds: Vec<Seed> = Vec::new();
            seeds.push(lit);
            seeds.push(key);
            proof {
                assert(seeds@ =~= seq![g0, g1]);
                lemma_whitelist_literal_seed(g0);
                lemma_pack_two(g0, g1);
            }
            new_with_seeds(&seeds, false, false)
        },
        AccountDescriptor::DerivedFromData { slot, offset, length } => {
            let lit = Seed::Literal { bytes: whitelist_literal_bytes() };
            let data = Seed::AccountData { account_index: *slot, data_index: *offset, length: *length };
            let ghost (g0, g1) = (lit, data);
            let mut seeds: Vec<Seed> = Vec::new();
            seeds.push(lit);
            seeds.push(data);
            proof {
                assert(seeds@ =~= seq![g0, g1]);
                lemma_whitelist_literal_seed(g0);
                lemma_pack_two(g0, g1);
            }
            new_with_seeds(&seeds, false, false)
        },
    };
    match out {
        Some((discriminator, address_config, is_signer, is_writable)) => MetaRecord {
            discriminator,
            address_config,
            is_signer,
            is_writable,
        },
        None => {
            assert(false);
            MetaRecord { discriminator: 0, address_config: [0u8; 32], is_signer: false, is_writable: false }
        },
    }
}

/// The extra-account-meta list of the transfer callback, encoded record by
/// record from `extra_account_metas`.
pub fn extra_account_meta_records(program_id: &Identity, policy: Policy) -> (r: Option<Vec<MetaRecord>>)
    ensures
        match program_address_of(registry_seeds(), program_id@) {
            None => r is None,
            Some((registry, _)) => r matches Some(v) && exists|ds: Seq<AccountDescriptor>|
                descriptors_for(ds, registry, policy) && v@.len() == ds.len()
                && forall|i: int| 0 <= i < ds.len() ==> encodes(#[trigger] v@[i], ds[i]),
        },
{
    let ds = match extra_account_metas(program_id, policy) {
        None => return None,
        Some(ds) => ds,
    };
    let mut out: Vec<MetaRecord> = Vec::new();
    let mut i: usize = 0;
    while i < ds.len()
        invariant
            0 <= i <= ds@.len(),
            out@.len() == i,
            forall|j: int| 0 <= j < i ==> encodes(#[trigger] out@[j], ds@[j]),
        decreases ds@.len() - i,
    {
        out.push(encode_descriptor(&ds[i]));
        i = i + 1;
    }
    Some(out)
}

} // verus!
