use vstd::prelude::*;

use crate::address::{
    derive_address, entry_seeds, identity_seed, program_address_of, registry_address, registry_seeds,
    whitelist_literal_bytes,
};
use crate::identity::Identity;

verus! {

/// Position of the destination holding record among a transfer's
/// participants, which come in the order: source holding, asset, destination
/// holding, source owner.
pub const DESTINATION_SLOT: u8 = 2;
/// Position of the source owner (the transfer's authority).
pub const OWNER_SLOT: u8 = 3;
/// Byte offset of the owner identity inside a holding record.
pub const HOLDING_OWNER_OFFSET: u8 = 32;
/// Length of an identity in bytes.
pub const IDENTITY_LEN: u8 = 32;

/// Which owners of a transfer must be whitelisted.
#[derive(Clone, Copy, Debug, PartialEq, Eq, Structural)]
pub enum Policy {
    /// The source owner only.
    SourceOwner,
    /// The source owner and the owner of the destination holding record.
    SourceAndDestinationOwners,
}

/// An auxiliary record that the transfer callback requires. The derived
/// forms are whitelist entries: their seeds are the `whitelist` literal and
/// one dynamic component.
#[derive(Clone, Copy, Debug)]
pub enum AccountDescriptor {
    /// An address known in advance.
    FixedAddress { address: Identity },
    /// The dynamic seed is the identity of the participant at `slot`.
    DerivedFromKey { slot: u8 },
    /// The dynamic seed is `length` bytes at `offset` of the record of the
    /// participant at `slot`.
    DerivedFromData { slot: u8, offset: u8, length: u8 },
}

/// A record taking part in a transfer: its address and its payload.
#[derive(Debug)]
pub struct Participant {
    pub key: Identity,
    pub data: Vec<u8>,
}

impl View for Participant {
    type V = (Seq<u8>, Seq<u8>);

    open spec fn view(&self) -> (Seq<u8>, Seq<u8>) {
        (self.key@, self.data@)
    }
}

pub open spec fn participants_view(parts: Seq<Participant>) -> Seq<(Seq<u8>, Seq<u8>)> {
    parts.map_values(|p: Participant| p@)
}

/// The descriptor list for a registry record at `registry`, in the order the
/// callback expects its inputs.
pub open spec fn descriptors_for(ds: Seq<AccountDescriptor>, registry: Seq<u8>, policy: Policy) -> bool {
    &&& ds.len() == (if policy == Policy::SourceOwner { 2int } else { 3int })
    &&& (match ds[0] {
        AccountDescriptor::FixedAddress { address } => address@ == registry,
        _ => false,
    })
    &&& ds[1] == AccountDescriptor::DerivedFromKey { slot: OWNER_SLOT }
    &&& policy == Policy::SourceAndDestinationOwners ==> ds[2] == AccountDescriptor::DerivedFromData {
        slot: DESTINATION_SLOT,
        offset: HOLDING_OWNER_OFFSET,
        length: IDENTITY_LEN,
    }
}

/// The whitelist entry address named by a derived seed, if one is viable.
pub open spec fn entry_address_of(seed: Seq<u8>, program: Seq<u8>) -> Option<Seq<u8>> {
    match program_address_of(entry_seeds(seed), program) {
        Some((a, _)) => Some(a),
        None => None,
    }
}

/// The address that a descriptor resolves to for the given participants.
pub open spec fn resolved_address(
    d: AccountDescriptor,
    parts: Seq<(Seq<u8>, Seq<u8>)>,
    program: Seq<u8>,
) -> Option<Seq<u8>> {
    match d {
        AccountDescriptor::FixedAddress { address } => Some(address@),
        AccountDescriptor::DerivedFromKey { slot } => if slot < parts.len() {
            entry_address_of(parts[slot as int].0, program)
        } else {
            None
        },
        AccountDescriptor::DerivedFromData { slot, offset, length } => if slot < parts.len()
            && offset + length <= parts[slot as int].1.len() {
            entry_address_of(parts[slot as int].1.subrange(offset as int, offset + length), program)
        } else {
            None
        },
    }
}

/// The auxiliary addresses of a transfer, in the callback's order, or `None`
/// where one of them cannot be resolved.
pub open spec fn resolution(
    program: Seq<u8>,
    parts: Seq<(Seq<u8>, Seq<u8>)>,
    policy: Policy,
) -> Option<Seq<Seq<u8>>> {
    let source = resolved_address(AccountDescriptor::DerivedFromKey { slot: OWNER_SLOT }, parts, program);
    let destination = resolved_address(
        AccountDescriptor::DerivedFromData {
            slot: DESTINATION_SLOT,
            offset: HOLDING_OWNER_OFFSET,
            length: IDENTITY_LEN,
        },
        parts,
        program,
    );
    match (program_address_of(registry_seeds(), program), source) {
        (Some((registry, _)), Some(s)) => if policy == Policy::SourceOwner {
            Some(seq![registry, s])
        } else {
            match destination {
                Some(d) => Some(seq![registry, s, d]),
                None => None,
            }
        },
        _ => None,
    }
}

/// The descriptor list of the auxiliary records that the transfer callback
/// requires: the registry record, then the whitelist entry of the source
/// owner, then, under the two-sided policy, that of the destination owner.
/// `None` only where the registry's address cannot be derived.
pub fn extra_account_metas(program_id: &Identity, policy: Policy) -> (r: Option<Vec<AccountDescriptor>>)
    ensures
        match program_address_of(registry_seeds(), program_id@) {
            None => r is None,
            Some((registry, _)) => r is Some && descriptors_for(r->0@, registry, policy),
        },
{
    match registry_address(program_id) {
        None => None,
        Some((registry, _)) => {
            let mut ds: Vec<AccountDescriptor> = Vec::new();
            ds.push(AccountDescriptor::FixedAddress { address: registry });
            ds.push(AccountDescriptor::DerivedFromKey { slot: OWNER_SLOT });
            if policy == Policy::SourceAndDestinationOwners {
                ds.push(
                    AccountDescriptor::DerivedFromData {
                        slot: DESTINATION_SLOT,
                        offset: HOLDING_OWNER_OFFSET,
                        length: IDENTITY_LEN,
                    },
                );
            }
            Some(ds)
        },
    }
}

/// Copies `length` bytes at `offset` of `data`.
fn copy_range(data: &Vec<u8>, offset: u8, length: u8) -> (r: Vec<u8>)
    requires
        offset + length <= data@.len(),
    ensures
        r@ == data@.subrange(offset as int, offset + length),
{
    let mut r: Vec<u8> = Vec::new();
    let mut i: usize = 0;
    while i < length as usize
        invariant
            0 <= i <= length,
            offset + length <= data@.len(),
            r@ == data@.subrange(offset as int, offset + i),
        decreases length - i,
    {
        r.push(data[offset as usize + i]);
        i = i + 1;
        assert(r@ =~= data@.subrange(offset as int, offset + i));
    }
    r
}

/// Derives the whitelist entry address for a dynamic seed.
fn entry_address_for_seed(seed: Vec<u8>, program_id: &Identity) -> (r: Option<Identity>)
    ensures
        match r {
            Some(a) => entry_address_of(seed@, program_id@) == Some(a@),
            None => entry_address_of(seed@, program_id@) is None,
        },
{
    let mut seeds: Vec<Vec<u8>> = Vec::new();
    let lit = whitelist_literal_bytes();
    assert(lit.deep_view() =~= lit@);
    assert(seed.deep_view() =~= seed@);
    seeds.push(lit);
    seeds.push(seed);
    assert(seeds.deep_view() =~= entry_seeds(seed@));
    match derive_address(&seeds, program_id) {
        Some((a, _)) => Some(a),
        None => None,
    }
}

/// Resolves one descriptor against the participants of a transfer.
pub fn resolve_descriptor(d: &AccountDescriptor, participants: &Vec<Participant>, program_id: &Identity) -> (r: Option<Identity>)
    ensures
        match r {
            Some(a) => resolved_address(*d, participants_view(participants@), program_id@) == Some(a@),
            None => resolved_address(*d, participants_view(participants@), program_id@) is None,
        },
{
    let ghost parts = participants_view(participants@);
    match d {
        AccountDescriptor::FixedAddress { address } => Some(*address),
        AccountDescriptor::DerivedFromKey { slot } => {
            if (*slot as usize) < participants.len() {
                assert(parts[*slot as int] == participants@[*slot as int]@);
                entry_address_for_seed(identity_seed(&participants[*slot as usize].key), program_id)
            } else {
                None
            }
        },
        AccountDescriptor::DerivedFromData { slot, offset, length } => {
            if (*slot as usize) < participants.len() {
                let data = &participants[*slot as usize].data;
                assert(parts[*slot as int] == participants@[*slot as int]@);
                if (*offset as usize) + (*length as usize) <= data.len() {
                    entry_address_for_seed(copy_range(data, *offset, *length), program_id)
                } else {
                    None
                }
            } else {
                None
            }
        },
    }
}

/// Resolves the auxiliary records of a transfer to addresses, in the order in
/// which the callback expects them.
pub fn resolve_extra_accounts(program_id: &Identity, participants: &Vec<Participant>, policy: Policy) -> (r: Option<Vec<Identity>>)
    ensures
        match r {
            Some(v) => resolution(program_id@, participants_view(participants@), policy)
                == Some(v@.map_values(|a: Identity| a@)),
            None => resolution(program_id@, participants_view(participants@), policy) is None,
        },
{
    let ghost parts = participants_view(participants@);
    let ds = match extra_account_metas(program_id, policy) {
        None => return None,
        Some(ds) => ds,
    };
    let mut out: Vec<Identity> = Vec::new();
    let mut i: usize = 0;
    while i < ds.len()
        invariant
            0 <= i <= ds@.len(),
            out@.len() == i,
            forall|j: int| 0 <= j < i ==> resolved_address(ds@[j], parts, program_id@) == Some(#[trigger] out@[j]@),
            parts == participants_view(participants@),
            match program_address_of(registry_seeds(), program_id@) {
                Some((registry, _)) => descriptors_for(ds@, registry, policy),
                None => false,
            },
        decreases ds@.len() - i,
    {
        let d = ds[i];
        match resolve_descriptor(&d, participants, program_id) {
            None => {
                assert(resolved_address(ds@[i as int], parts, program_id@) is None);
                assert(i != 0);
                return None;
            },
            Some(a) => {
                out.push(a);
            },
        }
        i = i + 1;
    }
    let ghost spec_out = out@.map_values(|a: Identity| a@);
    assert(resolved_address(ds@[0], parts, program_id@) == Some(out@[0]@));
    assert(resolved_address(ds@[1], parts, program_id@) == Some(out@[1]@));
    if policy == Policy::SourceOwner {
        assert(spec_out =~= seq![out@[0]@, out@[1]@]);
    } else {
        assert(resolved_address(ds@[2], parts, program_id@) == Some(out@[2]@));
        assert(spec_out =~= seq![out@[0]@, out@[1]@, out@[2]@]);
    }
    Some(out)
}

/// Resolution depends on the participants' addresses and payloads alone:
/// two resolutions for participants that agree on both give one and the
/// same ordered list.
pub proof fn lemma_resolution_deterministic(
    program_id: Identity,
    first: Seq<Participant>,
    second: Seq<Participant>,
    policy: Policy,
)
    requires
        first.len() == second.len(),
        forall|i: int| 0 <= i < first.len() ==> (#[trigger] first[i])@ == second[i]@,
    ensures
        resolution(program_id@, participants_view(first), policy)
            == resolution(program_id@, participants_view(second), policy),
{
    assert(participants_view(first) =~= participants_view(second));
}

} // verus!
