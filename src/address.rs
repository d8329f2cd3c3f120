use anchor_lang::prelude::Pubkey;
use vstd::prelude::*;

use crate::identity::Identity;

verus! {

/// The derived address and bump seed that the ledger assigns to a seed list
/// under a program identity, or `None` where no bump seed yields a viable
/// address.
pub uninterp spec fn program_address_of(seeds: Seq<Seq<u8>>, program: Seq<u8>) -> Option<(Seq<u8>, u8)>;

/// Relies on `Pubkey::try_find_program_address`: it searches the bump seeds
/// from 255 down and returns the first viable derived address with its bump,
/// a function of the seeds and the program identity alone.
#[verifier::external_body]
fn try_find_program_address(seeds: &Vec<Vec<u8>>, program_id: &Identity) -> (r: Option<(Identity, u8)>)
    ensures
        match r {
            Some((a, b)) => program_address_of(seeds.deep_view(), program_id@) == Some((a@, b)),
            None => program_address_of(seeds.deep_view(), program_id@) is None,
        },
{
    let refs: Vec<&[u8]> = seeds.iter().map(|s| s.as_slice()).collect();
    Pubkey::try_find_program_address(&refs, &Pubkey::new_from_array(program_id.bytes))
        .map(|(k, b)| (Identity { bytes: k.to_bytes() }, b))
}

/// The namespace literal `whitelist`.
pub open spec fn whitelist_literal() -> Seq<u8> {
    seq![119u8, 104u8, 105u8, 116u8, 101u8, 108u8, 105u8, 115u8, 116u8]
}

/// The namespace literal `extra-account-metas`.
pub open spec fn extra_account_metas_literal() -> Seq<u8> {
    seq![
        101u8, 120u8, 116u8, 114u8, 97u8, 45u8, 97u8, 99u8, 99u8, 111u8,
        117u8, 110u8, 116u8, 45u8, 109u8, 101u8, 116u8, 97u8, 115u8,
    ]
}

/// Seeds of the registry configuration record: the literal alone.
pub open spec fn registry_seeds() -> Seq<Seq<u8>> {
    seq![whitelist_literal()]
}

/// Seeds of a subject's whitelist entry: the literal, then the subject.
pub open spec fn entry_seeds(subject: Seq<u8>) -> Seq<Seq<u8>> {
    seq![whitelist_literal(), subject]
}

/// Seeds of an asset's auxiliary-meta-list record.
pub open spec fn meta_list_seeds(mint: Seq<u8>) -> Seq<Seq<u8>> {
    seq![extra_account_metas_literal(), mint]
}

pub fn whitelist_literal_bytes() -> (r: Vec<u8>)
    ensures
        r@ == whitelist_literal(),
{
    let r: Vec<u8> = vec![119u8, 104u8, 105u8, 116u8, 101u8, 108u8, 105u8, 115u8, 116u8];
    assert(r@ =~= whitelist_literal());
    r
}

pub fn extra_account_metas_literal_bytes() -> (r: Vec<u8>)
    ensures
        r@ == extra_account_metas_literal(),
{
    let r: Vec<u8> = vec![
        101u8, 120u8, 116u8, 114u8, 97u8, 45u8, 97u8, 99u8, 99u8, 111u8,
        117u8, 110u8, 116u8, 45u8, 109u8, 101u8, 116u8, 97u8, 115u8,
    ];
    assert(r@ =~= extra_account_metas_literal());
    r
}

/// Copies the bytes of an identity into a seed.
pub fn identity_seed(id: &Identity) -> (r: Vec<u8>)
    ensures
        r@ == id@,
{
    let mut r: Vec<u8> = Vec::new();
    let mut i: usize = 0;
    while i < 32
        invariant
            0 <= i <= 32,
            id@.len() == 32,
            r@ == id@.subrange(0, i as int),
        decreases 32 - i,
    {
        r.push(id.bytes[i]);
        i = i + 1;
        assert(r@ =~= id@.subrange(0, i as int));
    }
    assert(id@.subrange(0, 32) =~= id@);
    r
}

pub fn registry_seed_list() -> (r: Vec<Vec<u8>>)
    ensures
        r.deep_view() == registry_seeds(),
{
    let mut r: Vec<Vec<u8>> = Vec::new();
    let lit = whitelist_literal_bytes();
    assert(lit.deep_view() =~= lit@);
    r.push(lit);
    assert(r.deep_view() =~= registry_seeds());
    r
}

pub fn entry_seed_list(subject: &Identity) -> (r: Vec<Vec<u8>>)
    ensures
        r.deep_view() == entry_seeds(subject@),
{
    let mut r: Vec<Vec<u8>> = Vec::new();
    let lit = whitelist_literal_bytes();
    let key = identity_seed(subject);
    assert(lit.deep_view() =~= lit@);
    assert(key.deep_view() =~= key@);
    r.push(lit);
    r.push(key);
    assert(r.deep_view() =~= entry_seeds(subject@));
    r
}

pub fn meta_list_seed_list(mint: &Identity) -> (r: Vec<Vec<u8>>)
    ensures
        r.deep_view() == meta_list_seeds(mint@),
{
    let mut r: Vec<Vec<u8>> = Vec::new();
    let lit = extra_account_metas_literal_bytes();
    let key = identity_seed(mint);
    assert(lit.deep_view() =~= lit@);
    assert(key.deep_view() =~= key@);
    r.push(lit);
    r.push(key);
    assert(r.deep_view() =~= meta_list_seeds(mint@));
    r
}

/// Derives the address and bump of a seed list under a program identity.
pub fn derive_address(seeds: &Vec<Vec<u8>>, program_id: &Identity) -> (r: Option<(Identity, u8)>)
    ensures
        match r {
            Some((a, b)) => program_address_of(seeds.deep_view(), program_id@) == Some((a@, b)),
            None => program_address_of(seeds.deep_view(), program_id@) is None,
        },
{
    try_find_program_address(seeds, program_id)
}

/// Address and bump of the registry configuration record.
pub fn registry_address(program_id: &Identity) -> (r: Option<(Identity, u8)>)
    ensures
        match r {
            Some((a, b)) => program_address_of(registry_seeds(), program_id@) == Some((a@, b)),
            None => program_address_of(registry_seeds(), program_id@) is None,
        },
{
    derive_address(&registry_seed_list(), program_id)
}

/// Address and bump of a subject's whitelist entry.
pub fn entry_address(program_id: &Identity, subject: &Identity) -> (r: Option<(Identity, u8)>)
    ensures
        match r {
            Some((a, b)) => program_address_of(entry_seeds(subject@), program_id@) == Some((a@, b)),
            None => program_address_of(entry_seeds(subject@), program_id@) is None,
        },
{
    derive_address(&entry_seed_list(subject), program_id)
}

/// Address and bump of an asset's auxiliary-meta-list record.
pub fn meta_list_address(program_id: &Identity, mint: &Identity) -> (r: Option<(Identity, u8)>)
    ensures
        match r {
            Some((a, b)) => program_address_of(meta_list_seeds(mint@), program_id@) == Some((a@, b)),
            None => program_address_of(meta_list_seeds(mint@), program_id@) is None,
        },
{
    derive_address(&meta_list_seed_list(mint), program_id)
}

} // verus!
