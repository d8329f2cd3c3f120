use vstd::prelude::*;

use crate::address::{entry_address, entry_seeds, program_address_of, registry_address, registry_seeds};
use crate::error::VaultError;
use crate::identity::Identity;
use crate::state::{Whitelist, WhitelistEntry};

verus! {

/// The allow-list: the configuration record, once created, and one entry per
/// authorized subject, all derived under `program_id`.
pub struct Registry {
    pub program_id: Identity,
    pub whitelist: Option<Whitelist>,
    pub entries: Vec<WhitelistEntry>,
}

impl Registry {
    /// The subjects that hold an entry, in the order of their entries.
    pub open spec fn subjects(&self) -> Seq<Seq<u8>> {
        self.entries@.map_values(|e: WhitelistEntry| e.user_address@)
    }

    /// At most one entry per subject: an entry's address is a function of
    /// its subject alone.
    pub open spec fn wf(&self) -> bool {
        self.subjects().no_duplicates()
    }

    pub open spec fn is_member(&self, subject: Seq<u8>) -> bool {
        self.subjects().contains(subject)
    }

    pub open spec fn members(&self) -> Set<Seq<u8>> {
        self.subjects().to_set()
    }

    /// Whether `signer` may change the allow-list.
    pub open spec fn authorize(&self, signer: Seq<u8>) -> Result<(), VaultError> {
        match self.whitelist {
            None => Err(VaultError::NotInitialized),
            Some(w) => if w.admin@ == signer {
                Ok(())
            } else {
                Err(VaultError::Unauthorized)
            },
        }
    }

    /// What adding `user` on behalf of `signer` returns.
    pub open spec fn add_result(&self, signer: Seq<u8>, user: Seq<u8>) -> Result<(), VaultError> {
        if self.authorize(signer) is Err {
            self.authorize(signer)
        } else if self.is_member(user) {
            Err(VaultError::AlreadyWhitelisted)
        } else {
            match program_address_of(entry_seeds(user), self.program_id@) {
                None => Err(VaultError::AddressDerivationFailed),
                Some(_) => Ok(()),
            }
        }
    }

    /// What removing `user` on behalf of `signer` returns.
    pub open spec fn remove_result(&self, signer: Seq<u8>, user: Seq<u8>) -> Result<(), VaultError> {
        if self.authorize(signer) is Err {
            self.authorize(signer)
        } else if !self.is_member(user) {
            Err(VaultError::NotWhitelisted)
        } else {
            Ok(())
        }
    }

    pub fn new(program_id: Identity) -> (r: Registry)
        ensures
            r.program_id == program_id,
            r.whitelist is None,
            r.entries@.len() == 0,
            r.members() == Set::<Seq<u8>>::empty(),
            r.wf(),
    {
        let r = Registry { program_id, whitelist: None, entries: Vec::new() };
        assert(r.subjects() =~= Seq::<Seq<u8>>::empty());
        assert(r.members() =~= Set::<Seq<u8>>::empty());
        r
    }

    /// Creates the configuration record at the registry's derived address.
    pub fn initialize_whitelist(&mut self, admin: &Identity, token_mint: &Identity, vault_mint: &Identity) -> (r: Result<(), VaultError>)
        requires
            old(self).wf(),
        ensures
            final(self).wf(),
            final(self).program_id == old(self).program_id,
            final(self).entries == old(self).entries,
            old(self).whitelist is Some ==> r == Err::<(), VaultError>(VaultError::AlreadyInitialized)
                && final(self).whitelist == old(self).whitelist,
            old(self).whitelist is None ==> match program_address_of(registry_seeds(), old(self).program_id@) {
                None => r == Err::<(), VaultError>(VaultError::AddressDerivationFailed)
                    && final(self).whitelist is None,
                Some((_, b)) => r is Ok && final(self).whitelist == Some(
                    Whitelist { bump: b, token_mint: *token_mint, admin: *admin, vault_mint: *vault_mint },
                ),
            },
    {
        if self.whitelist.is_some() {
            return Err(VaultError::AlreadyInitialized);
        }
        match registry_address(&self.program_id) {
            None => Err(VaultError::AddressDerivationFailed),
            Some((_, bump)) => {
                self.whitelist = Some(
                    Whitelist { bump, token_mint: *token_mint, admin: *admin, vault_mint: *vault_mint },
                );
                Ok(())
            },
        }
    }

    /// Checks that `signer` is the stored admin.
    pub fn check_admin(&self, signer: &Identity) -> (r: Result<(), VaultError>)
        ensures
            r == self.authorize(signer@),
    {
        match &self.whitelist {
            None => Err(VaultError::NotInitialized),
            Some(w) => if w.admin.same_as(signer) {
                Ok(())
            } else {
                Err(VaultError::Unauthorized)
            },
        }
    }

    /// The position of `subject`'s entry, if it has one.
    pub fn find_entry(&self, subject: &Identity) -> (r: Option<usize>)
        ensures
            match r {
                Some(i) => i < self.entries@.len() && self.entries@[i as int].user_address@ == subject@,
                None => !self.is_member(subject@),
            },
    {
        let mut i: usize = 0;
        while i < self.entries.len()
            invariant
                0 <= i <= self.entries@.len(),
                forall|j: int| 0 <= j < i ==> self.entries@[j].user_address@ != subject@,
            decreases self.entries@.len() - i,
        {
            if self.entries[i].user_address.same_as(subject) {
                return Some(i);
            }
            i = i + 1;
        }
        assert forall|k: int| 0 <= k < self.subjects().len() implies self.subjects()[k] != subject@ by {
            assert(self.subjects()[k] == self.entries@[k].user_address@);
        }
        None
    }

    pub fn is_whitelisted(&self, subject: &Identity) -> (r: bool)
        ensures
            r == self.is_member(subject@),
    {
        match self.find_entry(subject) {
            Some(i) => {
                assert(self.subjects()[i as int] == subject@);
                true
            },
            None => false,
        }
    }

    /// The entry record stored at `subject`'s derived address, if any.
    pub fn entry_of(&self, subject: &Identity) -> (r: Option<WhitelistEntry>)
        ensures
            match r {
                Some(e) => self.is_member(subject@) && e.user_address@ == subject@
                    && self.entries@.contains(e),
                None => !self.is_member(subject@),
            },
    {
        match self.find_entry(subject) {
            Some(i) => {
                assert(self.subjects()[i as int] == subject@);
                assert(self.entries@[i as int] == self.entries@[i as int]);
                Some(self.entries[i])
            },
            None => None,
        }
    }

    /// Creates `user`'s entry; only the admin may.
    pub fn add_to_whitelist(&mut self, signer: &Identity, user: &Identity) -> (r: Result<(), VaultError>)
        requires
            old(self).wf(),
        ensures
            r == old(self).add_result(signer@, user@),
            final(self).wf(),
            final(self).program_id == old(self).program_id,
            final(self).whitelist == old(self).whitelist,
            old(self).authorize(signer@) is Err ==> r == old(self).authorize(signer@)
                && final(self).entries == old(self).entries,
            old(self).authorize(signer@) is Ok && old(self).is_member(user@) ==>
                r == Err::<(), VaultError>(VaultError::AlreadyWhitelisted)
                && final(self).entries == old(self).entries,
            old(self).authorize(signer@) is Ok && !old(self).is_member(user@) ==>
                match program_address_of(entry_seeds(user@), old(self).program_id@) {
                    None => r == Err::<(), VaultError>(VaultError::AddressDerivationFailed)
                        && final(self).entries == old(self).entries,
                    Some((_, b)) => r is Ok
                        && final(self).entries@ == old(self).entries@.push(
                            WhitelistEntry { user_address: *user, bump: b },
                        )
                        && final(self).members() == old(self).members().insert(user@),
                },
    {
        let auth = self.check_admin(signer);
        if auth.is_err() {
            return auth;
        }
        if self.is_whitelisted(user) {
            return Err(VaultError::AlreadyWhitelisted);
        }
        match entry_address(&self.program_id, user) {
            None => Err(VaultError::AddressDerivationFailed),
            Some((_, bump)) => {
                let ghost before = self.subjects();
                self.entries.push(WhitelistEntry { user_address: *user, bump });
                assert(self.subjects() =~= before.push(user@));
                assert forall|a: int, b: int|
                    0 <= a < b < self.subjects().len() implies self.subjects()[a] != self.subjects()[b] by {
                    if b == before.len() {
                        assert(before[a] != user@) by {
                            if before[a] == user@ {
                                assert(before.contains(user@));
                            }
                        }
                    }
                }
                proof {
                    before.lemma_push_to_set_commute(user@);
                }
                Ok(())
            },
        }
    }

    /// Deletes `user`'s entry; only the admin may.
    pub fn remove_from_whitelist(&mut self, signer: &Identity, user: &Identity) -> (r: Result<(), VaultError>)
        requires
            old(self).wf(),
        ensures
            r == old(self).remove_result(signer@, user@),
            final(self).wf(),
            final(self).program_id == old(self).program_id,
            final(self).whitelist == old(self).whitelist,
            old(self).authorize(signer@) is Err ==> r == old(self).authorize(signer@)
                && final(self).entries == old(self).entries,
            old(self).authorize(signer@) is Ok && !old(self).is_member(user@) ==>
                r == Err::<(), VaultError>(VaultError::NotWhitelisted)
                && final(self).entries == old(self).entries,
            old(self).authorize(signer@) is Ok && old(self).is_member(user@) ==> r is Ok
                && final(self).members() == old(self).members().remove(user@)
                && final(self).entries@.len() + 1 == old(self).entries@.len(),
    {
        let auth = self.check_admin(signer);
        if auth.is_err() {
            return auth;
        }
        match self.find_entry(user) {
            None => Err(VaultError::NotWhitelisted),
            Some(i) => {
                let ghost before = self.subjects();
                assert(before[i as int] == user@);
                self.entries.remove(i);
                assert(self.subjects() =~= before.remove(i as int));
                let ghost after = self.subjects();
                assert forall|x: Seq<u8>| #[trigger] after.contains(x) <==> before.contains(x) && x != user@ by {
                    if after.contains(x) {
                        let k = choose|k: int| 0 <= k < after.len() && after[k] == x;
                        let j = if k < i { k } else { k + 1 };
                        assert(before[j] == x);
                        assert(j != i);
                        assert(before.contains(x));
                    }
                    if before.contains(x) && x != user@ {
                        let k = choose|k: int| 0 <= k < before.len() && before[k] == x;
                        assert(k != i);
                        if k < i {
                            assert(after[k] == x);
                        } else {
                            assert(after[k - 1] == x);
                        }
                    }
                }
                assert forall|a: int, b: int|
                    0 <= a < b < after.len() implies after[a] != after[b] by {
                    let a2 = if a < i { a } else { a + 1 };
                    let b2 = if b < i { b } else { b + 1 };
                    assert(after[a] == before[a2]);
                    assert(after[b] == before[b2]);
                }
                assert(self.members() =~= before.to_set().remove(user@));
                Ok(())
            },
        }
    }
}

/// Adding a subject a second time, with no removal in between, fails with
/// `AlreadyWhitelisted`.
pub proof fn lemma_no_double_add(before: Registry, after: Registry, signer: Seq<u8>, user: Seq<u8>)
    requires
        before.add_result(signer, user) is Ok,
        after.program_id == before.program_id,
        after.whitelist == before.whitelist,
        after.members() == before.members().insert(user),
    ensures
        after.add_result(signer, user) == Err::<(), VaultError>(VaultError::AlreadyWhitelisted),
{
    assert(after.members().contains(user));
}

/// Adding then removing a subject leaves it unauthorized, the allow-list as
/// it was and no record left behind; adding it again then succeeds as the first time did, at the same
/// derived address and bump.
pub proof fn lemma_add_remove_round_trip(
    start: Registry,
    added: Registry,
    removed: Registry,
    signer: Seq<u8>,
    user: Seq<u8>,
)
    requires
        start.add_result(signer, user) is Ok,
        added.program_id == start.program_id,
        added.whitelist == start.whitelist,
        added.members() == start.members().insert(user),
        added.entries@.len() == start.entries@.len() + 1,
        removed.program_id == added.program_id,
        removed.whitelist == added.whitelist,
        removed.members() == added.members().remove(user),
        removed.entries@.len() + 1 == added.entries@.len(),
    ensures
        added.remove_result(signer, user) is Ok,
        !removed.is_member(user),
        removed.members() == start.members(),
        removed.entries@.len() == start.entries@.len(),
        removed.add_result(signer, user) == start.add_result(signer, user),
        program_address_of(entry_seeds(user), removed.program_id@)
            == program_address_of(entry_seeds(user), start.program_id@),
{
    assert(added.members().contains(user));
    assert(!start.members().contains(user));
    assert(!removed.members().contains(user));
    assert(removed.members() =~= start.members());
}

} // verus!
