//! The role store: which account holds which role.

use crate::config::RoleLabel;
use crate::types::Address;
use vstd::prelude::*;

verus! {

broadcast use vstd::array::group_array_axioms;

/// The key under which a grant is stored: the role, with the account.
#[derive(Copy, Clone, Debug, PartialEq, Eq)]
pub enum RoleKey {
    Proposers(Address),
    Cancellers(Address),
    Executors(Address),
}

/// The key of the grant of `role` to `account`.
pub open spec fn role_key(account: Address, role: RoleLabel) -> RoleKey {
    match role {
        RoleLabel::Proposer => RoleKey::Proposers(account),
        RoleLabel::Executor => RoleKey::Executors(account),
        RoleLabel::Canceller => RoleKey::Cancellers(account),
    }
}

impl RoleKey {
    /// The key of the grant of `role` to `account`.
    pub fn new(account: &Address, role: &RoleLabel) -> (out: RoleKey)
        ensures
            out == role_key(*account, *role),
    {
        match role {
            RoleLabel::Proposer => RoleKey::Proposers(*account),
            RoleLabel::Executor => RoleKey::Executors(*account),
            RoleLabel::Canceller => RoleKey::Cancellers(*account),
        }
    }

    /// Whether two keys are the same.
    pub fn same(&self, other: &RoleKey) -> (out: bool)
        ensures
            out == (*self == *other),
    {
        match (self, other) {
            (RoleKey::Proposers(a), RoleKey::Proposers(b)) => a.same(b),
            (RoleKey::Cancellers(a), RoleKey::Cancellers(b)) => a.same(b),
            (RoleKey::Executors(a), RoleKey::Executors(b)) => a.same(b),
            _ => false,
        }
    }
}

/// The grants in force. A grant is present or absent; nothing else is kept.
#[derive(Debug)]
pub struct RoleStore {
    keys: Vec<RoleKey>,
}

impl View for RoleStore {
    type V = Set<RoleKey>;

    closed spec fn view(&self) -> Set<RoleKey> {
        Set::new(|key: RoleKey| self.keys@.contains(key))
    }
}

impl RoleStore {
    /// Whether `account` holds `role`.
    pub open spec fn holds(&self, account: Address, role: RoleLabel) -> bool {
        self@.contains(role_key(account, role))
    }

    /// A store without grants.
    pub fn new() -> (out: RoleStore)
        ensures
            out@ == Set::<RoleKey>::empty(),
    {
        let out = RoleStore { keys: Vec::new() };
        assert(out@ =~= Set::<RoleKey>::empty());
        out
    }

    /// The store that holds the given grants.
    pub fn from_keys(keys: Vec<RoleKey>) -> (out: RoleStore)
        ensures
            out@ == Set::new(|key: RoleKey| keys@.contains(key)),
    {
        RoleStore { keys }
    }

    /// The grants in force, as a list.
    pub fn keys(&self) -> (out: &Vec<RoleKey>)
        ensures
            self@ == Set::new(|key: RoleKey| out@.contains(key)),
    {
        &self.keys
    }

    /// Whether the grant `key` is in force.
    pub fn is_role(&self, key: &RoleKey) -> (out: bool)
        ensures
            out == self@.contains(*key),
    {
        let mut i: usize = 0;
        while i < self.keys.len()
            invariant
                i <= self.keys@.len(),
                forall|j: int| 0 <= j < i ==> self.keys@[j] != *key,
            decreases self.keys@.len() - i,
        {
            if self.keys[i].same(key) {
                return true;
            }
            i += 1;
        }
        false
    }

    /// Puts the grant `key` in force; tells whether it was new.
    pub fn set_role(&mut self, key: &RoleKey) -> (out: bool)
        ensures
            out == !old(self)@.contains(*key),
            final(self)@ == old(self)@.insert(*key),
    {
        if !self.is_role(key) {
            let ghost before = self.keys@;
            self.keys.push(*key);
            assert forall|k: RoleKey| self.keys@.contains(k) <==> (before.contains(k) || k
                == *key) by {
                if before.contains(k) {
                    let j = choose|j: int| 0 <= j < before.len() && before[j] == k;
                    assert(self.keys@[j] == k);
                }
                if k == *key {
                    assert(self.keys@[before.len() as int] == k);
                }
            }
            assert(self@ =~= old(self)@.insert(*key));
            true
        } else {
            assert(self@ =~= old(self)@.insert(*key));
            false
        }
    }

    /// Takes the grant `key` out of force; tells whether it was in force.
    pub fn unset_role(&mut self, key: &RoleKey) -> (out: bool)
        ensures
            out == old(self)@.contains(*key),
            final(self)@ == old(self)@.remove(*key),
    {
        if self.is_role(key) {
            let mut kept: Vec<RoleKey> = Vec::new();
            let mut i: usize = 0;
            while i < self.keys.len()
                invariant
                    i <= self.keys@.len(),
                    self.keys@ == old(self).keys@,
                    forall|k: RoleKey| #[trigger]
                        kept@.contains(k) ==> k != *key && self.keys@.subrange(
                            0,
                            i as int,
                        ).contains(k),
                    forall|k: RoleKey|
                        k != *key && #[trigger] self.keys@.subrange(0, i as int).contains(k)
                            ==> kept@.contains(k),
                decreases self.keys@.len() - i,
            {
                let current = self.keys[i];
                let ghost before = kept@;
                let ghost prefix = self.keys@.subrange(0, i as int);
                let ghost next = self.keys@.subrange(0, i + 1);
                assert(next == prefix.push(current));
                let keep = !current.same(key);
                if keep {
                    kept.push(current);
                }
                proof {
                    assert forall|k: RoleKey| #[trigger] kept@.contains(k) implies k != *key
                        && next.contains(k) by {
                        let j = choose|j: int| 0 <= j < kept@.len() && kept@[j] == k;
                        if j < before.len() {
                            assert(before[j] == k);
                            assert(before.contains(k));
                            let m = choose|m: int| 0 <= m < prefix.len() && prefix[m] == k;
                            assert(next[m] == k);
                        } else {
                            assert(next[i as int] == k);
                        }
                    }
                    assert forall|k: RoleKey|
                        k != *key && #[trigger] next.contains(k) implies kept@.contains(k) by {
                        let j = choose|j: int| 0 <= j < next.len() && next[j] == k;
                        if j < prefix.len() {
                            assert(prefix[j] == k);
                            assert(prefix.contains(k));
                            assert(before.contains(k));
                            let m = choose|m: int| 0 <= m < before.len() && before[m] == k;
                            assert(kept@[m] == k);
                        } else {
                            assert(kept@[before.len() as int] == k);
                        }
                    }
                }
                i += 1;
            }
            assert(self.keys@.subrange(0, i as int) == self.keys@);
            self.keys = kept;
            assert(self@ =~= old(self)@.remove(*key));
            true
        } else {
            assert(self@ =~= old(self)@.remove(*key));
            false
        }
    }
}

} // verus!
