//! The operation ledger: the lock time recorded for each operation id.

use crate::types::bytes32_eq;
use vstd::prelude::*;

verus! {

broadcast use vstd::array::group_array_axioms;

/// One record of the ledger.
#[derive(Copy, Clone, Debug, PartialEq, Eq)]
pub struct LedgerEntry {
    pub id: [u8; 32],
    pub lock_time: u64,
}

/// The lock time that a list of records gives an id: that of the last record
/// with this id, and 0 where there is none.
pub open spec fn lookup(entries: Seq<LedgerEntry>, id: [u8; 32]) -> u64
    decreases entries.len(),
{
    if entries.len() == 0 {
        0
    } else if entries.last().id == id {
        entries.last().lock_time
    } else {
        lookup(entries.drop_last(), id)
    }
}

/// Records without the given id have lock time 0 for it.
pub proof fn lemma_lookup_absent(entries: Seq<LedgerEntry>, id: [u8; 32])
    requires
        forall|i: int| 0 <= i < entries.len() ==> (#[trigger] entries[i]).id != id,
    ensures
        lookup(entries, id) == 0,
    decreases entries.len(),
{
    if entries.len() > 0 {
        lemma_lookup_absent(entries.drop_last(), id);
    }
}

/// The lock times of all operations. An id without a record has lock time 0.
#[derive(Debug)]
pub struct OperationLedger {
    entries: Vec<LedgerEntry>,
}

impl View for OperationLedger {
    type V = Map<[u8; 32], u64>;

    closed spec fn view(&self) -> Map<[u8; 32], u64> {
        Map::total(|id: [u8; 32]| lookup(self.entries@, id))
    }
}

impl OperationLedger {
    /// The lock time recorded for `id`.
    pub open spec fn lock_time(&self, id: [u8; 32]) -> u64 {
        self@[id]
    }

    /// A ledger without records.
    pub fn new() -> (out: OperationLedger)
        ensures
            out@ == Map::total(|id: [u8; 32]| 0u64),
    {
        let out = OperationLedger { entries: Vec::new() };
        assert(out@ =~= Map::total(|id: [u8; 32]| 0u64));
        out
    }

    /// The ledger that holds the given records, later ones first in rank.
    pub fn from_entries(entries: Vec<LedgerEntry>) -> (out: OperationLedger)
        ensures
            out@ == Map::total(|id: [u8; 32]| lookup(entries@, id)),
    {
        OperationLedger { entries }
    }

    /// The records that make up the ledger.
    pub fn entries(&self) -> (out: &Vec<LedgerEntry>)
        ensures
            self@ == Map::total(|id: [u8; 32]| lookup(out@, id)),
    {
        &self.entries
    }

    /// The lock time recorded for `id`; 0 where there is none.
    pub fn get(&self, id: &[u8; 32]) -> (out: u64)
        ensures
            out == self.lock_time(*id),
    {
        let mut i: usize = self.entries.len();
        assert(self.entries@.subrange(0, i as int) == self.entries@);
        while i > 0
            invariant
                i <= self.entries@.len(),
                lookup(self.entries@, *id) == lookup(self.entries@.subrange(0, i as int), *id),
            decreases i,
        {
            i -= 1;
            let ghost prefix = self.entries@.subrange(0, i + 1);
            assert(prefix.last() == self.entries@[i as int]);
            assert(prefix.drop_last() == self.entries@.subrange(0, i as int));
            if bytes32_eq(&self.entries[i].id, id) {
                return self.entries[i].lock_time;
            }
        }
        0
    }

    /// Forgets the lock time of `id`: it is 0 afterwards.
    pub fn remove(&mut self, id: &[u8; 32])
        ensures
            final(self)@ == old(self)@.insert(*id, 0),
    {
        let mut kept: Vec<LedgerEntry> = Vec::new();
        let mut i: usize = 0;
        while i < self.entries.len()
            invariant
                i <= self.entries@.len(),
                self.entries@ == old(self).entries@,
                forall|j: int| 0 <= j < kept@.len() ==> (#[trigger] kept@[j]).id != *id,
                forall|other: [u8; 32]|
                    other != *id ==> lookup(kept@, other) == lookup(
                        self.entries@.subrange(0, i as int),
                        other,
                    ),
            decreases self.entries@.len() - i,
        {
            let entry = self.entries[i];
            let ghost before = kept@;
            let ghost prefix = self.entries@.subrange(0, i + 1);
            assert(prefix.last() == entry);
            assert(prefix.drop_last() == self.entries@.subrange(0, i as int));
            if !bytes32_eq(&entry.id, id) {
                kept.push(entry);
                assert(kept@.drop_last() == before);
                assert(kept@.last() == entry);
            }
            assert forall|other: [u8; 32]| other != *id implies lookup(kept@, other) == lookup(
                prefix,
                other,
            ) by {
                assert(lookup(before, other) == lookup(prefix.drop_last(), other));
            }
            i += 1;
        }
        proof {
            assert(self.entries@.subrange(0, i as int) == self.entries@);
            lemma_lookup_absent(kept@, *id);
        }
        self.entries = kept;
        assert(self@ =~= old(self)@.insert(*id, 0));
    }

    /// Records `lock_time` for `id`.
    pub fn set(&mut self, id: &[u8; 32], lock_time: u64)
        ensures
            final(self)@ == old(self)@.insert(*id, lock_time),
    {
        self.remove(id);
        let ghost before = self.entries@;
        let ghost cleared = self@;
        self.entries.push(LedgerEntry { id: *id, lock_time });
        assert(self.entries@.drop_last() == before);
        assert forall|other: [u8; 32]| #[trigger]
            lookup(self.entries@, other) == old(self)@.insert(*id, lock_time)[other] by {
            assert(cleared[other] == lookup(before, other));
        }
        assert(self@ =~= old(self)@.insert(*id, lock_time));
    }
}

} // verus!
