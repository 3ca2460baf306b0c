use vstd::prelude::*;

use crate::types::MempoolEntry;

verus! {

/// Does the pool hold an entry for this transaction identity?
pub open spec fn pool_contains_id(pool: Seq<MempoolEntry>, id: u64) -> bool {
    exists|i: int| 0 <= i < pool.len() && pool[i].transaction.id == id
}

/// The entries of the pool are unique by transaction identity.
pub open spec fn pool_unique(pool: Seq<MempoolEntry>) -> bool {
    forall|i: int, j: int|
        0 <= i < j < pool.len() ==> pool[i].transaction.id != pool[j].transaction.id
}

/// The store of transactions accepted but not yet included in a confirmed
/// block. Insertion deduplicates by transaction identity: an identity that is
/// already present is never counted (or relayed) a second time.
pub struct Mempool {
    entries: Vec<MempoolEntry>,
}

impl View for Mempool {
    type V = Seq<MempoolEntry>;

    closed spec fn view(&self) -> Seq<MempoolEntry> {
        self.entries@
    }
}

impl Mempool {
    /// An empty mempool.
    pub fn new() -> (m: Mempool)
        ensures
            m@ == Seq::<MempoolEntry>::empty(),
    {
        Mempool { entries: Vec::new() }
    }

    /// Whether a transaction with this identity is already pending.
    pub fn contains(&self, id: u64) -> (r: bool)
        ensures
            r == pool_contains_id(self@, id),
    {
        let mut i: usize = 0;
        while i < self.entries.len()
            invariant
                i <= self.entries.len(),
                forall|j: int| 0 <= j < i ==> self.entries@[j].transaction.id != id,
            decreases self.entries.len() - i,
        {
            if self.entries[i].transaction.id == id {
                return true;
            }
            i += 1;
        }
        false
    }

    /// Insert an entry unless its transaction identity is already present.
    /// Returns whether the entry was newly added.
    pub fn insert(&mut self, entry: MempoolEntry) -> (added: bool)
        ensures
            added == !pool_contains_id(old(self)@, entry.transaction.id),
            added ==> final(self)@ == old(self)@.push(entry),
            !added ==> final(self)@ == old(self)@,
    {
        if self.contains(entry.transaction.id) {
            false
        } else {
            self.entries.push(entry);
            true
        }
    }

    /// How many transactions are pending.
    pub fn len(&self) -> (n: usize)
        ensures
            n == self@.len(),
    {
        self.entries.len()
    }
}

} // verus!
