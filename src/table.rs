//! A table of records keyed by address: each address holds at most one record.
use crate::address::Address;
use vstd::prelude::*;

verus! {

/// Records stored under distinct addresses, in the order they were created.
pub struct Table<R> {
    keys: Vec<Address>,
    records: Vec<R>,
}

impl<R: View> Table<R> {
    /// The position of the record stored under `k`.
    spec fn index_of(&self, k: Seq<u8>) -> int {
        choose|i: int| 0 <= i < self.keys@.len() && self.keys@[i]@ == k
    }

    /// The records, by the bytes of their address.
    pub closed spec fn view(&self) -> Map<Seq<u8>, R::V> {
        Map::new(
            |k: Seq<u8>| exists|i: int| 0 <= i < self.keys@.len() && self.keys@[i]@ == k,
            |k: Seq<u8>| self.records@[self.index_of(k)]@,
        )
    }

    /// One record per key, no address used twice.
    pub closed spec fn wf(&self) -> bool {
        &&& self.keys@.len() == self.records@.len()
        &&& forall|i: int, j: int|
            0 <= i < self.keys@.len() && 0 <= j < self.keys@.len() && i != j
                ==> self.keys@[i]@ != self.keys@[j]@
    }

    proof fn lemma_at(&self, i: int)
        requires
            self.wf(),
            0 <= i < self.keys@.len(),
        ensures
            self.view().contains_key(self.keys@[i]@),
            self.view()[self.keys@[i]@] == self.records@[i]@,
    {
        let k = self.keys@[i]@;
        assert(exists|j: int| 0 <= j < self.keys@.len() && self.keys@[j]@ == k);
        let j = self.index_of(k);
        assert(i == j);
    }

    /// An empty table.
    pub fn new() -> (r: Self)
        ensures
            r.wf(),
            r.view() == Map::<Seq<u8>, R::V>::empty(),
    {
        let r = Table { keys: Vec::new(), records: Vec::new() };
        assert(r.view() =~= Map::<Seq<u8>, R::V>::empty());
        r
    }

    fn position(&self, k: &Address) -> (r: Option<usize>)
        requires
            self.wf(),
        ensures
            match r {
                Some(i) => i < self.keys@.len() && self.keys@[i as int]@ == k@,
                None => !self.view().contains_key(k@),
            },
    {
        let mut i: usize = 0;
        while i < self.keys.len()
            invariant
                self.wf(),
                i <= self.keys@.len(),
                forall|j: int| 0 <= j < i ==> self.keys@[j]@ != k@,
            decreases self.keys@.len() - i,
        {
            if self.keys[i].same(k) {
                return Some(i);
            }
            i = i + 1;
        }
        None
    }

    /// Whether a record is stored under `k`.
    pub fn contains(&self, k: &Address) -> (r: bool)
        requires
            self.wf(),
        ensures
            r == self.view().contains_key(k@),
    {
        match self.position(k) {
            Some(i) => {
                proof {
                    self.lemma_at(i as int);
                }
                true
            },
            None => false,
        }
    }

    /// The record stored under `k`, if any.
    pub fn get(&self, k: &Address) -> (r: Option<&R>)
        requires
            self.wf(),
        ensures
            match r {
                Some(x) => self.view().contains_key(k@) && x@ == self.view()[k@],
                None => !self.view().contains_key(k@),
            },
    {
        match self.position(k) {
            Some(i) => {
                proof {
                    self.lemma_at(i as int);
                }
                Some(&self.records[i])
            },
            None => None,
        }
    }

    /// Stores `record` under `k`, where no record is stored yet.
    pub fn insert(&mut self, k: Address, record: R)
        requires
            old(self).wf(),
            !old(self).view().contains_key(k@),
        ensures
            final(self).wf(),
            final(self).view() == old(self).view().insert(k@, record@),
    {
        let ghost before = *self;
        self.keys.push(k);
        self.records.push(record);
        let ghost n: int = self.keys@.len() - 1;
        assert forall|i: int| 0 <= i < n implies self.keys@[i]@ != k@ by {
            if self.keys@[i]@ == k@ {
                before.lemma_at(i);
            }
        }
        assert forall|key: Seq<u8>| #[trigger] self.view().contains_key(key) implies key != k@ ==> before.view().contains_key(key) && self.view()[key] == before.view()[key] by {
            if key != k@ {
                let j = self.index_of(key);
                before.lemma_at(j);
                self.lemma_at(j);
            }
        }
        assert forall|key: Seq<u8>| #[trigger] before.view().contains_key(key) implies self.view().contains_key(key) by {
            let j = before.index_of(key);
            self.lemma_at(j);
        }
        proof {
            self.lemma_at(n);
        }
        assert(self.view() =~= before.view().insert(k@, record@));
    }

    /// Replaces the record stored under `k`.
    pub fn set(&mut self, k: &Address, record: R)
        requires
            old(self).wf(),
            old(self).view().contains_key(k@),
        ensures
            final(self).wf(),
            final(self).view() == old(self).view().insert(k@, record@),
    {
        let ghost before = *self;
        let i = self.position(k).unwrap();
        self.records.set(i, record);
        assert forall|key: Seq<u8>| #[trigger] self.view().contains_key(key) implies key != k@ ==> self.view()[key] == before.view()[key] by {
            if key != k@ {
                let j = self.index_of(key);
                before.lemma_at(j);
                self.lemma_at(j);
            }
        }
        assert forall|key: Seq<u8>| #[trigger] before.view().contains_key(key) implies self.view().contains_key(key) by {
            let j = before.index_of(key);
            self.lemma_at(j);
        }
        proof {
            self.lemma_at(i as int);
        }
        assert(self.view() =~= before.view().insert(k@, record@));
    }
}

} // verus!
