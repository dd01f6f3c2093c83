//! The content-addressed key/value store that nodes are kept in, and an
//! in-memory store.

use crate::hash::Bytes32;
use crate::primitive::Primitive;
use vstd::prelude::*;

verus! {

/// Read access to a store of primitives keyed by 32-byte digests.
pub trait StorageInspect {
    type Error;

    /// What the store holds, by key.
    spec fn contents(&self) -> Map<Seq<u8>, Primitive>;

    /// The primitive stored under `key`, if any; a store may also fail.
    fn get(&self, key: &Bytes32) -> (r: Result<Option<Primitive>, Self::Error>)
        ensures
            r is Ok ==> r->Ok_0 == (if self.contents().contains_key(key@) {
                Some(self.contents()[key@])
            } else {
                None
            }),
    ;
}

/// Write access to a store.
pub trait StorageMutate: StorageInspect {
    /// Stores `value` under `key`; returns what was there before.
    fn insert(&mut self, key: &Bytes32, value: &Primitive) -> (r: Result<
        Option<Primitive>,
        Self::Error,
    >)
        ensures
            r is Ok ==> final(self).contents() == old(self).contents().insert(key@, *value),
            r is Ok ==> r->Ok_0 == (if old(self).contents().contains_key(key@) {
                Some(old(self).contents()[key@])
            } else {
                None
            }),
            r is Err ==> final(self).contents() == old(self).contents(),
    ;

    /// Removes what is stored under `key`; returns it.
    fn remove(&mut self, key: &Bytes32) -> (r: Result<Option<Primitive>, Self::Error>)
        ensures
            r is Ok ==> final(self).contents() == old(self).contents().remove(key@),
            r is Ok ==> r->Ok_0 == (if old(self).contents().contains_key(key@) {
                Some(old(self).contents()[key@])
            } else {
                None
            }),
            r is Err ==> final(self).contents() == old(self).contents(),
    ;
}

fn same_key(a: &Bytes32, b: &Bytes32) -> (r: bool)
    ensures
        r == (a@ == b@),
{
    let mut i: usize = 0;
    while i < 32
        invariant
            i <= 32,
            forall|k: int| 0 <= k < i ==> a@[k] == b@[k],
        decreases 32 - i,
    {
        if a[i] != b[i] {
            return false;
        }
        i = i + 1;
    }
    assert(a@ =~= b@);
    true
}

/// The map that a list of entries describes; a later entry for a key hides
/// an earlier one.
pub open spec fn entries_map(entries: Seq<(Bytes32, Primitive)>) -> Map<Seq<u8>, Primitive>
    decreases entries.len(),
{
    if entries.len() == 0 {
        Map::empty()
    } else {
        entries_map(entries.drop_last()).insert(entries.last().0@, entries.last().1)
    }
}

/// A store held in memory.
#[derive(Debug)]
pub struct StorageMap {
    entries: Vec<(Bytes32, Primitive)>,
}

impl StorageMap {
    /// An empty store.
    pub fn new() -> (r: StorageMap)
        ensures
            r.contents() == Map::<Seq<u8>, Primitive>::empty(),
    {
        StorageMap { entries: Vec::new() }
    }

    /// What is stored under `key`.
    fn lookup(&self, key: &Bytes32) -> (r: Option<Primitive>)
        ensures
            r == (if self.contents().contains_key(key@) {
                Some(self.contents()[key@])
            } else {
                None
            }),
    {
        let ghost all = self.entries@;
        let mut i: usize = self.entries.len();
        assert(all.subrange(0, i as int) =~= all);
        while i > 0
            invariant
                i <= all.len(),
                all == self.entries@,
                entries_map(all).contains_key(key@) == entries_map(
                    all.subrange(0, i as int),
                ).contains_key(key@),
                entries_map(all).contains_key(key@) ==> entries_map(all)[key@] == entries_map(
                    all.subrange(0, i as int),
                )[key@],
            decreases i,
        {
            i = i - 1;
            assert(all.subrange(0, i + 1).drop_last() =~= all.subrange(0, i as int));
            if same_key(&self.entries[i].0, key) {
                return Some(self.entries[i].1);
            }
        }
        None
    }
}

impl StorageInspect for StorageMap {
    type Error = core::convert::Infallible;

    closed spec fn contents(&self) -> Map<Seq<u8>, Primitive> {
        entries_map(self.entries@)
    }

    fn get(&self, key: &Bytes32) -> (r: Result<Option<Primitive>, core::convert::Infallible>)
        ensures
            r is Ok,
    {
        Ok(self.lookup(key))
    }
}

impl StorageMutate for StorageMap {
    fn insert(&mut self, key: &Bytes32, value: &Primitive) -> (r: Result<
        Option<Primitive>,
        core::convert::Infallible,
    >)
        ensures
            r is Ok,
    {
        let previous = self.lookup(key);
        self.entries.push((*key, *value));
        assert(self.entries@.drop_last() =~= old(self).entries@);
        Ok(previous)
    }

    fn remove(&mut self, key: &Bytes32) -> (r: Result<Option<Primitive>, core::convert::Infallible>)
        ensures
            r is Ok,
    {
        let previous = self.lookup(key);
        let ghost all = self.entries@;
        let mut kept: Vec<(Bytes32, Primitive)> = Vec::new();
        let mut i: usize = 0;
        while i < self.entries.len()
            invariant
                i <= all.len(),
                all == self.entries@,
                entries_map(kept@) == entries_map(all.subrange(0, i as int)).remove(key@),
            decreases all.len() - i,
        {
            let entry = self.entries[i];
            assert(all.subrange(0, i + 1).drop_last() =~= all.subrange(0, i as int));
            if same_key(&entry.0, key) {
                assert(entries_map(all.subrange(0, i + 1)).remove(key@) =~= entries_map(
                    all.subrange(0, i as int),
                ).remove(key@));
            } else {
                let ghost before = kept@;
                kept.push(entry);
                assert(kept@.drop_last() =~= before);
                assert(entries_map(kept@) =~= entries_map(all.subrange(0, i + 1)).remove(key@));
            }
            i = i + 1;
        }
        assert(all.subrange(0, i as int) =~= all);
        self.entries = kept;
        Ok(previous)
    }
}

} // verus!
