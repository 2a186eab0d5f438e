//! A store of records keyed by byte strings, in which no key occurs twice.

use vstd::prelude::*;
use crate::bytes::{bytes_eq, copy_bytes};
use crate::types::Record;

verus! {

struct Entry {
    key: Vec<u8>,
    record: Record,
}

/// The record that a list of entries gives for a key: that of the last entry
/// with this key, if there is one.
spec fn lookup(entries: Seq<Entry>, key: Seq<u8>) -> Option<Record>
    decreases entries.len(),
{
    if entries.len() == 0 {
        None
    } else if entries.last().key@ == key {
        Some(entries.last().record)
    } else {
        lookup(entries.drop_last(), key)
    }
}

spec fn distinct_keys(entries: Seq<Entry>) -> bool {
    forall|i: int, j: int|
        0 <= i < j < entries.len() ==> (#[trigger] entries[i]).key@ != (#[trigger] entries[j]).key@
}

proof fn lemma_lookup_absent(entries: Seq<Entry>, key: Seq<u8>)
    requires
        forall|j: int| 0 <= j < entries.len() ==> (#[trigger] entries[j]).key@ != key,
    ensures
        lookup(entries, key) is None,
    decreases entries.len(),
{
    if entries.len() > 0 {
        lemma_lookup_absent(entries.drop_last(), key);
    }
}

proof fn lemma_lookup_remove(entries: Seq<Entry>, at: int, key: Seq<u8>)
    requires
        distinct_keys(entries),
        0 <= at < entries.len(),
    ensures
        lookup(entries.remove(at), key) == (if key == entries[at].key@ {
            None
        } else {
            lookup(entries, key)
        }),
    decreases entries.len(),
{
    let rest = entries.drop_last();
    if at == entries.len() - 1 {
        assert(entries.remove(at) =~= rest);
        if key == entries[at].key@ {
            assert forall|j: int| 0 <= j < rest.len() implies (#[trigger] rest[j]).key@ != key by {
                assert(rest[j] == entries[j]);
            }
            lemma_lookup_absent(rest, key);
        }
    } else {
        let removed = entries.remove(at);
        assert(removed.last() == entries.last());
        assert(removed.drop_last() =~= rest.remove(at));
        assert(distinct_keys(rest)) by {
            assert forall|i: int, j: int| 0 <= i < j < rest.len() implies (#[trigger] rest[i]).key@
                != (#[trigger] rest[j]).key@ by {
                assert(rest[i] == entries[i] && rest[j] == entries[j]);
            }
        }
        assert(rest[at] == entries[at]);
        lemma_lookup_remove(rest, at, key);
    }
}

/// The value that a map holds for a key, if it holds one.
pub open spec fn record_of(map: Map<Seq<u8>, Record>, key: Seq<u8>) -> Option<Record> {
    if map.contains_key(key) {
        Some(map[key])
    } else {
        None
    }
}

/// Records by key. Its view is the map from each key to its record.
pub struct RecordMap {
    entries: Vec<Entry>,
}

impl RecordMap {
    pub closed spec fn view(&self) -> Map<Seq<u8>, Record> {
        Map::new(
            |key: Seq<u8>| lookup(self.entries@, key) is Some,
            |key: Seq<u8>| lookup(self.entries@, key)->0,
        )
    }

    /// No key occurs twice.
    pub closed spec fn wf(&self) -> bool {
        distinct_keys(self.entries@)
    }

    /// The empty store.
    pub fn new() -> (store: Self)
        ensures
            store.wf(),
            store@ == Map::<Seq<u8>, Record>::empty(),
    {
        let store = RecordMap { entries: Vec::new() };
        assert(store@ =~= Map::<Seq<u8>, Record>::empty());
        store
    }

    /// The place of the entry with this key.
    fn find(&self, key: &[u8]) -> (place: Option<usize>)
        ensures
            match place {
                Some(at) => at < self.entries@.len() && self.entries@[at as int].key@ == key@
                    && lookup(self.entries@, key@) == Some(self.entries@[at as int].record),
                None => lookup(self.entries@, key@) is None && forall|j: int|
                    0 <= j < self.entries@.len() ==> (#[trigger] self.entries@[j]).key@ != key@,
            },
    {
        let mut i: usize = self.entries.len();
        assert(self.entries@.take(i as int) =~= self.entries@);
        while i > 0
            invariant
                i <= self.entries@.len(),
                lookup(self.entries@, key@) == lookup(self.entries@.take(i as int), key@),
                forall|j: int|
                    i <= j < self.entries@.len() ==> (#[trigger] self.entries@[j]).key@ != key@,
            decreases i,
        {
            i = i - 1;
            proof {
                let upto = self.entries@.take(i + 1);
                assert(upto.last() == self.entries@[i as int]);
                assert(upto.drop_last() =~= self.entries@.take(i as int));
            }
            if bytes_eq(self.entries[i].key.as_slice(), key) {
                return Some(i);
            }
        }
        None
    }

    /// The record kept for `key`, if there is one.
    pub fn get(&self, key: &[u8]) -> (found: Option<Record>)
        ensures
            found == record_of(self@, key@),
    {
        match self.find(key) {
            Some(at) => Some(self.entries[at].record),
            None => None,
        }
    }

    /// Drops the record kept for `key`, if there is one.
    pub fn remove(&mut self, key: &[u8])
        requires
            old(self).wf(),
        ensures
            final(self).wf(),
            final(self)@ == old(self)@.remove(key@),
    {
        self.take_out(key);
    }

    fn take_out(&mut self, key: &[u8])
        requires
            distinct_keys(old(self).entries@),
        ensures
            distinct_keys(final(self).entries@),
            final(self)@ == old(self)@.remove(key@),
            forall|j: int|
                0 <= j < final(self).entries@.len() ==> (#[trigger] final(self).entries@[j]).key@
                    != key@,
    {
        let ghost before = self.entries@;
        match self.find(key) {
            Some(at) => {
                self.entries.remove(at);
                proof {
                    let after = self.entries@;
                    assert forall|k: Seq<u8>| lookup(after, k) == (if k == key@ {
                        None
                    } else {
                        lookup(before, k)
                    }) by {
                        lemma_lookup_remove(before, at as int, k);
                    }
                    assert forall|j: int| 0 <= j < after.len() implies (#[trigger] after[j]).key@
                        != key@ by {
                        if j < at {
                            assert(after[j] == before[j]);
                        } else {
                            assert(after[j] == before[j + 1]);
                        }
                    }
                    assert forall|i: int, j: int| 0 <= i < j < after.len() implies (
                    #[trigger] after[i]).key@ != (#[trigger] after[j]).key@ by {
                        let i0 = if i < at { i } else { i + 1 };
                        let j0 = if j < at { j } else { j + 1 };
                        assert(after[i] == before[i0] && after[j] == before[j0]);
                    }
                }
            },
            None => {},
        }
        assert(self@ =~= old(self)@.remove(key@));
    }

    /// Keeps `record` for `key`, in place of what was kept for it before.
    pub fn insert(&mut self, key: &[u8], record: Record)
        requires
            old(self).wf(),
        ensures
            final(self).wf(),
            final(self)@ == old(self)@.insert(key@, record),
    {
        self.take_out(key);
        let ghost rest = self.entries@;
        let entry = Entry { key: copy_bytes(key), record };
        self.entries.push(entry);
        proof {
            let after = self.entries@;
            assert(after.drop_last() =~= rest);
            assert(after.last().key@ == key@ && after.last().record == record);
            assert forall|i: int, j: int| 0 <= i < j < after.len() implies (#[trigger] after[i]).key@
                != (#[trigger] after[j]).key@ by {
                assert(after[i] == rest[i]);
                if j < rest.len() {
                    assert(after[j] == rest[j]);
                }
            }
            assert forall|k: Seq<u8>| lookup(after, k) == (if k == key@ {
                Some(record)
            } else {
                lookup(rest, k)
            }) by {}
            let kept = Map::new(
                |k: Seq<u8>| lookup(rest, k) is Some,
                |k: Seq<u8>| lookup(rest, k)->0,
            );
            assert(kept == old(self)@.remove(key@));
            assert(self@ =~= kept.insert(key@, record));
            assert(kept.insert(key@, record) =~= old(self)@.insert(key@, record));
        }
    }
}

} // verus!
