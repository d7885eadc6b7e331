//! The persistent store: for each caller the bytes last written in the
//! caller's name. A caller for whom nothing was written yet holds the empty
//! byte sequence. A write of the bytes that a caller holds already is turned
//! away and changes nothing.

use vstd::prelude::*;
use crate::identity::AccountId;

verus! {

/// The write would store what is stored already.
#[derive(Debug, Copy, Clone, PartialEq, Eq, Structural)]
pub struct DuplicateValue;

/// What is stored under `key` in `entries`: the empty sequence where nothing
/// was written.
pub open spec fn stored(entries: Map<Seq<u8>, Seq<u8>>, key: Seq<u8>) -> Seq<u8> {
    if entries.contains_key(key) {
        entries[key]
    } else {
        Seq::empty()
    }
}

/// What a write of `value` under `key` answers, and what is stored after it.
pub open spec fn spec_put(entries: Map<Seq<u8>, Seq<u8>>, key: Seq<u8>, value: Seq<u8>) -> (
    Result<(), DuplicateValue>,
    Map<Seq<u8>, Seq<u8>>,
) {
    if stored(entries, key) == value {
        (Err(DuplicateValue), entries)
    } else {
        (Ok(()), entries.insert(key, value))
    }
}

/// Writing the same value twice under one key: the first write goes through
/// if the value is new, the second is turned away as a duplicate, and the
/// second changes nothing.
pub proof fn lemma_second_put_is_duplicate(
    entries: Map<Seq<u8>, Seq<u8>>,
    key: Seq<u8>,
    value: Seq<u8>,
)
    requires
        stored(entries, key) != value,
    ensures
        spec_put(entries, key, value).0 == Ok::<(), DuplicateValue>(()),
        spec_put(spec_put(entries, key, value).1, key, value) == (
            Err::<(), DuplicateValue>(DuplicateValue),
            spec_put(entries, key, value).1,
        ),
{
}

/// A write that is turned away leaves the store as it was, and a write that
/// goes through changes what is stored under its key and nothing else.
pub proof fn lemma_put_touches_one_key(
    entries: Map<Seq<u8>, Seq<u8>>,
    key: Seq<u8>,
    value: Seq<u8>,
    other: Seq<u8>,
)
    ensures
        spec_put(entries, key, value).0 is Err ==> spec_put(entries, key, value).1 == entries,
        stored(spec_put(entries, key, value).1, key) == value,
        other != key ==> stored(spec_put(entries, key, value).1, other) == stored(entries, other),
{
}

/// One caller's bytes.
#[derive(Debug, Clone, PartialEq, Eq)]
struct Entry {
    key: AccountId,
    blob: Vec<u8>,
}

/// The persistent store.
#[derive(Debug, PartialEq, Eq)]
pub struct Store {
    entries: Vec<Entry>,
}

impl View for Store {
    type V = Map<Seq<u8>, Seq<u8>>;

    closed spec fn view(&self) -> Map<Seq<u8>, Seq<u8>> {
        Map::new(
            |key: Seq<u8>| self.holds(key),
            |key: Seq<u8>| self.entries@[self.index_of(key)].blob@,
        )
    }
}

impl Store {
    /// Whether an entry is kept for `key`.
    spec fn holds(self, key: Seq<u8>) -> bool {
        exists|i: int| 0 <= i < self.entries@.len() && #[trigger] self.entries@[i].key@ == key
    }

    /// The place of the entry kept for `key`.
    spec fn index_of(self, key: Seq<u8>) -> int {
        choose|i: int| 0 <= i < self.entries@.len() && #[trigger] self.entries@[i].key@ == key
    }

    /// No key is kept twice.
    #[verifier::type_invariant]
    spec fn distinct_keys(self) -> bool {
        forall|i: int, j: int|
            0 <= i < j < self.entries@.len() ==> #[trigger] self.entries@[i].key@
                != #[trigger] self.entries@[j].key@
    }

    /// The store in which nothing was written yet.
    pub fn new() -> (store: Store)
        ensures
            store@ == Map::<Seq<u8>, Seq<u8>>::empty(),
    {
        let store = Store { entries: Vec::new() };
        assert(store@ =~= Map::<Seq<u8>, Seq<u8>>::empty());
        store
    }

    /// The place of the entry kept for `who`, if there is one.
    fn find(&self, who: &AccountId) -> (at: Option<usize>)
        ensures
            match at {
                Some(i) => i < self.entries@.len() && self.entries@[i as int].key@ == who@
                    && self.holds(who@) && self.index_of(who@) == i,
                None => !self.holds(who@),
            },
    {
        proof {
            use_type_invariant(self);
        }
        let mut i: usize = 0;
        while i < self.entries.len()
            invariant
                i <= self.entries@.len(),
                forall|k: int| 0 <= k < i ==> #[trigger] self.entries@[k].key@ != who@,
            decreases self.entries@.len() - i,
        {
            if self.entries[i].key.same_as(who) {
                proof {
                    use_type_invariant(self);
                    let j = self.index_of(who@);
                    if i < j {
                        assert(self.entries@[i as int].key@ != self.entries@[j].key@);
                    }
                }
                return Some(i);
            }
            i = i + 1;
        }
        None
    }

    /// The bytes that `who` holds: the empty sequence if nothing was
    /// written in that name.
    pub fn get(&self, who: &AccountId) -> (blob: Vec<u8>)
        ensures
            blob@ == stored(self@, who@),
    {
        match self.find(who) {
            Some(i) => {
                let blob = self.entries[i].blob.clone();
                assert(blob@ =~= self.entries@[i as int].blob@);
                blob
            },
            None => Vec::new(),
        }
    }

    /// Writes `blob` in the name of `who`, unless `who` holds just these
    /// bytes already: then the write is turned away and nothing changes.
    pub fn put(&mut self, who: AccountId, blob: Vec<u8>) -> (r: Result<(), DuplicateValue>)
        ensures
            (r, final(self)@) == spec_put(old(self)@, who@, blob@),
    {
        let ghost before = *self;
        let ghost key = who@;
        let ghost value = blob@;
        proof {
            use_type_invariant(&*self);
        }
        let found: Option<usize> = self.find(&who);
        match found {
            Some(i) => {
                if bytes_equal(&self.entries[i].blob, &blob) {
                    return Err(DuplicateValue);
                }
            },
            None => {
                if blob.len() == 0 {
                    assert(value =~= Seq::<u8>::empty());
                    return Err(DuplicateValue);
                }
            },
        }
        // The entries leave the store while they change, and come back as a whole.
        let mut entries: Vec<Entry> = Vec::new();
        core::mem::swap(&mut self.entries, &mut entries);
        match found {
            Some(i) => {
                entries.set(i, Entry { key: who, blob });
            },
            None => {
                entries.push(Entry { key: who, blob });
            },
        }
        let ghost place = match found {
            Some(i) => i as int,
            None => before.entries@.len() as int,
        };
        assert(entries@[place].key@ == key && entries@[place].blob@ == value);
        assert forall|i: int| 0 <= i < before.entries@.len() implies #[trigger] entries@[i].key@
            == before.entries@[i].key@ by {}
        assert forall|i: int| 0 <= i < before.entries@.len() && i != place implies entries@[i]
            == before.entries@[i] by {}
        self.entries = entries;
        proof {
            assert forall|k: Seq<u8>| self.holds(k) == (before.holds(k) || k == key) by {
                if self.holds(k) {
                    let j = self.index_of(k);
                    if j < before.entries@.len() {
                        assert(before.entries@[j].key@ == k);
                    }
                }
                if before.holds(k) {
                    let j = before.index_of(k);
                    assert(self.entries@[j].key@ == k);
                }
            }
            assert forall|k: Seq<u8>| self.holds(k) && k != key implies self.index_of(k)
                == before.index_of(k) by {
                let j0 = before.index_of(k);
                assert(self.entries@[j0].key@ == k);
                let j = self.index_of(k);
                if j < j0 {
                    assert(self.entries@[j].key@ != self.entries@[j0].key@);
                }
                if j0 < j {
                    assert(self.entries@[j0].key@ != self.entries@[j].key@);
                }
            }
            assert(self.index_of(key) == place) by {
                let j = self.index_of(key);
                if j < place {
                    assert(self.entries@[j].key@ != self.entries@[place].key@);
                }
                if place < j {
                    assert(self.entries@[place].key@ != self.entries@[j].key@);
                }
            }
            assert(self@ =~= before@.insert(key, value));
        }
        Ok(())
    }
}

impl Clone for Store {
    /// A second store that holds what this one holds.
    fn clone(&self) -> (copy: Store)
        ensures
            copy@ == self@,
    {
        proof {
            use_type_invariant(self);
        }
        let mut entries: Vec<Entry> = Vec::new();
        let mut i: usize = 0;
        while i < self.entries.len()
            invariant
                i <= self.entries@.len(),
                entries@.len() == i,
                forall|k: int|
                    0 <= k < i ==> #[trigger] entries@[k].key@ == self.entries@[k].key@
                        && entries@[k].blob@ == self.entries@[k].blob@,
            decreases self.entries@.len() - i,
        {
            let blob = self.entries[i].blob.clone();
            assert(blob@ =~= self.entries@[i as int].blob@);
            entries.push(Entry { key: self.entries[i].key, blob });
            i = i + 1;
        }
        assert forall|a: int, b: int| 0 <= a < b < entries@.len() implies #[trigger] entries@[a].key@
            != #[trigger] entries@[b].key@ by {
            assert(self.entries@[a].key@ != self.entries@[b].key@);
        }
        let copy = Store { entries };
        proof {
            assert forall|k: Seq<u8>| copy.holds(k) == self.holds(k) by {
                if copy.holds(k) {
                    let j = copy.index_of(k);
                    assert(self.entries@[j].key@ == k);
                }
                if self.holds(k) {
                    let j = self.index_of(k);
                    assert(copy.entries@[j].key@ == k);
                }
            }
            assert forall|k: Seq<u8>| self.holds(k) implies copy.index_of(k) == self.index_of(
                k,
            ) by {
                let j0 = self.index_of(k);
                assert(copy.entries@[j0].key@ == k);
                let j = copy.index_of(k);
                if j < j0 {
                    assert(self.entries@[j].key@ != self.entries@[j0].key@);
                }
                if j0 < j {
                    assert(self.entries@[j0].key@ != self.entries@[j].key@);
                }
            }
            assert(copy@ =~= self@);
        }
        copy
    }
}

/// Whether two byte vectors hold the same bytes.
pub fn bytes_equal(a: &Vec<u8>, b: &Vec<u8>) -> (same: bool)
    ensures
        same == (a@ == b@),
{
    if a.len() != b.len() {
        return false;
    }
    let mut i: usize = 0;
    while i < a.len()
        invariant
            i <= a@.len(),
            a@.len() == b@.len(),
            forall|k: int| 0 <= k < i ==> a@[k] == b@[k],
        decreases a@.len() - i,
    {
        if a[i] != b[i] {
            return false;
        }
        i = i + 1;
    }
    assert(a@ =~= b@);
    true
}

} // verus!
