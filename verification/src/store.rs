//! The content store: a mapping from identifier bytes to content bytes,
//! viewed in contracts as a `Map<Seq<u8>, Seq<u8>>`. Besides plain
//! overwrite-permitted `write`, it offers `claim`, a create-only primitive
//! that fails on an occupied identifier, so that "reserve an identifier and
//! deposit content" can be a single operation with no check-then-act gap.

use vstd::prelude::*;

use crate::PasteError;
use crate::bytes::{bytes_eq, clone_bytes};

verus! {

struct Entry {
    key: Vec<u8>,
    val: Vec<u8>,
}

/// The mapping that a prefix of entries denotes; later entries shadow
/// earlier ones, which is irrelevant once keys are distinct.
spec fn map_of(s: Seq<Entry>) -> Map<Seq<u8>, Seq<u8>>
    decreases s.len(),
{
    if s.len() == 0 {
        Map::empty()
    } else {
        map_of(s.drop_last()).insert(s.last().key@, s.last().val@)
    }
}

/// No two entries share a key.
spec fn distinct_keys(s: Seq<Entry>) -> bool {
    forall|i: int, j: int| 0 <= i < j < s.len() ==> s[i].key@ != s[j].key@
}

/// A key is in the denoted map exactly when some entry holds it.
proof fn lemma_map_of_domain(s: Seq<Entry>, k: Seq<u8>)
    ensures
        map_of(s).contains_key(k) <==> exists|i: int| 0 <= i < s.len() && s[i].key@ == k,
    decreases s.len(),
{
    if s.len() > 0 {
        lemma_map_of_domain(s.drop_last(), k);
        if map_of(s).contains_key(k) {
            if s.last().key@ != k {
                let i = choose|i: int| 0 <= i < s.drop_last().len() && s.drop_last()[i].key@ == k;
                assert(s[i].key@ == k);
            }
        } else {
            assert(forall|i: int| 0 <= i < s.len() - 1 ==> s.drop_last()[i] == s[i]);
        }
    }
}

/// With distinct keys, the denoted map sends each entry's key to its value.
proof fn lemma_map_of_index(s: Seq<Entry>, i: int)
    requires
        distinct_keys(s),
        0 <= i < s.len(),
    ensures
        map_of(s).contains_key(s[i].key@),
        map_of(s)[s[i].key@] == s[i].val@,
    decreases s.len(),
{
    lemma_map_of_domain(s, s[i].key@);
    if i < s.len() - 1 {
        assert(forall|j: int| 0 <= j < s.len() - 1 ==> s.drop_last()[j] == s[j]);
        lemma_map_of_index(s.drop_last(), i);
        assert(s[i].key@ != s.last().key@);
    }
}

/// Updating the value of the entry that holds a key updates the denoted map
/// at that key.
proof fn lemma_map_of_update(s: Seq<Entry>, i: int, e: Entry)
    requires
        distinct_keys(s),
        0 <= i < s.len(),
        e.key@ == s[i].key@,
    ensures
        map_of(s.update(i, e)) == map_of(s).insert(e.key@, e.val@),
    decreases s.len(),
{
    let t = s.update(i, e);
    assert(t.drop_last() =~= if i < s.len() - 1 {
        s.drop_last().update(i, e)
    } else {
        s.drop_last()
    });
    if i < s.len() - 1 {
        lemma_map_of_update(s.drop_last(), i, e);
        assert(s.last().key@ != e.key@);
        assert(map_of(s.drop_last()).insert(e.key@, e.val@).insert(s.last().key@, s.last().val@)
            =~= map_of(s.drop_last()).insert(s.last().key@, s.last().val@).insert(
            e.key@,
            e.val@,
        ));
    } else {
        assert(map_of(s.drop_last()).insert(s.last().key@, s.last().val@).insert(e.key@, e.val@)
            =~= map_of(s.drop_last()).insert(e.key@, e.val@));
    }
}

/// Appending an entry with a fresh key inserts it into the denoted map.
proof fn lemma_map_of_push(s: Seq<Entry>, e: Entry)
    ensures
        map_of(s.push(e)) == map_of(s).insert(e.key@, e.val@),
{
    assert(s.push(e).drop_last() =~= s);
}

/// Durable mapping from identifier to a byte blob: write-once-per-identifier
/// in intended use (`claim`), read-many. The store holds each identifier at
/// most once; its view is the finite map of stored entries.
pub struct Store {
    entries: Vec<Entry>,
}

impl Store {
    /// The mapping this store holds.
    pub closed spec fn view(&self) -> Map<Seq<u8>, Seq<u8>> {
        map_of(self.entries@)
    }

    /// Structural invariant: no identifier occurs twice.
    pub closed spec fn wf(&self) -> bool {
        distinct_keys(self.entries@)
    }

    /// An empty store.
    pub fn new() -> (s: Store)
        ensures
            s.wf(),
            s@ == Map::<Seq<u8>, Seq<u8>>::empty(),
    {
        Store { entries: Vec::new() }
    }

    /// The position of the entry holding `id`, if any.
    fn find(&self, id: &Vec<u8>) -> (r: Option<usize>)
        ensures
            match r {
                Option::Some(i) => i < self.entries@.len() && self.entries@[i as int].key@ == id@,
                Option::None => forall|i: int|
                    0 <= i < self.entries@.len() ==> self.entries@[i].key@ != id@,
            },
    {
        let n = self.entries.len();
        let mut i: usize = 0;
        while i < n
            invariant
                i <= n,
                n == self.entries@.len(),
                forall|j: int| 0 <= j < i ==> self.entries@[j].key@ != id@,
            decreases n - i,
        {
            if bytes_eq(&self.entries[i].key, id) {
                return Option::Some(i);
            }
            i = i + 1;
        }
        Option::None
    }

    /// Existence check, as the allocator uses it.
    pub fn contains_id(&self, id: &Vec<u8>) -> (r: bool)
        requires
            self.wf(),
        ensures
            r == self@.contains_key(id@),
    {
        proof {
            lemma_map_of_domain(self.entries@, id@);
        }
        match self.find(id) {
            Option::Some(_) => true,
            Option::None => false,
        }
    }

    /// Reads the full content stored under `id`; `NotFound` exactly when no
    /// entry exists for it. The result is a function of the store's view and
    /// the identifier alone, so repeated reads yield identical bytes.
    pub fn read(&self, id: &Vec<u8>) -> (r: Result<Vec<u8>, PasteError>)
        requires
            self.wf(),
        ensures
            r matches Ok(v) ==> read_spec(self@, id@) == Result::<Seq<u8>, PasteError>::Ok(v@),
            r matches Err(e) ==> read_spec(self@, id@) == Result::<Seq<u8>, PasteError>::Err(e),
    {
        proof {
            lemma_map_of_domain(self.entries@, id@);
        }
        match self.find(id) {
            Option::Some(i) => {
                proof {
                    lemma_map_of_index(self.entries@, i as int);
                }
                Result::Ok(clone_bytes(&self.entries[i].val))
            },
            Option::None => Result::Err(PasteError::NotFound),
        }
    }

    /// Persists `data` under `id`, overwriting any entry already present.
    pub fn write(&mut self, id: &Vec<u8>, data: Vec<u8>)
        requires
            old(self).wf(),
        ensures
            final(self).wf(),
            final(self)@ == old(self)@.insert(id@, data@),
    {
        proof {
            lemma_map_of_domain(self.entries@, id@);
        }
        match self.find(id) {
            Option::Some(i) => {
                let ghost prev = self.entries@;
                let e = Entry { key: clone_bytes(id), val: data };
                proof {
                    lemma_map_of_update(prev, i as int, e);
                }
                self.entries.set(i, e);
            },
            Option::None => {
                let ghost prev = self.entries@;
                let e = Entry { key: clone_bytes(id), val: data };
                proof {
                    lemma_map_of_push(prev, e);
                }
                self.entries.push(e);
            },
        }
    }

    /// Create-only write: deposits `data` under `id` only if `id` is free,
    /// and reports whether it did. The single-operation shape leaves no gap
    /// between the existence check and the deposit.
    pub fn claim(&mut self, id: &Vec<u8>, data: Vec<u8>) -> (r: bool)
        requires
            old(self).wf(),
        ensures
            final(self).wf(),
            r == !old(self)@.contains_key(id@),
            r ==> final(self)@ == old(self)@.insert(id@, data@),
            !r ==> final(self)@ == old(self)@,
    {
        proof {
            lemma_map_of_domain(self.entries@, id@);
        }
        match self.find(id) {
            Option::Some(_) => false,
            Option::None => {
                let ghost prev = self.entries@;
                let e = Entry { key: clone_bytes(id), val: data };
                proof {
                    lemma_map_of_push(prev, e);
                }
                self.entries.push(e);
                true
            },
        }
    }
}

/// What a read of `id` yields on a store whose view is `m`: the stored
/// bytes, or `NotFound`.
pub open spec fn read_spec(m: Map<Seq<u8>, Seq<u8>>, id: Seq<u8>) -> Result<Seq<u8>, PasteError> {
    if m.contains_key(id) {
        Result::Ok(m[id])
    } else {
        Result::Err(PasteError::NotFound)
    }
}

/// Round trip: depositing `data` under `id` and reading `id` back yields
/// exactly `data`, byte for byte.
pub proof fn lemma_round_trip(m: Map<Seq<u8>, Seq<u8>>, id: Seq<u8>, data: Seq<u8>)
    ensures
        read_spec(m.insert(id, data), id) == Result::<Seq<u8>, PasteError>::Ok(data),
{
}

/// Reading is stable: a write under a different identifier does not change
/// what a read of `id` yields, so repeated reads of `id` without an
/// intervening write to `id` all yield the same bytes.
pub proof fn lemma_read_stable_under_other_writes(
    m: Map<Seq<u8>, Seq<u8>>,
    id: Seq<u8>,
    other: Seq<u8>,
    data: Seq<u8>,
)
    requires
        other != id,
    ensures
        read_spec(m.insert(other, data), id) == read_spec(m, id),
{
}

} // verus!
