//! An in-memory model of the host storage handle: a flat store from byte
//! paths to byte values.
//!
//! The store keeps its entries as an append-only journal; a later entry for
//! the same path shadows every earlier one.  Its view is the map from each
//! stored path to the value of its latest entry, which is all that callers
//! ever see: `write` inserts, `read` looks up, and `delete_prefix` drops
//! exactly the entries whose path starts with a given prefix.

use vstd::prelude::*;

verus! {

broadcast use vstd::seq::group_seq_axioms;

/// The map held by a journal of entries, with later entries shadowing
/// earlier ones.
spec fn slots_of(entries: Seq<(Vec<u8>, Vec<u8>)>) -> Map<Seq<u8>, Seq<u8>>
    decreases entries.len(),
{
    if entries.len() == 0 {
        Map::empty()
    } else {
        slots_of(entries.drop_last()).insert(entries.last().0@, entries.last().1@)
    }
}

/// The set of all byte paths that start with `prefix`.
pub open spec fn paths_under(prefix: Seq<u8>) -> Set<Seq<u8>> {
    Set::new(|path: Seq<u8>| prefix.is_prefix_of(path))
}

/// True when `a` and `b` hold the same bytes.
pub fn bytes_equal(a: &[u8], b: &[u8]) -> (r: bool)
    ensures
        r == (a@ == b@),
{
    if a.len() != b.len() {
        return false;
    }
    let mut i: usize = 0;
    while i < a.len()
        invariant
            i <= a@.len(),
            a@.len() == b@.len(),
            forall|j: int| 0 <= j < i ==> a@[j] == b@[j],
        decreases a@.len() - i,
    {
        if a[i] != b[i] {
            return false;
        }
        i = i + 1;
    }
    proof {
        assert(a@ =~= b@);
    }
    true
}

/// True when the bytes of `prefix` start the bytes of `data`.
pub fn bytes_prefix(prefix: &[u8], data: &[u8]) -> (r: bool)
    ensures
        r == prefix@.is_prefix_of(data@),
{
    if prefix.len() > data.len() {
        return false;
    }
    let mut i: usize = 0;
    while i < prefix.len()
        invariant
            i <= prefix@.len(),
            prefix@.len() <= data@.len(),
            forall|j: int| 0 <= j < i ==> prefix@[j] == data@[j],
        decreases prefix@.len() - i,
    {
        if prefix[i] != data[i] {
            proof {
                assert(data@.subrange(0, prefix@.len() as int)[i as int] == data@[i as int]);
            }
            return false;
        }
        i = i + 1;
    }
    proof {
        assert(prefix@ =~= data@.subrange(0, prefix@.len() as int));
    }
    true
}

/// One flat key/value namespace: the storage behind a single call direction.
pub struct KvStore {
    entries: Vec<(Vec<u8>, Vec<u8>)>,
}

impl View for KvStore {
    type V = Map<Seq<u8>, Seq<u8>>;

    closed spec fn view(&self) -> Map<Seq<u8>, Seq<u8>> {
        slots_of(self.entries@)
    }
}

/// The latest entry for a path decides the slot's value.
proof fn lemma_slots_last_match(entries: Seq<(Vec<u8>, Vec<u8>)>, i: int)
    requires
        0 <= i < entries.len(),
        forall|j: int| i < j < entries.len() ==> (#[trigger] entries[j]).0@ != entries[i].0@,
    ensures
        slots_of(entries).contains_key(entries[i].0@),
        slots_of(entries)[entries[i].0@] == entries[i].1@,
    decreases entries.len(),
{
    if i == entries.len() - 1 {
    } else {
        assert(entries.drop_last()[i] == entries[i]);
        lemma_slots_last_match(entries.drop_last(), i);
    }
}

/// A path with no entry at all is not in the store's view.
proof fn lemma_slots_no_match(entries: Seq<(Vec<u8>, Vec<u8>)>, path: Seq<u8>)
    requires
        forall|j: int| 0 <= j < entries.len() ==> (#[trigger] entries[j]).0@ != path,
    ensures
        !slots_of(entries).contains_key(path),
    decreases entries.len(),
{
    if entries.len() > 0 {
        lemma_slots_no_match(entries.drop_last(), path);
    }
}

impl KvStore {
    /// An empty namespace: no path holds a value.
    pub fn new() -> (store: KvStore)
        ensures
            store@ == Map::<Seq<u8>, Seq<u8>>::empty(),
    {
        KvStore { entries: Vec::new() }
    }

    /// Returns the raw bytes stored at exactly `path`, or nothing when the
    /// path was never written.
    pub fn read(&self, path: &[u8]) -> (r: Option<&Vec<u8>>)
        ensures
            match r {
                Some(v) => self@.contains_key(path@) && v@ == self@[path@],
                None => !self@.contains_key(path@),
            },
    {
        let n: usize = self.entries.len();
        let mut i: usize = n;
        while i > 0
            invariant
                i <= n,
                n == self.entries@.len(),
                forall|j: int| i <= j < n ==> (#[trigger] self.entries@[j]).0@ != path@,
            decreases i,
        {
            i = i - 1;
            if bytes_equal(self.entries[i].0.as_slice(), path) {
                proof {
                    lemma_slots_last_match(self.entries@, i as int);
                }
                return Some(&self.entries[i].1);
            }
        }
        proof {
            lemma_slots_no_match(self.entries@, path@);
        }
        None
    }

    /// Stores `value` at exactly `path`, fully overwriting any prior value.
    pub fn write(&mut self, path: &[u8], value: Vec<u8>)
        ensures
            final(self)@ == old(self)@.insert(path@, value@),
    {
        let path_vec = vstd::slice::slice_to_vec(path);
        self.entries.push((path_vec, value));
        proof {
            assert(self.entries@.drop_last() =~= old(self).entries@);
        }
    }

    /// Removes every entry whose path starts with `prefix`, and no other.
    pub fn delete_prefix(&mut self, prefix: &[u8])
        ensures
            final(self)@ == old(self)@.remove_keys(paths_under(prefix@)),
    {
        let ghost all = self.entries@;
        let mut kept: Vec<(Vec<u8>, Vec<u8>)> = Vec::new();
        let n: usize = self.entries.len();
        let mut i: usize = 0;
        while i < n
            invariant
                i <= n,
                n == self.entries@.len(),
                self.entries@ == all,
                slots_of(kept@) =~= slots_of(all.subrange(0, i as int)).remove_keys(
                    paths_under(prefix@),
                ),
            decreases n - i,
        {
            proof {
                assert(all.subrange(0, i + 1).drop_last() =~= all.subrange(0, i as int));
                assert(all.subrange(0, i + 1).last() == all[i as int]);
            }
            let entry_path = vstd::slice::slice_to_vec(self.entries[i].0.as_slice());
            let entry_value = vstd::slice::slice_to_vec(self.entries[i].1.as_slice());
            let ghost kept_before = kept@;
            if !bytes_prefix(prefix, entry_path.as_slice()) {
                kept.push((entry_path, entry_value));
                proof {
                    assert(kept@.drop_last() =~= kept_before);
                    assert(slots_of(kept@) =~= slots_of(all.subrange(0, i + 1)).remove_keys(
                        paths_under(prefix@),
                    ));
                }
            } else {
                proof {
                    assert(slots_of(kept@) =~= slots_of(all.subrange(0, i + 1)).remove_keys(
                        paths_under(prefix@),
                    ));
                }
            }
            i = i + 1;
        }
        proof {
            assert(all.subrange(0, n as int) =~= all);
        }
        self.entries = kept;
    }
}

} // verus!
