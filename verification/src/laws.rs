//! The guarantees the access layer gives its callers, stated and proved
//! once, over the same spec functions that the executable contracts use.

use crate::codec::{
    decode_string, encode_bool, key_segment, lemma_key_segment_injective,
    lemma_key_segment_not_prefix, lemma_root_key_segments_disjoint, lemma_root_segment_injective,
    lemma_root_segment_not_prefix, root_segment, zero_hash_seq, ScHname, SC_HASH_LENGTH,
};
use crate::store::paths_under;
use crate::views::{
    bool_at, bytes_at, hash_at, hname_at, read_slot, string_at, uint64_at,
};
use vstd::bytes::{
    lemma_auto_spec_u32_to_from_le_bytes, lemma_auto_spec_u64_to_from_le_bytes,
    spec_u32_to_le_bytes, spec_u64_to_le_bytes,
};
use vstd::prelude::*;
use vstd::utf8::{encode_utf8, encode_utf8_decode_utf8, encode_utf8_valid_utf8};

verus! {

broadcast use vstd::seq::group_seq_axioms;

/// Distinct root fields of the same namespace derive distinct paths: the
/// slots of two different field identifiers never coincide, whatever the
/// shared parent path is.
pub proof fn lemma_distinct_roots_distinct_paths(base: Seq<u8>, f1: u32, f2: u32)
    requires
        f1 != f2,
    ensures
        base + root_segment(f1) != base + root_segment(f2),
{
    if base + root_segment(f1) == base + root_segment(f2) {
        lemma_auto_spec_u32_to_from_le_bytes();
        assert(root_segment(f1) =~= root_segment(f2)) by {
            assert forall|i: int| 0 <= i < 5 implies root_segment(f1)[i]
                == root_segment(f2)[i] by {
                assert((base + root_segment(f1))[base.len() + i] == root_segment(f1)[i]);
                assert((base + root_segment(f2))[base.len() + i] == root_segment(f2)[i]);
            }
        }
        lemma_root_segment_injective(f1, f2);
    }
}

/// A write through the slot of one root field is never visible through the
/// slot of a different root field of the same parent.
pub proof fn lemma_root_write_isolation(
    m: Map<Seq<u8>, Seq<u8>>,
    base: Seq<u8>,
    f1: u32,
    f2: u32,
    v: Seq<u8>,
)
    requires
        f1 != f2,
    ensures
        read_slot(m.insert(base + root_segment(f1), v), base + root_segment(f2)) == read_slot(
            m,
            base + root_segment(f2),
        ),
{
    lemma_distinct_roots_distinct_paths(base, f1, f2);
}

/// Clearing the map scope rooted at one field leaves every slot under a
/// different root field of the same parent untouched, however deeply
/// derived.
pub proof fn lemma_root_clear_isolation(
    m: Map<Seq<u8>, Seq<u8>>,
    base: Seq<u8>,
    f1: u32,
    f2: u32,
    ext: Seq<u8>,
)
    requires
        f1 != f2,
    ensures
        read_slot(
            m.remove_keys(paths_under(base + root_segment(f1))),
            base + root_segment(f2) + ext,
        ) == read_slot(m, base + root_segment(f2) + ext),
{
    lemma_root_segment_not_prefix(base, f1, f2, ext);
}

/// The whole subtrees of two distinct root fields are disjoint: however
/// deeply each side derives, the paths never meet.
pub proof fn lemma_distinct_root_subtrees(
    base: Seq<u8>,
    f1: u32,
    f2: u32,
    e1: Seq<u8>,
    e2: Seq<u8>,
)
    requires
        f1 != f2,
    ensures
        base + root_segment(f1) + e1 != base + root_segment(f2) + e2,
{
    if base + root_segment(f1) + e1 == base + root_segment(f2) + e2 {
        lemma_auto_spec_u32_to_from_le_bytes();
        assert(root_segment(f1) =~= root_segment(f2)) by {
            assert forall|i: int| 0 <= i < 5 implies root_segment(f1)[i]
                == root_segment(f2)[i] by {
                assert((base + root_segment(f1) + e1)[base.len() + i] == root_segment(f1)[i]);
                assert((base + root_segment(f2) + e2)[base.len() + i] == root_segment(f2)[i]);
            }
        }
        lemma_root_segment_injective(f1, f2);
    }
}

/// A write anywhere under one root field is never visible anywhere under a
/// different root field of the same parent.
pub proof fn lemma_root_subtree_write_isolation(
    m: Map<Seq<u8>, Seq<u8>>,
    base: Seq<u8>,
    f1: u32,
    f2: u32,
    e1: Seq<u8>,
    e2: Seq<u8>,
    v: Seq<u8>,
)
    requires
        f1 != f2,
    ensures
        read_slot(m.insert(base + root_segment(f1) + e1, v), base + root_segment(f2) + e2)
            == read_slot(m, base + root_segment(f2) + e2),
{
    lemma_distinct_root_subtrees(base, f1, f2, e1, e2);
}

/// Distinct key bytes under the same map scope derive distinct entry paths.
pub proof fn lemma_distinct_keys_distinct_paths(scope: Seq<u8>, k1: Seq<u8>, k2: Seq<u8>)
    requires
        k1 != k2,
        k1.len() <= u64::MAX,
        k2.len() <= u64::MAX,
    ensures
        scope + key_segment(k1) != scope + key_segment(k2),
{
    if scope + key_segment(k1) == scope + key_segment(k2) {
        lemma_auto_spec_u64_to_from_le_bytes();
        assert(key_segment(k1) =~= key_segment(k2)) by {
            assert((scope + key_segment(k1)).len() == (scope + key_segment(k2)).len());
            assert forall|i: int| 0 <= i < key_segment(k1).len() implies key_segment(k1)[i]
                == key_segment(k2)[i] by {
                assert((scope + key_segment(k1))[scope.len() + i] == key_segment(k1)[i]);
                assert((scope + key_segment(k2))[scope.len() + i] == key_segment(k2)[i]);
            }
        }
        lemma_key_segment_injective(k1, k2);
    }
}

/// A write through the entry of one map key is never visible through the
/// entry of a different key of the same map scope.
pub proof fn lemma_key_write_isolation(
    m: Map<Seq<u8>, Seq<u8>>,
    scope: Seq<u8>,
    k1: Seq<u8>,
    k2: Seq<u8>,
    v: Seq<u8>,
)
    requires
        k1 != k2,
        k1.len() <= u64::MAX,
        k2.len() <= u64::MAX,
    ensures
        read_slot(m.insert(scope + key_segment(k1), v), scope + key_segment(k2)) == read_slot(
            m,
            scope + key_segment(k2),
        ),
{
    lemma_distinct_keys_distinct_paths(scope, k1, k2);
}

/// The whole subtrees of two distinct map keys are disjoint: however deeply
/// each side derives below its entry, the paths never meet.
pub proof fn lemma_distinct_key_subtrees(
    scope: Seq<u8>,
    k1: Seq<u8>,
    k2: Seq<u8>,
    e1: Seq<u8>,
    e2: Seq<u8>,
)
    requires
        k1 != k2,
        k1.len() <= u64::MAX,
        k2.len() <= u64::MAX,
    ensures
        scope + key_segment(k1) + e1 != scope + key_segment(k2) + e2,
{
    if scope + key_segment(k1) + e1 == scope + key_segment(k2) + e2 {
        lemma_auto_spec_u64_to_from_le_bytes();
        let p = scope + key_segment(k1) + e1;
        let w = scope + key_segment(k2) + e2;
        assert(spec_u64_to_le_bytes(k1.len() as u64) =~= spec_u64_to_le_bytes(
            k2.len() as u64,
        )) by {
            assert forall|i: int| 0 <= i < 8 implies #[trigger] spec_u64_to_le_bytes(
                k1.len() as u64,
            )[i] == spec_u64_to_le_bytes(k2.len() as u64)[i] by {
                assert(p[scope.len() + 1 + i] == key_segment(k1)[1 + i]);
                assert(w[scope.len() + 1 + i] == key_segment(k2)[1 + i]);
                assert(key_segment(k1)[1 + i] == spec_u64_to_le_bytes(k1.len() as u64)[i]);
                assert(key_segment(k2)[1 + i] == spec_u64_to_le_bytes(k2.len() as u64)[i]);
            }
        }
        assert(k1.len() as u64 == k2.len() as u64);
        assert(k1 =~= k2) by {
            assert forall|i: int| 0 <= i < k1.len() implies k1[i] == k2[i] by {
                assert(p[scope.len() + 9 + i] == key_segment(k1)[9 + i]);
                assert(w[scope.len() + 9 + i] == key_segment(k2)[9 + i]);
                assert(key_segment(k1)[9 + i] == k1[i]);
                assert(key_segment(k2)[9 + i] == k2[i]);
            }
        }
    }
}

/// A write anywhere under one map entry is never visible anywhere under the
/// entry of a different key of the same map scope.
pub proof fn lemma_key_subtree_write_isolation(
    m: Map<Seq<u8>, Seq<u8>>,
    scope: Seq<u8>,
    k1: Seq<u8>,
    k2: Seq<u8>,
    e1: Seq<u8>,
    e2: Seq<u8>,
    v: Seq<u8>,
)
    requires
        k1 != k2,
        k1.len() <= u64::MAX,
        k2.len() <= u64::MAX,
    ensures
        read_slot(m.insert(scope + key_segment(k1) + e1, v), scope + key_segment(k2) + e2)
            == read_slot(m, scope + key_segment(k2) + e2),
{
    lemma_distinct_key_subtrees(scope, k1, k2, e1, e2);
}

/// A root-field slot and a map entry of the same parent never coincide,
/// whatever the field identifier and the key bytes: a write through one is
/// never visible through the other.
pub proof fn lemma_root_and_entry_distinct_paths(base: Seq<u8>, f: u32, k: Seq<u8>)
    ensures
        base + root_segment(f) != base + key_segment(k),
{
    lemma_root_key_segments_disjoint(base, f, k, Seq::empty());
    if base + root_segment(f) == base + key_segment(k) {
        let p = base + root_segment(f);
        assert(p =~= (base + key_segment(k) + Seq::empty()).subrange(0, p.len() as int));
        assert(p.is_prefix_of(base + key_segment(k) + Seq::empty()));
    }
}

/// Round trip: writing an in-domain value of any supported kind and reading
/// back over the same path returns that value unchanged.
pub proof fn lemma_round_trip_bool(m: Map<Seq<u8>, Seq<u8>>, path: Seq<u8>, v: bool)
    ensures
        bool_at(m.insert(path, encode_bool(v)), path) == v,
{
}

/// Round trip for the byte-blob kind, whose encoding is the identity.
pub proof fn lemma_round_trip_bytes(m: Map<Seq<u8>, Seq<u8>>, path: Seq<u8>, v: Seq<u8>)
    ensures
        bytes_at(m.insert(path, v), path) == v,
{
}

/// Round trip for the string kind, through its UTF-8 encoding.
pub proof fn lemma_round_trip_string(m: Map<Seq<u8>, Seq<u8>>, path: Seq<u8>, s: Seq<char>)
    ensures
        string_at(m.insert(path, encode_utf8(s)), path) == s,
{
    encode_utf8_valid_utf8(s);
    encode_utf8_decode_utf8(s);
    assert(decode_string(encode_utf8(s)) == s);
}

/// Round trip for the hash kind: any value of the hash's fixed width comes
/// back unchanged.
pub proof fn lemma_round_trip_hash(m: Map<Seq<u8>, Seq<u8>>, path: Seq<u8>, h: Seq<u8>)
    requires
        h.len() == SC_HASH_LENGTH,
    ensures
        hash_at(m.insert(path, h), path) == h,
{
}

/// Round trip for the hashed-name kind, through its fixed-width
/// little-endian encoding.
pub proof fn lemma_round_trip_hname(m: Map<Seq<u8>, Seq<u8>>, path: Seq<u8>, v: ScHname)
    ensures
        hname_at(m.insert(path, spec_u32_to_le_bytes(v.0)), path) == v,
{
    lemma_auto_spec_u32_to_from_le_bytes();
}

/// Round trip for the unsigned 64-bit kind, through its fixed-width
/// little-endian encoding.
pub proof fn lemma_round_trip_uint64(m: Map<Seq<u8>, Seq<u8>>, path: Seq<u8>, v: u64)
    ensures
        uint64_at(m.insert(path, spec_u64_to_le_bytes(v)), path) == v,
{
    lemma_auto_spec_u64_to_from_le_bytes();
}

/// Default on absence: a path that was never written reads as the value
/// kind's defined default, for every kind.
pub proof fn lemma_default_on_absence(m: Map<Seq<u8>, Seq<u8>>, path: Seq<u8>)
    requires
        !m.contains_key(path),
    ensures
        bool_at(m, path) == false,
        bytes_at(m, path) == Seq::<u8>::empty(),
        string_at(m, path) == Seq::<char>::empty(),
        hash_at(m, path) == zero_hash_seq(),
        hname_at(m, path) == ScHname(0),
        uint64_at(m, path) == 0u64,
{
}

/// Clearing a map scope is idempotent: a second clear changes nothing, and
/// both leave the scope empty.
pub proof fn lemma_clear_map_idempotent(m: Map<Seq<u8>, Seq<u8>>, scope: Seq<u8>)
    ensures
        m.remove_keys(paths_under(scope)).remove_keys(paths_under(scope)) == m.remove_keys(
            paths_under(scope),
        ),
{
    assert(m.remove_keys(paths_under(scope)).remove_keys(paths_under(scope)) =~= m.remove_keys(
        paths_under(scope),
    ));
}

/// After a clear, every entry of the scope is gone: reading any key of the
/// cleared map returns the value kind's default.
pub proof fn lemma_clear_map_reads_default(m: Map<Seq<u8>, Seq<u8>>, scope: Seq<u8>, k: Seq<u8>)
    ensures
        !m.remove_keys(paths_under(scope)).contains_key(scope + key_segment(k)),
        bytes_at(m.remove_keys(paths_under(scope)), scope + key_segment(k)) == Seq::<u8>::empty(),
        string_at(m.remove_keys(paths_under(scope)), scope + key_segment(k))
            == Seq::<char>::empty(),
{
    assert(scope.is_prefix_of(scope + key_segment(k))) by {
        assert((scope + key_segment(k)).subrange(0, scope.len() as int) =~= scope);
    }
    lemma_default_on_absence(m.remove_keys(paths_under(scope)), scope + key_segment(k));
}

} // verus!
