//! The key and value codec: deterministic, lossless byte encodings.
//!
//! Keys are encoded as self-delimiting path segments so that the flat store
//! key of one slot is never a prefix of the flat store key of an unrelated
//! slot.  Values are encoded one kind at a time; every decoder is total and
//! maps absent or ill-formed bytes to the kind's defined default, so read
//! paths stay branch-free for callers.

use vstd::bytes::{
    lemma_auto_spec_u32_to_from_le_bytes, lemma_auto_spec_u64_to_from_le_bytes,
    spec_u32_from_le_bytes, spec_u32_to_le_bytes, spec_u64_from_le_bytes, spec_u64_to_le_bytes,
    u32_from_le_bytes, u32_to_le_bytes, u64_from_le_bytes, u64_to_le_bytes,
};
use vstd::prelude::*;
use vstd::slice::slice_to_vec;
use vstd::string::{StrSliceExecFns, StringSliceAdditionalSpecFns};
use vstd::utf8::{
    decode_utf8, encode_utf8, encode_utf8_decode_utf8, encode_utf8_valid_utf8, valid_utf8,
};

verus! {

broadcast use vstd::seq::group_seq_axioms;

/// Length in bytes of a hash value.
pub const SC_HASH_LENGTH: usize = 32;

/// A 4-byte hashed name: a fixed-width identifier derived elsewhere from a
/// human-readable name, used as a compact key or field tag.
#[derive(Clone, Copy, PartialEq, Eq, Structural, Debug)]
pub struct ScHname(pub u32);

/// A 32-byte hash digest.
pub struct ScHash {
    id: Vec<u8>,
}

impl ScHash {
    #[verifier::type_invariant]
    spec fn inv(self) -> bool {
        self.id@.len() == SC_HASH_LENGTH
    }
}

impl View for ScHash {
    type V = Seq<u8>;

    closed spec fn view(&self) -> Seq<u8> {
        self.id@
    }
}

impl Clone for ScHash {
    fn clone(&self) -> (r: Self)
        ensures
            r@ == self@,
    {
        proof {
            use_type_invariant(self);
        }
        ScHash { id: slice_to_vec(self.id.as_slice()) }
    }
}

impl ScHash {
    /// The hash's bytes, in their fixed-width binary form.
    pub fn to_bytes(&self) -> (r: Vec<u8>)
        ensures
            r@ == self@,
    {
        proof {
            use_type_invariant(self);
        }
        slice_to_vec(self.id.as_slice())
    }
}

/// The all-zero hash value, the default of the hash value kind.
pub open spec fn zero_hash_seq() -> Seq<u8> {
    Seq::new(SC_HASH_LENGTH as nat, |i: int| 0u8)
}

/// A vector of `n` zero bytes.
fn zero_vec(n: usize) -> (r: Vec<u8>)
    ensures
        r@ == Seq::new(n as nat, |i: int| 0u8),
{
    let mut r: Vec<u8> = Vec::new();
    let mut i: usize = 0;
    while i < n
        invariant
            i <= n,
            r@ =~= Seq::new(i as nat, |j: int| 0u8),
        decreases n - i,
    {
        r.push(0u8);
        i = i + 1;
    }
    proof {
        assert(r@ =~= Seq::new(n as nat, |j: int| 0u8));
    }
    r
}

// ---------------------------------------------------------------------------
// Value encodings, one per supported value kind.  Every decoder is total;
// bytes that do not fit the kind decode to the kind's default.
// ---------------------------------------------------------------------------
/// Encoding of a boolean value: one byte, zero for false.
pub open spec fn encode_bool(b: bool) -> Seq<u8> {
    seq![if b { 1u8 } else { 0u8 }]
}

/// Decoding of a boolean value: true exactly when the bytes start with a
/// nonzero byte.  Absent or empty bytes decode to false.
pub open spec fn decode_bool(b: Seq<u8>) -> bool {
    b.len() > 0 && b[0] != 0
}

/// Decoding of a string value: the characters the bytes encode in UTF-8, or
/// the empty string when the bytes are not valid UTF-8.
pub open spec fn decode_string(b: Seq<u8>) -> Seq<char> {
    if valid_utf8(b) {
        decode_utf8(b)
    } else {
        Seq::empty()
    }
}

/// Decoding of a hash value: the bytes themselves when exactly
/// `SC_HASH_LENGTH` long, the all-zero hash otherwise.
pub open spec fn decode_hash(b: Seq<u8>) -> Seq<u8> {
    if b.len() == SC_HASH_LENGTH {
        b
    } else {
        zero_hash_seq()
    }
}

/// Decoding of a hashed name: the little-endian value of exactly four bytes,
/// zero otherwise.
pub open spec fn decode_hname(b: Seq<u8>) -> ScHname {
    if b.len() == 4 {
        ScHname(spec_u32_from_le_bytes(b))
    } else {
        ScHname(0)
    }
}

/// Decoding of an unsigned 64-bit value: the little-endian value of exactly
/// eight bytes, zero otherwise.
pub open spec fn decode_uint64(b: Seq<u8>) -> u64 {
    if b.len() == 8 {
        spec_u64_from_le_bytes(b)
    } else {
        0
    }
}

/// Encodes a boolean as its single-byte form.
pub fn bool_to_bytes(b: bool) -> (r: Vec<u8>)
    ensures
        r@ == encode_bool(b),
{
    let mut r: Vec<u8> = Vec::new();
    r.push(if b { 1u8 } else { 0u8 });
    proof {
        assert(r@ =~= encode_bool(b));
    }
    r
}

/// Decodes a boolean from stored bytes; empty bytes give false.
pub fn bool_from_bytes(buf: &[u8]) -> (b: bool)
    ensures
        b == decode_bool(buf@),
{
    if buf.len() == 0 {
        false
    } else {
        buf[0] != 0
    }
}

/// Encodes a string as its UTF-8 bytes, used as-is.
pub fn string_to_bytes(s: &str) -> (r: Vec<u8>)
    ensures
        r@ == encode_utf8(s@),
{
    s.as_bytes_vec()
}

/// Relies on `String::from_utf8`: returns a string over exactly the given
/// bytes when they are valid UTF-8, and fails exactly when they are not.
#[verifier::external_body]
fn utf8_to_string(bytes: Vec<u8>) -> (r: Option<String>)
    ensures
        r matches Some(s) ==> encode_utf8(s@) == bytes@,
        r is None ==> !valid_utf8(bytes@),
{
    match String::from_utf8(bytes) {
        Ok(s) => Some(s),
        Err(_) => None,
    }
}

/// Decodes a string from stored bytes; bytes that are not valid UTF-8 give
/// the empty string.
pub fn string_from_bytes(buf: &[u8]) -> (r: String)
    ensures
        r@ == decode_string(buf@),
{
    let bytes = slice_to_vec(buf);
    match utf8_to_string(bytes) {
        Some(s) => {
            proof {
                encode_utf8_valid_utf8(s@);
                encode_utf8_decode_utf8(s@);
            }
            s
        },
        None => String::new(),
    }
}

/// Encodes a hash as its fixed-width binary form.
pub fn hash_to_bytes(h: &ScHash) -> (r: Vec<u8>)
    ensures
        r@ == h@,
{
    h.to_bytes()
}

/// Decodes a hash from stored bytes; anything but exactly `SC_HASH_LENGTH`
/// bytes gives the all-zero hash.
pub fn hash_from_bytes(buf: &[u8]) -> (h: ScHash)
    ensures
        h@ == decode_hash(buf@),
{
    if buf.len() == SC_HASH_LENGTH {
        ScHash { id: slice_to_vec(buf) }
    } else {
        ScHash { id: zero_vec(SC_HASH_LENGTH) }
    }
}

/// Encodes a hashed name as its fixed-width little-endian binary form.
pub fn hname_to_bytes(h: ScHname) -> (r: Vec<u8>)
    ensures
        r@ == spec_u32_to_le_bytes(h.0),
{
    u32_to_le_bytes(h.0)
}

/// Decodes a hashed name from stored bytes; anything but exactly four bytes
/// gives the zero name.
pub fn hname_from_bytes(buf: &[u8]) -> (h: ScHname)
    ensures
        h == decode_hname(buf@),
{
    if buf.len() == 4 {
        ScHname(u32_from_le_bytes(buf))
    } else {
        ScHname(0)
    }
}

/// Encodes an unsigned 64-bit value as its little-endian binary form.
pub fn uint64_to_bytes(x: u64) -> (r: Vec<u8>)
    ensures
        r@ == spec_u64_to_le_bytes(x),
{
    u64_to_le_bytes(x)
}

/// Decodes an unsigned 64-bit value from stored bytes; anything but exactly
/// eight bytes gives zero.
pub fn uint64_from_bytes(buf: &[u8]) -> (x: u64)
    ensures
        x == decode_uint64(buf@),
{
    if buf.len() == 8 {
        u64_from_le_bytes(buf)
    } else {
        0
    }
}

// ---------------------------------------------------------------------------
// Path segments.  A store key is the concatenation of self-delimiting
// segments: one fixed-width segment per named root field, one
// length-delimited segment per map entry key.
// ---------------------------------------------------------------------------
/// The path segment of a schema-declared root field: a tag byte followed by
/// the field identifier in fixed-width little-endian form.
pub open spec fn root_segment(field_id: u32) -> Seq<u8> {
    seq![0u8] + spec_u32_to_le_bytes(field_id)
}

/// The path segment of a dynamic map entry: a tag byte, the key's length in
/// fixed-width little-endian form, then the key bytes themselves.
pub open spec fn key_segment(key: Seq<u8>) -> Seq<u8> {
    seq![1u8] + spec_u64_to_le_bytes(key.len() as u64) + key
}

/// Root-field segments are injective: equal segments come from equal field
/// identifiers.
pub proof fn lemma_root_segment_injective(f1: u32, f2: u32)
    requires
        root_segment(f1) == root_segment(f2),
    ensures
        f1 == f2,
{
    lemma_auto_spec_u32_to_from_le_bytes();
    assert(spec_u32_to_le_bytes(f1) =~= spec_u32_to_le_bytes(f2)) by {
        assert forall|i: int| 0 <= i < 4 implies spec_u32_to_le_bytes(f1)[i]
            == spec_u32_to_le_bytes(f2)[i] by {
            assert(root_segment(f1)[i + 1] == spec_u32_to_le_bytes(f1)[i]);
            assert(root_segment(f2)[i + 1] == spec_u32_to_le_bytes(f2)[i]);
        }
    }
    assert(spec_u32_from_le_bytes(spec_u32_to_le_bytes(f1)) == spec_u32_from_le_bytes(
        spec_u32_to_le_bytes(f2),
    ));
}

/// Map-entry segments are injective: equal segments come from equal key
/// bytes.
pub proof fn lemma_key_segment_injective(k1: Seq<u8>, k2: Seq<u8>)
    requires
        k1.len() <= u64::MAX,
        k2.len() <= u64::MAX,
        key_segment(k1) == key_segment(k2),
    ensures
        k1 == k2,
{
    lemma_auto_spec_u64_to_from_le_bytes();
    assert(spec_u64_to_le_bytes(k1.len() as u64) =~= spec_u64_to_le_bytes(k2.len() as u64)) by {
        assert forall|i: int| 0 <= i < 8 implies #[trigger] spec_u64_to_le_bytes(k1.len() as u64)[i]
            == spec_u64_to_le_bytes(k2.len() as u64)[i] by {
            assert(key_segment(k1)[i + 1] == spec_u64_to_le_bytes(k1.len() as u64)[i]);
            assert(key_segment(k2)[i + 1] == spec_u64_to_le_bytes(k2.len() as u64)[i]);
        }
    }
    assert(k1.len() as u64 == k2.len() as u64);
    assert(k1 =~= k2) by {
        assert forall|i: int| 0 <= i < k1.len() implies k1[i] == k2[i] by {
            assert(key_segment(k1)[9 + i] == k1[i]);
            assert(key_segment(k2)[9 + i] == k2[i]);
        }
    }
}

/// A slot or scope derived from one root field never lies under the path of
/// a different root field of the same parent: the path of the field `f1` is
/// not a prefix of any path that extends the path of the field `f2`.
pub proof fn lemma_root_segment_not_prefix(base: Seq<u8>, f1: u32, f2: u32, ext: Seq<u8>)
    requires
        f1 != f2,
    ensures
        !(base + root_segment(f1)).is_prefix_of(base + root_segment(f2) + ext),
{
    lemma_auto_spec_u32_to_from_le_bytes();
    if (base + root_segment(f1)).is_prefix_of(base + root_segment(f2) + ext) {
        let p = base + root_segment(f1);
        let w = base + root_segment(f2) + ext;
        assert(p =~= w.subrange(0, p.len() as int));
        assert(root_segment(f1) =~= root_segment(f2)) by {
            assert forall|i: int| 0 <= i < 5 implies root_segment(f1)[i]
                == root_segment(f2)[i] by {
                assert(p[base.len() + i] == root_segment(f1)[i]);
                assert(w[base.len() + i] == root_segment(f2)[i]);
                assert(p[base.len() + i] == w[base.len() + i]);
            }
        }
        lemma_root_segment_injective(f1, f2);
    }
}

/// An entry derived from one map key never lies under the path of an entry
/// with a different key in the same map scope: the path of the entry for
/// `k1` is not a prefix of any path that extends the path of the entry for
/// `k2`.
pub proof fn lemma_key_segment_not_prefix(base: Seq<u8>, k1: Seq<u8>, k2: Seq<u8>, ext: Seq<u8>)
    requires
        k1 != k2,
        k1.len() <= u64::MAX,
        k2.len() <= u64::MAX,
    ensures
        !(base + key_segment(k1)).is_prefix_of(base + key_segment(k2) + ext),
{
    lemma_auto_spec_u64_to_from_le_bytes();
    if (base + key_segment(k1)).is_prefix_of(base + key_segment(k2) + ext) {
        let p = base + key_segment(k1);
        let w = base + key_segment(k2) + ext;
        assert(p =~= w.subrange(0, p.len() as int));
        assert(forall|i: int| 0 <= i < p.len() ==> p[i] == #[trigger] w[i]);
        assert(spec_u64_to_le_bytes(k1.len() as u64) =~= spec_u64_to_le_bytes(
            k2.len() as u64,
        )) by {
            assert forall|i: int| 0 <= i < 8 implies #[trigger] spec_u64_to_le_bytes(
                k1.len() as u64,
            )[i] == spec_u64_to_le_bytes(k2.len() as u64)[i] by {
                assert(p[base.len() + 1 + i] == key_segment(k1)[1 + i]);
                assert(w[base.len() + 1 + i] == key_segment(k2)[1 + i]);
                assert(key_segment(k1)[1 + i] == spec_u64_to_le_bytes(k1.len() as u64)[i]);
                assert(key_segment(k2)[1 + i] == spec_u64_to_le_bytes(k2.len() as u64)[i]);
            }
        }
        assert(k1.len() as u64 == k2.len() as u64);
        assert(k1 =~= k2) by {
            assert forall|i: int| 0 <= i < k1.len() implies k1[i] == k2[i] by {
                assert(p[base.len() + 9 + i] == key_segment(k1)[9 + i]);
                assert(w[base.len() + 9 + i] == key_segment(k2)[9 + i]);
                assert(key_segment(k1)[9 + i] == k1[i]);
                assert(key_segment(k2)[9 + i] == k2[i]);
            }
        }
    }
}

/// Root-field slots and map entries of the same parent never lie under one
/// another: the segment tags differ at the first byte.
pub proof fn lemma_root_key_segments_disjoint(base: Seq<u8>, f: u32, k: Seq<u8>, ext: Seq<u8>)
    ensures
        !(base + root_segment(f)).is_prefix_of(base + key_segment(k) + ext),
        !(base + key_segment(k)).is_prefix_of(base + root_segment(f) + ext),
{
    lemma_auto_spec_u32_to_from_le_bytes();
    lemma_auto_spec_u64_to_from_le_bytes();
    if (base + root_segment(f)).is_prefix_of(base + key_segment(k) + ext) {
        let p = base + root_segment(f);
        let w = base + key_segment(k) + ext;
        assert(p =~= w.subrange(0, p.len() as int));
        assert(p[base.len() as int] == root_segment(f)[0]);
        assert(w[base.len() as int] == key_segment(k)[0]);
        assert(root_segment(f)[0] == 0u8);
        assert(key_segment(k)[0] == 1u8);
    }
    if (base + key_segment(k)).is_prefix_of(base + root_segment(f) + ext) {
        let p = base + key_segment(k);
        let w = base + root_segment(f) + ext;
        assert(p =~= w.subrange(0, p.len() as int));
        assert(p[base.len() as int] == key_segment(k)[0]);
        assert(w[base.len() as int] == root_segment(f)[0]);
        assert(key_segment(k)[0] == 1u8);
        assert(root_segment(f)[0] == 0u8);
    }
}

/// Appends the root-field segment for `field_id` to `path`.
pub fn append_root_segment(path: &[u8], field_id: u32) -> (r: Vec<u8>)
    ensures
        r@ == path@ + root_segment(field_id),
{
    let mut r = slice_to_vec(path);
    r.push(0u8);
    let id = u32_to_le_bytes(field_id);
    let mut i: usize = 0;
    while i < id.len()
        invariant
            i <= id@.len(),
            id@ == spec_u32_to_le_bytes(field_id),
            r@ =~= path@ + seq![0u8] + id@.subrange(0, i as int),
        decreases id@.len() - i,
    {
        r.push(id[i]);
        i = i + 1;
    }
    proof {
        assert(id@.subrange(0, id@.len() as int) =~= id@);
        assert(r@ =~= path@ + root_segment(field_id));
    }
    r
}

/// Appends the map-entry segment for `key` to `path`.
pub fn append_key_segment(path: &[u8], key: &[u8]) -> (r: Vec<u8>)
    ensures
        r@ == path@ + key_segment(key@),
{
    let mut r = slice_to_vec(path);
    r.push(1u8);
    let len_bytes = u64_to_le_bytes(key.len() as u64);
    let mut i: usize = 0;
    while i < len_bytes.len()
        invariant
            i <= len_bytes@.len(),
            len_bytes@ == spec_u64_to_le_bytes(key@.len() as u64),
            r@ =~= path@ + seq![1u8] + len_bytes@.subrange(0, i as int),
        decreases len_bytes@.len() - i,
    {
        r.push(len_bytes[i]);
        i = i + 1;
    }
    let mut j: usize = 0;
    while j < key.len()
        invariant
            j <= key@.len(),
            r@ =~= path@ + seq![1u8] + spec_u64_to_le_bytes(key@.len() as u64) + key@.subrange(
                0,
                j as int,
            ),
        decreases key@.len() - j,
    {
        r.push(key[j]);
        j = j + 1;
    }
    proof {
        assert(key@.subrange(0, key@.len() as int) =~= key@);
        assert(r@ =~= path@ + key_segment(key@));
    }
    r
}

} // verus!
