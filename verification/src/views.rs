//! The typed view wrapper family.
//!
//! For every supported value kind there is an immutable, read-only view and
//! a mutable, write-capable view; each binds one proxy to that kind's
//! encode/decode pair.  The split is enforced at the type level: an
//! immutable view has no code path that mutates the store.  Reading a path
//! that was never written yields the kind's defined default — absence and
//! default are indistinguishable through this interface, by design.

use crate::codec::{
    bool_from_bytes, bool_to_bytes, decode_bool, decode_hash, decode_hname, decode_string,
    decode_uint64, encode_bool, hash_from_bytes, hname_from_bytes, hname_to_bytes,
    string_from_bytes, string_to_bytes, uint64_from_bytes, uint64_to_bytes, zero_hash_seq, ScHash,
    ScHname,
};
use crate::proxy::{opposite, CallContext, Proxy};
use vstd::bytes::{spec_u32_to_le_bytes, spec_u64_to_le_bytes};
use vstd::prelude::*;
use vstd::slice::slice_to_vec;
use vstd::utf8::encode_utf8;

verus! {

// ---------------------------------------------------------------------------
// What each value kind reads at a path of a namespace map.  Absent slots
// resolve to the kind's default.
// ---------------------------------------------------------------------------
/// The raw bytes at `path`, or nothing when the path was never written.
pub open spec fn read_slot(m: Map<Seq<u8>, Seq<u8>>, path: Seq<u8>) -> Option<Seq<u8>> {
    if m.contains_key(path) {
        Some(m[path])
    } else {
        None
    }
}

/// The boolean value at `path`; absent slots read as false.
pub open spec fn bool_at(m: Map<Seq<u8>, Seq<u8>>, path: Seq<u8>) -> bool {
    m.contains_key(path) && decode_bool(m[path])
}

/// The byte-blob value at `path`; absent slots read as empty bytes.
pub open spec fn bytes_at(m: Map<Seq<u8>, Seq<u8>>, path: Seq<u8>) -> Seq<u8> {
    if m.contains_key(path) {
        m[path]
    } else {
        Seq::empty()
    }
}

/// The string value at `path`; absent slots read as the empty string.
pub open spec fn string_at(m: Map<Seq<u8>, Seq<u8>>, path: Seq<u8>) -> Seq<char> {
    if m.contains_key(path) {
        decode_string(m[path])
    } else {
        Seq::empty()
    }
}

/// The hash value at `path`; absent slots read as the all-zero hash.
pub open spec fn hash_at(m: Map<Seq<u8>, Seq<u8>>, path: Seq<u8>) -> Seq<u8> {
    if m.contains_key(path) {
        decode_hash(m[path])
    } else {
        zero_hash_seq()
    }
}

/// The hashed-name value at `path`; absent slots read as the zero name.
pub open spec fn hname_at(m: Map<Seq<u8>, Seq<u8>>, path: Seq<u8>) -> ScHname {
    if m.contains_key(path) {
        decode_hname(m[path])
    } else {
        ScHname(0)
    }
}

/// The unsigned 64-bit value at `path`; absent slots read as zero.
pub open spec fn uint64_at(m: Map<Seq<u8>, Seq<u8>>, path: Seq<u8>) -> u64 {
    if m.contains_key(path) {
        decode_uint64(m[path])
    } else {
        0
    }
}

// ---------------------------------------------------------------------------
// Boolean views.
// ---------------------------------------------------------------------------
/// Read-only view of a boolean slot.
pub struct ScImmutableBool {
    pub proxy: Proxy,
}

impl ScImmutableBool {
    /// Binds the view to a proxy; never fails and touches no storage.
    pub fn new(proxy: Proxy) -> (v: Self)
        ensures
            v.proxy == proxy,
    {
        ScImmutableBool { proxy }
    }

    /// The boolean stored at the view's path, or false when absent.
    pub fn value(&self, ctx: &CallContext) -> (b: bool)
        ensures
            b == bool_at(ctx.ns_map(self.proxy.ns), self.proxy.path@),
    {
        match ctx.read(self.proxy.ns, self.proxy.path.as_slice()) {
            Some(v) => bool_from_bytes(v.as_slice()),
            None => false,
        }
    }
}

/// Write-capable view of a boolean slot.
pub struct ScMutableBool {
    pub proxy: Proxy,
}

impl ScMutableBool {
    /// Binds the view to a proxy; never fails and touches no storage.
    pub fn new(proxy: Proxy) -> (v: Self)
        ensures
            v.proxy == proxy,
    {
        ScMutableBool { proxy }
    }

    /// The boolean stored at the view's path, or false when absent;
    /// read-after-write within the same call is observable.
    pub fn value(&self, ctx: &CallContext) -> (b: bool)
        ensures
            b == bool_at(ctx.ns_map(self.proxy.ns), self.proxy.path@),
    {
        match ctx.read(self.proxy.ns, self.proxy.path.as_slice()) {
            Some(v) => bool_from_bytes(v.as_slice()),
            None => false,
        }
    }

    /// Encodes `v` and stores it at the view's path, fully overwriting any
    /// prior value; every other slot and the other namespace are untouched.
    pub fn set_value(&self, ctx: &mut CallContext, v: bool)
        ensures
            final(ctx).ns_map(self.proxy.ns) == old(ctx).ns_map(self.proxy.ns).insert(
                self.proxy.path@,
                encode_bool(v),
            ),
            final(ctx).ns_map(opposite(self.proxy.ns)) == old(ctx).ns_map(
                opposite(self.proxy.ns),
            ),
    {
        ctx.write(self.proxy.ns, self.proxy.path.as_slice(), bool_to_bytes(v));
    }
}

// ---------------------------------------------------------------------------
// Byte-blob views.
// ---------------------------------------------------------------------------
/// Read-only view of a byte-blob slot.
pub struct ScImmutableBytes {
    pub proxy: Proxy,
}

impl ScImmutableBytes {
    /// Binds the view to a proxy; never fails and touches no storage.
    pub fn new(proxy: Proxy) -> (v: Self)
        ensures
            v.proxy == proxy,
    {
        ScImmutableBytes { proxy }
    }

    /// The bytes stored at the view's path, or empty bytes when absent.
    pub fn value(&self, ctx: &CallContext) -> (r: Vec<u8>)
        ensures
            r@ == bytes_at(ctx.ns_map(self.proxy.ns), self.proxy.path@),
    {
        match ctx.read(self.proxy.ns, self.proxy.path.as_slice()) {
            Some(v) => slice_to_vec(v.as_slice()),
            None => Vec::new(),
        }
    }
}

/// Write-capable view of a byte-blob slot.
pub struct ScMutableBytes {
    pub proxy: Proxy,
}

impl ScMutableBytes {
    /// Binds the view to a proxy; never fails and touches no storage.
    pub fn new(proxy: Proxy) -> (v: Self)
        ensures
            v.proxy == proxy,
    {
        ScMutableBytes { proxy }
    }

    /// The bytes stored at the view's path, or empty bytes when absent;
    /// read-after-write within the same call is observable.
    pub fn value(&self, ctx: &CallContext) -> (r: Vec<u8>)
        ensures
            r@ == bytes_at(ctx.ns_map(self.proxy.ns), self.proxy.path@),
    {
        match ctx.read(self.proxy.ns, self.proxy.path.as_slice()) {
            Some(v) => slice_to_vec(v.as_slice()),
            None => Vec::new(),
        }
    }

    /// Stores `v` at the view's path, fully overwriting any prior value;
    /// every other slot and the other namespace are untouched.
    pub fn set_value(&self, ctx: &mut CallContext, v: &[u8])
        ensures
            final(ctx).ns_map(self.proxy.ns) == old(ctx).ns_map(self.proxy.ns).insert(
                self.proxy.path@,
                v@,
            ),
            final(ctx).ns_map(opposite(self.proxy.ns)) == old(ctx).ns_map(
                opposite(self.proxy.ns),
            ),
    {
        ctx.write(self.proxy.ns, self.proxy.path.as_slice(), slice_to_vec(v));
    }
}

// ---------------------------------------------------------------------------
// String views.
// ---------------------------------------------------------------------------
/// Read-only view of a string slot.
pub struct ScImmutableString {
    pub proxy: Proxy,
}

impl ScImmutableString {
    /// Binds the view to a proxy; never fails and touches no storage.
    pub fn new(proxy: Proxy) -> (v: Self)
        ensures
            v.proxy == proxy,
    {
        ScImmutableString { proxy }
    }

    /// The string stored at the view's path, or the empty string when
    /// absent.
    pub fn value(&self, ctx: &CallContext) -> (r: String)
        ensures
            r@ == string_at(ctx.ns_map(self.proxy.ns), self.proxy.path@),
    {
        match ctx.read(self.proxy.ns, self.proxy.path.as_slice()) {
            Some(v) => string_from_bytes(v.as_slice()),
            None => String::new(),
        }
    }
}

/// Write-capable view of a string slot.
pub struct ScMutableString {
    pub proxy: Proxy,
}

impl ScMutableString {
    /// Binds the view to a proxy; never fails and touches no storage.
    pub fn new(proxy: Proxy) -> (v: Self)
        ensures
            v.proxy == proxy,
    {
        ScMutableString { proxy }
    }

    /// The string stored at the view's path, or the empty string when
    /// absent; read-after-write within the same call is observable.
    pub fn value(&self, ctx: &CallContext) -> (r: String)
        ensures
            r@ == string_at(ctx.ns_map(self.proxy.ns), self.proxy.path@),
    {
        match ctx.read(self.proxy.ns, self.proxy.path.as_slice()) {
            Some(v) => string_from_bytes(v.as_slice()),
            None => String::new(),
        }
    }

    /// Encodes `v` as its UTF-8 bytes and stores it at the view's path,
    /// fully overwriting any prior value; every other slot and the other
    /// namespace are untouched.
    pub fn set_value(&self, ctx: &mut CallContext, v: &str)
        ensures
            final(ctx).ns_map(self.proxy.ns) == old(ctx).ns_map(self.proxy.ns).insert(
                self.proxy.path@,
                encode_utf8(v@),
            ),
            final(ctx).ns_map(opposite(self.proxy.ns)) == old(ctx).ns_map(
                opposite(self.proxy.ns),
            ),
    {
        ctx.write(self.proxy.ns, self.proxy.path.as_slice(), string_to_bytes(v));
    }
}

// ---------------------------------------------------------------------------
// Hash views.
// ---------------------------------------------------------------------------
/// Read-only view of a 32-byte hash slot.
pub struct ScImmutableHash {
    pub proxy: Proxy,
}

impl ScImmutableHash {
    /// Binds the view to a proxy; never fails and touches no storage.
    pub fn new(proxy: Proxy) -> (v: Self)
        ensures
            v.proxy == proxy,
    {
        ScImmutableHash { proxy }
    }

    /// The hash stored at the view's path, or the all-zero hash when
    /// absent.
    pub fn value(&self, ctx: &CallContext) -> (h: ScHash)
        ensures
            h@ == hash_at(ctx.ns_map(self.proxy.ns), self.proxy.path@),
    {
        match ctx.read(self.proxy.ns, self.proxy.path.as_slice()) {
            Some(v) => hash_from_bytes(v.as_slice()),
            None => hash_from_bytes(&[]),
        }
    }
}

/// Write-capable view of a 32-byte hash slot.
pub struct ScMutableHash {
    pub proxy: Proxy,
}

impl ScMutableHash {
    /// Binds the view to a proxy; never fails and touches no storage.
    pub fn new(proxy: Proxy) -> (v: Self)
        ensures
            v.proxy == proxy,
    {
        ScMutableHash { proxy }
    }

    /// The hash stored at the view's path, or the all-zero hash when
    /// absent; read-after-write within the same call is observable.
    pub fn value(&self, ctx: &CallContext) -> (h: ScHash)
        ensures
            h@ == hash_at(ctx.ns_map(self.proxy.ns), self.proxy.path@),
    {
        match ctx.read(self.proxy.ns, self.proxy.path.as_slice()) {
            Some(v) => hash_from_bytes(v.as_slice()),
            None => hash_from_bytes(&[]),
        }
    }

    /// Stores the hash's fixed-width binary form at the view's path, fully
    /// overwriting any prior value; every other slot and the other
    /// namespace are untouched.
    pub fn set_value(&self, ctx: &mut CallContext, v: &ScHash)
        ensures
            final(ctx).ns_map(self.proxy.ns) == old(ctx).ns_map(self.proxy.ns).insert(
                self.proxy.path@,
                v@,
            ),
            final(ctx).ns_map(opposite(self.proxy.ns)) == old(ctx).ns_map(
                opposite(self.proxy.ns),
            ),
    {
        ctx.write(self.proxy.ns, self.proxy.path.as_slice(), v.to_bytes());
    }
}

// ---------------------------------------------------------------------------
// Hashed-name views.
// ---------------------------------------------------------------------------
/// Read-only view of a 4-byte hashed-name slot.
pub struct ScImmutableHname {
    pub proxy: Proxy,
}

impl ScImmutableHname {
    /// Binds the view to a proxy; never fails and touches no storage.
    pub fn new(proxy: Proxy) -> (v: Self)
        ensures
            v.proxy == proxy,
    {
        ScImmutableHname { proxy }
    }

    /// The hashed name stored at the view's path, or the zero name when
    /// absent.
    pub fn value(&self, ctx: &CallContext) -> (h: ScHname)
        ensures
            h == hname_at(ctx.ns_map(self.proxy.ns), self.proxy.path@),
    {
        match ctx.read(self.proxy.ns, self.proxy.path.as_slice()) {
            Some(v) => hname_from_bytes(v.as_slice()),
            None => ScHname(0),
        }
    }
}

/// Write-capable view of a 4-byte hashed-name slot.
pub struct ScMutableHname {
    pub proxy: Proxy,
}

impl ScMutableHname {
    /// Binds the view to a proxy; never fails and touches no storage.
    pub fn new(proxy: Proxy) -> (v: Self)
        ensures
            v.proxy == proxy,
    {
        ScMutableHname { proxy }
    }

    /// The hashed name stored at the view's path, or the zero name when
    /// absent; read-after-write within the same call is observable.
    pub fn value(&self, ctx: &CallContext) -> (h: ScHname)
        ensures
            h == hname_at(ctx.ns_map(self.proxy.ns), self.proxy.path@),
    {
        match ctx.read(self.proxy.ns, self.proxy.path.as_slice()) {
            Some(v) => hname_from_bytes(v.as_slice()),
            None => ScHname(0),
        }
    }

    /// Stores the name's fixed-width binary form at the view's path, fully
    /// overwriting any prior value; every other slot and the other
    /// namespace are untouched.
    pub fn set_value(&self, ctx: &mut CallContext, v: ScHname)
        ensures
            final(ctx).ns_map(self.proxy.ns) == old(ctx).ns_map(self.proxy.ns).insert(
                self.proxy.path@,
                spec_u32_to_le_bytes(v.0),
            ),
            final(ctx).ns_map(opposite(self.proxy.ns)) == old(ctx).ns_map(
                opposite(self.proxy.ns),
            ),
    {
        ctx.write(self.proxy.ns, self.proxy.path.as_slice(), hname_to_bytes(v));
    }
}

// ---------------------------------------------------------------------------
// Unsigned 64-bit views.
// ---------------------------------------------------------------------------
/// Read-only view of an unsigned 64-bit slot.
pub struct ScImmutableUint64 {
    pub proxy: Proxy,
}

impl ScImmutableUint64 {
    /// Binds the view to a proxy; never fails and touches no storage.
    pub fn new(proxy: Proxy) -> (v: Self)
        ensures
            v.proxy == proxy,
    {
        ScImmutableUint64 { proxy }
    }

    /// The value stored at the view's path, or zero when absent.
    pub fn value(&self, ctx: &CallContext) -> (x: u64)
        ensures
            x == uint64_at(ctx.ns_map(self.proxy.ns), self.proxy.path@),
    {
        match ctx.read(self.proxy.ns, self.proxy.path.as_slice()) {
            Some(v) => uint64_from_bytes(v.as_slice()),
            None => 0,
        }
    }
}

/// Write-capable view of an unsigned 64-bit slot.
pub struct ScMutableUint64 {
    pub proxy: Proxy,
}

impl ScMutableUint64 {
    /// Binds the view to a proxy; never fails and touches no storage.
    pub fn new(proxy: Proxy) -> (v: Self)
        ensures
            v.proxy == proxy,
    {
        ScMutableUint64 { proxy }
    }

    /// The value stored at the view's path, or zero when absent;
    /// read-after-write within the same call is observable.
    pub fn value(&self, ctx: &CallContext) -> (x: u64)
        ensures
            x == uint64_at(ctx.ns_map(self.proxy.ns), self.proxy.path@),
    {
        match ctx.read(self.proxy.ns, self.proxy.path.as_slice()) {
            Some(v) => uint64_from_bytes(v.as_slice()),
            None => 0,
        }
    }

    /// Stores the value's fixed-width little-endian form at the view's
    /// path, fully overwriting any prior value; every other slot and the
    /// other namespace are untouched.
    pub fn set_value(&self, ctx: &mut CallContext, v: u64)
        ensures
            final(ctx).ns_map(self.proxy.ns) == old(ctx).ns_map(self.proxy.ns).insert(
                self.proxy.path@,
                spec_u64_to_le_bytes(v),
            ),
            final(ctx).ns_map(opposite(self.proxy.ns)) == old(ctx).ns_map(
                opposite(self.proxy.ns),
            ),
    {
        ctx.write(self.proxy.ns, self.proxy.path.as_slice(), uint64_to_bytes(v));
    }
}

} // verus!
