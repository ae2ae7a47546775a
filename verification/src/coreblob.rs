//! Accessors for the blob store's call parameters.
//!
//! Thin, schema-shaped wrappers over the access core: each method derives
//! the proxy of one declared field and binds it to the field's value kind.
//! The `blobs` collection of `StoreBlob` sits at the parameter root itself;
//! the other fields are named root slots beside it.

use crate::codec::{key_segment, root_segment, string_to_bytes};
use crate::proxy::{opposite, params_proxy, CallContext, Namespace, Proxy};
use crate::store::paths_under;
use crate::views::{
    ScImmutableBytes, ScImmutableHash, ScImmutableString, ScMutableBytes, ScMutableHash,
    ScMutableString,
};
use vstd::prelude::*;
use vstd::utf8::encode_utf8;

verus! {

/// Field identifier of the data schema blob.
pub const PARAM_DATA_SCHEMA: u32 = 1;

/// Field identifier of the chunk-name parameter.
pub const PARAM_FIELD: u32 = 2;

/// Field identifier of the blob-hash parameter.
pub const PARAM_HASH: u32 = 3;

/// Field identifier of the program binary blob.
pub const PARAM_PROG_BINARY: u32 = 4;

/// Field identifier of the program sources blob.
pub const PARAM_SOURCES: u32 = 5;

/// Field identifier of the VM type string.
pub const PARAM_VM_TYPE: u32 = 6;

/// Read-only map of string-named byte chunks.
pub struct MapStringToImmutableBytes {
    pub proxy: Proxy,
}

impl Clone for MapStringToImmutableBytes {
    fn clone(&self) -> (r: Self)
        ensures
            r.proxy.ns == self.proxy.ns,
            r.proxy.path@ == self.proxy.path@,
    {
        MapStringToImmutableBytes { proxy: self.proxy.clone() }
    }
}

impl MapStringToImmutableBytes {
    /// The read-only view of the entry keyed by `key`'s UTF-8 bytes.
    pub fn get_bytes(&self, key: &str) -> (v: ScImmutableBytes)
        ensures
            v.proxy.ns == self.proxy.ns,
            v.proxy.path@ == self.proxy.path@ + key_segment(encode_utf8(key@)),
    {
        ScImmutableBytes::new(self.proxy.key(string_to_bytes(key).as_slice()))
    }
}

/// Read-only parameters of a blob-store request.
pub struct ImmutableStoreBlobParams {
    pub proxy: Proxy,
}

impl Clone for ImmutableStoreBlobParams {
    fn clone(&self) -> (r: Self)
        ensures
            r.proxy.ns == self.proxy.ns,
            r.proxy.path@ == self.proxy.path@,
    {
        ImmutableStoreBlobParams { proxy: self.proxy.clone() }
    }
}

impl ImmutableStoreBlobParams {
    /// Binds the accessor to the call's parameter root.
    pub fn new() -> (p: ImmutableStoreBlobParams)
        ensures
            p.proxy.ns == Namespace::Params,
            p.proxy.path@ == Seq::<u8>::empty(),
    {
        ImmutableStoreBlobParams { proxy: params_proxy() }
    }

    /// Named chunks, keyed by caller-supplied field names at the parameter
    /// root.
    pub fn blobs(&self) -> (m: MapStringToImmutableBytes)
        ensures
            m.proxy.ns == self.proxy.ns,
            m.proxy.path@ == self.proxy.path@,
    {
        MapStringToImmutableBytes { proxy: self.proxy.clone() }
    }

    /// Data schema for external tools.
    pub fn data_schema(&self) -> (v: ScImmutableBytes)
        ensures
            v.proxy.ns == self.proxy.ns,
            v.proxy.path@ == self.proxy.path@ + root_segment(PARAM_DATA_SCHEMA),
    {
        ScImmutableBytes::new(self.proxy.root(PARAM_DATA_SCHEMA))
    }

    /// Smart contract program binary code.
    pub fn prog_binary(&self) -> (v: ScImmutableBytes)
        ensures
            v.proxy.ns == self.proxy.ns,
            v.proxy.path@ == self.proxy.path@ + root_segment(PARAM_PROG_BINARY),
    {
        ScImmutableBytes::new(self.proxy.root(PARAM_PROG_BINARY))
    }

    /// Smart contract program source code.
    pub fn sources(&self) -> (v: ScImmutableBytes)
        ensures
            v.proxy.ns == self.proxy.ns,
            v.proxy.path@ == self.proxy.path@ + root_segment(PARAM_SOURCES),
    {
        ScImmutableBytes::new(self.proxy.root(PARAM_SOURCES))
    }

    /// VM type that must be used to run the program binary.
    pub fn vm_type(&self) -> (v: ScImmutableString)
        ensures
            v.proxy.ns == self.proxy.ns,
            v.proxy.path@ == self.proxy.path@ + root_segment(PARAM_VM_TYPE),
    {
        ScImmutableString::new(self.proxy.root(PARAM_VM_TYPE))
    }
}

/// Write-capable map of string-named byte chunks.
pub struct MapStringToMutableBytes {
    pub proxy: Proxy,
}

impl Clone for MapStringToMutableBytes {
    fn clone(&self) -> (r: Self)
        ensures
            r.proxy.ns == self.proxy.ns,
            r.proxy.path@ == self.proxy.path@,
    {
        MapStringToMutableBytes { proxy: self.proxy.clone() }
    }
}

impl MapStringToMutableBytes {
    /// Removes every entry under this map's scope.
    pub fn clear(&self, ctx: &mut CallContext)
        ensures
            final(ctx).ns_map(self.proxy.ns) == old(ctx).ns_map(self.proxy.ns).remove_keys(
                paths_under(self.proxy.path@),
            ),
            final(ctx).ns_map(opposite(self.proxy.ns)) == old(ctx).ns_map(
                opposite(self.proxy.ns),
            ),
    {
        self.proxy.clear_map(ctx);
    }

    /// The write-capable view of the entry keyed by `key`'s UTF-8 bytes.
    pub fn get_bytes(&self, key: &str) -> (v: ScMutableBytes)
        ensures
            v.proxy.ns == self.proxy.ns,
            v.proxy.path@ == self.proxy.path@ + key_segment(encode_utf8(key@)),
    {
        ScMutableBytes::new(self.proxy.key(string_to_bytes(key).as_slice()))
    }
}

/// Write-capable parameters of a blob-store request.
pub struct MutableStoreBlobParams {
    pub proxy: Proxy,
}

impl Clone for MutableStoreBlobParams {
    fn clone(&self) -> (r: Self)
        ensures
            r.proxy.ns == self.proxy.ns,
            r.proxy.path@ == self.proxy.path@,
    {
        MutableStoreBlobParams { proxy: self.proxy.clone() }
    }
}

impl MutableStoreBlobParams {
    /// Named chunks, keyed by caller-supplied field names at the parameter
    /// root.
    pub fn blobs(&self) -> (m: MapStringToMutableBytes)
        ensures
            m.proxy.ns == self.proxy.ns,
            m.proxy.path@ == self.proxy.path@,
    {
        MapStringToMutableBytes { proxy: self.proxy.clone() }
    }

    /// Data schema for external tools.
    pub fn data_schema(&self) -> (v: ScMutableBytes)
        ensures
            v.proxy.ns == self.proxy.ns,
            v.proxy.path@ == self.proxy.path@ + root_segment(PARAM_DATA_SCHEMA),
    {
        ScMutableBytes::new(self.proxy.root(PARAM_DATA_SCHEMA))
    }

    /// Smart contract program binary code.
    pub fn prog_binary(&self) -> (v: ScMutableBytes)
        ensures
            v.proxy.ns == self.proxy.ns,
            v.proxy.path@ == self.proxy.path@ + root_segment(PARAM_PROG_BINARY),
    {
        ScMutableBytes::new(self.proxy.root(PARAM_PROG_BINARY))
    }

    /// Smart contract program source code.
    pub fn sources(&self) -> (v: ScMutableBytes)
        ensures
            v.proxy.ns == self.proxy.ns,
            v.proxy.path@ == self.proxy.path@ + root_segment(PARAM_SOURCES),
    {
        ScMutableBytes::new(self.proxy.root(PARAM_SOURCES))
    }

    /// VM type that must be used to run the program binary.
    pub fn vm_type(&self) -> (v: ScMutableString)
        ensures
            v.proxy.ns == self.proxy.ns,
            v.proxy.path@ == self.proxy.path@ + root_segment(PARAM_VM_TYPE),
    {
        ScMutableString::new(self.proxy.root(PARAM_VM_TYPE))
    }
}

/// Read-only parameters of a blob-field request.
pub struct ImmutableGetBlobFieldParams {
    pub proxy: Proxy,
}

impl Clone for ImmutableGetBlobFieldParams {
    fn clone(&self) -> (r: Self)
        ensures
            r.proxy.ns == self.proxy.ns,
            r.proxy.path@ == self.proxy.path@,
    {
        ImmutableGetBlobFieldParams { proxy: self.proxy.clone() }
    }
}

impl ImmutableGetBlobFieldParams {
    /// Binds the accessor to the call's parameter root.
    pub fn new() -> (p: ImmutableGetBlobFieldParams)
        ensures
            p.proxy.ns == Namespace::Params,
            p.proxy.path@ == Seq::<u8>::empty(),
    {
        ImmutableGetBlobFieldParams { proxy: params_proxy() }
    }

    /// Chunk name.
    pub fn field(&self) -> (v: ScImmutableString)
        ensures
            v.proxy.ns == self.proxy.ns,
            v.proxy.path@ == self.proxy.path@ + root_segment(PARAM_FIELD),
    {
        ScImmutableString::new(self.proxy.root(PARAM_FIELD))
    }

    /// Hash of the blob.
    pub fn hash(&self) -> (v: ScImmutableHash)
        ensures
            v.proxy.ns == self.proxy.ns,
            v.proxy.path@ == self.proxy.path@ + root_segment(PARAM_HASH),
    {
        ScImmutableHash::new(self.proxy.root(PARAM_HASH))
    }
}

/// Write-capable parameters of a blob-field request.
pub struct MutableGetBlobFieldParams {
    pub proxy: Proxy,
}

impl Clone for MutableGetBlobFieldParams {
    fn clone(&self) -> (r: Self)
        ensures
            r.proxy.ns == self.proxy.ns,
            r.proxy.path@ == self.proxy.path@,
    {
        MutableGetBlobFieldParams { proxy: self.proxy.clone() }
    }
}

impl MutableGetBlobFieldParams {
    /// Chunk name.
    pub fn field(&self) -> (v: ScMutableString)
        ensures
            v.proxy.ns == self.proxy.ns,
            v.proxy.path@ == self.proxy.path@ + root_segment(PARAM_FIELD),
    {
        ScMutableString::new(self.proxy.root(PARAM_FIELD))
    }

    /// Hash of the blob.
    pub fn hash(&self) -> (v: ScMutableHash)
        ensures
            v.proxy.ns == self.proxy.ns,
            v.proxy.path@ == self.proxy.path@ + root_segment(PARAM_HASH),
    {
        ScMutableHash::new(self.proxy.root(PARAM_HASH))
    }
}

/// Read-only parameters of a blob-info request.
pub struct ImmutableGetBlobInfoParams {
    pub proxy: Proxy,
}

impl Clone for ImmutableGetBlobInfoParams {
    fn clone(&self) -> (r: Self)
        ensures
            r.proxy.ns == self.proxy.ns,
            r.proxy.path@ == self.proxy.path@,
    {
        ImmutableGetBlobInfoParams { proxy: self.proxy.clone() }
    }
}

impl ImmutableGetBlobInfoParams {
    /// Binds the accessor to the call's parameter root.
    pub fn new() -> (p: ImmutableGetBlobInfoParams)
        ensures
            p.proxy.ns == Namespace::Params,
            p.proxy.path@ == Seq::<u8>::empty(),
    {
        ImmutableGetBlobInfoParams { proxy: params_proxy() }
    }

    /// Hash of the blob.
    pub fn hash(&self) -> (v: ScImmutableHash)
        ensures
            v.proxy.ns == self.proxy.ns,
            v.proxy.path@ == self.proxy.path@ + root_segment(PARAM_HASH),
    {
        ScImmutableHash::new(self.proxy.root(PARAM_HASH))
    }
}

/// Write-capable parameters of a blob-info request.
pub struct MutableGetBlobInfoParams {
    pub proxy: Proxy,
}

impl Clone for MutableGetBlobInfoParams {
    fn clone(&self) -> (r: Self)
        ensures
            r.proxy.ns == self.proxy.ns,
            r.proxy.path@ == self.proxy.path@,
    {
        MutableGetBlobInfoParams { proxy: self.proxy.clone() }
    }
}

impl MutableGetBlobInfoParams {
    /// Hash of the blob.
    pub fn hash(&self) -> (v: ScMutableHash)
        ensures
            v.proxy.ns == self.proxy.ns,
            v.proxy.path@ == self.proxy.path@ + root_segment(PARAM_HASH),
    {
        ScMutableHash::new(self.proxy.root(PARAM_HASH))
    }
}

} // verus!
