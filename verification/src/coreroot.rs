//! Accessors for the root contract's call results.
//!
//! Thin, schema-shaped wrappers over the access core: each method derives
//! the proxy of one declared field and binds it to the field's value kind.
//! The contract registry is a map of byte records keyed by 4-byte hashed
//! contract names.

use crate::codec::{hname_to_bytes, key_segment, root_segment, ScHname};
use crate::proxy::{opposite, results_proxy, CallContext, Namespace, Proxy};
use crate::store::paths_under;
use crate::views::{ScImmutableBool, ScImmutableBytes, ScMutableBool, ScMutableBytes};
use vstd::bytes::spec_u32_to_le_bytes;
use vstd::prelude::*;

verus! {

/// Field identifier of the contract-found flag.
pub const RESULT_CONTRACT_FOUND: u32 = 1;

/// Field identifier of the encoded contract record.
pub const RESULT_CONTRACT_REC_DATA: u32 = 2;

/// Field identifier of the contract registry map.
pub const RESULT_CONTRACT_REGISTRY: u32 = 3;

/// Read-only results of a contract lookup.
pub struct ImmutableFindContractResults {
    pub proxy: Proxy,
}

impl Clone for ImmutableFindContractResults {
    fn clone(&self) -> (r: Self)
        ensures
            r.proxy.ns == self.proxy.ns,
            r.proxy.path@ == self.proxy.path@,
    {
        ImmutableFindContractResults { proxy: self.proxy.clone() }
    }
}

impl ImmutableFindContractResults {
    /// Whether or not the contract exists.
    pub fn contract_found(&self) -> (v: ScImmutableBool)
        ensures
            v.proxy.ns == self.proxy.ns,
            v.proxy.path@ == self.proxy.path@ + root_segment(RESULT_CONTRACT_FOUND),
    {
        ScImmutableBool::new(self.proxy.root(RESULT_CONTRACT_FOUND))
    }

    /// Encoded contract record, if it exists.
    pub fn contract_rec_data(&self) -> (v: ScImmutableBytes)
        ensures
            v.proxy.ns == self.proxy.ns,
            v.proxy.path@ == self.proxy.path@ + root_segment(RESULT_CONTRACT_REC_DATA),
    {
        ScImmutableBytes::new(self.proxy.root(RESULT_CONTRACT_REC_DATA))
    }
}

/// Write-capable results of a contract lookup.
pub struct MutableFindContractResults {
    pub proxy: Proxy,
}

impl Clone for MutableFindContractResults {
    fn clone(&self) -> (r: Self)
        ensures
            r.proxy.ns == self.proxy.ns,
            r.proxy.path@ == self.proxy.path@,
    {
        MutableFindContractResults { proxy: self.proxy.clone() }
    }
}

impl MutableFindContractResults {
    /// Binds the accessor to the call's result root.
    pub fn new() -> (p: MutableFindContractResults)
        ensures
            p.proxy.ns == Namespace::Results,
            p.proxy.path@ == Seq::<u8>::empty(),
    {
        MutableFindContractResults { proxy: results_proxy() }
    }

    /// Whether or not the contract exists.
    pub fn contract_found(&self) -> (v: ScMutableBool)
        ensures
            v.proxy.ns == self.proxy.ns,
            v.proxy.path@ == self.proxy.path@ + root_segment(RESULT_CONTRACT_FOUND),
    {
        ScMutableBool::new(self.proxy.root(RESULT_CONTRACT_FOUND))
    }

    /// Encoded contract record, if it exists.
    pub fn contract_rec_data(&self) -> (v: ScMutableBytes)
        ensures
            v.proxy.ns == self.proxy.ns,
            v.proxy.path@ == self.proxy.path@ + root_segment(RESULT_CONTRACT_REC_DATA),
    {
        ScMutableBytes::new(self.proxy.root(RESULT_CONTRACT_REC_DATA))
    }
}

/// Read-only map of byte records keyed by hashed names.
pub struct MapHnameToImmutableBytes {
    pub proxy: Proxy,
}

impl Clone for MapHnameToImmutableBytes {
    fn clone(&self) -> (r: Self)
        ensures
            r.proxy.ns == self.proxy.ns,
            r.proxy.path@ == self.proxy.path@,
    {
        MapHnameToImmutableBytes { proxy: self.proxy.clone() }
    }
}

impl MapHnameToImmutableBytes {
    /// The read-only view of the entry keyed by `key`'s fixed-width binary
    /// form.
    pub fn get_bytes(&self, key: ScHname) -> (v: ScImmutableBytes)
        ensures
            v.proxy.ns == self.proxy.ns,
            v.proxy.path@ == self.proxy.path@ + key_segment(spec_u32_to_le_bytes(key.0)),
    {
        ScImmutableBytes::new(self.proxy.key(hname_to_bytes(key).as_slice()))
    }
}

/// Read-only results of a contract-registry request.
pub struct ImmutableGetContractRecordsResults {
    pub proxy: Proxy,
}

impl Clone for ImmutableGetContractRecordsResults {
    fn clone(&self) -> (r: Self)
        ensures
            r.proxy.ns == self.proxy.ns,
            r.proxy.path@ == self.proxy.path@,
    {
        ImmutableGetContractRecordsResults { proxy: self.proxy.clone() }
    }
}

impl ImmutableGetContractRecordsResults {
    /// Contract records by hashed name.
    pub fn contract_registry(&self) -> (m: MapHnameToImmutableBytes)
        ensures
            m.proxy.ns == self.proxy.ns,
            m.proxy.path@ == self.proxy.path@ + root_segment(RESULT_CONTRACT_REGISTRY),
    {
        MapHnameToImmutableBytes { proxy: self.proxy.root(RESULT_CONTRACT_REGISTRY) }
    }
}

/// Write-capable map of byte records keyed by hashed names.
pub struct MapHnameToMutableBytes {
    pub proxy: Proxy,
}

impl Clone for MapHnameToMutableBytes {
    fn clone(&self) -> (r: Self)
        ensures
            r.proxy.ns == self.proxy.ns,
            r.proxy.path@ == self.proxy.path@,
    {
        MapHnameToMutableBytes { proxy: self.proxy.clone() }
    }
}

impl MapHnameToMutableBytes {
    /// Removes every entry under this map's scope.
    pub fn clear(&self, ctx: &mut CallContext)
        ensures
            final(ctx).ns_map(self.proxy.ns) == old(ctx).ns_map(self.proxy.ns).remove_keys(
                paths_under(self.proxy.path@),
            ),
            final(ctx).ns_map(opposite(self.proxy.ns)) == old(ctx).ns_map(
                opposite(self.proxy.ns),
            ),
    {
        self.proxy.clear_map(ctx);
    }

    /// The write-capable view of the entry keyed by `key`'s fixed-width
    /// binary form.
    pub fn get_bytes(&self, key: ScHname) -> (v: ScMutableBytes)
        ensures
            v.proxy.ns == self.proxy.ns,
            v.proxy.path@ == self.proxy.path@ + key_segment(spec_u32_to_le_bytes(key.0)),
    {
        ScMutableBytes::new(self.proxy.key(hname_to_bytes(key).as_slice()))
    }
}

/// Write-capable results of a contract-registry request.
pub struct MutableGetContractRecordsResults {
    pub proxy: Proxy,
}

impl Clone for MutableGetContractRecordsResults {
    fn clone(&self) -> (r: Self)
        ensures
            r.proxy.ns == self.proxy.ns,
            r.proxy.path@ == self.proxy.path@,
    {
        MutableGetContractRecordsResults { proxy: self.proxy.clone() }
    }
}

impl MutableGetContractRecordsResults {
    /// Binds the accessor to the call's result root.
    pub fn new() -> (p: MutableGetContractRecordsResults)
        ensures
            p.proxy.ns == Namespace::Results,
            p.proxy.path@ == Seq::<u8>::empty(),
    {
        MutableGetContractRecordsResults { proxy: results_proxy() }
    }

    /// Contract records by hashed name.
    pub fn contract_registry(&self) -> (m: MapHnameToMutableBytes)
        ensures
            m.proxy.ns == self.proxy.ns,
            m.proxy.path@ == self.proxy.path@ + root_segment(RESULT_CONTRACT_REGISTRY),
    {
        MapHnameToMutableBytes { proxy: self.proxy.root(RESULT_CONTRACT_REGISTRY) }
    }
}

} // verus!
