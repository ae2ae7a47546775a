//! Proxies and the call context they act on.
//!
//! A `Proxy` is a lightweight handle naming one location (a slot or a map
//! scope) inside a namespace.  Deriving a child proxy is a pure path
//! extension and touches no storage; only the typed views read or write
//! through a proxy, against the `CallContext` that owns the two namespaces
//! of the current host call.

use crate::codec::{append_key_segment, append_root_segment, key_segment, root_segment};
use crate::store::{paths_under, KvStore};
use vstd::prelude::*;
use vstd::slice::slice_to_vec;

verus! {

/// One logical key/value scope, named after its call direction: parameters
/// flow in, results flow out.  The two scopes of one call are isolated from
/// each other.
#[derive(Clone, Copy, PartialEq, Eq, Structural, Debug)]
pub enum Namespace {
    Params,
    Results,
}

/// The namespace of the other call direction.
pub open spec fn opposite(ns: Namespace) -> Namespace {
    match ns {
        Namespace::Params => Namespace::Results,
        Namespace::Results => Namespace::Params,
    }
}

/// The state of one host call: its parameter namespace and its result
/// namespace, each a flat store from byte paths to byte values.  The
/// namespaces live exactly as long as the call and are passed explicitly to
/// every read and write.
pub struct CallContext {
    pub params: KvStore,
    pub results: KvStore,
}

impl CallContext {
    /// The map held by one of the two namespaces.
    pub open spec fn ns_map(&self, ns: Namespace) -> Map<Seq<u8>, Seq<u8>> {
        match ns {
            Namespace::Params => self.params@,
            Namespace::Results => self.results@,
        }
    }

    /// A fresh call context: both namespaces start empty.
    pub fn new() -> (ctx: CallContext)
        ensures
            ctx.params@ == Map::<Seq<u8>, Seq<u8>>::empty(),
            ctx.results@ == Map::<Seq<u8>, Seq<u8>>::empty(),
    {
        CallContext { params: KvStore::new(), results: KvStore::new() }
    }

    /// Returns the raw bytes at `path` in the given namespace, or nothing
    /// when the path was never written.
    pub fn read(&self, ns: Namespace, path: &[u8]) -> (r: Option<&Vec<u8>>)
        ensures
            match r {
                Some(v) => self.ns_map(ns).contains_key(path@) && v@ == self.ns_map(ns)[path@],
                None => !self.ns_map(ns).contains_key(path@),
            },
    {
        match ns {
            Namespace::Params => self.params.read(path),
            Namespace::Results => self.results.read(path),
        }
    }

    /// Stores `value` at `path` in the given namespace, fully overwriting
    /// any prior value; the other namespace is untouched.
    pub fn write(&mut self, ns: Namespace, path: &[u8], value: Vec<u8>)
        ensures
            final(self).ns_map(ns) == old(self).ns_map(ns).insert(path@, value@),
            final(self).ns_map(opposite(ns)) == old(self).ns_map(opposite(ns)),
    {
        match ns {
            Namespace::Params => self.params.write(path, value),
            Namespace::Results => self.results.write(path, value),
        }
    }

    /// Removes every entry of the given namespace whose path starts with
    /// `prefix`, and no other; the other namespace is untouched.
    pub fn delete_prefix(&mut self, ns: Namespace, prefix: &[u8])
        ensures
            final(self).ns_map(ns) == old(self).ns_map(ns).remove_keys(paths_under(prefix@)),
            final(self).ns_map(opposite(ns)) == old(self).ns_map(opposite(ns)),
    {
        match ns {
            Namespace::Params => self.params.delete_prefix(prefix),
            Namespace::Results => self.results.delete_prefix(prefix),
        }
    }
}

/// A derived path handle addressing one slot or map scope within a
/// namespace.  Two proxies with equal namespace and path address the same
/// underlying storage slot.
pub struct Proxy {
    pub ns: Namespace,
    pub path: Vec<u8>,
}

impl Clone for Proxy {
    fn clone(&self) -> (r: Self)
        ensures
            r.ns == self.ns,
            r.path@ == self.path@,
    {
        Proxy { ns: self.ns, path: slice_to_vec(self.path.as_slice()) }
    }
}

impl Proxy {
    /// Derives the child proxy of the schema-declared root field
    /// `field_id`: a pure path extension, deterministic in the current path
    /// and the identifier.
    pub fn root(&self, field_id: u32) -> (p: Proxy)
        ensures
            p.ns == self.ns,
            p.path@ == self.path@ + root_segment(field_id),
    {
        Proxy { ns: self.ns, path: append_root_segment(self.path.as_slice(), field_id) }
    }

    /// Derives the child proxy of the dynamic map entry keyed by
    /// `key_bytes`: a pure path extension, deterministic in the current
    /// path and the key bytes.
    pub fn key(&self, key_bytes: &[u8]) -> (p: Proxy)
        ensures
            p.ns == self.ns,
            p.path@ == self.path@ + key_segment(key_bytes@),
    {
        Proxy { ns: self.ns, path: append_key_segment(self.path.as_slice(), key_bytes) }
    }

    /// Bulk-deletes every stored entry whose path lies under this proxy's
    /// path: afterwards the scope is empty.  An O(scope-size) removal, not a
    /// pointer reset; entries outside the scope and the other namespace are
    /// untouched.
    pub fn clear_map(&self, ctx: &mut CallContext)
        ensures
            final(ctx).ns_map(self.ns) == old(ctx).ns_map(self.ns).remove_keys(
                paths_under(self.path@),
            ),
            final(ctx).ns_map(opposite(self.ns)) == old(ctx).ns_map(opposite(self.ns)),
    {
        ctx.delete_prefix(self.ns, self.path.as_slice())
    }
}

/// The root proxy of the call's read-only input namespace.  Repeated
/// acquisition within one call yields proxies addressing the same root.
pub fn params_proxy() -> (p: Proxy)
    ensures
        p.ns == Namespace::Params,
        p.path@ == Seq::<u8>::empty(),
{
    Proxy { ns: Namespace::Params, path: Vec::new() }
}

/// The root proxy of the call's write-only output namespace.  Repeated
/// acquisition within one call yields proxies addressing the same root.
pub fn results_proxy() -> (p: Proxy)
    ensures
        p.ns == Namespace::Results,
        p.path@ == Seq::<u8>::empty(),
{
    Proxy { ns: Namespace::Results, path: Vec::new() }
}

} // verus!
