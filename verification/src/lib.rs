//! A typed state-access layer over a flat key/value store.
//!
//! Contract logic reads and writes named fields of an opaque byte-keyed
//! store through compile-time-checked accessors instead of raw byte
//! manipulation.  The layer has four parts, leaf first: a key codec that
//! turns domain-typed keys into canonical store keys, a `Proxy` handle that
//! names one location inside a namespace, a family of immutable and mutable
//! typed views that bind a proxy to one value kind, and two scope roots, one
//! per call direction (parameters in, results out).

pub mod codec;
pub mod coreblob;
pub mod coreroot;
pub mod laws;
pub mod proxy;
pub mod store;
pub mod views;
