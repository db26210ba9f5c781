//! A read-only access guard for pluggable cache-storage backends.
//!
//! Backends implement the [`cache::Storage`] capability set: fetch an entry
//! by key, write an entry, report capacity and usage, report a capability
//! mode, and report a location descriptor. The guard in [`readonly`] wraps a
//! shared reference to any such backend and re-exposes the same capability
//! set, rejecting every write and reporting a read-only capability mode while
//! forwarding all other operations unchanged.

pub mod cache;
pub mod readonly;
pub mod stub;
