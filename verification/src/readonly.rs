//! A guard that presents any [`Storage`] backend as read-only.

use crate::cache::{
    Cache, CacheMode, CacheView, CacheWrite, Storage, StorageError, StorageErrorView,
};
use core::time::Duration;
use std::sync::Arc;
use vstd::prelude::*;

verus! {

/// The error raised when a write is attempted through the read-only guard.
///
/// It carries no backend detail, because the backend is never consulted.
#[derive(Clone, Copy, Debug, PartialEq, Eq, Structural)]
pub struct ReadOnlyError;

impl ReadOnlyError {
    /// The user-visible description of this error.
    pub fn message(&self) -> (r: String)
        ensures
            r@ == "Cannot write to read-only storage"@,
    {
        "Cannot write to read-only storage".to_owned()
    }
}

impl From<ReadOnlyError> for StorageError {
    /// A rejected write surfaces as the distinct read-only error kind.
    fn from(v: ReadOnlyError) -> (r: StorageError) {
        StorageError::ReadOnly
    }
}

impl vstd::std_specs::convert::FromSpecImpl<ReadOnlyError> for StorageError {
    open spec fn obeys_from_spec() -> bool {
        true
    }

    open spec fn from_spec(v: ReadOnlyError) -> StorageError {
        StorageError::ReadOnly
    }
}

/// A read-only view of a shared storage backend.
///
/// The guard holds a shared reference to its inner backend and re-exposes
/// the full [`Storage`] capability set. Reads and introspection forward
/// verbatim; writes are rejected before ever reaching the backend, and the
/// capability mode reported is always [`CacheMode::ReadOnly`], whatever the
/// backend itself would report.
pub struct ReadOnlyStorage<S: Storage>(pub Arc<S>);

impl<S: Storage> View for ReadOnlyStorage<S> {
    type V = S::V;

    /// The guard adds no state of its own: its abstract state is the
    /// backend's.
    open spec fn view(&self) -> S::V {
        self.0@
    }
}

impl<S: Storage> Storage for ReadOnlyStorage<S> {
    open spec fn get_model(state: S::V, key: Seq<char>) -> Result<CacheView, StorageErrorView> {
        S::get_model(state, key)
    }

    open spec fn put_model(state: S::V, key: Seq<char>, entry: Seq<u8>) -> Result<
        (),
        StorageErrorView,
    > {
        Err(StorageErrorView::ReadOnly)
    }

    open spec fn put_update(state: S::V, key: Seq<char>, entry: Seq<u8>) -> S::V {
        state
    }

    open spec fn check_model(state: S::V) -> Result<CacheMode, StorageErrorView> {
        Ok(CacheMode::ReadOnly)
    }

    open spec fn location_model(state: S::V) -> Seq<char> {
        S::location_model(state)
    }

    open spec fn current_size_model(state: S::V) -> Result<Option<u64>, StorageErrorView> {
        S::current_size_model(state)
    }

    open spec fn max_size_model(state: S::V) -> Result<Option<u64>, StorageErrorView> {
        S::max_size_model(state)
    }

    /// Forwards verbatim to the inner backend.
    fn get(&self, key: &str) -> (r: Result<Cache, StorageError>) {
        self.0.get(key)
    }

    /// Never forwards: fails with the read-only error before the inner
    /// backend is consulted, so no side effect can occur.
    fn put(&mut self, key: &str, entry: CacheWrite) -> (r: Result<Duration, StorageError>)
        ensures
            r == Err::<Duration, StorageError>(StorageError::ReadOnly),
            *final(self) == *old(self),
    {
        Err(StorageError::from(ReadOnlyError))
    }

    /// Never forwards: the guard's own policy is authoritative, whatever the
    /// inner backend's `check` would report.
    fn check(&self) -> (r: Result<CacheMode, StorageError>)
        ensures
            r == Ok::<CacheMode, StorageError>(CacheMode::ReadOnly),
    {
        Ok(CacheMode::ReadOnly)
    }

    /// Forwards verbatim to the inner backend.
    fn location(&self) -> (r: String) {
        self.0.location()
    }

    /// Forwards verbatim to the inner backend.
    fn current_size(&self) -> (r: Result<Option<u64>, StorageError>) {
        self.0.current_size()
    }

    /// Forwards verbatim to the inner backend.
    fn max_size(&self) -> (r: Result<Option<u64>, StorageError>) {
        self.0.max_size()
    }
}

/// Law: a write through the guard fails with the read-only error kind and
/// leaves the backend's state untouched, for every state, key and entry. The
/// backend's own write path is never consulted.
pub proof fn lemma_put_rejected<S: Storage>(state: S::V, key: Seq<char>, entry: Seq<u8>)
    ensures
        <ReadOnlyStorage<S> as Storage>::put_model(state, key, entry) == Err::<
            (),
            StorageErrorView,
        >(StorageErrorView::ReadOnly),
        <ReadOnlyStorage<S> as Storage>::put_update(state, key, entry) == state,
{
}

/// Law: a lookup through the guard returns exactly what the backend's own
/// lookup returns, success, failure and "not found" alike.
pub proof fn lemma_get_forwarded<S: Storage>(state: S::V, key: Seq<char>)
    ensures
        <ReadOnlyStorage<S> as Storage>::get_model(state, key) == S::get_model(state, key),
{
}

/// Law: the guard reports `ReadOnly` in every state, whatever mode the
/// backend's own `check` would report there.
pub proof fn lemma_check_overridden<S: Storage>(state: S::V)
    ensures
        <ReadOnlyStorage<S> as Storage>::check_model(state) == Ok::<
            CacheMode,
            StorageErrorView,
        >(CacheMode::ReadOnly),
{
}

/// Law: the guard reports exactly the backend's own location descriptor.
pub proof fn lemma_location_forwarded<S: Storage>(state: S::V)
    ensures
        <ReadOnlyStorage<S> as Storage>::location_model(state) == S::location_model(state),
{
}

/// Law: the guard reports exactly the backend's own usage and capacity,
/// absent values and failures included.
pub proof fn lemma_sizes_forwarded<S: Storage>(state: S::V)
    ensures
        <ReadOnlyStorage<S> as Storage>::current_size_model(state) == S::current_size_model(state),
        <ReadOnlyStorage<S> as Storage>::max_size_model(state) == S::max_size_model(state),
{
}

/// The guard's state after a whole sequence of attempted writes, each given
/// as a key and an entry payload.
pub open spec fn state_after_puts<S: Storage>(
    state: S::V,
    requests: Seq<(Seq<char>, Seq<u8>)>,
) -> S::V
    decreases requests.len(),
{
    if requests.len() == 0 {
        state
    } else {
        state_after_puts::<S>(
            <ReadOnlyStorage<S> as Storage>::put_update(state, requests[0].0, requests[0].1),
            requests.drop_first(),
        )
    }
}

/// Law: any number of repeated writes through the guard leaves the backend's
/// state exactly as it was; and by [`lemma_put_rejected`], each of them fails.
pub proof fn lemma_puts_never_mutate<S: Storage>(
    state: S::V,
    requests: Seq<(Seq<char>, Seq<u8>)>,
)
    ensures
        state_after_puts::<S>(state, requests) == state,
    decreases requests.len(),
{
    if requests.len() != 0 {
        lemma_puts_never_mutate::<S>(state, requests.drop_first());
    }
}

} // verus!
