//! The storage capability set and the plain values it traffics in.

use core::time::Duration;
use vstd::prelude::*;

verus! {

/// Capability mode of a storage backend: whether `put` may succeed.
#[derive(Clone, Copy, Debug, PartialEq, Eq, Structural)]
pub enum CacheMode {
    /// The backend can only serve `get`.
    ReadOnly,
    /// The backend can serve both `get` and `put`.
    ReadWrite,
}

/// Result of a cache lookup: the entry's bytes, or "not found".
#[derive(Clone, Debug, PartialEq, Eq)]
pub enum Cache {
    /// The entry stored under the requested key.
    Hit(Vec<u8>),
    /// No entry is stored under the requested key.
    Miss,
}

/// An entry payload handed to `put`.
#[derive(Clone, Debug, PartialEq, Eq)]
pub struct CacheWrite(pub Vec<u8>);

/// Failure of a storage operation.
#[derive(Clone, Debug, PartialEq, Eq)]
pub enum StorageError {
    /// The write was rejected because the storage is read-only.
    ReadOnly,
    /// A backend-specific failure, forwarded unchanged.
    Backend(String),
}

/// Mathematical value of a [`Cache`] lookup result.
pub enum CacheView {
    Hit(Seq<u8>),
    Miss,
}

/// Mathematical value of a [`StorageError`].
pub enum StorageErrorView {
    ReadOnly,
    Backend(Seq<char>),
}

impl View for Cache {
    type V = CacheView;

    open spec fn view(&self) -> CacheView {
        match self {
            Cache::Hit(entry) => CacheView::Hit(entry@),
            Cache::Miss => CacheView::Miss,
        }
    }
}

impl View for CacheWrite {
    type V = Seq<u8>;

    open spec fn view(&self) -> Seq<u8> {
        self.0@
    }
}

impl View for StorageError {
    type V = StorageErrorView;

    open spec fn view(&self) -> StorageErrorView {
        match self {
            StorageError::ReadOnly => StorageErrorView::ReadOnly,
            StorageError::Backend(message) => StorageErrorView::Backend(message@),
        }
    }
}

/// The outcome of a `get`, with the entry and any error taken at their views.
pub open spec fn get_outcome(r: Result<Cache, StorageError>) -> Result<
    CacheView,
    StorageErrorView,
> {
    match r {
        Ok(found) => Ok(found@),
        Err(e) => Err(e@),
    }
}

/// The outcome of a `put`: whether it succeeded, and with which error it
/// failed. The duration a successful write took is incidental and carries no
/// contractual meaning, so it is dropped here.
pub open spec fn put_outcome(r: Result<Duration, StorageError>) -> Result<
    (),
    StorageErrorView,
> {
    match r {
        Ok(_) => Ok(()),
        Err(e) => Err(e@),
    }
}

/// The outcome of a `check`, with any error taken at its view.
pub open spec fn check_outcome(r: Result<CacheMode, StorageError>) -> Result<
    CacheMode,
    StorageErrorView,
> {
    match r {
        Ok(mode) => Ok(mode),
        Err(e) => Err(e@),
    }
}

/// The outcome of a size query, with any error taken at its view.
pub open spec fn size_outcome(r: Result<Option<u64>, StorageError>) -> Result<
    Option<u64>,
    StorageErrorView,
> {
    match r {
        Ok(size) => Ok(size),
        Err(e) => Err(e@),
    }
}

/// The storage capability set that every cache backend provides.
///
/// Each operation's behaviour is pinned to a spec-function model over the
/// backend's abstract state `Self::V`: `get` returns exactly
/// `Self::get_model`, `put` returns exactly `Self::put_model` and leaves the
/// backend in the state `Self::put_update`, and so on. A wrapper that
/// implements this trait around another implementation can therefore state
/// precisely which operations it forwards and which it overrides.
pub trait Storage: View + Sized {
    /// What a lookup of `key` returns, as a function of the backend's state.
    spec fn get_model(state: Self::V, key: Seq<char>) -> Result<CacheView, StorageErrorView>;

    /// Whether a write of `entry` under `key` succeeds, and with which error
    /// it fails.
    spec fn put_model(state: Self::V, key: Seq<char>, entry: Seq<u8>) -> Result<
        (),
        StorageErrorView,
    >;

    /// The backend's state after a write of `entry` under `key`.
    spec fn put_update(state: Self::V, key: Seq<char>, entry: Seq<u8>) -> Self::V;

    /// The capability mode the backend reports.
    spec fn check_model(state: Self::V) -> Result<CacheMode, StorageErrorView>;

    /// The location descriptor the backend reports.
    spec fn location_model(state: Self::V) -> Seq<char>;

    /// The current usage the backend reports, if it supports the query.
    spec fn current_size_model(state: Self::V) -> Result<Option<u64>, StorageErrorView>;

    /// The capacity the backend reports, if it supports the query.
    spec fn max_size_model(state: Self::V) -> Result<Option<u64>, StorageErrorView>;

    /// Fetch the entry stored under `key`.
    fn get(&self, key: &str) -> (r: Result<Cache, StorageError>)
        ensures
            get_outcome(r) == Self::get_model(self@, key@),
    ;

    /// Write `entry` under `key`, returning how long the write took.
    fn put(&mut self, key: &str, entry: CacheWrite) -> (r: Result<Duration, StorageError>)
        ensures
            put_outcome(r) == Self::put_model(old(self)@, key@, entry@),
            final(self)@ == Self::put_update(old(self)@, key@, entry@),
    ;

    /// Report the capability mode.
    fn check(&self) -> (r: Result<CacheMode, StorageError>)
        ensures
            check_outcome(r) == Self::check_model(self@),
    ;

    /// Report the location descriptor.
    fn location(&self) -> (r: String)
        ensures
            r@ == Self::location_model(self@),
    ;

    /// Report the current usage, if applicable.
    fn current_size(&self) -> (r: Result<Option<u64>, StorageError>)
        ensures
            size_outcome(r) == Self::current_size_model(self@),
    ;

    /// Report the maximum size, if applicable.
    fn max_size(&self) -> (r: Result<Option<u64>, StorageError>)
        ensures
            size_outcome(r) == Self::max_size_model(self@),
    ;
}

} // verus!
