//! A configurable in-memory backend that answers with fixed responses and
//! counts the write attempts it receives.
//!
//! It exists so that the guard's behaviour can be observed from outside: a
//! caller configures what each query reports, wraps the value in a guard,
//! and can then compare the guard's answers with the backend's own, and read
//! [`StubStorage::put_calls`] to see that no write ever reached it.

use crate::cache::{
    Cache, CacheMode, CacheView, CacheWrite, Storage, StorageError, StorageErrorView,
};
use core::time::Duration;
use vstd::prelude::*;

verus! {

/// What the stub answers to `get`.
#[derive(Clone, Debug, PartialEq, Eq)]
pub enum StubGet {
    /// Every lookup finds an entry with these bytes.
    Hit(Vec<u8>),
    /// Every lookup reports "not found".
    Miss,
    /// Every lookup fails with this backend message.
    Fail(String),
}

/// What the stub answers to a size query.
#[derive(Clone, Debug, PartialEq, Eq)]
pub enum StubSize {
    /// The query reports this many bytes.
    Size(u64),
    /// The query reports that the value is unknown or unsupported.
    Unknown,
    /// The query fails with this backend message.
    Fail(String),
}

/// The lookup result a [`StubGet`] configuration stands for.
pub open spec fn stub_get_outcome(r: StubGet) -> Result<CacheView, StorageErrorView> {
    match r {
        StubGet::Hit(entry) => Ok(CacheView::Hit(entry@)),
        StubGet::Miss => Ok(CacheView::Miss),
        StubGet::Fail(message) => Err(StorageErrorView::Backend(message@)),
    }
}

/// The size-query result a [`StubSize`] configuration stands for.
pub open spec fn stub_size_outcome(r: StubSize) -> Result<Option<u64>, StorageErrorView> {
    match r {
        StubSize::Size(n) => Ok(Some(n)),
        StubSize::Unknown => Ok(None),
        StubSize::Fail(message) => Err(StorageErrorView::Backend(message@)),
    }
}

/// A backend with fixed, caller-chosen answers, which tallies every write
/// attempt in [`StubStorage::put_calls`]. The configured responses come back
/// for every key.
pub struct StubStorage {
    /// What `get` answers.
    pub get_response: StubGet,
    /// The capability mode `check` reports.
    pub mode: CacheMode,
    /// The location descriptor `location` reports.
    pub place: String,
    /// What `current_size` answers.
    pub current: StubSize,
    /// What `max_size` answers.
    pub maximum: StubSize,
    /// How many writes have reached this backend.
    pub put_calls: u64,
}

impl View for StubStorage {
    type V = StubStorage;

    /// The stub's whole value is its abstract state.
    open spec fn view(&self) -> StubStorage {
        *self
    }
}

/// Relies on core::time::Duration::from_secs to build a duration value for a
/// stubbed write; nothing is claimed of the value, and no contract here
/// depends on it.
#[verifier::external_body]
fn stub_duration() -> Duration {
    Duration::from_secs(0)
}

impl Storage for StubStorage {
    open spec fn get_model(state: StubStorage, key: Seq<char>) -> Result<
        CacheView,
        StorageErrorView,
    > {
        stub_get_outcome(state.get_response)
    }

    open spec fn put_model(state: StubStorage, key: Seq<char>, entry: Seq<u8>) -> Result<
        (),
        StorageErrorView,
    > {
        Ok(())
    }

    open spec fn put_update(state: StubStorage, key: Seq<char>, entry: Seq<u8>) -> StubStorage {
        StubStorage {
            put_calls: if state.put_calls < u64::MAX {
                (state.put_calls + 1) as u64
            } else {
                state.put_calls
            },
            ..state
        }
    }

    open spec fn check_model(state: StubStorage) -> Result<CacheMode, StorageErrorView> {
        Ok(state.mode)
    }

    open spec fn location_model(state: StubStorage) -> Seq<char> {
        state.place@
    }

    open spec fn current_size_model(state: StubStorage) -> Result<Option<u64>, StorageErrorView> {
        stub_size_outcome(state.current)
    }

    open spec fn max_size_model(state: StubStorage) -> Result<Option<u64>, StorageErrorView> {
        stub_size_outcome(state.maximum)
    }

    /// Answers with the configured response, whatever the key.
    fn get(&self, key: &str) -> (r: Result<Cache, StorageError>) {
        match &self.get_response {
            StubGet::Hit(bytes) => {
                let entry = bytes.clone();
                proof {
                    assert(entry@ =~= bytes@);
                }
                Ok(Cache::Hit(entry))
            },
            StubGet::Miss => Ok(Cache::Miss),
            StubGet::Fail(message) => Err(StorageError::Backend(message.clone())),
        }
    }

    /// Accepts the write, remembers only that one more arrived. The tally
    /// saturates rather than wrap.
    fn put(&mut self, key: &str, entry: CacheWrite) -> (r: Result<Duration, StorageError>) {
        if self.put_calls < u64::MAX {
            self.put_calls = self.put_calls + 1;
        }
        Ok(stub_duration())
    }

    /// Reports the configured capability mode.
    fn check(&self) -> (r: Result<CacheMode, StorageError>) {
        Ok(self.mode)
    }

    /// Reports the configured location descriptor.
    fn location(&self) -> (r: String) {
        self.place.clone()
    }

    /// Answers with the configured usage response.
    fn current_size(&self) -> (r: Result<Option<u64>, StorageError>) {
        match &self.current {
            StubSize::Size(n) => Ok(Some(*n)),
            StubSize::Unknown => Ok(None),
            StubSize::Fail(message) => Err(StorageError::Backend(message.clone())),
        }
    }

    /// Answers with the configured capacity response.
    fn max_size(&self) -> (r: Result<Option<u64>, StorageError>) {
        match &self.maximum {
            StubSize::Size(n) => Ok(Some(*n)),
            StubSize::Unknown => Ok(None),
            StubSize::Fail(message) => Err(StorageError::Backend(message.clone())),
        }
    }
}

} // verus!
