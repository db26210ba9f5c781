use cache_guard::cache::{Cache, CacheMode, CacheWrite, Storage, StorageError};
use cache_guard::readonly::{ReadOnlyError, ReadOnlyStorage};
use cache_guard::stub::{StubGet, StubSize, StubStorage};
use std::sync::Arc;

fn backend(get_response: StubGet, mode: CacheMode) -> StubStorage {
    StubStorage {
        get_response,
        mode,
        place: String::from("stub://backend"),
        current: StubSize::Unknown,
        maximum: StubSize::Unknown,
        put_calls: 0,
    }
}

#[test]
fn put_always_fails_and_never_reaches_the_backend() {
    let inner = Arc::new(backend(StubGet::Miss, CacheMode::ReadWrite));
    let mut guard = ReadOnlyStorage(Arc::clone(&inner));
    let r = guard.put("some-key", CacheWrite(vec![1, 2, 3]));
    assert_eq!(r, Err(StorageError::ReadOnly));
    assert_eq!(inner.put_calls, 0);
}

#[test]
fn repeated_puts_never_succeed_and_never_mutate() {
    let inner = Arc::new(backend(StubGet::Hit(vec![7]), CacheMode::ReadWrite));
    let mut guard = ReadOnlyStorage(Arc::clone(&inner));
    for i in 0..10u8 {
        let r = guard.put("k", CacheWrite(vec![i]));
        assert_eq!(r, Err(StorageError::ReadOnly));
    }
    assert_eq!(inner.put_calls, 0);
    assert_eq!(guard.get("k"), Ok(Cache::Hit(vec![7])));
}

#[test]
fn the_spy_counts_writes_that_do_reach_it() {
    let mut inner = backend(StubGet::Miss, CacheMode::ReadWrite);
    assert!(inner.put("k", CacheWrite(vec![1])).is_ok());
    assert!(inner.put("k", CacheWrite(vec![2])).is_ok());
    assert_eq!(inner.put_calls, 2);
}

#[test]
fn get_forwards_a_hit_unchanged() {
    let inner = Arc::new(backend(StubGet::Hit(vec![10, 20, 30]), CacheMode::ReadOnly));
    let guard = ReadOnlyStorage(Arc::clone(&inner));
    assert_eq!(guard.get("artifact"), inner.get("artifact"));
    assert_eq!(guard.get("artifact"), Ok(Cache::Hit(vec![10, 20, 30])));
}

#[test]
fn get_forwards_not_found_unchanged() {
    let inner = Arc::new(backend(StubGet::Miss, CacheMode::ReadWrite));
    let guard = ReadOnlyStorage(Arc::clone(&inner));
    assert_eq!(guard.get("missing-key"), inner.get("missing-key"));
    assert_eq!(guard.get("missing-key"), Ok(Cache::Miss));
}

#[test]
fn get_forwards_a_backend_failure_unchanged() {
    let inner = Arc::new(backend(
        StubGet::Fail(String::from("connection reset")),
        CacheMode::ReadWrite,
    ));
    let guard = ReadOnlyStorage(Arc::clone(&inner));
    assert_eq!(guard.get("k"), inner.get("k"));
    assert_eq!(
        guard.get("k"),
        Err(StorageError::Backend(String::from("connection reset")))
    );
}

#[test]
fn check_reports_read_only_over_a_read_write_backend() {
    let inner = Arc::new(backend(StubGet::Miss, CacheMode::ReadWrite));
    assert_eq!(inner.check(), Ok(CacheMode::ReadWrite));
    let guard = ReadOnlyStorage(inner);
    assert_eq!(guard.check(), Ok(CacheMode::ReadOnly));
}

#[test]
fn check_reports_read_only_over_a_read_only_backend() {
    let guard = ReadOnlyStorage(Arc::new(backend(StubGet::Miss, CacheMode::ReadOnly)));
    assert_eq!(guard.check(), Ok(CacheMode::ReadOnly));
}

#[test]
fn location_forwards_unchanged() {
    let inner = Arc::new(backend(StubGet::Miss, CacheMode::ReadWrite));
    let guard = ReadOnlyStorage(Arc::clone(&inner));
    assert_eq!(guard.location(), inner.location());
    assert_eq!(guard.location(), "stub://backend");
}

#[test]
fn sizes_forward_known_values_unchanged() {
    let mut inner = backend(StubGet::Miss, CacheMode::ReadWrite);
    inner.current = StubSize::Size(500);
    inner.maximum = StubSize::Size(1000);
    let inner = Arc::new(inner);
    let guard = ReadOnlyStorage(Arc::clone(&inner));
    assert_eq!(guard.current_size(), inner.current_size());
    assert_eq!(guard.max_size(), inner.max_size());
    assert_eq!(guard.current_size(), Ok(Some(500)));
    assert_eq!(guard.max_size(), Ok(Some(1000)));
}

#[test]
fn sizes_forward_the_absent_value_unchanged() {
    let inner = Arc::new(backend(StubGet::Miss, CacheMode::ReadWrite));
    let guard = ReadOnlyStorage(Arc::clone(&inner));
    assert_eq!(guard.current_size(), Ok(None));
    assert_eq!(guard.max_size(), Ok(None));
    assert_eq!(guard.current_size(), inner.current_size());
    assert_eq!(guard.max_size(), inner.max_size());
}

#[test]
fn sizes_forward_a_backend_failure_unchanged() {
    let mut inner = backend(StubGet::Miss, CacheMode::ReadWrite);
    inner.current = StubSize::Fail(String::from("stat failed"));
    inner.maximum = StubSize::Fail(String::from("no quota api"));
    let inner = Arc::new(inner);
    let guard = ReadOnlyStorage(Arc::clone(&inner));
    assert_eq!(
        guard.current_size(),
        Err(StorageError::Backend(String::from("stat failed")))
    );
    assert_eq!(
        guard.max_size(),
        Err(StorageError::Backend(String::from("no quota api")))
    );
    assert_eq!(guard.current_size(), inner.current_size());
    assert_eq!(guard.max_size(), inner.max_size());
}

#[test]
fn a_read_write_backend_seen_through_the_guard() {
    let mut inner = backend(StubGet::Miss, CacheMode::ReadWrite);
    inner.current = StubSize::Size(500);
    inner.maximum = StubSize::Size(1000);
    assert_eq!(inner.check(), Ok(CacheMode::ReadWrite));
    let mut guard = ReadOnlyStorage(Arc::new(inner));
    assert_eq!(guard.current_size(), Ok(Some(500)));
    assert_eq!(guard.max_size(), Ok(Some(1000)));
    assert_eq!(guard.check(), Ok(CacheMode::ReadOnly));
    assert_eq!(
        guard.put("x", CacheWrite(vec![0])),
        Err(StorageError::ReadOnly)
    );
}

#[test]
fn a_guard_can_wrap_another_guard() {
    let inner = Arc::new(backend(StubGet::Hit(vec![5]), CacheMode::ReadWrite));
    let mut outer = ReadOnlyStorage(Arc::new(ReadOnlyStorage(Arc::clone(&inner))));
    assert_eq!(outer.get("k"), Ok(Cache::Hit(vec![5])));
    assert_eq!(outer.check(), Ok(CacheMode::ReadOnly));
    assert_eq!(
        outer.put("k", CacheWrite(vec![])),
        Err(StorageError::ReadOnly)
    );
    assert_eq!(inner.put_calls, 0);
}

#[test]
fn the_read_only_error_has_a_clear_message() {
    assert_eq!(ReadOnlyError.message(), "Cannot write to read-only storage");
    assert_eq!(StorageError::from(ReadOnlyError), StorageError::ReadOnly);
}

#[test]
fn an_empty_entry_is_still_rejected() {
    let inner = Arc::new(backend(StubGet::Miss, CacheMode::ReadWrite));
    let mut guard = ReadOnlyStorage(Arc::clone(&inner));
    assert_eq!(guard.put("", CacheWrite(vec![])), Err(StorageError::ReadOnly));
    assert_eq!(inner.put_calls, 0);
}
