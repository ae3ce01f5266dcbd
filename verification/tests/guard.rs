use bytes::Bytes;
use marta_cache::clock::TimeSpan;
use marta_cache::error::{handle_client_error, handle_response, MartaError};
use marta_cache::guard::GuardedCache;
use std::sync::atomic::{AtomicUsize, Ordering};
use std::sync::Arc;
use std::time::{Duration, Instant};

fn pause(span: Duration) {
    let start = Instant::now();
    while start.elapsed() < span {
        std::hint::spin_loop();
    }
}

#[test]
fn first_request_fetches() {
    let calls = Arc::new(AtomicUsize::new(0));
    let seen = calls.clone();
    let cache = GuardedCache::new_with_updater("https://example.test", TimeSpan::from_secs(10), move |_url| {
        seen.fetch_add(1, Ordering::SeqCst);
        Ok(Bytes::from_static(b"A"))
    });

    assert_eq!(calls.load(Ordering::SeqCst), 0usize);
    assert_eq!(cache.get_or_refresh(), Ok(Bytes::from_static(b"A")));
    assert_eq!(calls.load(Ordering::SeqCst), 1usize);
}

#[test]
fn fresh_payload_is_served_without_a_fetch() {
    let calls = Arc::new(AtomicUsize::new(0));
    let seen = calls.clone();
    let cache = GuardedCache::new_with_updater("https://example.test", TimeSpan::from_secs(10), move |_url| {
        seen.fetch_add(1, Ordering::SeqCst);
        Ok(Bytes::from_static(b"A"))
    });
    assert_eq!(cache.get_or_refresh(), Ok(Bytes::from_static(b"A")));

    let mut round: u32 = 0;
    while round < 100 {
        assert_eq!(cache.get_or_refresh(), Ok(Bytes::from_static(b"A")));
        round += 1;
    }

    assert_eq!(calls.load(Ordering::SeqCst), 1usize);
}

#[test]
fn stale_payload_is_fetched_again() {
    let calls = Arc::new(AtomicUsize::new(0));
    let seen = calls.clone();
    let cache = GuardedCache::new_with_updater("https://example.test", TimeSpan::from_millis(500), move |_url| {
        if seen.fetch_add(1, Ordering::SeqCst) == 0 {
            Ok(Bytes::from_static(b"A"))
        } else {
            Ok(Bytes::from_static(b"B"))
        }
    });

    assert_eq!(cache.get_or_refresh(), Ok(Bytes::from_static(b"A")));
    assert_eq!(cache.get_or_refresh(), Ok(Bytes::from_static(b"A")));
    assert_eq!(calls.load(Ordering::SeqCst), 1usize);

    pause(Duration::from_millis(501));

    assert_eq!(cache.get_or_refresh(), Ok(Bytes::from_static(b"B")));
    assert_eq!(calls.load(Ordering::SeqCst), 2usize);
}

#[test]
fn failures_are_handed_back_as_classified() {
    let unauthorized = GuardedCache::new_with_updater("https://example.test", TimeSpan::from_secs(10), |_url| {
        handle_response(401, Bytes::new())
    });
    assert_eq!(unauthorized.get_or_refresh(), Err(MartaError::Unauthorized));

    let internal = GuardedCache::new_with_updater("https://example.test", TimeSpan::from_secs(10), |_url| {
        handle_response(500, Bytes::new())
    });
    assert_eq!(internal.get_or_refresh(), Err(MartaError::InternalServerError));

    let missing = GuardedCache::new_with_updater("https://example.test", TimeSpan::from_secs(10), |_url| {
        handle_response(404, Bytes::new())
    });
    assert_eq!(missing.get_or_refresh(), Err(MartaError::GenericError(404)));

    let slow = GuardedCache::new_with_updater("https://example.test", TimeSpan::from_secs(10), |_url| {
        Err(handle_client_error(true))
    });
    assert_eq!(slow.get_or_refresh(), Err(MartaError::TimeoutError));

    let unreachable = GuardedCache::new_with_updater("https://example.test", TimeSpan::from_secs(10), |_url| {
        Err(handle_client_error(false))
    });
    assert_eq!(unreachable.get_or_refresh(), Err(MartaError::TransportError));
}

#[test]
fn failures_are_not_remembered() {
    let calls = Arc::new(AtomicUsize::new(0));
    let seen = calls.clone();
    let cache = GuardedCache::new_with_updater("https://example.test", TimeSpan::from_secs(10), move |_url| {
        if seen.fetch_add(1, Ordering::SeqCst) < 2 {
            Err(MartaError::InternalServerError)
        } else {
            Ok(Bytes::from_static(b"A"))
        }
    });

    assert_eq!(cache.get_or_refresh(), Err(MartaError::InternalServerError));
    assert_eq!(cache.get_or_refresh(), Err(MartaError::InternalServerError));
    assert_eq!(cache.get_or_refresh(), Ok(Bytes::from_static(b"A")));
    assert_eq!(cache.get_or_refresh(), Ok(Bytes::from_static(b"A")));
    assert_eq!(calls.load(Ordering::SeqCst), 3usize);
}

#[test]
fn concurrent_callers_share_one_fetch() {
    let calls = Arc::new(AtomicUsize::new(0));
    let seen = calls.clone();
    let cache = Arc::new(GuardedCache::new_with_updater(
        "https://example.test",
        TimeSpan::from_secs(10),
        move |_url| {
            seen.fetch_add(1, Ordering::SeqCst);
            pause(Duration::from_millis(20));
            Ok(Bytes::from_static(b"A"))
        },
    ));
    let pool = tokio::runtime::Builder::new_multi_thread()
        .worker_threads(2)
        .max_blocking_threads(64)
        .build()
        .unwrap();

    let mut callers = Vec::new();
    let mut started: u32 = 0;
    while started < 64 {
        let shared = cache.clone();
        callers.push(pool.spawn_blocking(move || shared.get_or_refresh()));
        started += 1;
    }
    for caller in callers {
        assert_eq!(pool.block_on(caller).unwrap(), Ok(Bytes::from_static(b"A")));
    }

    assert_eq!(calls.load(Ordering::SeqCst), 1usize);
}

#[test]
fn concurrent_readers_of_a_fresh_entry_do_not_fetch() {
    let calls = Arc::new(AtomicUsize::new(0));
    let seen = calls.clone();
    let cache = Arc::new(GuardedCache::new_with_updater(
        "https://example.test",
        TimeSpan::from_secs(10),
        move |_url| {
            seen.fetch_add(1, Ordering::SeqCst);
            Ok(Bytes::from_static(b"A"))
        },
    ));
    assert_eq!(cache.get_or_refresh(), Ok(Bytes::from_static(b"A")));
    calls.store(0, Ordering::SeqCst);
    let pool = tokio::runtime::Builder::new_multi_thread()
        .worker_threads(2)
        .max_blocking_threads(64)
        .build()
        .unwrap();

    let mut readers = Vec::new();
    let mut started: u32 = 0;
    while started < 100 {
        let shared = cache.clone();
        readers.push(pool.spawn_blocking(move || shared.get_or_refresh()));
        started += 1;
    }
    for reader in readers {
        assert_eq!(pool.block_on(reader).unwrap(), Ok(Bytes::from_static(b"A")));
    }

    assert_eq!(calls.load(Ordering::SeqCst), 0usize);
}
