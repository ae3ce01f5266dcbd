use bytes::Bytes;
use marta_cache::clock::TimeSpan;
use marta_cache::timed_string::TimedString;
use std::time::{Duration, Instant};

fn spin_for(span: Duration) {
    let start = Instant::now();
    while start.elapsed() < span {
        std::hint::spin_loop();
    }
}

#[test]
fn timed_string_is_not_valid_initially() {
    let t = TimedString::new_with_updater("https://example.test", TimeSpan::from_secs(10), |_url| {
        Bytes::new()
    });

    assert_eq!(t.is_valid(), false);
}

#[test]
fn timed_string_is_valid_after_refresh() {
    let mut t = TimedString::new_with_updater(
        "https://example.test",
        TimeSpan::from_secs(10),
        |_url| Bytes::new(),
    );

    assert_eq!(t.is_valid(), false);

    t.refresh();

    assert_eq!(t.is_valid(), true);
}

#[test]
fn timed_string_is_invalid_after_cache_time_elapses() {
    let mut t = TimedString::new_with_updater(
        "https://example.test",
        TimeSpan::from_millis(10),
        |_url| Bytes::new(),
    );
    t.refresh();

    assert_eq!(t.is_valid(), true);

    spin_for(Duration::from_millis(10));

    assert_eq!(t.is_valid(), false);
}

#[test]
fn timed_string_text_follows_the_updater() {
    let mut t = TimedString::new_with_updater(
        "https://example.test/trains",
        TimeSpan::from_secs(10),
        |url| Bytes::copy_from_slice(url.as_bytes()),
    );

    assert_eq!(t.text(), Bytes::from_static(b"<unused>"));
    assert_eq!(t.is_valid_at(0), false);

    t.refresh();

    assert_eq!(t.text(), Bytes::from_static(b"https://example.test/trains"));
    assert_eq!(t.is_valid_at(0), true);
    assert_eq!(t.is_valid_at(9_000_000_000), true);
    assert_eq!(t.is_valid_at(70_000_000_000), false);
}
