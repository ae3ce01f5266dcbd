use bytes::Bytes;
use marta_cache::clock::TimeSpan;
use marta_cache::error::MartaError;
use marta_cache::guard::GuardedCache;
use marta_cache::payload::unset;
use marta_cache::reply::{cache_visit, render};

#[test]
fn bytes_are_rendered_as_200() {
    let reply = render(Ok(Bytes::from_static(b"[{\"route\":\"110\"}]")));
    assert_eq!(reply.status, 200u16);
    assert_eq!(reply.body, Bytes::from_static(b"[{\"route\":\"110\"}]"));
}

#[test]
fn failures_are_rendered_as_500_with_their_message() {
    let reply = render(Err(MartaError::Unauthorized));
    assert_eq!(reply.status, 500u16);
    assert_eq!(reply.body, Bytes::from_static(b"Authorization failed against MARTA API"));

    let reply = render(Err(MartaError::GenericError(404)));
    assert_eq!(reply.status, 500u16);
    assert_eq!(reply.body, Bytes::from_static(b"MARTA API returned HTTP 404 Not Found"));

    let reply = render(Err(MartaError::TimeoutError));
    assert_eq!(reply.status, 500u16);
    assert_eq!(reply.body, Bytes::from_static(b"MARTA API timed out"));
}

#[test]
fn visit_renders_what_the_cache_gives() {
    let store = GuardedCache::new_with_updater("https://example.test", TimeSpan::from_secs(10), |_url| {
        Ok(Bytes::from_static(b"buses"))
    });
    let reply = cache_visit(&store);
    assert_eq!(reply.status, 200u16);
    assert_eq!(reply.body, Bytes::from_static(b"buses"));

    let broken = GuardedCache::new_with_updater("https://example.test", TimeSpan::from_secs(10), |_url| {
        Err(MartaError::InternalServerError)
    });
    let reply = cache_visit(&broken);
    assert_eq!(reply.status, 500u16);
    assert_eq!(reply.body, Bytes::from_static(b"MARTA API did not return results"));
}

#[test]
fn unset_marker_is_the_text_unused() {
    assert_eq!(unset(), Bytes::from_static(b"<unused>"));
    assert_eq!(unset().len(), 8usize);
}
