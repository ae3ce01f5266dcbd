//! What a client is sent for a request: a status code and a body, made from
//! the bytes of the resource or from the failure to fetch them.

use vstd::prelude::*;
use vstd::string::*;
use vstd::utf8::encode_utf8;
use bytes::Bytes;
use crate::cached_bytes::{may_fetch, outcome_bytes};
use crate::error::MartaError;
use crate::guard::GuardedCache;
use crate::payload::{payload_bytes, payload_from_slice};

verus! {

/// The status code of a reply that carries the resource.
pub const STATUS_OK: u16 = 200;

/// The status code of a reply that reports a failed fetch.
pub const STATUS_INTERNAL_SERVER_ERROR: u16 = 500;

/// A reply to a client.
pub struct Reply {
    /// The HTTP status code.
    pub status: u16,
    /// The body: the resource as it was fetched, or the text of a failure.
    pub body: Bytes,
}

/// The status code that answers a request: 200 with the resource, 500 with
/// any failure.
pub open spec fn reply_status(answer: Result<Seq<u8>, MartaError>) -> u16 {
    match answer {
        Ok(_) => STATUS_OK,
        Err(_) => STATUS_INTERNAL_SERVER_ERROR,
    }
}

/// The body that answers a request: the bytes of the resource unchanged, or
/// the failure's message in UTF-8.
pub open spec fn reply_body(answer: Result<Seq<u8>, MartaError>) -> Seq<u8> {
    match answer {
        Ok(payload) => payload,
        Err(failure) => encode_utf8(failure.message_text()),
    }
}

/// Makes the reply for the answer that a cache gave.
pub fn render(answer: Result<Bytes, MartaError>) -> (reply: Reply)
    ensures
        reply.status == reply_status(outcome_bytes(answer)),
        payload_bytes(reply.body) == reply_body(outcome_bytes(answer)),
{
    match answer {
        Ok(payload) => Reply { status: STATUS_OK, body: payload },
        Err(failure) => {
            let message = failure.message();
            let body = payload_from_slice(message.as_str().as_bytes());
            Reply { status: STATUS_INTERNAL_SERVER_ERROR, body }
        },
    }
}

/// Serves one request from a guarded cache: reads the payload if it is fresh,
/// fetches it otherwise, and makes the reply. Whatever other callers do
/// meanwhile, the reply is the rendering of something that the cache's
/// fetcher returned for its address.
pub fn cache_visit<F: Fn(&str) -> Result<Bytes, MartaError>>(store: &GuardedCache<F>) -> (reply:
    Reply)
    ensures
        exists|outcome: Result<Seq<u8>, MartaError>| #[trigger]
            may_fetch(store.fetcher(), store.url(), outcome) && reply.status == reply_status(
                outcome,
            ) && payload_bytes(reply.body) == reply_body(outcome),
{
    let answer = store.get_or_refresh();
    let reply = render(answer);
    assert(may_fetch(store.fetcher(), store.url(), outcome_bytes(answer)));
    reply
}

} // verus!
