//! A cache entry whose fetch cannot fail: the text fetched last, and the
//! moment at which it goes stale.

use vstd::prelude::*;
use vstd::string::*;
use bytes::Bytes;
use std::time::Instant;
use crate::cached_bytes::EntryState;
use crate::clock::{elapsed_nanos, max_nanos, TimeSpan};
use crate::payload::{payload_bytes, payload_clone, unset};

verus! {

/// Whether `f` may be called with the address `url`.
pub open spec fn takes<F: Fn(&str) -> Bytes>(f: F, url: Seq<char>) -> bool {
    forall|u: &str| u@ == url ==> call_requires(f, (u,))
}

/// Whether `b` is a result that `f` can return for the address `u`, which is
/// `url`, and holds the bytes `text`.
pub open spec fn update_gives<F: Fn(&str) -> Bytes>(
    f: F,
    url: Seq<char>,
    text: Seq<u8>,
    u: &str,
    b: Bytes,
) -> bool {
    u@ == url && call_ensures(f, (u,), b) && payload_bytes(b) == text
}

/// Whether `text` is something that `f` can return for the address `url`.
pub open spec fn may_update<F: Fn(&str) -> Bytes>(f: F, url: Seq<char>, text: Seq<u8>) -> bool {
    exists|u: &str, b: Bytes| #[trigger] update_gives(f, url, text, u, b)
}

/// Whether a refresh that takes an entry from `before` to `after` is
/// explained by an update that ended at the clock reading `now` with `text`.
pub open spec fn update_step<F: Fn(&str) -> Bytes>(
    before: EntryState,
    f: F,
    after: EntryState,
    text: Seq<u8>,
    now: nat,
) -> bool {
    &&& now <= max_nanos()
    &&& may_update(f, before.url, text)
    &&& after == before.refreshed(text, now)
}

/// A cache entry for one upstream resource, which updates its text with a
/// function of type `F` that always gives one.
pub struct TimedString<F: Fn(&str) -> Bytes> {
    origin: Instant,
    expires_at: u128,
    cache_for: TimeSpan,
    url: String,
    text: Bytes,
    updater: F,
}

impl<F: Fn(&str) -> Bytes> View for TimedString<F> {
    type V = EntryState;

    closed spec fn view(&self) -> EntryState {
        EntryState {
            url: self.url@,
            ttl: self.cache_for@,
            expires_at: self.expires_at as nat,
            payload: payload_bytes(self.text),
        }
    }
}

impl<F: Fn(&str) -> Bytes> TimedString<F> {
    #[verifier::type_invariant]
    spec fn callable(self) -> bool {
        takes(self.updater, self.url@)
    }

    /// The function that this entry updates its text with.
    pub closed spec fn updater(self) -> F {
        self.updater
    }

    /// Creates an entry for `url` whose text stays fresh for `cache_for`
    /// after each update, and which updates with `updater`. The entry starts
    /// expired.
    pub fn new_with_updater(url: &str, cache_for: TimeSpan, updater: F) -> (t: TimedString<F>)
        requires
            takes(updater, url@),
        ensures
            t@ == EntryState::created(url@, cache_for@),
            t.updater() == updater,
    {
        TimedString {
            origin: Instant::now(),
            expires_at: 0,
            cache_for,
            url: String::from_str(url),
            text: unset(),
            updater,
        }
    }

    /// Whether the text is fresh at the clock reading `now`.
    pub fn is_valid_at(&self, now: u128) -> (v: bool)
        ensures
            v == self@.is_valid_at(now as nat),
    {
        now < self.expires_at
    }

    /// Whether the text is fresh now. The clock is read inside, so the
    /// contract says what holds for every reading: an entry whose expiry is
    /// the moment of its creation is never fresh.
    pub fn is_valid(&self) -> (v: bool)
        ensures
            v ==> self@.expires_at > 0,
            exists|now: nat| now <= max_nanos() && v == #[trigger] self@.is_valid_at(now),
    {
        let now: u128 = elapsed_nanos(&self.origin);
        let v = self.is_valid_at(now);
        assert(v == self@.is_valid_at(now as nat));
        v
    }

    /// A copy of the current text, fresh or not.
    pub fn text(&self) -> (b: Bytes)
        ensures
            payload_bytes(b) == self@.payload,
    {
        payload_clone(&self.text)
    }

    /// Updates the text from the entry's address, and lets it stay fresh for
    /// the entry's lifetime from the moment at which the update ended. The
    /// update and the clock are outside, so the contract says that some
    /// result of the updater and some reading explain the new state.
    pub fn refresh(&mut self)
        ensures
            final(self).updater() == old(self).updater(),
            exists|text: Seq<u8>, now: nat| #[trigger]
                update_step(old(self)@, old(self).updater(), final(self)@, text, now),
            final(self)@.expires_at >= old(self)@.ttl,
            may_update(old(self).updater(), old(self)@.url, final(self)@.payload),
    {
        proof {
            use_type_invariant(&*self);
            self.cache_for.lemma_bounded();
        }
        let address = self.url.as_str();
        let fetched = (self.updater)(address);
        let now: u128 = elapsed_nanos(&self.origin);
        let lifetime: u128 = self.cache_for.as_nanos();
        proof {
            assert(update_gives(self.updater, self@.url, payload_bytes(fetched), address, fetched));
        }
        self.text = fetched;
        self.expires_at = now + lifetime;
        proof {
            assert(update_step(
                old(self)@,
                old(self).updater(),
                self@,
                payload_bytes(fetched),
                now as nat,
            ));
        }
    }
}

} // verus!
