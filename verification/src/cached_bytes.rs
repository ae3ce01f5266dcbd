//! A cache entry for one upstream resource: the bytes fetched last, the moment
//! at which they go stale, and the function that fetches them again.

use vstd::prelude::*;
use vstd::string::*;
use bytes::Bytes;
use std::time::Instant;
use crate::clock::{elapsed_nanos, max_nanos, TimeSpan};
use crate::error::MartaError;
use crate::payload::{payload_bytes, payload_clone, unset, unset_payload};

verus! {

/// What an entry holds, as plain values. Time is counted in nanoseconds from
/// the moment at which the entry was created.
pub struct EntryState {
    /// The address of the upstream resource.
    pub url: Seq<char>,
    /// For how long fetched bytes stay fresh.
    pub ttl: nat,
    /// The first moment at which the payload is stale.
    pub expires_at: nat,
    /// The bytes fetched last, or the unset marker.
    pub payload: Seq<u8>,
}

impl EntryState {
    /// A new entry: it expires at the moment of its creation and holds the
    /// unset marker.
    pub open spec fn created(url: Seq<char>, ttl: nat) -> EntryState {
        EntryState { url, ttl, expires_at: 0, payload: unset_payload() }
    }

    /// Whether the payload is fresh at `now`: strictly before the expiry.
    pub open spec fn is_valid_at(self, now: nat) -> bool {
        now < self.expires_at
    }

    /// The payload, if it is fresh at `now`.
    pub open spec fn lookup(self, now: nat) -> Option<Seq<u8>> {
        if self.is_valid_at(now) {
            Some(self.payload)
        } else {
            None
        }
    }

    /// The entry after a fetch that completed at `now` with `payload`.
    pub open spec fn refreshed(self, payload: Seq<u8>, now: nat) -> EntryState {
        EntryState { expires_at: now + self.ttl, payload, ..self }
    }

    /// The entry after a fetch that ended at `now` with `outcome`: refreshed
    /// by fetched bytes, untouched by a failure.
    pub open spec fn settled(self, outcome: Result<Seq<u8>, MartaError>, now: nat) -> EntryState {
        match outcome {
            Ok(payload) => self.refreshed(payload, now),
            Err(_) => self,
        }
    }

    /// One request under exclusive access. The clock reads `asked` when the
    /// request looks at the entry. A fresh payload is served as it is.
    /// Otherwise a fetch is made, which ends at `fetched` with `outcome`.
    /// Gives the entry afterwards and the answer to the request.
    pub open spec fn served(
        self,
        asked: nat,
        outcome: Result<Seq<u8>, MartaError>,
        fetched: nat,
    ) -> (EntryState, Result<Seq<u8>, MartaError>) {
        if self.is_valid_at(asked) {
            (self, Ok(self.payload))
        } else {
            (self.settled(outcome, fetched), outcome)
        }
    }
}

impl EntryState {
    /// A new entry is fresh at no moment.
    pub proof fn lemma_created_is_stale(url: Seq<char>, ttl: nat, now: nat)
        ensures
            !Self::created(url, ttl).is_valid_at(now),
            Self::created(url, ttl).lookup(now) is None,
    {
    }

    /// After a fetch that ended at `now` with bytes, the entry holds those
    /// bytes, and at any later moment `at` it is fresh exactly while less than
    /// its lifetime has passed since `now`.
    pub proof fn lemma_fresh_until_ttl_elapses(self, payload: Seq<u8>, now: nat, at: nat)
        requires
            now <= at,
        ensures
            self.refreshed(payload, now).payload == payload,
            self.refreshed(payload, now).is_valid_at(at) <==> at - now < self.ttl,
            at - now < self.ttl ==> self.refreshed(payload, now).lookup(at) == Some(payload),
            at - now >= self.ttl ==> self.refreshed(payload, now).lookup(at) is None,
    {
    }

    /// A failed fetch leaves the entry as it was: the payload and the expiry
    /// are those from before, and an entry that was stale when the fetch
    /// ended is stale at every later moment.
    pub proof fn lemma_failure_changes_nothing(self, failure: MartaError, now: nat, at: nat)
        requires
            !self.is_valid_at(now),
            now <= at,
        ensures
            self.settled(Err(failure), now) == self,
            !self.settled(Err(failure), now).is_valid_at(at),
    {
    }

    /// A successful fetch for a stale entry with a lifetime above zero moves
    /// the expiry strictly forward.
    pub proof fn lemma_expiry_moves_forward(self, payload: Seq<u8>, now: nat)
        requires
            !self.is_valid_at(now),
            self.ttl > 0,
        ensures
            self.refreshed(payload, now).expires_at > self.expires_at,
    {
    }

    /// A request that finds the payload fresh is answered with it and leaves
    /// the entry untouched, whatever a fetch would have given: none is made.
    pub proof fn lemma_fresh_payload_is_served(
        self,
        asked: nat,
        outcome: Result<Seq<u8>, MartaError>,
        fetched: nat,
    )
        requires
            self.is_valid_at(asked),
        ensures
            self.served(asked, outcome, fetched) == (self, Ok::<Seq<u8>, MartaError>(self.payload)),
    {
    }

    /// A request that finds the payload stale is answered with the outcome of
    /// its one fetch: bytes are served and kept, a failure is handed back and
    /// the entry stays as it was, so that the next request fetches again.
    pub proof fn lemma_stale_payload_is_fetched(
        self,
        asked: nat,
        outcome: Result<Seq<u8>, MartaError>,
        fetched: nat,
    )
        requires
            !self.is_valid_at(asked),
        ensures
            self.served(asked, outcome, fetched).1 == outcome,
            outcome is Ok ==> self.served(asked, outcome, fetched).0.payload == outcome->Ok_0,
            outcome is Err ==> self.served(asked, outcome, fetched).0 == self,
    {
    }

    /// Once one request has fetched bytes for a stale entry, every request
    /// that looks at the entry before the lifetime has passed is answered with
    /// the same bytes and leaves the entry untouched: one fetch serves them
    /// all.
    pub proof fn lemma_one_fetch_serves_all(
        self,
        asked: nat,
        payload: Seq<u8>,
        fetched: nat,
        later: nat,
        other: Result<Seq<u8>, MartaError>,
        other_fetched: nat,
    )
        requires
            !self.is_valid_at(asked),
            fetched <= later,
            later - fetched < self.ttl,
        ensures
            self.served(asked, Ok(payload), fetched).1 == Ok::<Seq<u8>, MartaError>(payload),
            self.served(asked, Ok(payload), fetched).0.served(later, other, other_fetched) == (
                self.served(asked, Ok(payload), fetched).0,
                Ok::<Seq<u8>, MartaError>(payload),
            ),
    {
    }
}

/// What a fetch gave, with fetched bytes as a sequence.
pub open spec fn outcome_bytes(r: Result<Bytes, MartaError>) -> Result<Seq<u8>, MartaError> {
    match r {
        Ok(b) => Ok(payload_bytes(b)),
        Err(e) => Err(e),
    }
}

/// What a lookup gave, with the bytes as a sequence.
pub open spec fn hit_bytes(hit: Option<Bytes>) -> Option<Seq<u8>> {
    match hit {
        Some(b) => Some(payload_bytes(b)),
        None => None,
    }
}

/// What a refresh reports for the outcome of its fetch.
pub open spec fn refresh_report(outcome: Result<Seq<u8>, MartaError>) -> Result<(), MartaError> {
    match outcome {
        Ok(_) => Ok(()),
        Err(e) => Err(e),
    }
}

/// Whether `f` may be called with the address `url`.
pub open spec fn accepts<F: Fn(&str) -> Result<Bytes, MartaError>>(f: F, url: Seq<char>) -> bool {
    forall|u: &str| u@ == url ==> call_requires(f, (u,))
}

/// Whether `r` is a result that `f` can return for the address `u`, and amounts
/// to `outcome` for the address `url`.
pub open spec fn fetch_gives<F: Fn(&str) -> Result<Bytes, MartaError>>(
    f: F,
    url: Seq<char>,
    outcome: Result<Seq<u8>, MartaError>,
    u: &str,
    r: Result<Bytes, MartaError>,
) -> bool {
    u@ == url && call_ensures(f, (u,), r) && outcome_bytes(r) == outcome
}

/// Whether `outcome` is something that `f` can return for the address `url`.
pub open spec fn may_fetch<F: Fn(&str) -> Result<Bytes, MartaError>>(
    f: F,
    url: Seq<char>,
    outcome: Result<Seq<u8>, MartaError>,
) -> bool {
    exists|u: &str, r: Result<Bytes, MartaError>| #[trigger] fetch_gives(f, url, outcome, u, r)
}

/// Whether a refresh that takes an entry from `before` to `after` and reports
/// `report` is explained by a fetch that ended at the clock reading `now` with
/// `outcome`.
pub open spec fn refresh_step<F: Fn(&str) -> Result<Bytes, MartaError>>(
    before: EntryState,
    f: F,
    after: EntryState,
    report: Result<(), MartaError>,
    outcome: Result<Seq<u8>, MartaError>,
    now: nat,
) -> bool {
    &&& now <= max_nanos()
    &&& may_fetch(f, before.url, outcome)
    &&& after == before.settled(outcome, now)
    &&& report == refresh_report(outcome)
}

/// Whether a lookup in `entry` that gave `hit` is explained by the clock
/// reading `now`.
pub open spec fn lookup_step(entry: EntryState, hit: Option<Seq<u8>>, now: nat) -> bool {
    now <= max_nanos() && hit == entry.lookup(now)
}

/// Whether a request that takes an entry from `before` to `after` and is
/// answered with `answer` is explained by the clock reading `asked` at which it
/// looked at the entry and, where the payload was stale then, by a fetch that
/// ended at the clock reading `fetched` with `outcome`.
pub open spec fn serve_step<F: Fn(&str) -> Result<Bytes, MartaError>>(
    before: EntryState,
    f: F,
    after: EntryState,
    answer: Result<Seq<u8>, MartaError>,
    asked: nat,
    outcome: Result<Seq<u8>, MartaError>,
    fetched: nat,
) -> bool {
    &&& asked <= max_nanos()
    &&& fetched <= max_nanos()
    &&& before.is_valid_at(asked) || may_fetch(f, before.url, outcome)
    &&& (after, answer) == before.served(asked, outcome, fetched)
}

/// A cache entry for one upstream resource, which fetches with a function of
/// type `F`.
pub struct CachedBytes<F: Fn(&str) -> Result<Bytes, MartaError>> {
    origin: Instant,
    expires_at: u128,
    ttl: TimeSpan,
    url: String,
    data: Bytes,
    updater: F,
}

impl<F: Fn(&str) -> Result<Bytes, MartaError>> View for CachedBytes<F> {
    type V = EntryState;

    closed spec fn view(&self) -> EntryState {
        EntryState {
            url: self.url@,
            ttl: self.ttl@,
            expires_at: self.expires_at as nat,
            payload: payload_bytes(self.data),
        }
    }
}

impl<F: Fn(&str) -> Result<Bytes, MartaError>> CachedBytes<F> {
    #[verifier::type_invariant]
    spec fn callable(self) -> bool {
        accepts(self.updater, self.url@)
    }

    /// The function that this entry fetches with.
    pub closed spec fn fetcher(self) -> F {
        self.updater
    }

    /// An entry's lifetime is no longer than the longest span that the clock
    /// can measure, so a clock reading plus the lifetime fits in 128 bits.
    pub proof fn lemma_lifetime_bounded(self)
        ensures
            self@.ttl <= max_nanos(),
            max_nanos() + self@.ttl <= u128::MAX,
    {
        self.ttl.lemma_bounded();
    }

    /// Creates an entry for `url` whose payload stays fresh for `ttl` after
    /// each fetch, and which fetches with `updater`. The entry starts expired,
    /// so the first request fetches.
    pub fn new_with_updater(url: &str, ttl: TimeSpan, updater: F) -> (e: CachedBytes<F>)
        requires
            accepts(updater, url@),
        ensures
            e@ == EntryState::created(url@, ttl@),
            e.fetcher() == updater,
    {
        CachedBytes {
            origin: Instant::now(),
            expires_at: 0,
            ttl,
            url: String::from_str(url),
            data: unset(),
            updater,
        }
    }

    /// Whether the payload is fresh at the clock reading `now`.
    pub fn is_valid_at(&self, now: u128) -> (v: bool)
        ensures
            v == self@.is_valid_at(now as nat),
    {
        now < self.expires_at
    }

    /// Whether the payload is fresh now. The clock is read inside, so the
    /// contract says what holds for every reading: an entry whose expiry is
    /// the moment of its creation is never fresh.
    pub fn is_valid(&self) -> (v: bool)
        ensures
            v ==> self@.expires_at > 0,
            exists|now: nat| now <= max_nanos() && v == #[trigger] self@.is_valid_at(now),
    {
        let now: u128 = elapsed_nanos(&self.origin);
        let v = self.is_valid_at(now);
        assert(v == self@.is_valid_at(now as nat));
        v
    }

    /// A copy of the current payload, fresh or not.
    pub fn bytes(&self) -> (b: Bytes)
        ensures
            payload_bytes(b) == self@.payload,
    {
        payload_clone(&self.data)
    }

    /// The payload, if it is fresh at the clock reading `now`.
    pub fn lookup_at(&self, now: u128) -> (hit: Option<Bytes>)
        ensures
            hit_bytes(hit) == self@.lookup(now as nat),
    {
        if self.is_valid_at(now) {
            Some(self.bytes())
        } else {
            None
        }
    }

    /// Records the outcome of a fetch that ended at the clock reading `now`.
    /// Fetched bytes replace the payload and stay fresh for the entry's
    /// lifetime from `now`; a failure changes nothing and is handed back.
    pub fn settle(&mut self, outcome: Result<Bytes, MartaError>, now: u128) -> (r: Result<
        (),
        MartaError,
    >)
        requires
            now + old(self)@.ttl <= u128::MAX,
        ensures
            final(self)@ == old(self)@.settled(outcome_bytes(outcome), now as nat),
            final(self).fetcher() == old(self).fetcher(),
            r == refresh_report(outcome_bytes(outcome)),
    {
        proof {
            use_type_invariant(&*self);
        }
        match outcome {
            Ok(fetched) => {
                let ttl: u128 = self.ttl.as_nanos();
                self.data = fetched;
                self.expires_at = now + ttl;
                Ok(())
            },
            Err(e) => Err(e),
        }
    }

    /// The payload, if it is fresh now. The clock is read inside, so the
    /// contract says that some reading explains the result.
    pub fn lookup(&self) -> (hit: Option<Bytes>)
        ensures
            exists|now: nat| #[trigger] lookup_step(self@, hit_bytes(hit), now),
            hit is Some ==> self@.expires_at > 0 && hit_bytes(hit) == Some(self@.payload),
    {
        let now: u128 = elapsed_nanos(&self.origin);
        let hit = self.lookup_at(now);
        assert(lookup_step(self@, hit_bytes(hit), now as nat));
        hit
    }

    /// Fetches the bytes behind the entry's address and records the outcome
    /// at the moment at which the fetch ended. Fetched bytes replace the
    /// payload and stay fresh for the entry's lifetime; a failure changes
    /// nothing and is handed back. The fetch and the clock are outside, so
    /// the contract says that some outcome of the fetcher and some reading
    /// explain the result.
    pub fn refresh(&mut self) -> (r: Result<(), MartaError>)
        ensures
            final(self).fetcher() == old(self).fetcher(),
            exists|outcome: Result<Seq<u8>, MartaError>, now: nat| #[trigger]
                refresh_step(old(self)@, old(self).fetcher(), final(self)@, r, outcome, now),
            r is Err ==> final(self)@ == old(self)@,
            r is Ok ==> final(self)@.expires_at >= old(self)@.ttl && may_fetch(
                old(self).fetcher(),
                old(self)@.url,
                Ok(final(self)@.payload),
            ),
    {
        proof {
            use_type_invariant(&*self);
        }
        let address = self.url.as_str();
        let fetched = (self.updater)(address);
        let now: u128 = elapsed_nanos(&self.origin);
        let ghost outcome = outcome_bytes(fetched);
        proof {
            self.ttl.lemma_bounded();
            assert(fetch_gives(self.updater, self@.url, outcome, address, fetched));
        }
        let r = self.settle(fetched, now);
        proof {
            assert(refresh_step(old(self)@, old(self).fetcher(), self@, r, outcome, now as nat));
        }
        r
    }

    /// Answers one request under exclusive access: serves the payload if it
    /// is fresh, and otherwise fetches once and serves what was fetched, or
    /// hands back the failure and leaves the entry as it was.
    pub fn get_or_refresh(&mut self) -> (r: Result<Bytes, MartaError>)
        ensures
            final(self).fetcher() == old(self).fetcher(),
            exists|asked: nat, outcome: Result<Seq<u8>, MartaError>, fetched: nat| #[trigger]
                serve_step(
                    old(self)@,
                    old(self).fetcher(),
                    final(self)@,
                    outcome_bytes(r),
                    asked,
                    outcome,
                    fetched,
                ),
            r is Err ==> final(self)@ == old(self)@,
            r is Ok ==> outcome_bytes(r) == Ok::<Seq<u8>, MartaError>(final(self)@.payload),
            may_fetch(old(self).fetcher(), old(self)@.url, outcome_bytes(r)) || (old(
                self,
            )@.expires_at > 0 && final(self)@ == old(self)@ && outcome_bytes(r) == Ok::<
                Seq<u8>,
                MartaError,
            >(old(self)@.payload)),
    {
        let asked: u128 = elapsed_nanos(&self.origin);
        match self.lookup_at(asked) {
            Some(payload) => {
                let r = Ok(payload);
                proof {
                    let idle: Result<Seq<u8>, MartaError> = Ok(self@.payload);
                    assert(serve_step(
                        old(self)@,
                        old(self).fetcher(),
                        self@,
                        outcome_bytes(r),
                        asked as nat,
                        idle,
                        asked as nat,
                    ));
                }
                r
            },
            None => {
                let report = self.refresh();
                let ghost (outcome, fetched) = choose|
                    outcome: Result<Seq<u8>, MartaError>,
                    now: nat,
                | #[trigger]
                    refresh_step(old(self)@, old(self).fetcher(), self@, report, outcome, now);
                let r = match report {
                    Ok(()) => Ok(self.bytes()),
                    Err(e) => Err(e),
                };
                proof {
                    assert(serve_step(
                        old(self)@,
                        old(self).fetcher(),
                        self@,
                        outcome_bytes(r),
                        asked as nat,
                        outcome,
                        fetched,
                    ));
                }
                r
            },
        }
    }
}

} // verus!
