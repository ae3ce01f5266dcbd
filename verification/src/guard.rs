//! A cache entry behind a reader/writer lock: any number of callers read a
//! fresh payload at once, and one caller at a time fetches a stale one.

use vstd::prelude::*;
use vstd::rwlock::{RwLock, RwLockPredicate};
use bytes::Bytes;
use crate::cached_bytes::{accepts, may_fetch, outcome_bytes, CachedBytes};
use crate::clock::TimeSpan;
use crate::error::MartaError;

verus! {

/// What holds of the entry inside a guarded cache whenever the lock is free.
pub struct GuardRule<F> {
    /// The address that the entry was created for.
    pub url: Seq<char>,
    /// The lifetime that the entry was created with.
    pub ttl: nat,
    /// The function that the entry fetches with.
    pub fetcher: F,
}

impl<F: Fn(&str) -> Result<Bytes, MartaError>> RwLockPredicate<CachedBytes<F>> for GuardRule<F> {
    /// The entry keeps its address, lifetime and fetcher, and once it has an
    /// expiry after its creation, its payload is something that the fetcher
    /// returned for the address.
    open spec fn inv(self, entry: CachedBytes<F>) -> bool {
        &&& entry@.url == self.url
        &&& entry@.ttl == self.ttl
        &&& entry.fetcher() == self.fetcher
        &&& entry@.expires_at > 0 ==> may_fetch(self.fetcher, self.url, Ok(entry@.payload))
    }
}

/// A cache entry that many callers share.
pub struct GuardedCache<F: Fn(&str) -> Result<Bytes, MartaError>> {
    lock: RwLock<CachedBytes<F>, GuardRule<F>>,
}

impl<F: Fn(&str) -> Result<Bytes, MartaError>> GuardedCache<F> {
    /// The address of the upstream resource.
    pub closed spec fn url(&self) -> Seq<char> {
        self.lock.pred().url
    }

    /// For how long fetched bytes stay fresh, in nanoseconds.
    pub closed spec fn ttl(&self) -> nat {
        self.lock.pred().ttl
    }

    /// The function that fetches the bytes.
    pub closed spec fn fetcher(&self) -> F {
        self.lock.pred().fetcher
    }

    /// Creates a guarded entry for `url` whose payload stays fresh for `ttl`
    /// after each fetch, and which fetches with `updater`. It starts expired.
    pub fn new_with_updater(url: &str, ttl: TimeSpan, updater: F) -> (g: GuardedCache<F>)
        requires
            accepts(updater, url@),
        ensures
            g.url() == url@,
            g.ttl() == ttl@,
            g.fetcher() == updater,
    {
        let entry = CachedBytes::new_with_updater(url, ttl, updater);
        let ghost rule = GuardRule { url: url@, ttl: ttl@, fetcher: updater };
        GuardedCache { lock: RwLock::new(entry, Ghost(rule)) }
    }

    /// Gives the current bytes of the resource. Under shared access a fresh
    /// payload is returned at once. Otherwise the caller waits for exclusive
    /// access, looks again, since another caller may have fetched meanwhile,
    /// and only if the payload is still stale fetches once. A failure of that
    /// fetch is handed to this caller alone and is not remembered.
    ///
    /// The fetcher runs while this caller holds exclusive access, and the
    /// access is given up only when the fetcher returns.
    ///
    /// Other callers change the entry between any two calls, so the contract
    /// says what holds of every answer: it is something that the fetcher
    /// returned for the address. In particular the unset marker of a new
    /// entry is never served.
    pub fn get_or_refresh(&self) -> (r: Result<Bytes, MartaError>)
        ensures
            may_fetch(self.fetcher(), self.url(), outcome_bytes(r)),
    {
        let reader = self.lock.acquire_read();
        let hit = reader.borrow().lookup();
        reader.release_read();
        match hit {
            Some(payload) => Ok(payload),
            None => {
                let (mut entry, writer) = self.lock.acquire_write();
                let r = entry.get_or_refresh();
                writer.release_write(entry);
                r
            },
        }
    }
}

} // verus!
