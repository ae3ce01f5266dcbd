//! Runs of requests against one entry, served one after the other as the lock
//! of a guarded entry lets them through, and what holds of such runs: a fresh
//! payload is served without a fetch, and one fetch serves every request that
//! arrives while its bytes are fresh.

use vstd::prelude::*;
use crate::cached_bytes::EntryState;
use crate::error::MartaError;

verus! {

/// One request as the entry sees it under exclusive access.
pub struct Request {
    /// The clock reading at which the request looks at the entry.
    pub asked: nat,
    /// What the fetcher gives if this request has to fetch.
    pub outcome: Result<Seq<u8>, MartaError>,
    /// The clock reading at which that fetch ends.
    pub fetched: nat,
}

impl EntryState {
    /// The entry after one request.
    pub open spec fn after(self, request: Request) -> EntryState {
        self.served(request.asked, request.outcome, request.fetched).0
    }

    /// The answer to one request.
    pub open spec fn answer(self, request: Request) -> Result<Seq<u8>, MartaError> {
        self.served(request.asked, request.outcome, request.fetched).1
    }

    /// The entry after a run of requests.
    pub open spec fn after_all(self, run: Seq<Request>) -> EntryState
        decreases run.len(),
    {
        if run.len() == 0 {
            self
        } else {
            self.after(run[0]).after_all(run.drop_first())
        }
    }

    /// The answers to a run of requests, in the order of the run.
    pub open spec fn answers(self, run: Seq<Request>) -> Seq<Result<Seq<u8>, MartaError>>
        decreases run.len(),
    {
        if run.len() == 0 {
            seq![]
        } else {
            seq![self.answer(run[0])] + self.after(run[0]).answers(run.drop_first())
        }
    }

    /// How many fetches a run of requests makes: one for each request that
    /// finds the payload stale.
    pub open spec fn fetches(self, run: Seq<Request>) -> nat
        decreases run.len(),
    {
        if run.len() == 0 {
            0
        } else {
            let first: nat = if self.is_valid_at(run[0].asked) {
                0
            } else {
                1
            };
            first + self.after(run[0]).fetches(run.drop_first())
        }
    }

    /// Every request of a run gets an answer.
    pub proof fn lemma_each_request_is_answered(self, run: Seq<Request>)
        ensures
            self.answers(run).len() == run.len(),
        decreases run.len(),
    {
        if run.len() > 0 {
            self.after(run[0]).lemma_each_request_is_answered(run.drop_first());
        }
    }

    /// While the payload is fresh, any number of requests are answered with
    /// it, none of them fetches, and the entry stays as it is.
    pub proof fn lemma_fresh_run_makes_no_fetch(self, run: Seq<Request>)
        requires
            forall|i: int| 0 <= i < run.len() ==> self.is_valid_at(#[trigger] run[i].asked),
        ensures
            self.fetches(run) == 0,
            self.after_all(run) == self,
            self.answers(run).len() == run.len(),
            forall|i: int|
                0 <= i < run.len() ==> #[trigger] self.answers(run)[i] == Ok::<
                    Seq<u8>,
                    MartaError,
                >(self.payload),
        decreases run.len(),
    {
        if run.len() > 0 {
            let rest = run.drop_first();
            assert(self.is_valid_at(run[0].asked));
            assert(self.after(run[0]) == self);
            assert forall|i: int| 0 <= i < rest.len() implies self.is_valid_at(
                #[trigger] rest[i].asked,
            ) by {
                assert(rest[i] == run[i + 1]);
            }
            self.lemma_fresh_run_makes_no_fetch(rest);
            assert forall|i: int| 0 <= i < run.len() implies #[trigger] self.answers(run)[i] == Ok::<
                Seq<u8>,
                MartaError,
            >(self.payload) by {
                if i > 0 {
                    assert(self.answers(run)[i] == self.answers(rest)[i - 1]);
                }
            }
        }
    }

    /// Single flight. When the first request of a run finds the payload stale
    /// and fetches bytes, and every other request of the run looks at the
    /// entry after that fetch has ended and before the lifetime has passed,
    /// then the whole run makes exactly one fetch and every request is
    /// answered with the bytes of that fetch.
    pub proof fn lemma_single_flight(self, run: Seq<Request>, payload: Seq<u8>)
        requires
            run.len() > 0,
            !self.is_valid_at(run[0].asked),
            run[0].outcome == Ok::<Seq<u8>, MartaError>(payload),
            forall|i: int|
                0 < i < run.len() ==> run[0].fetched <= (#[trigger] run[i]).asked < run[0].fetched
                    + self.ttl,
        ensures
            self.fetches(run) == 1,
            self.after_all(run) == self.refreshed(payload, run[0].fetched),
            self.answers(run).len() == run.len(),
            forall|i: int|
                0 <= i < run.len() ==> #[trigger] self.answers(run)[i] == Ok::<
                    Seq<u8>,
                    MartaError,
                >(payload),
    {
        let rest = run.drop_first();
        let next = self.after(run[0]);
        assert(next == self.refreshed(payload, run[0].fetched));
        assert forall|i: int| 0 <= i < rest.len() implies next.is_valid_at(
            #[trigger] rest[i].asked,
        ) by {
            assert(rest[i] == run[i + 1]);
        }
        next.lemma_fresh_run_makes_no_fetch(rest);
        assert forall|i: int| 0 <= i < run.len() implies #[trigger] self.answers(run)[i] == Ok::<
            Seq<u8>,
            MartaError,
        >(payload) by {
            if i > 0 {
                assert(self.answers(run)[i] == next.answers(rest)[i - 1]);
            }
        }
    }

    /// Failures are not remembered. A request that finds the payload stale
    /// and whose fetch fails leaves the entry as it was, so a request that
    /// follows at or after the same clock reading fetches again.
    pub proof fn lemma_failure_is_retried(self, failed: Request, next: Request)
        requires
            !self.is_valid_at(failed.asked),
            failed.outcome is Err,
            failed.asked <= next.asked,
        ensures
            self.answer(failed) == failed.outcome,
            self.after(failed) == self,
            self.fetches(seq![failed, next]) == 2,
            self.after(failed).answer(next) == next.outcome,
    {
        let run = seq![failed, next];
        let rest = run.drop_first();
        assert(rest[0] == next);
        assert(rest.drop_first().len() == 0);
        assert(self.after(failed) == self);
        assert(self.fetches(rest) == 1 + self.after(next).fetches(rest.drop_first()));
    }
}

} // verus!
