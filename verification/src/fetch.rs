use vstd::prelude::*;
use crate::errors::BuildError;

verus! {

/// Schedules the bounded-concurrency fetch of a set of object keys.
///
/// The caller (the I/O layer) repeatedly asks `next_launch` which key to start
/// fetching, and reports each completion through `on_success` or `on_failure`.
/// The scheduler guarantees that at most `bound` fetches are in flight at any
/// instant, that every key is attempted exactly once, and that the whole
/// operation fails with the first reported error when any fetch fails.
pub struct FetchScheduler {
    keys: Vec<String>,
    started: usize,
    in_flight: usize,
    contents: Vec<Vec<u8>>,
    failures: usize,
    first_error: Option<String>,
    bound: usize,
}

impl FetchScheduler {
    /// The keys to fetch, in the order they are started.
    pub closed spec fn keys(self) -> Seq<Seq<char>> {
        self.keys.deep_view()
    }

    /// The concurrency bound.
    pub closed spec fn bound(self) -> int {
        self.bound as int
    }

    /// How many fetches have been started.
    pub closed spec fn started(self) -> int {
        self.started as int
    }

    /// How many fetches are in flight right now.
    pub closed spec fn in_flight(self) -> int {
        self.in_flight as int
    }

    /// The contents fetched so far, in completion order.
    pub closed spec fn fetched(self) -> Seq<Seq<u8>> {
        self.contents.deep_view()
    }

    /// How many fetches have completed with an error.
    pub closed spec fn failures(self) -> int {
        self.failures as int
    }

    /// The message of the first reported failure, if any failed.
    pub closed spec fn first_error(self) -> Option<Seq<char>> {
        match self.first_error {
            Some(m) => Some(m@),
            None => None,
        }
    }

    /// Every state the scheduler can reach satisfies this invariant; in
    /// particular, the number of in-flight fetches never exceeds the bound.
    pub open spec fn wf(self) -> bool {
        &&& 1 <= self.bound()
        &&& self.started() <= self.keys().len()
        &&& self.in_flight() + self.fetched().len() + self.failures() == self.started()
        &&& self.in_flight() <= self.bound()
        &&& (self.first_error() is Some <==> self.failures() > 0)
    }

    /// All keys have been started and every started fetch has completed.
    pub open spec fn done(self) -> bool {
        self.started() == self.keys().len() && self.in_flight() == 0
    }

    /// A scheduler over `keys` with concurrency bound `bound`: nothing
    /// started, nothing in flight, nothing completed.
    pub fn new(keys: Vec<String>, bound: usize) -> (r: Self)
        requires
            1 <= bound,
        ensures
            r.wf(),
            r.keys() == keys.deep_view(),
            r.bound() == bound as int,
            r.started() == 0,
            r.in_flight() == 0,
            r.fetched() == Seq::<Seq<u8>>::empty(),
            r.failures() == 0,
    {
        let r = FetchScheduler {
            keys,
            started: 0,
            in_flight: 0,
            contents: Vec::new(),
            failures: 0,
            first_error: None,
            bound,
        };
        proof {
            assert(r.fetched() =~= Seq::<Seq<u8>>::empty());
        }
        r
    }

    /// The next key to start fetching, if starting one keeps the fan-out
    /// within the bound and keys remain; the keys are handed out in order,
    /// each exactly once.
    pub fn next_launch(&mut self) -> (r: Option<String>)
        requires
            old(self).wf(),
        ensures
            final(self).wf(),
            final(self).keys() == old(self).keys(),
            final(self).bound() == old(self).bound(),
            final(self).fetched() == old(self).fetched(),
            final(self).failures() == old(self).failures(),
            final(self).first_error() == old(self).first_error(),
            match r {
                Some(k) => {
                    &&& old(self).in_flight() < old(self).bound()
                    &&& old(self).started() < old(self).keys().len()
                    &&& k@ == old(self).keys()[old(self).started()]
                    &&& final(self).started() == old(self).started() + 1
                    &&& final(self).in_flight() == old(self).in_flight() + 1
                },
                None => {
                    &&& (old(self).in_flight() == old(self).bound() || old(self).started() == old(
                        self,
                    ).keys().len())
                    &&& *final(self) == *old(self)
                },
            },
    {
        if self.in_flight < self.bound && self.started < self.keys.len() {
            let key = self.keys[self.started].clone();
            self.started += 1;
            self.in_flight += 1;
            proof {
                assert(key@ == self.keys.deep_view()[self.started - 1]);
            }
            Some(key)
        } else {
            None
        }
    }

    /// Report one in-flight fetch as completed with `content`.
    pub fn on_success(&mut self, content: Vec<u8>)
        requires
            old(self).wf(),
            old(self).in_flight() > 0,
        ensures
            final(self).wf(),
            final(self).keys() == old(self).keys(),
            final(self).bound() == old(self).bound(),
            final(self).started() == old(self).started(),
            final(self).in_flight() == old(self).in_flight() - 1,
            final(self).fetched() == old(self).fetched().push(content@),
            final(self).failures() == old(self).failures(),
            final(self).first_error() == old(self).first_error(),
    {
        let ghost prev = self.contents.deep_view();
        let ghost pushed = content@;
        proof {
            assert(content.deep_view() =~= content@);
        }
        self.in_flight -= 1;
        self.contents.push(content);
        proof {
            assert(self.contents.deep_view() =~= prev.push(pushed));
        }
    }

    /// Report one in-flight fetch as failed with the store's message. The
    /// first failure is the one the whole operation will surface.
    pub fn on_failure(&mut self, message: String)
        requires
            old(self).wf(),
            old(self).in_flight() > 0,
        ensures
            final(self).wf(),
            final(self).keys() == old(self).keys(),
            final(self).bound() == old(self).bound(),
            final(self).started() == old(self).started(),
            final(self).in_flight() == old(self).in_flight() - 1,
            final(self).fetched() == old(self).fetched(),
            final(self).failures() == old(self).failures() + 1,
            final(self).first_error() == if old(self).first_error() is Some {
                old(self).first_error()
            } else {
                Some(message@)
            },
    {
        self.in_flight -= 1;
        self.failures += 1;
        if self.first_error.is_none() {
            self.first_error = Some(message);
        }
    }

    /// Whether every key has been attempted and has completed.
    pub fn is_done(&self) -> (r: bool)
        ensures
            r == self.done(),
    {
        self.started == self.keys.len() && self.in_flight == 0
    }

    /// The outcome of the whole fetch: every content if every fetch
    /// succeeded — one per key, in completion order — and otherwise the
    /// first error, with no partial result.
    pub fn finish(self) -> (r: Result<Vec<Vec<u8>>, BuildError>)
        requires
            self.wf(),
            self.done(),
        ensures
            match r {
                Ok(contents) => {
                    &&& self.failures() == 0
                    &&& contents.deep_view() == self.fetched()
                    &&& contents.deep_view().len() == self.keys().len()
                },
                Err(e) => {
                    &&& self.failures() > 0
                    &&& e matches BuildError::StoreAccess(m) && Some(m@) == self.first_error()
                },
            },
    {
        match self.first_error {
            None => Ok(self.contents),
            Some(m) => Err(BuildError::StoreAccess(m)),
        }
    }
}

/// Law: in every reachable scheduler state, the number of fetches in flight
/// at that instant is at most the configured bound.
pub proof fn lemma_fan_out_bounded(s: FetchScheduler)
    requires
        s.wf(),
    ensures
        s.in_flight() <= s.bound(),
{
}

} // verus!
