//! Writing one value to many files, each file on its own.
//!
//! A `FanOut` holds the writes that one change of profile asks for and walks
//! through them one at a time. Whoever performs the writes takes the pending
//! one, tries it, and hands the outcome back. A failed write is kept for the
//! record and never holds up the writes after it.

use vstd::prelude::*;

verus! {

/// One write, as contracts see it: the whole of `value` goes to the file at
/// `path`.
pub struct TunableWrite {
    pub path: Seq<char>,
    pub value: Seq<char>,
}

/// One whole-file write: `value` is to be written to the file at `path`.
#[derive(Clone, PartialEq, Eq, Debug)]
pub struct WriteRequest {
    pub path: String,
    pub value: String,
}

impl View for WriteRequest {
    type V = TunableWrite;

    open spec fn view(&self) -> TunableWrite {
        TunableWrite { path: self.path@, value: self.value@ }
    }
}

impl DeepView for WriteRequest {
    type V = TunableWrite;

    open spec fn deep_view(&self) -> TunableWrite {
        self@
    }
}

/// A write that failed, as contracts see it: the file and the reason.
pub struct FailedWrite {
    pub path: Seq<char>,
    pub error: Seq<char>,
}

/// A write that failed: the file it was meant for and the reason given.
#[derive(Clone, PartialEq, Eq, Debug)]
pub struct WriteFailure {
    pub path: String,
    pub error: String,
}

impl View for WriteFailure {
    type V = FailedWrite;

    open spec fn view(&self) -> FailedWrite {
        FailedWrite { path: self.path@, error: self.error@ }
    }
}

impl DeepView for WriteFailure {
    type V = FailedWrite;

    open spec fn deep_view(&self) -> FailedWrite {
        self@
    }
}

/// How a write turned out, as contracts see it: done, or failed with a
/// reason.
pub type Outcome = Result<(), Seq<char>>;

/// The outcome `outcome` as contracts see it.
pub open spec fn outcome_view(outcome: Result<(), String>) -> Outcome {
    match outcome {
        Ok(()) => Ok(()),
        Err(reason) => Err(reason@),
    }
}

/// The state of a fan-out, as contracts see it.
pub struct FanOutView {
    /// The writes asked for, in the order in which they are tried.
    pub requests: Seq<TunableWrite>,
    /// How many of them have been tried so far.
    pub attempted: nat,
    /// Those that failed, in the order in which they were tried.
    pub failures: Seq<FailedWrite>,
}

impl FanOutView {
    /// The fan-out over `requests` before any write was tried.
    pub open spec fn fresh(requests: Seq<TunableWrite>) -> FanOutView {
        FanOutView { requests, attempted: 0, failures: Seq::empty() }
    }

    /// What holds of every fan-out that was made fresh and fed outcomes.
    pub open spec fn wf(self) -> bool {
        &&& self.attempted <= self.requests.len()
        &&& self.failures.len() <= self.attempted
    }

    /// The write to try next, if any is left.
    pub open spec fn pending(self) -> Option<TunableWrite> {
        if self.attempted < self.requests.len() {
            Some(self.requests[self.attempted as int])
        } else {
            None
        }
    }

    /// Whether every write has been tried.
    pub open spec fn done(self) -> bool {
        self.attempted >= self.requests.len()
    }

    /// The fan-out after the pending write turned out as `outcome`: it moves
    /// on to the next write either way, and keeps a failure for the record.
    /// With no write pending it stays as it is.
    pub open spec fn record(self, outcome: Outcome) -> FanOutView {
        match self.pending() {
            None => self,
            Some(request) => FanOutView {
                requests: self.requests,
                attempted: self.attempted + 1,
                failures: match outcome {
                    Ok(()) => self.failures,
                    Err(error) => self.failures.push(FailedWrite { path: request.path, error }),
                },
            },
        }
    }

    /// The fan-out after the writes turned out as `outcomes`, one after the
    /// other.
    pub open spec fn record_all(self, outcomes: Seq<Outcome>) -> FanOutView
        decreases outcomes.len(),
    {
        if outcomes.len() == 0 {
            self
        } else {
            self.record_all(outcomes.drop_last()).record(outcomes.last())
        }
    }
}

/// The failures among the first writes of `requests`, where these turned out
/// as `outcomes`: for each failed write its file and the reason, in order.
pub open spec fn failures_among(
    requests: Seq<TunableWrite>,
    outcomes: Seq<Outcome>,
) -> Seq<FailedWrite> {
    Seq::new(outcomes.len(), |i: int| (requests[i], outcomes[i])).filter_map(
        |tried: (TunableWrite, Outcome)|
            match tried.1 {
                Ok(()) => None,
                Err(error) => Some(FailedWrite { path: tried.0.path, error }),
            },
    )
}

/// The writes that one change asks for, and how far they have come.
#[derive(Debug)]
pub struct FanOut {
    requests: Vec<WriteRequest>,
    attempted: usize,
    failures: Vec<WriteFailure>,
}

impl View for FanOut {
    type V = FanOutView;

    closed spec fn view(&self) -> FanOutView {
        FanOutView {
            requests: self.requests.deep_view(),
            attempted: self.attempted as nat,
            failures: self.failures.deep_view(),
        }
    }
}

impl FanOut {
    #[verifier::type_invariant]
    spec fn inv(self) -> bool {
        self@.wf()
    }

    /// A fan-out over `requests`, with every write still to be tried.
    pub fn new(requests: Vec<WriteRequest>) -> (fan_out: FanOut)
        ensures
            fan_out@ == FanOutView::fresh(requests.deep_view()),
    {
        let fan_out = FanOut { requests, attempted: 0, failures: Vec::new() };
        assert(fan_out.failures.deep_view() =~= Seq::empty());
        fan_out
    }

    /// The write to try next, or `None` once all have been tried.
    pub fn pending(&self) -> (next: Option<&WriteRequest>)
        ensures
            self@.wf(),
            match next {
                Some(request) => self@.pending() == Some(request@),
                None => self@.pending() is None,
            },
    {
        proof {
            use_type_invariant(self);
        }
        if self.attempted < self.requests.len() {
            Some(&self.requests[self.attempted])
        } else {
            None
        }
    }

    /// Whether every write has been tried.
    pub fn is_done(&self) -> (done: bool)
        ensures
            done == self@.done(),
    {
        self.attempted >= self.requests.len()
    }

    /// Takes note of how the pending write turned out and moves on to the
    /// next one, whether the write failed or not.
    pub fn record(self, outcome: Result<(), String>) -> (next: FanOut)
        ensures
            next@ == self@.record(outcome_view(outcome)),
            next@.wf(),
    {
        proof {
            use_type_invariant(&self);
        }
        if self.attempted < self.requests.len() {
            let FanOut { requests, attempted, mut failures } = self;
            match outcome {
                Ok(()) => {},
                Err(error) => {
                    let ghost before = failures.deep_view();
                    let path = requests[attempted].path.clone();
                    let failure = WriteFailure { path, error };
                    failures.push(failure);
                    assert(failures.deep_view() =~= before.push(failure@));
                },
            }
            FanOut { requests, attempted: attempted + 1, failures }
        } else {
            self
        }
    }

    /// The writes that failed so far, in the order in which they were tried.
    pub fn failures(&self) -> (failures: &Vec<WriteFailure>)
        ensures
            failures.deep_view() == self@.failures,
    {
        &self.failures
    }
}

/// Failures are isolated. Whatever the outcomes of the writes tried so far,
/// the fan-out has moved past exactly as many requests as there were
/// outcomes, so that the write after a failed one is tried like any other;
/// and what it holds as failures are the failed writes, each with its own
/// file and reason, and nothing else. Outcomes beyond the last request
/// change nothing.
pub proof fn lemma_fan_out_isolates_failures(requests: Seq<TunableWrite>, outcomes: Seq<Outcome>)
    ensures
        ({
            let end = FanOutView::fresh(requests).record_all(outcomes);
            let tried = if outcomes.len() <= requests.len() {
                outcomes
            } else {
                outcomes.take(requests.len() as int)
            };
            &&& end.wf()
            &&& end.requests == requests
            &&& end.attempted == tried.len()
            &&& end.failures == failures_among(requests, tried)
            &&& end.pending() == if tried.len() < requests.len() {
                Some(requests[tried.len() as int])
            } else {
                None
            }
            &&& end.done() <==> outcomes.len() >= requests.len()
        }),
    decreases outcomes.len(),
{
    if outcomes.len() > 0 {
        let earlier = outcomes.drop_last();
        lemma_fan_out_isolates_failures(requests, earlier);
        if outcomes.len() <= requests.len() {
            let now = Seq::new(outcomes.len(), |i: int| (requests[i], outcomes[i]));
            let before = Seq::new(earlier.len(), |i: int| (requests[i], earlier[i]));
            assert(now.drop_last() =~= before);
        } else if earlier.len() > requests.len() {
            let cut = requests.len() as int;
            assert(earlier.take(cut) =~= outcomes.take(cut));
        }
    }
}

} // verus!
