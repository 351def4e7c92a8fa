//! What running a request came to.
use vstd::prelude::*;

verus! {

/// What the server answered.
#[derive(Debug, PartialEq, Eq)]
pub struct Response {
    pub status: u16,
    pub status_text: String,
    /// The headers, in the order the response carried them.
    pub headers: Vec<(String, String)>,
    pub body: String,
    /// How long the answer took, in milliseconds.
    pub elapsed_ms: u64,
}

/// One checked assertion: what was expected, and what was wrong, if anything.
#[derive(Debug, PartialEq, Eq)]
pub struct AssertionResult {
    pub expectation: String,
    pub failure: Option<String>,
}

/// The results of all the assertions of a request.
#[derive(Debug, PartialEq, Eq)]
pub struct AssertionReport {
    pub results: Vec<AssertionResult>,
}

/// How many of the results are failures.
pub open spec fn failures(results: Seq<AssertionResult>) -> nat
    decreases results.len(),
{
    if results.len() == 0 {
        0
    } else {
        failures(results.drop_last()) + if results.last().failure is Some {
            1nat
        } else {
            0nat
        }
    }
}

pub proof fn lemma_failures_bound(results: Seq<AssertionResult>)
    ensures
        failures(results) <= results.len(),
        failures(results) == 0 <==> (forall|i: int|
            0 <= i < results.len() ==> (#[trigger] results[i]).failure is None),
    decreases results.len(),
{
    if results.len() > 0 {
        let rest = results.drop_last();
        lemma_failures_bound(rest);
        if failures(results) == 0 {
            assert forall|i: int| 0 <= i < results.len() implies (
            #[trigger] results[i]).failure is None by {
                if i < rest.len() {
                    assert(rest[i] == results[i]);
                }
            }
        } else if forall|i: int|
            0 <= i < results.len() ==> (#[trigger] results[i]).failure is None {
            assert forall|i: int| 0 <= i < rest.len() implies (
            #[trigger] rest[i]).failure is None by {
                assert(rest[i] == results[i]);
            }
            assert(results[results.len() - 1].failure is None);
        }
    }
}

impl Default for AssertionReport {
    fn default() -> (r: Self)
        ensures
            r.results@.len() == 0,
    {
        AssertionReport { results: Vec::new() }
    }
}

impl AssertionReport {
    /// Whether nothing was checked.
    pub fn is_empty(&self) -> (r: bool)
        ensures
            r == (self.results@.len() == 0),
    {
        self.results.len() == 0
    }

    /// How many assertions did not hold.
    pub fn failed_count(&self) -> (r: usize)
        ensures
            r == failures(self.results@),
            r <= self.results@.len(),
    {
        let mut n: usize = 0;
        let mut i: usize = 0;
        while i < self.results.len()
            invariant
                i <= self.results@.len(),
                n == failures(self.results@.take(i as int)),
                n <= i,
            decreases self.results@.len() - i,
        {
            assert(self.results@.take(i + 1).drop_last() =~= self.results@.take(i as int));
            if self.results[i].failure.is_some() {
                n = n + 1;
            }
            i = i + 1;
        }
        assert(self.results@.take(self.results@.len() as int) =~= self.results@);
        n
    }

    /// How many assertions held.
    pub fn passed_count(&self) -> (r: usize)
        ensures
            r == self.results@.len() - failures(self.results@),
    {
        let failed = self.failed_count();
        self.results.len() - failed
    }

    /// Whether every assertion held.
    pub fn passed(&self) -> (r: bool)
        ensures
            r == (failures(self.results@) == 0),
    {
        self.failed_count() == 0
    }
}

/// One captured variable: where it was read from, and its value or why there
/// is none.
#[derive(Debug, PartialEq, Eq)]
pub struct CaptureResult {
    pub variable: String,
    pub path: String,
    pub value: Result<String, String>,
}

/// The results of all the captures of a request.
#[derive(Debug, PartialEq, Eq)]
pub struct CaptureReport {
    pub results: Vec<CaptureResult>,
}

impl Default for CaptureReport {
    fn default() -> (r: Self)
        ensures
            r.results@.len() == 0,
    {
        CaptureReport { results: Vec::new() }
    }
}

impl CaptureReport {
    /// Whether nothing was to be captured.
    pub fn is_empty(&self) -> (r: bool)
        ensures
            r == (self.results@.len() == 0),
    {
        self.results.len() == 0
    }
}

/// What running a request came to: the response or the error, and what was
/// checked and captured.
#[derive(Debug, PartialEq, Eq)]
pub struct RunOutcome {
    pub result: Result<Response, String>,
    pub assertions: AssertionReport,
    pub capture: CaptureReport,
}

/// One finished run.
#[derive(Debug, PartialEq, Eq)]
pub struct RunHistoryEntry {
    /// When the run finished, in milliseconds since some fixed moment.
    pub completed_at: u64,
    pub outcome: RunOutcome,
}

} // verus!
