//! Decisions taken while the telemetry guard shuts down.

use vstd::prelude::*;

verus! {

/// Records whether telemetry shutdown has started, so that it runs at most once.
#[derive(Debug)]
pub struct ShutdownLatch {
    started: bool,
}

impl View for ShutdownLatch {
    type V = bool;

    closed spec fn view(&self) -> bool {
        self.started
    }
}

/// One attempt to start shutdown from a latch whose state is `started`: whether this
/// attempt runs the shutdown, and the latch state afterwards.
pub open spec fn begin_step(started: bool) -> (bool, bool) {
    (!started, true)
}

impl ShutdownLatch {
    /// A latch for a guard whose shutdown has not started.
    pub fn new() -> (latch: Self)
        ensures
            !latch@,
    {
        ShutdownLatch { started: false }
    }

    /// Marks shutdown as started; returns whether this call is the one that runs it.
    pub fn begin(&mut self) -> (runs: bool)
        ensures
            (runs, final(self)@) == begin_step(old(self)@),
    {
        let runs = !self.started;
        self.started = true;
        runs
    }

    /// Whether shutdown has started.
    pub fn is_started(&self) -> (started: bool)
        ensures
            started == self@,
    {
        self.started
    }
}

/// Shutdown is idempotent: once an attempt has started it, every later attempt returns
/// without running it again.
pub proof fn lemma_shutdown_runs_once(started: bool)
    ensures
        !begin_step(begin_step(started).1).0,
        begin_step(false).0,
{
}

/// Index of the first failure among `results`, if any.
pub open spec fn first_failure_index<E>(results: Seq<Result<(), E>>) -> Option<int>
    decreases results.len(),
{
    if results.len() == 0 {
        None
    } else if results[0] is Err {
        Some(0)
    } else {
        match first_failure_index(results.drop_first()) {
            Some(i) => Some(i + 1),
            None => None,
        }
    }
}

proof fn lemma_first_failure_index<E>(results: Seq<Result<(), E>>, k: int)
    requires
        0 <= k <= results.len(),
        forall|j: int| 0 <= j < k ==> results[j] is Ok,
    ensures
        k < results.len() && results[k] is Err ==> first_failure_index(results) == Some(k),
        k == results.len() ==> first_failure_index(results) is None,
    decreases k,
{
    if k > 0 {
        lemma_first_failure_index(results.drop_first(), k - 1);
    } else if results.len() > 0 {
    }
}

/// The outcome of awaiting every background task: `Ok` when all succeeded, otherwise
/// the first failure. Every result has been collected before the choice is made.
pub fn first_error<E>(results: Vec<Result<(), E>>) -> (outcome: Result<(), E>)
    ensures
        first_failure_index(results@) is None ==> outcome is Ok,
        first_failure_index(results@) matches Some(i) ==> outcome == results@[i],
{
    let mut pending = results;
    let ghost all = pending@;
    let mut i: usize = 0;
    while i < pending.len()
        invariant
            pending@ == all,
            all == results@,
            i <= pending.len(),
            forall|j: int| 0 <= j < i ==> all[j] is Ok,
        decreases pending.len() - i,
    {
        if pending[i].is_err() {
            proof {
                lemma_first_failure_index(all, i as int);
            }
            return pending.remove(i);
        }
        i = i + 1;
    }
    proof {
        lemma_first_failure_index(all, i as int);
    }
    Ok(())
}

} // verus!
