//! Scheduling many runs over worker threads.
//!
//! The orchestrator owns the shared counters: how many runs there are, which
//! run number a worker claims next, whether the batch has been told to end,
//! and the results gathered per worker. The workers themselves are OS
//! threads outside this crate; they call in to claim run numbers and to
//! record what their runs produced.

use vstd::prelude::*;

use crate::runner::SimResult;

verus! {

/// Results gathered so far, one slot per worker identifier; the flattening
/// in slot order is what the batch reports.
pub open spec fn flatten_results(entries: Seq<Vec<SimResult>>) -> Seq<SimResult>
    decreases entries.len(),
{
    if entries.len() == 0 {
        Seq::<SimResult>::empty()
    } else {
        entries[0]@ + flatten_results(entries.skip(1))
    }
}

/// The shared state of one batch of runs.
pub struct SimOrchestrator {
    /// How many runs the batch makes in all.
    pub runs: u64,
    /// The worker-thread budget; zero means the main thread runs everything.
    pub max_parallel: u64,
    /// The next run index to hand out (run numbers are the index plus one).
    pub next_run_index: u64,
    /// Whether the batch has been told to end early.
    pub end_sim: bool,
    /// Results per worker identifier.
    pub results: Vec<Vec<SimResult>>,
}

impl SimOrchestrator {
    pub fn new(runs: u64, max_parallel: u64) -> (r: Self)
        ensures
            r.runs == runs,
            r.max_parallel == max_parallel,
            r.next_run_index == 0,
            !r.end_sim,
            r.results@.len() == 0,
    {
        SimOrchestrator { runs, max_parallel, next_run_index: 0, end_sim: false, results: Vec::new() }
    }

    /// How many worker threads the batch spawns: never more than there are
    /// runs.
    pub fn effective_parallelism(&self) -> (r: u64)
        ensures
            r == (if self.runs < self.max_parallel {
                self.runs
            } else {
                self.max_parallel
            }),
    {
        if self.runs < self.max_parallel {
            self.runs
        } else {
            self.max_parallel
        }
    }

    /// Whether the batch runs sequentially on the main thread. Results are
    /// then recorded under one worker slot in run order, so the order the
    /// batch reports is the run-number order.
    pub fn sequential(&self) -> (r: bool)
        ensures
            r == (self.max_parallel == 0),
    {
        self.max_parallel == 0
    }

    /// End the batch early: no further run numbers are handed out.
    pub fn end_sim(&mut self)
        ensures
            *final(self) == (SimOrchestrator { end_sim: true, ..*old(self) }),
    {
        self.end_sim = true;
    }

    /// The interrupt handler's effect on the batch.
    pub fn ctrl_c(&mut self)
        ensures
            *final(self) == (SimOrchestrator { end_sim: true, ..*old(self) }),
    {
        self.end_sim();
    }

    /// Claim the next run. Every claim hands out a distinct run number, in
    /// order, one claim per run — whichever worker asks — and nothing is
    /// handed out once the batch has ended or every run is claimed.
    pub fn claim_run(&mut self) -> (r: Option<u64>)
        ensures
            (old(self).end_sim || old(self).next_run_index >= old(self).runs) ==> r is None
                && *final(self) == *old(self),
            !(old(self).end_sim || old(self).next_run_index >= old(self).runs) ==> r == Some(
                (old(self).next_run_index + 1) as u64,
            ) && *final(self) == (SimOrchestrator {
                next_run_index: (old(self).next_run_index + 1) as u64,
                ..*old(self)
            }),
    {
        if self.end_sim || self.next_run_index >= self.runs {
            return None;
        }
        self.next_run_index = self.next_run_index + 1;
        Some(self.next_run_index)
    }

    /// Record one run's result under the given worker slot, growing the
    /// table as workers appear.
    pub fn record_result(&mut self, worker: usize, result: SimResult)
        requires
            worker < 4096,
        ensures
            final(self).results@.len() == (if old(self).results@.len() > worker + 1 {
                old(self).results@.len() as int
            } else {
                worker + 1
            }),
            forall|i: int|
                0 <= i < final(self).results@.len() && i != worker ==> final(self).results@[i]@
                    == (if i < old(self).results@.len() {
                    old(self).results@[i]@
                } else {
                    Seq::<SimResult>::empty()
                }),
            final(self).results@[worker as int]@ == (if worker < old(self).results@.len() {
                old(self).results@[worker as int]@
            } else {
                Seq::<SimResult>::empty()
            }).push(result),
            *final(self) == (SimOrchestrator { results: final(self).results, ..*old(self) }),
    {
        while self.results.len() <= worker
            invariant
                worker < 4096,
                forall|i: int|
                    0 <= i < self.results@.len() ==> self.results@[i]@ == (if i < old(
                        self,
                    ).results@.len() {
                        old(self).results@[i]@
                    } else {
                        Seq::<SimResult>::empty()
                    }),
                self.results@.len() >= old(self).results@.len(),
                old(self).results@.len() > worker ==> self.results@.len() == old(
                    self,
                ).results@.len(),
                old(self).results@.len() <= worker ==> self.results@.len() <= worker + 1,
                *self == (SimOrchestrator { results: self.results, ..*old(self) }),
            decreases worker + 1 - self.results@.len(),
        {
            self.results.push(Vec::new());
        }
        let slot = &mut self.results[worker];
        slot.push(result);
    }

    /// Everything the batch produced, in worker order and, within one
    /// worker, in the order recorded.
    pub fn collect(self) -> (r: Vec<SimResult>)
        ensures
            r@ == flatten_results(self.results@),
    {
        let mut entries = self.results;
        let mut out: Vec<SimResult> = Vec::new();
        proof {
            assert(Seq::<SimResult>::empty() + flatten_results(entries@) =~= flatten_results(
                entries@,
            ));
        }
        let ghost whole = flatten_results(entries@);
        while entries.len() > 0
            invariant
                out@ + flatten_results(entries@) == whole,
            decreases entries@.len(),
        {
            let ghost pre = entries@;
            let mut slot = entries.remove(0);
            proof {
                assert(pre.remove(0) =~= pre.skip(1));
            }
            while slot.len() > 0
                invariant
                    out@ + slot@ + flatten_results(entries@) == whole,
                decreases slot@.len(),
            {
                let ghost pre_slot = slot@;
                let item = slot.remove(0);
                out.push(item);
                proof {
                    assert(pre_slot.remove(0) =~= pre_slot.skip(1));
                    assert(out@ + slot@ + flatten_results(entries@) =~= whole);
                }
            }
            proof {
                assert(out@ + flatten_results(entries@) =~= whole);
            }
        }
        proof {
            assert(flatten_results(entries@).len() == 0);
            assert(out@ =~= whole);
        }
        out
    }
}

/// In sequential mode everything sits in the one slot of the main thread,
/// so the batch reports exactly that slot's list: results keep run order.
pub proof fn lemma_sequential_order(entries: Seq<Vec<SimResult>>)
    requires
        entries.len() == 1,
    ensures
        flatten_results(entries) == entries[0]@,
{
    assert(flatten_results(entries.skip(1)).len() == 0);
    assert(flatten_results(entries) =~= entries[0]@);
}

/// Whether a sequence of claimed run numbers covers runs one to `n`: every
/// run number appears, and nothing else does.
pub open spec fn covers_runs(claimed: Seq<u64>, n: u64) -> bool {
    &&& forall|k: u64| 1 <= k <= n ==> claimed.contains(k)
    &&& forall|i: int| 0 <= i < claimed.len() ==> 1 <= #[trigger] claimed[i] <= n
}

/// The claim counter hands out exactly the run numbers one to `n`, one
/// each, whatever the workers' interleaving: the claims, in counter order,
/// cover the batch.
pub proof fn lemma_claims_cover(n: u64)
    ensures
        covers_runs(Seq::new(n as nat, |i: int| (i + 1) as u64), n),
{
    let claimed = Seq::new(n as nat, |i: int| (i + 1) as u64);
    assert forall|k: u64| 1 <= k <= n implies claimed.contains(k) by {
        assert(claimed[k - 1] == k);
    }
}

/// Orthogonality of workers: a run's outcome is a function of its run number
/// alone — the deterministic world is rebuilt from the effective seed, and
/// the claim counter hands out each number exactly once whatever the worker
/// count. So any two schedules that cover the same runs produce the same set
/// of outcomes, however the numbers were distributed over workers.
pub proof fn lemma_worker_orthogonality<R>(
    claimed1: Seq<u64>,
    claimed2: Seq<u64>,
    n: u64,
    outcome: spec_fn(u64) -> R,
)
    requires
        covers_runs(claimed1, n),
        covers_runs(claimed2, n),
    ensures
        claimed1.map_values(outcome).to_set() == claimed2.map_values(outcome).to_set(),
{
    let s1 = claimed1.map_values(outcome).to_set();
    let s2 = claimed2.map_values(outcome).to_set();
    assert forall|r: R| s1.contains(r) implies s2.contains(r) by {
        lemma_outcome_set_step(claimed1, claimed2, n, outcome, r);
    }
    assert forall|r: R| s2.contains(r) implies s1.contains(r) by {
        lemma_outcome_set_step(claimed2, claimed1, n, outcome, r);
    }
    assert(s1 =~= s2);
}

proof fn lemma_outcome_set_step<R>(
    a: Seq<u64>,
    b: Seq<u64>,
    n: u64,
    outcome: spec_fn(u64) -> R,
    r: R,
)
    requires
        covers_runs(a, n),
        covers_runs(b, n),
        a.map_values(outcome).to_set().contains(r),
    ensures
        b.map_values(outcome).to_set().contains(r),
{
    broadcast use vstd::seq_lib::group_seq_lib_default;

    let ma = a.map_values(outcome);
    assert(ma.contains(r));
    let i = choose|i: int| 0 <= i < ma.len() && ma[i] == r;
    let k = a[i];
    assert(outcome(k) == r);
    assert(b.contains(k));
    let j = choose|j: int| 0 <= j < b.len() && b[j] == k;
    let mb = b.map_values(outcome);
    assert(mb[j] == r);
    assert(mb.contains(r));
}

} // verus!
