//! The simulator's awaiting primitives, as step-driven state machines.
//!
//! A sleep is a future over the virtual clock: pending on its first poll,
//! then ready once the clock has advanced past its duration. A select over
//! several sleeps resolves to the branch that becomes ready first, ties
//! broken by declaration order — which, with the clock advancing one
//! millisecond per step, is the branch with the smallest duration.

use vstd::prelude::*;

use crate::env::{CancellationState, SimEnv, WaitPoll};
use crate::rng::Rng;

verus! {

/// A builder for the deterministic runtime.
pub struct Builder {
    pub max_blocking_threads: Option<u16>,
}

impl Builder {
    pub fn new() -> (r: Self)
        ensures
            r.max_blocking_threads is None,
    {
        Builder { max_blocking_threads: None }
    }

    pub fn max_blocking_threads(&mut self, max_blocking_threads: Option<u16>)
        ensures
            *final(self) == (Builder { max_blocking_threads }),
    {
        self.max_blocking_threads = max_blocking_threads;
    }
}

impl Default for Builder {
    fn default() -> (r: Self)
        ensures
            r.max_blocking_threads is None,
    {
        Builder::new()
    }
}

/// What every runtime offers; the simulator's is below.
pub trait GenericRuntime {

}

/// The deterministic runtime: a virtual clock advancing one millisecond per
/// step from a zero epoch, driving sleep-based tasks.
pub struct Runtime {
    pub env: SimEnv,
}

impl GenericRuntime for Runtime {

}

/// Build the deterministic runtime; the blocking-thread budget has no
/// meaning in a single-threaded simulated world and is accepted for
/// interface parity.
pub fn build_runtime(builder: &Builder) -> (r: Runtime)
    ensures
        r.env.step == 1,
        r.env.epoch_offset == Some(0u64),
        r.env.step_multiplier == Some(1u64),
        !r.env.cancellation.run_observes_cancel(),
{
    Runtime {
        env: SimEnv {
            rng: Rng::from_seed(0),
            overrides: crate::env::EnvOverrides::none(),
            epoch_offset: Some(0),
            step_multiplier: Some(1),
            step: 1,
            cancellation: CancellationState::new(),
        },
    }
}

/// A virtual sleep: pending on its first poll, ready once the clock has
/// advanced `duration_millis` past its start.
pub struct Sleep {
    pub start_millis: u64,
    pub duration_millis: u64,
    pub polled: bool,
    pub completed: bool,
}

impl Sleep {
    /// Whether the sleep's time has come at the given instant.
    pub open spec fn ready_at(&self, now_millis: u64) -> bool {
        now_millis - self.start_millis >= self.duration_millis
    }

    /// A sleep starting now.
    pub fn new(now_millis: u64, duration_millis: u64) -> (r: Self)
        ensures
            r == (Sleep { start_millis: now_millis, duration_millis, polled: false, completed: false }),
    {
        Sleep { start_millis: now_millis, duration_millis, polled: false, completed: false }
    }

    /// One poll at the given instant: the first poll is always pending —
    /// registering the task — and every later poll is ready exactly when the
    /// clock has advanced far enough.
    pub fn poll(&mut self, now_millis: u64) -> (r: bool)
        requires
            now_millis >= old(self).start_millis,
        ensures
            !old(self).polled ==> !r && *final(self) == (Sleep { polled: true, ..*old(self) }),
            old(self).polled ==> r == old(self).ready_at(now_millis) && *final(self) == (Sleep {
                completed: old(self).completed || r,
                ..*old(self)
            }),
    {
        if !self.polled {
            self.polled = true;
            return false;
        }
        if now_millis - self.start_millis >= self.duration_millis {
            self.completed = true;
            true
        } else {
            false
        }
    }

    /// Whether the sleep has resolved.
    pub fn is_terminated(&self) -> (r: bool)
        ensures
            r == self.completed,
    {
        self.completed
    }

    /// A cancellation-aware poll: once the run scope has fired, the sleep
    /// resolves at its next poll whatever the clock says.
    pub fn poll_cancellable(
        &mut self,
        now_millis: u64,
        cancel: &CancellationState,
    ) -> (r: WaitPoll)
        requires
            now_millis >= old(self).start_millis,
        ensures
            cancel.run_observes_cancel() ==> r == WaitPoll::Cancelled && *final(self) == *old(self),
            !cancel.run_observes_cancel() && !old(self).polled ==> r == WaitPoll::Pending
                && *final(self) == (Sleep { polled: true, ..*old(self) }),
            !cancel.run_observes_cancel() && old(self).polled ==> r == (if old(self).ready_at(
                now_millis,
            ) {
                WaitPoll::Finished
            } else {
                WaitPoll::Pending
            }) && *final(self) == (Sleep {
                completed: old(self).completed || old(self).ready_at(now_millis),
                ..*old(self)
            }),
    {
        if cancel.is_simulator_cancelled() {
            return WaitPoll::Cancelled;
        }
        if self.poll(now_millis) {
            WaitPoll::Finished
        } else {
            WaitPoll::Pending
        }
    }
}

/// The poll cycle at which a sleep of the given duration resolves: its
/// duration in steps, except that even a zero-length sleep takes one cycle,
/// its first poll being always pending.
pub open spec fn ready_tick(duration: u64) -> int {
    if duration == 0 {
        1
    } else {
        duration as int
    }
}

impl Runtime {
    /// Drive a select over sleeps of the given durations to completion: poll
    /// each branch in declaration order, advance the clock one step when
    /// none is ready, and resolve to the first branch that becomes ready —
    /// the first branch of the earliest ready cycle, so ties break by
    /// declaration order.
    pub fn select_sleeps(&mut self, durations: &Vec<u64>) -> (r: Option<usize>)
        requires
            durations@.len() >= 1,
            old(self).env.epoch_offset == Some(0u64),
            old(self).env.step_multiplier == Some(1u64),
            old(self).env.step + durations@[0] + 1 < u64::MAX,
        ensures
            r matches Some(i) && i < durations@.len(),
            forall|j: int|
                0 <= j < durations@.len() ==> ready_tick(#[trigger] durations@[j]) >= ready_tick(
                    durations@[r->0 as int],
                ),
            forall|j: int|
                0 <= j < r->0 ==> ready_tick(#[trigger] durations@[j]) > ready_tick(
                    durations@[r->0 as int],
                ),
    {
        let start = self.env.now_millis();
        let mut sleeps: Vec<Sleep> = Vec::new();
        let mut i: usize = 0;
        while i < durations.len()
            invariant
                0 <= i <= durations@.len(),
                sleeps@.len() == i,
                forall|k: int|
                    0 <= k < i ==> #[trigger] sleeps@[k] == (Sleep {
                        start_millis: start,
                        duration_millis: durations@[k],
                        polled: false,
                        completed: false,
                    }),
            decreases durations@.len() - i,
        {
            sleeps.push(Sleep::new(start, durations[i]));
            i = i + 1;
        }
        let mut j: usize = 0;
        while j < sleeps.len()
            invariant
                0 <= j <= sleeps@.len() == durations@.len(),
                forall|k: int|
                    0 <= k < sleeps@.len() ==> #[trigger] sleeps@[k] == (Sleep {
                        start_millis: start,
                        duration_millis: durations@[k],
                        polled: k < j,
                        completed: false,
                    }),
            decreases sleeps@.len() - j,
        {
            let slot = &mut sleeps[j];
            let polled = slot.poll(start);
            j = j + 1;
        }
        let mut elapsed: u64 = 0;
        loop
            invariant
                sleeps@.len() == durations@.len() >= 1,
                self.env.epoch_offset == Some(0u64),
                self.env.step_multiplier == Some(1u64),
                self.env.step == old(self).env.step + elapsed,
                old(self).env.step + durations@[0] + 1 < u64::MAX,
                start == old(self).env.step,
                elapsed <= ready_tick(durations@[0]),
                forall|k: int|
                    0 <= k < sleeps@.len() ==> #[trigger] sleeps@[k] == (Sleep {
                        start_millis: start,
                        duration_millis: durations@[k],
                        polled: true,
                        completed: false,
                    }),
                forall|k: int|
                    0 <= k < durations@.len() ==> #[trigger] durations@[k] > elapsed || elapsed
                        == 0,
            decreases ready_tick(durations@[0]) - elapsed,
        {
            let step = self.env.next_step();
            elapsed = elapsed + 1;
            let now = self.env.now_millis();
            proof {
                assert(now == start + elapsed);
            }
            let mut k: usize = 0;
            while k < sleeps.len()
                invariant
                    0 <= k <= sleeps@.len() == durations@.len(),
                    now == start + elapsed,
                    elapsed >= 1,
                    forall|m: int|
                        0 <= m < sleeps@.len() ==> #[trigger] sleeps@[m] == (Sleep {
                            start_millis: start,
                            duration_millis: durations@[m],
                            polled: true,
                            completed: false,
                        }),
                    forall|m: int|
                        0 <= m < durations@.len() ==> elapsed >= 2 ==> #[trigger] durations@[m]
                            >= elapsed,
                    forall|m: int| 0 <= m < k ==> #[trigger] durations@[m] > elapsed,
                decreases sleeps@.len() - k,
            {
                let ghost pre = sleeps@[k as int];
                let slot = &mut sleeps[k];
                if slot.poll(now) {
                    proof {
                        assert(pre.ready_at(now));
                        assert(durations@[k as int] <= elapsed);
                        assert(ready_tick(durations@[k as int]) == elapsed);
                        assert(forall|m: int|
                            0 <= m < durations@.len() ==> ready_tick(#[trigger] durations@[m])
                                >= elapsed);
                        assert(forall|m: int|
                            0 <= m < k ==> ready_tick(#[trigger] durations@[m]) > elapsed);
                    }
                    return Some(k);
                }
                proof {
                    assert(!pre.ready_at(now));
                    assert(durations@[k as int] > elapsed);
                }
                k = k + 1;
            }
        }
    }
}

} // verus!
