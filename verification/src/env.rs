//! The per-worker deterministic environment.
//!
//! Each worker thread owns one `SimEnv`: the seeded generator, the virtual
//! clock parameters, the monotonic step counter, and the cancellation
//! scopes. The runner resets this state at the start of every run, so that
//! everything a run observes is a function of its effective seed.

use vstd::prelude::*;

use crate::rng::Rng;

verus! {

/// Values pinned from the outside (environment variables, read once at
/// process start); absence means the value is drawn from the run's generator.
#[derive(Clone, Copy, PartialEq, Eq, Structural)]
pub struct EnvOverrides {
    pub epoch_offset: Option<u64>,
    pub step_multiplier: Option<u64>,
}

impl EnvOverrides {
    pub fn none() -> (r: Self)
        ensures
            r == (EnvOverrides { epoch_offset: None::<u64>, step_multiplier: None::<u64> }),
    {
        EnvOverrides { epoch_offset: None, step_multiplier: None }
    }
}

/// The three cancellation scopes. A wider scope cancels every narrower one:
/// per-run observation reports cancelled as soon as the simulation-wide or
/// the global scope fires.
#[derive(Clone, Copy, PartialEq, Eq, Structural)]
pub struct CancellationState {
    pub global: bool,
    pub simulation: bool,
    pub run: bool,
}

impl CancellationState {
    pub fn new() -> (r: Self)
        ensures
            r == (CancellationState { global: false, simulation: false, run: false }),
    {
        CancellationState { global: false, simulation: false, run: false }
    }

    /// Whether the current run observes cancellation, from any scope.
    pub open spec fn run_observes_cancel(&self) -> bool {
        self.global || self.simulation || self.run
    }

    /// Fire the global scope, set by an external interrupt; it is never reset.
    pub fn cancel_global_simulation(&mut self)
        ensures
            *final(self) == (CancellationState { global: true, ..*old(self) }),
    {
        self.global = true;
    }

    pub fn is_global_simulator_cancelled(&self) -> (r: bool)
        ensures
            r == self.global,
    {
        self.global
    }

    /// Fire the per-run scope.
    pub fn cancel_simulation(&mut self)
        ensures
            *final(self) == (CancellationState { run: true, ..*old(self) }),
    {
        self.run = true;
    }

    /// Fire the simulation-wide scope, set at the end of the whole batch.
    pub fn cancel_whole_simulation(&mut self)
        ensures
            *final(self) == (CancellationState { simulation: true, ..*old(self) }),
    {
        self.simulation = true;
    }

    pub fn is_simulator_cancelled(&self) -> (r: bool)
        ensures
            r == self.run_observes_cancel(),
    {
        self.global || self.simulation || self.run
    }

    /// Reset the per-run scope at the start of a run; wider scopes persist.
    pub fn reset_simulator_cancellation_token(&mut self)
        ensures
            *final(self) == (CancellationState { run: false, ..*old(self) }),
    {
        self.run = false;
    }
}

/// What one poll of a cancellation-aware wait decides.
#[derive(Clone, Copy, PartialEq, Eq, Structural, Debug)]
pub enum WaitPoll {
    /// The wrapped work finished first.
    Finished,
    /// Cancellation fired first; the wait resolves without a value.
    Cancelled,
    /// Neither is ready; poll again next step.
    Pending,
}

/// One poll of `run_until_cancelled`: cancellation is checked before the
/// wrapped work, so at the first poll after the run scope fires the wait
/// resolves, whatever the work would have done.
pub fn poll_until_cancelled(cancel: &CancellationState, inner_ready: bool) -> (r: WaitPoll)
    ensures
        r == (if cancel.run_observes_cancel() {
            WaitPoll::Cancelled
        } else if inner_ready {
            WaitPoll::Finished
        } else {
            WaitPoll::Pending
        }),
{
    if cancel.is_simulator_cancelled() {
        WaitPoll::Cancelled
    } else if inner_ready {
        WaitPoll::Finished
    } else {
        WaitPoll::Pending
    }
}

/// Cancellation is total: once the run scope has fired, a cancellation-aware
/// wait can never stay pending, so every awaiting primitive resolves at its
/// next poll — within one additional virtual step.
pub proof fn lemma_cancellation_resolves(cancel: CancellationState, inner_ready: bool)
    requires
        cancel.run,
    ensures
        (if cancel.run_observes_cancel() {
            WaitPoll::Cancelled
        } else if inner_ready {
            WaitPoll::Finished
        } else {
            WaitPoll::Pending
        }) != WaitPoll::Pending,
{
}

/// The largest value (exclusive) an epoch offset is drawn below.
pub const EPOCH_OFFSET_LIMIT: u64 = 100_000_000_000_000;

/// The largest value (exclusive) a step multiplier is drawn below.
pub const STEP_MULTIPLIER_LIMIT: u64 = 1_000_000;

/// The bias exponent applied to the step multiplier draw, skewing it toward
/// small values.
pub const STEP_MULTIPLIER_BIAS: u64 = 10;

/// The deterministic world of one worker thread.
pub struct SimEnv {
    pub rng: Rng,
    pub overrides: EnvOverrides,
    pub epoch_offset: Option<u64>,
    pub step_multiplier: Option<u64>,
    pub step: u64,
    pub cancellation: CancellationState,
}

/// The epoch offset decided from a generator state and an optional override;
/// the generator is consumed either way, so an override does not shift later
/// draws.
pub open spec fn epoch_offset_value(s: u64, ov: Option<u64>) -> u64 {
    match ov {
        Some(v) => v,
        None => Rng::range_value(s, 1, EPOCH_OFFSET_LIMIT),
    }
}

/// The step multiplier decided from a generator state and an optional
/// override; drawn with a strong bias toward small values, never zero.
pub open spec fn step_multiplier_value(s: u64, ov: Option<u64>) -> u64 {
    match ov {
        Some(v) => if v == 0 { 1 } else { v },
        None => Rng::range_dist_value(s, 1, STEP_MULTIPLIER_LIMIT, STEP_MULTIPLIER_BIAS),
    }
}

/// The virtual instant at a given step, in milliseconds past the epoch.
pub open spec fn now_spec(epoch_offset: u64, step_multiplier: u64, step: u64) -> int {
    epoch_offset + step * step_multiplier
}

/// Within one run the clock never goes backwards, and it advances strictly
/// with the step counter whenever the multiplier is positive.
pub proof fn lemma_clock_monotonic(epoch_offset: u64, step_multiplier: u64, k1: u64, k2: u64)
    requires
        k1 <= k2,
    ensures
        now_spec(epoch_offset, step_multiplier, k1) <= now_spec(epoch_offset, step_multiplier, k2),
        step_multiplier >= 1 && k1 < k2 ==> now_spec(epoch_offset, step_multiplier, k1)
            < now_spec(epoch_offset, step_multiplier, k2),
{
    assert(k1 * step_multiplier <= k2 * step_multiplier) by (nonlinear_arith)
        requires
            0 <= k1 <= k2,
            step_multiplier >= 0,
    ;
    if step_multiplier >= 1 && k1 < k2 {
        assert(k1 * step_multiplier < k2 * step_multiplier) by (nonlinear_arith)
            requires
                0 <= k1 < k2,
                step_multiplier >= 1,
        ;
    }
}

/// With a unit multiplier and a zero offset, the instant at step `k` is
/// exactly `k` milliseconds past the epoch.
pub proof fn lemma_unit_clock(k: u64)
    ensures
        now_spec(0, 1, k) == k,
{
    assert(k * 1 == k) by (nonlinear_arith);
}

impl SimEnv {
    /// A fresh world seeded for one run, with the counters at their resting
    /// state and every cancellation scope clear.
    pub fn new(seed: u64, overrides: EnvOverrides) -> (r: Self)
        ensures
            r.rng.state_spec() == seed,
            r.overrides == overrides,
            r.epoch_offset is None,
            r.step_multiplier is None,
            r.step == 1,
            r.cancellation == (CancellationState { global: false, simulation: false, run: false }),
    {
        SimEnv {
            rng: Rng::from_seed(seed),
            overrides,
            epoch_offset: None,
            step_multiplier: None,
            step: 1,
            cancellation: CancellationState::new(),
        }
    }

    /// Redraw the epoch offset for a new run.
    pub fn reset_epoch_offset(&mut self)
        ensures
            final(self).epoch_offset == Some(
                epoch_offset_value(old(self).rng.state_spec(), old(self).overrides.epoch_offset),
            ),
            final(self).rng.state_spec() == Rng::state_after_draw(old(self).rng.state_spec()),
            *final(self) == (SimEnv {
                epoch_offset: final(self).epoch_offset,
                rng: final(self).rng,
                ..*old(self)
            }),
    {
        let drawn = self.rng.gen_range(1, EPOCH_OFFSET_LIMIT);
        let value = match self.overrides.epoch_offset {
            Some(v) => v,
            None => drawn,
        };
        self.epoch_offset = Some(value);
    }

    /// The epoch offset, drawing it first if this run has not yet done so.
    pub fn epoch_offset(&mut self) -> (r: u64)
        ensures
            old(self).epoch_offset is Some ==> *final(self) == *old(self) && r == old(
                self,
            ).epoch_offset->0,
            old(self).epoch_offset is None ==> r == epoch_offset_value(
                old(self).rng.state_spec(),
                old(self).overrides.epoch_offset,
            ) && *final(self) == (SimEnv {
                epoch_offset: Some(r),
                rng: final(self).rng,
                ..*old(self)
            }) && final(self).rng.state_spec() == Rng::state_after_draw(
                old(self).rng.state_spec(),
            ),
    {
        match self.epoch_offset {
            Some(v) => v,
            None => {
                self.reset_epoch_offset();
                match self.epoch_offset {
                    Some(v) => v,
                    None => 0,  // unreachable: reset always sets the value
                }
            },
        }
    }

    /// Redraw the step multiplier for a new run.
    pub fn reset_step_multiplier(&mut self)
        ensures
            final(self).step_multiplier == Some(
                step_multiplier_value(
                    old(self).rng.state_spec(),
                    old(self).overrides.step_multiplier,
                ),
            ),
            final(self).rng.state_spec() == Rng::state_after_draw(old(self).rng.state_spec()),
            *final(self) == (SimEnv {
                step_multiplier: final(self).step_multiplier,
                rng: final(self).rng,
                ..*old(self)
            }),
            final(self).step_multiplier->0 >= 1,
    {
        let drawn = self.rng.gen_range_disti(1, STEP_MULTIPLIER_LIMIT, STEP_MULTIPLIER_BIAS);
        let value = match self.overrides.step_multiplier {
            Some(v) => if v == 0 {
                1
            } else {
                v
            },
            None => drawn,
        };
        self.step_multiplier = Some(value);
    }

    /// The step multiplier, drawing it first if this run has not yet done so.
    pub fn step_multiplier(&mut self) -> (r: u64)
        ensures
            old(self).step_multiplier is Some ==> *final(self) == *old(self) && r == old(
                self,
            ).step_multiplier->0,
            old(self).step_multiplier is None ==> r == step_multiplier_value(
                old(self).rng.state_spec(),
                old(self).overrides.step_multiplier,
            ) && *final(self) == (SimEnv {
                step_multiplier: Some(r),
                rng: final(self).rng,
                ..*old(self)
            }) && final(self).rng.state_spec() == Rng::state_after_draw(
                old(self).rng.state_spec(),
            ),
    {
        match self.step_multiplier {
            Some(v) => v,
            None => {
                self.reset_step_multiplier();
                match self.step_multiplier {
                    Some(v) => v,
                    None => 1,  // unreachable: reset always sets the value
                }
            },
        }
    }

    /// Reset the step counter to its start-of-run value.
    pub fn reset_step(&mut self)
        ensures
            *final(self) == (SimEnv { step: 1, ..*old(self) }),
    {
        self.step = 1;
    }

    /// The latest value of the monotonic step counter.
    pub fn current_step(&self) -> (r: u64)
        ensures
            r == self.step,
    {
        self.step
    }

    /// Advance the step counter by one tick and return the new value.
    pub fn next_step(&mut self) -> (r: u64)
        requires
            old(self).step < u64::MAX,
        ensures
            *final(self) == (SimEnv { step: (old(self).step + 1) as u64, ..*old(self) }),
            r == final(self).step,
    {
        self.step = self.step + 1;
        self.step
    }

    /// The virtual clock: milliseconds past the epoch at the current step.
    /// Both clock parameters must have been drawn for this run.
    pub fn now_millis(&self) -> (r: u64)
        requires
            self.epoch_offset is Some,
            self.step_multiplier is Some,
            now_spec(self.epoch_offset->0, self.step_multiplier->0, self.step) <= u64::MAX,
        ensures
            r == now_spec(self.epoch_offset->0, self.step_multiplier->0, self.step),
    {
        let epoch_offset = match self.epoch_offset {
            Some(v) => v,
            None => 0,  // unreachable under the precondition
        };
        let step_multiplier = match self.step_multiplier {
            Some(v) => v,
            None => 0,  // unreachable under the precondition
        };
        epoch_offset + self.step * step_multiplier
    }
}

} // verus!
