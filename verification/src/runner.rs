//! One run's lifecycle: the seed derivation, the reset of the deterministic
//! world, the tick-loop decisions, and the classification of the outcome.
//!
//! The surrounding process owns the virtual network and the scenario
//! callbacks; it asks `begin_tick` what to do before each topology step,
//! reports what the topology returned, and classifies the run when the loop
//! ends. Every decision here is a pure function of the run's state, which is
//! what makes a run replayable from its seed.

use vstd::prelude::*;

use crate::config::{SimConfig, SimDuration};
use crate::env::{
    epoch_offset_value, step_multiplier_value, CancellationState, EnvOverrides, SimEnv,
};
use crate::rng::Rng;
use crate::text::{ends_with_spec, starts_with_spec};
use vstd::string::StrSliceExecFns;
use vstd::string::StringSliceAdditionalSpecFns;

verus! {

/// What one finished run measured.
#[derive(Clone, Copy, Debug, PartialEq, Eq, Structural)]
pub struct SimRunProperties {
    /// Topology steps executed.
    pub steps: u64,
    /// Real time the run took, for reporting only.
    pub real_time_millis: u64,
    /// Simulated time the run covered.
    pub sim_time_millis: u64,
}

/// What identifies one run in a report.
pub struct SimProperties {
    pub run_number: u64,
    /// The worker thread that ran it; none in sequential mode.
    pub thread_id: Option<u64>,
    pub config: SimConfig,
    /// Scenario-supplied key/value pairs.
    pub extra: Vec<(Vec<u8>, Vec<u8>)>,
}

/// The structured outcome of one run.
pub enum SimResult {
    Success { props: SimProperties, run: SimRunProperties },
    Fail {
        props: SimProperties,
        run: SimRunProperties,
        error: Option<Vec<u8>>,
        panic: Option<Vec<u8>>,
    },
}

impl SimResult {
    pub fn is_success(&self) -> (r: bool)
        ensures
            r == (self is Success),
    {
        match self {
            SimResult::Success { .. } => true,
            SimResult::Fail { .. } => false,
        }
    }
}

/// The seed of run `run_number`, derived from the initial seed: the first
/// run uses the initial seed itself, and every later run draws a fresh seed
/// from a generator carrying its predecessor's. The mapping from the initial
/// seed and the run number to the effective seed is a pure function, which
/// is what lets a whole batch be replayed from one number.
pub open spec fn effective_seed_spec(initial_seed: u64, run_number: u64) -> u64
    decreases run_number,
{
    if run_number <= 1 {
        initial_seed
    } else {
        Rng::draw_value(effective_seed_spec(initial_seed, (run_number - 1) as u64))
    }
}

pub fn effective_seed(initial_seed: u64, run_number: u64) -> (r: u64)
    ensures
        r == effective_seed_spec(initial_seed, run_number),
{
    let mut seed = initial_seed;
    let mut k: u64 = 1;
    while k < run_number
        invariant
            1 <= k,
            run_number > 1 ==> k <= run_number,
            seed == effective_seed_spec(initial_seed, if k <= run_number {
                k
            } else {
                1
            }),
        decreases run_number - k,
    {
        let mut rng = Rng::from_seed(seed);
        seed = rng.draw_u64();
        k = k + 1;
    }
    seed
}

/// The deterministic world run `run_number` starts from: a generator seeded
/// with the run's effective seed, the clock parameters drawn from it (in
/// this order: epoch offset, then step multiplier), the step counter at one,
/// and no cancellation observed.
pub open spec fn run_setup_spec(initial_seed: u64, run_number: u64, ov: EnvOverrides) -> SimEnv {
    let seed = effective_seed_spec(initial_seed, run_number);
    SimEnv {
        rng: Rng::from_seed_spec(
            Rng::state_after_draw(Rng::state_after_draw(seed)),
        ),
        overrides: ov,
        epoch_offset: Some(epoch_offset_value(seed, ov.epoch_offset)),
        step_multiplier: Some(
            step_multiplier_value(Rng::state_after_draw(seed), ov.step_multiplier),
        ),
        step: 1,
        cancellation: CancellationState { global: false, simulation: false, run: false },
    }
}

/// Reset the deterministic world for one run.
pub fn run_setup(initial_seed: u64, run_number: u64, ov: EnvOverrides) -> (env: SimEnv)
    ensures
        env == run_setup_spec(initial_seed, run_number, ov),
        env.epoch_offset is Some,
        env.step_multiplier is Some,
        env.step_multiplier->0 >= 1,
        env.step == 1,
{
    let seed = effective_seed(initial_seed, run_number);
    let mut env = SimEnv::new(seed, ov);
    env.reset_epoch_offset();
    env.reset_step_multiplier();
    proof {
        crate::rng::lemma_from_seed_spec_state(
            Rng::state_after_draw(Rng::state_after_draw(seed)),
        );
        crate::rng::lemma_rng_state_determines(
            env.rng,
            run_setup_spec(initial_seed, run_number, ov).rng,
        );
    }
    env
}

/// Determinism: two runs with the same initial seed, the same run number,
/// and the same pinned overrides start from exactly the same world — the
/// same effective seed, generator state, and clock parameters. Since the
/// virtual network is likewise a function of its seed, everything a run
/// prints apart from real-time measurements is pinned by these inputs.
pub proof fn lemma_run_determinism(
    s1: u64,
    n1: u64,
    ov1: EnvOverrides,
    s2: u64,
    n2: u64,
    ov2: EnvOverrides,
)
    requires
        s1 == s2,
        n1 == n2,
        ov1 == ov2,
    ensures
        run_setup_spec(s1, n1, ov1) == run_setup_spec(s2, n2, ov2),
        effective_seed_spec(s1, n1) == effective_seed_spec(s2, n2),
{
}

/// Whether the budgeted virtual time is spent at the given step.
pub open spec fn tick_stop_condition(step: u64, duration: SimDuration, tick_ms: u64) -> bool {
    match duration {
        SimDuration::Millis(d) => step * tick_ms >= d,
        SimDuration::Unbounded => false,
    }
}

/// What the runner does at the top of one loop iteration.
pub enum TickControl {
    /// Cancellation is observed: skip the scenario step, only drive the
    /// topology so its tasks can wind down.
    Cancelled,
    /// The virtual-time budget is spent: the run is over.
    Stop { emit_progress: bool },
    /// Run the scenario step and then the topology.
    Run { step: u64, emit_progress: bool },
}

/// Decide one loop iteration: under cancellation nothing advances; otherwise
/// the step counter ticks, the budget is checked — cancelling the run when
/// it is spent — and a progress report is due every thousandth step.
pub fn begin_tick(env: &mut SimEnv, duration: SimDuration, tick_ms: u64) -> (r: TickControl)
    requires
        old(env).step < u64::MAX,
    ensures
        old(env).cancellation.run_observes_cancel() ==> r is Cancelled && *final(env) == *old(env),
        !old(env).cancellation.run_observes_cancel() ==> {
            let step = (old(env).step + 1) as u64;
            &&& final(env).step == step
            &&& if tick_stop_condition(step, duration, tick_ms) {
                &&& r == (TickControl::Stop { emit_progress: true })
                &&& *final(env) == (SimEnv {
                    step,
                    cancellation: CancellationState { run: true, ..old(env).cancellation },
                    ..*old(env)
                })
            } else {
                &&& r == (TickControl::Run { step, emit_progress: step % 1000 == 0 })
                &&& *final(env) == (SimEnv { step, ..*old(env) })
            }
        },
{
    if env.cancellation.is_simulator_cancelled() {
        return TickControl::Cancelled;
    }
    let step = env.next_step();
    let stop = match duration {
        SimDuration::Millis(d) => {
            proof {
                assert((step as u128) * (tick_ms as u128) <= u128::MAX) by (nonlinear_arith)
                    requires
                        step <= u64::MAX,
                        tick_ms <= u64::MAX,
                ;
            }
            let product = (step as u128) * (tick_ms as u128);
            product >= d as u128
        },
        SimDuration::Unbounded => false,
    };
    if stop {
        env.cancellation.cancel_simulation();
        TickControl::Stop { emit_progress: true }
    } else {
        TickControl::Run { step, emit_progress: step % 1000 == 0 }
    }
}

/// A budget of zero is spent at once: the very first tick decision stops the
/// run, before any scenario step, with the step counter at two — so the
/// steps counted for the run are at most one.
pub proof fn lemma_zero_duration_stops(step: u64, tick_ms: u64)
    ensures
        tick_stop_condition(step, SimDuration::Millis(0), tick_ms),
{
    assert(step * tick_ms >= 0) by (nonlinear_arith);
}

/// The steps a finished run executed: the counter's last value, minus the
/// final advance that went past the end.
pub fn steps_executed(env: &SimEnv) -> (r: u64)
    requires
        env.step >= 1,
    ensures
        r == env.step - 1,
{
    env.step - 1
}

/// The message prefix by which the virtual network reports that it ran for
/// the configured duration without every task completing.
pub open spec fn duration_sentinel_prefix() -> Seq<u8> {
    "Ran for duration: ".spec_bytes()
}

/// The matching message suffix.
pub open spec fn duration_sentinel_suffix() -> Seq<u8> {
    " without completing".spec_bytes()
}

/// Whether a topology error is the benign end-of-budget sentinel.
pub open spec fn is_duration_sentinel_spec(msg: Seq<u8>) -> bool {
    starts_with_spec(msg, duration_sentinel_prefix()) && ends_with_spec(
        msg,
        duration_sentinel_suffix(),
    )
}

pub fn is_duration_sentinel(msg: &Vec<u8>) -> (r: bool)
    ensures
        r == is_duration_sentinel_spec(msg@),
{
    let prefix = "Ran for duration: ".as_bytes_vec();
    let suffix = " without completing".as_bytes_vec();
    crate::text::starts_with(msg, &prefix) && crate::text::ends_with(msg, &suffix)
}

/// What the topology reported for one step.
pub enum TopologyEvent {
    /// Every registered task has terminated.
    Completed,
    /// Tasks remain; keep looping.
    NotCompleted,
    /// The step surfaced an error message.
    Errored(Vec<u8>),
}

/// What the loop does next.
pub enum LoopCommand {
    Continue,
    /// Normal termination: completion, or the end-of-budget sentinel.
    Break,
    /// The run failed with this topology error.
    Fail(Vec<u8>),
}

/// Interpret the topology's report: completion and the end-of-budget
/// sentinel end the run normally; any other error fails it.
pub fn interpret_topology_event(event: TopologyEvent) -> (r: LoopCommand)
    ensures
        match event {
            TopologyEvent::Completed => r is Break,
            TopologyEvent::NotCompleted => r is Continue,
            TopologyEvent::Errored(msg) => if is_duration_sentinel_spec(msg@) {
                r is Break
            } else {
                r matches LoopCommand::Fail(m) && m@ == msg@
            },
        },
{
    match event {
        TopologyEvent::Completed => LoopCommand::Break,
        TopologyEvent::NotCompleted => LoopCommand::Continue,
        TopologyEvent::Errored(msg) => {
            if is_duration_sentinel(&msg) {
                LoopCommand::Break
            } else {
                LoopCommand::Fail(msg)
            }
        },
    }
}

/// How the guarded part of a run ended.
pub enum LoopEnd {
    /// The loop broke out normally.
    Finished,
    /// The loop failed with a topology error.
    Errored(Vec<u8>),
    /// A panic was caught unwinding out of the loop, rendered as text.
    Panicked(Vec<u8>),
}

/// Classify a finished run. A caught panic fails it with the unwind text as
/// the error; a topology error fails it with that error; otherwise a panic
/// recorded by the panic hook fails it; only a run with none of the three is
/// a success. The captured panic slot is attached to every failure.
pub fn classify_result(
    props: SimProperties,
    run: SimRunProperties,
    end: LoopEnd,
    panic_slot: Option<Vec<u8>>,
) -> (r: SimResult)
    ensures
        match end {
            LoopEnd::Panicked(text) => r matches SimResult::Fail { error, panic, .. } && error
                matches Some(e) && e@ == text@ && panic == panic_slot,
            LoopEnd::Errored(text) => r matches SimResult::Fail { error, panic, .. } && error
                matches Some(e) && e@ == text@ && panic == panic_slot,
            LoopEnd::Finished => match panic_slot {
                Some(p) => r matches SimResult::Fail { error, panic, .. } && error is None && panic
                    == Some(p),
                None => r is Success,
            },
        },
        (r is Success) == (end is Finished && panic_slot is None),
{
    match end {
        LoopEnd::Panicked(text) => SimResult::Fail {
            props,
            run,
            error: Some(text),
            panic: panic_slot,
        },
        LoopEnd::Errored(text) => SimResult::Fail {
            props,
            run,
            error: Some(text),
            panic: panic_slot,
        },
        LoopEnd::Finished => match panic_slot {
            Some(p) => SimResult::Fail { props, run, error: None, panic: Some(p) },
            None => SimResult::Success { props, run },
        },
    }
}

} // verus!
