//! The per-run configuration.
//!
//! A `SimConfig` is derived once at the start of each run — partly from
//! defaults, partly from the run's generator, partly from pinned overrides —
//! and then owned by the runner. Rates are held in parts per million and
//! durations in milliseconds, so the whole configuration is plain integers.

use vstd::prelude::*;

use crate::env::SimEnv;

verus! {

/// A virtual-time budget: a bound in milliseconds, or none.
#[derive(Clone, Copy, Debug, PartialEq, Eq, Structural)]
pub enum SimDuration {
    Unbounded,
    Millis(u64),
}

/// One part per million; rates range over `0 ..= PPM`.
pub const PPM: u32 = 1_000_000;

/// The immutable configuration of one run.
#[derive(Clone, Copy, Debug, PartialEq, Eq, Structural)]
pub struct SimConfig {
    /// The effective seed of this run, recorded for replay.
    pub seed: u64,
    /// How often sending a message fails, in parts per million.
    pub fail_rate_ppm: u32,
    /// How often a failed link heals, in parts per million.
    pub repair_rate_ppm: u32,
    /// Per-link in-flight byte budget of the virtual TCP transport.
    pub tcp_capacity: u64,
    /// Per-link in-flight byte budget of the virtual UDP transport.
    pub udp_capacity: u64,
    /// Whether concurrently ready deliveries may be reordered (still driven
    /// by the run's seed).
    pub enable_random_order: bool,
    pub min_message_latency_ms: u64,
    pub max_message_latency_ms: u64,
    /// The simulated-time budget of the run.
    pub duration: SimDuration,
    /// Virtual time advanced per topology step.
    pub tick_ms: u64,
    /// Milliseconds added to every clock read.
    pub epoch_offset: u64,
    /// Milliseconds the clock advances per step.
    pub step_multiplier: u64,
}

impl SimConfig {
    /// The invariants every run's configuration satisfies.
    pub open spec fn wf(&self) -> bool {
        &&& self.min_message_latency_ms <= self.max_message_latency_ms
        &&& self.tick_ms >= 1
        &&& self.step_multiplier >= 1
        &&& self.fail_rate_ppm <= PPM
        &&& self.repair_rate_ppm <= PPM
    }

    /// The configuration a run starts from: the defaults of the virtual
    /// network, the seed recorded, and the clock parameters as the run's
    /// environment drew them.
    pub open spec fn from_env_spec(seed: u64, duration: SimDuration, env: SimEnv) -> SimConfig {
        SimConfig {
            seed,
            fail_rate_ppm: 0,
            repair_rate_ppm: PPM,
            tcp_capacity: 64,
            udp_capacity: 64,
            enable_random_order: false,
            min_message_latency_ms: 0,
            max_message_latency_ms: 100,
            duration,
            tick_ms: 1,
            epoch_offset: env.epoch_offset->0,
            step_multiplier: env.step_multiplier->0,
        }
    }

    /// Build the run's configuration from its freshly reset environment.
    pub fn from_env(seed: u64, duration: SimDuration, env: &SimEnv) -> (r: SimConfig)
        requires
            env.epoch_offset is Some,
            env.step_multiplier is Some,
            env.step_multiplier->0 >= 1,
        ensures
            r == Self::from_env_spec(seed, duration, *env),
            r.wf(),
    {
        let epoch_offset = match env.epoch_offset {
            Some(v) => v,
            None => 0,  // unreachable under the precondition
        };
        let step_multiplier = match env.step_multiplier {
            Some(v) => v,
            None => 1,  // unreachable under the precondition
        };
        SimConfig {
            seed,
            fail_rate_ppm: 0,
            repair_rate_ppm: PPM,
            tcp_capacity: 64,
            udp_capacity: 64,
            enable_random_order: false,
            min_message_latency_ms: 0,
            max_message_latency_ms: 100,
            duration,
            tick_ms: 1,
            epoch_offset,
            step_multiplier,
        }
    }

    /// Replace the TCP in-flight budget; the scenario sizes it to its
    /// client count.
    pub fn tcp_capacity(&mut self, value: u64)
        ensures
            *final(self) == (SimConfig { tcp_capacity: value, ..*old(self) }),
    {
        self.tcp_capacity = value;
    }

    /// Replace the virtual-time budget.
    pub fn duration(&mut self, value: SimDuration)
        ensures
            *final(self) == (SimConfig { duration: value, ..*old(self) }),
    {
        self.duration = value;
    }
}

} // verus!
