//! The sample scenario: one banking server host, a health checker, a fault
//! injector, and a drawn number of banking clients.
//!
//! This module holds the scenario's own state — the banker count, the banker
//! name counter, and the queue of deferred actions — and the decisions its
//! callbacks make; planting the actual tasks into the virtual network is the
//! surrounding process's job.

use vstd::prelude::*;
use vstd::string::StrSliceExecFns;
use vstd::string::StringSliceAdditionalSpecFns;

use crate::config::SimConfig;
use crate::rng::Rng;
use crate::text::{dec_digits, u64_text};

verus! {

/// A deferred action a client queued for the scenario to apply between
/// steps.
pub enum ScenarioAction {
    /// Stop and restart the named host.
    Bounce(Vec<u8>),
}

/// The scenario's own mutable state, owned by the worker that runs it.
pub struct ScenarioState {
    /// How many banking clients this run plants; drawn once per run.
    pub banker_count: Option<u64>,
    /// The identifier the next banking client takes.
    pub next_banker_id: u32,
    /// Deferred actions, applied in queue order between steps.
    pub actions: Vec<ScenarioAction>,
}

/// The banker count decided from a generator state and an optional
/// override: between one and thirty when drawn.
pub open spec fn banker_count_value(s: u64, ov: Option<u64>) -> u64 {
    match ov {
        Some(v) => v,
        None => Rng::range_value(s, 1, 30),
    }
}

impl ScenarioState {
    pub fn new() -> (r: Self)
        ensures
            r.banker_count is None,
            r.next_banker_id == 1,
            r.actions@.len() == 0,
    {
        ScenarioState { banker_count: None, next_banker_id: 1, actions: Vec::new() }
    }

    /// Redraw the banker count for a new run; the generator is consumed even
    /// under an override, so later draws do not shift.
    pub fn reset_banker_count(&mut self, rng: &mut Rng, ov: Option<u64>) -> (r: u64)
        ensures
            r == banker_count_value(old(rng).state_spec(), ov),
            final(rng).state_spec() == Rng::state_after_draw(old(rng).state_spec()),
            *final(self) == (ScenarioState { banker_count: Some(r), ..*old(self) }),
    {
        let drawn = rng.gen_range(1, 30);
        let value = match ov {
            Some(v) => v,
            None => drawn,
        };
        self.banker_count = Some(value);
        value
    }

    /// The banker count, drawing it first if this run has not yet done so.
    pub fn banker_count(&mut self, rng: &mut Rng, ov: Option<u64>) -> (r: u64)
        ensures
            old(self).banker_count is Some ==> *final(self) == *old(self) && *final(rng) == *old(
                rng,
            ) && r == old(self).banker_count->0,
            old(self).banker_count is None ==> r == banker_count_value(old(rng).state_spec(), ov)
                && final(rng).state_spec() == Rng::state_after_draw(old(rng).state_spec())
                && *final(self) == (ScenarioState { banker_count: Some(r), ..*old(self) }),
    {
        match self.banker_count {
            Some(v) => v,
            None => self.reset_banker_count(rng, ov),
        }
    }

    /// Reset the banker name counter for a new run.
    pub fn reset_id(&mut self)
        ensures
            *final(self) == (ScenarioState { next_banker_id: 1, ..*old(self) }),
    {
        self.next_banker_id = 1;
    }

    /// Claim the next banking client's identifier.
    pub fn claim_banker_id(&mut self) -> (r: u32)
        requires
            old(self).next_banker_id < u32::MAX,
        ensures
            r == old(self).next_banker_id,
            *final(self) == (ScenarioState {
                next_banker_id: (old(self).next_banker_id + 1) as u32,
                ..*old(self)
            }),
    {
        let id = self.next_banker_id;
        self.next_banker_id = self.next_banker_id + 1;
        id
    }

    /// Queue a bounce of the named host for the next step.
    pub fn queue_bounce(&mut self, host: Vec<u8>)
        ensures
            final(self).actions@.len() == old(self).actions@.len() + 1,
            final(self).actions@.last() matches ScenarioAction::Bounce(h) && h@ == host@,
            forall|i: int|
                0 <= i < old(self).actions@.len() ==> final(self).actions@[i] == old(
                    self,
                ).actions@[i],
            *final(self) == (ScenarioState { actions: final(self).actions, ..*old(self) }),
    {
        let ghost h = host@;
        self.actions.push(ScenarioAction::Bounce(host));
    }

    /// Take every queued action, in queue order, leaving the queue empty.
    pub fn drain_actions(&mut self) -> (r: Vec<ScenarioAction>)
        ensures
            r@ == old(self).actions@,
            *final(self) == (ScenarioState { actions: final(self).actions, ..*old(self) }),
            final(self).actions@.len() == 0,
    {
        let mut taken: Vec<ScenarioAction> = Vec::new();
        core::mem::swap(&mut taken, &mut self.actions);
        taken
    }
}

/// The name of the banking client with the given identifier.
pub open spec fn banker_name_spec(id: u32) -> Seq<u8> {
    "banker_".spec_bytes() + dec_digits(id as nat)
}

pub fn banker_name(id: u32) -> (r: Vec<u8>)
    ensures
        r@ == banker_name_spec(id),
{
    let mut r = "banker_".as_bytes_vec();
    let mut digits = u64_text(id as u64);
    r.append(&mut digits);
    r
}

/// A host or client name suffixed with the worker identifier, so that the
/// topologies of concurrent workers do not collide on names.
pub open spec fn suffixed_name_spec(name: Seq<u8>, worker: u64) -> Seq<u8> {
    name + seq![95u8] + dec_digits(worker as nat)
}

pub fn suffixed_name(name: &Vec<u8>, worker: u64) -> (r: Vec<u8>)
    ensures
        r@ == suffixed_name_spec(name@, worker),
{
    let mut r = name.clone();
    r.push(95);
    let mut digits = u64_text(worker);
    r.append(&mut digits);
    proof {
        assert(r@ =~= suffixed_name_spec(name@, worker));
    }
    r
}

/// The scenario's bootstrap callbacks, as decisions on plain state.
pub struct Simulator;

impl Simulator {
    /// Size the per-link TCP budget to the scenario's client count: 64
    /// bytes of in-flight budget per banker, at least one banker's worth.
    pub fn build_sim(&self, banker_count: u64, config: SimConfig) -> (r: SimConfig)
        requires
            banker_count <= 1_000_000_000,
        ensures
            r == (SimConfig {
                tcp_capacity: (if banker_count > 1 {
                    banker_count * 64
                } else {
                    64
                }) as u64,
                ..config
            }),
    {
        let count = if banker_count > 1 {
            banker_count
        } else {
            1
        };
        proof {
            assert(count * 64 <= 64_000_000_000) by (nonlinear_arith)
                requires
                    0 <= count <= 1_000_000_000,
            ;
        }
        let mut c = config;
        c.tcp_capacity(count * 64);
        c
    }

    /// The scenario's report entries: its banker count.
    pub fn props(&self, banker_count: u64) -> (r: Vec<(Vec<u8>, Vec<u8>)>)
        ensures
            r@.len() == 1,
            r@[0].0@ == "banker_count".spec_bytes(),
            r@[0].1@ == dec_digits(banker_count as nat),
    {
        let mut r: Vec<(Vec<u8>, Vec<u8>)> = Vec::new();
        r.push(("banker_count".as_bytes_vec(), u64_text(banker_count)));
        r
    }
}

} // verus!
