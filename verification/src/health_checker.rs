//! The health-checking client: a seed-derived plan of sleeps and health
//! probes, and the check it holds the server's reply against.

use vstd::prelude::*;
use vstd::string::StrSliceExecFns;

use crate::plan::InteractionPlan;
use crate::rng::Rng;
use crate::server::healthy_text;

verus! {

/// One action of the health checker.
#[derive(Clone, Copy, Debug, PartialEq, Eq, Structural)]
pub enum HealthInteraction {
    /// Advance virtual time by this many milliseconds.
    Sleep(u64),
    /// Probe the server and demand the healthy reply.
    HealthCheck,
}

/// The mathematical state of a health-check plan.
pub struct HealthPlanModel {
    pub cursor: int,
    pub plan: Seq<HealthInteraction>,
}

/// The health checker's plan.
pub struct HealthCheckInteractionPlan {
    pub step: u64,
    pub plan: Vec<HealthInteraction>,
}

impl View for HealthCheckInteractionPlan {
    type V = HealthPlanModel;

    open spec fn view(&self) -> HealthPlanModel {
        HealthPlanModel { cursor: self.step as int, plan: self.plan@ }
    }
}

/// Generating one action: an even draw between a bounded sleep and a probe.
pub open spec fn health_gen_one_spec(m: HealthPlanModel, s: u64) -> (HealthPlanModel, u64) {
    let kind = Rng::range_value(s, 0, 2);
    let s1 = Rng::state_after_draw(s);
    if kind == 0 {
        let millis = Rng::range_value(s1, 0, 100_000);
        (
            HealthPlanModel { plan: m.plan.push(HealthInteraction::Sleep(millis)), ..m },
            Rng::state_after_draw(s1),
        )
    } else {
        (HealthPlanModel { plan: m.plan.push(HealthInteraction::HealthCheck), ..m }, s1)
    }
}

/// Generating `count` actions in sequence.
pub open spec fn health_gen_spec(m: HealthPlanModel, s: u64, count: u64) -> (HealthPlanModel, u64)
    decreases count,
{
    if count == 0 {
        (m, s)
    } else {
        let (m1, s1) = health_gen_one_spec(m, s);
        health_gen_spec(m1, s1, (count - 1) as u64)
    }
}

impl HealthCheckInteractionPlan {
    pub fn new() -> (r: Self)
        ensures
            r@.cursor == 0,
            r@.plan.len() == 0,
    {
        HealthCheckInteractionPlan { step: 0, plan: Vec::new() }
    }

    /// The next planned action, advancing the cursor past it.
    pub fn step(&mut self) -> (r: Option<&HealthInteraction>)
        ensures
            old(self)@.cursor < old(self)@.plan.len() ==> {
                &&& r == Some(&old(self).plan[old(self)@.cursor as int])
                &&& final(self)@ == (HealthPlanModel { cursor: old(self)@.cursor + 1, ..old(self)@ })
            },
            old(self)@.cursor >= old(self)@.plan.len() ==> r is None && *final(self) == *old(self),
    {
        if self.step < self.plan.len() as u64 {
            let i = self.step as usize;
            self.step = self.step + 1;
            Some(&self.plan[i])
        } else {
            None
        }
    }

    /// Append one given action.
    pub fn add_interaction(&mut self, interaction: HealthInteraction)
        ensures
            final(self)@ == (HealthPlanModel {
                plan: old(self)@.plan.push(interaction),
                ..old(self)@
            }),
    {
        self.plan.push(interaction);
    }

    /// Append one given action, fluently.
    pub fn with_interaction(self, interaction: HealthInteraction) -> (r: Self)
        ensures
            r@ == (HealthPlanModel { plan: self@.plan.push(interaction), ..self@ }),
    {
        let mut p = self;
        p.add_interaction(interaction);
        p
    }

    /// Append exactly `count` pseudo-random actions.
    pub fn gen_interactions(&mut self, rng: &mut Rng, count: u64)
        ensures
            (final(self)@, final(rng).state_spec()) == health_gen_spec(
                old(self)@,
                old(rng).state_spec(),
                count,
            ),
    {
        let mut k: u64 = 0;
        while k < count
            invariant
                0 <= k <= count,
                health_gen_spec(old(self)@, old(rng).state_spec(), count) == health_gen_spec(
                    self@,
                    rng.state_spec(),
                    (count - k) as u64,
                ),
            decreases count - k,
        {
            let ghost pre = self@;
            let ghost pre_s = rng.state_spec();
            let kind = rng.gen_range(0, 2);
            if kind == 0 {
                let millis = rng.gen_range(0, 100_000);
                self.add_interaction(HealthInteraction::Sleep(millis));
            } else {
                self.add_interaction(HealthInteraction::HealthCheck);
            }
            k = k + 1;
            proof {
                assert((self@, rng.state_spec()) == health_gen_one_spec(pre, pre_s));
            }
        }
    }

    /// Generate `count` actions, fluently.
    pub fn with_gen_interactions(self, rng: &mut Rng, count: u64) -> (r: Self)
        ensures
            (r@, final(rng).state_spec()) == health_gen_spec(self@, old(rng).state_spec(), count),
    {
        let mut p = self;
        p.gen_interactions(rng, count);
        p
    }
}

impl InteractionPlan<HealthInteraction> for HealthCheckInteractionPlan {
    open spec fn can_generate(&self, count: u64) -> bool {
        true
    }

    fn new() -> Self {
        HealthCheckInteractionPlan::new()
    }

    fn with_gen_interactions(self, rng: &mut Rng, count: u64) -> Self {
        HealthCheckInteractionPlan::with_gen_interactions(self, rng, count)
    }

    fn step(&mut self) -> Option<&HealthInteraction> {
        HealthCheckInteractionPlan::step(self)
    }

    fn gen_interactions(&mut self, rng: &mut Rng, count: u64) {
        HealthCheckInteractionPlan::gen_interactions(self, rng, count)
    }

    fn with_interaction(self, interaction: HealthInteraction) -> Self {
        HealthCheckInteractionPlan::with_interaction(self, interaction)
    }

    fn add_interaction(&mut self, interaction: HealthInteraction) {
        HealthCheckInteractionPlan::add_interaction(self, interaction)
    }
}

/// Hold a health reply: exactly the healthy text.
pub fn check_health_response(msg: &Vec<u8>) -> (r: bool)
    ensures
        r == (msg@ == healthy_text()),
{
    crate::text::bytes_eq(msg, &"healthy".as_bytes_vec())
}

/// How long a health probe may take before it fails the run, in
/// milliseconds: ten virtual seconds, scaled by the step multiplier.
pub fn health_check_timeout_millis(step_multiplier: u64) -> (r: u64)
    requires
        step_multiplier <= 1_000_000,
    ensures
        r == 10 * 1000 * step_multiplier,
{
    proof {
        assert(10 * 1000 * step_multiplier <= 10_000_000_000) by (nonlinear_arith)
            requires
                step_multiplier <= 1_000_000,
        ;
    }
    10 * 1000 * step_multiplier
}

} // verus!
