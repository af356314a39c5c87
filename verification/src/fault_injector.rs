//! The fault-injecting client: a seed-derived plan of sleeps and host
//! bounces.
//!
//! Most of the time the injector sleeps; now and then it queues a bounce of
//! the server host, which the scenario drains between steps. All of it is
//! drawn from the run's generator, so the injected faults replay with the
//! seed.

use vstd::prelude::*;

use crate::plan::InteractionPlan;
use crate::rng::Rng;

verus! {

/// One action of the fault injector.
#[derive(Clone, Copy, Debug, PartialEq, Eq, Structural)]
pub enum FaultInteraction {
    /// Advance virtual time by this many milliseconds.
    Sleep(u64),
    /// Stop and restart the server host.
    Bounce,
}

/// The mathematical state of a fault-injection plan.
pub struct FaultPlanModel {
    pub cursor: int,
    pub plan: Seq<FaultInteraction>,
    pub step_multiplier: u64,
}

/// The fault injector's plan. Its sleeps are scaled by the run's step
/// multiplier, fixed when the plan is made.
pub struct FaultInjectionInteractionPlan {
    pub step: u64,
    pub plan: Vec<FaultInteraction>,
    pub step_multiplier: u64,
}

impl View for FaultInjectionInteractionPlan {
    type V = FaultPlanModel;

    open spec fn view(&self) -> FaultPlanModel {
        FaultPlanModel {
            cursor: self.step as int,
            plan: self.plan@,
            step_multiplier: self.step_multiplier,
        }
    }
}

/// Generating one action: half the draws sleep outright; of the bounce
/// draws, nine in ten turn into sleeps as well, so bounces stay rare. Sleeps
/// are scaled by the run's step multiplier.
pub open spec fn fault_gen_one_spec(m: FaultPlanModel, s: u64, step_multiplier: u64) -> (
    FaultPlanModel,
    u64,
) {
    let kind = Rng::range_value(s, 0, 2);
    let s1 = Rng::state_after_draw(s);
    if kind == 0 {
        let millis = Rng::range_value(s1, 0, 100_000) * step_multiplier;
        (
            FaultPlanModel { plan: m.plan.push(FaultInteraction::Sleep(millis as u64)), ..m },
            Rng::state_after_draw(s1),
        )
    } else {
        let hold = Rng::bool_value(s1, 90);
        let s2 = Rng::state_after_draw(s1);
        if hold {
            let millis = Rng::range_value(s2, 0, 100_000) * step_multiplier;
            (
                FaultPlanModel { plan: m.plan.push(FaultInteraction::Sleep(millis as u64)), ..m },
                Rng::state_after_draw(s2),
            )
        } else {
            (FaultPlanModel { plan: m.plan.push(FaultInteraction::Bounce), ..m }, s2)
        }
    }
}

/// Generating `count` actions in sequence.
pub open spec fn fault_gen_spec(m: FaultPlanModel, s: u64, count: u64, step_multiplier: u64) -> (
    FaultPlanModel,
    u64,
)
    decreases count,
{
    if count == 0 {
        (m, s)
    } else {
        let (m1, s1) = fault_gen_one_spec(m, s, step_multiplier);
        fault_gen_spec(m1, s1, (count - 1) as u64, step_multiplier)
    }
}

/// A bounded sleep scaled by a bounded multiplier stays well inside the
/// 64-bit range.
proof fn lemma_sleep_scale(v: u64, m: u64)
    requires
        v < 100_000,
        m <= 1_000_000,
    ensures
        0 <= v * m <= 100_000_000_000,
{
    assert(v * m <= 100_000 * 1_000_000) by (nonlinear_arith)
        requires
            0 <= v <= 100_000,
            0 <= m <= 1_000_000,
    ;
}

impl FaultInjectionInteractionPlan {
    pub fn new() -> (r: Self)
        ensures
            r@.cursor == 0,
            r@.plan.len() == 0,
            r@.step_multiplier == 1,
    {
        FaultInjectionInteractionPlan { step: 0, plan: Vec::new(), step_multiplier: 1 }
    }

    /// Fix the step multiplier the plan's sleeps are scaled by.
    pub fn with_step_multiplier(self, step_multiplier: u64) -> (r: Self)
        requires
            step_multiplier <= 1_000_000,
        ensures
            r@ == (FaultPlanModel { step_multiplier, ..self@ }),
    {
        FaultInjectionInteractionPlan { step_multiplier, ..self }
    }

    /// The next planned action, advancing the cursor past it.
    pub fn step(&mut self) -> (r: Option<&FaultInteraction>)
        ensures
            old(self)@.cursor < old(self)@.plan.len() ==> {
                &&& r == Some(&old(self).plan[old(self)@.cursor as int])
                &&& final(self)@ == (FaultPlanModel { cursor: old(self)@.cursor + 1, ..old(self)@ })
            },
            old(self)@.cursor >= old(self)@.plan.len() ==> r is None && *final(self) == *old(self),
    {
        if self.step < self.plan.len() as u64 {
            let i = self.step as usize;
            self.step = self.step + 1;
            Some(&self.plan[i])
        } else {
            None
        }
    }

    /// Append one given action.
    pub fn add_interaction(&mut self, interaction: FaultInteraction)
        ensures
            final(self)@ == (FaultPlanModel {
                plan: old(self)@.plan.push(interaction),
                ..old(self)@
            }),
    {
        self.plan.push(interaction);
    }

    /// Append one given action, fluently.
    pub fn with_interaction(self, interaction: FaultInteraction) -> (r: Self)
        ensures
            r@ == (FaultPlanModel { plan: self@.plan.push(interaction), ..self@ }),
    {
        let mut p = self;
        p.add_interaction(interaction);
        p
    }

    /// Append exactly `count` pseudo-random actions, sleeps scaled by the
    /// plan's step multiplier.
    pub fn gen_interactions(&mut self, rng: &mut Rng, count: u64)
        requires
            old(self)@.step_multiplier <= 1_000_000,
        ensures
            (final(self)@, final(rng).state_spec()) == fault_gen_spec(
                old(self)@,
                old(rng).state_spec(),
                count,
                old(self)@.step_multiplier,
            ),
    {
        let step_multiplier = self.step_multiplier;
        let mut k: u64 = 0;
        while k < count
            invariant
                0 <= k <= count,
                step_multiplier == self@.step_multiplier <= 1_000_000,
                fault_gen_spec(old(self)@, old(rng).state_spec(), count, step_multiplier)
                    == fault_gen_spec(self@, rng.state_spec(), (count - k) as u64, step_multiplier),
            decreases count - k,
        {
            let ghost pre = self@;
            let ghost pre_s = rng.state_spec();
            let kind = rng.gen_range(0, 2);
            if kind == 0 {
                let raw = rng.gen_range(0, 100_000);
                proof {
                    lemma_sleep_scale(raw, step_multiplier);
                }
                let millis = raw * step_multiplier;
                self.add_interaction(FaultInteraction::Sleep(millis));
            } else {
                let hold = rng.gen_bool_percent(90);
                if hold {
                    let raw = rng.gen_range(0, 100_000);
                    proof {
                        lemma_sleep_scale(raw, step_multiplier);
                    }
                    let millis = raw * step_multiplier;
                    self.add_interaction(FaultInteraction::Sleep(millis));
                } else {
                    self.add_interaction(FaultInteraction::Bounce);
                }
            }
            k = k + 1;
            proof {
                assert((self@, rng.state_spec()) == fault_gen_one_spec(
                    pre,
                    pre_s,
                    step_multiplier,
                ));
            }
        }
    }

    /// Generate `count` actions, fluently.
    pub fn with_gen_interactions(self, rng: &mut Rng, count: u64) -> (r: Self)
        requires
            self@.step_multiplier <= 1_000_000,
        ensures
            (r@, final(rng).state_spec()) == fault_gen_spec(
                self@,
                old(rng).state_spec(),
                count,
                self@.step_multiplier,
            ),
    {
        let mut p = self;
        p.gen_interactions(rng, count);
        p
    }
}

impl InteractionPlan<FaultInteraction> for FaultInjectionInteractionPlan {
    open spec fn can_generate(&self, count: u64) -> bool {
        self@.step_multiplier <= 1_000_000
    }

    fn new() -> Self {
        FaultInjectionInteractionPlan::new()
    }

    fn with_gen_interactions(self, rng: &mut Rng, count: u64) -> Self {
        FaultInjectionInteractionPlan::with_gen_interactions(self, rng, count)
    }

    fn step(&mut self) -> Option<&FaultInteraction> {
        FaultInjectionInteractionPlan::step(self)
    }

    fn gen_interactions(&mut self, rng: &mut Rng, count: u64) {
        FaultInjectionInteractionPlan::gen_interactions(self, rng, count)
    }

    fn with_interaction(self, interaction: FaultInteraction) -> Self {
        FaultInjectionInteractionPlan::with_interaction(self, interaction)
    }

    fn add_interaction(&mut self, interaction: FaultInteraction) {
        FaultInjectionInteractionPlan::add_interaction(self, interaction)
    }
}

/// Restartability holds of the fault plan too: regeneration from the same
/// state yields the same injected faults.
pub proof fn lemma_fault_plan_restartability(
    m1: FaultPlanModel,
    s1: u64,
    m2: FaultPlanModel,
    s2: u64,
    count: u64,
    step_multiplier: u64,
)
    requires
        m1 == m2,
        s1 == s2,
    ensures
        fault_gen_spec(m1, s1, count, step_multiplier) == fault_gen_spec(
            m2,
            s2,
            count,
            step_multiplier,
        ),
{
}

} // verus!
