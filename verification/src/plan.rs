//! Interaction plans: seed-derived, restartable programs of protocol
//! actions.
//!
//! A plan is an ordered, finite sequence of typed actions and a cursor.
//! Generation appends pseudo-random actions drawn from the run's generator,
//! so rebuilding a plan from the same generator state reproduces the same
//! sequence; the consumed prefix stays inspectable, which lets a scenario
//! compute reference expectations from it.

use vstd::prelude::*;

use crate::rng::Rng;

verus! {

/// The operations every plan offers. The concrete plans state exact
/// contracts on their own inherent methods; this trait is the common
/// surface a scenario drives a plan through.
pub trait InteractionPlan<T>: Sized {
    /// Whether this plan can still take `count` more actions (identifier
    /// space, for plans that track created entities).
    spec fn can_generate(&self, count: u64) -> bool;

    /// The empty plan: no actions, cursor at the start, fresh context.
    fn new() -> Self;

    /// The empty plan, with `count` actions generated at once.
    fn with_gen_interactions(self, rng: &mut Rng, count: u64) -> Self
        requires
            self.can_generate(count),
    ;

    /// The next action, advancing the cursor; nothing at the end.
    fn step(&mut self) -> Option<&T>;

    /// Append exactly `count` pseudo-random actions.
    fn gen_interactions(&mut self, rng: &mut Rng, count: u64)
        requires
            old(self).can_generate(count),
    ;

    /// Append one given action.
    fn with_interaction(self, interaction: T) -> Self
        requires
            self.can_generate(1),
    ;

    /// Append one given action, updating the plan's context.
    fn add_interaction(&mut self, interaction: T)
        requires
            old(self).can_generate(1),
    ;
}

} // verus!
