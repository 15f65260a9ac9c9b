//! The run loop controller: a fixed iteration budget with a flat
//! inter-iteration delay.
//!
//! The controller owns the loop's decisions — whether another iteration
//! runs, what gets recorded, how long to pause — while the pipeline work and
//! the pause itself happen outside. One iteration's failure never aborts the
//! following iterations: every terminal outcome is recorded the same way and
//! the loop proceeds to its delay and next cycle.

use vstd::prelude::*;
use crate::engine::{ExecStatus, is_terminal};
use crate::types::TxHash;

verus! {

/// Explicit iteration budget and backoff policy: `max_iterations` cycles,
/// each followed by a pause of `delay` time units, flat regardless of
/// outcome.
#[derive(Clone, Copy, PartialEq, Eq, Structural, Debug)]
pub struct RunPolicy {
    pub max_iterations: u64,
    pub delay: u64,
}

/// Structured outcome of one iteration, in the shape handed to the external
/// observability collaborator: which iteration, which terminal state, and
/// the submission hash when one exists.
#[derive(Debug)]
pub struct IterationOutcome {
    pub index: u64,
    pub terminal: ExecStatus,
    pub tx_hash: Option<TxHash>,
}

/// Whether the loop runs another iteration.
pub open spec fn continue_spec(c: RunController) -> bool {
    c.completed < c.policy.max_iterations
}

/// Drives repeated attempt cycles and records one outcome per iteration.
pub struct RunController {
    pub policy: RunPolicy,
    /// Iterations whose pipeline has reached a terminal state.
    pub completed: u64,
    /// One recorded outcome per completed iteration, in order.
    pub log: Vec<IterationOutcome>,
}

impl RunController {
    /// One outcome per completed iteration, indexed in order, every one
    /// terminal.
    pub open spec fn wf(self) -> bool {
        &&& self.completed == self.log@.len()
        &&& self.completed <= self.policy.max_iterations
        &&& forall|i: int|
            0 <= i < self.log@.len() ==> (#[trigger] self.log@[i]).index == i && is_terminal(
                self.log@[i].terminal,
            )
    }

    pub fn new(policy: RunPolicy) -> (r: RunController)
        ensures
            r.wf(),
            r.policy == policy,
            r.completed == 0,
            r.log@.len() == 0,
    {
        RunController { policy, completed: 0, log: Vec::new() }
    }

    /// The loop's guard: another iteration runs exactly while the budget is
    /// not exhausted.
    pub fn should_continue(&self) -> (r: bool)
        ensures
            r == continue_spec(*self),
    {
        self.completed < self.policy.max_iterations
    }

    /// The pause after an iteration: flat, by policy alone — no outcome is
    /// even consulted.
    pub fn delay_units(&self) -> (d: u64)
        ensures
            d == self.policy.delay,
    {
        self.policy.delay
    }

    /// Records one iteration's terminal outcome and schedules the next
    /// cycle. Advances the count by exactly one whatever the outcome was:
    /// this is the per-iteration failure isolation.
    pub fn record_outcome(&mut self, terminal: ExecStatus, tx_hash: Option<TxHash>)
        requires
            old(self).wf(),
            continue_spec(*old(self)),
            is_terminal(terminal),
        ensures
            final(self).wf(),
            final(self).policy == old(self).policy,
            final(self).completed == old(self).completed + 1,
            final(self).log@ == old(self).log@.push(
                IterationOutcome { index: old(self).completed, terminal, tx_hash },
            ),
    {
        let idx = self.completed;
        self.log.push(IterationOutcome { index: idx, terminal, tx_hash });
        self.completed = self.completed + 1;
        proof {
            assert forall|i: int|
                0 <= i < self.log@.len() implies (#[trigger] self.log@[i]).index == i
                && is_terminal(self.log@[i].terminal) by {
                if i < self.log@.len() - 1 {
                    assert(self.log@[i] == old(self).log@[i]);
                }
            }
        }
    }
}

/// Fixed iteration budget: when the loop's guard turns false, exactly
/// `max_iterations` pipeline invocations have been recorded — never fewer,
/// never more.
pub proof fn lemma_fixed_iteration_count(c: RunController)
    requires
        c.wf(),
        !continue_spec(c),
    ensures
        c.completed == c.policy.max_iterations,
        c.log@.len() == c.policy.max_iterations,
{
}

/// Failure isolation: how far a run has progressed, whether it continues,
/// and how long it pauses depend only on how many outcomes were recorded
/// under which policy — never on what any outcome was.
pub proof fn lemma_outcome_independence(c1: RunController, c2: RunController)
    requires
        c1.wf(),
        c2.wf(),
        c1.policy == c2.policy,
        c1.log@.len() == c2.log@.len(),
    ensures
        c1.completed == c2.completed,
        continue_spec(c1) == continue_spec(c2),
        c1.policy.delay == c2.policy.delay,
{
}

} // verus!
