//! Batch sequencing: statements run strictly in order on one connection and
//! the batch stops at the first failing statement. No implicit transaction
//! is wrapped around the batch, so the effects of statements that ran before
//! the failure stand; callers that need atomicity must include explicit
//! transaction-control statements.
use vstd::prelude::*;

verus! {

/// The sequencing decision state of one batch call: how many statements the
/// batch holds, how many have completed successfully, and whether one has
/// failed.
#[derive(Debug, Clone, Copy, PartialEq, Eq, Structural)]
pub struct BatchPlan {
    pub total: usize,
    pub executed: usize,
    pub failed: bool,
}

impl BatchPlan {
    /// Well-formedness: no more statements completed than the batch holds.
    pub open spec fn wf(self) -> bool {
        self.executed <= self.total
    }

    /// A fresh plan for a batch of `total` statements.
    pub fn new(total: usize) -> (p: BatchPlan)
        ensures
            p.wf(),
            p.total == total,
            p.executed == 0,
            !p.failed,
    {
        BatchPlan { total, executed: 0, failed: false }
    }

    /// Which statement to run next: the first one not yet run, in order —
    /// or nothing, when the batch is done or a statement has failed.
    pub fn next_statement(&self) -> (r: Option<usize>)
        requires
            self.wf(),
        ensures
            r == (if !self.failed && self.executed < self.total {
                Some(self.executed)
            } else {
                None::<usize>
            }),
    {
        if !self.failed && self.executed < self.total {
            Some(self.executed)
        } else {
            None
        }
    }

    /// The directed statement completed successfully: its result is kept and
    /// the batch moves to the next statement.
    pub fn record_success(&mut self)
        requires
            old(self).wf(),
            !old(self).failed,
            old(self).executed < old(self).total,
        ensures
            final(self).wf(),
            final(self).total == old(self).total,
            final(self).executed == old(self).executed + 1,
            !final(self).failed,
    {
        self.executed = self.executed + 1;
    }

    /// The directed statement failed: the batch stops here and returns the
    /// error; nothing later runs, and nothing earlier is rolled back.
    pub fn record_failure(&mut self)
        requires
            old(self).wf(),
        ensures
            final(self).wf(),
            final(self).total == old(self).total,
            final(self).executed == old(self).executed,
            final(self).failed,
    {
        self.failed = true;
    }
}

/// How many statements of a batch actually run when statement `i`, once
/// directed, reports `outcomes[i]`: statements run in order and the batch
/// stops right after the first failure.
pub open spec fn spec_statements_run(outcomes: Seq<bool>) -> int
    decreases outcomes.len(),
{
    if outcomes.len() == 0 {
        0
    } else if !outcomes[0] {
        1
    } else {
        1 + spec_statements_run(outcomes.drop_first())
    }
}

/// Law (batch short-circuit): however the statements turn out, the batch
/// runs an in-order prefix of them; every statement before the stopping
/// point succeeded (so its effects are visible), the batch stops early only
/// because the last statement it ran failed, and a batch with no failing
/// statement runs in full.
pub proof fn lemma_batch_short_circuit(outcomes: Seq<bool>)
    ensures
        0 <= spec_statements_run(outcomes) <= outcomes.len(),
        outcomes.len() > 0 ==> spec_statements_run(outcomes) >= 1,
        forall|i: int| 0 <= i < spec_statements_run(outcomes) - 1 ==> outcomes[i],
        spec_statements_run(outcomes) < outcomes.len() ==> !outcomes[spec_statements_run(outcomes)
            - 1],
        (forall|i: int| 0 <= i < outcomes.len() ==> outcomes[i]) ==> spec_statements_run(outcomes)
            == outcomes.len(),
    decreases outcomes.len(),
{
    if outcomes.len() == 0 {
    } else if !outcomes[0] {
    } else {
        lemma_batch_short_circuit(outcomes.drop_first());
        let rest = outcomes.drop_first();
        assert forall|i: int| 0 <= i < spec_statements_run(outcomes) - 1 implies outcomes[i] by {
            if i > 0 {
                assert(rest[i - 1] == outcomes[i]);
            }
        }
        if spec_statements_run(outcomes) < outcomes.len() {
            let j = spec_statements_run(rest);
            assert(spec_statements_run(outcomes) == 1 + j);
            assert(j < rest.len());
            assert(1 <= j);
            assert(!rest[j - 1]);
            assert(rest[j - 1] == outcomes[j]);
        }
    }
}

} // verus!
