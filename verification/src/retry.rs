//! Bounded exponential backoff: how long to wait after a failed attempt, and
//! when to give up.
use vstd::prelude::*;

verus! {

/// How one attempt of an operation ended.
#[derive(Clone, Copy, Debug, PartialEq, Eq, Structural)]
pub enum AttemptOutcome {
    /// The operation is done.
    Succeeded,
    /// The operation failed and may succeed if it is tried again.
    Failed,
    /// The operation failed for good.
    Fatal,
}

/// What to do after one attempt.
#[derive(Clone, Copy, Debug, PartialEq, Eq, Structural)]
pub enum RetryStep {
    /// Nothing more: the operation succeeded.
    Done,
    /// Wait for the given number of time units, then try again.
    RetryAfter(u64),
    /// Wait for the given number of time units, then give the operation up.
    AbandonAfter(u64),
    /// Give the operation up at once.
    Abort,
}

/// A backoff policy in the middle of its run: the delay that follows the next
/// failure, the factor by which the delay grows, and the cap.
#[derive(Clone, Copy, Debug, PartialEq, Eq, Structural)]
pub struct Backoff {
    pub delay: u64,
    pub factor: u64,
    pub cap: u64,
}

impl Backoff {
    /// The delay after the one that follows the next failure, held to what a
    /// `u64` can take.
    pub open spec fn grown(self) -> u64 {
        if self.delay * self.factor <= u64::MAX {
            (self.delay * self.factor) as u64
        } else {
            u64::MAX
        }
    }

    /// Whether the next failure is the last: the delay after it would exceed
    /// the cap.
    pub open spec fn exhausted(self) -> bool {
        self.delay * self.factor > self.cap
    }

    /// The step that follows an attempt with the given outcome, and the policy
    /// after it. A failure is waited out in any case; the operation is tried
    /// again unless the grown delay exceeds the cap.
    pub open spec fn step(self, outcome: AttemptOutcome) -> (RetryStep, Backoff) {
        match outcome {
            AttemptOutcome::Succeeded => (RetryStep::Done, self),
            AttemptOutcome::Fatal => (RetryStep::Abort, self),
            AttemptOutcome::Failed => {
                let next = Backoff { delay: self.grown(), factor: self.factor, cap: self.cap };
                if self.exhausted() {
                    (RetryStep::AbandonAfter(self.delay), next)
                } else {
                    (RetryStep::RetryAfter(self.delay), next)
                }
            },
        }
    }

    /// The steps that follow the attempts with the given outcomes, up to the
    /// first step that ends the operation.
    pub open spec fn steps(self, outcomes: Seq<AttemptOutcome>) -> Seq<RetryStep>
        decreases outcomes.len(),
    {
        if outcomes.len() == 0 {
            Seq::empty()
        } else {
            let (step, next) = self.step(outcomes[0]);
            if step is RetryAfter {
                seq![step] + next.steps(outcomes.drop_first())
            } else {
                seq![step]
            }
        }
    }

    /// A policy that starts with the given delay.
    pub fn new(delay: u64, factor: u64, cap: u64) -> (policy: Backoff)
        ensures
            policy == (Backoff { delay, factor, cap }),
    {
        Backoff { delay, factor, cap }
    }

    /// The policy for accepting an invitation: 2 time units at first, doubled
    /// after each failure, given up once the delay would exceed 8.
    pub fn auto_join() -> (policy: Backoff)
        ensures
            policy == auto_join_policy(),
    {
        Backoff { delay: 2, factor: 2, cap: 8 }
    }

    /// Takes note of one attempt and says what to do next.
    pub fn on_outcome(&mut self, outcome: AttemptOutcome) -> (step: RetryStep)
        ensures
            (step, *final(self)) == old(self).step(outcome),
    {
        match outcome {
            AttemptOutcome::Succeeded => RetryStep::Done,
            AttemptOutcome::Fatal => RetryStep::Abort,
            AttemptOutcome::Failed => {
                let wait = self.delay;
                match self.delay.checked_mul(self.factor) {
                    Some(grown) => {
                        self.delay = grown;
                        if grown > self.cap {
                            RetryStep::AbandonAfter(wait)
                        } else {
                            RetryStep::RetryAfter(wait)
                        }
                    },
                    None => {
                        self.delay = u64::MAX;
                        RetryStep::AbandonAfter(wait)
                    },
                }
            },
        }
    }
}

/// The policy for accepting an invitation.
pub open spec fn auto_join_policy() -> Backoff {
    Backoff { delay: 2, factor: 2, cap: 8 }
}

/// The time that a step makes the caller wait.
pub open spec fn wait_of(step: RetryStep) -> nat {
    match step {
        RetryStep::RetryAfter(wait) => wait as nat,
        RetryStep::AbandonAfter(wait) => wait as nat,
        _ => 0,
    }
}

/// The time that the steps make the caller wait, all in all.
pub open spec fn total_wait(steps: Seq<RetryStep>) -> nat
    decreases steps.len(),
{
    if steps.len() == 0 {
        0
    } else {
        total_wait(steps.drop_last()) + wait_of(steps.last())
    }
}

/// The three failures that the policy for accepting an invitation sits out.
proof fn lemma_auto_join_failures()
    ensures
        auto_join_policy().step(AttemptOutcome::Failed) == (
            RetryStep::RetryAfter(2),
            Backoff { delay: 4, factor: 2, cap: 8 },
        ),
        (Backoff { delay: 4, factor: 2, cap: 8 }).step(AttemptOutcome::Failed) == (
            RetryStep::RetryAfter(4),
            Backoff { delay: 8, factor: 2, cap: 8 },
        ),
        (Backoff { delay: 8, factor: 2, cap: 8 }).step(AttemptOutcome::Failed).0
            == RetryStep::AbandonAfter(8),
{
}

/// An invitation whose acceptance keeps failing is tried exactly three times,
/// with waits of 2, 4 and 8 time units, and then given up.
pub proof fn lemma_auto_join_gives_up(outcomes: Seq<AttemptOutcome>)
    requires
        outcomes.len() >= 3,
        outcomes[0] == AttemptOutcome::Failed,
        outcomes[1] == AttemptOutcome::Failed,
        outcomes[2] == AttemptOutcome::Failed,
    ensures
        auto_join_policy().steps(outcomes) == seq![
            RetryStep::RetryAfter(2),
            RetryStep::RetryAfter(4),
            RetryStep::AbandonAfter(8),
        ],
        total_wait(auto_join_policy().steps(outcomes)) == 14,
{
    let second = outcomes.drop_first();
    let third = second.drop_first();
    assert(second[0] == outcomes[1]);
    assert(third[0] == outcomes[2]);
    let start = auto_join_policy();
    let once_failed = Backoff { delay: 4, factor: 2, cap: 8 };
    let twice_failed = Backoff { delay: 8, factor: 2, cap: 8 };
    lemma_auto_join_failures();
    assert(twice_failed.steps(third) == seq![RetryStep::AbandonAfter(8)]);
    assert(once_failed.steps(second) == seq![RetryStep::RetryAfter(4)] + twice_failed.steps(third));
    assert(start.steps(outcomes) == seq![RetryStep::RetryAfter(2)] + once_failed.steps(second));
    let steps = seq![RetryStep::RetryAfter(2), RetryStep::RetryAfter(4), RetryStep::AbandonAfter(8)];
    assert(start.steps(outcomes) =~= steps);
    lemma_total_wait_of_three(RetryStep::RetryAfter(2), RetryStep::RetryAfter(4), RetryStep::AbandonAfter(8));
}

/// The waits of three steps add up.
proof fn lemma_total_wait_of_three(a: RetryStep, b: RetryStep, c: RetryStep)
    ensures
        total_wait(seq![a, b, c]) == wait_of(a) + wait_of(b) + wait_of(c),
{
    let s = seq![a, b, c];
    assert(s.drop_last() =~= seq![a, b]);
    assert(seq![a, b].drop_last() =~= seq![a]);
    assert(seq![a].drop_last() =~= Seq::<RetryStep>::empty());
    reveal_with_fuel(total_wait, 4);
}

/// Whatever the attempts come to, accepting an invitation takes at most three
/// of them and at most 14 time units of waiting.
pub proof fn lemma_auto_join_is_bounded(outcomes: Seq<AttemptOutcome>)
    ensures
        auto_join_policy().steps(outcomes).len() <= 3,
        total_wait(auto_join_policy().steps(outcomes)) <= 14,
{
    let start = auto_join_policy();
    let once_failed = Backoff { delay: 4, factor: 2, cap: 8 };
    let twice_failed = Backoff { delay: 8, factor: 2, cap: 8 };
    let steps = start.steps(outcomes);
    let empty = Seq::<RetryStep>::empty();
    lemma_auto_join_failures();
    assert(total_wait(empty) == 0);
    assert forall|a: RetryStep| total_wait(seq![a]) == wait_of(a) by {
        assert(seq![a].drop_last() =~= empty);
    }
    assert forall|a: RetryStep, b: RetryStep| total_wait(seq![a, b]) == wait_of(a) + wait_of(b) by {
        assert(seq![a, b].drop_last() =~= seq![a]);
        assert(seq![a].drop_last() =~= empty);
    }
    if outcomes.len() > 0 {
        let second = outcomes.drop_first();
        let first_step = start.step(outcomes[0]).0;
        if first_step is RetryAfter {
            assert(outcomes[0] == AttemptOutcome::Failed);
            if second.len() > 0 {
                let third = second.drop_first();
                let second_step = once_failed.step(second[0]).0;
                if second_step is RetryAfter {
                    assert(second[0] == AttemptOutcome::Failed);
                    if third.len() > 0 {
                        let third_step = twice_failed.step(third[0]).0;
                        assert(!(third_step is RetryAfter));
                        assert(twice_failed.steps(third) == seq![third_step]);
                        assert(once_failed.steps(second) =~= seq![second_step, third_step]);
                        assert(steps =~= seq![first_step, second_step, third_step]);
                        lemma_total_wait_of_three(first_step, second_step, third_step);
                    } else {
                        assert(twice_failed.steps(third) =~= empty);
                        assert(once_failed.steps(second) =~= seq![second_step]);
                        assert(steps =~= seq![first_step, second_step]);
                    }
                } else {
                    assert(once_failed.steps(second) =~= seq![second_step]);
                    assert(steps =~= seq![first_step, second_step]);
                }
            } else {
                assert(once_failed.steps(second) =~= empty);
                assert(steps =~= seq![first_step]);
            }
        } else {
            assert(steps =~= seq![first_step]);
        }
    } else {
        assert(steps =~= empty);
    }
}

/// The most steps that a policy can take whose delay is at least 1 and whose
/// factor is at least 2: each retry grows the delay, and no retry follows a
/// delay that grows beyond the cap.
pub open spec fn most_steps(policy: Backoff) -> int {
    if policy.delay <= policy.cap {
        policy.cap - policy.delay + 2
    } else {
        1
    }
}

/// A policy that grows its delay gives up: however the attempts end, it takes
/// no more steps than the cap leaves room for.
pub proof fn lemma_retries_are_bounded(policy: Backoff, outcomes: Seq<AttemptOutcome>)
    requires
        policy.delay >= 1,
        policy.factor >= 2,
    ensures
        policy.steps(outcomes).len() <= most_steps(policy),
    decreases outcomes.len(),
{
    if outcomes.len() > 0 {
        let (step, next) = policy.step(outcomes[0]);
        if step is RetryAfter {
            assert(policy.delay * policy.factor >= policy.delay * 2) by (nonlinear_arith)
                requires
                    policy.delay >= 1,
                    policy.factor >= 2,
            ;
            assert(next.delay == policy.delay * policy.factor);
            lemma_retries_are_bounded(next, outcomes.drop_first());
        }
    }
}

} // verus!
