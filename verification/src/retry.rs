//! The retry controller: a bounded number of attempts, a fixed pause
//! between them, stop on the first success.

use vstd::prelude::*;
use crate::sequencer::{AttemptOutcome, OutcomeView};

verus! {

/// How a whole acquisition run ended.
pub enum FinalOutcome {
    /// Some attempt succeeded; the reservation is booked.
    Booked,
    /// Every attempt was used up; the last outcome, if any attempt ran at
    /// all, says why.
    Exhausted { last: Option<AttemptOutcome> },
}

/// The mathematical content of a run's final outcome.
pub ghost enum FinalOutcomeView {
    Booked,
    Exhausted { last: Option<OutcomeView> },
}

impl View for FinalOutcome {
    type V = FinalOutcomeView;

    open spec fn view(&self) -> FinalOutcomeView {
        match self {
            FinalOutcome::Booked => FinalOutcomeView::Booked,
            FinalOutcome::Exhausted { last } => FinalOutcomeView::Exhausted {
                last: match last {
                    Some(o) => Some(o@),
                    None => None,
                },
            },
        }
    }
}

/// The view of an optional attempt outcome.
pub open spec fn opt_outcome_view(o: Option<AttemptOutcome>) -> Option<OutcomeView> {
    match o {
        Some(oc) => Some(oc@),
        None => None,
    }
}

/// Whether a recorded outcome, if any, was a success.
pub open spec fn succeeded(o: Option<AttemptOutcome>) -> bool {
    match o {
        Some(oc) => oc@ is Success,
        None => false,
    }
}

/// The views of a list of attempt outcomes.
pub open spec fn outcome_views(outcomes: Seq<AttemptOutcome>) -> Seq<OutcomeView> {
    outcomes.map_values(|o: AttemptOutcome| o@)
}

/// How many attempts a run makes when at most `max` may run and attempt
/// `k` would end with `outcomes[k - 1]`: attempts follow one another
/// until the first success or until the allowance is used up.
pub open spec fn retry_invocations(outcomes: Seq<OutcomeView>, max: nat) -> nat
    decreases max,
{
    if max == 0 || outcomes.len() == 0 {
        0
    } else if outcomes[0] is Success {
        1
    } else {
        1 + retry_invocations(outcomes.drop_first(), (max - 1) as nat)
    }
}

/// What such a run reports at its end: booked on the first success, else
/// the last outcome once the allowance is used up.
pub open spec fn retry_final(outcomes: Seq<OutcomeView>, max: nat) -> FinalOutcomeView
    decreases max,
{
    if max == 0 || outcomes.len() == 0 {
        FinalOutcomeView::Exhausted { last: None }
    } else if outcomes[0] is Success {
        FinalOutcomeView::Booked
    } else if max == 1 {
        FinalOutcomeView::Exhausted { last: Some(outcomes[0]) }
    } else {
        retry_final(outcomes.drop_first(), (max - 1) as nat)
    }
}

/// A run makes exactly one attempt when the first attempt succeeds.
pub proof fn lemma_retry_first_success(outcomes: Seq<OutcomeView>, max: nat)
    requires
        max >= 1,
        outcomes.len() >= 1,
        outcomes[0] is Success,
    ensures
        retry_invocations(outcomes, max) == 1,
        retry_final(outcomes, max) is Booked,
{
}

/// A run makes exactly `max` attempts when every attempt of the allowance
/// fails, and reports the last failure.
pub proof fn lemma_retry_all_fail(outcomes: Seq<OutcomeView>, max: nat)
    requires
        outcomes.len() >= max,
        forall|i: int| 0 <= i < max ==> !((#[trigger] outcomes[i]) is Success),
    ensures
        retry_invocations(outcomes, max) == max,
        max >= 1 ==> retry_final(outcomes, max) == (FinalOutcomeView::Exhausted {
            last: Some(outcomes[max - 1]),
        }),
    decreases max,
{
    if max >= 1 {
        assert(!(outcomes[0] is Success));
        if max > 1 {
            lemma_retry_all_fail(outcomes.drop_first(), (max - 1) as nat);
        }
    }
}

/// One whole retry run with the attempts' outcomes injected: the
/// controller driven to its end, counting attempts and pauses instead of
/// sleeping. The result carries the final outcome, how many attempts ran,
/// and how many pauses fell between them.
///
/// The run makes exactly `retry_invocations` attempts — one when the
/// first succeeds, the whole allowance when all fail — and pauses exactly
/// once between successive attempts, never after the last.
pub fn run_retries(outcomes: &Vec<AttemptOutcome>, max_attempts: u8) -> (r: (FinalOutcome, u8, u8))
    requires
        outcomes@.len() >= max_attempts,
    ensures
        r.1 as nat == retry_invocations(outcome_views(outcomes@), max_attempts as nat),
        r.1 == 0 ==> r.2 == 0,
        r.1 > 0 ==> r.2 == r.1 - 1,
        r.0@ == retry_final(outcome_views(outcomes@), max_attempts as nat),
{
    let ghost vs = outcome_views(outcomes@);
    proof {
        assert(vs.subrange(0, vs.len() as int) =~= vs);
    }
    let mut rc = RetryController::new(max_attempts);
    let mut invocations: u8 = 0;
    let mut sleeps: u8 = 0;
    loop
        invariant
            outcomes@.len() >= max_attempts,
            vs == outcome_views(outcomes@),
            vs.len() == outcomes@.len(),
            rc.wf(),
            rc.max_attempts == max_attempts,
            invocations == rc.attempts_made,
            rc.attempts_made > 0 ==> opt_outcome_view(rc.last_outcome) == Some(
                vs[rc.attempts_made - 1],
            ),
            succeeded(rc.last_outcome) ==> retry_invocations(vs, max_attempts as nat)
                == rc.attempts_made && retry_final(vs, max_attempts as nat) is Booked,
            !succeeded(rc.last_outcome) ==> retry_invocations(vs, max_attempts as nat)
                == rc.attempts_made + retry_invocations(
                vs.subrange(rc.attempts_made as int, vs.len() as int),
                (max_attempts - rc.attempts_made) as nat,
            ),
            !succeeded(rc.last_outcome) ==> retry_final(vs, max_attempts as nat) == (
            if rc.attempts_made < max_attempts {
                retry_final(
                    vs.subrange(rc.attempts_made as int, vs.len() as int),
                    (max_attempts - rc.attempts_made) as nat,
                )
            } else {
                FinalOutcomeView::Exhausted { last: opt_outcome_view(rc.last_outcome) }
            }),
            sleeps as int == (if invocations == 0 {
                0int
            } else {
                invocations - 1 + (if !succeeded(rc.last_outcome) && rc.attempts_made
                    < rc.max_attempts {
                    1int
                } else {
                    0int
                })
            }),
        decreases max_attempts - rc.attempts_made,
    {
        let action = rc.next_action();
        match action {
            RetryAction::Attempt { number } => {
                let idx = (number - 1) as usize;
                let outcome = outcomes[idx].clone();
                proof {
                    let made = rc.attempts_made as int;
                    assert(vs[made] == outcomes@[made]@);
                    assert(vs.subrange(made, vs.len() as int)[0] == vs[made]);
                    assert(vs.subrange(made, vs.len() as int).drop_first() =~= vs.subrange(
                        made + 1,
                        vs.len() as int,
                    ));
                }
                invocations = invocations + 1;
                rc.record_outcome(outcome);
                if rc.should_sleep() {
                    sleeps = sleeps + 1;
                }
            },
            RetryAction::Finished { result } => {
                return (result, invocations, sleeps);
            },
        }
    }
}

/// The standing of a retry run between attempts.
pub struct RetryController {
    pub max_attempts: u8,
    pub attempts_made: u8,
    pub last_outcome: Option<AttemptOutcome>,
}

/// What the controller tells its driver to do next.
pub enum RetryAction {
    /// Run attempt number `number` (1-indexed).
    Attempt { number: u8 },
    /// Stop: either booked, or the allowance is used up.
    Finished { result: FinalOutcome },
}

impl RetryController {
    /// The controller's invariant: no more attempts counted than allowed,
    /// and an outcome on record exactly when an attempt has run.
    pub open spec fn wf(self) -> bool {
        &&& self.attempts_made <= self.max_attempts
        &&& self.attempts_made == 0 <==> self.last_outcome is None
    }

    /// A fresh run with the given attempt allowance.
    pub fn new(max_attempts: u8) -> (r: RetryController)
        ensures
            r.max_attempts == max_attempts,
            r.attempts_made == 0,
            r.last_outcome is None,
            r.wf(),
    {
        RetryController { max_attempts, attempts_made: 0, last_outcome: None }
    }

    /// What to do next: stop right after a success, stop when the
    /// allowance is used up, otherwise run the next attempt.
    pub fn next_action(&self) -> (a: RetryAction)
        requires
            self.wf(),
        ensures
            succeeded(self.last_outcome) ==> (a matches RetryAction::Finished { result }
                && result is Booked),
            !succeeded(self.last_outcome) && self.attempts_made == self.max_attempts ==> (a matches
                RetryAction::Finished { result } && result matches FinalOutcome::Exhausted { last }
                && opt_outcome_view(last) == opt_outcome_view(self.last_outcome)),
            !succeeded(self.last_outcome) && self.attempts_made < self.max_attempts ==> (a matches
                RetryAction::Attempt { number } && number == self.attempts_made + 1),
    {
        let done = match &self.last_outcome {
            Some(o) => match o {
                AttemptOutcome::Success => true,
                _ => false,
            },
            None => false,
        };
        if done {
            RetryAction::Finished { result: FinalOutcome::Booked }
        } else if self.attempts_made == self.max_attempts {
            let last = match &self.last_outcome {
                Some(o) => Some(o.clone()),
                None => None,
            };
            RetryAction::Finished { result: FinalOutcome::Exhausted { last } }
        } else {
            RetryAction::Attempt { number: self.attempts_made + 1 }
        }
    }

    /// Books one attempt's outcome against the allowance.
    pub fn record_outcome(&mut self, outcome: AttemptOutcome)
        requires
            old(self).wf(),
            old(self).attempts_made < old(self).max_attempts,
            !succeeded(old(self).last_outcome),
        ensures
            final (self).max_attempts == old(self).max_attempts,
            final (self).attempts_made == old(self).attempts_made + 1,
            final (self).last_outcome == Some(outcome),
            final (self).wf(),
    {
        self.attempts_made = self.attempts_made + 1;
        self.last_outcome = Some(outcome);
    }

    /// Whether the driver should pause before the next attempt: only
    /// after a failed attempt with attempts still remaining — never after
    /// a success and never after the last attempt.
    pub fn should_sleep(&self) -> (r: bool)
        ensures
            r == (self.last_outcome is Some && !succeeded(self.last_outcome)
                && self.attempts_made < self.max_attempts),
    {
        match &self.last_outcome {
            Some(o) => match o {
                AttemptOutcome::Success => false,
                _ => self.attempts_made < self.max_attempts,
            },
            None => false,
        }
    }
}

} // verus!
