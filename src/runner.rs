use vstd::prelude::*;

use crate::error::GestureError;
use crate::gesture::{build_script, gesture_script, lemma_script_shape, Action, GesturePlan};

verus! {

/// Where a run stands: the script, how many of its actions have succeeded,
/// and the outcome once the run is over.
pub struct RunState {
    pub script: Seq<Action>,
    pub done: nat,
    pub outcome: Option<Result<(), GestureError>>,
}

/// The state after the platform reports `result` for the pending action:
/// success moves on (and finishes the run after the last action), failure
/// ends the run with that error.
pub open spec fn step(s: RunState, result: Result<(), GestureError>) -> RunState {
    match result {
        Ok(()) => RunState {
            script: s.script,
            done: s.done + 1,
            outcome: if s.done + 1 == s.script.len() {
                Some(Ok(()))
            } else {
                None
            },
        },
        Err(e) => RunState { script: s.script, done: s.done, outcome: Some(Err(e)) },
    }
}

/// The state after reporting each of `results` in turn.
pub open spec fn steps(s: RunState, results: Seq<Result<(), GestureError>>) -> RunState
    decreases results.len(),
{
    if results.len() == 0 {
        s
    } else {
        step(steps(s, results.drop_last()), results.last())
    }
}

/// A fresh run of `script`.
pub open spec fn initial(script: Seq<Action>) -> RunState {
    RunState { script, done: 0, outcome: None }
}

/// The action that a run asks for next, if it is still going.
pub open spec fn pending(s: RunState) -> Option<Action> {
    if s.outcome is None && s.done < s.script.len() {
        Some(s.script[s.done as int])
    } else {
        None
    }
}

/// `n` successful reports in a row.
pub open spec fn successes(n: nat) -> Seq<Result<(), GestureError>> {
    Seq::new(n, |i: int| Ok::<(), GestureError>(()))
}

/// A run that gets success for each of its first `n` actions has performed
/// them in script order and is still going, until the last one, which ends
/// it with success.
pub proof fn lemma_successes(script: Seq<Action>, n: nat)
    requires
        0 < n <= script.len(),
    ensures
        steps(initial(script), successes(n)) == (RunState {
            script,
            done: n,
            outcome: if n == script.len() {
                Some(Ok::<(), GestureError>(()))
            } else {
                None
            },
        }),
    decreases n,
{
    assert(successes(n).drop_last() =~= successes((n - 1) as nat));
    if n > 1 {
        lemma_successes(script, (n - 1) as nat);
    }
}

/// A failure ends the run with that very error, and nothing further is
/// asked for.
pub proof fn lemma_failure_ends_run(s: RunState, e: GestureError)
    ensures
        step(s, Err(e)).outcome == Some(Err::<(), GestureError>(e)),
        pending(step(s, Err(e))) is None,
{
}

/// One colour gesture in progress. The caller asks for the next action,
/// performs it on the platform, and reports how it went; the first failure
/// ends the run, with no further action and no rollback.
pub struct GestureRun {
    script: Vec<Action>,
    /// How many actions succeeded, and the outcome once the run is over.
    status: (usize, Option<Result<(), GestureError>>),
}

impl GestureRun {
    /// The run's script, progress and outcome.
    pub closed spec fn view(&self) -> RunState {
        RunState { script: self.script@, done: self.status.0 as nat, outcome: self.status.1 }
    }

    /// A run is going until every action succeeded or one failed.
    #[verifier::type_invariant]
    spec fn inv(&self) -> bool {
        &&& self.script@.len() > 0
        &&& self.status.0 <= self.script@.len()
        &&& self.status.1 is None ==> self.status.0 < self.script@.len()
        &&& self.status.1 == Some(Ok::<(), GestureError>(())) ==> self.status.0 == self.script@.len()
    }

    /// Starts the gesture of `plan`.
    pub fn new(plan: &GesturePlan) -> (r: GestureRun)
        ensures
            r.view() == initial(gesture_script(*plan)),
    {
        let script = build_script(plan);
        proof {
            lemma_script_shape(*plan);
        }
        GestureRun { script, status: (0, None) }
    }

    /// The action to perform next, or `None` once the run is over.
    pub fn next_action(&self) -> (r: Option<Action>)
        ensures
            r == pending(self.view()),
    {
        if self.status.1.is_none() && self.status.0 < self.script.len() {
            Some(self.script[self.status.0])
        } else {
            None
        }
    }

    /// Records how the pending action went.
    pub fn report(&mut self, result: Result<(), GestureError>)
        requires
            pending(old(self).view()) is Some,
        ensures
            final(self).view() == step(old(self).view(), result),
    {
        proof {
            use_type_invariant(&*self);
        }
        match result {
            Ok(()) => {
                let n = self.script.len();
                let done = self.status.0 + 1;
                if done == n {
                    self.status = (done, Some(Ok(())));
                } else {
                    self.status = (done, None);
                }
            },
            Err(e) => {
                self.status = (self.status.0, Some(Err(e)));
            },
        }
    }

    /// How the run ended, or `None` while it is still going.
    pub fn outcome(&self) -> (r: Option<Result<(), GestureError>>)
        ensures
            r == self.view().outcome,
    {
        self.status.1
    }
}

} // verus!
