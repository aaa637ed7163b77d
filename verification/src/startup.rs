//! Taking the steps of an assembly one by one.

use crate::action::Action;
use vstd::prelude::*;

verus! {

/// A startup under way, seen from outside: its steps, how many of them have been
/// taken, and why the next one failed, if it did.
#[verifier::ext_equal]
pub struct StartupView<E> {
    /// The steps, in order.
    pub steps: Seq<Action>,
    /// How many have been taken.
    pub taken: nat,
    /// The failure that ended the startup, if one did.
    pub failure: Option<E>,
}

impl<E> StartupView<E> {
    /// A startup of which no step has been taken.
    pub open spec fn fresh(steps: Seq<Action>) -> Self {
        StartupView { steps, taken: 0, failure: None }
    }

    /// Whether a startup can be in this state: it has no more steps behind it than
    /// it has, and it failed, if it did, at a step that can.
    pub open spec fn reachable(self) -> bool {
        &&& self.taken <= self.steps.len()
        &&& self.failure is Some ==> self.taken < self.steps.len()
            && self.steps[self.taken as int].spec_can_fail()
    }

    /// The step to take next: none once a step failed or all have been taken.
    pub open spec fn next_action(self) -> Option<Action> {
        if self.failure is None && self.taken < self.steps.len() {
            Some(self.steps[self.taken as int])
        } else {
            None
        }
    }

    /// Whether `outcome` can be that of the next step: there is one, and it fails
    /// only if it can.
    pub open spec fn admits(self, outcome: Result<(), E>) -> bool {
        &&& self.next_action() is Some
        &&& outcome is Err ==> self.next_action()->0.spec_can_fail()
    }

    /// The startup after the next step had `outcome`.
    pub open spec fn after(self, outcome: Result<(), E>) -> Self {
        match outcome {
            Ok(_) => StartupView { taken: self.taken + 1, ..self },
            Err(error) => StartupView { failure: Some(error), ..self },
        }
    }

    /// The startup after each of `outcomes` in turn.
    pub open spec fn after_all(self, outcomes: Seq<Result<(), E>>) -> Self
        decreases outcomes.len(),
    {
        if outcomes.len() == 0 {
            self
        } else {
            self.after_all(outcomes.drop_last()).after(outcomes.last())
        }
    }

    /// Whether each of `outcomes` in turn can be that of the step it falls on.
    pub open spec fn admits_all(self, outcomes: Seq<Result<(), E>>) -> bool
        decreases outcomes.len(),
    {
        outcomes.len() == 0 || (self.admits_all(outcomes.drop_last()) && self.after_all(
            outcomes.drop_last(),
        ).admits(outcomes.last()))
    }

    /// The steps that have been taken.
    pub open spec fn taken_steps(self) -> Seq<Action> {
        self.steps.take(self.taken as int)
    }

    /// Whether every step has been taken.
    pub open spec fn started(self) -> bool {
        self.failure is None && self.taken == self.steps.len()
    }
}

/// A startup under way.
#[derive(Debug)]
pub struct Startup<E> {
    steps: Vec<Action>,
    taken: usize,
    failure: Option<E>,
}

impl<E> View for Startup<E> {
    type V = StartupView<E>;

    closed spec fn view(&self) -> StartupView<E> {
        StartupView { steps: self.steps@, taken: self.taken as nat, failure: self.failure }
    }
}

impl<E> Startup<E> {
    #[verifier::type_invariant]
    spec fn well_formed(self) -> bool {
        self@.reachable()
    }

    /// Begins a startup.
    pub fn new(steps: Vec<Action>) -> (r: Self)
        ensures
            r@ == StartupView::<E>::fresh(steps@),
    {
        Startup { steps, taken: 0, failure: None }
    }

    /// The step to take next, if any. Where there is none, the startup has ended:
    /// a step failed, or all have been taken.
    pub fn next_action(&self) -> (r: Option<&Action>)
        ensures
            r is Some <==> self@.next_action() is Some,
            r is Some ==> *r->0 == self@.next_action()->0,
            r is None <==> self@.failure is Some || self@.started(),
    {
        proof {
            use_type_invariant(self);
        }
        if self.failure.is_none() && self.taken < self.steps.len() {
            Some(&self.steps[self.taken])
        } else {
            None
        }
    }

    /// Goes on after the next step had `outcome`.
    pub fn advance(&mut self, outcome: Result<(), E>)
        requires
            old(self)@.admits(outcome),
        ensures
            final(self)@ == old(self)@.after(outcome),
    {
        match outcome {
            Ok(()) => {
                assert(self.taken < self.steps.len());
                self.taken = self.taken + 1;
            },
            Err(error) => {
                self.failure = Some(error);
            },
        }
    }

    /// How the startup ended: well, with the failure of a step, or not yet. It has
    /// not ended exactly while there is a step to take next.
    pub fn finish(self) -> (r: Option<Result<(), E>>)
        ensures
            r == (match self@.failure {
                Some(error) => Some(Err::<(), E>(error)),
                None => if self@.started() {
                    Some(Ok::<(), E>(()))
                } else {
                    None
                },
            }),
            r is None <==> self@.next_action() is Some,
    {
        proof {
            use_type_invariant(&self);
        }
        let done = self.taken == self.steps.len();
        match self.failure {
            Some(error) => Some(Err(error)),
            None => if done {
                Some(Ok(()))
            } else {
                None
            },
        }
    }
}

/// Where a startup is after a run of outcomes: every step that succeeded was taken
/// in order; a failure can only be the last outcome, and is the one that ended the
/// startup.
pub proof fn law_startup_follows_its_outcomes<E>(
    steps: Seq<Action>,
    outcomes: Seq<Result<(), E>>,
)
    requires
        StartupView::<E>::fresh(steps).admits_all(outcomes),
    ensures
        ({
            let end = StartupView::<E>::fresh(steps).after_all(outcomes);
            &&& end.reachable()
            &&& end.steps == steps
            &&& forall|i: int| 0 <= i < outcomes.len() - 1 ==> #[trigger] outcomes[i] is Ok
            &&& (end.failure is None <==> (outcomes.len() == 0 || outcomes.last() is Ok))
            &&& end.failure is None ==> end.taken == outcomes.len()
            &&& end.failure is Some ==> {
                &&& end.taken == outcomes.len() - 1
                &&& outcomes.last() == Err::<(), E>(end.failure->0)
            }
        }),
    decreases outcomes.len(),
{
    if outcomes.len() > 0 {
        let start = StartupView::<E>::fresh(steps);
        let before = outcomes.drop_last();
        law_startup_follows_its_outcomes(steps, before);
        assert(start.after_all(before).admits(outcomes.last()));
        assert forall|i: int| 0 <= i < outcomes.len() - 1 implies #[trigger] outcomes[i] is Ok by {
            assert(before[i] == outcomes[i]);
            if i == outcomes.len() - 2 {
                assert(before.last() == outcomes[i]);
            }
        }
    }
}

/// A step that fails ends the startup: no outcome can follow, so that no further
/// step is taken.
pub proof fn law_failure_is_final<E>(
    steps: Seq<Action>,
    outcomes: Seq<Result<(), E>>,
    next: Result<(), E>,
)
    requires
        StartupView::<E>::fresh(steps).admits_all(outcomes),
        outcomes.len() > 0,
        outcomes.last() is Err,
    ensures
        StartupView::<E>::fresh(steps).after_all(outcomes).next_action() is None,
        !StartupView::<E>::fresh(steps).admits_all(outcomes.push(next)),
{
    law_startup_follows_its_outcomes(steps, outcomes);
    assert(outcomes.push(next).drop_last() =~= outcomes);
}

/// A startup is through exactly when each of its steps succeeded.
pub proof fn law_started_means_every_step_succeeded<E>(
    steps: Seq<Action>,
    outcomes: Seq<Result<(), E>>,
)
    requires
        StartupView::<E>::fresh(steps).admits_all(outcomes),
    ensures
        StartupView::<E>::fresh(steps).after_all(outcomes).started() <==> (outcomes.len()
            == steps.len() && forall|i: int| 0 <= i < outcomes.len() ==> #[trigger] outcomes[i] is Ok),
{
    law_startup_follows_its_outcomes(steps, outcomes);
    if outcomes.len() > 0 {
        assert(outcomes.last() == outcomes[outcomes.len() - 1]);
    }
}

/// If no step fails, a startup goes through all of them.
pub proof fn law_success_is_never_refused<E>(steps: Seq<Action>, outcomes: Seq<Result<(), E>>)
    requires
        outcomes.len() <= steps.len(),
        forall|i: int| 0 <= i < outcomes.len() ==> #[trigger] outcomes[i] is Ok,
    ensures
        StartupView::<E>::fresh(steps).admits_all(outcomes),
    decreases outcomes.len(),
{
    if outcomes.len() > 0 {
        let before = outcomes.drop_last();
        assert forall|i: int| 0 <= i < before.len() implies #[trigger] before[i] is Ok by {
            assert(before[i] == outcomes[i]);
        }
        law_success_is_never_refused(steps, before);
        law_startup_follows_its_outcomes(steps, before);
        assert(outcomes.last() == outcomes[outcomes.len() - 1]);
        if before.len() > 0 {
            assert(before.last() == outcomes[before.len() - 1]);
        }
    }
}

} // verus!
