//! The convergence controller: the bounded repeat-until-stable protocol that
//! drives repeated tree walks to a fixed point.

use vstd::prelude::*;

verus! {

/// The cap on the iteration counter, which counts the walks that were
/// followed by another one. A walk that reports a change once the counter
/// has passed the cap ends the run as not converged.
pub const ITERATION_CAP: u8 = 10;

/// The most walks that a single convergence run performs: the counter
/// passes the cap with the twelfth.
pub const MAX_TRAVERSALS: u8 = 12;

/// The signal for a rule set that still reported changes when the iteration
/// budget ran out: two or more rules are in conflict, and the tree is left in
/// its best-effort state.
#[derive(Clone, Copy, Debug, PartialEq, Eq, Structural)]
pub struct ConvergenceExceeded {
    /// Walks performed before giving up.
    pub traversals: u8,
}

/// What the controller decides after a walk.
#[derive(Clone, Copy, Debug, PartialEq, Eq, Structural)]
pub enum LoopStep {
    /// Some rule reported a change and budget remains: reset and walk again.
    Again,
    /// No rule reported a change: the tree is at a fixed point.
    FixedPoint,
    /// Some rule reported a change and the budget is spent.
    Exceeded,
}

/// The decision after a walk, from the iteration counter and whether any
/// rule reported a change, together with the counter's next value.
pub open spec fn spec_step(iteration: nat, any_changed: bool) -> (nat, LoopStep) {
    if !any_changed {
        (iteration, LoopStep::FixedPoint)
    } else if iteration > ITERATION_CAP {
        (iteration, LoopStep::Exceeded)
    } else {
        (iteration + 1, LoopStep::Again)
    }
}

/// The iteration counter of one convergence run.
pub struct ConvergenceController {
    iteration: u8,
}

impl ConvergenceController {
    #[verifier::type_invariant]
    spec fn within_budget(self) -> bool {
        self.iteration <= ITERATION_CAP + 1
    }

    /// Completed walks that were followed by another one.
    pub closed spec fn iteration(self) -> nat {
        self.iteration as nat
    }

    /// The controller at the start of a run, before the first walk.
    pub fn new() -> (controller: Self)
        ensures
            controller.iteration() == 0,
    {
        ConvergenceController { iteration: 0 }
    }

    /// Walks accounted for so far, counting the one in progress.
    pub fn traversals(&self) -> (n: u8)
        ensures
            n == self.iteration() + 1,
            n <= MAX_TRAVERSALS,
    {
        proof {
            use_type_invariant(self);
        }
        self.iteration + 1
    }

    /// Takes the outcome of the walk that just finished and decides how the
    /// run goes on.
    pub fn observe(&mut self, any_changed: bool) -> (step: LoopStep)
        ensures
            (final(self).iteration(), step) == spec_step(old(self).iteration(), any_changed),
            final(self).iteration() <= ITERATION_CAP + 1,
    {
        proof {
            use_type_invariant(&*self);
        }
        if !any_changed {
            LoopStep::FixedPoint
        } else if self.iteration > ITERATION_CAP {
            LoopStep::Exceeded
        } else {
            self.iteration = self.iteration + 1;
            LoopStep::Again
        }
    }
}

/// A convergence run on a model in which one walk is a function from the
/// tree to the rewritten tree and the OR of the rules' change flags, started
/// with the counter at `iteration`. The result is the final tree, whether the
/// run ended at a fixed point, and the number of walks counted in total.
pub open spec fn run_from<T>(walk: spec_fn(T) -> (T, bool), tree: T, iteration: nat) -> (
    T,
    bool,
    nat,
)
    decreases ITERATION_CAP + 2 - iteration,
{
    let (next, any_changed) = walk(tree);
    match spec_step(iteration, any_changed).1 {
        LoopStep::FixedPoint => (next, true, iteration + 1),
        LoopStep::Exceeded => (next, false, iteration + 1),
        LoopStep::Again => run_from(walk, next, iteration + 1),
    }
}

/// A whole convergence run on the model.
pub open spec fn run<T>(walk: spec_fn(T) -> (T, bool), tree: T) -> (T, bool, nat) {
    run_from(walk, tree, 0)
}

/// A walk honours the change-flag contract if, whenever it reports no
/// change, it has left the tree as it was.
pub open spec fn reports_every_change<T>(walk: spec_fn(T) -> (T, bool)) -> bool {
    forall|tree: T| !(#[trigger] walk(tree)).1 ==> walk(tree).0 == tree
}

/// A walk settles if, once it reports no change, walking its result again
/// gives the same result and again no change. A walk that reports every
/// change settles.
pub open spec fn settles<T>(walk: spec_fn(T) -> (T, bool)) -> bool {
    forall|tree: T| !(#[trigger] walk(tree)).1 ==> walk(walk(tree).0) == walk(tree)
}

/// The tree after `walks` walks, whatever they report.
pub open spec fn after_walks<T>(walk: spec_fn(T) -> (T, bool), tree: T, walks: nat) -> T
    decreases walks,
{
    if walks == 0 {
        tree
    } else {
        walk(after_walks(walk, tree, (walks - 1) as nat)).0
    }
}

/// The walk `walk` behaves as the function `model`: whatever a call returns
/// is what the model gives for the call's argument.
pub open spec fn behaves_as<T, F: Fn(T) -> (T, bool)>(walk: F, model: spec_fn(T) -> (T, bool)) -> bool {
    forall|tree: T, outcome: (T, bool)|
        #[trigger] call_ensures(walk, (tree,), outcome) ==> outcome == model(tree)
}

/// Drives `walk` to a fixed point: calls it on the tree, and again on its
/// result for as long as it reports a change and the budget lasts. Returns
/// the final tree with the number of walks, or with `ConvergenceExceeded`
/// if the last walk that the budget allowed still reported a change.
pub fn run_to_fixed_point<T, F: Fn(T) -> (T, bool)>(walk: F, tree: T) -> (result: (
    T,
    Result<u8, ConvergenceExceeded>,
))
    requires
        forall|t: T| call_requires(walk, (t,)),
    ensures
        result.1 matches Ok(traversals) ==> 1 <= traversals <= MAX_TRAVERSALS,
        result.1 matches Err(exceeded) ==> exceeded.traversals == MAX_TRAVERSALS,
        forall|model: spec_fn(T) -> (T, bool)| #[trigger]
            behaves_as(walk, model) ==> {
                &&& result.0 == run(model, tree).0
                &&& result.1.is_ok() == run(model, tree).1
                &&& result.1 matches Ok(traversals) ==> traversals == run(model, tree).2
            },
{
    let mut controller = ConvergenceController::new();
    let mut current = tree;
    loop
        invariant
            controller.iteration() <= ITERATION_CAP + 1,
            forall|t: T| call_requires(walk, (t,)),
            forall|model: spec_fn(T) -> (T, bool)| #[trigger]
                behaves_as(walk, model) ==> run_from(model, current, controller.iteration())
                    == run(model, tree),
        decreases ITERATION_CAP + 1 - controller.iteration(),
    {
        let ghost before = current;
        let ghost iteration = controller.iteration();
        let (next, any_changed) = walk(current);
        current = next;
        let step = controller.observe(any_changed);
        assert forall|model: spec_fn(T) -> (T, bool)| #[trigger]
            behaves_as(walk, model) implies run_from(model, before, iteration) == (match step {
            LoopStep::FixedPoint => (current, true, iteration + 1),
            LoopStep::Exceeded => (current, false, iteration + 1),
            LoopStep::Again => run_from(model, current, iteration + 1),
        }) by {
            assert(call_ensures(walk, (before,), (current, any_changed)));
            assert(model(before) == (current, any_changed));
        }
        match step {
            LoopStep::FixedPoint => {
                return (current, Ok(controller.traversals()));
            },
            LoopStep::Exceeded => {
                return (current, Err(ConvergenceExceeded { traversals: controller.traversals() }));
            },
            LoopStep::Again => {},
        }
    }
}

proof fn lemma_run_from<T>(walk: spec_fn(T) -> (T, bool), tree: T, iteration: nat)
    requires
        iteration <= ITERATION_CAP + 1,
    ensures
        iteration < run_from(walk, tree, iteration).2 <= MAX_TRAVERSALS,
        !run_from(walk, tree, iteration).1 ==> run_from(walk, tree, iteration).2 == MAX_TRAVERSALS,
        (forall|t: T| (#[trigger] walk(t)).1) ==> !run_from(walk, tree, iteration).1,
        settles(walk) && run_from(walk, tree, iteration).1 ==> walk(
            run_from(walk, tree, iteration).0,
        ) == (run_from(walk, tree, iteration).0, false),
    decreases ITERATION_CAP + 2 - iteration,
{
    let (next, any_changed) = walk(tree);
    if any_changed && iteration <= ITERATION_CAP {
        lemma_run_from(walk, next, iteration + 1);
    }
}

proof fn lemma_run_until_quiet<T>(walk: spec_fn(T) -> (T, bool), tree: T, walks: nat, done: nat)
    requires
        1 <= walks <= MAX_TRAVERSALS,
        done < walks,
        forall|earlier: nat|
            earlier + 1 < walks ==> (#[trigger] walk(after_walks(walk, tree, earlier))).1,
        !walk(after_walks(walk, tree, (walks - 1) as nat)).1,
    ensures
        run_from(walk, after_walks(walk, tree, done), done) == (
            after_walks(walk, tree, walks),
            true,
            walks,
        ),
    decreases walks - done,
{
    if done + 1 < walks {
        assert(walk(after_walks(walk, tree, done)).1);
        assert(after_walks(walk, tree, done + 1) == walk(after_walks(walk, tree, done)).0);
        lemma_run_until_quiet(walk, tree, walks, done + 1);
    }
}

/// Iteration bound: a run performs at least one and at most
/// `MAX_TRAVERSALS` walks, and a run that does not end at a fixed point has
/// used all of them.
pub proof fn law_iteration_bound<T>(walk: spec_fn(T) -> (T, bool), tree: T)
    ensures
        1 <= run(walk, tree).2 <= MAX_TRAVERSALS,
        !run(walk, tree).1 ==> run(walk, tree).2 == MAX_TRAVERSALS,
{
    lemma_run_from(walk, tree, 0);
}

/// A run stops at the first walk that reports no change: if that is walk
/// number `walks`, within the budget, the run ends at a fixed point after
/// exactly `walks` walks, on the tree that they leave.
pub proof fn law_stops_at_first_quiet_walk<T>(walk: spec_fn(T) -> (T, bool), tree: T, walks: nat)
    requires
        1 <= walks <= MAX_TRAVERSALS,
        forall|earlier: nat|
            earlier + 1 < walks ==> (#[trigger] walk(after_walks(walk, tree, earlier))).1,
        !walk(after_walks(walk, tree, (walks - 1) as nat)).1,
    ensures
        run(walk, tree) == (after_walks(walk, tree, walks), true, walks),
{
    lemma_run_until_quiet(walk, tree, walks, 0);
}

/// Rules that report a change on every walk are detected: the run ends as
/// not converged.
pub proof fn law_perpetual_change_is_detected<T>(walk: spec_fn(T) -> (T, bool), tree: T)
    requires
        forall|t: T| (#[trigger] walk(t)).1,
    ensures
        !run(walk, tree).1,
        run(walk, tree).2 == MAX_TRAVERSALS,
{
    lemma_run_from(walk, tree, 0);
}

/// Fixed-point idempotence: after a run that ended at a fixed point, a
/// second run on its output performs one walk, reports no change and leaves
/// the tree as it is.
pub proof fn law_fixed_point_is_stable<T>(walk: spec_fn(T) -> (T, bool), tree: T)
    requires
        settles(walk),
        run(walk, tree).1,
    ensures
        run(walk, run(walk, tree).0) == (run(walk, tree).0, true, 1nat),
{
    lemma_run_from(walk, tree, 0);
}

/// A walk that leaves the tree as it was whenever it reports no change
/// settles.
pub proof fn law_reporting_every_change_settles<T>(walk: spec_fn(T) -> (T, bool))
    requires
        reports_every_change(walk),
    ensures
        settles(walk),
{
}

} // verus!
