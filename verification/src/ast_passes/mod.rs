//! The pass managers: each owns the state of its rules, hands every node of a
//! tree walk to the subscribed rules in their fixed order, and keeps track of
//! which rules reported a rewrite.

mod dead_code_elimination;
mod peephole_optimizations;

pub use dead_code_elimination::DeadCodeElimination;
pub use peephole_optimizations::PeepholeOptimizations;

use crate::rule::{Hook, Rule, RuleKind};
use crate::wiring::{invoked_at, Pipeline};
use vstd::prelude::*;

verus! {

/// The rewrite rules themselves, as a capability supplied by the caller.
///
/// A rule set is taken to be a function of its arguments: what `apply` does
/// to the rules, the node and the context, and what it returns, is what
/// `applied` gives for their values before the call. Nothing else is
/// assumed of it. For a convergence run to end at a fixed point, each rule
/// has to make forward progress only: once it finds nothing to rewrite on a
/// subtree, it must go on declining for as long as the subtree is unchanged.
pub trait RewriteRules<N, C>: Sized {
    /// The rules, the node and the context after the hook of `rule` for
    /// `hook` has run, and whether it rewrote anything. Unspecified unless an
    /// implementation says what its rules do.
    open spec fn applied(self, rule: Rule, hook: Hook, node: N, ctx: C) -> (Self, N, C, bool) {
        arbitrary()
    }

    /// Runs the hook of `rule` for the node category of `hook` on `node`.
    /// The rule may replace, delete or restructure the node and what lies
    /// below it, and nothing else. Returns whether it rewrote anything; a
    /// rule without that hook returns `false` and leaves the node alone.
    ///
    /// The pass managers call this only for a rule at a hook that the rule is
    /// wired to.
    fn apply(&mut self, rule: &Rule, hook: Hook, node: &mut N, ctx: &mut C) -> (rewrote: bool)
        requires
            invoked_at(rule.kind, hook),
        ensures
            (*final(self), *final(node), *final(ctx), rewrote) == old(self).applied(
                *rule,
                hook,
                *old(node),
                *old(ctx),
            ),
    ;
}

/// The tree walk, as a capability supplied by the caller.
///
/// A walk is taken to be a function of its arguments: what `traverse` does
/// to the engine, the pass, the program and the context is what `walked`
/// gives for their values before the call. Nothing else is assumed of it.
pub trait Traversal<S, P, C>: Sized {
    /// The engine, the pass, the program and the context after one walk.
    /// Unspecified unless an implementation says what its walk does.
    open spec fn walked(self, pass: S, program: P, ctx: C) -> (Self, S, P, C) {
        arbitrary()
    }

    /// Walks `program` once, depth first, and calls the hook method of `pass`
    /// for each node: enter hooks before the node's children are visited,
    /// exit hooks after all of them have been.
    fn traverse(&mut self, pass: &mut S, program: &mut P, ctx: &mut C)
        ensures
            (*final(self), *final(pass), *final(program), *final(ctx)) == old(self).walked(
                *old(pass),
                *old(program),
                *old(ctx),
            ),
    ;
}

/// A composition of rules that is applied in one walk over the tree.
pub trait CompressorPass<P, C>: Sized {
    /// Runs exactly one walk of `engine` over `program` with this pass: the
    /// engine, the pass, the program and the context afterwards are those of
    /// one walk from their values before.
    fn build<T: Traversal<Self, P, C>>(&mut self, program: &mut P, ctx: &mut C, engine: &mut T)
        ensures
            (*final(engine), *final(self), *final(program), *final(ctx)) == old(engine).walked(
                *old(self),
                *old(program),
                *old(ctx),
            ),
    ;
}

/// The rule states of a pass manager of `pipeline`: one state for each rule
/// that the pipeline owns, filed under the rule's kind.
pub open spec fn well_formed(pipeline: Pipeline, rules: Map<RuleKind, Rule>) -> bool {
    &&& forall|kind: RuleKind| #[trigger]
        rules.dom().contains(kind) <==> pipeline.spec_slot(kind).is_some()
    &&& forall|kind: RuleKind| rules.dom().contains(kind) ==> (#[trigger] rules[kind]).kind == kind
}

/// The OR of the rules' change flags.
pub open spec fn any_changed(rules: Map<RuleKind, Rule>) -> bool {
    exists|kind: RuleKind| rules.dom().contains(kind) && (#[trigger] rules[kind]).changed
}

/// `after` is `before` with every change flag cleared.
pub open spec fn all_reset(before: Map<RuleKind, Rule>, after: Map<RuleKind, Rule>) -> bool {
    &&& after.dom() == before.dom()
    &&& forall|kind: RuleKind|
        before.dom().contains(kind) ==> #[trigger] after[kind] == (Rule {
            changed: false,
            ..before[kind]
        })
}

/// What invoking the rules at one hook may do to the rule states: flags are
/// only ever raised, only those of rules subscribed to the hook, and nothing
/// else is touched.
pub open spec fn hook_effect(
    pipeline: Pipeline,
    hook: Hook,
    before: Map<RuleKind, Rule>,
    after: Map<RuleKind, Rule>,
) -> bool {
    &&& after.dom() == before.dom()
    &&& forall|kind: RuleKind|
        before.dom().contains(kind) ==> {
            &&& #[trigger] after[kind] == (Rule { changed: after[kind].changed, ..before[kind] })
            &&& before[kind].changed ==> after[kind].changed
            &&& !pipeline.spec_subscribes(kind, hook) ==> after[kind].changed
                == before[kind].changed
        }
}

/// The rule states after `rule` reported `rewrote` from one hook invocation:
/// a rewrite raises the flag of `rule`; nothing else changes.
pub open spec fn recorded(before: Map<RuleKind, Rule>, rule: RuleKind, rewrote: bool) -> Map<
    RuleKind,
    Rule,
> {
    if before.dom().contains(rule) {
        before.insert(rule, Rule { changed: before[rule].changed || rewrote, ..before[rule] })
    } else {
        before
    }
}

/// The rule states, the rules, the node and the context after the rules
/// `kinds` have been invoked on the node at `hook`, one after the other: each
/// rule is handed its own state and works on what the earlier ones left, and
/// what it reports is recorded in its flag.
pub open spec fn dispatched<N, C, R: RewriteRules<N, C>>(
    kinds: Seq<RuleKind>,
    hook: Hook,
    states: Map<RuleKind, Rule>,
    rules: R,
    node: N,
    ctx: C,
) -> (Map<RuleKind, Rule>, R, N, C)
    decreases kinds.len(),
{
    if kinds.len() == 0 {
        (states, rules, node, ctx)
    } else {
        let earlier = dispatched(kinds.drop_last(), hook, states, rules, node, ctx);
        let last = earlier.1.applied(earlier.0[kinds.last()], hook, earlier.2, earlier.3);
        (recorded(earlier.0, kinds.last(), last.3), last.0, last.1, last.2)
    }
}

/// One more rule invoked after `kinds`.
pub proof fn lemma_dispatched_push<N, C, R: RewriteRules<N, C>>(
    kinds: Seq<RuleKind>,
    kind: RuleKind,
    hook: Hook,
    states: Map<RuleKind, Rule>,
    rules: R,
    node: N,
    ctx: C,
)
    ensures
        dispatched(kinds.push(kind), hook, states, rules, node, ctx) == ({
            let earlier = dispatched(kinds, hook, states, rules, node, ctx);
            let last = earlier.1.applied(earlier.0[kind], hook, earlier.2, earlier.3);
            (recorded(earlier.0, kind, last.3), last.0, last.1, last.2)
        }),
{
    assert(kinds.push(kind).drop_last() =~= kinds);
}

/// Change-flag soundness: a hook invocation that found nothing to rewrite
/// leaves every rule's state as it was; one that rewrote raises the flag of
/// its own rule and touches no other; and no flag is ever lowered.
pub proof fn law_change_flag_soundness(before: Map<RuleKind, Rule>, rule: RuleKind, rewrote: bool)
    ensures
        !rewrote ==> recorded(before, rule, rewrote) == before,
        recorded(before, rule, rewrote).dom() == before.dom(),
        forall|kind: RuleKind|
            before.dom().contains(kind) && kind != rule ==> #[trigger] recorded(
                before,
                rule,
                rewrote,
            )[kind] == before[kind],
        forall|kind: RuleKind|
            before.dom().contains(kind) && before[kind].changed ==> (#[trigger] recorded(
                before,
                rule,
                rewrote,
            )[kind]).changed,
        rewrote && before.dom().contains(rule) ==> any_changed(recorded(before, rule, rewrote)),
{
    assert(recorded(before, rule, rewrote).dom() =~= before.dom());
    if !rewrote {
        assert(recorded(before, rule, rewrote) =~= before);
    }
    if rewrote && before.dom().contains(rule) {
        assert(recorded(before, rule, rewrote)[rule].changed);
    }
}

/// Change-flag soundness at a hook: where none of the rules invoked has
/// anything to rewrite, so that each leaves the rules, the node and the
/// context as they were and reports no rewrite, the hook leaves the node, the
/// context, the rules and every flag as they were.
pub proof fn law_quiet_hook_changes_nothing<N, C, R: RewriteRules<N, C>>(
    kinds: Seq<RuleKind>,
    hook: Hook,
    states: Map<RuleKind, Rule>,
    rules: R,
    node: N,
    ctx: C,
)
    requires
        forall|i: int|
            0 <= i < kinds.len() ==> rules.applied(states[#[trigger] kinds[i]], hook, node, ctx) == (
                rules,
                node,
                ctx,
                false,
            ),
    ensures
        dispatched(kinds, hook, states, rules, node, ctx) == (states, rules, node, ctx),
    decreases kinds.len(),
{
    if kinds.len() > 0 {
        assert forall|i: int| 0 <= i < kinds.drop_last().len() implies rules.applied(
            states[#[trigger] kinds.drop_last()[i]],
            hook,
            node,
            ctx,
        ) == (rules, node, ctx, false) by {
            assert(kinds.drop_last()[i] == kinds[i]);
        }
        law_quiet_hook_changes_nothing(kinds.drop_last(), hook, states, rules, node, ctx);
        assert(kinds.last() == kinds[kinds.len() - 1]);
        law_change_flag_soundness(states, kinds.last(), false);
    }
}

} // verus!
