//! The reduced pass manager.

use crate::ast_passes::{
    any_changed,
    dispatched,
    hook_effect,
    lemma_dispatched_push,
    recorded,
    well_formed,
    CompressorPass,
    RewriteRules,
    Traversal,
};
use crate::rule::{CompressOptions, Hook, Rule, RuleKind};
use crate::wiring::Pipeline;
use vstd::prelude::*;

verus! {

/// The reduced pass manager: constant folding and dead-code removal applied
/// in a single walk, with no convergence loop.
pub struct DeadCodeElimination {
    x1_peephole_fold_constants: Rule,
    x2_peephole_remove_dead_code: Rule,
}

impl View for DeadCodeElimination {
    type V = Map<RuleKind, Rule>;

    /// The state of each of the two rules.
    closed spec fn view(&self) -> Map<RuleKind, Rule> {
        map![
            RuleKind::PeepholeFoldConstants => self.x1_peephole_fold_constants,
            RuleKind::PeepholeRemoveDeadCode => self.x2_peephole_remove_dead_code,
        ]
    }
}

impl DeadCodeElimination {
    #[verifier::type_invariant]
    spec fn owns_both_rules(self) -> bool {
        &&& self.x1_peephole_fold_constants.kind == RuleKind::PeepholeFoldConstants
        &&& self.x2_peephole_remove_dead_code.kind == RuleKind::PeepholeRemoveDeadCode
    }

    /// Constructs the two rules. Neither consumes any configuration.
    pub fn new() -> (passes: Self)
        ensures
            passes@ == map![
                RuleKind::PeepholeFoldConstants => Rule {
                    kind: RuleKind::PeepholeFoldConstants,
                    changed: false,
                    in_fixed_loop: false,
                    options: None,
                },
                RuleKind::PeepholeRemoveDeadCode => Rule {
                    kind: RuleKind::PeepholeRemoveDeadCode,
                    changed: false,
                    in_fixed_loop: false,
                    options: None,
                },
            ],
            well_formed(Pipeline::DeadCodeElimination, passes@),
            !any_changed(passes@),
    {
        let options = CompressOptions { drop_debugger: false, drop_console: false };
        DeadCodeElimination {
            x1_peephole_fold_constants: Rule::new(RuleKind::PeepholeFoldConstants, false, options),
            x2_peephole_remove_dead_code: Rule::new(RuleKind::PeepholeRemoveDeadCode, false, options),
        }
    }

    /// The state of one rule, if this pass manager owns it.
    pub fn rule(&self, kind: RuleKind) -> (state: Option<Rule>)
        ensures
            well_formed(Pipeline::DeadCodeElimination, self@),
            state.is_some() == self@.dom().contains(kind),
            state matches Some(rule) ==> rule == self@[kind] && rule.kind == kind,
    {
        proof {
            use_type_invariant(self);
        }
        match kind {
            RuleKind::PeepholeFoldConstants => Some(self.x1_peephole_fold_constants),
            RuleKind::PeepholeRemoveDeadCode => Some(self.x2_peephole_remove_dead_code),
            _ => None,
        }
    }

    /// Records what one invocation of `rule` reported: a rewrite raises the
    /// rule's flag, no rewrite leaves every flag as it was.
    pub fn record(&mut self, rule: RuleKind, rewrote: bool)
        ensures
            final(self)@ == recorded(old(self)@, rule, rewrote),
    {
        proof {
            use_type_invariant(&*self);
        }
        if rewrote {
            match rule {
                RuleKind::PeepholeFoldConstants => {
                    self.x1_peephole_fold_constants.changed = true;
                },
                RuleKind::PeepholeRemoveDeadCode => {
                    self.x2_peephole_remove_dead_code.changed = true;
                },
                _ => {},
            }
        }
        assert(self@ =~= recorded(old(self)@, rule, rewrote));
    }

    /// Invokes, on `node`, the rules subscribed to `hook`, folding before
    /// removal, and records what they report. At a hook that neither rule is
    /// wired to, nothing is invoked and nothing is touched.
    pub fn dispatch<N, C, R: RewriteRules<N, C>>(
        &mut self,
        hook: Hook,
        node: &mut N,
        ctx: &mut C,
        rules: &mut R,
    )
        ensures
            (final(self)@, *final(rules), *final(node), *final(ctx)) == dispatched(
                Pipeline::DeadCodeElimination.spec_dispatch(hook),
                hook,
                old(self)@,
                *old(rules),
                *old(node),
                *old(ctx),
            ),
            hook_effect(Pipeline::DeadCodeElimination, hook, old(self)@, final(self)@),
            (forall|kind: RuleKind| !Pipeline::DeadCodeElimination.spec_subscribes(kind, hook)) ==> {
                &&& final(self)@ == old(self)@
                &&& *final(node) == *old(node)
                &&& *final(ctx) == *old(ctx)
                &&& *final(rules) == *old(rules)
            },
    {
        let subscribed = Pipeline::DeadCodeElimination.dispatch(hook);
        let mut i: usize = 0;
        proof {
            use_type_invariant(&*self);
        }
        while i < subscribed.len()
            invariant
                i <= subscribed.len(),
                subscribed@ == Pipeline::DeadCodeElimination.spec_dispatch(hook),
                hook_effect(Pipeline::DeadCodeElimination, hook, old(self)@, self@),
                (self@, *rules, *node, *ctx) == dispatched(
                    subscribed@.take(i as int),
                    hook,
                    old(self)@,
                    *old(rules),
                    *old(node),
                    *old(ctx),
                ),
                i == 0 ==> {
                    &&& self@ == old(self)@
                    &&& *node == *old(node)
                    &&& *ctx == *old(ctx)
                    &&& *rules == *old(rules)
                },
            decreases subscribed.len() - i,
        {
            let kind = subscribed[i];
            proof {
                assert(subscribed@.take(i + 1) =~= subscribed@.take(i as int).push(kind));
                lemma_dispatched_push(
                    subscribed@.take(i as int),
                    kind,
                    hook,
                    old(self)@,
                    *old(rules),
                    *old(node),
                    *old(ctx),
                );
                Pipeline::DeadCodeElimination.spec_order().lemma_filter_pred(
                    Pipeline::DeadCodeElimination.subscribed_to(hook),
                    i as int,
                );
            }
            match self.rule(kind) {
                Some(state) => {
                    let rewrote = rules.apply(&state, hook, node, ctx);
                    self.record(kind, rewrote);
                },
                None => {},
            }
            i += 1;
        }
        proof {
            assert(subscribed@.take(subscribed.len() as int) =~= subscribed@);
        }
        proof {
            if subscribed.len() > 0 {
                Pipeline::DeadCodeElimination.spec_order().lemma_filter_pred(
                    Pipeline::DeadCodeElimination.subscribed_to(hook),
                    0,
                );
                assert(Pipeline::DeadCodeElimination.spec_subscribes(subscribed@[0], hook));
            }
        }
    }

    /// After the whole program has been walked: dead-code removal.
    pub fn exit_program<N, C, R: RewriteRules<N, C>>(&mut self, program: &mut N, ctx: &mut C, rules: &mut R)
        ensures
            (final(self)@, *final(rules), *final(program), *final(ctx)) == dispatched(
                Pipeline::DeadCodeElimination.spec_dispatch(Hook::ExitProgram),
                Hook::ExitProgram,
                old(self)@,
                *old(rules),
                *old(program),
                *old(ctx),
            ),
            hook_effect(Pipeline::DeadCodeElimination, Hook::ExitProgram, old(self)@, final(self)@),
    {
        self.dispatch(Hook::ExitProgram, program, ctx, rules);
    }

    /// After a statement list: dead-code removal.
    pub fn exit_statements<N, C, R: RewriteRules<N, C>>(&mut self, stmts: &mut N, ctx: &mut C, rules: &mut R)
        ensures
            (final(self)@, *final(rules), *final(stmts), *final(ctx)) == dispatched(
                Pipeline::DeadCodeElimination.spec_dispatch(Hook::ExitStatements),
                Hook::ExitStatements,
                old(self)@,
                *old(rules),
                *old(stmts),
                *old(ctx),
            ),
            hook_effect(Pipeline::DeadCodeElimination, Hook::ExitStatements, old(self)@, final(self)@),
    {
        self.dispatch(Hook::ExitStatements, stmts, ctx, rules);
    }

    /// After a single statement: dead-code removal.
    pub fn exit_statement<N, C, R: RewriteRules<N, C>>(&mut self, stmt: &mut N, ctx: &mut C, rules: &mut R)
        ensures
            (final(self)@, *final(rules), *final(stmt), *final(ctx)) == dispatched(
                Pipeline::DeadCodeElimination.spec_dispatch(Hook::ExitStatement),
                Hook::ExitStatement,
                old(self)@,
                *old(rules),
                *old(stmt),
                *old(ctx),
            ),
            hook_effect(Pipeline::DeadCodeElimination, Hook::ExitStatement, old(self)@, final(self)@),
    {
        self.dispatch(Hook::ExitStatement, stmt, ctx, rules);
    }

    /// After an expression: constant folding, then dead-code removal, so that a
    /// branch that folding exposed as dead is deleted within the same walk.
    pub fn exit_expression<N, C, R: RewriteRules<N, C>>(&mut self, expr: &mut N, ctx: &mut C, rules: &mut R)
        ensures
            (final(self)@, *final(rules), *final(expr), *final(ctx)) == dispatched(
                Pipeline::DeadCodeElimination.spec_dispatch(Hook::ExitExpression),
                Hook::ExitExpression,
                old(self)@,
                *old(rules),
                *old(expr),
                *old(ctx),
            ),
            hook_effect(Pipeline::DeadCodeElimination, Hook::ExitExpression, old(self)@, final(self)@),
    {
        self.dispatch(Hook::ExitExpression, expr, ctx, rules);
    }
}

impl<P, C> CompressorPass<P, C> for DeadCodeElimination {
    /// Hands the pass, the program and the context to `engine` for exactly
    /// one walk. The pass still holds one state for each of its two rules
    /// afterwards.
    fn build<T: Traversal<Self, P, C>>(&mut self, program: &mut P, ctx: &mut C, engine: &mut T)
        ensures
            well_formed(Pipeline::DeadCodeElimination, final(self)@),
    {
        engine.traverse(self, program, ctx);
        proof {
            use_type_invariant(&*self);
        }
    }
}

} // verus!
