//! The full pass manager.

use crate::ast_passes::{
    all_reset,
    any_changed,
    dispatched,
    hook_effect,
    lemma_dispatched_push,
    recorded,
    well_formed,
    CompressorPass,
    RewriteRules,
    Traversal,
};
use crate::convergence::{
    law_fixed_point_is_stable,
    run,
    run_from,
    settles,
    ConvergenceController,
    ConvergenceExceeded,
    LoopStep,
    ITERATION_CAP,
    MAX_TRAVERSALS,
};
use crate::rule::{CompressOptions, Hook, Rule, RuleKind};
use crate::wiring::Pipeline;
use vstd::prelude::*;

verus! {

/// The full pass manager: one instance of every rule, wired for one shared
/// walk and driven to a fixed point by `run_in_loop`.
pub struct PeepholeOptimizations {
    x0_statement_fusion: Rule,
    x1_minimize_exit_points: Rule,
    x2_exploit_assigns: Rule,
    x3_collapse_variable_declarations: Rule,
    x4_peephole_remove_dead_code: Rule,
    x5_peephole_minimize_conditions: Rule,
    x6_peephole_substitute_alternate_syntax: Rule,
    x7_peephole_replace_known_methods: Rule,
    x8_peephole_fold_constants: Rule,
    x9_convert_to_dotted_properties: Rule,
}

impl View for PeepholeOptimizations {
    type V = Map<RuleKind, Rule>;

    /// The state of each rule.
    closed spec fn view(&self) -> Map<RuleKind, Rule> {
        Map::new(|kind: RuleKind| true, |kind: RuleKind| self.state(kind))
    }
}

impl PeepholeOptimizations {
    spec fn state(self, kind: RuleKind) -> Rule {
        match kind {
            RuleKind::StatementFusion => self.x0_statement_fusion,
            RuleKind::MinimizeExitPoints => self.x1_minimize_exit_points,
            RuleKind::ExploitAssigns => self.x2_exploit_assigns,
            RuleKind::CollapseVariableDeclarations => self.x3_collapse_variable_declarations,
            RuleKind::PeepholeRemoveDeadCode => self.x4_peephole_remove_dead_code,
            RuleKind::PeepholeMinimizeConditions => self.x5_peephole_minimize_conditions,
            RuleKind::PeepholeSubstituteAlternateSyntax => self.x6_peephole_substitute_alternate_syntax,
            RuleKind::PeepholeReplaceKnownMethods => self.x7_peephole_replace_known_methods,
            RuleKind::PeepholeFoldConstants => self.x8_peephole_fold_constants,
            RuleKind::ConvertToDottedProperties => self.x9_convert_to_dotted_properties,
        }
    }

    #[verifier::type_invariant]
    spec fn owns_every_rule(self) -> bool {
        &&& self.x0_statement_fusion.kind == RuleKind::StatementFusion
        &&& self.x1_minimize_exit_points.kind == RuleKind::MinimizeExitPoints
        &&& self.x2_exploit_assigns.kind == RuleKind::ExploitAssigns
        &&& self.x3_collapse_variable_declarations.kind == RuleKind::CollapseVariableDeclarations
        &&& self.x4_peephole_remove_dead_code.kind == RuleKind::PeepholeRemoveDeadCode
        &&& self.x5_peephole_minimize_conditions.kind == RuleKind::PeepholeMinimizeConditions
        &&& self.x6_peephole_substitute_alternate_syntax.kind
            == RuleKind::PeepholeSubstituteAlternateSyntax
        &&& self.x7_peephole_replace_known_methods.kind == RuleKind::PeepholeReplaceKnownMethods
        &&& self.x8_peephole_fold_constants.kind == RuleKind::PeepholeFoldConstants
        &&& self.x9_convert_to_dotted_properties.kind == RuleKind::ConvertToDottedProperties
    }

    /// This pass with every rule's change flag cleared.
    pub closed spec fn spec_reset(self) -> Self {
        PeepholeOptimizations {
            x0_statement_fusion: Rule { changed: false, ..self.x0_statement_fusion },
            x1_minimize_exit_points: Rule { changed: false, ..self.x1_minimize_exit_points },
            x2_exploit_assigns: Rule { changed: false, ..self.x2_exploit_assigns },
            x3_collapse_variable_declarations: Rule {
                changed: false,
                ..self.x3_collapse_variable_declarations
            },
            x4_peephole_remove_dead_code: Rule { changed: false, ..self.x4_peephole_remove_dead_code },
            x5_peephole_minimize_conditions: Rule {
                changed: false,
                ..self.x5_peephole_minimize_conditions
            },
            x6_peephole_substitute_alternate_syntax: Rule {
                changed: false,
                ..self.x6_peephole_substitute_alternate_syntax
            },
            x7_peephole_replace_known_methods: Rule {
                changed: false,
                ..self.x7_peephole_replace_known_methods
            },
            x8_peephole_fold_constants: Rule { changed: false, ..self.x8_peephole_fold_constants },
            x9_convert_to_dotted_properties: Rule {
                changed: false,
                ..self.x9_convert_to_dotted_properties
            },
        }
    }

    /// Constructs one instance of every rule. `in_fixed_loop` says that the
    /// code under transformation may execute more than once; it reaches the
    /// rules that have rewrites to withhold in that case.
    pub fn new(in_fixed_loop: bool, options: CompressOptions) -> (passes: Self)
        ensures
            passes@ == Map::new(
                |kind: RuleKind| true,
                |kind: RuleKind| Rule::fresh(kind, in_fixed_loop, options),
            ),
            well_formed(Pipeline::Peephole, passes@),
            !any_changed(passes@),
    {
        let passes = PeepholeOptimizations {
            x0_statement_fusion: Rule::new(RuleKind::StatementFusion, in_fixed_loop, options),
            x1_minimize_exit_points: Rule::new(RuleKind::MinimizeExitPoints, in_fixed_loop, options),
            x2_exploit_assigns: Rule::new(RuleKind::ExploitAssigns, in_fixed_loop, options),
            x3_collapse_variable_declarations: Rule::new(
                RuleKind::CollapseVariableDeclarations,
                in_fixed_loop,
                options,
            ),
            x4_peephole_remove_dead_code: Rule::new(
                RuleKind::PeepholeRemoveDeadCode,
                in_fixed_loop,
                options,
            ),
            x5_peephole_minimize_conditions: Rule::new(
                RuleKind::PeepholeMinimizeConditions,
                in_fixed_loop,
                options,
            ),
            x6_peephole_substitute_alternate_syntax: Rule::new(
                RuleKind::PeepholeSubstituteAlternateSyntax,
                in_fixed_loop,
                options,
            ),
            x7_peephole_replace_known_methods: Rule::new(
                RuleKind::PeepholeReplaceKnownMethods,
                in_fixed_loop,
                options,
            ),
            x8_peephole_fold_constants: Rule::new(
                RuleKind::PeepholeFoldConstants,
                in_fixed_loop,
                options,
            ),
            x9_convert_to_dotted_properties: Rule::new(
                RuleKind::ConvertToDottedProperties,
                in_fixed_loop,
                options,
            ),
        };
        assert(passes@ =~= Map::new(
            |kind: RuleKind| true,
            |kind: RuleKind| Rule::fresh(kind, in_fixed_loop, options),
        ));
        passes
    }

    /// The state of one rule.
    pub fn rule(&self, kind: RuleKind) -> (state: Rule)
        ensures
            well_formed(Pipeline::Peephole, self@),
            state == self@[kind],
            state.kind == kind,
    {
        proof {
            use_type_invariant(self);
        }
        match kind {
            RuleKind::StatementFusion => self.x0_statement_fusion,
            RuleKind::MinimizeExitPoints => self.x1_minimize_exit_points,
            RuleKind::ExploitAssigns => self.x2_exploit_assigns,
            RuleKind::CollapseVariableDeclarations => self.x3_collapse_variable_declarations,
            RuleKind::PeepholeRemoveDeadCode => self.x4_peephole_remove_dead_code,
            RuleKind::PeepholeMinimizeConditions => self.x5_peephole_minimize_conditions,
            RuleKind::PeepholeSubstituteAlternateSyntax => self.x6_peephole_substitute_alternate_syntax,
            RuleKind::PeepholeReplaceKnownMethods => self.x7_peephole_replace_known_methods,
            RuleKind::PeepholeFoldConstants => self.x8_peephole_fold_constants,
            RuleKind::ConvertToDottedProperties => self.x9_convert_to_dotted_properties,
        }
    }

    /// Clears every rule's change flag.
    pub fn reset_changed(&mut self)
        ensures
            *final(self) == old(self).spec_reset(),
            all_reset(old(self)@, final(self)@),
            !any_changed(final(self)@),
    {
        proof {
            use_type_invariant(&*self);
        }
        *self = PeepholeOptimizations {
            x0_statement_fusion: Rule { changed: false, ..self.x0_statement_fusion },
            x1_minimize_exit_points: Rule { changed: false, ..self.x1_minimize_exit_points },
            x2_exploit_assigns: Rule { changed: false, ..self.x2_exploit_assigns },
            x3_collapse_variable_declarations: Rule {
                changed: false,
                ..self.x3_collapse_variable_declarations
            },
            x4_peephole_remove_dead_code: Rule { changed: false, ..self.x4_peephole_remove_dead_code },
            x5_peephole_minimize_conditions: Rule {
                changed: false,
                ..self.x5_peephole_minimize_conditions
            },
            x6_peephole_substitute_alternate_syntax: Rule {
                changed: false,
                ..self.x6_peephole_substitute_alternate_syntax
            },
            x7_peephole_replace_known_methods: Rule {
                changed: false,
                ..self.x7_peephole_replace_known_methods
            },
            x8_peephole_fold_constants: Rule { changed: false, ..self.x8_peephole_fold_constants },
            x9_convert_to_dotted_properties: Rule {
                changed: false,
                ..self.x9_convert_to_dotted_properties
            },
        };
    }

    /// Whether any rule reported a rewrite since the last reset.
    pub fn changed(&self) -> (changed: bool)
        ensures
            changed == any_changed(self@),
    {
        let changed = self.x0_statement_fusion.changed || self.x1_minimize_exit_points.changed
            || self.x2_exploit_assigns.changed || self.x3_collapse_variable_declarations.changed
            || self.x4_peephole_remove_dead_code.changed
            || self.x5_peephole_minimize_conditions.changed
            || self.x6_peephole_substitute_alternate_syntax.changed
            || self.x7_peephole_replace_known_methods.changed
            || self.x8_peephole_fold_constants.changed
            || self.x9_convert_to_dotted_properties.changed;
        proof {
            if changed {
                let kind = if self.x0_statement_fusion.changed {
                    RuleKind::StatementFusion
                } else if self.x1_minimize_exit_points.changed {
                    RuleKind::MinimizeExitPoints
                } else if self.x2_exploit_assigns.changed {
                    RuleKind::ExploitAssigns
                } else if self.x3_collapse_variable_declarations.changed {
                    RuleKind::CollapseVariableDeclarations
                } else if self.x4_peephole_remove_dead_code.changed {
                    RuleKind::PeepholeRemoveDeadCode
                } else if self.x5_peephole_minimize_conditions.changed {
                    RuleKind::PeepholeMinimizeConditions
                } else if self.x6_peephole_substitute_alternate_syntax.changed {
                    RuleKind::PeepholeSubstituteAlternateSyntax
                } else if self.x7_peephole_replace_known_methods.changed {
                    RuleKind::PeepholeReplaceKnownMethods
                } else if self.x8_peephole_fold_constants.changed {
                    RuleKind::PeepholeFoldConstants
                } else {
                    RuleKind::ConvertToDottedProperties
                };
                assert(self@.dom().contains(kind) && self@[kind].changed);
            }
        }
        changed
    }

    /// Records what one invocation of `rule` reported: a rewrite raises the
    /// rule's flag, no rewrite leaves every flag as it was.
    pub fn record(&mut self, rule: RuleKind, rewrote: bool)
        ensures
            final(self)@ == recorded(old(self)@, rule, rewrote),
    {
        proof {
            use_type_invariant(&*self);
        }
        if rewrote {
            match rule {
                RuleKind::StatementFusion => {
                    self.x0_statement_fusion.changed = true;
                },
                RuleKind::MinimizeExitPoints => {
                    self.x1_minimize_exit_points.changed = true;
                },
                RuleKind::ExploitAssigns => {
                    self.x2_exploit_assigns.changed = true;
                },
                RuleKind::CollapseVariableDeclarations => {
                    self.x3_collapse_variable_declarations.changed = true;
                },
                RuleKind::PeepholeRemoveDeadCode => {
                    self.x4_peephole_remove_dead_code.changed = true;
                },
                RuleKind::PeepholeMinimizeConditions => {
                    self.x5_peephole_minimize_conditions.changed = true;
                },
                RuleKind::PeepholeSubstituteAlternateSyntax => {
                    self.x6_peephole_substitute_alternate_syntax.changed = true;
                },
                RuleKind::PeepholeReplaceKnownMethods => {
                    self.x7_peephole_replace_known_methods.changed = true;
                },
                RuleKind::PeepholeFoldConstants => {
                    self.x8_peephole_fold_constants.changed = true;
                },
                RuleKind::ConvertToDottedProperties => {
                    self.x9_convert_to_dotted_properties.changed = true;
                },
            }
        }
        assert(self@ =~= recorded(old(self)@, rule, rewrote));
    }

    /// Invokes, on `node`, the rules subscribed to `hook`, in declared order,
    /// each seeing what the earlier ones left, and records what they report.
    pub fn dispatch<N, C, R: RewriteRules<N, C>>(
        &mut self,
        hook: Hook,
        node: &mut N,
        ctx: &mut C,
        rules: &mut R,
    )
        ensures
            (final(self)@, *final(rules), *final(node), *final(ctx)) == dispatched(
                Pipeline::Peephole.spec_dispatch(hook),
                hook,
                old(self)@,
                *old(rules),
                *old(node),
                *old(ctx),
            ),
            hook_effect(Pipeline::Peephole, hook, old(self)@, final(self)@),
    {
        let subscribed = Pipeline::Peephole.dispatch(hook);
        let mut i: usize = 0;
        proof {
            use_type_invariant(&*self);
        }
        while i < subscribed.len()
            invariant
                i <= subscribed.len(),
                subscribed@ == Pipeline::Peephole.spec_dispatch(hook),
                hook_effect(Pipeline::Peephole, hook, old(self)@, self@),
                (self@, *rules, *node, *ctx) == dispatched(
                    subscribed@.take(i as int),
                    hook,
                    old(self)@,
                    *old(rules),
                    *old(node),
                    *old(ctx),
                ),
            decreases subscribed.len() - i,
        {
            let kind = subscribed[i];
            proof {
                assert(subscribed@.take(i + 1) =~= subscribed@.take(i as int).push(kind));
                lemma_dispatched_push(
                    subscribed@.take(i as int),
                    kind,
                    hook,
                    old(self)@,
                    *old(rules),
                    *old(node),
                    *old(ctx),
                );
                Pipeline::Peephole.spec_order().lemma_filter_pred(
                    Pipeline::Peephole.subscribed_to(hook),
                    i as int,
                );
            }
            let state = self.rule(kind);
            let rewrote = rules.apply(&state, hook, node, ctx);
            self.record(kind, rewrote);
            i += 1;
        }
        proof {
            assert(subscribed@.take(subscribed.len() as int) =~= subscribed@);
        }
    }

    /// After the whole program has been walked: statement fusion, then dead-code
    /// removal.
    pub fn exit_program<N, C, R: RewriteRules<N, C>>(&mut self, program: &mut N, ctx: &mut C, rules: &mut R)
        ensures
            (final(self)@, *final(rules), *final(program), *final(ctx)) == dispatched(
                Pipeline::Peephole.spec_dispatch(Hook::ExitProgram),
                Hook::ExitProgram,
                old(self)@,
                *old(rules),
                *old(program),
                *old(ctx),
            ),
            hook_effect(Pipeline::Peephole, Hook::ExitProgram, old(self)@, final(self)@),
    {
        self.dispatch(Hook::ExitProgram, program, ctx, rules);
    }

    /// After a function body: statement fusion.
    pub fn exit_function_body<N, C, R: RewriteRules<N, C>>(&mut self, body: &mut N, ctx: &mut C, rules: &mut R)
        ensures
            (final(self)@, *final(rules), *final(body), *final(ctx)) == dispatched(
                Pipeline::Peephole.spec_dispatch(Hook::ExitFunctionBody),
                Hook::ExitFunctionBody,
                old(self)@,
                *old(rules),
                *old(body),
                *old(ctx),
            ),
            hook_effect(Pipeline::Peephole, Hook::ExitFunctionBody, old(self)@, final(self)@),
    {
        self.dispatch(Hook::ExitFunctionBody, body, ctx, rules);
    }

    /// After a statement list: exit-point minimization, assignment
    /// exploitation, declaration collapsing, dead-code removal, then condition
    /// minimization.
    pub fn exit_statements<N, C, R: RewriteRules<N, C>>(&mut self, stmts: &mut N, ctx: &mut C, rules: &mut R)
        ensures
            (final(self)@, *final(rules), *final(stmts), *final(ctx)) == dispatched(
                Pipeline::Peephole.spec_dispatch(Hook::ExitStatements),
                Hook::ExitStatements,
                old(self)@,
                *old(rules),
                *old(stmts),
                *old(ctx),
            ),
            hook_effect(Pipeline::Peephole, Hook::ExitStatements, old(self)@, final(self)@),
    {
        self.dispatch(Hook::ExitStatements, stmts, ctx, rules);
    }

    /// After a single statement: dead-code removal, then condition
    /// minimization.
    pub fn exit_statement<N, C, R: RewriteRules<N, C>>(&mut self, stmt: &mut N, ctx: &mut C, rules: &mut R)
        ensures
            (final(self)@, *final(rules), *final(stmt), *final(ctx)) == dispatched(
                Pipeline::Peephole.spec_dispatch(Hook::ExitStatement),
                Hook::ExitStatement,
                old(self)@,
                *old(rules),
                *old(stmt),
                *old(ctx),
            ),
            hook_effect(Pipeline::Peephole, Hook::ExitStatement, old(self)@, final(self)@),
    {
        self.dispatch(Hook::ExitStatement, stmt, ctx, rules);
    }

    /// After a block statement: statement fusion.
    pub fn exit_block_statement<N, C, R: RewriteRules<N, C>>(&mut self, block: &mut N, ctx: &mut C, rules: &mut R)
        ensures
            (final(self)@, *final(rules), *final(block), *final(ctx)) == dispatched(
                Pipeline::Peephole.spec_dispatch(Hook::ExitBlockStatement),
                Hook::ExitBlockStatement,
                old(self)@,
                *old(rules),
                *old(block),
                *old(ctx),
            ),
            hook_effect(Pipeline::Peephole, Hook::ExitBlockStatement, old(self)@, final(self)@),
    {
        self.dispatch(Hook::ExitBlockStatement, block, ctx, rules);
    }

    /// After a return statement: alternate-syntax substitution.
    pub fn exit_return_statement<N, C, R: RewriteRules<N, C>>(&mut self, stmt: &mut N, ctx: &mut C, rules: &mut R)
        ensures
            (final(self)@, *final(rules), *final(stmt), *final(ctx)) == dispatched(
                Pipeline::Peephole.spec_dispatch(Hook::ExitReturnStatement),
                Hook::ExitReturnStatement,
                old(self)@,
                *old(rules),
                *old(stmt),
                *old(ctx),
            ),
            hook_effect(Pipeline::Peephole, Hook::ExitReturnStatement, old(self)@, final(self)@),
    {
        self.dispatch(Hook::ExitReturnStatement, stmt, ctx, rules);
    }

    /// After a variable declaration: alternate-syntax substitution.
    pub fn exit_variable_declaration<N, C, R: RewriteRules<N, C>>(&mut self, decl: &mut N, ctx: &mut C, rules: &mut R)
        ensures
            (final(self)@, *final(rules), *final(decl), *final(ctx)) == dispatched(
                Pipeline::Peephole.spec_dispatch(Hook::ExitVariableDeclaration),
                Hook::ExitVariableDeclaration,
                old(self)@,
                *old(rules),
                *old(decl),
                *old(ctx),
            ),
            hook_effect(Pipeline::Peephole, Hook::ExitVariableDeclaration, old(self)@, final(self)@),
    {
        self.dispatch(Hook::ExitVariableDeclaration, decl, ctx, rules);
    }

    /// After an expression: dead-code removal, condition minimization,
    /// alternate-syntax substitution, known-method replacement, then constant
    /// folding.
    pub fn exit_expression<N, C, R: RewriteRules<N, C>>(&mut self, expr: &mut N, ctx: &mut C, rules: &mut R)
        ensures
            (final(self)@, *final(rules), *final(expr), *final(ctx)) == dispatched(
                Pipeline::Peephole.spec_dispatch(Hook::ExitExpression),
                Hook::ExitExpression,
                old(self)@,
                *old(rules),
                *old(expr),
                *old(ctx),
            ),
            hook_effect(Pipeline::Peephole, Hook::ExitExpression, old(self)@, final(self)@),
    {
        self.dispatch(Hook::ExitExpression, expr, ctx, rules);
    }

    /// Before the callee and arguments of a call are walked: alternate-syntax
    /// substitution, which has patterns to recognise before its arguments are
    /// simplified away.
    pub fn enter_call_expression<N, C, R: RewriteRules<N, C>>(&mut self, expr: &mut N, ctx: &mut C, rules: &mut R)
        ensures
            (final(self)@, *final(rules), *final(expr), *final(ctx)) == dispatched(
                Pipeline::Peephole.spec_dispatch(Hook::EnterCallExpression),
                Hook::EnterCallExpression,
                old(self)@,
                *old(rules),
                *old(expr),
                *old(ctx),
            ),
            hook_effect(Pipeline::Peephole, Hook::EnterCallExpression, old(self)@, final(self)@),
    {
        self.dispatch(Hook::EnterCallExpression, expr, ctx, rules);
    }

    /// After a call expression: alternate-syntax substitution.
    pub fn exit_call_expression<N, C, R: RewriteRules<N, C>>(&mut self, expr: &mut N, ctx: &mut C, rules: &mut R)
        ensures
            (final(self)@, *final(rules), *final(expr), *final(ctx)) == dispatched(
                Pipeline::Peephole.spec_dispatch(Hook::ExitCallExpression),
                Hook::ExitCallExpression,
                old(self)@,
                *old(rules),
                *old(expr),
                *old(ctx),
            ),
            hook_effect(Pipeline::Peephole, Hook::ExitCallExpression, old(self)@, final(self)@),
    {
        self.dispatch(Hook::ExitCallExpression, expr, ctx, rules);
    }

    /// After a property key: dotted-property conversion.
    pub fn exit_property_key<N, C, R: RewriteRules<N, C>>(&mut self, key: &mut N, ctx: &mut C, rules: &mut R)
        ensures
            (final(self)@, *final(rules), *final(key), *final(ctx)) == dispatched(
                Pipeline::Peephole.spec_dispatch(Hook::ExitPropertyKey),
                Hook::ExitPropertyKey,
                old(self)@,
                *old(rules),
                *old(key),
                *old(ctx),
            ),
            hook_effect(Pipeline::Peephole, Hook::ExitPropertyKey, old(self)@, final(self)@),
    {
        self.dispatch(Hook::ExitPropertyKey, key, ctx, rules);
    }

    /// After a member expression: dotted-property conversion.
    pub fn exit_member_expression<N, C, R: RewriteRules<N, C>>(&mut self, expr: &mut N, ctx: &mut C, rules: &mut R)
        ensures
            (final(self)@, *final(rules), *final(expr), *final(ctx)) == dispatched(
                Pipeline::Peephole.spec_dispatch(Hook::ExitMemberExpression),
                Hook::ExitMemberExpression,
                old(self)@,
                *old(rules),
                *old(expr),
                *old(ctx),
            ),
            hook_effect(Pipeline::Peephole, Hook::ExitMemberExpression, old(self)@, final(self)@),
    {
        self.dispatch(Hook::ExitMemberExpression, expr, ctx, rules);
    }

    /// After a catch clause: alternate-syntax substitution.
    pub fn exit_catch_clause<N, C, R: RewriteRules<N, C>>(&mut self, catch: &mut N, ctx: &mut C, rules: &mut R)
        ensures
            (final(self)@, *final(rules), *final(catch), *final(ctx)) == dispatched(
                Pipeline::Peephole.spec_dispatch(Hook::ExitCatchClause),
                Hook::ExitCatchClause,
                old(self)@,
                *old(rules),
                *old(catch),
                *old(ctx),
            ),
            hook_effect(Pipeline::Peephole, Hook::ExitCatchClause, old(self)@, final(self)@),
    {
        self.dispatch(Hook::ExitCatchClause, catch, ctx, rules);
    }

    /// Drives the walk to a fixed point: clears the flags, walks the tree,
    /// and repeats while any rule reported a change, up to the iteration
    /// budget. Returns the number of walks performed, or
    /// `ConvergenceExceeded` if the rules still reported changes in the last
    /// walk that the budget allowed. The engine, the pass, the program and
    /// the context end as the convergence run of `loop_walk` leaves them.
    pub fn run_in_loop<P, C, T: Traversal<Self, P, C>>(
        &mut self,
        program: &mut P,
        ctx: &mut C,
        engine: &mut T,
    ) -> (outcome: Result<u8, ConvergenceExceeded>)
        ensures
            (*final(engine), *final(self), *final(program), *final(ctx)) == run(
                loop_walk::<P, C, T>(),
                (*old(engine), *old(self), *old(program), *old(ctx)),
            ).0,
            outcome.is_ok() == run(
                loop_walk::<P, C, T>(),
                (*old(engine), *old(self), *old(program), *old(ctx)),
            ).1,
            (match outcome {
                Ok(traversals) => traversals,
                Err(exceeded) => exceeded.traversals,
            }) == run(
                loop_walk::<P, C, T>(),
                (*old(engine), *old(self), *old(program), *old(ctx)),
            ).2,
            outcome.is_ok() == !any_changed(final(self)@),
            outcome matches Ok(traversals) ==> 1 <= traversals <= MAX_TRAVERSALS,
            outcome matches Err(exceeded) ==> exceeded.traversals == MAX_TRAVERSALS,
    {
        let mut controller = ConvergenceController::new();
        loop
            invariant
                controller.iteration() <= ITERATION_CAP + 1,
                run_from(
                    loop_walk::<P, C, T>(),
                    (*engine, *self, *program, *ctx),
                    controller.iteration(),
                ) == run(
                    loop_walk::<P, C, T>(),
                    (*old(engine), *old(self), *old(program), *old(ctx)),
                ),
            decreases ITERATION_CAP + 1 - controller.iteration(),
        {
            let ghost before = (*engine, *self, *program, *ctx);
            let ghost iteration = controller.iteration();
            self.reset_changed();
            self.build(program, ctx, engine);
            let any_changed = self.changed();
            let step = controller.observe(any_changed);
            proof {
                let after = (*engine, *self, *program, *ctx);
                assert(loop_walk::<P, C, T>()(before) == (after, any_changed));
                assert(run_from(loop_walk::<P, C, T>(), before, iteration) == (match step {
                    LoopStep::FixedPoint => (after, true, iteration + 1),
                    LoopStep::Exceeded => (after, false, iteration + 1),
                    LoopStep::Again => run_from(loop_walk::<P, C, T>(), after, iteration + 1),
                }));
            }
            match step {
                LoopStep::FixedPoint => {
                    return Ok(controller.traversals());
                },
                LoopStep::Exceeded => {
                    return Err(ConvergenceExceeded { traversals: controller.traversals() });
                },
                LoopStep::Again => {},
            }
        }
    }
}

/// One round of the convergence loop as a function of the engine, the pass,
/// the program and the context: the flags are cleared, the engine walks the
/// program once, and the round reports whether any rule's flag is set
/// afterwards.
pub open spec fn loop_walk<P, C, T: Traversal<PeepholeOptimizations, P, C>>() -> spec_fn(
    (T, PeepholeOptimizations, P, C),
) -> ((T, PeepholeOptimizations, P, C), bool) {
    |state: (T, PeepholeOptimizations, P, C)|
        {
            let after = state.0.walked(state.1.spec_reset(), state.2, state.3);
            (after, any_changed(after.1@))
        }
}

/// The engine reports every change: a walk that starts with all flags clear
/// and ends with none set has left the engine, the pass, the program and the
/// context as they were.
pub open spec fn quiet_walk_changes_nothing<P, C, T: Traversal<PeepholeOptimizations, P, C>>() -> bool {
    forall|engine: T, pass: PeepholeOptimizations, program: P, ctx: C|
        !any_changed((#[trigger] engine.walked(pass.spec_reset(), program, ctx)).1@)
            ==> engine.walked(pass.spec_reset(), program, ctx) == (
            engine,
            pass.spec_reset(),
            program,
            ctx,
        )
}

/// With an engine that reports every change, the rounds of the convergence
/// loop settle, so that a second `run_in_loop` after one that ended at a
/// fixed point makes one walk and changes nothing.
pub proof fn law_second_run_changes_nothing<P, C, T: Traversal<PeepholeOptimizations, P, C>>(
    engine: T,
    pass: PeepholeOptimizations,
    program: P,
    ctx: C,
)
    requires
        quiet_walk_changes_nothing::<P, C, T>(),
        run(loop_walk::<P, C, T>(), (engine, pass, program, ctx)).1,
    ensures
        settles(loop_walk::<P, C, T>()),
        run(loop_walk::<P, C, T>(), run(loop_walk::<P, C, T>(), (engine, pass, program, ctx)).0) == (
            run(loop_walk::<P, C, T>(), (engine, pass, program, ctx)).0,
            true,
            1nat,
        ),
{
    let walk = loop_walk::<P, C, T>();
    assert forall|state: (T, PeepholeOptimizations, P, C)| !(#[trigger] walk(state)).1 implies walk(
        walk(state).0,
    ) == walk(state) by {
        let after = state.0.walked(state.1.spec_reset(), state.2, state.3);
        assert(after == (state.0, state.1.spec_reset(), state.2, state.3));
        assert(state.1.spec_reset().spec_reset() == state.1.spec_reset());
    }
    law_fixed_point_is_stable(walk, (engine, pass, program, ctx));
}

/// Flags left from an earlier call have no effect: two runs that start from
/// passes which differ in their flags alone are the same run.
pub proof fn law_entry_flags_have_no_effect<P, C, T: Traversal<PeepholeOptimizations, P, C>>(
    engine: T,
    pass: PeepholeOptimizations,
    other: PeepholeOptimizations,
    program: P,
    ctx: C,
)
    requires
        pass.spec_reset() == other.spec_reset(),
    ensures
        run(loop_walk::<P, C, T>(), (engine, pass, program, ctx)) == run(
            loop_walk::<P, C, T>(),
            (engine, other, program, ctx),
        ),
{
    let walk = loop_walk::<P, C, T>();
    assert(walk((engine, pass, program, ctx)) == walk((engine, other, program, ctx)));
}

impl<P, C> CompressorPass<P, C> for PeepholeOptimizations {
    /// Hands the pass, the program and the context to `engine` for exactly
    /// one walk. The pass still holds one state for each of the ten rules
    /// afterwards.
    fn build<T: Traversal<Self, P, C>>(&mut self, program: &mut P, ctx: &mut C, engine: &mut T)
        ensures
            well_formed(Pipeline::Peephole, final(self)@),
    {
        engine.traverse(self, program, ctx);
        proof {
            use_type_invariant(&*self);
        }
    }
}

} // verus!
