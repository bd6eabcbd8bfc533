//! The static dispatch tables: which rules a pass manager owns, in which
//! order, and which of them are invoked at each hook.

use crate::rule::{Hook, RuleKind};
use vstd::prelude::*;

verus! {

/// The two fixed compositions of rules.
#[derive(Clone, Copy, Debug, PartialEq, Eq, Structural)]
pub enum Pipeline {
    /// All ten rules, driven to a fixed point.
    Peephole,
    /// Constant folding, then dead-code removal, in a single walk.
    DeadCodeElimination,
}

/// Some pipeline invokes `rule` at `hook`.
pub open spec fn invoked_at(rule: RuleKind, hook: Hook) -> bool {
    Pipeline::Peephole.spec_subscribes(rule, hook) || Pipeline::DeadCodeElimination.spec_subscribes(
        rule,
        hook,
    )
}

/// `at` places `sub` inside `full`: element `i` of `sub` is element `at[i]`
/// of `full`, and the places grow with `i`.
pub open spec fn embedding(sub: Seq<RuleKind>, full: Seq<RuleKind>, at: Seq<int>) -> bool {
    &&& at.len() == sub.len()
    &&& forall|i: int| 0 <= i < sub.len() ==> 0 <= #[trigger] at[i] < full.len()
    &&& forall|i: int| 0 <= i < sub.len() ==> full[#[trigger] at[i]] == sub[i]
    &&& forall|i: int, j: int| 0 <= i < j < sub.len() ==> at[i] < at[j]
}

/// Every element of `sub` occurs in `full`, and elements keep the relative
/// order that they have in `full`.
pub open spec fn embeds_in_order(sub: Seq<RuleKind>, full: Seq<RuleKind>) -> bool {
    exists|at: Seq<int>| embedding(sub, full, at)
}

impl Pipeline {
    /// The rules of the pipeline in the order in which they are invoked at a
    /// node.
    pub open spec fn spec_order(self) -> Seq<RuleKind> {
        match self {
            Pipeline::Peephole => RuleKind::declared_order(),
            Pipeline::DeadCodeElimination => seq![
                RuleKind::PeepholeFoldConstants,
                RuleKind::PeepholeRemoveDeadCode,
            ],
        }
    }

    /// Whether `rule` has a hook for the node category of `hook` wired into
    /// this pipeline.
    pub open spec fn spec_subscribes(self, rule: RuleKind, hook: Hook) -> bool {
        match self {
            Pipeline::Peephole => match rule {
                RuleKind::StatementFusion => hook == Hook::ExitProgram || hook
                    == Hook::ExitFunctionBody || hook == Hook::ExitBlockStatement,
                RuleKind::MinimizeExitPoints => hook == Hook::ExitStatements,
                RuleKind::ExploitAssigns => hook == Hook::ExitStatements,
                RuleKind::CollapseVariableDeclarations => hook == Hook::ExitStatements,
                RuleKind::PeepholeRemoveDeadCode => hook == Hook::ExitProgram || hook
                    == Hook::ExitStatements || hook == Hook::ExitStatement || hook
                    == Hook::ExitExpression,
                RuleKind::PeepholeMinimizeConditions => hook == Hook::ExitStatements || hook
                    == Hook::ExitStatement || hook == Hook::ExitExpression,
                RuleKind::PeepholeSubstituteAlternateSyntax => hook == Hook::ExitReturnStatement
                    || hook == Hook::ExitVariableDeclaration || hook == Hook::ExitExpression
                    || hook == Hook::EnterCallExpression || hook == Hook::ExitCallExpression
                    || hook == Hook::ExitCatchClause,
                RuleKind::PeepholeReplaceKnownMethods => hook == Hook::ExitExpression,
                RuleKind::PeepholeFoldConstants => hook == Hook::ExitExpression,
                RuleKind::ConvertToDottedProperties => hook == Hook::ExitPropertyKey || hook
                    == Hook::ExitMemberExpression,
            },
            Pipeline::DeadCodeElimination => match rule {
                RuleKind::PeepholeFoldConstants => hook == Hook::ExitExpression,
                RuleKind::PeepholeRemoveDeadCode => hook == Hook::ExitProgram || hook
                    == Hook::ExitStatements || hook == Hook::ExitStatement || hook
                    == Hook::ExitExpression,
                _ => false,
            },
        }
    }

    /// The place of `rule` in the pipeline's order, if the pipeline owns it.
    pub open spec fn spec_slot(self, rule: RuleKind) -> Option<nat> {
        match self {
            Pipeline::Peephole => Some(rule.position()),
            Pipeline::DeadCodeElimination => match rule {
                RuleKind::PeepholeFoldConstants => Some(0nat),
                RuleKind::PeepholeRemoveDeadCode => Some(1nat),
                _ => None,
            },
        }
    }

    /// The subscription test for one hook, as a predicate on rules.
    pub open spec fn subscribed_to(self, hook: Hook) -> spec_fn(RuleKind) -> bool {
        |rule: RuleKind| self.spec_subscribes(rule, hook)
    }

    /// The rules invoked at `hook`, in invocation order: the pipeline's rules
    /// that subscribe to the hook, in the pipeline's order.
    pub open spec fn spec_dispatch(self, hook: Hook) -> Seq<RuleKind> {
        self.spec_order().filter(self.subscribed_to(hook))
    }

    /// The rules of the pipeline, first to last.
    pub fn order(self) -> (rules: Vec<RuleKind>)
        ensures
            rules@ == self.spec_order(),
    {
        let mut rules: Vec<RuleKind> = Vec::new();
        match self {
            Pipeline::Peephole => {
                rules.push(RuleKind::StatementFusion);
                rules.push(RuleKind::MinimizeExitPoints);
                rules.push(RuleKind::ExploitAssigns);
                rules.push(RuleKind::CollapseVariableDeclarations);
                rules.push(RuleKind::PeepholeRemoveDeadCode);
                rules.push(RuleKind::PeepholeMinimizeConditions);
                rules.push(RuleKind::PeepholeSubstituteAlternateSyntax);
                rules.push(RuleKind::PeepholeReplaceKnownMethods);
                rules.push(RuleKind::PeepholeFoldConstants);
                rules.push(RuleKind::ConvertToDottedProperties);
            },
            Pipeline::DeadCodeElimination => {
                rules.push(RuleKind::PeepholeFoldConstants);
                rules.push(RuleKind::PeepholeRemoveDeadCode);
            },
        }
        assert(rules@ =~= self.spec_order());
        rules
    }

    /// Whether `rule` is invoked at `hook` in this pipeline.
    pub fn subscribes(self, rule: RuleKind, hook: Hook) -> (b: bool)
        ensures
            b == self.spec_subscribes(rule, hook),
    {
        let removes_dead_code = match hook {
            Hook::ExitProgram | Hook::ExitStatements | Hook::ExitStatement | Hook::ExitExpression => true,
            _ => false,
        };
        match self {
            Pipeline::Peephole => match rule {
                RuleKind::StatementFusion => match hook {
                    Hook::ExitProgram | Hook::ExitFunctionBody | Hook::ExitBlockStatement => true,
                    _ => false,
                },
                RuleKind::MinimizeExitPoints
                | RuleKind::ExploitAssigns
                | RuleKind::CollapseVariableDeclarations => match hook {
                    Hook::ExitStatements => true,
                    _ => false,
                },
                RuleKind::PeepholeRemoveDeadCode => removes_dead_code,
                RuleKind::PeepholeMinimizeConditions => match hook {
                    Hook::ExitStatements | Hook::ExitStatement | Hook::ExitExpression => true,
                    _ => false,
                },
                RuleKind::PeepholeSubstituteAlternateSyntax => match hook {
                    Hook::ExitReturnStatement
                    | Hook::ExitVariableDeclaration
                    | Hook::ExitExpression
                    | Hook::EnterCallExpression
                    | Hook::ExitCallExpression
                    | Hook::ExitCatchClause => true,
                    _ => false,
                },
                RuleKind::PeepholeReplaceKnownMethods | RuleKind::PeepholeFoldConstants => match hook {
                    Hook::ExitExpression => true,
                    _ => false,
                },
                RuleKind::ConvertToDottedProperties => match hook {
                    Hook::ExitPropertyKey | Hook::ExitMemberExpression => true,
                    _ => false,
                },
            },
            Pipeline::DeadCodeElimination => match rule {
                RuleKind::PeepholeFoldConstants => match hook {
                    Hook::ExitExpression => true,
                    _ => false,
                },
                RuleKind::PeepholeRemoveDeadCode => removes_dead_code,
                _ => false,
            },
        }
    }

    /// The rules to invoke at `hook`, first to last.
    pub fn dispatch(self, hook: Hook) -> (rules: Vec<RuleKind>)
        ensures
            rules@ == self.spec_dispatch(hook),
    {
        let order = self.order();
        let mut rules: Vec<RuleKind> = Vec::new();
        let mut i: usize = 0;
        proof {
            reveal(Seq::filter);
            assert(order@.take(0) =~= Seq::<RuleKind>::empty());
        }
        while i < order.len()
            invariant
                i <= order.len(),
                order@ == self.spec_order(),
                rules@ == order@.take(i as int).filter(self.subscribed_to(hook)),
            decreases order.len() - i,
        {
            let rule = order[i];
            proof {
                assert(order@.take(i + 1) =~= order@.take(i as int).push(rule));
                order@.take(i as int).lemma_filter_push(rule, self.subscribed_to(hook));
            }
            if self.subscribes(rule, hook) {
                rules.push(rule);
            }
            i += 1;
        }
        proof {
            assert(order@.take(order.len() as int) =~= order@);
        }
        rules
    }
}

/// Filtering keeps relative order: what is left of a sequence after a filter
/// embeds into the sequence. Returns the places.
pub proof fn lemma_filter_embeds(full: Seq<RuleKind>, pred: spec_fn(RuleKind) -> bool) -> (at: Seq<int>)
    ensures
        embedding(full.filter(pred), full, at),
    decreases full.len(),
{
    reveal(Seq::filter);
    if full.len() == 0 {
        Seq::<int>::empty()
    } else {
        let init = full.drop_last();
        let init_at = lemma_filter_embeds(init, pred);
        let init_sub = init.filter(pred);
        let sub = full.filter(pred);
        let at = if pred(full.last()) {
            init_at.push(full.len() - 1)
        } else {
            init_at
        };
        assert forall|i: int| 0 <= i < sub.len() implies 0 <= #[trigger] at[i] < full.len()
            && full[at[i]] == sub[i] by {
            if i < init_sub.len() {
                assert(at[i] == init_at[i]);
                assert(init[init_at[i]] == init_sub[i]);
            }
        }
        assert forall|i: int, j: int| 0 <= i < j < sub.len() implies at[i] < at[j] by {
            assert(at[i] == init_at[i]);
            if j < init_sub.len() {
                assert(at[j] == init_at[j]);
            }
        }
        at
    }
}

/// Dispatch is static and ordered: at every hook a pipeline invokes exactly
/// those of its rules that subscribe to the hook, each once, in the
/// pipeline's order.
pub proof fn law_dispatch_follows_order(pipeline: Pipeline, hook: Hook)
    ensures
        embeds_in_order(pipeline.spec_dispatch(hook), pipeline.spec_order()),
        forall|rule: RuleKind|
            pipeline.spec_dispatch(hook).contains(rule) <==> pipeline.spec_order().contains(rule)
                && pipeline.spec_subscribes(rule, hook),
{
    let full = pipeline.spec_order();
    let pred = pipeline.subscribed_to(hook);
    let sub = pipeline.spec_dispatch(hook);
    let at = lemma_filter_embeds(full, pred);
    assert forall|rule: RuleKind| sub.contains(rule) implies full.contains(rule)
        && pipeline.spec_subscribes(rule, hook) by {
        let i = choose|i: int| 0 <= i < sub.len() && sub[i] == rule;
        full.lemma_filter_pred(pred, i);
        assert(full[at[i]] == rule);
    }
    assert forall|rule: RuleKind|
        full.contains(rule) && pipeline.spec_subscribes(rule, hook) implies sub.contains(rule) by {
        let i = choose|i: int| 0 <= i < full.len() && full[i] == rule;
        full.lemma_filter_contains(pred, i);
    }
}

/// In the full pipeline the rules invoked at one node run in declared order,
/// so restructuring rules come before simplification rules, and those before
/// the final normalization.
pub proof fn law_coarse_before_fine(hook: Hook, i: int, j: int)
    requires
        0 <= i < j < Pipeline::Peephole.spec_dispatch(hook).len(),
    ensures
        Pipeline::Peephole.spec_dispatch(hook)[i].position() < Pipeline::Peephole.spec_dispatch(
            hook,
        )[j].position(),
        Pipeline::Peephole.spec_dispatch(hook)[i].spec_phase().rank()
            <= Pipeline::Peephole.spec_dispatch(hook)[j].spec_phase().rank(),
{
    let full = Pipeline::Peephole.spec_order();
    let sub = Pipeline::Peephole.spec_dispatch(hook);
    let at = lemma_filter_embeds(full, Pipeline::Peephole.subscribed_to(hook));
    assert(full[at[i]] == sub[i]);
    assert(full[at[j]] == sub[j]);
    sub[i].lemma_position_roundtrip();
    sub[j].lemma_position_roundtrip();
}

/// In the reduced pipeline constant folding is invoked before dead-code
/// removal wherever both are invoked.
pub proof fn law_fold_before_removal(hook: Hook, i: int, j: int)
    requires
        0 <= i < Pipeline::DeadCodeElimination.spec_dispatch(hook).len(),
        0 <= j < Pipeline::DeadCodeElimination.spec_dispatch(hook).len(),
        Pipeline::DeadCodeElimination.spec_dispatch(hook)[i] == RuleKind::PeepholeFoldConstants,
        Pipeline::DeadCodeElimination.spec_dispatch(hook)[j] == RuleKind::PeepholeRemoveDeadCode,
    ensures
        i < j,
{
    let full = Pipeline::DeadCodeElimination.spec_order();
    let sub = Pipeline::DeadCodeElimination.spec_dispatch(hook);
    let at = lemma_filter_embeds(full, Pipeline::DeadCodeElimination.subscribed_to(hook));
    assert(full[at[i]] == sub[i]);
    assert(full[at[j]] == sub[j]);
    if j < i {
        assert(at[j] < at[i]);
    }
}

/// The dispatch table of the full pipeline: the rules invoked at each hook,
/// first to last.
pub proof fn law_full_pipeline_table()
    ensures
        Pipeline::Peephole.spec_dispatch(Hook::ExitProgram) == seq![
            RuleKind::StatementFusion,
            RuleKind::PeepholeRemoveDeadCode,
        ],
        Pipeline::Peephole.spec_dispatch(Hook::ExitFunctionBody) == seq![
            RuleKind::StatementFusion,
        ],
        Pipeline::Peephole.spec_dispatch(Hook::ExitStatements) == seq![
            RuleKind::MinimizeExitPoints,
            RuleKind::ExploitAssigns,
            RuleKind::CollapseVariableDeclarations,
            RuleKind::PeepholeRemoveDeadCode,
            RuleKind::PeepholeMinimizeConditions,
        ],
        Pipeline::Peephole.spec_dispatch(Hook::ExitStatement) == seq![
            RuleKind::PeepholeRemoveDeadCode,
            RuleKind::PeepholeMinimizeConditions,
        ],
        Pipeline::Peephole.spec_dispatch(Hook::ExitBlockStatement) == seq![
            RuleKind::StatementFusion,
        ],
        Pipeline::Peephole.spec_dispatch(Hook::ExitReturnStatement) == seq![
            RuleKind::PeepholeSubstituteAlternateSyntax,
        ],
        Pipeline::Peephole.spec_dispatch(Hook::ExitVariableDeclaration) == seq![
            RuleKind::PeepholeSubstituteAlternateSyntax,
        ],
        Pipeline::Peephole.spec_dispatch(Hook::ExitExpression) == seq![
            RuleKind::PeepholeRemoveDeadCode,
            RuleKind::PeepholeMinimizeConditions,
            RuleKind::PeepholeSubstituteAlternateSyntax,
            RuleKind::PeepholeReplaceKnownMethods,
            RuleKind::PeepholeFoldConstants,
        ],
        Pipeline::Peephole.spec_dispatch(Hook::EnterCallExpression) == seq![
            RuleKind::PeepholeSubstituteAlternateSyntax,
        ],
        Pipeline::Peephole.spec_dispatch(Hook::ExitCallExpression) == seq![
            RuleKind::PeepholeSubstituteAlternateSyntax,
        ],
        Pipeline::Peephole.spec_dispatch(Hook::ExitPropertyKey) == seq![
            RuleKind::ConvertToDottedProperties,
        ],
        Pipeline::Peephole.spec_dispatch(Hook::ExitMemberExpression) == seq![
            RuleKind::ConvertToDottedProperties,
        ],
        Pipeline::Peephole.spec_dispatch(Hook::ExitCatchClause) == seq![
            RuleKind::PeepholeSubstituteAlternateSyntax,
        ],
{
    reveal_with_fuel(Seq::filter, 11);
    let order = Pipeline::Peephole.spec_order();
    assert(order =~= seq![
        RuleKind::StatementFusion,
        RuleKind::MinimizeExitPoints,
        RuleKind::ExploitAssigns,
        RuleKind::CollapseVariableDeclarations,
        RuleKind::PeepholeRemoveDeadCode,
        RuleKind::PeepholeMinimizeConditions,
        RuleKind::PeepholeSubstituteAlternateSyntax,
        RuleKind::PeepholeReplaceKnownMethods,
        RuleKind::PeepholeFoldConstants,
        RuleKind::ConvertToDottedProperties,
    ]);
    assert(Pipeline::Peephole.spec_dispatch(Hook::ExitProgram) =~= seq![
        RuleKind::StatementFusion,
        RuleKind::PeepholeRemoveDeadCode,
    ]);
    assert(Pipeline::Peephole.spec_dispatch(Hook::ExitFunctionBody) =~= seq![
        RuleKind::StatementFusion,
    ]);
    assert(Pipeline::Peephole.spec_dispatch(Hook::ExitStatements) =~= seq![
        RuleKind::MinimizeExitPoints,
        RuleKind::ExploitAssigns,
        RuleKind::CollapseVariableDeclarations,
        RuleKind::PeepholeRemoveDeadCode,
        RuleKind::PeepholeMinimizeConditions,
    ]);
    assert(Pipeline::Peephole.spec_dispatch(Hook::ExitStatement) =~= seq![
        RuleKind::PeepholeRemoveDeadCode,
        RuleKind::PeepholeMinimizeConditions,
    ]);
    assert(Pipeline::Peephole.spec_dispatch(Hook::ExitBlockStatement) =~= seq![
        RuleKind::StatementFusion,
    ]);
    assert(Pipeline::Peephole.spec_dispatch(Hook::ExitReturnStatement) =~= seq![
        RuleKind::PeepholeSubstituteAlternateSyntax,
    ]);
    assert(Pipeline::Peephole.spec_dispatch(Hook::ExitVariableDeclaration) =~= seq![
        RuleKind::PeepholeSubstituteAlternateSyntax,
    ]);
    assert(Pipeline::Peephole.spec_dispatch(Hook::ExitExpression) =~= seq![
        RuleKind::PeepholeRemoveDeadCode,
        RuleKind::PeepholeMinimizeConditions,
        RuleKind::PeepholeSubstituteAlternateSyntax,
        RuleKind::PeepholeReplaceKnownMethods,
        RuleKind::PeepholeFoldConstants,
    ]);
    assert(Pipeline::Peephole.spec_dispatch(Hook::EnterCallExpression) =~= seq![
        RuleKind::PeepholeSubstituteAlternateSyntax,
    ]);
    assert(Pipeline::Peephole.spec_dispatch(Hook::ExitCallExpression) =~= seq![
        RuleKind::PeepholeSubstituteAlternateSyntax,
    ]);
    assert(Pipeline::Peephole.spec_dispatch(Hook::ExitPropertyKey) =~= seq![
        RuleKind::ConvertToDottedProperties,
    ]);
    assert(Pipeline::Peephole.spec_dispatch(Hook::ExitMemberExpression) =~= seq![
        RuleKind::ConvertToDottedProperties,
    ]);
    assert(Pipeline::Peephole.spec_dispatch(Hook::ExitCatchClause) =~= seq![
        RuleKind::PeepholeSubstituteAlternateSyntax,
    ]);
}

/// The dispatch table of the reduced pipeline: the rules invoked at each of
/// its four hooks, first to last. At every other hook it invokes none.
pub proof fn law_reduced_pipeline_table()
    ensures
        Pipeline::DeadCodeElimination.spec_dispatch(Hook::ExitProgram) == seq![
            RuleKind::PeepholeRemoveDeadCode,
        ],
        Pipeline::DeadCodeElimination.spec_dispatch(Hook::ExitStatements) == seq![
            RuleKind::PeepholeRemoveDeadCode,
        ],
        Pipeline::DeadCodeElimination.spec_dispatch(Hook::ExitStatement) == seq![
            RuleKind::PeepholeRemoveDeadCode,
        ],
        Pipeline::DeadCodeElimination.spec_dispatch(Hook::ExitExpression) == seq![
            RuleKind::PeepholeFoldConstants,
            RuleKind::PeepholeRemoveDeadCode,
        ],
        forall|hook: Hook|
            hook != Hook::ExitProgram && hook != Hook::ExitStatements && hook != Hook::ExitStatement
                && hook != Hook::ExitExpression ==> (#[trigger] Pipeline::DeadCodeElimination.spec_dispatch(
                hook,
            )).len() == 0,
{
    reveal_with_fuel(Seq::filter, 3);
    assert(Pipeline::DeadCodeElimination.spec_dispatch(Hook::ExitProgram) =~= seq![
        RuleKind::PeepholeRemoveDeadCode,
    ]);
    assert(Pipeline::DeadCodeElimination.spec_dispatch(Hook::ExitStatements) =~= seq![
        RuleKind::PeepholeRemoveDeadCode,
    ]);
    assert(Pipeline::DeadCodeElimination.spec_dispatch(Hook::ExitStatement) =~= seq![
        RuleKind::PeepholeRemoveDeadCode,
    ]);
    assert(Pipeline::DeadCodeElimination.spec_dispatch(Hook::ExitExpression) =~= seq![
        RuleKind::PeepholeFoldConstants,
        RuleKind::PeepholeRemoveDeadCode,
    ]);
    assert forall|hook: Hook|
        hook != Hook::ExitProgram && hook != Hook::ExitStatements && hook != Hook::ExitStatement
            && hook != Hook::ExitExpression implies (#[trigger] Pipeline::DeadCodeElimination.spec_dispatch(
        hook,
    )).len() == 0 by {
        assert(Pipeline::DeadCodeElimination.spec_dispatch(hook) =~= Seq::<RuleKind>::empty());
    }
}

} // verus!
