//! The dispatch tables and the convergence controller on concrete values.

use minifier_passes::convergence::{ConvergenceController, LoopStep, ITERATION_CAP, MAX_TRAVERSALS};
use minifier_passes::rule::{CompressOptions, Hook, Phase, Rule, RuleKind};
use minifier_passes::wiring::Pipeline;

const HOOKS: [Hook; 13] = [
    Hook::ExitProgram,
    Hook::ExitFunctionBody,
    Hook::ExitStatements,
    Hook::ExitStatement,
    Hook::ExitBlockStatement,
    Hook::ExitReturnStatement,
    Hook::ExitVariableDeclaration,
    Hook::ExitExpression,
    Hook::EnterCallExpression,
    Hook::ExitCallExpression,
    Hook::ExitPropertyKey,
    Hook::ExitMemberExpression,
    Hook::ExitCatchClause,
];

#[test]
fn full_pipeline_dispatch_table() {
    let p = Pipeline::Peephole;
    assert_eq!(p.dispatch(Hook::ExitProgram), vec![RuleKind::StatementFusion, RuleKind::PeepholeRemoveDeadCode]);
    assert_eq!(p.dispatch(Hook::ExitFunctionBody), vec![RuleKind::StatementFusion]);
    assert_eq!(
        p.dispatch(Hook::ExitStatements),
        vec![
            RuleKind::MinimizeExitPoints,
            RuleKind::ExploitAssigns,
            RuleKind::CollapseVariableDeclarations,
            RuleKind::PeepholeRemoveDeadCode,
            RuleKind::PeepholeMinimizeConditions
        ]
    );
    assert_eq!(
        p.dispatch(Hook::ExitStatement),
        vec![RuleKind::PeepholeRemoveDeadCode, RuleKind::PeepholeMinimizeConditions]
    );
    assert_eq!(p.dispatch(Hook::ExitBlockStatement), vec![RuleKind::StatementFusion]);
    assert_eq!(p.dispatch(Hook::ExitReturnStatement), vec![RuleKind::PeepholeSubstituteAlternateSyntax]);
    assert_eq!(p.dispatch(Hook::ExitVariableDeclaration), vec![RuleKind::PeepholeSubstituteAlternateSyntax]);
    assert_eq!(
        p.dispatch(Hook::ExitExpression),
        vec![
            RuleKind::PeepholeRemoveDeadCode,
            RuleKind::PeepholeMinimizeConditions,
            RuleKind::PeepholeSubstituteAlternateSyntax,
            RuleKind::PeepholeReplaceKnownMethods,
            RuleKind::PeepholeFoldConstants
        ]
    );
    assert_eq!(p.dispatch(Hook::EnterCallExpression), vec![RuleKind::PeepholeSubstituteAlternateSyntax]);
    assert_eq!(p.dispatch(Hook::ExitCallExpression), vec![RuleKind::PeepholeSubstituteAlternateSyntax]);
    assert_eq!(p.dispatch(Hook::ExitPropertyKey), vec![RuleKind::ConvertToDottedProperties]);
    assert_eq!(p.dispatch(Hook::ExitMemberExpression), vec![RuleKind::ConvertToDottedProperties]);
    assert_eq!(p.dispatch(Hook::ExitCatchClause), vec![RuleKind::PeepholeSubstituteAlternateSyntax]);
}

#[test]
fn reduced_pipeline_dispatch_table() {
    let p = Pipeline::DeadCodeElimination;
    assert_eq!(p.order(), vec![RuleKind::PeepholeFoldConstants, RuleKind::PeepholeRemoveDeadCode]);
    assert_eq!(p.dispatch(Hook::ExitStatement), vec![RuleKind::PeepholeRemoveDeadCode]);
    assert_eq!(p.dispatch(Hook::ExitProgram), vec![RuleKind::PeepholeRemoveDeadCode]);
    assert_eq!(p.dispatch(Hook::ExitStatements), vec![RuleKind::PeepholeRemoveDeadCode]);
    assert_eq!(
        p.dispatch(Hook::ExitExpression),
        vec![RuleKind::PeepholeFoldConstants, RuleKind::PeepholeRemoveDeadCode]
    );
    for hook in HOOKS {
        if !matches!(
            hook,
            Hook::ExitStatement | Hook::ExitProgram | Hook::ExitStatements | Hook::ExitExpression
        ) {
            assert_eq!(p.dispatch(hook), vec![]);
        }
    }
}

#[test]
fn declared_order_and_phases() {
    let order = Pipeline::Peephole.order();
    assert_eq!(
        order,
        vec![
            RuleKind::StatementFusion,
            RuleKind::MinimizeExitPoints,
            RuleKind::ExploitAssigns,
            RuleKind::CollapseVariableDeclarations,
            RuleKind::PeepholeRemoveDeadCode,
            RuleKind::PeepholeMinimizeConditions,
            RuleKind::PeepholeSubstituteAlternateSyntax,
            RuleKind::PeepholeReplaceKnownMethods,
            RuleKind::PeepholeFoldConstants,
            RuleKind::ConvertToDottedProperties
        ]
    );
    assert_eq!(order.len(), RuleKind::COUNT);
    for (i, kind) in order.iter().enumerate() {
        assert_eq!(kind.index(), i);
        let phase = if i <= 3 {
            Phase::Restructure
        } else if i <= 8 {
            Phase::Simplify
        } else {
            Phase::Normalize
        };
        assert_eq!(kind.phase(), phase);
    }
}

#[test]
fn dispatch_lists_follow_the_pipeline_order_at_every_hook() {
    for pipeline in [Pipeline::Peephole, Pipeline::DeadCodeElimination] {
        let order = pipeline.order();
        for hook in HOOKS {
            let expected: Vec<RuleKind> =
                order.iter().copied().filter(|kind| pipeline.subscribes(*kind, hook)).collect();
            assert_eq!(pipeline.dispatch(hook), expected);
        }
    }
}

#[test]
fn controller_stops_at_the_first_quiet_walk() {
    let mut controller = ConvergenceController::new();
    assert_eq!(controller.traversals(), 1);
    assert_eq!(controller.observe(false), LoopStep::FixedPoint);
    assert_eq!(controller.traversals(), 1);

    let mut controller = ConvergenceController::new();
    assert_eq!(controller.observe(true), LoopStep::Again);
    assert_eq!(controller.observe(true), LoopStep::Again);
    assert_eq!(controller.traversals(), 3);
    assert_eq!(controller.observe(false), LoopStep::FixedPoint);
    assert_eq!(controller.traversals(), 3);
}

#[test]
fn controller_gives_up_when_the_budget_is_spent() {
    assert_eq!(ITERATION_CAP, 10);
    assert_eq!(MAX_TRAVERSALS, 12);
    let mut controller = ConvergenceController::new();
    for walk in 1..=11u8 {
        assert_eq!(controller.traversals(), walk);
        assert_eq!(controller.observe(true), LoopStep::Again);
    }
    assert_eq!(controller.traversals(), 12);
    assert_eq!(controller.observe(true), LoopStep::Exceeded);
    assert_eq!(controller.traversals(), 12);
    // A quiet walk at the very end of the budget still counts as convergence.
    let mut controller = ConvergenceController::new();
    for _ in 0..11 {
        controller.observe(true);
    }
    assert_eq!(controller.observe(false), LoopStep::FixedPoint);
    assert_eq!(controller.traversals(), 12);
}

#[test]
fn rule_flag_is_monotonic() {
    let options = CompressOptions { drop_debugger: false, drop_console: true };
    let mut rule = Rule::new(RuleKind::PeepholeSubstituteAlternateSyntax, true, options);
    assert_eq!(
        rule,
        Rule {
            kind: RuleKind::PeepholeSubstituteAlternateSyntax,
            changed: false,
            in_fixed_loop: true,
            options: Some(options)
        }
    );
    rule.record(false);
    assert!(!rule.changed);
    rule.record(true);
    assert!(rule.changed);
    rule.record(false);
    assert!(rule.changed);
    assert_eq!(rule.options, Some(options));
    assert!(rule.in_fixed_loop);

    let plain = Rule::new(RuleKind::StatementFusion, true, options);
    assert_eq!(
        plain,
        Rule { kind: RuleKind::StatementFusion, changed: false, in_fixed_loop: false, options: None }
    );
}
