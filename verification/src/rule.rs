//! Rewrite rules as the pass managers see them: an identity, a slot in the
//! declared order, a configuration and a `changed` flag.

use vstd::prelude::*;

verus! {

/// The rewrite rules, listed in their declared order.
#[derive(Clone, Copy, Debug, PartialEq, Eq, Structural)]
pub enum RuleKind {
    StatementFusion,
    MinimizeExitPoints,
    ExploitAssigns,
    CollapseVariableDeclarations,
    PeepholeRemoveDeadCode,
    PeepholeMinimizeConditions,
    PeepholeSubstituteAlternateSyntax,
    PeepholeReplaceKnownMethods,
    PeepholeFoldConstants,
    ConvertToDottedProperties,
}

/// The points of a tree walk at which rules are invoked, one per node
/// category. All are exit hooks (fired after the node's descendants) except
/// `EnterCallExpression`, which fires before the callee and arguments are
/// visited.
#[derive(Clone, Copy, Debug, PartialEq, Eq, Structural)]
pub enum Hook {
    ExitProgram,
    ExitFunctionBody,
    ExitStatements,
    ExitStatement,
    ExitBlockStatement,
    ExitReturnStatement,
    ExitVariableDeclaration,
    ExitExpression,
    EnterCallExpression,
    ExitCallExpression,
    ExitPropertyKey,
    ExitMemberExpression,
    ExitCatchClause,
}

/// The three groups of the declared order: restructuring rules run before
/// simplification rules, which run before the final normalization of
/// syntactic form.
#[derive(Clone, Copy, Debug, PartialEq, Eq, Structural)]
pub enum Phase {
    Restructure,
    Simplify,
    Normalize,
}

/// Options that steer the rewrites.
#[derive(Clone, Copy, Debug, PartialEq, Eq, Structural)]
pub struct CompressOptions {
    pub drop_debugger: bool,
    pub drop_console: bool,
}

impl Phase {
    /// The place of the group in the declared order.
    pub open spec fn rank(self) -> nat {
        match self {
            Phase::Restructure => 0,
            Phase::Simplify => 1,
            Phase::Normalize => 2,
        }
    }
}

impl RuleKind {
    /// The number of rules.
    pub const COUNT: usize = 10;

    /// Position of the rule in the declared order.
    pub open spec fn position(self) -> nat {
        match self {
            RuleKind::StatementFusion => 0,
            RuleKind::MinimizeExitPoints => 1,
            RuleKind::ExploitAssigns => 2,
            RuleKind::CollapseVariableDeclarations => 3,
            RuleKind::PeepholeRemoveDeadCode => 4,
            RuleKind::PeepholeMinimizeConditions => 5,
            RuleKind::PeepholeSubstituteAlternateSyntax => 6,
            RuleKind::PeepholeReplaceKnownMethods => 7,
            RuleKind::PeepholeFoldConstants => 8,
            RuleKind::ConvertToDottedProperties => 9,
        }
    }

    /// The rule at a position of the declared order.
    pub open spec fn at(position: nat) -> RuleKind {
        if position == 0 {
            RuleKind::StatementFusion
        } else if position == 1 {
            RuleKind::MinimizeExitPoints
        } else if position == 2 {
            RuleKind::ExploitAssigns
        } else if position == 3 {
            RuleKind::CollapseVariableDeclarations
        } else if position == 4 {
            RuleKind::PeepholeRemoveDeadCode
        } else if position == 5 {
            RuleKind::PeepholeMinimizeConditions
        } else if position == 6 {
            RuleKind::PeepholeSubstituteAlternateSyntax
        } else if position == 7 {
            RuleKind::PeepholeReplaceKnownMethods
        } else if position == 8 {
            RuleKind::PeepholeFoldConstants
        } else {
            RuleKind::ConvertToDottedProperties
        }
    }

    /// The declared order as a sequence.
    pub open spec fn declared_order() -> Seq<RuleKind> {
        Seq::new(10, |i: int| RuleKind::at(i as nat))
    }

    /// The group of the declared order that the rule belongs to.
    pub open spec fn spec_phase(self) -> Phase {
        if self.position() <= 3 {
            Phase::Restructure
        } else if self.position() <= 8 {
            Phase::Simplify
        } else {
            Phase::Normalize
        }
    }

    /// Whether the rule is told that the code under transformation may run
    /// more than once.
    pub open spec fn takes_loop_flag(self) -> bool {
        self == RuleKind::PeepholeMinimizeConditions
            || self == RuleKind::PeepholeSubstituteAlternateSyntax
            || self == RuleKind::ConvertToDottedProperties
    }

    /// Whether the rule is handed the compression options.
    pub open spec fn takes_options(self) -> bool {
        self == RuleKind::PeepholeSubstituteAlternateSyntax
    }

    /// Position of the rule in the declared order.
    pub fn index(self) -> (i: usize)
        ensures
            i == self.position(),
            i < RuleKind::COUNT,
    {
        match self {
            RuleKind::StatementFusion => 0,
            RuleKind::MinimizeExitPoints => 1,
            RuleKind::ExploitAssigns => 2,
            RuleKind::CollapseVariableDeclarations => 3,
            RuleKind::PeepholeRemoveDeadCode => 4,
            RuleKind::PeepholeMinimizeConditions => 5,
            RuleKind::PeepholeSubstituteAlternateSyntax => 6,
            RuleKind::PeepholeReplaceKnownMethods => 7,
            RuleKind::PeepholeFoldConstants => 8,
            RuleKind::ConvertToDottedProperties => 9,
        }
    }

    /// The group of the declared order that the rule belongs to.
    pub fn phase(self) -> (p: Phase)
        ensures
            p == self.spec_phase(),
    {
        match self {
            RuleKind::StatementFusion
            | RuleKind::MinimizeExitPoints
            | RuleKind::ExploitAssigns
            | RuleKind::CollapseVariableDeclarations => Phase::Restructure,
            RuleKind::ConvertToDottedProperties => Phase::Normalize,
            _ => Phase::Simplify,
        }
    }

    /// `at` and `position` are inverse to each other: every rule has exactly
    /// one slot in the declared order.
    pub proof fn lemma_position_roundtrip(self)
        ensures
            self.position() < 10,
            RuleKind::at(self.position()) == self,
            forall|p: nat| p < 10 ==> (#[trigger] RuleKind::at(p)).position() == p,
    {
    }
}

/// The state the pass managers keep for one rule: which rule it is, how it
/// was configured, and whether it reported a rewrite since the last reset.
#[derive(Clone, Copy, Debug, PartialEq, Eq, Structural)]
pub struct Rule {
    pub kind: RuleKind,
    pub changed: bool,
    pub in_fixed_loop: bool,
    pub options: Option<CompressOptions>,
}

impl Rule {
    /// The freshly constructed state of a rule: the flag is clear, and the
    /// rule holds just the part of the configuration that it consumes.
    pub open spec fn fresh(kind: RuleKind, in_fixed_loop: bool, options: CompressOptions) -> Rule {
        Rule {
            kind,
            changed: false,
            in_fixed_loop: kind.takes_loop_flag() && in_fixed_loop,
            options: if kind.takes_options() {
                Some(options)
            } else {
                None
            },
        }
    }

    /// The state of a rule as constructed.
    pub fn new(kind: RuleKind, in_fixed_loop: bool, options: CompressOptions) -> (rule: Rule)
        ensures
            rule == Rule::fresh(kind, in_fixed_loop, options),
    {
        let takes_loop_flag = match kind {
            RuleKind::PeepholeMinimizeConditions
            | RuleKind::PeepholeSubstituteAlternateSyntax
            | RuleKind::ConvertToDottedProperties => true,
            _ => false,
        };
        let options = match kind {
            RuleKind::PeepholeSubstituteAlternateSyntax => Some(options),
            _ => None,
        };
        Rule { kind, changed: false, in_fixed_loop: takes_loop_flag && in_fixed_loop, options }
    }

    /// Records the outcome of one hook invocation. The flag is monotonic: a
    /// reported rewrite sets it, and an invocation that found nothing to
    /// rewrite leaves it as it was.
    pub fn record(&mut self, rewrote: bool)
        ensures
            final(self).changed == (old(self).changed || rewrote),
            final(self).kind == old(self).kind,
            final(self).in_fixed_loop == old(self).in_fixed_loop,
            final(self).options == old(self).options,
    {
        if rewrote {
            self.changed = true;
        }
    }
}

} // verus!
