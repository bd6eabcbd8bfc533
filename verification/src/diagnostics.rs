//! Diagnostics: what a lint rule reports, as plain values, and its
//! conversion to the form that `oxc_diagnostics` prints.

use crate::jsx::Span;
use oxc_diagnostics::{OxcDiagnostic, OxcDiagnosticInner};
use vstd::prelude::*;

verus! {

/// `oxc_diagnostics::OxcDiagnostic`, a message for the user about a place in
/// the source. Opaque.
#[verifier::external_type_specification]
#[verifier::external_body]
pub struct ExOxcDiagnostic(OxcDiagnostic);

/// `oxc_diagnostics::OxcDiagnosticInner`, the boxed content that an
/// `OxcDiagnostic` dereferences to. Opaque, and declared only because the
/// outer type's `Deref` impl names it.
#[verifier::external_type_specification]
#[verifier::external_body]
pub struct ExOxcDiagnosticInner(OxcDiagnosticInner);

/// A warning about a place in the source.
#[derive(Clone, Copy, Debug, PartialEq, Eq)]
pub struct Diagnostic {
    /// What is wrong.
    pub message: &'static str,
    /// What to do about it.
    pub help: &'static str,
    /// The place that the warning points at.
    pub label: Span,
}

/// Calls `OxcDiagnostic::warn`, which makes a diagnostic of warning severity
/// with the given message. The diagnostic is opaque here: nothing is claimed
/// of it.
#[verifier::external_body]
pub(crate) fn warn(message: &'static str) -> OxcDiagnostic {
    OxcDiagnostic::warn(message)
}

/// Calls `OxcDiagnostic::with_help`, which attaches a suggestion to the
/// diagnostic. Nothing is claimed of the result.
#[verifier::external_body]
pub(crate) fn with_help(diagnostic: OxcDiagnostic, help: &'static str) -> OxcDiagnostic {
    diagnostic.with_help(help)
}

/// Calls `OxcDiagnostic::with_labels` with one label that underlines the
/// source from offset `start` to offset `end`. The label's length is `end`
/// less `start`, so `start` may not lie behind `end`. Nothing is claimed of
/// the result.
#[verifier::external_body]
pub(crate) fn with_labels(diagnostic: OxcDiagnostic, start: u32, end: u32) -> OxcDiagnostic
    requires
        start <= end,
{
    diagnostic.with_labels([oxc_span::Span::new(start, end)])
}

impl Diagnostic {
    /// The warning as an `OxcDiagnostic`, with its message, its help and one
    /// label at the place that it points at. There is none for a place
    /// whose start lies behind its end.
    pub fn to_oxc(&self) -> (diagnostic: Option<OxcDiagnostic>)
        ensures
            diagnostic.is_some() == (self.label.start <= self.label.end),
    {
        if self.label.start <= self.label.end {
            let diagnostic = with_help(warn(self.message), self.help);
            Some(with_labels(diagnostic, self.label.start, self.label.end))
        } else {
            None
        }
    }
}

} // verus!
