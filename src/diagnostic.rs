//! Findings of the analysis passes.
use vstd::prelude::*;

use crate::ast::Location;

verus! {

/// How serious a finding is.
#[derive(Clone, Copy, Debug, PartialEq, Eq)]
pub enum Severity {
    Error,
    Warning,
    Information,
    Hint,
}

/// A finding of an analysis pass: a code, a message for the user, a severity
/// and the span of source text it is about.
#[derive(Debug, PartialEq, Eq)]
pub struct Diagnostic {
    pub code: String,
    pub message: String,
    pub severity: Severity,
    pub location: Location,
}

/// A diagnostic with its strings seen as sequences of characters.
pub struct DiagnosticView {
    pub code: Seq<char>,
    pub message: Seq<char>,
    pub severity: Severity,
    pub location: Location,
}

impl View for Diagnostic {
    type V = DiagnosticView;

    open spec fn view(&self) -> DiagnosticView {
        DiagnosticView {
            code: self.code@,
            message: self.message@,
            severity: self.severity,
            location: self.location,
        }
    }
}

/// The views of a sequence of diagnostics, in order.
pub open spec fn views(s: Seq<Diagnostic>) -> Seq<DiagnosticView> {
    s.map_values(|d: Diagnostic| d@)
}

/// Appending a diagnostic appends its view.
pub proof fn lemma_views_push(s: Seq<Diagnostic>, d: Diagnostic)
    ensures
        views(s.push(d)) == views(s).push(d@),
{
    assert(views(s.push(d)) =~= views(s).push(d@));
}

} // verus!
