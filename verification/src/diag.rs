use vstd::prelude::*;
use crate::ast::Span;

verus! {

#[derive(Clone, Copy, PartialEq, Eq, Structural, Debug)]
pub enum Severity {
    Warning,
    Error,
}

/// What a diagnostic reports. The core never renders text; the caller's
/// emitter turns the kind into a message and the span into a position.
#[derive(Clone, Copy, PartialEq, Eq, Structural, Debug)]
pub enum DiagnosticKind {
    /// A call matched the target signature but stood in a position the
    /// signature does not allow.
    InvalidTargetContext,
}

/// An error or warning tied to a source span, accumulated across one
/// traversal.
#[derive(Clone, Copy, PartialEq, Eq, Structural, Debug)]
pub struct Diagnostic {
    pub span: Span,
    pub severity: Severity,
    pub kind: DiagnosticKind,
}

/// The diagnostic recorded for a target-shaped call in a disallowed
/// position.
pub open spec fn invalid_context_diag(span: Span) -> Diagnostic {
    Diagnostic { span, severity: Severity::Error, kind: DiagnosticKind::InvalidTargetContext }
}

impl DiagnosticKind {
    pub open spec fn spec_message(self) -> Seq<char> {
        match self {
            DiagnosticKind::InvalidTargetContext => "target call in a position the signature does not allow"@,
        }
    }

    /// A fixed description of the kind, for the caller's emitter.
    pub fn message(&self) -> (m: &'static str)
        ensures
            m@ == self.spec_message(),
    {
        match self {
            DiagnosticKind::InvalidTargetContext => "target call in a position the signature does not allow",
        }
    }
}

} // verus!
