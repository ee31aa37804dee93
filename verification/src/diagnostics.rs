//! What the engine reports when a node cannot be exported as it stands.

use vstd::prelude::*;
use crate::portable::Portable;
use crate::span::{Span, SpanModel};

verus! {

/// How much a diagnostic weighs: an export fails on an `Error`, not on a
/// `Warning`.
#[derive(Clone, Copy, Debug, PartialEq, Eq, Structural)]
pub enum Severity {
    Warning,
    Error,
}

/// The ways in which the translation of a node fails.
#[derive(Clone, Copy, Debug, PartialEq, Eq, Structural)]
pub enum DiagnosticKind {
    /// The node is of a variant for which no conversion is defined.
    UnsupportedNode,
    /// The conversion needed a generic instantiation that is not known here.
    UnresolvedContext,
    /// A constant could not be forced to a value.
    EvaluationFailure,
    /// A span lies under more macro expansions than the limit allows.
    MacroAncestryOverflow,
}

/// One report, tied to the region of source text that it is about.
#[derive(Debug, PartialEq, Eq)]
pub struct Diagnostic {
    pub kind: DiagnosticKind,
    pub severity: Severity,
    pub span: Span,
    pub message: String,
}

/// What a [`Diagnostic`] holds.
pub struct DiagnosticModel {
    pub kind: DiagnosticKind,
    pub severity: Severity,
    pub span: SpanModel,
    pub message: Seq<char>,
}

impl Portable for Diagnostic {
    type Model = DiagnosticModel;

    open spec fn model(&self) -> DiagnosticModel {
        DiagnosticModel {
            kind: self.kind,
            severity: self.severity,
            span: self.span.model(),
            message: self.message@,
        }
    }
}

/// The report that a node at `span` is of the variant `what`, which the
/// engine does not convert.
pub open spec fn unsupported_node(span: SpanModel, what: Seq<char>) -> DiagnosticModel {
    DiagnosticModel {
        kind: DiagnosticKind::UnsupportedNode,
        severity: Severity::Error,
        span,
        message: what,
    }
}

/// The report that the node at `span` depends on a generic parameter that
/// the environment does not instantiate.
pub open spec fn unresolved_context(span: SpanModel) -> DiagnosticModel {
    DiagnosticModel {
        kind: DiagnosticKind::UnresolvedContext,
        severity: Severity::Error,
        span,
        message: "generic parameter is not instantiated in this environment"@,
    }
}

/// The report that the constant at `span` could not be evaluated, with the
/// evaluator's own description of the failure.
pub open spec fn evaluation_failure(span: SpanModel, description: Seq<char>) -> DiagnosticModel {
    DiagnosticModel {
        kind: DiagnosticKind::EvaluationFailure,
        severity: Severity::Error,
        span,
        message: description,
    }
}

/// The report that the expansion ancestry of `span` is deeper than the limit.
pub open spec fn macro_ancestry_overflow(span: SpanModel) -> DiagnosticModel {
    DiagnosticModel {
        kind: DiagnosticKind::MacroAncestryOverflow,
        severity: Severity::Error,
        span,
        message: "macro expansion ancestry exceeds the depth limit"@,
    }
}

impl Clone for Diagnostic {
    fn clone(&self) -> (r: Diagnostic)
        ensures
            r == *self,
    {
        Diagnostic {
            kind: self.kind,
            severity: self.severity,
            span: self.span.clone(),
            message: self.message.clone(),
        }
    }
}

impl Diagnostic {
    pub fn unsupported_node(span: Span, what: &String) -> (d: Diagnostic)
        ensures
            d.model() == unsupported_node(span.model(), what@),
    {
        Diagnostic {
            kind: DiagnosticKind::UnsupportedNode,
            severity: Severity::Error,
            span,
            message: what.clone(),
        }
    }

    pub fn unresolved_context(span: Span) -> (d: Diagnostic)
        ensures
            d.model() == unresolved_context(span.model()),
    {
        Diagnostic {
            kind: DiagnosticKind::UnresolvedContext,
            severity: Severity::Error,
            span,
            message: "generic parameter is not instantiated in this environment".to_owned(),
        }
    }

    pub fn evaluation_failure(span: Span, description: &String) -> (d: Diagnostic)
        ensures
            d.model() == evaluation_failure(span.model(), description@),
    {
        Diagnostic {
            kind: DiagnosticKind::EvaluationFailure,
            severity: Severity::Error,
            span,
            message: description.clone(),
        }
    }

    pub fn macro_ancestry_overflow(span: Span) -> (d: Diagnostic)
        ensures
            d.model() == macro_ancestry_overflow(span.model()),
    {
        Diagnostic {
            kind: DiagnosticKind::MacroAncestryOverflow,
            severity: Severity::Error,
            span,
            message: "macro expansion ancestry exceeds the depth limit".to_owned(),
        }
    }

    /// Whether this diagnostic makes the export fail.
    pub fn is_error(&self) -> (r: bool)
        ensures
            r == (self.model().severity == Severity::Error),
    {
        match self.severity {
            Severity::Error => true,
            Severity::Warning => false,
        }
    }
}

} // verus!
