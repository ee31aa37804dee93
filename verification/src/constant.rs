//! Exported constants, and the evaluation that stands between a host
//! constant and its exported form.

use vstd::prelude::*;
use crate::diagnostics::{evaluation_failure, unresolved_context, Diagnostic, DiagnosticModel};
use crate::portable::Portable;
use crate::source;
use crate::span::{spec_translate_span, translate_span, Span, SpanModel};
use crate::state::ParamEnv;

verus! {

/// The type of a constant.
#[derive(Clone, Copy, Debug, PartialEq, Eq, Structural)]
pub enum Ty {
    Bool,
    Char,
    Int,
    Uint,
}

/// A fully evaluated scalar.
#[derive(Clone, Copy, Debug, PartialEq, Eq, Structural)]
pub enum Literal {
    Bool(bool),
    Char(char),
    Int(i128),
    Uint(u128),
}

impl Portable for Ty {
    type Model = Ty;

    open spec fn model(&self) -> Ty {
        *self
    }
}

impl Portable for Literal {
    type Model = Literal;

    open spec fn model(&self) -> Literal {
        *self
    }
}

/// The shape of an exported expression.
#[derive(Clone, Copy, Debug, PartialEq, Eq, Structural)]
pub enum ExprKind {
    Literal(Literal),
}

/// An exported expression: a shape, with its type and the region it stands
/// in. A constant is exported as the expression of its value.
#[derive(Debug, PartialEq, Eq)]
pub struct Expr {
    pub ty: Ty,
    pub span: Span,
    pub contents: ExprKind,
}

/// What an [`Expr`] holds.
pub struct ExprModel {
    pub ty: Ty,
    pub span: SpanModel,
    pub contents: ExprKind,
}

impl Portable for Expr {
    type Model = ExprModel;

    open spec fn model(&self) -> ExprModel {
        ExprModel { ty: self.ty, span: self.span.model(), contents: self.contents }
    }
}

/// The value of a constant under an environment.
///
/// A known value is its own value. A parameter has the value that the
/// environment instantiates it with, and none where the environment leaves it
/// open. A constant that the host failed to force has none.
pub open spec fn spec_eval(c: &source::Const, env: &ParamEnv) -> Result<Literal, DiagnosticModel> {
    match c.kind {
        source::ConstKind::Value(v) => Ok(v),
        source::ConstKind::Param(index) => match env.spec_value_of(index) {
            Some(v) => Ok(v),
            None => Err(unresolved_context(spec_translate_span(&c.span))),
        },
        source::ConstKind::Error(description) => Err(
            evaluation_failure(spec_translate_span(&c.span), description@),
        ),
    }
}

/// Takes a constant from unevaluated to evaluated under `env`, or reports at
/// the constant's span why it has no value there.
pub fn eval(c: &source::Const, env: &ParamEnv) -> (r: Result<Literal, Diagnostic>)
    ensures
        r.model() == spec_eval(c, env),
{
    match &c.kind {
        source::ConstKind::Value(v) => Ok(*v),
        source::ConstKind::Param(index) => match env.value_of(*index) {
            Some(v) => Ok(v),
            None => Err(Diagnostic::unresolved_context(translate_span(&c.span))),
        },
        source::ConstKind::Error(description) => Err(
            Diagnostic::evaluation_failure(translate_span(&c.span), description),
        ),
    }
}

/// The expression of the value `x`, of type `ty`, at `span`.
pub open spec fn spec_const_to_constant_expr(x: Literal, ty: Ty, span: &source::Span) -> ExprModel {
    ExprModel { ty, span: spec_translate_span(span), contents: ExprKind::Literal(x) }
}

/// Rebuilds an evaluated constant as an expression.
pub fn const_to_constant_expr(x: Literal, ty: Ty, span: &source::Span) -> (r: Expr)
    ensures
        r.model() == spec_const_to_constant_expr(x, ty, span),
{
    Expr { ty, span: translate_span(span), contents: ExprKind::Literal(x) }
}

} // verus!
