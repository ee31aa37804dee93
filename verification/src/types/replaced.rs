//! Exported types that replace a host type by a simpler one, each with its
//! conversion written by hand.

use vstd::prelude::*;
use crate::constant::{
    const_to_constant_expr, eval, spec_const_to_constant_expr, spec_eval, Expr, ExprModel,
};
use crate::diagnostics::{Diagnostic, DiagnosticKind, DiagnosticModel};
use crate::sinto::SInto;
use crate::source;
use crate::state::State;

verus! {

pub type Path = Vec<String>;

pub type Symbol = String;

/// An identifier becomes its canonical text. This needs no state and cannot
/// fail.
impl<S> SInto<S, Symbol> for source::Symbol {
    open spec fn sinto_spec(&self, s: &S) -> Seq<char> {
        self.ident@
    }

    fn sinto(&self, _s: &S) -> (r: Symbol) {
        self.ident.clone()
    }
}

pub type Mutability = bool;

/// The host's mutability becomes a flag. The table is complete: `Mut` is
/// `true`, `Not` is `false`, and there is no third state.
impl<S> SInto<S, Mutability> for source::Mutability {
    open spec fn sinto_spec(&self, s: &S) -> bool {
        match self {
            source::Mutability::Mut => true,
            source::Mutability::Not => false,
        }
    }

    fn sinto(&self, _s: &S) -> (r: Mutability) {
        match self {
            source::Mutability::Mut => true,
            source::Mutability::Not => false,
        }
    }
}

pub type Const = Box<Expr>;

/// A constant is evaluated in the environment of the state, once, and its
/// value is exported as an expression of the constant's declared type at the
/// constant's span. A constant without a value there is reported instead.
impl SInto<State, Result<Const, Diagnostic>> for source::Const {
    open spec fn sinto_spec(&self, s: &State) -> Result<ExprModel, DiagnosticModel> {
        match spec_eval(self, &s.param_env) {
            Ok(x) => Ok(spec_const_to_constant_expr(x, self.ty, &self.span)),
            Err(d) => Err(d),
        }
    }

    fn sinto(&self, s: &State) -> (r: Result<Const, Diagnostic>) {
        match eval(self, &s.param_env) {
            Ok(x) => Ok(Box::new(const_to_constant_expr(x, self.ty, &self.span))),
            Err(d) => Err(d),
        }
    }
}

/// A constant converts alike under equivalent states: its export depends on
/// the state through the environment alone.
pub proof fn lemma_const_respects_equivalence(c: &source::Const, s1: &State, s2: &State)
    requires
        s1.equivalent(s2),
    ensures
        c.sinto_spec(s1) == c.sinto_spec(s2),
{
}

/// Under a concrete instantiation evaluation is total: a constant that the
/// host did not fail on, and that is no parameter left open by the
/// environment, is exported, as an expression of its declared type.
pub proof fn lemma_concrete_const_evaluates(c: &source::Const, s: &State)
    requires
        !(c.kind is Error),
        c.kind matches source::ConstKind::Param(index) ==> s.param_env.spec_value_of(index)
            is Some,
    ensures
        c.sinto_spec(s) is Ok,
        c.sinto_spec(s)->Ok_0.ty == c.ty,
{
}

/// What a constant's export can fail with, and on which constants: a
/// parameter that the environment leaves open is an unresolved context, a
/// constant that the host failed on is an evaluation failure, and no other
/// constant fails.
pub proof fn lemma_const_failures(c: &source::Const, s: &State)
    ensures
        c.sinto_spec(s) is Err <==> (c.kind is Error || (c.kind matches source::ConstKind::Param(
            index,
        ) && s.param_env.spec_value_of(index) is None)),
        c.sinto_spec(s) matches Err(d) ==> (d.kind == DiagnosticKind::EvaluationFailure
            <==> c.kind is Error) && (d.kind == DiagnosticKind::UnresolvedContext
            <==> c.kind is Param),
{
}

} // verus!
