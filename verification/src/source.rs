//! Plain images of the host compiler's values: what the engine reads of them.
//!
//! A host value lives inside the compiler's session and is opaque outside
//! it. Whoever drives the engine copies, for each node, the facts below out
//! of the session; the engine works on these copies alone.

use vstd::prelude::*;
use crate::constant::{Literal, Ty};
use crate::span::Loc;

verus! {

/// An identifier of the host, by its canonical text.
#[derive(Debug)]
pub struct Symbol {
    pub ident: String,
}

/// Whether a place may be written through, as the host records it.
#[derive(Clone, Copy, Debug, PartialEq, Eq, Structural)]
pub enum Mutability {
    Not,
    Mut,
}

/// A region of source text in the host's coordinates, together with its
/// expansion ancestry.
///
/// `call_site` is `None` for text that the user wrote. For text that a macro
/// expansion produced it is the span of the invocation, which may itself lie
/// in expanded text.
#[derive(Debug)]
pub struct Span {
    pub filename: String,
    pub lo: Loc,
    pub hi: Loc,
    pub call_site: Option<Box<Span>>,
}

impl Span {
    /// The number of expansions between this span and text that the user wrote.
    pub open spec fn depth(&self) -> nat
        decreases *self,
    {
        match self.call_site {
            None => 0,
            Some(parent) => 1 + parent.depth(),
        }
    }

    /// The span in user-written text at which the ancestry ends: the span
    /// itself where the user wrote it, else the outermost invocation.
    pub open spec fn root(&self) -> Span
        decreases *self,
    {
        match self.call_site {
            None => *self,
            Some(parent) => parent.root(),
        }
    }

    /// Whether a macro expansion produced the text of this span.
    pub fn from_expansion(&self) -> (r: bool)
        ensures
            r == (self.depth() > 0),
    {
        self.call_site.is_some()
    }
}

impl Clone for Span {
    fn clone(&self) -> (r: Span)
        ensures
            r == *self,
        decreases *self,
    {
        let call_site = match &self.call_site {
            None => None,
            Some(parent) => Some(Box::new((**parent).clone())),
        };
        Span { filename: self.filename.clone(), lo: self.lo, hi: self.hi, call_site }
    }
}

/// The delimiters around the arguments of a macro invocation.
#[derive(Debug)]
pub struct DelimSpan {
    pub open: Span,
    pub close: Span,
}

/// A macro invocation as the user wrote it.
#[derive(Debug)]
pub struct MacCall {
    /// The whole invocation, from the macro's name to the closing delimiter.
    pub span: Span,
    /// The delimiters of its arguments.
    pub args: DelimSpan,
}

/// What a constant of the host's type level stands for.
#[derive(Debug)]
pub enum ConstKind {
    /// A value that is already known.
    Value(Literal),
    /// The constant parameter with this number, of the item that the
    /// constant stands in.
    Param(usize),
    /// A constant that the host tried to force and could not, with the
    /// host's description of the failure.
    Error(String),
}

/// A constant of the host's type level, not yet evaluated.
#[derive(Debug)]
pub struct Const {
    /// The type that the constant was declared with.
    pub ty: Ty,
    /// Where the constant stands.
    pub span: Span,
    pub kind: ConstKind,
}

/// The kinds of item that the engine reads.
#[derive(Debug)]
pub enum ItemKind {
    /// A constant item, with its value.
    Const(Const),
    /// A static item, with its mutability and its initial value.
    Static(Mutability, Const),
    /// An item of a kind that has no image here, by the host's name for the
    /// kind.
    Other(String),
}

/// An item of the compilation unit.
#[derive(Debug)]
pub struct Item {
    pub ident: Symbol,
    pub span: Span,
    pub kind: ItemKind,
}

} // verus!
