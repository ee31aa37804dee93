//! Portable spans, and the attribution of expanded code to the macro call
//! that the user wrote.

use vstd::prelude::*;
use crate::portable::Portable;
use crate::sinto::SInto;
use crate::diagnostics::{macro_ancestry_overflow, Diagnostic, DiagnosticModel};
use crate::source;
use crate::state::State;

verus! {

/// A position in a file, by line and column.
#[derive(Clone, Copy, Debug, PartialEq, Eq, Structural)]
pub struct Loc {
    pub line: usize,
    pub col: usize,
}

/// A region of a source file, by the file's name and a range of positions.
/// It names nothing of the host and stays meaningful after the session.
#[derive(Debug, PartialEq, Eq)]
pub struct Span {
    pub filename: String,
    pub lo: Loc,
    pub hi: Loc,
}

/// What a [`Span`] holds.
pub struct SpanModel {
    pub filename: Seq<char>,
    pub lo: Loc,
    pub hi: Loc,
}

impl Portable for Loc {
    type Model = Loc;

    open spec fn model(&self) -> Loc {
        *self
    }
}

impl Portable for Span {
    type Model = SpanModel;

    open spec fn model(&self) -> SpanModel {
        SpanModel { filename: self.filename@, lo: self.lo, hi: self.hi }
    }
}

impl Clone for Span {
    fn clone(&self) -> (r: Span)
        ensures
            r == *self,
    {
        Span { filename: self.filename.clone(), lo: self.lo, hi: self.hi }
    }
}

impl Span {
    /// Whether two spans cover the same region of the same file.
    pub fn same_as(&self, other: &Span) -> (r: bool)
        ensures
            r == (self.model() == other.model()),
    {
        self.filename == other.filename && self.lo == other.lo && self.hi == other.hi
    }
}

/// The region that a host span covers, without regard to its ancestry.
pub open spec fn spec_translate_span(span: &source::Span) -> SpanModel {
    SpanModel { filename: span.filename@, lo: span.lo, hi: span.hi }
}

/// Maps a host span to the portable span of the same region. The ancestry is
/// left behind: for expanded code the result is the region of the expansion.
pub fn translate_span(span: &source::Span) -> (r: Span)
    ensures
        r.model() == spec_translate_span(span),
{
    Span { filename: span.filename.clone(), lo: span.lo, hi: span.hi }
}

impl<S> SInto<S, Span> for source::Span {
    open spec fn sinto_spec(&self, s: &S) -> SpanModel {
        spec_translate_span(self)
    }

    fn sinto(&self, _s: &S) -> (r: Span) {
        translate_span(self)
    }
}

/// The opening delimiter's span, stretched to the end of the closing one.
pub open spec fn spec_argument_span_of_mac_call(mac_call: &source::MacCall) -> source::Span {
    source::Span {
        filename: mac_call.args.open.filename,
        lo: mac_call.args.open.lo,
        hi: mac_call.args.close.hi,
        call_site: mac_call.args.open.call_site,
    }
}

/// The region of the arguments of a macro invocation: from the start of the
/// opening delimiter to the end of the closing one.
pub fn argument_span_of_mac_call(mac_call: &source::MacCall) -> (r: source::Span)
    ensures
        r == spec_argument_span_of_mac_call(mac_call),
{
    let open = mac_call.args.open.clone();
    source::Span {
        filename: open.filename,
        lo: open.lo,
        hi: mac_call.args.close.hi,
        call_site: open.call_site,
    }
}

/// The region to which the code at `span` is attributed.
///
/// Text that the user wrote keeps its own region. Text that macro expansions
/// produced is attributed to the outermost invocation, the one that stands in
/// user-written text: to the region of its arguments where the state has the
/// invocation on record, else to the invocation as a whole. A span that lies
/// under more expansions than the limit has no such region, and is reported.
pub open spec fn spec_macro_call_adjusted_span(span: &source::Span, s: &State) -> Result<
    SpanModel,
    DiagnosticModel,
> {
    if span.depth() > s.options.macro_depth_limit {
        Err(macro_ancestry_overflow(spec_translate_span(span)))
    } else if span.depth() == 0 {
        Ok(spec_translate_span(span))
    } else {
        let call_site = spec_translate_span(&span.root());
        match s.spec_argument_of(call_site) {
            Some(argument) => Ok(argument),
            None => Ok(call_site),
        }
    }
}

/// Walks the expansion ancestry of `span` outward, one invocation after the
/// other, until it reaches user-written text or has taken as many steps as
/// the limit allows, and attributes the span accordingly.
pub fn macro_call_adjusted_span(span: &source::Span, s: &State) -> (r: Result<Span, Diagnostic>)
    ensures
        r.model() == spec_macro_call_adjusted_span(span, s),
        r is Err <==> span.depth() > s.options.macro_depth_limit,
{
    let limit: usize = s.options.macro_depth_limit;
    let mut current: &source::Span = span;
    let mut steps: usize = 0;
    loop
        invariant
            limit == s.options.macro_depth_limit,
            steps <= limit,
            current.depth() + steps == span.depth(),
            current.root() == span.root(),
        decreases current.depth(),
    {
        match &current.call_site {
            None => {
                if steps == 0 {
                    return Ok(translate_span(span));
                }
                let call_site = translate_span(current);
                return match s.argument_of(&call_site) {
                    Some(argument) => Ok(argument),
                    None => Ok(call_site),
                };
            },
            Some(parent) => {
                if steps >= limit {
                    return Err(Diagnostic::macro_ancestry_overflow(translate_span(span)));
                }
                current = &**parent;
                steps += 1;
            },
        }
    }
}

/// A span is attributed alike under equivalent states.
pub proof fn lemma_adjusted_span_respects_equivalence(
    span: &source::Span,
    s1: &State,
    s2: &State,
)
    requires
        s1.equivalent(s2),
    ensures
        spec_macro_call_adjusted_span(span, s1) == spec_macro_call_adjusted_span(span, s2),
{
}

/// The ancestry walk ends on every span: a span under more expansions than
/// the limit is reported as an overflow at its own region, and every other
/// span is attributed to some region.
pub proof fn lemma_ancestry_overflow(span: &source::Span, s: &State)
    ensures
        span.depth() > s.options.macro_depth_limit ==> spec_macro_call_adjusted_span(span, s)
            == Err::<SpanModel, DiagnosticModel>(
            macro_ancestry_overflow(spec_translate_span(span)),
        ),
        span.depth() <= s.options.macro_depth_limit ==> spec_macro_call_adjusted_span(span, s)
            is Ok,
{
}

} // verus!
