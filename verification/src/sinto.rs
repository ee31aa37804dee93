//! The conversion relation and its structural instances.

use vstd::prelude::*;
use crate::portable::Portable;

verus! {

/// "A value of this type can be converted, given a state `S`, into the
/// exported type `To`."
///
/// `sinto_spec` is the exported value that the node denotes under the state;
/// `sinto` computes it. A conversion is therefore a function of the node and
/// the state alone.
pub trait SInto<S, To: Portable> {
    spec fn sinto_spec(&self, s: &S) -> To::Model;

    fn sinto(&self, s: &S) -> (r: To)
        ensures
            r.model() == self.sinto_spec(s),
    ;
}

/// Determinism: two conversions of one node under one state give
/// structurally equal values.
pub proof fn lemma_sinto_deterministic<S, To: Portable, A: SInto<S, To>>(
    node: &A,
    s: &S,
    first: To,
    second: To,
)
    requires
        first.model() == node.sinto_spec(s),
        second.model() == node.sinto_spec(s),
    ensures
        first.model() == second.model(),
{
}

/// An optional child is converted when it is there.
impl<S, B: Portable, A: SInto<S, B>> SInto<S, Option<B>> for Option<A> {
    open spec fn sinto_spec(&self, s: &S) -> Option<B::Model> {
        match self {
            Some(a) => Some(a.sinto_spec(s)),
            None => None,
        }
    }

    fn sinto(&self, s: &S) -> (r: Option<B>) {
        match self {
            Some(a) => Some(a.sinto(s)),
            None => None,
        }
    }
}

/// A boxed child is converted in place.
impl<S, B: Portable, A: SInto<S, B>> SInto<S, Box<B>> for Box<A> {
    open spec fn sinto_spec(&self, s: &S) -> B::Model {
        (**self).sinto_spec(s)
    }

    fn sinto(&self, s: &S) -> (r: Box<B>) {
        Box::new((**self).sinto(s))
    }
}

/// A list of children is converted child by child, in order.
impl<S, B: Portable, A: SInto<S, B>> SInto<S, Vec<B>> for Vec<A> {
    open spec fn sinto_spec(&self, s: &S) -> Seq<B::Model> {
        Seq::new(self@.len(), |i: int| self@[i].sinto_spec(s))
    }

    fn sinto(&self, s: &S) -> (r: Vec<B>) {
        let mut out: Vec<B> = Vec::new();
        let mut i: usize = 0;
        while i < self.len()
            invariant
                i <= self@.len(),
                out@.len() == i,
                forall|j: int| 0 <= j < i ==> (#[trigger] out@[j]).model() == self@[j].sinto_spec(s),
            decreases self@.len() - i,
        {
            out.push(self[i].sinto(s));
            i += 1;
        }
        assert(out.model() =~= self.sinto_spec(s));
        out
    }
}

} // verus!
