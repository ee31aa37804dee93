//! The translation state that every conversion is given.

use vstd::prelude::*;
use crate::constant::Literal;
use crate::portable::Portable;
use crate::source;
use crate::span::{
    argument_span_of_mac_call, spec_argument_span_of_mac_call, spec_translate_span,
    translate_span, Span, SpanModel,
};

verus! {

/// Settings of one export.
#[derive(Clone, Copy, Debug, PartialEq, Eq, Structural)]
pub struct Options {
    /// The largest number of macro expansions that a span may lie under.
    pub macro_depth_limit: usize,
}

/// The generic parameters that are instantiated where the conversion stands:
/// entry `i` holds the value of constant parameter `i`, if it has one here.
#[derive(Debug)]
pub struct ParamEnv {
    pub consts: Vec<Option<Literal>>,
}

impl ParamEnv {
    /// The value that the environment gives to parameter `index`.
    pub open spec fn spec_value_of(&self, index: usize) -> Option<Literal> {
        if index < self.consts@.len() {
            self.consts@[index as int]
        } else {
            None
        }
    }

    /// Looks up the value of parameter `index`; a parameter beyond the
    /// entries of the environment has none.
    pub fn value_of(&self, index: usize) -> (r: Option<Literal>)
        ensures
            r == self.spec_value_of(index),
    {
        if index < self.consts.len() {
            self.consts[index]
        } else {
            None
        }
    }
}

/// A macro invocation that the user wrote: where it stands, and the region
/// of its arguments.
#[derive(Debug)]
pub struct MacroInfo {
    pub call_site: Span,
    pub argument: Span,
}

/// The state of one export: its settings, the generic environment in force,
/// and the macro invocations recorded so far.
#[derive(Debug)]
pub struct State {
    pub options: Options,
    pub param_env: ParamEnv,
    pub macro_infos: Vec<MacroInfo>,
}

/// The record as a map from the region of an invocation to the region of its
/// arguments; of two records for one invocation the later one counts.
pub open spec fn macro_map(infos: Seq<MacroInfo>) -> Map<SpanModel, SpanModel>
    decreases infos.len(),
{
    if infos.len() == 0 {
        Map::empty()
    } else {
        macro_map(infos.drop_last()).insert(
            infos.last().call_site.model(),
            infos.last().argument.model(),
        )
    }
}

impl State {
    /// The argument region on record for the invocation at `call_site`.
    pub open spec fn spec_argument_of(&self, call_site: SpanModel) -> Option<SpanModel> {
        let recorded = macro_map(self.macro_infos@);
        if recorded.dom().contains(call_site) {
            Some(recorded[call_site])
        } else {
            None
        }
    }

    /// Two states are equivalent when no conversion can tell them apart: they
    /// have the same settings, instantiate the same parameters with the same
    /// values, and have the same argument regions on record.
    pub open spec fn equivalent(&self, other: &State) -> bool {
        &&& self.options == other.options
        &&& forall|i: usize| self.param_env.spec_value_of(i) == other.param_env.spec_value_of(i)
        &&& macro_map(self.macro_infos@) =~= macro_map(other.macro_infos@)
    }

    /// A state with nothing on record yet.
    pub fn new(options: Options, param_env: ParamEnv) -> (s: State)
        ensures
            s.options == options,
            s.param_env == param_env,
            s.macro_infos@.len() == 0,
    {
        State { options, param_env, macro_infos: Vec::new() }
    }

    /// Puts a macro invocation on record, with the region of its arguments.
    pub fn record_macro_call(&mut self, mac_call: &source::MacCall)
        ensures
            final(self).options == old(self).options,
            final(self).param_env == old(self).param_env,
            final(self).macro_infos@.len() == old(self).macro_infos@.len() + 1,
            final(self).macro_infos@.drop_last() == old(self).macro_infos@,
            macro_map(final(self).macro_infos@) == macro_map(old(self).macro_infos@).insert(
                spec_translate_span(&mac_call.span),
                spec_translate_span(&spec_argument_span_of_mac_call(mac_call)),
            ),
    {
        let call_site = translate_span(&mac_call.span);
        let argument = translate_span(&argument_span_of_mac_call(mac_call));
        self.macro_infos.push(MacroInfo { call_site, argument });
        assert(self.macro_infos@.drop_last() =~= old(self).macro_infos@);
    }

    /// Looks up the argument region of the macro invocation at `call_site`.
    pub fn argument_of(&self, call_site: &Span) -> (r: Option<Span>)
        ensures
            r.model() == self.spec_argument_of(call_site.model()),
    {
        let ghost all = self.macro_infos@;
        let mut i: usize = self.macro_infos.len();
        assert(all.take(i as int) =~= all);
        while i > 0
            invariant
                i <= self.macro_infos@.len(),
                all == self.macro_infos@,
                macro_map(all).dom().contains(call_site.model()) == macro_map(
                    all.take(i as int),
                ).dom().contains(call_site.model()),
                macro_map(all).dom().contains(call_site.model()) ==> macro_map(
                    all,
                )[call_site.model()] == macro_map(all.take(i as int))[call_site.model()],
            decreases i,
        {
            assert(all.take(i as int).drop_last() =~= all.take(i - 1));
            i -= 1;
            if self.macro_infos[i].call_site.same_as(call_site) {
                return Some(self.macro_infos[i].argument.clone());
            }
        }
        assert(all.take(0).len() == 0);
        None
    }
}

} // verus!
