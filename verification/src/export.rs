//! Exported items, and the export of a compilation unit's item list.

use vstd::prelude::*;
use crate::constant::ExprModel;
use crate::diagnostics::{unsupported_node, Diagnostic, DiagnosticKind, DiagnosticModel, Severity};
use crate::portable::Portable;
use crate::sinto::SInto;
use crate::source;
use crate::span::{
    macro_call_adjusted_span, spec_macro_call_adjusted_span, spec_translate_span,
    translate_span, Span, SpanModel,
};
use crate::state::State;
use crate::types::replaced::{Const, Mutability, Symbol};

verus! {

/// The kinds of exported item.
#[derive(Debug, PartialEq, Eq)]
pub enum ItemKind {
    Const(Const),
    Static(Mutability, Const),
}

/// What an [`ItemKind`] holds.
pub enum ItemKindModel {
    Const(ExprModel),
    Static(bool, ExprModel),
}

impl Portable for ItemKind {
    type Model = ItemKindModel;

    open spec fn model(&self) -> ItemKindModel {
        match self {
            ItemKind::Const(c) => ItemKindModel::Const(c.model()),
            ItemKind::Static(m, c) => ItemKindModel::Static(*m, c.model()),
        }
    }
}

/// An exported item.
#[derive(Debug, PartialEq, Eq)]
pub struct Item {
    pub ident: Symbol,
    pub span: Span,
    pub kind: ItemKind,
}

/// What an [`Item`] holds.
pub struct ItemModel {
    pub ident: Seq<char>,
    pub span: SpanModel,
    pub kind: ItemKindModel,
}

impl Portable for Item {
    type Model = ItemModel;

    open spec fn model(&self) -> ItemModel {
        ItemModel { ident: self.ident@, span: self.span.model(), kind: self.kind.model() }
    }
}

/// The exported kind of an item: the kind of the same name, with each part
/// converted. An item of a kind without an image is reported at its span.
pub open spec fn spec_item_kind(item: &source::Item, s: &State) -> Result<
    ItemKindModel,
    DiagnosticModel,
> {
    match item.kind {
        source::ItemKind::Const(c) => match c.sinto_spec(s) {
            Ok(e) => Ok(ItemKindModel::Const(e)),
            Err(d) => Err(d),
        },
        source::ItemKind::Static(m, c) => match c.sinto_spec(s) {
            Ok(e) => Ok(ItemKindModel::Static(m.sinto_spec(s), e)),
            Err(d) => Err(d),
        },
        source::ItemKind::Other(what) => Err(
            unsupported_node(spec_translate_span(&item.span), what@),
        ),
    }
}

fn item_kind(item: &source::Item, s: &State) -> (r: Result<ItemKind, Diagnostic>)
    ensures
        r.model() == spec_item_kind(item, s),
{
    match &item.kind {
        source::ItemKind::Const(c) => {
            let value: Result<Const, Diagnostic> = c.sinto(s);
            match value {
                Ok(e) => Ok(ItemKind::Const(e)),
                Err(d) => Err(d),
            }
        },
        source::ItemKind::Static(m, c) => {
            let value: Result<Const, Diagnostic> = c.sinto(s);
            match value {
                Ok(e) => Ok(ItemKind::Static(m.sinto(s), e)),
                Err(d) => Err(d),
            }
        },
        source::ItemKind::Other(what) => Err(
            Diagnostic::unsupported_node(translate_span(&item.span), what),
        ),
    }
}

/// An item is converted part by part: its name, its span, and its kind. The
/// span is the region of the item as it stands, expanded or not.
impl SInto<State, Result<Item, Diagnostic>> for source::Item {
    open spec fn sinto_spec(&self, s: &State) -> Result<ItemModel, DiagnosticModel> {
        match spec_item_kind(self, s) {
            Ok(kind) => Ok(
                ItemModel { ident: self.ident.sinto_spec(s), span: self.span.sinto_spec(s), kind },
            ),
            Err(d) => Err(d),
        }
    }

    fn sinto(&self, s: &State) -> (r: Result<Item, Diagnostic>) {
        match item_kind(self, s) {
            Ok(kind) => Ok(Item { ident: self.ident.sinto(s), span: self.span.sinto(s), kind }),
            Err(d) => Err(d),
        }
    }
}

/// The export of one item with macro invocations inlined: the item as
/// [`SInto`] converts it, but at the span that
/// [`spec_macro_call_adjusted_span`] attributes it to. An item under too many
/// expansions is reported, whatever its kind.
pub open spec fn spec_inline_item(item: &source::Item, s: &State) -> Result<
    ItemModel,
    DiagnosticModel,
> {
    match spec_macro_call_adjusted_span(&item.span, s) {
        Ok(span) => match spec_item_kind(item, s) {
            Ok(kind) => Ok(ItemModel { ident: item.ident.sinto_spec(s), span, kind }),
            Err(d) => Err(d),
        },
        Err(d) => Err(d),
    }
}

/// Exports one item of an expansion in place of the invocation.
pub fn inline_item(item: &source::Item, s: &State) -> (r: Result<Item, Diagnostic>)
    ensures
        r.model() == spec_inline_item(item, s),
{
    match macro_call_adjusted_span(&item.span, s) {
        Ok(span) => match item_kind(item, s) {
            Ok(kind) => Ok(Item { ident: item.ident.sinto(s), span, kind }),
            Err(d) => Err(d),
        },
        Err(d) => Err(d),
    }
}

/// The outcome of exporting a compilation unit: the items that could be
/// exported, and a diagnostic for each one that could not, both in the order
/// of the unit.
#[derive(Debug, PartialEq, Eq)]
pub struct Export {
    pub items: Vec<Item>,
    pub diagnostics: Vec<Diagnostic>,
}

/// What an [`Export`] holds.
pub struct ExportModel {
    pub items: Seq<ItemModel>,
    pub diagnostics: Seq<DiagnosticModel>,
}

impl ExportModel {
    /// The export with nothing in it.
    pub open spec fn empty() -> ExportModel {
        ExportModel { items: Seq::empty(), diagnostics: Seq::empty() }
    }

    /// The export after one more outcome: an item joins the items, a
    /// diagnostic the diagnostics.
    pub open spec fn record(self, outcome: Result<ItemModel, DiagnosticModel>) -> ExportModel {
        match outcome {
            Ok(item) => ExportModel { items: self.items.push(item), diagnostics: self.diagnostics },
            Err(d) => ExportModel { items: self.items, diagnostics: self.diagnostics.push(d) },
        }
    }

    /// An export succeeded when none of its diagnostics is an error.
    pub open spec fn succeeded(self) -> bool {
        forall|i: int|
            0 <= i < self.diagnostics.len() ==> (#[trigger] self.diagnostics[i]).severity
                != Severity::Error
    }
}

impl Portable for Export {
    type Model = ExportModel;

    open spec fn model(&self) -> ExportModel {
        ExportModel { items: self.items.model(), diagnostics: self.diagnostics.model() }
    }
}

impl Export {
    /// An export with nothing in it.
    pub fn new() -> (r: Export)
        ensures
            r.model() == ExportModel::empty(),
    {
        let r = Export { items: Vec::new(), diagnostics: Vec::new() };
        assert(r.model().items =~= Seq::empty());
        assert(r.model().diagnostics =~= Seq::empty());
        r
    }

    /// Takes in the outcome of one conversion. Nothing that was recorded
    /// before is changed or dropped.
    pub fn record(&mut self, outcome: Result<Item, Diagnostic>)
        ensures
            final(self).model() == old(self).model().record(outcome.model()),
    {
        match outcome {
            Ok(item) => {
                self.items.push(item);
                assert(self.model().items =~= old(self).model().items.push(item.model()));
                assert(self.model().diagnostics =~= old(self).model().diagnostics);
            },
            Err(d) => {
                self.diagnostics.push(d);
                assert(self.model().diagnostics =~= old(self).model().diagnostics.push(d.model()));
                assert(self.model().items =~= old(self).model().items);
            },
        }
    }

    /// Whether the export succeeded: whether no error was recorded.
    pub fn succeeded(&self) -> (r: bool)
        ensures
            r == self.model().succeeded(),
    {
        let mut i: usize = 0;
        while i < self.diagnostics.len()
            invariant
                i <= self.diagnostics@.len(),
                forall|j: int|
                    0 <= j < i ==> (#[trigger] self.model().diagnostics[j]).severity
                        != Severity::Error,
            decreases self.diagnostics@.len() - i,
        {
            if self.diagnostics[i].is_error() {
                assert(self.model().diagnostics[i as int].severity == Severity::Error);
                return false;
            }
            i += 1;
        }
        true
    }
}

/// The export of an item list with macro invocations inlined: the outcomes
/// of [`spec_inline_item`] on the items, recorded from first to last.
pub open spec fn spec_inline_macro_invocations(items: Seq<source::Item>, s: &State) -> ExportModel
    decreases items.len(),
{
    if items.len() == 0 {
        ExportModel::empty()
    } else {
        spec_inline_macro_invocations(items.drop_last(), s).record(
            spec_inline_item(&items.last(), s),
        )
    }
}

/// Exports the items of a compilation unit. Items that macro expansions
/// produced are exported like the others, in place, each at the span of the
/// invocation that the user wrote. An item that cannot be exported leaves a
/// diagnostic and does not stop the export of the items after it.
pub fn inline_macro_invocations(items: &Vec<source::Item>, s: &State) -> (r: Export)
    ensures
        r.model() == spec_inline_macro_invocations(items@, s),
{
    let mut export = Export::new();
    let mut i: usize = 0;
    while i < items.len()
        invariant
            i <= items@.len(),
            export.model() == spec_inline_macro_invocations(items@.take(i as int), s),
        decreases items@.len() - i,
    {
        assert(items@.take(i + 1).drop_last() =~= items@.take(i as int));
        export.record(inline_item(&items[i], s));
        i += 1;
    }
    assert(items@.take(i as int) =~= items@);
    export
}

/// Totality of the catalogue: an item is reported as unsupported exactly
/// when its kind has no image.
pub proof fn lemma_unsupported_only_without_image(item: &source::Item, s: &State)
    ensures
        (item.sinto_spec(s) matches Err(d) && d.kind == DiagnosticKind::UnsupportedNode)
            <==> item.kind is Other,
        (spec_inline_item(item, s) matches Err(d) && d.kind == DiagnosticKind::UnsupportedNode)
            ==> item.kind is Other,
{
}

/// An item converts alike under equivalent states, inlined or not.
pub proof fn lemma_item_respects_equivalence(item: &source::Item, s1: &State, s2: &State)
    requires
        s1.equivalent(s2),
    ensures
        item.sinto_spec(s1) == item.sinto_spec(s2),
        spec_inline_item(item, s1) == spec_inline_item(item, s2),
{
}

/// Stability: two exports of one item list under equivalent states hold the
/// same items and the same diagnostics.
pub proof fn lemma_export_respects_equivalence(items: Seq<source::Item>, s1: &State, s2: &State)
    requires
        s1.equivalent(s2),
    ensures
        spec_inline_macro_invocations(items, s1) == spec_inline_macro_invocations(items, s2),
    decreases items.len(),
{
    if items.len() > 0 {
        lemma_export_respects_equivalence(items.drop_last(), s1, s2);
        lemma_item_respects_equivalence(&items.last(), s1, s2);
    }
}

/// Nothing is dropped: every item of the list is either exported or reported,
/// and every report is an error.
pub proof fn lemma_export_accounts_for_every_item(items: Seq<source::Item>, s: &State)
    ensures
        spec_inline_macro_invocations(items, s).items.len() + spec_inline_macro_invocations(
            items,
            s,
        ).diagnostics.len() == items.len(),
        forall|j: int|
            0 <= j < spec_inline_macro_invocations(items, s).diagnostics.len() ==> (
            #[trigger] spec_inline_macro_invocations(items, s).diagnostics[j]).severity
                == Severity::Error,
    decreases items.len(),
{
    if items.len() > 0 {
        lemma_export_accounts_for_every_item(items.drop_last(), s);
    }
}

/// An export succeeds exactly when every item of the list is exported.
pub proof fn lemma_export_succeeds_iff_complete(items: Seq<source::Item>, s: &State)
    ensures
        spec_inline_macro_invocations(items, s).succeeded() <==> forall|i: int|
            0 <= i < items.len() ==> spec_inline_item(&#[trigger] items[i], s) is Ok,
    decreases items.len(),
{
    let export = spec_inline_macro_invocations(items, s);
    lemma_export_accounts_for_every_item(items, s);
    lemma_export_reports(items, s);
    if export.succeeded() {
        assert(export.diagnostics.len() == 0) by {
            if export.diagnostics.len() > 0 {
                assert(export.diagnostics[0].severity == Severity::Error);
            }
        }
    }
}

/// The export holds a diagnostic exactly when some item of the list is not
/// exported.
pub proof fn lemma_export_reports(items: Seq<source::Item>, s: &State)
    ensures
        spec_inline_macro_invocations(items, s).diagnostics.len() == 0 <==> forall|i: int|
            0 <= i < items.len() ==> spec_inline_item(&#[trigger] items[i], s) is Ok,
    decreases items.len(),
{
    if items.len() > 0 {
        let before = items.drop_last();
        lemma_export_reports(before, s);
        assert(forall|i: int| 0 <= i < before.len() ==> before[i] == items[i]);
        if spec_inline_macro_invocations(items, s).diagnostics.len() == 0 {
            assert forall|i: int| 0 <= i < items.len() implies spec_inline_item(
                &#[trigger] items[i],
                s,
            ) is Ok by {
                if i < before.len() {
                    assert(before[i] == items[i]);
                } else {
                    assert(items[i] == items.last());
                }
            }
        } else {
            if spec_inline_item(&items.last(), s) is Ok {
                let i = choose|i: int|
                    0 <= i < before.len() && !(spec_inline_item(&#[trigger] before[i], s) is Ok);
                assert(before[i] == items[i]);
            } else {
                assert(items[items.len() - 1] == items.last());
            }
        }
    }
}

/// Totality over a unit: where every item of the list is of a kind with an
/// image, no diagnostic of the export is an unsupported node.
pub proof fn lemma_export_total_on_catalogue(items: Seq<source::Item>, s: &State)
    requires
        forall|i: int| 0 <= i < items.len() ==> !((#[trigger] items[i]).kind is Other),
    ensures
        forall|j: int|
            0 <= j < spec_inline_macro_invocations(items, s).diagnostics.len() ==> (
            #[trigger] spec_inline_macro_invocations(items, s).diagnostics[j]).kind
                != DiagnosticKind::UnsupportedNode,
    decreases items.len(),
{
    if items.len() > 0 {
        let before = items.drop_last();
        assert(forall|i: int| 0 <= i < before.len() ==> before[i] == items[i]);
        lemma_export_total_on_catalogue(before, s);
        assert(items[items.len() - 1] == items.last());
        lemma_unsupported_only_without_image(&items.last(), s);
    }
}

} // verus!
