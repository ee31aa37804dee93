use exporter::constant::{Expr, ExprKind, Literal, Ty};
use exporter::diagnostics::{Diagnostic, DiagnosticKind, Severity};
use exporter::export::{inline_item, Export, ItemKind};
use exporter::source;
use exporter::state::{MacroInfo, Options, ParamEnv, State};
use exporter::{inline_macro_invocations, Item, Loc, SInto, Span};

fn unit_state() -> State {
    let mut s = State::new(
        Options { macro_depth_limit: 2 },
        ParamEnv { consts: vec![Some(Literal::Uint(64)), None] },
    );
    s.record_macro_call(&source::MacCall {
        span: at("main.rs", 10, 0, 20, None),
        args: source::DelimSpan {
            open: at("main.rs", 10, 8, 9, None),
            close: at("main.rs", 10, 19, 20, None),
        },
    });
    s
}

fn at(filename: &str, line: usize, lo: usize, hi: usize, call_site: Option<source::Span>) -> source::Span {
    source::Span {
        filename: filename.to_string(),
        lo: Loc { line, col: lo },
        hi: Loc { line, col: hi },
        call_site: call_site.map(Box::new),
    }
}

fn region(filename: &str, line: usize, lo: usize, hi: usize) -> Span {
    Span { filename: filename.to_string(), lo: Loc { line, col: lo }, hi: Loc { line, col: hi } }
}

fn constant(line: usize, kind: source::ConstKind) -> source::Const {
    source::Const { ty: Ty::Uint, span: at("main.rs", line, 4, 6, None), kind }
}

fn const_item(name: &str, span: source::Span, kind: source::ConstKind) -> source::Item {
    let line = span.lo.line;
    source::Item {
        ident: source::Symbol { ident: name.to_string() },
        span,
        kind: source::ItemKind::Const(constant(line, kind)),
    }
}

fn expanded(depth: usize) -> source::Span {
    let mut span = at("main.rs", 10, 0, 20, None);
    for level in 0..depth {
        span = at("macros.rs", 50 + level, 0, 30, Some(span));
    }
    span
}

fn unit() -> Vec<source::Item> {
    vec![
        const_item("A", at("main.rs", 1, 0, 9, None), source::ConstKind::Value(Literal::Uint(1))),
        const_item("B", at("main.rs", 2, 0, 9, None), source::ConstKind::Param(1)),
        source::Item {
            ident: source::Symbol { ident: "C".to_string() },
            span: at("main.rs", 3, 0, 9, None),
            kind: source::ItemKind::Static(
                source::Mutability::Mut,
                constant(3, source::ConstKind::Param(0)),
            ),
        },
        source::Item {
            ident: source::Symbol { ident: "D".to_string() },
            span: at("main.rs", 4, 0, 9, None),
            kind: source::ItemKind::Other("GlobalAsm".to_string()),
        },
        const_item("E", expanded(1), source::ConstKind::Value(Literal::Uint(5))),
        const_item("F", expanded(3), source::ConstKind::Value(Literal::Uint(6))),
        const_item("G", at("main.rs", 7, 0, 9, None), source::ConstKind::Error("overflow".to_string())),
    ]
}

#[test]
fn item_is_converted_part_by_part() {
    let item = source::Item {
        ident: source::Symbol { ident: "LIMIT".to_string() },
        span: at("main.rs", 3, 0, 30, None),
        kind: source::ItemKind::Static(
            source::Mutability::Not,
            constant(3, source::ConstKind::Param(0)),
        ),
    };
    let exported: Result<Item, Diagnostic> = item.sinto(&unit_state());
    assert_eq!(
        exported,
        Ok(Item {
            ident: "LIMIT".to_string(),
            span: region("main.rs", 3, 0, 30),
            kind: ItemKind::Static(
                false,
                Box::new(Expr {
                    ty: Ty::Uint,
                    span: region("main.rs", 3, 4, 6),
                    contents: ExprKind::Literal(Literal::Uint(64)),
                }),
            ),
        })
    );
}

#[test]
fn mutable_static_keeps_its_flag() {
    let item = source::Item {
        ident: source::Symbol { ident: "COUNTER".to_string() },
        span: at("main.rs", 3, 0, 30, None),
        kind: source::ItemKind::Static(
            source::Mutability::Mut,
            constant(3, source::ConstKind::Value(Literal::Uint(0))),
        ),
    };
    let exported: Result<Item, Diagnostic> = item.sinto(&unit_state());
    match exported.unwrap().kind {
        ItemKind::Static(mutable, _) => assert!(mutable),
        other => panic!("not a static: {:?}", other),
    }
}

#[test]
fn item_without_image_is_an_unsupported_node() {
    let item = source::Item {
        ident: source::Symbol { ident: "asm".to_string() },
        span: at("main.rs", 4, 0, 9, None),
        kind: source::ItemKind::Other("GlobalAsm".to_string()),
    };
    let exported: Result<Item, Diagnostic> = item.sinto(&unit_state());
    assert_eq!(
        exported,
        Err(Diagnostic {
            kind: DiagnosticKind::UnsupportedNode,
            severity: Severity::Error,
            span: region("main.rs", 4, 0, 9),
            message: "GlobalAsm".to_string(),
        })
    );
}

#[test]
fn plain_conversion_keeps_the_span_of_the_expansion() {
    let item = const_item("E", expanded(1), source::ConstKind::Value(Literal::Uint(5)));
    let exported: Result<Item, Diagnostic> = item.sinto(&unit_state());
    assert_eq!(exported.unwrap().span, region("macros.rs", 50, 0, 30));
}

#[test]
fn plain_conversion_does_not_count_expansions() {
    let item = const_item("F", expanded(9), source::ConstKind::Value(Literal::Uint(5)));
    let exported: Result<Item, Diagnostic> = item.sinto(&unit_state());
    assert!(exported.is_ok());
}

#[test]
fn inlined_item_stands_at_the_argument_of_the_call() {
    let item = const_item("E", expanded(1), source::ConstKind::Value(Literal::Uint(5)));
    let exported = inline_item(&item, &unit_state()).unwrap();
    assert_eq!(exported.ident, "E");
    assert_eq!(exported.span, region("main.rs", 10, 8, 20));
    assert_eq!(
        exported.kind,
        ItemKind::Const(Box::new(Expr {
            ty: Ty::Uint,
            span: region("main.rs", 50, 4, 6),
            contents: ExprKind::Literal(Literal::Uint(5)),
        }))
    );
}

#[test]
fn inlined_item_written_by_the_user_is_unchanged() {
    let s = unit_state();
    let item = const_item("A", at("main.rs", 1, 0, 9, None), source::ConstKind::Value(Literal::Uint(1)));
    let plain: Result<Item, Diagnostic> = item.sinto(&s);
    assert_eq!(inline_item(&item, &s), plain);
}

#[test]
fn overflow_is_reported_before_the_kind_is_looked_at() {
    let item = source::Item {
        ident: source::Symbol { ident: "deep".to_string() },
        span: expanded(3),
        kind: source::ItemKind::Other("GlobalAsm".to_string()),
    };
    let d = inline_item(&item, &unit_state()).unwrap_err();
    assert_eq!(d.kind, DiagnosticKind::MacroAncestryOverflow);
    assert_eq!(d.span, region("macros.rs", 52, 0, 30));
}

#[test]
fn export_keeps_items_and_diagnostics_in_order() {
    let export = inline_macro_invocations(&unit(), &unit_state());
    let names: Vec<&str> = export.items.iter().map(|i| i.ident.as_str()).collect();
    assert_eq!(names, vec!["A", "C", "E"]);
    let kinds: Vec<DiagnosticKind> = export.diagnostics.iter().map(|d| d.kind).collect();
    assert_eq!(
        kinds,
        vec![
            DiagnosticKind::UnresolvedContext,
            DiagnosticKind::UnsupportedNode,
            DiagnosticKind::MacroAncestryOverflow,
            DiagnosticKind::EvaluationFailure,
        ]
    );
    assert_eq!(export.items.len() + export.diagnostics.len(), unit().len());
    assert!(!export.succeeded());
}

#[test]
fn one_bad_item_does_not_stop_the_export() {
    let items = vec![
        const_item("bad", at("main.rs", 1, 0, 9, None), source::ConstKind::Error("cycle".to_string())),
        const_item("good", at("main.rs", 2, 0, 9, None), source::ConstKind::Value(Literal::Uint(2))),
    ];
    let export = inline_macro_invocations(&items, &unit_state());
    assert_eq!(export.items.len(), 1);
    assert_eq!(export.items[0].ident, "good");
    assert_eq!(export.diagnostics.len(), 1);
    assert_eq!(export.diagnostics[0].message, "cycle");
    assert_eq!(export.diagnostics[0].span, region("main.rs", 1, 4, 6));
}

#[test]
fn export_of_a_clean_unit_succeeds() {
    let items = vec![
        const_item("A", at("main.rs", 1, 0, 9, None), source::ConstKind::Value(Literal::Uint(1))),
        const_item("B", expanded(2), source::ConstKind::Param(0)),
    ];
    let export = inline_macro_invocations(&items, &unit_state());
    assert!(export.succeeded());
    assert!(export.diagnostics.is_empty());
    assert_eq!(export.items.len(), 2);
    assert_eq!(export.items[1].span, region("main.rs", 10, 8, 20));
}

#[test]
fn export_of_nothing_is_empty_and_succeeds() {
    let export = inline_macro_invocations(&Vec::new(), &unit_state());
    assert_eq!(export, Export::new());
    assert!(export.items.is_empty());
    assert!(export.succeeded());
}

#[test]
fn catalogued_units_yield_no_unsupported_node() {
    let items: Vec<source::Item> = unit()
        .into_iter()
        .filter(|item| !matches!(item.kind, source::ItemKind::Other(_)))
        .collect();
    let export = inline_macro_invocations(&items, &unit_state());
    assert!(export.diagnostics.iter().all(|d| d.kind != DiagnosticKind::UnsupportedNode));
    assert_eq!(export.items.len() + export.diagnostics.len(), 6);
}

#[test]
fn exporting_twice_gives_equal_exports() {
    let first = inline_macro_invocations(&unit(), &unit_state());
    let second = inline_macro_invocations(&unit(), &unit_state());
    assert_eq!(first, second);
    assert_eq!(format!("{:?}", first), format!("{:?}", second));
}

#[test]
fn equivalent_states_give_equal_exports() {
    let s1 = unit_state();
    let mut s2 = State::new(
        Options { macro_depth_limit: 2 },
        ParamEnv { consts: vec![Some(Literal::Uint(64)), None, None] },
    );
    s2.macro_infos.push(MacroInfo {
        call_site: region("main.rs", 10, 0, 20),
        argument: region("main.rs", 1, 1, 1),
    });
    s2.macro_infos.push(MacroInfo {
        call_site: region("main.rs", 10, 0, 20),
        argument: region("main.rs", 10, 8, 20),
    });
    assert_eq!(inline_macro_invocations(&unit(), &s1), inline_macro_invocations(&unit(), &s2));
}

#[test]
fn record_sorts_outcomes_into_items_and_diagnostics() {
    let mut export = Export::new();
    assert!(export.succeeded());
    export.record(Err(Diagnostic::unresolved_context(region("a.rs", 1, 0, 1))));
    export.record(Ok(Item {
        ident: "x".to_string(),
        span: region("a.rs", 2, 0, 1),
        kind: ItemKind::Const(Box::new(Expr {
            ty: Ty::Bool,
            span: region("a.rs", 2, 0, 1),
            contents: ExprKind::Literal(Literal::Bool(true)),
        })),
    }));
    export.record(Err(Diagnostic::macro_ancestry_overflow(region("a.rs", 3, 0, 1))));
    assert_eq!(export.items.len(), 1);
    assert_eq!(export.diagnostics.len(), 2);
    assert_eq!(export.diagnostics[0].kind, DiagnosticKind::UnresolvedContext);
    assert_eq!(export.diagnostics[1].kind, DiagnosticKind::MacroAncestryOverflow);
    assert!(!export.succeeded());
}

#[test]
fn warnings_do_not_fail_an_export() {
    let mut export = Export::new();
    export.record(Err(Diagnostic {
        kind: DiagnosticKind::UnsupportedNode,
        severity: Severity::Warning,
        span: region("a.rs", 1, 0, 1),
        message: "attribute ignored".to_string(),
    }));
    assert!(export.succeeded());
    export.record(Err(Diagnostic::evaluation_failure(region("a.rs", 2, 0, 1), &"div by zero".to_string())));
    assert!(!export.succeeded());
}

#[test]
fn diagnostics_are_built_with_their_kind_and_message() {
    let span = region("a.rs", 1, 0, 1);
    let d = Diagnostic::unsupported_node(span.clone(), &"Union".to_string());
    assert_eq!((d.kind, d.severity, d.message.as_str()), (DiagnosticKind::UnsupportedNode, Severity::Error, "Union"));
    let d = Diagnostic::unresolved_context(span.clone());
    assert_eq!(d.kind, DiagnosticKind::UnresolvedContext);
    assert_eq!(d.message, "generic parameter is not instantiated in this environment");
    let d = Diagnostic::evaluation_failure(span.clone(), &"panicked".to_string());
    assert_eq!((d.kind, d.message.as_str()), (DiagnosticKind::EvaluationFailure, "panicked"));
    let d = Diagnostic::macro_ancestry_overflow(span.clone());
    assert_eq!(d.kind, DiagnosticKind::MacroAncestryOverflow);
    assert_eq!(d.message, "macro expansion ancestry exceeds the depth limit");
    assert_eq!(d.span, span);
    assert!(d.is_error());
    assert_eq!(d.clone(), d);
}
