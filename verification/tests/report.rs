use wasm_git::diff::{DiffChange, DiffSummary, FunctionDelta, OperatorDelta, OperatorRecord};
use wasm_git::ir::{ExternalKindIr, Immediate, Opcode, ParsedOperator};
use wasm_git::matcher::MatchReason;
use wasm_git::parse::{
    const_expr_function_ref, element_item_refs, table_init_ref, ConstExprFunctionRef,
    ConstExprItem, ModuleBuilder, RawTypeRef,
};
use wasm_git::report::{
    changes_section, header_line, module_summary, short_tail, summary_lines, Segment, Style,
};

fn text_of(line: &[Segment]) -> String {
    line.iter().map(|s| s.text.as_str()).collect()
}

fn texts(lines: &[Vec<Segment>]) -> Vec<String> {
    lines.iter().map(|l| text_of(l)).collect()
}

fn empty_summary() -> DiffSummary {
    DiffSummary {
        types_added: 0,
        types_removed: 0,
        imports_added: 0,
        imports_removed: 0,
        exports_added: 0,
        exports_removed: 0,
        functions_added: 0,
        functions_removed: 0,
        functions_changed: 0,
        operator_replacements: 0,
        operator_insertions: 0,
        operator_deletions: 0,
    }
}

fn record(offset: u64, opcode: &str, text: &str) -> OperatorRecord {
    OperatorRecord {
        offset,
        opcode: opcode.to_owned(),
        text: text.to_owned(),
    }
}

fn changed_function() -> DiffChange {
    DiffChange::FunctionChanged {
        function: FunctionDelta {
            old_id: "export:add".to_owned(),
            new_id: "export:add".to_owned(),
            type_changed: false,
            locals_changed: true,
            direct_calls_changed: false,
            operators: vec![
                OperatorDelta::Replace {
                    index: 1,
                    old: record(37, "LocalGet", "LocalGet { local_index: 1 }"),
                    new: record(37, "I32Const", "I32Const { value: 1 }"),
                },
                OperatorDelta::Insert {
                    index: 3,
                    operator: record(40, "Nop", "Nop"),
                },
                OperatorDelta::Delete {
                    index: 4,
                    operator: record(41, "Drop", "Drop"),
                },
            ],
        },
    }
}

#[test]
fn header_line_names_both_modules() {
    let line = header_line("old.wasm", "new.wasm");
    assert_eq!(text_of(&line), "Diff: old.wasm -> new.wasm");
    assert_eq!(line[0].style, Style::Bold);
    assert_eq!(line[0].text, "Diff");
}

#[test]
fn summary_lines_with_unchanged_abi() {
    let mut summary = empty_summary();
    summary.functions_changed = 1;
    summary.operator_replacements = 1;
    let lines = summary_lines(&summary, 1);
    assert_eq!(
        texts(&lines),
        vec![
            "Summary:",
            "  functions: 1 matched, 1 changed, 0 added, 0 removed",
            "  operators: 1 replaced, 0 inserted, 0 deleted",
            "  abi: unchanged",
        ]
    );
    assert_eq!(lines[0][0].style, Style::Bold);
    assert_eq!(lines[1][1].style, Style::BrightBlack);
    assert_eq!(lines[1][3].style, Style::Yellow);
    assert_eq!(lines[3][1].style, Style::Green);
}

#[test]
fn summary_lines_with_changed_abi() {
    let mut summary = empty_summary();
    summary.types_added = 2;
    summary.imports_removed = 1;
    summary.exports_added = 3;
    let lines = summary_lines(&summary, 0);
    assert_eq!(
        text_of(&lines[3]),
        "  abi: types +2 -0, imports +0 -1, exports +3 -0"
    );
    assert_eq!(lines[3][1].style, Style::Green);
    assert_eq!(lines[3][3].style, Style::Red);
}

#[test]
fn changes_section_lists_every_change() {
    let changes = vec![
        DiffChange::TypeAdded {
            id: "type:i32->".to_owned(),
        },
        DiffChange::ImportRemoved {
            id: "import:env.f".to_owned(),
        },
        DiffChange::FunctionAdded {
            id: "export:g".to_owned(),
        },
        changed_function(),
    ];
    let lines = changes_section(&changes);
    assert_eq!(
        texts(&lines),
        vec![
            "Changes:",
            "  + type type:i32->",
            "  - import import:env.f",
            "  + function export:g",
            "  ~ export:add -> export:add",
            "    ~ locals changed",
            "    ~ op[1]: LocalGet { local_index: 1 } -> I32Const { value: 1 }",
            "    + op[3]: Nop",
            "    - op[4]: Drop",
        ]
    );
    assert_eq!(lines[1][1].style, Style::Green);
    assert_eq!(lines[2][1].style, Style::Red);
}

#[test]
fn changes_section_without_changes() {
    let lines = changes_section(&vec![]);
    assert_eq!(texts(&lines), vec!["Changes:", "  none"]);
}

#[test]
fn short_tail_counts_fallbacks_and_changed_functions() {
    let reasons = vec![
        MatchReason::SameStableId,
        MatchReason::SimilarityFallback,
        MatchReason::SimilarityFallback,
    ];
    let changes = vec![
        DiffChange::ExportAdded {
            id: "export:h".to_owned(),
        },
        changed_function(),
    ];
    let lines = short_tail(&reasons, &changes);
    assert_eq!(
        texts(&lines),
        vec!["  fallback matches: 2", "  changes: 2 total, 1 functions"]
    );
}

#[test]
fn short_tail_without_changes() {
    let lines = short_tail(&vec![MatchReason::SameExactBodyHash], &vec![]);
    assert_eq!(texts(&lines), vec!["  changes: none"]);
    assert_eq!(lines[0][1].style, Style::Green);
}

#[test]
fn module_summary_counts_functions_by_kind() {
    let mut builder = ModuleBuilder::new();
    builder.begin(true).unwrap();
    builder.add_type(0, vec![], vec![]).unwrap();
    builder
        .add_import("env".to_owned(), "f".to_owned(), RawTypeRef::Func(0))
        .unwrap();
    builder
        .add_import("env".to_owned(), "mem".to_owned(), RawTypeRef::Memory("m".to_owned()))
        .unwrap();
    builder.add_function(0).unwrap();
    builder.add_function(0).unwrap();
    builder
        .add_export("g".to_owned(), ExternalKindIr::Func, 1)
        .unwrap();
    builder.begin_code(2).unwrap();
    for offset in [30u64, 33] {
        builder
            .add_body(
                vec![],
                vec![ParsedOperator {
                    offset,
                    opcode: Opcode::End,
                    immediate: Immediate::Empty,
                }],
            )
            .unwrap();
    }
    let parsed = builder.finish().unwrap();
    let summary = module_summary(&parsed.module);
    assert_eq!(summary.types, 1);
    assert_eq!(summary.imports, 2);
    assert_eq!(summary.exports, 1);
    assert_eq!(summary.functions, 3);
    assert_eq!(summary.defined_functions, 2);
    assert_eq!(summary.imported_functions, 1);
}

#[test]
fn const_expr_first_function_reference_decides() {
    let items = vec![
        ConstExprItem::RefNull,
        ConstExprItem::RefFunc(7),
        ConstExprItem::Unreadable("late".to_owned()),
    ];
    assert_eq!(
        const_expr_function_ref(&items),
        Ok(ConstExprFunctionRef::Function(7))
    );
}

#[test]
fn const_expr_null_and_unknown() {
    let null = vec![ConstExprItem::RefNull, ConstExprItem::End];
    assert_eq!(const_expr_function_ref(&null), Ok(ConstExprFunctionRef::Null));
    let other = vec![ConstExprItem::Other, ConstExprItem::RefFunc(1)];
    assert_eq!(
        const_expr_function_ref(&other),
        Ok(ConstExprFunctionRef::Unknown)
    );
    let bare_end = vec![ConstExprItem::End];
    assert_eq!(
        const_expr_function_ref(&bare_end),
        Ok(ConstExprFunctionRef::Unknown)
    );
}

#[test]
fn const_expr_unreadable_item_is_an_error() {
    let items = vec![
        ConstExprItem::RefNull,
        ConstExprItem::Unreadable("unexpected end".to_owned()),
    ];
    let error = const_expr_function_ref(&items).unwrap_err();
    assert_eq!(error.message, "unexpected end");
}

#[test]
fn table_init_and_element_items_from_references() {
    assert_eq!(
        table_init_ref(ConstExprFunctionRef::Function(2)),
        (Some(2), false)
    );
    assert_eq!(table_init_ref(ConstExprFunctionRef::Null), (None, false));
    assert_eq!(table_init_ref(ConstExprFunctionRef::Unknown), (None, true));

    let refs = vec![
        ConstExprFunctionRef::Function(4),
        ConstExprFunctionRef::Null,
        ConstExprFunctionRef::Function(1),
    ];
    assert_eq!(element_item_refs(&refs), (vec![4, 1], false));
    let with_unknown = vec![ConstExprFunctionRef::Unknown, ConstExprFunctionRef::Function(9)];
    assert_eq!(element_item_refs(&with_unknown), (vec![9], true));
}
