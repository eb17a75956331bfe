use wasm_git::analysis::analysis_module;
use wasm_git::diff::{
    diff_changes, diff_function, diff_operators, operator_deltas, push_collection_changes,
    summarize, CollectionKind, DiffChange, DiffStep, OperatorDelta,
};
use wasm_git::fingerprint::{function_fingerprint, module_fingerprints};
use wasm_git::ir::{
    CallGraphEdgeKindIr, ElementKindIr, ExternalKindIr, FunctionKindIr, Immediate, Opcode,
    NormalizedModule, ParsedModule, ParsedOperator,
};
use wasm_git::matcher::{
    assign_in_order, match_by_keys, order_pairs, shared_call_count, shared_key_count,
    unmatched_function_ids, FunctionPair, MatchReason,
};
use wasm_git::normalize::normalize_module;
use wasm_git::parse::{parse_items, ModuleBuilder, RawTypeRef, WasmItem};
use wasm_git::resolve::resolve_module;

fn op(offset: u64, opcode: Opcode, immediate: Immediate) -> ParsedOperator {
    ParsedOperator {
        offset,
        opcode,
        immediate,
    }
}

fn strings(items: &[&str]) -> Vec<String> {
    items.iter().map(|s| s.to_string()).collect()
}

/// The module of a binary with one `(i32, i32) -> i32` function exported as
/// `add`, optionally preceded by an imported function of the same type.
fn simple_module(with_import: bool, second_operand_const: bool) -> ParsedModule {
    let base: u64 = if with_import { 57 } else { 35 };
    let mut builder = ModuleBuilder::new();
    builder.begin(true).unwrap();
    builder
        .add_type(0, strings(&["i32", "i32"]), strings(&["i32"]))
        .unwrap();
    if with_import {
        builder
            .add_import("env".to_owned(), "imported_add".to_owned(), RawTypeRef::Func(0))
            .unwrap();
    }
    builder.add_function(0).unwrap();
    builder
        .add_export(
            "add".to_owned(),
            ExternalKindIr::Func,
            if with_import { 1 } else { 0 },
        )
        .unwrap();
    builder.begin_code(1).unwrap();
    let second = if second_operand_const {
        op(base + 2, Opcode::I32Const, Immediate::I32Const(1))
    } else {
        op(base + 2, Opcode::LocalGet, Immediate::Local(1))
    };
    builder
        .add_body(
            vec![],
            vec![
                op(base, Opcode::LocalGet, Immediate::Local(0)),
                second,
                op(base + 4, Opcode::I32Add, Immediate::Empty),
                op(base + 5, Opcode::End, Immediate::Empty),
            ],
        )
        .unwrap();
    builder.finish().unwrap()
}

fn multi_export_module() -> ParsedModule {
    let mut builder = ModuleBuilder::new();
    builder.begin(true).unwrap();
    builder
        .add_type(0, strings(&["i32", "i32"]), strings(&["i32"]))
        .unwrap();
    builder.add_function(0).unwrap();
    builder
        .add_export("a".to_owned(), ExternalKindIr::Func, 0)
        .unwrap();
    builder
        .add_export("b".to_owned(), ExternalKindIr::Func, 0)
        .unwrap();
    builder.begin_code(1).unwrap();
    builder
        .add_body(
            vec![],
            vec![
                op(0, Opcode::LocalGet, Immediate::Local(0)),
                op(2, Opcode::LocalGet, Immediate::Local(1)),
                op(4, Opcode::I32Add, Immediate::Empty),
                op(5, Opcode::End, Immediate::Empty),
            ],
        )
        .unwrap();
    builder.finish().unwrap()
}

fn duplicate_empty_functions_module() -> ParsedModule {
    let mut builder = ModuleBuilder::new();
    builder.begin(true).unwrap();
    builder.add_type(0, vec![], vec![]).unwrap();
    for _ in 0..3 {
        builder.add_function(0).unwrap();
    }
    builder.begin_code(3).unwrap();
    for offset in [25u64, 28, 31] {
        builder
            .add_body(vec![], vec![op(offset, Opcode::End, Immediate::Empty)])
            .unwrap();
    }
    builder.finish().unwrap()
}

#[test]
fn parses_old_fixture_into_parsed_ir() {
    let module = simple_module(false, false).module;

    assert_eq!(module.types.len(), 1);
    assert_eq!(module.types[0].id, "type:i32,i32->i32");
    assert!(module.imports.is_empty());
    assert_eq!(module.exports.len(), 1);
    assert_eq!(module.exports[0].name, "add");
    assert_eq!(module.exports[0].kind, ExternalKindIr::Func);
    assert_eq!(module.functions.len(), 1);
    assert_eq!(module.start_function_index, None);

    let function = &module.functions[0];
    assert_eq!(function.id, "type:type:i32,i32->i32:defined:0");
    assert_eq!(function.kind, FunctionKindIr::Defined);
    assert_eq!(function.source_index, 0);
    assert_eq!(function.type_id, "type:i32,i32->i32");
    assert!(function.export_names.is_empty());
    assert!(function.locals.is_empty());
    assert_eq!(function.operators.len(), 4);
    assert_eq!(function.operators[0].opcode, Opcode::LocalGet);
    assert_eq!(
        function.operators[1].display_text(),
        "LocalGet { local_index: 1 }"
    );
    assert_eq!(function.operators[2].opcode, Opcode::I32Add);
    assert_eq!(function.operators[3].opcode, Opcode::End);
    assert!(function.direct_calls.is_empty());
}

#[test]
fn parses_fixture_operator_delta_deterministically() {
    let old_module = simple_module(false, false).module;
    let new_module = simple_module(false, true).module;

    let old_function = &old_module.functions[0];
    let new_function = &new_module.functions[0];

    assert_eq!(old_module.types, new_module.types);
    assert_eq!(old_module.exports, new_module.exports);
    assert_eq!(
        old_function.operators[1].display_text(),
        "LocalGet { local_index: 1 }"
    );
    assert_eq!(
        new_function.operators[1].display_text(),
        "I32Const { value: 1 }"
    );
    assert_eq!(old_function.operators[0], new_function.operators[0]);
    assert_eq!(old_function.operators[2], new_function.operators[2]);
    assert_eq!(old_function.operators[3], new_function.operators[3]);
}

#[test]
fn parses_start_section_into_parsed_ir() {
    let mut builder = ModuleBuilder::new();
    builder.begin(true).unwrap();
    builder
        .add_type(0, strings(&["i32", "i32"]), strings(&["i32"]))
        .unwrap();
    builder.add_function(0).unwrap();
    builder.set_start(0);
    builder.begin_code(1).unwrap();
    builder
        .add_body(
            vec![],
            vec![
                op(29, Opcode::LocalGet, Immediate::Local(0)),
                op(31, Opcode::LocalGet, Immediate::Local(1)),
                op(33, Opcode::I32Add, Immediate::Empty),
                op(34, Opcode::End, Immediate::Empty),
            ],
        )
        .unwrap();
    let module = builder.finish().expect("start module should parse").module;

    assert_eq!(module.start_function_index, Some(0));
    assert_eq!(module.functions.len(), 1);
}

#[test]
fn stable_id_resists_index_drift() {
    let mod_no_import = resolve_module(simple_module(false, false));
    let mod_with_import = resolve_module(simple_module(true, false));

    assert_eq!(mod_no_import.module.functions.len(), 1);
    assert_eq!(mod_no_import.module.functions[0].source_index, 0);
    assert_eq!(
        mod_no_import.module.functions[0].id,
        "func:export:add:type:i32,i32->i32"
    );

    assert_eq!(mod_with_import.module.functions.len(), 2);
    assert_eq!(
        mod_with_import.module.functions[0].kind,
        FunctionKindIr::Imported
    );
    assert_eq!(mod_with_import.module.functions[0].source_index, 0);
    assert_eq!(
        mod_with_import.module.functions[1].kind,
        FunctionKindIr::Defined
    );
    assert_eq!(mod_with_import.module.functions[1].source_index, 1);

    assert_eq!(
        mod_no_import.module.functions[0].id, mod_with_import.module.functions[1].id,
        "stable function ID must be same despite index drift"
    );
}

#[test]
fn parse_determinism_repeated_calls() {
    let first = simple_module(true, false);
    let second = simple_module(true, false);
    assert_eq!(
        first, second,
        "parsing same bytes must produce identical ParsedModule"
    );
}

#[test]
fn resolve_attaches_exports_and_stable_ids() {
    let parsed = simple_module(false, false);
    assert_eq!(parsed.module.functions[0].export_names, Vec::<String>::new());

    let resolved = resolve_module(parsed);
    let function = &resolved.module.functions[0];
    assert_eq!(function.kind, FunctionKindIr::Defined);
    assert_eq!(function.export_names, ["add"]);
    assert_eq!(function.id, "func:export:add:type:i32,i32->i32");
    assert!(function.fingerprint.is_none());
}

#[test]
fn resolve_sorts_export_names_and_keeps_imports() {
    let mut builder = ModuleBuilder::new();
    builder.begin(true).unwrap();
    builder.add_type(0, vec![], vec![]).unwrap();
    builder
        .add_import("env".to_owned(), "f".to_owned(), RawTypeRef::Func(0))
        .unwrap();
    builder
        .add_import("env".to_owned(), "mem".to_owned(), RawTypeRef::Memory("1".to_owned()))
        .unwrap();
    builder.add_function(0).unwrap();
    builder
        .add_export("zeta".to_owned(), ExternalKindIr::Func, 1)
        .unwrap();
    builder
        .add_export("alpha".to_owned(), ExternalKindIr::Func, 1)
        .unwrap();
    builder
        .add_export("memory".to_owned(), ExternalKindIr::Memory, 0)
        .unwrap();
    builder.begin_code(1).unwrap();
    builder
        .add_body(vec![], vec![op(0, Opcode::End, Immediate::Empty)])
        .unwrap();
    let parsed = builder.finish().unwrap();

    assert_eq!(parsed.module.imports[0].id, "import:env:f:func:type:->");
    assert_eq!(parsed.module.imports[1].id, "import:env:mem:memory:1");
    assert_eq!(parsed.module.functions[0].id, "import:env:f:func:type:->");
    assert_eq!(parsed.module.exports[2].id, "export:memory:memory");

    let resolved = parsed.resolve();
    assert_eq!(resolved.module.functions[0].id, "import:env:f:func:type:->");
    assert_eq!(resolved.module.functions[1].export_names, ["alpha", "zeta"]);
    assert_eq!(
        resolved.module.functions[1].id,
        "func:exports:[\"alpha\",\"zeta\"]:type:->"
    );
}

#[test]
fn normalize_adds_diff_fingerprints_without_mutating_resolved() {
    let resolved = resolve_module(simple_module(false, false));
    let normalized = normalize_module(&resolved);
    assert!(resolved.module.functions[0].fingerprint.is_none());
    assert!(normalized.module.functions[0].fingerprint.is_some());
}

#[test]
fn fingerprints_are_deterministic_for_canonical_fixtures() {
    let first = resolve_module(simple_module(false, false));
    let second = resolve_module(simple_module(false, false));

    assert_eq!(module_fingerprints(&first), module_fingerprints(&second));
}

#[test]
fn exact_and_canonical_body_hashes_detect_fixture_delta() {
    let old_module = resolve_module(simple_module(false, false));
    let new_module = resolve_module(simple_module(false, true));

    let old_fingerprint =
        function_fingerprint(&old_module.module, &old_module.module.functions[0]);
    let new_fingerprint =
        function_fingerprint(&new_module.module, &new_module.module.functions[0]);

    assert_eq!(old_fingerprint.stable_id, new_fingerprint.stable_id);
    assert_eq!(old_fingerprint.type_sig_hash, new_fingerprint.type_sig_hash);
    assert_ne!(
        old_fingerprint.exact_body_hash,
        new_fingerprint.exact_body_hash
    );
    assert_ne!(
        old_fingerprint.canonical_body_hash,
        new_fingerprint.canonical_body_hash
    );
}

#[test]
fn exported_function_stable_id_ignores_source_index_and_body_change() {
    let old_module = resolve_module(simple_module(false, false));
    let new_module = resolve_module(simple_module(true, true));

    assert_eq!(old_module.module.functions[0].source_index, 0);
    assert_eq!(new_module.module.functions[1].source_index, 1);
    assert_eq!(
        old_module.module.functions[0].id,
        "func:export:add:type:i32,i32->i32"
    );
    assert_eq!(
        old_module.module.functions[0].id,
        new_module.module.functions[1].id
    );
}

#[test]
fn exported_function_stable_id_uses_all_export_names() {
    let module = resolve_module(multi_export_module());

    assert_eq!(module.module.functions[0].export_names, ["a", "b"]);
    assert_eq!(
        module.module.functions[0].id,
        r#"func:exports:["a","b"]:type:i32,i32->i32"#
    );
}

#[test]
fn fingerprints_match_under_index_drift() {
    let mod_no_import = resolve_module(simple_module(false, false));
    let mod_with_import = resolve_module(simple_module(true, false));

    let fp_no_import =
        function_fingerprint(&mod_no_import.module, &mod_no_import.module.functions[0]);
    let fp_with_import =
        function_fingerprint(&mod_with_import.module, &mod_with_import.module.functions[1]);

    assert_eq!(fp_no_import.stable_id, fp_with_import.stable_id);
    assert_eq!(fp_no_import.stable_id, "func:export:add:type:i32,i32->i32");
    assert_eq!(fp_no_import.exact_body_hash, fp_with_import.exact_body_hash);
    assert_eq!(
        fp_no_import.canonical_body_hash,
        fp_with_import.canonical_body_hash
    );
    assert_eq!(fp_no_import.type_sig_hash, fp_with_import.type_sig_hash);
    assert_eq!(
        fp_no_import.opcode_histogram,
        fp_with_import.opcode_histogram
    );
    assert_eq!(
        fp_no_import.instruction_count,
        fp_with_import.instruction_count
    );
}

#[test]
fn fingerprint_determinism_regression() {
    let first = resolve_module(simple_module(true, false));
    let second = resolve_module(simple_module(true, false));

    let fp_first = module_fingerprints(&first);
    let fp_second = module_fingerprints(&second);

    assert_eq!(
        fp_first, fp_second,
        "fingerprints must be deterministic under repeated parses"
    );
}

#[test]
fn fingerprint_histogram_and_call_targets() {
    let mut builder = ModuleBuilder::new();
    builder.begin(true).unwrap();
    builder.add_type(0, vec![], vec![]).unwrap();
    builder.add_function(0).unwrap();
    builder.add_function(0).unwrap();
    builder.begin_code(2).unwrap();
    builder
        .add_body(
            vec![],
            vec![
                op(0, Opcode::Call, Immediate::Call(1)),
                op(2, Opcode::Nop, Immediate::Empty),
                op(3, Opcode::Call, Immediate::Call(1)),
                op(5, Opcode::Call, Immediate::Call(9)),
                op(7, Opcode::End, Immediate::Empty),
            ],
        )
        .unwrap();
    builder
        .add_body(vec![], vec![op(9, Opcode::End, Immediate::Empty)])
        .unwrap();
    let parsed = builder.finish().unwrap();
    assert_eq!(parsed.module.functions[0].direct_calls, vec![1, 1, 9]);

    let resolved = resolve_module(parsed);
    let fp = function_fingerprint(&resolved.module, &resolved.module.functions[0]);
    let histogram: Vec<(String, u32)> = fp
        .opcode_histogram
        .iter()
        .map(|c| (c.opcode.clone(), c.count))
        .collect();
    assert_eq!(
        histogram,
        vec![
            ("Call".to_owned(), 3),
            ("End".to_owned(), 1),
            ("Nop".to_owned(), 1)
        ]
    );
    assert_eq!(fp.direct_call_targets.len(), 1);
    assert_eq!(
        fp.direct_call_targets[0].stable_id,
        resolved.module.functions[1].id
    );
    assert_eq!(fp.instruction_count, 5);
    assert!(resolved.module.functions[1].id.starts_with("func:type:type:->:body:"));
    assert_eq!(resolved.module.functions[1].id.len(), "func:type:type:->:body:".len() + 16);
}

#[test]
fn diff_operators_reports_single_replacement() {
    let old = simple_module(false, false).module.functions[0].operators.clone();
    let new = simple_module(false, true).module.functions[0].operators.clone();

    let deltas = diff_operators(&old, &new);
    assert_eq!(deltas.len(), 1);
    match &deltas[0] {
        OperatorDelta::Replace { index, old, new } => {
            assert_eq!(*index, 1);
            assert_eq!(old.text, "LocalGet { local_index: 1 }");
            assert_eq!(new.text, "I32Const { value: 1 }");
            assert_eq!(old.opcode, "LocalGet");
            assert_eq!(new.offset, 37);
        }
        other => panic!("expected replacement, got {other:?}"),
    }
    assert!(diff_operators(&old, &old).is_empty());
}

#[test]
fn operator_deltas_expand_an_edit_script() {
    let old = vec![
        op(0, Opcode::Nop, Immediate::Empty),
        op(1, Opcode::Nop, Immediate::Empty),
        op(2, Opcode::Drop, Immediate::Empty),
    ];
    let new = vec![op(10, Opcode::I32Const, Immediate::I32Const(7))];
    let steps = vec![
        DiffStep::Replace {
            old_index: 0,
            old_len: 2,
            new_index: 0,
            new_len: 1,
        },
        DiffStep::Delete {
            old_index: 2,
            old_len: 1,
            new_index: 1,
        },
    ];
    let deltas = operator_deltas(&old, &new, &steps);
    assert_eq!(deltas.len(), 3);
    assert!(matches!(&deltas[0], OperatorDelta::Replace { index: 0, .. }));
    assert!(matches!(&deltas[1], OperatorDelta::Delete { index: 1, .. }));
    assert!(matches!(&deltas[2], OperatorDelta::Delete { index: 2, .. }));

    let inserted = operator_deltas(
        &vec![],
        &new,
        &vec![DiffStep::Insert {
            old_index: 0,
            new_index: 0,
            new_len: 1,
        }],
    );
    match &inserted[0] {
        OperatorDelta::Insert { index, operator } => {
            assert_eq!(*index, 0);
            assert_eq!(operator.text, "I32Const { value: 7 }");
        }
        other => panic!("expected insertion, got {other:?}"),
    }
}

#[test]
fn diff_function_detects_type_locals_and_calls() {
    let module = resolve_module(simple_module(false, false)).module;
    let same = diff_function(&module.functions[0], &module.functions[0]);
    assert!(same.is_none());

    let mut changed = module.functions[0].clone();
    changed.type_id = "type:->".to_owned();
    changed.direct_calls = vec![0];
    let delta = diff_function(&module.functions[0], &changed).unwrap();
    assert!(delta.type_changed);
    assert!(!delta.locals_changed);
    assert!(delta.direct_calls_changed);
    assert!(delta.operators.is_empty());
}

#[test]
fn collection_changes_and_summary() {
    let mut changes = Vec::new();
    push_collection_changes(
        strings(&["b", "a", "c"]),
        strings(&["c", "d", "a"]),
        CollectionKind::Export,
        &mut changes,
    );
    assert_eq!(
        changes,
        vec![
            DiffChange::ExportRemoved { id: "b".to_owned() },
            DiffChange::ExportAdded { id: "d".to_owned() },
        ]
    );
    push_collection_changes(
        strings(&["t"]),
        strings(&[]),
        CollectionKind::Type,
        &mut changes,
    );
    let summary = summarize(&changes);
    assert_eq!(summary.exports_removed, 1);
    assert_eq!(summary.exports_added, 1);
    assert_eq!(summary.types_removed, 1);
    assert_eq!(summary.types_added, 0);
    assert_eq!(summary.functions_changed, 0);
}

#[test]
fn reports_canonical_fixture_as_single_operator_replacement() {
    let old = normalize_module(&resolve_module(simple_module(false, false)));
    let new = normalize_module(&resolve_module(simple_module(false, true)));

    let (pairs, matched_old, matched_new) = match_by_keys(&old, &new);
    assert_eq!(pairs.len(), 1);
    assert_eq!(pairs[0].reason, MatchReason::SameStableId);
    assert_eq!(matched_old, vec![true]);
    assert_eq!(matched_new, vec![true]);

    let ordered = order_pairs(&old, &new, &pairs);
    let source_pairs: Vec<(u32, u32)> = ordered
        .iter()
        .map(|p| {
            (
                old.module.functions[p.old_index].source_index,
                new.module.functions[p.new_index].source_index,
            )
        })
        .collect();
    let changes = diff_changes(&old, &new, &source_pairs);
    let summary = summarize(&changes);

    assert_eq!(summary.functions_changed, 1);
    assert_eq!(summary.operator_replacements, 1);
    assert_eq!(summary.operator_insertions, 0);
    assert_eq!(summary.operator_deletions, 0);
    assert_eq!(summary.exports_added, 0);
    assert_eq!(summary.exports_removed, 0);
    assert_eq!(changes.len(), 1);
    match &changes[0] {
        DiffChange::FunctionChanged { function } => {
            assert_eq!(function.old_id, "func:export:add:type:i32,i32->i32");
            assert_eq!(function.new_id, "func:export:add:type:i32,i32->i32");
            assert!(!function.type_changed);
            assert!(!function.locals_changed);
            assert!(!function.direct_calls_changed);
            assert_eq!(function.operators.len(), 1);
            match &function.operators[0] {
                OperatorDelta::Replace { index, old, new } => {
                    assert_eq!(*index, 1);
                    assert_eq!(old.text, "LocalGet { local_index: 1 }");
                    assert_eq!(new.text, "I32Const { value: 1 }");
                }
                other => panic!("expected replacement, got {other:?}"),
            }
        }
        other => panic!("expected changed function, got {other:?}"),
    }
}

/// The source-index pairs of the keyed matches, in report order.
fn keyed_source_pairs(old: &NormalizedModule, new: &NormalizedModule) -> Vec<(u32, u32)> {
    let (pairs, _, _) = match_by_keys(old, new);
    order_pairs(old, new, &pairs)
        .iter()
        .map(|p| {
            (
                old.module.functions[p.old_index].source_index,
                new.module.functions[p.new_index].source_index,
            )
        })
        .collect()
}

#[test]
fn reports_no_function_churn_for_identical_duplicate_functions() {
    let old = normalize_module(&resolve_module(duplicate_empty_functions_module()));
    let new = normalize_module(&resolve_module(duplicate_empty_functions_module()));

    let (_, matched_old, matched_new) = match_by_keys(&old, &new);
    assert_eq!(matched_old, vec![true, true, true]);
    assert_eq!(matched_new, vec![true, true, true]);
    let source_pairs = keyed_source_pairs(&old, &new);
    let changes = diff_changes(&old, &new, &source_pairs);
    let summary = summarize(&changes);

    assert_eq!(summary.functions_added, 0);
    assert_eq!(summary.functions_removed, 0);
    assert_eq!(summary.functions_changed, 0);
    assert_eq!(source_pairs.len(), 3);
    assert!(changes.is_empty());
}

#[test]
fn matches_duplicate_stable_ids_by_occurrence() {
    let old = normalize_module(&resolve_module(duplicate_empty_functions_module()));
    let new = normalize_module(&resolve_module(duplicate_empty_functions_module()));

    let (pairs, _, _) = match_by_keys(&old, &new);
    let indices: Vec<(usize, usize)> = pairs.iter().map(|p| (p.old_index, p.new_index)).collect();
    assert_eq!(indices, vec![(0, 0), (1, 1), (2, 2)]);

    let source_pairs = keyed_source_pairs(&old, &new);
    assert_eq!(source_pairs, vec![(0, 0), (1, 1), (2, 2)]);
    let matched_new: Vec<u32> = source_pairs.iter().map(|p| p.1).collect();
    assert!(unmatched_function_ids(&new, &matched_new).is_empty());
}

#[test]
fn unmatched_import_after_index_drift() {
    let old = normalize_module(&resolve_module(simple_module(false, false)));
    let new = normalize_module(&resolve_module(simple_module(true, false)));

    let (pairs, _, matched_new) = match_by_keys(&old, &new);
    assert_eq!(
        pairs,
        vec![FunctionPair {
            old_index: 0,
            new_index: 1,
            reason: MatchReason::SameStableId
        }]
    );
    assert_eq!(matched_new, vec![false, true]);
    let unmatched = unmatched_function_ids(&new, &vec![1]);
    assert_eq!(unmatched.len(), 1);
    assert!(unmatched[0].starts_with("import:"));
}

#[test]
fn greedy_assignment_skips_taken_functions() {
    let mut matched_old = vec![false, true, false];
    let mut matched_new = vec![false, false];
    let chosen = assign_in_order(
        &vec![(0, 1), (1, 0), (2, 1), (2, 0), (0, 0)],
        &mut matched_old,
        &mut matched_new,
    );
    assert_eq!(chosen, vec![(0, 1), (2, 0)]);
    assert_eq!(matched_old, vec![true, true, true]);
    assert_eq!(matched_new, vec![true, true]);
}

#[test]
fn shared_counts_count_repeats() {
    assert_eq!(
        shared_key_count(&strings(&["a", "b", "a", "c"]), &strings(&["a", "a", "a", "b"])),
        3
    );
    assert_eq!(shared_key_count(&strings(&[]), &strings(&["a"])), 0);
    assert_eq!(shared_call_count(&vec![0, 0, 1], &vec![1, 0, 2]), 2);
    assert_eq!(shared_call_count(&vec![0], &vec![1]), 0);
}

#[test]
fn builder_reports_errors() {
    let mut builder = ModuleBuilder::new();
    let error = builder.begin(false).unwrap_err();
    assert_eq!(error.message, "components are not supported");
    assert_eq!(error.to_text(), "wasm parse error: components are not supported");

    let mut builder = ModuleBuilder::new();
    builder.begin(true).unwrap();
    assert_eq!(
        builder.add_function(5).unwrap_err().message,
        "type index 5 is out of bounds"
    );
    assert_eq!(
        builder
            .add_import("m".to_owned(), "f".to_owned(), RawTypeRef::Func(2))
            .unwrap_err()
            .message,
        "type index 2 is out of bounds"
    );
    builder.add_type(0, vec![], vec![]).unwrap();
    builder.add_function(0).unwrap();
    assert_eq!(
        builder.begin_code(2).unwrap_err().message,
        "function section declares 1 bodies but code section has 2"
    );
    assert_eq!(
        builder.finish().unwrap_err().message,
        "function section declares 1 bodies but parsed 0 code bodies"
    );

    let mut builder = ModuleBuilder::new();
    assert_eq!(
        builder
            .add_body(vec![], vec![])
            .unwrap_err()
            .message,
        "code section contains more bodies than functions"
    );
    assert_eq!(
        builder.finish().unwrap_err().message,
        "missing wasm module header"
    );
    assert_eq!(
        ModuleBuilder::reject_payload().message,
        "nested modules and components are not supported"
    );
}

#[test]
fn builder_numbers_tables_after_imported_ones() {
    let mut builder = ModuleBuilder::new();
    builder.begin(true).unwrap();
    builder
        .add_import("env".to_owned(), "t".to_owned(), RawTypeRef::Table("funcref".to_owned()))
        .unwrap();
    builder.add_table(0, Some(3), false).unwrap();
    builder
        .add_element(0, ElementKindIr::Active, Some(1), vec![0, 2], true)
        .unwrap();
    let module = builder.finish().unwrap().module;
    assert_eq!(module.tables[0].index, 1);
    assert_eq!(module.tables[0].source_index, 0);
    assert_eq!(module.tables[0].init_function_index, Some(3));
    assert_eq!(module.elements[0].function_indices, vec![0, 2]);
    assert_eq!(module.elements[0].table_index, Some(1));
}

#[test]
fn analysis_branch_starts_from_resolved_ir() {
    let resolved = resolve_module(simple_module(false, false));

    let analysis = analysis_module(&resolved);

    assert_eq!(analysis.module.functions[0].id, resolved.module.functions[0].id);
    assert!(analysis.module.functions[0].fingerprint.is_none());
    assert_eq!(analysis.cfgs.len(), 1);
    assert!(!analysis.cfgs[0].blocks.is_empty());
    assert_eq!(analysis.cfgs[0].call_sites.len(), 0);
    assert_eq!(analysis.cfgs[0].entry_block, Some(0));
    assert_eq!(
        analysis.call_graph.roots,
        vec![resolved.module.functions[0].id.clone()]
    );
    assert_eq!(analysis.reachability.roots, analysis.call_graph.roots);
}

#[test]
fn analysis_includes_start_function_as_root() {
    let mut builder = ModuleBuilder::new();
    builder.begin(true).unwrap();
    builder
        .add_type(0, strings(&["i32", "i32"]), strings(&["i32"]))
        .unwrap();
    builder.add_function(0).unwrap();
    builder.set_start(0);
    builder.begin_code(1).unwrap();
    builder
        .add_body(
            vec![],
            vec![
                op(29, Opcode::LocalGet, Immediate::Local(0)),
                op(31, Opcode::LocalGet, Immediate::Local(1)),
                op(33, Opcode::I32Add, Immediate::Empty),
                op(34, Opcode::End, Immediate::Empty),
            ],
        )
        .unwrap();
    let resolved = resolve_module(builder.finish().unwrap());
    let analysis = analysis_module(&resolved);

    assert_eq!(
        analysis.call_graph.roots,
        vec![resolved.module.functions[0].id.clone()]
    );
    assert_eq!(analysis.reachability.roots, analysis.call_graph.roots);
    assert_eq!(
        analysis.call_graph.reachable_functions,
        analysis.call_graph.roots
    );
}

#[test]
fn analysis_resolves_call_indirect_from_active_element_table() {
    let mut builder = ModuleBuilder::new();
    builder.begin(true).unwrap();
    builder.add_type(0, vec![], vec![]).unwrap();
    for _ in 0..3 {
        builder.add_function(0).unwrap();
    }
    builder.add_table(0, None, false).unwrap();
    builder
        .add_export("entry".to_owned(), ExternalKindIr::Func, 0)
        .unwrap();
    builder
        .add_element(0, ElementKindIr::Active, Some(0), vec![1], false)
        .unwrap();
    builder.begin_code(3).unwrap();
    builder
        .add_body(
            vec![],
            vec![
                op(40, Opcode::I32Const, Immediate::I32Const(0)),
                op(
                    42,
                    Opcode::CallIndirect,
                    Immediate::CallIndirect {
                        type_index: 0,
                        table_index: 0,
                    },
                ),
                op(45, Opcode::End, Immediate::Empty),
            ],
        )
        .unwrap();
    builder
        .add_body(vec![], vec![op(48, Opcode::End, Immediate::Empty)])
        .unwrap();
    builder
        .add_body(
            vec![],
            vec![
                op(51, Opcode::Nop, Immediate::Empty),
                op(52, Opcode::End, Immediate::Empty),
            ],
        )
        .unwrap();
    let resolved = resolve_module(builder.finish().unwrap());
    let analysis = analysis_module(&resolved);
    let entry_id = resolved.module.functions[0].id.clone();
    let target_id = resolved.module.functions[1].id.clone();
    let decoy_id = resolved.module.functions[2].id.clone();

    assert_eq!(resolved.module.elements[0].table_index, Some(0));
    assert_eq!(resolved.module.elements[0].function_indices, vec![1]);
    assert!(analysis.call_graph.edges.iter().any(|edge| {
        edge.caller_function_id == entry_id
            && edge.callee_function_id == target_id
            && edge.kind == CallGraphEdgeKindIr::Indirect
    }));
    assert!(!analysis.call_graph.edges.iter().any(|edge| {
        edge.caller_function_id == entry_id
            && edge.callee_function_id == decoy_id
            && edge.kind == CallGraphEdgeKindIr::Indirect
    }));
}

#[test]
fn stable_id_escapes_export_names_as_json() {
    let mut builder = ModuleBuilder::new();
    builder.begin(true).unwrap();
    builder
        .add_type(0, strings(&["i32", "i32"]), strings(&["i32"]))
        .unwrap();
    builder.add_function(0).unwrap();
    builder
        .add_export("t\u{1}".to_owned(), ExternalKindIr::Func, 0)
        .unwrap();
    builder
        .add_export("q\"x\\".to_owned(), ExternalKindIr::Func, 0)
        .unwrap();
    builder.begin_code(1).unwrap();
    builder
        .add_body(vec![], vec![op(0, Opcode::End, Immediate::Empty)])
        .unwrap();
    let module = resolve_module(builder.finish().unwrap());
    assert_eq!(
        module.module.functions[0].id,
        r#"func:exports:["q\"x\\","t\u0001"]:type:i32,i32->i32"#
    );
}

#[test]
fn parse_items_reaches_the_builder_in_order() {
    let items = vec![
        WasmItem::Header { is_module: true },
        WasmItem::Type {
            section_index: 0,
            params: strings(&["i32", "i32"]),
            results: strings(&["i32"]),
        },
        WasmItem::Function { type_index: 0 },
        WasmItem::Export {
            name: "add".to_owned(),
            kind: ExternalKindIr::Func,
            index: 0,
        },
        WasmItem::Skipped,
        WasmItem::CodeStart { count: 1 },
        WasmItem::Body {
            locals: vec![],
            operators: vec![
                op(35, Opcode::LocalGet, Immediate::Local(0)),
                op(37, Opcode::LocalGet, Immediate::Local(1)),
                op(39, Opcode::I32Add, Immediate::Empty),
                op(40, Opcode::End, Immediate::Empty),
            ],
        },
        WasmItem::Skipped,
    ];
    let parsed = parse_items(items).unwrap();
    assert_eq!(parsed, simple_module(false, false));
}

#[test]
fn parse_items_stops_at_the_first_error() {
    let items = vec![
        WasmItem::Header { is_module: true },
        WasmItem::Function { type_index: 3 },
        WasmItem::Unreadable("unexpected end".to_owned()),
    ];
    assert_eq!(
        parse_items(items).unwrap_err().message,
        "type index 3 is out of bounds"
    );

    let unreadable = vec![
        WasmItem::Header { is_module: true },
        WasmItem::Unreadable("unexpected end".to_owned()),
        WasmItem::Unsupported,
    ];
    assert_eq!(parse_items(unreadable).unwrap_err().message, "unexpected end");

    let nested = vec![WasmItem::Header { is_module: true }, WasmItem::Unsupported];
    assert_eq!(
        parse_items(nested).unwrap_err().message,
        "nested modules and components are not supported"
    );

    assert_eq!(
        parse_items(vec![]).unwrap_err().message,
        "missing wasm module header"
    );
}

#[test]
fn identical_bodies_give_no_edits() {
    let module = normalize_module(&resolve_module(simple_module(true, false)));
    for function in &module.module.functions {
        assert!(diff_operators(&function.operators, &function.operators).is_empty());
        assert!(diff_function(function, function).is_none());
    }
    let pairs: Vec<(u32, u32)> = module
        .module
        .functions
        .iter()
        .map(|f| (f.source_index, f.source_index))
        .collect();
    assert!(diff_changes(&module, &module, &pairs).is_empty());
}

#[test]
fn body_start_refuses_a_body_beyond_the_functions() {
    let items = vec![
        WasmItem::Header { is_module: true },
        WasmItem::Type {
            section_index: 0,
            params: vec![],
            results: vec![],
        },
        WasmItem::CodeStart { count: 0 },
        WasmItem::BodyStart,
        WasmItem::Unreadable("unexpected end".to_owned()),
    ];
    assert_eq!(
        parse_items(items).unwrap_err().message,
        "code section contains more bodies than functions"
    );
}

#[test]
fn summaries_add_over_concatenated_changes() {
    let first = vec![
        DiffChange::TypeAdded { id: "t".to_owned() },
        DiffChange::ExportRemoved { id: "e".to_owned() },
    ];
    let second = vec![DiffChange::TypeAdded { id: "u".to_owned() }];
    let mut both = first.clone();
    both.extend(second.clone());
    let (a, b, ab) = (summarize(&first), summarize(&second), summarize(&both));
    assert_eq!(ab.types_added, a.types_added + b.types_added);
    assert_eq!(ab.types_added, 2);
    assert_eq!(ab.exports_removed, a.exports_removed + b.exports_removed);
    assert_eq!(summarize(&vec![]).types_added, 0);
}
