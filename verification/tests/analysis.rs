use wasm_git::analysis::analysis_module;
use wasm_git::ir::{
    CallGraphEdgeKindIr, CfgEdgeKindIr, FunctionIr, FunctionKindIr, Immediate, ModuleIr, Opcode,
    ParsedOperator, ResolvedModule, TypeIr, UnsafeSinkKindIr,
};

fn sample_operator(offset: u64, opcode: Opcode, immediate: Immediate) -> ParsedOperator {
    ParsedOperator {
        offset,
        opcode,
        immediate,
    }
}

fn void_type() -> TypeIr {
    TypeIr {
        id: "type:void->void".to_owned(),
        source_index: 0,
        params: vec![],
        results: vec![],
    }
}

fn function(
    id: &str,
    source_index: u32,
    kind: FunctionKindIr,
    export_names: Vec<String>,
    operators: Vec<ParsedOperator>,
    direct_calls: Vec<u32>,
) -> FunctionIr {
    FunctionIr {
        id: id.to_owned(),
        source_index,
        type_index: 0,
        type_id: "type:void->void".to_owned(),
        kind,
        export_names,
        locals: vec![],
        operators,
        direct_calls,
        fingerprint: None,
    }
}

#[test]
fn analysis_merges_linear_ops_into_basic_blocks() {
    let mut module = ModuleIr::new();
    module.types.push(void_type());
    module.functions.push(function(
        "func:entry",
        0,
        FunctionKindIr::Defined,
        vec!["entry".to_owned()],
        vec![
            sample_operator(0, Opcode::Nop, Immediate::Empty),
            sample_operator(1, Opcode::Nop, Immediate::Empty),
            sample_operator(2, Opcode::If, Immediate::BlockType("void".to_owned())),
            sample_operator(3, Opcode::Nop, Immediate::Empty),
            sample_operator(4, Opcode::End, Immediate::Empty),
            sample_operator(5, Opcode::Return, Immediate::Empty),
        ],
        vec![],
    ));

    let resolved = ResolvedModule::from_module(module);
    let analysis = analysis_module(&resolved);

    assert_eq!(analysis.cfgs[0].blocks.len(), 3);
    assert_eq!(analysis.cfgs[0].blocks[0].operators.len(), 3);
    assert_eq!(analysis.cfgs[0].blocks[0].successors.len(), 2);
    assert_eq!(analysis.cfgs[0].blocks[1].operators.len(), 1);
    assert_eq!(
        analysis.cfgs[0].blocks[1].successors[0].kind,
        CfgEdgeKindIr::Fallthrough
    );
    assert_eq!(
        analysis.cfgs[0].blocks[2].successors[0].kind,
        CfgEdgeKindIr::Return
    );
}

#[test]
fn analysis_builds_call_graph_and_unsafe_paths() {
    let mut module = ModuleIr::new();
    module.types.push(void_type());
    module.functions.push(function(
        "func:entry",
        0,
        FunctionKindIr::Defined,
        vec!["entry".to_owned()],
        vec![
            sample_operator(0, Opcode::Call, Immediate::Call(1)),
            sample_operator(1, Opcode::Call, Immediate::Call(2)),
            sample_operator(2, Opcode::Return, Immediate::Empty),
        ],
        vec![1, 2],
    ));
    module.functions.push(function(
        "import:host:sink:func:type:void->void",
        1,
        FunctionKindIr::Imported,
        vec![],
        vec![],
        vec![],
    ));
    module.functions.push(function(
        "func:unsafe",
        2,
        FunctionKindIr::Defined,
        vec![],
        vec![sample_operator(
            0,
            Opcode::I32Store,
            Immediate::MemArg {
                align: 2,
                offset: 0,
            },
        )],
        vec![],
    ));

    let resolved = ResolvedModule::from_module(module);
    let analysis = analysis_module(&resolved);

    assert!(analysis
        .call_graph
        .edges
        .iter()
        .any(|edge| edge.caller_function_id == "func:entry"
            && edge.callee_function_id == "import:host:sink:func:type:void->void"
            && edge.kind == CallGraphEdgeKindIr::Direct));
    assert!(analysis
        .reachability
        .reachable_imports
        .contains(&"import:host:sink:func:type:void->void".to_owned()));
    assert!(analysis.unsafe_paths.iter().any(|path| path.function_path
        == vec!["func:entry".to_owned(), "func:unsafe".to_owned()]
        && path.sink.function_id == "func:unsafe"));
}

#[test]
fn cfg_handles_minimal_function_without_panic() {
    let mut module = ModuleIr::new();
    module.functions.push(function(
        "func:empty",
        0,
        FunctionKindIr::Defined,
        vec![],
        vec![],
        vec![],
    ));

    let resolved = ResolvedModule::from_module(module);
    let analysis = analysis_module(&resolved);

    assert_eq!(analysis.cfgs.len(), 1);
    assert!(analysis.cfgs[0].blocks.is_empty());
    assert_eq!(analysis.cfgs[0].entry_block, None);
    assert_eq!(analysis.cfgs[0].call_sites.len(), 0);
}

#[test]
fn cfg_handles_branches_without_unwrap() {
    let mut module = ModuleIr::new();
    module.types.push(void_type());
    module.functions.push(function(
        "func:branchy",
        0,
        FunctionKindIr::Defined,
        vec!["branchy".to_owned()],
        vec![
            sample_operator(0, Opcode::Nop, Immediate::Empty),
            sample_operator(1, Opcode::Nop, Immediate::Empty),
            sample_operator(2, Opcode::If, Immediate::BlockType("void".to_owned())),
            sample_operator(3, Opcode::Nop, Immediate::Empty),
            sample_operator(4, Opcode::Else, Immediate::Empty),
            sample_operator(5, Opcode::Nop, Immediate::Empty),
            sample_operator(6, Opcode::End, Immediate::Empty),
            sample_operator(7, Opcode::Return, Immediate::Empty),
        ],
        vec![],
    ));

    let resolved = ResolvedModule::from_module(module);
    let analysis = analysis_module(&resolved);

    assert_eq!(analysis.cfgs.len(), 1);
    let cfg = &analysis.cfgs[0];
    assert_eq!(cfg.blocks.len(), 4, "expected 4 basic blocks");
    assert_eq!(cfg.blocks[0].successors.len(), 2);
    assert_eq!(cfg.blocks[1].successors.len(), 1);
    assert_eq!(cfg.blocks[2].successors.len(), 1);
    assert_eq!(cfg.blocks[3].successors.len(), 1);
    assert_eq!(cfg.entry_block, Some(0));
}

#[test]
fn analysis_classifies_table_ops_as_table_access() {
    let mut module = ModuleIr::new();
    module.functions.push(function(
        "func:table",
        0,
        FunctionKindIr::Defined,
        vec!["table".to_owned()],
        vec![sample_operator(
            0,
            Opcode::TableGet,
            Immediate::TableIndex(0),
        )],
        vec![],
    ));

    let resolved = ResolvedModule::from_module(module);
    let analysis = analysis_module(&resolved);

    assert_eq!(
        analysis.unsafe_paths[0].sink.kind,
        UnsafeSinkKindIr::TableAccess
    );
}

#[test]
fn analysis_roots_are_reachable_and_unreachable_functions_listed() {
    let mut module = ModuleIr::new();
    module.types.push(void_type());
    module.functions.push(function(
        "func:main",
        0,
        FunctionKindIr::Defined,
        vec!["main".to_owned()],
        vec![
            sample_operator(0, Opcode::Call, Immediate::Call(1)),
            sample_operator(1, Opcode::End, Immediate::Empty),
        ],
        vec![1],
    ));
    module.functions.push(function(
        "func:helper",
        1,
        FunctionKindIr::Defined,
        vec![],
        vec![sample_operator(2, Opcode::End, Immediate::Empty)],
        vec![],
    ));
    module.functions.push(function(
        "func:dead",
        2,
        FunctionKindIr::Defined,
        vec![],
        vec![sample_operator(3, Opcode::End, Immediate::Empty)],
        vec![],
    ));

    let analysis = ResolvedModule::from_module(module).analyze();

    assert_eq!(analysis.call_graph.roots, vec!["func:main".to_owned()]);
    assert_eq!(
        analysis.call_graph.reachable_functions,
        vec!["func:main".to_owned(), "func:helper".to_owned()]
    );
    assert_eq!(
        analysis.reachability.unreachable_functions,
        vec!["func:dead".to_owned()]
    );
    assert_eq!(analysis.reachability.roots, analysis.call_graph.roots);
}

#[test]
fn unsafe_path_takes_the_fewest_calls() {
    // entry -> a -> b -> sink, and entry -> b directly: the path goes
    // through the direct call.
    let mut module = ModuleIr::new();
    module.types.push(void_type());
    module.functions.push(function(
        "func:entry",
        0,
        FunctionKindIr::Defined,
        vec!["entry".to_owned()],
        vec![
            sample_operator(0, Opcode::Call, Immediate::Call(1)),
            sample_operator(1, Opcode::Call, Immediate::Call(2)),
            sample_operator(2, Opcode::Return, Immediate::Empty),
        ],
        vec![1, 2],
    ));
    module.functions.push(function(
        "func:a",
        1,
        FunctionKindIr::Defined,
        vec![],
        vec![
            sample_operator(0, Opcode::Call, Immediate::Call(2)),
            sample_operator(1, Opcode::Return, Immediate::Empty),
        ],
        vec![2],
    ));
    module.functions.push(function(
        "func:b",
        2,
        FunctionKindIr::Defined,
        vec![],
        vec![
            sample_operator(0, Opcode::Call, Immediate::Call(3)),
            sample_operator(1, Opcode::Return, Immediate::Empty),
        ],
        vec![3],
    ));
    module.functions.push(function(
        "func:sink",
        3,
        FunctionKindIr::Defined,
        vec![],
        vec![sample_operator(0, Opcode::MemoryGrow, Immediate::MemoryIndex(0))],
        vec![],
    ));

    let resolved = ResolvedModule::from_module(module);
    let analysis = analysis_module(&resolved);

    let path = analysis
        .unsafe_paths
        .iter()
        .find(|path| path.sink.function_id == "func:sink")
        .expect("the sink is reachable");
    assert_eq!(
        path.function_path,
        vec![
            "func:entry".to_owned(),
            "func:b".to_owned(),
            "func:sink".to_owned()
        ]
    );
    assert_eq!(path.entry_function_id, "func:entry");
}
