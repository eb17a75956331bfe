//! Module-level analysis: control-flow graphs of every defined function,
//! the call graph, reachability from the exported and start functions, and
//! call paths to operations that may trap or touch memory and tables.

use vstd::prelude::*;

use crate::cfg::{build_function_cfg, cfg_built, opt_text};
use crate::ir::{
    same_module, AnalysisModule, BasicBlockIr, CallGraphEdgeIr, CallGraphEdgeKindIr, CallGraphIr,
    CallSiteIr, ElementKindIr, ExternalKindIr, FunctionCfgIr, FunctionIr, FunctionKindIr,
    Immediate, ImportIr, ModuleIr, ParsedOperator, ReachabilityIr, ResolvedModule, UnsafePathIr,
    UnsafeSinkIr, UnsafeSinkKindIr,
};
use crate::opcode::opcode_text;
use crate::opcode::Opcode;
use crate::text::{
    contains_text, dedup_sorted, lemma_sorted_unique_of_sorted, lemma_texts_push, sorted_unique,
    str_eq, strictly_sorted, texts,
};

verus! {

// ---------------------------------------------------------------------------
// Function lists
// ---------------------------------------------------------------------------

/// Identifiers of the functions whose type identifier is `t`, in order.
pub open spec fn ids_of_type(fs: Seq<FunctionIr>, t: Seq<char>) -> Seq<Seq<char>>
    decreases fs.len(),
{
    if fs.len() == 0 {
        Seq::empty()
    } else {
        let p = ids_of_type(fs.drop_last(), t);
        if fs.last().type_id@ == t {
            p.push(fs.last().id@)
        } else {
            p
        }
    }
}

fn type_matching_function_ids(module: &ModuleIr, type_id: &str) -> (r: Vec<String>)
    ensures
        texts(r@) == ids_of_type(module.functions@, type_id@),
{
    let mut r: Vec<String> = Vec::new();
    let mut i: usize = 0;
    while i < module.functions.len()
        invariant
            i <= module.functions@.len(),
            texts(r@) == ids_of_type(module.functions@.subrange(0, i as int), type_id@),
        decreases module.functions@.len() - i,
    {
        let function = &module.functions[i];
        proof {
            assert(module.functions@.subrange(0, i + 1).drop_last() =~= module.functions@.subrange(0, i as int));
        }
        if str_eq(function.type_id.as_str(), type_id) {
            r.push(function.id.clone());
        }
        proof {
            assert(texts(r@) =~= ids_of_type(module.functions@.subrange(0, i + 1), type_id@));
        }
        i = i + 1;
    }
    assert(module.functions@.subrange(0, module.functions@.len() as int) =~= module.functions@);
    r
}

// ---------------------------------------------------------------------------
// Tables
// ---------------------------------------------------------------------------

/// How many imports are tables.
pub open spec fn table_import_count(imports: Seq<ImportIr>) -> nat
    decreases imports.len(),
{
    if imports.len() == 0 {
        0
    } else {
        table_import_count(imports.drop_last()) + if imports.last().kind == ExternalKindIr::Table {
            1nat
        } else {
            0nat
        }
    }
}

/// The number of imported tables, truncated to 32 bits.
fn imported_table_count(module: &ModuleIr) -> (r: u32)
    ensures
        r == table_import_count(module.imports@) as u32,
{
    let mut count: usize = 0;
    let mut i: usize = 0;
    while i < module.imports.len()
        invariant
            i <= module.imports@.len(),
            count == table_import_count(module.imports@.subrange(0, i as int)),
            count <= i,
        decreases module.imports@.len() - i,
    {
        proof {
            assert(module.imports@.subrange(0, i + 1).drop_last() =~= module.imports@.subrange(0, i as int));
        }
        if module.imports[i].kind == ExternalKindIr::Table {
            count = count + 1;
        }
        i = i + 1;
    }
    assert(module.imports@.subrange(0, module.imports@.len() as int) =~= module.imports@);
    count as u32
}

/// A defined table whose initial contents are not a known function.
pub open spec fn table_has_unknown_init(module: ModuleIr, table_index: u32) -> bool {
    exists|k: int|
        0 <= k < module.tables@.len() && (#[trigger] module.tables@[k]).index == table_index
            && module.tables@[k].has_unknown_init
}

fn defined_table_has_unknown_init(module: &ModuleIr, table_index: u32) -> (r: bool)
    ensures
        r == table_has_unknown_init(*module, table_index),
{
    let mut i: usize = 0;
    while i < module.tables.len()
        invariant
            i <= module.tables@.len(),
            forall|k: int|
                0 <= k < i ==> !((#[trigger] module.tables@[k]).index == table_index
                    && module.tables@[k].has_unknown_init),
        decreases module.tables@.len() - i,
    {
        if module.tables[i].index == table_index && module.tables[i].has_unknown_init {
            return true;
        }
        i = i + 1;
    }
    false
}

/// An active element segment for the table holds an item that is not a
/// known function.
pub open spec fn table_has_unknown_items(module: ModuleIr, table_index: u32) -> bool {
    exists|k: int|
        0 <= k < module.elements@.len() && (#[trigger] module.elements@[k]).kind
            == ElementKindIr::Active && module.elements@[k].table_index == Some(table_index)
            && module.elements@[k].has_unknown_items
}

fn active_table_has_unknown_items(module: &ModuleIr, table_index: u32) -> (r: bool)
    ensures
        r == table_has_unknown_items(*module, table_index),
{
    let mut i: usize = 0;
    while i < module.elements.len()
        invariant
            i <= module.elements@.len(),
            forall|k: int|
                0 <= k < i ==> !((#[trigger] module.elements@[k]).kind == ElementKindIr::Active
                    && module.elements@[k].table_index == Some(table_index)
                    && module.elements@[k].has_unknown_items),
        decreases module.elements@.len() - i,
    {
        let element = &module.elements[i];
        if element.kind == ElementKindIr::Active && element.table_index == Some(table_index)
            && element.has_unknown_items {
            return true;
        }
        i = i + 1;
    }
    false
}

/// The operator may change what the table holds.
pub open spec fn spec_table_mutation(op: ParsedOperator, table_index: u32) -> bool {
    match op.opcode {
        Opcode::TableSet | Opcode::TableGrow | Opcode::TableFill => match op.immediate {
            Immediate::TableIndex(i) => i == table_index,
            _ => false,
        },
        Opcode::TableCopy => match op.immediate {
            Immediate::TableCopy { dst_table, .. } => dst_table == table_index,
            _ => false,
        },
        Opcode::TableInit => true,
        _ => false,
    }
}

fn table_mutation_may_affect(operator: &ParsedOperator, table_index: u32) -> (r: bool)
    ensures
        r == spec_table_mutation(*operator, table_index),
{
    match operator.opcode {
        Opcode::TableSet | Opcode::TableGrow | Opcode::TableFill => match &operator.immediate {
            Immediate::TableIndex(index) => *index == table_index,
            _ => false,
        },
        Opcode::TableCopy => match &operator.immediate {
            Immediate::TableCopy { dst_table, .. } => *dst_table == table_index,
            _ => false,
        },
        Opcode::TableInit => true,
        _ => false,
    }
}

/// Some operator of some function may change what the table holds.
pub open spec fn table_is_mutated(module: ModuleIr, table_index: u32) -> bool {
    exists|f: int, k: int|
        0 <= f < module.functions@.len() && 0 <= k < module.functions@[f].operators@.len()
            && spec_table_mutation(#[trigger] module.functions@[f].operators@[k], table_index)
}

/// The table's contents are not fixed by the module: it is imported, its
/// initial value or an element item is unknown, or code may change it.
pub open spec fn table_is_dynamic(module: ModuleIr, table_index: u32) -> bool {
    ||| table_index < table_import_count(module.imports@) as u32
    ||| table_has_unknown_init(module, table_index)
    ||| table_has_unknown_items(module, table_index)
    ||| table_is_mutated(module, table_index)
}

fn table_targets_are_dynamic(module: &ModuleIr, table_index: u32) -> (r: bool)
    ensures
        r == table_is_dynamic(*module, table_index),
{
    if table_index < imported_table_count(module) {
        return true;
    }
    if defined_table_has_unknown_init(module, table_index) {
        return true;
    }
    if active_table_has_unknown_items(module, table_index) {
        return true;
    }
    let mut f: usize = 0;
    while f < module.functions.len()
        invariant
            f <= module.functions@.len(),
            forall|x: int, k: int|
                0 <= x < f && 0 <= k < module.functions@[x].operators@.len() ==> !spec_table_mutation(
                    #[trigger] module.functions@[x].operators@[k],
                    table_index,
                ),
        decreases module.functions@.len() - f,
    {
        let operators = &module.functions[f].operators;
        let mut k: usize = 0;
        while k < operators.len()
            invariant
                f < module.functions@.len(),
                operators@ == module.functions@[f as int].operators@,
                k <= operators@.len(),
                forall|x: int, j: int|
                    0 <= x < f && 0 <= j < module.functions@[x].operators@.len() ==> !spec_table_mutation(
                        #[trigger] module.functions@[x].operators@[j],
                        table_index,
                    ),
                forall|j: int| 0 <= j < k ==> !spec_table_mutation(#[trigger] operators@[j], table_index),
            decreases operators@.len() - k,
        {
            if table_mutation_may_affect(&operators[k], table_index) {
                return true;
            }
            k = k + 1;
        }
        f = f + 1;
    }
    false
}

/// Function indices a table is known to hold: its initial function, then
/// the functions of active element segments for it.
pub open spec fn table_candidates(module: ModuleIr, table_index: u32) -> Seq<u32> {
    table_init_indices(module.tables@, table_index) + element_indices(module.elements@, table_index)
}

pub open spec fn table_init_indices(tables: Seq<crate::ir::TableIr>, table_index: u32) -> Seq<u32>
    decreases tables.len(),
{
    if tables.len() == 0 {
        Seq::empty()
    } else {
        let p = table_init_indices(tables.drop_last(), table_index);
        let t = tables.last();
        if t.index == table_index && t.init_function_index is Some {
            p.push(t.init_function_index->0)
        } else {
            p
        }
    }
}

pub open spec fn element_indices(elements: Seq<crate::ir::ElementIr>, table_index: u32) -> Seq<u32>
    decreases elements.len(),
{
    if elements.len() == 0 {
        Seq::empty()
    } else {
        let p = element_indices(elements.drop_last(), table_index);
        let e = elements.last();
        if e.kind == ElementKindIr::Active && e.table_index == Some(table_index) {
            p + e.function_indices@
        } else {
            p
        }
    }
}

/// Identifiers of the functions at the given indices whose type is `t`.
pub open spec fn candidate_ids(fs: Seq<FunctionIr>, indices: Seq<u32>, t: Seq<char>) -> Seq<Seq<char>>
    decreases indices.len(),
{
    if indices.len() == 0 {
        Seq::empty()
    } else {
        let p = candidate_ids(fs, indices.drop_last(), t);
        let i = indices.last();
        if i < fs.len() && fs[i as int].type_id@ == t {
            p.push(fs[i as int].id@)
        } else {
            p
        }
    }
}

/// The possible targets of an indirect call of type `t` through a table:
/// every function of that type when the table is dynamic, otherwise the
/// functions of that type the table is known to hold, sorted and unique.
pub open spec fn indirect_ids(module: ModuleIr, t: Seq<char>, table_index: u32) -> Seq<Seq<char>> {
    if table_is_dynamic(module, table_index) {
        ids_of_type(module.functions@, t)
    } else {
        sorted_unique(candidate_ids(module.functions@, table_candidates(module, table_index), t))
    }
}

fn push_candidate_ids(
    out: &mut Vec<String>,
    module: &ModuleIr,
    indices: &Vec<u32>,
    type_id: &str,
)
    ensures
        texts(final(out)@) == texts(old(out)@) + candidate_ids(module.functions@, indices@, type_id@),
{
    let ghost start = texts(out@);
    let mut k: usize = 0;
    while k < indices.len()
        invariant
            k <= indices@.len(),
            texts(out@) == start + candidate_ids(module.functions@, indices@.subrange(0, k as int), type_id@),
        decreases indices@.len() - k,
    {
        proof {
            assert(indices@.subrange(0, k + 1).drop_last() =~= indices@.subrange(0, k as int));
            assert(indices@.subrange(0, k + 1).last() == indices@[k as int]);
        }
        let index = indices[k] as usize;
        let ghost prev = out@;
        if index < module.functions.len() && str_eq(module.functions[index].type_id.as_str(), type_id) {
            out.push(module.functions[index].id.clone());
            proof {
                lemma_texts_push(prev, module.functions@[index as int].id);
            }
        }
        proof {
            assert(texts(out@) =~= start + candidate_ids(module.functions@, indices@.subrange(0, k + 1), type_id@));
        }
        k = k + 1;
    }
    assert(indices@.subrange(0, indices@.len() as int) =~= indices@);
}

proof fn lemma_candidate_ids_append(fs: Seq<FunctionIr>, a: Seq<u32>, b: Seq<u32>, t: Seq<char>)
    ensures
        candidate_ids(fs, a + b, t) == candidate_ids(fs, a, t) + candidate_ids(fs, b, t),
    decreases b.len(),
{
    if b.len() == 0 {
        assert(a + b =~= a);
        assert(candidate_ids(fs, a, t) + candidate_ids(fs, b, t) =~= candidate_ids(fs, a, t));
    } else {
        lemma_candidate_ids_append(fs, a, b.drop_last(), t);
        assert((a + b).drop_last() =~= a + b.drop_last());
        assert((a + b).last() == b.last());
        assert(candidate_ids(fs, a + b, t) =~= candidate_ids(fs, a, t) + candidate_ids(fs, b, t));
    }
}

fn indirect_call_target_ids(module: &ModuleIr, type_id: &str, table_index: u32) -> (r: Vec<String>)
    ensures
        texts(r@) == indirect_ids(*module, type_id@, table_index),
{
    if table_targets_are_dynamic(module, table_index) {
        return type_matching_function_ids(module, type_id);
    }
    let mut callee_ids: Vec<String> = Vec::new();
    let ghost fs = module.functions@;
    let mut i: usize = 0;
    while i < module.tables.len()
        invariant
            fs == module.functions@,
            i <= module.tables@.len(),
            texts(callee_ids@) == candidate_ids(fs, table_init_indices(module.tables@.subrange(0, i as int), table_index), type_id@),
        decreases module.tables@.len() - i,
    {
        proof {
            assert(module.tables@.subrange(0, i + 1).drop_last() =~= module.tables@.subrange(0, i as int));
        }
        let table = &module.tables[i];
        if table.index == table_index {
            if let Some(function_index) = table.init_function_index {
                let ghost p = table_init_indices(module.tables@.subrange(0, i as int), table_index);
                let one = vec![function_index];
                push_candidate_ids(&mut callee_ids, module, &one, type_id);
                proof {
                    assert(one@ =~= seq![function_index]);
                    lemma_candidate_ids_append(fs, p, one@, type_id@);
                    assert(table_init_indices(module.tables@.subrange(0, i + 1), table_index) =~= p + one@);
                }
            }
        }
        i = i + 1;
    }
    assert(module.tables@.subrange(0, module.tables@.len() as int) =~= module.tables@);
    let ghost init = table_init_indices(module.tables@, table_index);
    let mut j: usize = 0;
    while j < module.elements.len()
        invariant
            fs == module.functions@,
            init == table_init_indices(module.tables@, table_index),
            j <= module.elements@.len(),
            texts(callee_ids@) == candidate_ids(fs, init + element_indices(module.elements@.subrange(0, j as int), table_index), type_id@),
        decreases module.elements@.len() - j,
    {
        proof {
            assert(module.elements@.subrange(0, j + 1).drop_last() =~= module.elements@.subrange(0, j as int));
        }
        let element = &module.elements[j];
        if element.kind == ElementKindIr::Active && element.table_index == Some(table_index) {
            let ghost p = init + element_indices(module.elements@.subrange(0, j as int), table_index);
            push_candidate_ids(&mut callee_ids, module, &element.function_indices, type_id);
            proof {
                lemma_candidate_ids_append(fs, p, element.function_indices@, type_id@);
                assert(init + element_indices(module.elements@.subrange(0, j + 1), table_index) =~= p + element.function_indices@);
            }
        }
        j = j + 1;
    }
    assert(module.elements@.subrange(0, module.elements@.len() as int) =~= module.elements@);
    dedup_sorted(callee_ids)
}

// ---------------------------------------------------------------------------
// Call graph edges
// ---------------------------------------------------------------------------

/// The kind of call-graph edge a calling opcode creates.
pub open spec fn edge_kind_of(op: Opcode) -> Option<CallGraphEdgeKindIr> {
    match op {
        Opcode::Call => Some(CallGraphEdgeKindIr::Direct),
        Opcode::ReturnCall => Some(CallGraphEdgeKindIr::TailDirect),
        Opcode::CallIndirect => Some(CallGraphEdgeKindIr::Indirect),
        Opcode::ReturnCallIndirect => Some(CallGraphEdgeKindIr::TailIndirect),
        Opcode::CallRef => Some(CallGraphEdgeKindIr::Ref),
        Opcode::ReturnCallRef => Some(CallGraphEdgeKindIr::TailRef),
        _ => None,
    }
}

/// The functions a call site may call.
pub open spec fn callee_ids(module: ModuleIr, site: CallSiteIr) -> Seq<Seq<char>> {
    let types = module.types@;
    match site.operator.opcode {
        Opcode::Call | Opcode::ReturnCall => match opt_text(site.target_function_id) {
            Some(t) => seq![t],
            None => Seq::empty(),
        },
        Opcode::CallIndirect | Opcode::ReturnCallIndirect => match site.operator.immediate {
            Immediate::CallIndirect { type_index, table_index } => if type_index < types.len() {
                indirect_ids(module, types[type_index as int].id@, table_index)
            } else {
                Seq::empty()
            },
            _ => Seq::empty(),
        },
        Opcode::CallRef | Opcode::ReturnCallRef => match site.operator.immediate {
            Immediate::CallRef(type_index) => if type_index < types.len() {
                ids_of_type(module.functions@, types[type_index as int].id@)
            } else {
                Seq::empty()
            },
            _ => Seq::empty(),
        },
        _ => Seq::empty(),
    }
}

/// The data of a call-graph edge.
pub open spec fn edge_view(e: CallGraphEdgeIr) -> (Seq<char>, Seq<char>, usize, u64, CallGraphEdgeKindIr) {
    (e.caller_function_id@, e.callee_function_id@, e.call_site_index, e.call_site_offset, e.kind)
}

pub open spec fn edge_views(es: Seq<CallGraphEdgeIr>) -> Seq<(Seq<char>, Seq<char>, usize, u64, CallGraphEdgeKindIr)> {
    es.map_values(|e: CallGraphEdgeIr| edge_view(e))
}

/// One edge from the caller to each possible callee of a call site.
pub open spec fn site_edges(
    module: ModuleIr,
    caller: Seq<char>,
    site: CallSiteIr,
) -> Seq<(Seq<char>, Seq<char>, usize, u64, CallGraphEdgeKindIr)> {
    match edge_kind_of(site.operator.opcode) {
        Some(kind) => callee_ids(module, site).map_values(
            |c: Seq<char>| (caller, c, site.operator_index, site.offset, kind),
        ),
        None => Seq::empty(),
    }
}

fn call_indirect_target(imm: &Immediate, module: &ModuleIr) -> (r: Option<(String, u32)>)
    ensures
        r matches Some((t, ti)) ==> imm matches Immediate::CallIndirect { type_index, table_index }
            && type_index < module.types@.len() && t@ == module.types@[type_index as int].id@
            && ti == table_index,
        r is None ==> !(imm matches Immediate::CallIndirect { type_index, .. } && type_index < module.types@.len()),
{
    match imm {
        Immediate::CallIndirect { type_index, table_index } => if (*type_index as usize) < module.types.len() {
            Some((module.types[*type_index as usize].id.clone(), *table_index))
        } else {
            None
        },
        _ => None,
    }
}

fn call_ref_type_id(imm: &Immediate, module: &ModuleIr) -> (r: Option<String>)
    ensures
        r matches Some(t) ==> imm matches Immediate::CallRef(type_index) && type_index
            < module.types@.len() && t@ == module.types@[type_index as int].id@,
        r is None ==> !(imm matches Immediate::CallRef(type_index) && type_index < module.types@.len()),
{
    match imm {
        Immediate::CallRef(type_index) => if (*type_index as usize) < module.types.len() {
            Some(module.types[*type_index as usize].id.clone())
        } else {
            None
        },
        _ => None,
    }
}

fn call_graph_edges_for_call_site(
    module: &ModuleIr,
    cfg: &FunctionCfgIr,
    call_site: &CallSiteIr,
) -> (r: Vec<CallGraphEdgeIr>)
    ensures
        edge_views(r@) == site_edges(*module, cfg.function_id@, *call_site),
{
    let edge_kind = match call_site.operator.opcode {
        Opcode::Call => CallGraphEdgeKindIr::Direct,
        Opcode::ReturnCall => CallGraphEdgeKindIr::TailDirect,
        Opcode::CallIndirect => CallGraphEdgeKindIr::Indirect,
        Opcode::ReturnCallIndirect => CallGraphEdgeKindIr::TailIndirect,
        Opcode::CallRef => CallGraphEdgeKindIr::Ref,
        Opcode::ReturnCallRef => CallGraphEdgeKindIr::TailRef,
        _ => {
            let r: Vec<CallGraphEdgeIr> = Vec::new();
            assert(edge_views(r@) =~= site_edges(*module, cfg.function_id@, *call_site));
            return r;
        },
    };
    let mut callees: Vec<String> = Vec::new();
    match call_site.operator.opcode {
        Opcode::Call | Opcode::ReturnCall => {
            if let Some(id) = &call_site.target_function_id {
                callees.push(id.clone());
            }
        },
        Opcode::CallIndirect | Opcode::ReturnCallIndirect => {
            if let Some((type_id, table_index)) = call_indirect_target(&call_site.operator.immediate, module) {
                callees = indirect_call_target_ids(module, type_id.as_str(), table_index);
            }
        },
        _ => {
            if let Some(type_id) = call_ref_type_id(&call_site.operator.immediate, module) {
                callees = type_matching_function_ids(module, type_id.as_str());
            }
        },
    }
    assert(texts(callees@) =~= callee_ids(*module, *call_site));
    let mut edges: Vec<CallGraphEdgeIr> = Vec::new();
    let mut i: usize = 0;
    while i < callees.len()
        invariant
            forall|j: int| 0 <= j < i ==> edges@[j].caller_function_id@ == cfg.function_id@,
            i <= callees@.len(),
            texts(callees@) == callee_ids(*module, *call_site),
            edge_kind_of(call_site.operator.opcode) == Some(edge_kind),
            edge_views(edges@) =~= site_edges(*module, cfg.function_id@, *call_site).subrange(0, i as int),
        decreases callees@.len() - i,
    {
        let ghost prev = edges@;
        edges.push(
            CallGraphEdgeIr {
                caller_function_id: cfg.function_id.clone(),
                callee_function_id: callees[i].clone(),
                call_site_index: call_site.operator_index,
                call_site_offset: call_site.offset,
                kind: edge_kind,
            },
        );
        proof {
            let se = site_edges(*module, cfg.function_id@, *call_site);
            assert(texts(callees@)[i as int] == callees@[i as int]@);
            assert(se[i as int] == (cfg.function_id@, callees@[i as int]@, call_site.operator_index, call_site.offset, edge_kind));
            assert(edges@ =~= prev.push(edges@.last()));
            assert(edge_views(edges@) =~= edge_views(prev).push(edge_view(edges@.last())));
            assert(edge_views(edges@) =~= se.subrange(0, i + 1));
        }
        i = i + 1;
    }
    assert(site_edges(*module, cfg.function_id@, *call_site).subrange(0, callees@.len() as int)
        =~= site_edges(*module, cfg.function_id@, *call_site));
    edges
}

/// The edges of every call site of the first `n` control-flow graphs.
pub open spec fn graph_edges(module: ModuleIr, cfgs: Seq<FunctionCfgIr>) -> Seq<(Seq<char>, Seq<char>, usize, u64, CallGraphEdgeKindIr)>
    decreases cfgs.len(),
{
    if cfgs.len() == 0 {
        Seq::empty()
    } else {
        graph_edges(module, cfgs.drop_last()) + cfg_edges(module, cfgs.last(), cfgs.last().call_sites@.len() as int)
    }
}

/// The edges of the first `n` call sites of one control-flow graph.
pub open spec fn cfg_edges(module: ModuleIr, cfg: FunctionCfgIr, n: int) -> Seq<(Seq<char>, Seq<char>, usize, u64, CallGraphEdgeKindIr)>
    decreases n,
{
    if n <= 0 {
        Seq::empty()
    } else {
        cfg_edges(module, cfg, n - 1) + site_edges(module, cfg.function_id@, cfg.call_sites@[n - 1])
    }
}

fn collect_edges(module: &ModuleIr, cfgs: &Vec<FunctionCfgIr>) -> (r: Vec<CallGraphEdgeIr>)
    ensures
        edge_views(r@) == graph_edges(*module, cfgs@),
{
    let mut edges: Vec<CallGraphEdgeIr> = Vec::new();
    let mut c: usize = 0;
    while c < cfgs.len()
        invariant
            c <= cfgs@.len(),
            edge_views(edges@) == graph_edges(*module, cfgs@.subrange(0, c as int)),
        decreases cfgs@.len() - c,
    {
        let cfg = &cfgs[c];
        let ghost before = edge_views(edges@);
        let mut s: usize = 0;
        while s < cfg.call_sites.len()
            invariant
                s <= cfg.call_sites@.len(),
                edge_views(edges@) == before + cfg_edges(*module, *cfg, s as int),
            decreases cfg.call_sites@.len() - s,
        {
            let mut site_edges = call_graph_edges_for_call_site(module, cfg, &cfg.call_sites[s]);
            let ghost prev = edges@;
            let ghost added = site_edges@;
            edges.append(&mut site_edges);
            proof {
                assert(edges@ =~= prev + added);
                assert(edge_views(edges@) =~= edge_views(prev) + edge_views(added));
            }
            s = s + 1;
        }
        proof {
            assert(cfgs@.subrange(0, c + 1).drop_last() =~= cfgs@.subrange(0, c as int));
            assert(cfgs@.subrange(0, c + 1).last() == *cfg);
        }
        c = c + 1;
    }
    assert(cfgs@.subrange(0, cfgs@.len() as int) =~= cfgs@);
    edges
}

// ---------------------------------------------------------------------------
// Reachability
// ---------------------------------------------------------------------------

/// Some edge runs from `a` to `b`.
pub open spec fn has_edge(edges: Seq<CallGraphEdgeIr>, a: Seq<char>, b: Seq<char>) -> bool {
    exists|e: int|
        0 <= e < edges.len() && (#[trigger] edges[e]).caller_function_id@ == a
            && edges[e].callee_function_id@ == b
}

/// `t` is a root or is reached from one in at most `n` edges.
pub open spec fn reach_within(
    roots: Seq<Seq<char>>,
    edges: Seq<CallGraphEdgeIr>,
    t: Seq<char>,
    n: nat,
) -> bool
    decreases n,
{
    roots.contains(t) || (n > 0 && exists|a: Seq<char>|
        #[trigger] has_edge(edges, a, t) && reach_within(roots, edges, a, (n - 1) as nat))
}

/// `t` is reached from a root along the edges.
pub open spec fn reachable(roots: Seq<Seq<char>>, edges: Seq<CallGraphEdgeIr>, t: Seq<char>) -> bool {
    exists|n: nat| #[trigger] reach_within(roots, edges, t, n)
}

/// The identifiers (in module order) of the functions that are reached
/// (`reach`) or not, optionally only imported ones.
pub open spec fn reach_ids(
    fs: Seq<FunctionIr>,
    roots: Seq<Seq<char>>,
    edges: Seq<CallGraphEdgeIr>,
    reach: bool,
    imported_only: bool,
) -> Seq<Seq<char>>
    decreases fs.len(),
{
    if fs.len() == 0 {
        Seq::empty()
    } else {
        let p = reach_ids(fs.drop_last(), roots, edges, reach, imported_only);
        let f = fs.last();
        if reachable(roots, edges, f.id@) == reach && (!imported_only || f.kind
            == FunctionKindIr::Imported) {
            p.push(f.id@)
        } else {
            p
        }
    }
}

/// A discovery order of distinct identifiers with, for each, the position
/// of the one it was reached from (itself for a root).
pub open spec fn discovery_ok(
    order: Seq<Seq<char>>,
    parent: Seq<usize>,
    roots: Seq<Seq<char>>,
    edges: Seq<CallGraphEdgeIr>,
) -> bool {
    &&& order.no_duplicates()
    &&& parent.len() == order.len()
    &&& forall|k: int|
        0 <= k < order.len() ==> {
            &&& #[trigger] parent[k] <= k
            &&& parent[k] == k ==> roots.contains(order[k])
            &&& parent[k] < k ==> has_edge(edges, order[parent[k] as int], order[k])
        }
}

proof fn lemma_discovered_reachable(
    order: Seq<Seq<char>>,
    parent: Seq<usize>,
    roots: Seq<Seq<char>>,
    edges: Seq<CallGraphEdgeIr>,
    k: int,
)
    requires
        discovery_ok(order, parent, roots, edges),
        0 <= k < order.len(),
    ensures
        reach_within(roots, edges, order[k], k as nat),
    decreases k,
{
    if parent[k] < k {
        let p = parent[k] as int;
        lemma_discovered_reachable(order, parent, roots, edges, p);
        lemma_reach_within_mono(roots, edges, order[p], p as nat, (k - 1) as nat);
        assert(has_edge(edges, order[p], order[k]));
    }
}

proof fn lemma_reach_within_mono(
    roots: Seq<Seq<char>>,
    edges: Seq<CallGraphEdgeIr>,
    t: Seq<char>,
    m: nat,
    n: nat,
)
    requires
        m <= n,
        reach_within(roots, edges, t, m),
    ensures
        reach_within(roots, edges, t, n),
    decreases m,
{
    if !roots.contains(t) {
        let a = choose|a: Seq<char>| #[trigger] has_edge(edges, a, t) && reach_within(roots, edges, a, (m - 1) as nat);
        lemma_reach_within_mono(roots, edges, a, (m - 1) as nat, (n - 1) as nat);
    }
}

proof fn lemma_reachable_discovered(
    order: Seq<Seq<char>>,
    roots: Seq<Seq<char>>,
    edges: Seq<CallGraphEdgeIr>,
    t: Seq<char>,
    n: nat,
)
    requires
        forall|x: Seq<char>| roots.contains(x) ==> order.contains(x),
        forall|e: int|
            0 <= e < edges.len() && order.contains((#[trigger] edges[e]).caller_function_id@)
                ==> order.contains(edges[e].callee_function_id@),
        reach_within(roots, edges, t, n),
    ensures
        order.contains(t),
    decreases n,
{
    if !roots.contains(t) {
        let a = choose|a: Seq<char>| #[trigger] has_edge(edges, a, t) && reach_within(roots, edges, a, (n - 1) as nat);
        lemma_reachable_discovered(order, roots, edges, a, (n - 1) as nat);
        let e = choose|e: int|
            0 <= e < edges.len() && (#[trigger] edges[e]).caller_function_id@ == a
                && edges[e].callee_function_id@ == t;
    }
}

/// A distinct list drawn from `u` is no longer than `u`.
proof fn lemma_distinct_bound(a: Seq<Seq<char>>, u: Seq<Seq<char>>)
    requires
        a.no_duplicates(),
        forall|x: Seq<char>| a.contains(x) ==> u.contains(x),
    ensures
        a.len() <= u.len(),
{
    a.unique_seq_to_set();
    u.lemma_cardinality_of_set();
    assert(a.to_set().subset_of(u.to_set()));
    vstd::set_lib::lemma_len_subset(a.to_set(), u.to_set());
}

/// The identifiers an edge list can name: the roots, then every callee.
pub open spec fn universe(roots: Seq<Seq<char>>, edges: Seq<CallGraphEdgeIr>) -> Seq<Seq<char>> {
    roots + edges.map_values(|e: CallGraphEdgeIr| e.callee_function_id@)
}

/// Distances along parent links: an entry that is its own parent at 0, any
/// other one layer past its parent.
pub open spec fn layered(parent: Seq<usize>, dist: Seq<nat>) -> bool {
    &&& dist.len() == parent.len()
    &&& forall|k: int|
        0 <= k < parent.len() ==> {
            &&& (#[trigger] parent[k]) == k ==> dist[k] == 0
            &&& parent[k] < k ==> dist[k] == dist[parent[k] as int] + 1
        }
}

/// Distances never decrease along the order, and while the entry at `head`
/// is being expanded none is more than one layer past it.
pub open spec fn bfs_front(dist: Seq<nat>, head: int) -> bool {
    &&& forall|i: int, j: int| 0 <= i <= j < dist.len() ==> #[trigger] dist[i] <= #[trigger] dist[j]
    &&& head < dist.len() ==> forall|j: int| 0 <= j < dist.len() ==> #[trigger] dist[j] <= dist[head] + 1
}

/// Every root is listed at distance 0.
pub open spec fn roots_at_zero(order: Seq<Seq<char>>, dist: Seq<nat>, roots: Seq<Seq<char>>) -> bool {
    forall|x: Seq<char>|
        #[trigger] roots.contains(x) ==> exists|j: int| 0 <= j < order.len() && order[j] == x && dist[j] == 0
}

/// For the entries before `head` (every edge) and at `head` (the edges
/// before `e`), each callee is listed at most one layer further.
pub open spec fn near_callees(order: Seq<Seq<char>>, dist: Seq<nat>, edges: Seq<CallGraphEdgeIr>, head: int, e: int) -> bool {
    forall|k: int, e2: int|
        #![trigger order[k], edges[e2]]
        0 <= k < order.len() && 0 <= e2 < edges.len() && (k < head || (k == head && e2 < e))
            && edges[e2].caller_function_id@ == order[k] ==> exists|j: int|
            0 <= j < order.len() && order[j] == edges[e2].callee_function_id@ && dist[j] <= dist[k] + 1
}

/// Appending the callee of an edge from the head keeps the layers.
proof fn lemma_bfs_push(
    t: Seq<Seq<char>>,
    parent: Seq<usize>,
    dist: Seq<nat>,
    roots: Seq<Seq<char>>,
    edges: Seq<CallGraphEdgeIr>,
    head: int,
    e: int,
    x: Seq<char>,
)
    requires
        layered(parent, dist),
        t.len() == parent.len(),
        0 <= head < t.len(),
        head <= usize::MAX,
        0 <= e < edges.len(),
        bfs_front(dist, head),
        roots_at_zero(t, dist, roots),
        near_callees(t, dist, edges, head, e),
        edges[e].caller_function_id@ == t[head],
        edges[e].callee_function_id@ == x,
    ensures
        layered(parent.push(head as usize), dist.push(dist[head] + 1)),
        bfs_front(dist.push(dist[head] + 1), head),
        roots_at_zero(t.push(x), dist.push(dist[head] + 1), roots),
        near_callees(t.push(x), dist.push(dist[head] + 1), edges, head, e + 1),
{
    let t2 = t.push(x);
    let p2 = parent.push(head as usize);
    let d2 = dist.push(dist[head] + 1);
    let n = t.len() as int;
    assert forall|k: int| 0 <= k < p2.len() implies {
        &&& (#[trigger] p2[k]) == k ==> d2[k] == 0
        &&& p2[k] < k ==> d2[k] == d2[p2[k] as int] + 1
    } by {
        if k < n {
            assert(p2[k] == parent[k]);
            if parent[k] < k {
                assert(d2[parent[k] as int] == dist[parent[k] as int]);
            }
        } else {
            assert(p2[k] == head);
            assert(d2[head] == dist[head]);
        }
    }
    assert forall|i: int, j: int| 0 <= i <= j < d2.len() implies #[trigger] d2[i] <= #[trigger] d2[j] by {
        if j < n {
            assert(d2[i] == dist[i] && d2[j] == dist[j]);
            assert(dist[i] <= dist[j]);
        } else if i < n {
            assert(d2[i] == dist[i]);
            assert(dist[i] <= dist[head] + 1);
        }
    }
    assert forall|j: int| 0 <= j < d2.len() implies #[trigger] d2[j] <= d2[head] + 1 by {
        if j < n {
            assert(d2[j] == dist[j]);
            assert(dist[j] <= dist[head] + 1);
        }
    }
    assert forall|y: Seq<char>| #[trigger] roots.contains(y) implies exists|j: int|
        0 <= j < t2.len() && t2[j] == y && d2[j] == 0 by {
        let j = choose|j: int| 0 <= j < t.len() && t[j] == y && dist[j] == 0;
        assert(t2[j] == t[j] && d2[j] == dist[j]);
    }
    assert forall|k: int, e2: int|
        #![trigger t2[k], edges[e2]]
        0 <= k < t2.len() && 0 <= e2 < edges.len() && (k < head || (k == head && e2 < e + 1))
            && edges[e2].caller_function_id@ == t2[k] implies exists|j: int|
            0 <= j < t2.len() && t2[j] == edges[e2].callee_function_id@ && d2[j] <= d2[k] + 1 by {
        assert(t2[k] == t[k] && d2[k] == dist[k]);
        if e2 == e && k == head {
            assert(t2[n] == x && d2[n] == dist[head] + 1);
        } else {
            assert(t[k] == edges[e2].caller_function_id@);
            let j = choose|j: int| 0 <= j < t.len() && t[j] == edges[e2].callee_function_id@ && dist[j] <= dist[k] + 1;
            assert(t2[j] == t[j] && d2[j] == dist[j]);
        }
    }
}

/// Passing over an edge whose callee is listed, or whose caller is not the
/// head, keeps the layers.
proof fn lemma_bfs_pass(t: Seq<Seq<char>>, dist: Seq<nat>, edges: Seq<CallGraphEdgeIr>, head: int, e: int)
    requires
        t.len() == dist.len(),
        0 <= head < t.len(),
        0 <= e < edges.len(),
        bfs_front(dist, head),
        near_callees(t, dist, edges, head, e),
        edges[e].caller_function_id@ == t[head] ==> t.contains(edges[e].callee_function_id@),
    ensures
        near_callees(t, dist, edges, head, e + 1),
{
    assert forall|k: int, e2: int|
        #![trigger t[k], edges[e2]]
        0 <= k < t.len() && 0 <= e2 < edges.len() && (k < head || (k == head && e2 < e + 1))
            && edges[e2].caller_function_id@ == t[k] implies exists|j: int|
            0 <= j < t.len() && t[j] == edges[e2].callee_function_id@ && dist[j] <= dist[k] + 1 by {
        if e2 == e && k == head {
            let j = choose|j: int| 0 <= j < t.len() && t[j] == edges[e].callee_function_id@;
            assert(dist[j] <= dist[head] + 1);
        }
    }
}

/// A target reached within `n` edges is listed at distance at most `n`.
proof fn lemma_listed_within(
    t: Seq<Seq<char>>,
    dist: Seq<nat>,
    roots: Seq<Seq<char>>,
    edges: Seq<CallGraphEdgeIr>,
    x: Seq<char>,
    n: nat,
)
    requires
        roots_at_zero(t, dist, roots),
        near_callees(t, dist, edges, t.len() as int, 0),
        reach_within(roots, edges, x, n),
    ensures
        exists|j: int| 0 <= j < t.len() && t[j] == x && dist[j] <= n,
    decreases n,
{
    if roots.contains(x) {
        let j = choose|j: int| 0 <= j < t.len() && t[j] == x && dist[j] == 0;
        assert(t[j] == x && dist[j] <= n);
    } else {
        let a = choose|a: Seq<char>| #[trigger] has_edge(edges, a, x) && reach_within(roots, edges, a, (n - 1) as nat);
        lemma_listed_within(t, dist, roots, edges, a, (n - 1) as nat);
        let ja = choose|ja: int| 0 <= ja < t.len() && t[ja] == a && dist[ja] <= n - 1;
        let e = choose|e: int| 0 <= e < edges.len() && (#[trigger] edges[e]).caller_function_id@ == a
            && edges[e].callee_function_id@ == x;
        assert(t[ja] == edges[e].caller_function_id@);
        let j = choose|j: int| 0 <= j < t.len() && t[j] == edges[e].callee_function_id@ && dist[j] <= dist[ja] + 1;
        assert(t[j] == x && dist[j] <= n);
    }
}

/// Breadth-first discovery from the roots along the edges (in edge order).
fn discover(roots: &Vec<String>, edges: &Vec<CallGraphEdgeIr>) -> (r: (Vec<String>, Vec<usize>, Ghost<Seq<nat>>))
    ensures
        discovery_ok(texts(r.0@), r.1@, texts(roots@), edges@),
        layered(r.1@, r.2@),
        bfs_front(r.2@, r.0@.len() as int),
        roots_at_zero(texts(r.0@), r.2@, texts(roots@)),
        near_callees(texts(r.0@), r.2@, edges@, r.0@.len() as int, 0),
        forall|x: Seq<char>| texts(roots@).contains(x) ==> texts(r.0@).contains(x),
        forall|e: int|
            0 <= e < edges@.len() && texts(r.0@).contains((#[trigger] edges@[e]).caller_function_id@)
                ==> texts(r.0@).contains(edges@[e].callee_function_id@),
{
    let ghost rt = texts(roots@);
    let ghost u = universe(rt, edges@);
    let mut order: Vec<String> = Vec::new();
    let mut parent: Vec<usize> = Vec::new();
    let ghost mut dist: Seq<nat> = Seq::empty();
    let mut i: usize = 0;
    while i < roots.len()
        invariant
            dist.len() == order@.len(),
            forall|j: int| 0 <= j < order@.len() ==> #[trigger] dist[j] == 0,
            forall|j: int| 0 <= j < order@.len() ==> #[trigger] parent@[j] == j,
            rt == texts(roots@),
            u == universe(rt, edges@),
            i <= roots@.len(),
            discovery_ok(texts(order@), parent@, rt, edges@),
            forall|x: Seq<char>| texts(order@).contains(x) ==> u.contains(x),
            forall|k: int| 0 <= k < i ==> texts(order@).contains(#[trigger] rt[k]),
        decreases roots@.len() - i,
    {
        if !contains_text(&order, roots[i].as_str()) {
            let ghost prev = order@;
            let ghost prev_parent = parent@;
            let ghost prev_dist = dist;
            let k = order.len();
            order.push(roots[i].clone());
            parent.push(k);
            proof {
                dist = dist.push(0);
            }
            proof {
                assert forall|j: int| 0 <= j < order@.len() implies #[trigger] dist[j] == 0 by {
                    if j < k {
                        assert(dist[j] == prev_dist[j]);
                    }
                }
                assert forall|j: int| 0 <= j < order@.len() implies #[trigger] parent@[j] == j by {
                    if j < k {
                        assert(parent@[j] == prev_parent[j]);
                    }
                }
                lemma_texts_push(prev, roots@[i as int]);
                assert(rt[i as int] == roots@[i as int]@);
                assert(u[i as int] == rt[i as int]);
                assert forall|k2: int| 0 <= k2 < i + 1 implies texts(order@).contains(#[trigger] rt[k2]) by {
                    if k2 < i {
                        let w = choose|w: int| 0 <= w < texts(prev).len() && texts(prev)[w] == rt[k2];
                        assert(texts(order@)[w] == rt[k2]);
                    } else {
                        assert(texts(order@)[k as int] == rt[k2]);
                    }
                }
                assert forall|x: Seq<char>| texts(order@).contains(x) implies u.contains(x) by {
                    let w = choose|w: int| 0 <= w < texts(order@).len() && texts(order@)[w] == x;
                    if w < k {
                        assert(texts(prev)[w] == x);
                    }
                }
            }
        }
        i = i + 1;
    }
    proof {
        assert forall|x: Seq<char>| rt.contains(x) implies texts(order@).contains(x) by {
            let w = choose|w: int| 0 <= w < rt.len() && rt[w] == x;
        }
        lemma_distinct_bound(texts(order@), u);
        assert forall|x: Seq<char>| #[trigger] rt.contains(x) implies exists|j: int|
            0 <= j < texts(order@).len() && texts(order@)[j] == x && dist[j] == 0 by {
            let j = choose|j: int| 0 <= j < texts(order@).len() && texts(order@)[j] == x;
            assert(dist[j] == 0);
        }
        assert(layered(parent@, dist));
        assert(bfs_front(dist, 0));
    }
    let ghost bound: int = u.len() as int;
    let mut head: usize = 0;
    while head < order.len()
        invariant
            rt == texts(roots@),
            u == universe(rt, edges@),
            u.len() == bound,
            head <= order@.len(),
            layered(parent@, dist),
            bfs_front(dist, head as int),
            roots_at_zero(texts(order@), dist, rt),
            near_callees(texts(order@), dist, edges@, head as int, 0),
            order@.len() <= bound,
            discovery_ok(texts(order@), parent@, rt, edges@),
            forall|x: Seq<char>| texts(order@).contains(x) ==> u.contains(x),
            forall|x: Seq<char>| rt.contains(x) ==> texts(order@).contains(x),
            forall|k: int, e: int|
                #![trigger edges@[e], texts(order@)[k]]
                0 <= k < head && 0 <= e < edges@.len() && edges@[e].caller_function_id@
                    == texts(order@)[k] ==> texts(order@).contains(edges@[e].callee_function_id@),
        decreases bound - head,
    {
        let mut e: usize = 0;
        while e < edges.len()
            invariant
                rt == texts(roots@),
                u == universe(rt, edges@),
                u.len() == bound,
                head < order@.len(),
                layered(parent@, dist),
                bfs_front(dist, head as int),
                roots_at_zero(texts(order@), dist, rt),
                near_callees(texts(order@), dist, edges@, head as int, e as int),
                order@.len() <= bound,
                discovery_ok(texts(order@), parent@, rt, edges@),
                forall|x: Seq<char>| texts(order@).contains(x) ==> u.contains(x),
                forall|x: Seq<char>| rt.contains(x) ==> texts(order@).contains(x),
                e <= edges@.len(),
                forall|k: int, e2: int|
                    #![trigger edges@[e2], texts(order@)[k]]
                    0 <= k < head && 0 <= e2 < edges@.len() && edges@[e2].caller_function_id@
                        == texts(order@)[k] ==> texts(order@).contains(edges@[e2].callee_function_id@),
                forall|e2: int|
                    0 <= e2 < e && (#[trigger] edges@[e2]).caller_function_id@ == texts(order@)[head as int]
                        ==> texts(order@).contains(edges@[e2].callee_function_id@),
            decreases edges@.len() - e,
        {
            let edge = &edges[e];
            let from_head = str_eq(edge.caller_function_id.as_str(), order[head].as_str());
            if from_head && !contains_text(&order, edge.callee_function_id.as_str()) {
                let ghost prev = order@;
                let ghost prev_parent = parent@;
                proof {
                    assert(u[roots@.len() + e] == edge.callee_function_id@);
                    assert(texts(prev.push(edge.callee_function_id)).no_duplicates()) by {
                        lemma_texts_push(prev, edge.callee_function_id);
                    }
                    assert forall|x: Seq<char>| texts(prev.push(edge.callee_function_id)).contains(x) implies u.contains(x) by {
                        lemma_texts_push(prev, edge.callee_function_id);
                        let w = choose|w: int| 0 <= w < texts(prev.push(edge.callee_function_id)).len() && texts(prev.push(edge.callee_function_id))[w] == x;
                        if w < prev.len() {
                            assert(texts(prev)[w] == x);
                        }
                    }
                    lemma_distinct_bound(texts(prev.push(edge.callee_function_id)), u);
                    lemma_bfs_push(texts(prev), parent@, dist, rt, edges@, head as int, e as int, edge.callee_function_id@);
                }
                order.push(edge.callee_function_id.clone());
                parent.push(head);
                proof {
                    dist = dist.push(dist[head as int] + 1);
                    lemma_texts_push(prev, edge.callee_function_id);
                    let t = texts(order@);
                    assert(t[head as int] == texts(prev)[head as int]);
                    assert(has_edge(edges@, t[head as int], t[prev.len() as int]));
                    assert forall|k: int| 0 <= k < t.len() implies {
                        &&& #[trigger] parent@[k] <= k
                        &&& parent@[k] == k ==> rt.contains(t[k])
                        &&& parent@[k] < k ==> has_edge(edges@, t[parent@[k] as int], t[k])
                    } by {
                        if k < prev.len() {
                            assert(t[k] == texts(prev)[k]);
                            assert(parent@[k] == prev_parent[k]);
                            if parent@[k] < k {
                                assert(t[parent@[k] as int] == texts(prev)[prev_parent[k] as int]);
                            }
                        }
                    }
                    assert forall|x: Seq<char>| texts(prev).contains(x) implies t.contains(x) by {
                        let w = choose|w: int| 0 <= w < texts(prev).len() && texts(prev)[w] == x;
                        assert(t[w] == x);
                    }
                    assert(t.contains(t[prev.len() as int]));
                    assert forall|k: int, e2: int|
                        #![trigger edges@[e2], t[k]]
                        0 <= k < head && 0 <= e2 < edges@.len() && edges@[e2].caller_function_id@
                            == t[k] implies t.contains(edges@[e2].callee_function_id@) by {
                        assert(t[k] == texts(prev)[k]);
                    }
                    assert forall|e2: int|
                        0 <= e2 < e + 1 && (#[trigger] edges@[e2]).caller_function_id@ == t[head as int]
                            implies t.contains(edges@[e2].callee_function_id@) by {
                        if e2 == e {
                            assert(t[prev.len() as int] == edges@[e2].callee_function_id@);
                        }
                    }
                    assert forall|x: Seq<char>| t.contains(x) implies u.contains(x) by {
                        let w = choose|w: int| 0 <= w < t.len() && t[w] == x;
                        if w < prev.len() {
                            assert(texts(prev)[w] == x);
                        }
                    }
                }
            } else {
                proof {
                    lemma_bfs_pass(texts(order@), dist, edges@, head as int, e as int);
                }
            }
            e = e + 1;
        }
        proof {
            let t = texts(order@);
            assert forall|k: int, e2: int|
                #![trigger t[k], edges@[e2]]
                0 <= k < t.len() && 0 <= e2 < edges@.len() && (k < head + 1 || (k == head + 1 && e2 < 0))
                    && edges@[e2].caller_function_id@ == t[k] implies exists|j: int|
                    0 <= j < t.len() && t[j] == edges@[e2].callee_function_id@ && dist[j] <= dist[k] + 1 by {
                assert(k < head || (k == head && e2 < edges@.len()));
            }
            if head + 1 < dist.len() {
                assert forall|j: int| 0 <= j < dist.len() implies #[trigger] dist[j] <= dist[head + 1] + 1 by {
                    assert(dist[head as int] <= dist[head + 1]);
                    assert(dist[j] <= dist[head as int] + 1);
                }
            }
        }
        head = head + 1;
    }
    (order, parent, Ghost(dist))
}

fn ids_by_reach(
    module: &ModuleIr,
    order: &Vec<String>,
    reach: bool,
    imported_only: bool,
    Ghost(roots): Ghost<Seq<Seq<char>>>,
    Ghost(edges): Ghost<Seq<CallGraphEdgeIr>>,
) -> (r: Vec<String>)
    requires
        forall|t: Seq<char>| texts(order@).contains(t) <==> reachable(roots, edges, t),
    ensures
        texts(r@) == reach_ids(module.functions@, roots, edges, reach, imported_only),
{
    let mut r: Vec<String> = Vec::new();
    let mut i: usize = 0;
    while i < module.functions.len()
        invariant
            i <= module.functions@.len(),
            forall|t: Seq<char>| texts(order@).contains(t) <==> reachable(roots, edges, t),
            texts(r@) == reach_ids(module.functions@.subrange(0, i as int), roots, edges, reach, imported_only),
        decreases module.functions@.len() - i,
    {
        let function = &module.functions[i];
        proof {
            assert(module.functions@.subrange(0, i + 1).drop_last() =~= module.functions@.subrange(0, i as int));
            assert(module.functions@.subrange(0, i + 1).last() == *function);
        }
        let found = contains_text(order, function.id.as_str());
        if found == reach && (!imported_only || function.kind == FunctionKindIr::Imported) {
            let ghost prev = r@;
            r.push(function.id.clone());
            proof {
                lemma_texts_push(prev, function.id);
            }
        }
        i = i + 1;
    }
    assert(module.functions@.subrange(0, module.functions@.len() as int) =~= module.functions@);
    r
}

/// Identifiers reached from the roots: the reachable functions, the
/// reachable imported functions, and the unreachable functions.
fn call_graph_reachability(
    module: &ModuleIr,
    roots: &Vec<String>,
    edges: &Vec<CallGraphEdgeIr>,
) -> (r: (Vec<String>, Vec<String>, Vec<String>))
    ensures
        texts(r.0@) == reach_ids(module.functions@, texts(roots@), edges@, true, false),
        texts(r.1@) == reach_ids(module.functions@, texts(roots@), edges@, true, true),
        texts(r.2@) == reach_ids(module.functions@, texts(roots@), edges@, false, false),
{
    let (order, parent, _) = discover(roots, edges);
    proof {
        assert forall|t: Seq<char>| texts(order@).contains(t) <==> reachable(texts(roots@), edges@, t) by {
            if texts(order@).contains(t) {
                let k = choose|k: int| 0 <= k < texts(order@).len() && texts(order@)[k] == t;
                lemma_discovered_reachable(texts(order@), parent@, texts(roots@), edges@, k);
            }
            if reachable(texts(roots@), edges@, t) {
                let n = choose|n: nat| #[trigger] reach_within(texts(roots@), edges@, t, n);
                lemma_reachable_discovered(texts(order@), texts(roots@), edges@, t, n);
            }
        }
    }
    let reachable_functions = ids_by_reach(module, &order, true, false, Ghost(texts(roots@)), Ghost(edges@));
    let reachable_imports = ids_by_reach(module, &order, true, true, Ghost(texts(roots@)), Ghost(edges@));
    let unreachable_functions = ids_by_reach(module, &order, false, false, Ghost(texts(roots@)), Ghost(edges@));
    (reachable_functions, reachable_imports, unreachable_functions)
}

// ---------------------------------------------------------------------------
// Call graph
// ---------------------------------------------------------------------------

/// Identifiers of the exported functions, in order.
pub open spec fn exported_ids(fs: Seq<FunctionIr>) -> Seq<Seq<char>>
    decreases fs.len(),
{
    if fs.len() == 0 {
        Seq::empty()
    } else {
        let p = exported_ids(fs.drop_last());
        if fs.last().export_names@.len() > 0 {
            p.push(fs.last().id@)
        } else {
            p
        }
    }
}

/// The entry points: every exported function, then the start function.
pub open spec fn root_candidates(module: ModuleIr) -> Seq<Seq<char>> {
    let fs = module.functions@;
    exported_ids(fs) + match module.start_function_index {
        Some(i) => if i < fs.len() {
            seq![fs[i as int].id@]
        } else {
            Seq::empty()
        },
        None => Seq::empty(),
    }
}

fn root_function_ids(module: &ModuleIr) -> (r: Vec<String>)
    ensures
        texts(r@) == sorted_unique(root_candidates(*module)),
        strictly_sorted(texts(r@)),
{
    let mut roots: Vec<String> = Vec::new();
    let mut i: usize = 0;
    while i < module.functions.len()
        invariant
            i <= module.functions@.len(),
            texts(roots@) == exported_ids(module.functions@.subrange(0, i as int)),
        decreases module.functions@.len() - i,
    {
        let function = &module.functions[i];
        proof {
            assert(module.functions@.subrange(0, i + 1).drop_last() =~= module.functions@.subrange(0, i as int));
            assert(module.functions@.subrange(0, i + 1).last() == *function);
        }
        if function.export_names.len() > 0 {
            let ghost prev = roots@;
            roots.push(function.id.clone());
            proof {
                lemma_texts_push(prev, function.id);
            }
        }
        i = i + 1;
    }
    assert(module.functions@.subrange(0, module.functions@.len() as int) =~= module.functions@);
    let ghost exported = texts(roots@);
    if let Some(index) = module.start_function_index {
        if (index as usize) < module.functions.len() {
            let ghost prev = roots@;
            roots.push(module.functions[index as usize].id.clone());
            proof {
                lemma_texts_push(prev, module.functions@[index as int].id);
            }
        }
    }
    assert(texts(roots@) =~= root_candidates(*module));
    dedup_sorted(roots)
}

/// The call graph of a module, given the control-flow graphs of its
/// defined functions.
pub open spec fn call_graph_built(cg: CallGraphIr, module: ModuleIr, cfgs: Seq<FunctionCfgIr>) -> bool {
    let roots = texts(cg.roots@);
    &&& roots == sorted_unique(root_candidates(module))
    &&& edge_views(cg.edges@) == graph_edges(module, cfgs)
    &&& texts(cg.reachable_functions@) == reach_ids(module.functions@, roots, cg.edges@, true, false)
    &&& texts(cg.reachable_imports@) == reach_ids(module.functions@, roots, cg.edges@, true, true)
    &&& texts(cg.unreachable_functions@) == reach_ids(module.functions@, roots, cg.edges@, false, false)
}

fn build_call_graph(module: &ModuleIr, cfgs: &Vec<FunctionCfgIr>) -> (r: CallGraphIr)
    ensures
        call_graph_built(r, *module, cfgs@),
{
    let roots = root_function_ids(module);
    let edges = collect_edges(module, cfgs);
    let ghost first = texts(roots@);
    let roots = dedup_sorted(roots);
    proof {
        lemma_sorted_unique_of_sorted(first);
    }
    let (reachable_functions, reachable_imports, unreachable_functions) = call_graph_reachability(
        module,
        &roots,
        &edges,
    );
    CallGraphIr { roots, edges, reachable_functions, reachable_imports, unreachable_functions }
}

/// Identifiers (in module order) of the functions not named in `names`.
pub open spec fn ids_not_in(fs: Seq<FunctionIr>, names: Seq<Seq<char>>) -> Seq<Seq<char>>
    decreases fs.len(),
{
    if fs.len() == 0 {
        Seq::empty()
    } else {
        let p = ids_not_in(fs.drop_last(), names);
        if names.contains(fs.last().id@) {
            p
        } else {
            p.push(fs.last().id@)
        }
    }
}

/// The reachability summary, read off a call graph.
pub open spec fn reachability_built(r: ReachabilityIr, module: ModuleIr, cg: CallGraphIr) -> bool {
    &&& texts(r.roots@) == texts(cg.roots@)
    &&& texts(r.reachable_functions@) == texts(cg.reachable_functions@)
    &&& texts(r.reachable_imports@) == texts(cg.reachable_imports@)
    &&& texts(r.unreachable_functions@) == ids_not_in(module.functions@, texts(cg.reachable_functions@))
}

fn build_reachability(module: &ModuleIr, call_graph: &CallGraphIr) -> (r: ReachabilityIr)
    ensures
        reachability_built(r, *module, *call_graph),
{
    let mut unreachable: Vec<String> = Vec::new();
    let mut i: usize = 0;
    while i < module.functions.len()
        invariant
            i <= module.functions@.len(),
            texts(unreachable@) == ids_not_in(module.functions@.subrange(0, i as int), texts(call_graph.reachable_functions@)),
        decreases module.functions@.len() - i,
    {
        let function = &module.functions[i];
        proof {
            assert(module.functions@.subrange(0, i + 1).drop_last() =~= module.functions@.subrange(0, i as int));
            assert(module.functions@.subrange(0, i + 1).last() == *function);
        }
        if !contains_text(&call_graph.reachable_functions, function.id.as_str()) {
            let ghost prev = unreachable@;
            unreachable.push(function.id.clone());
            proof {
                lemma_texts_push(prev, function.id);
            }
        }
        i = i + 1;
    }
    assert(module.functions@.subrange(0, module.functions@.len() as int) =~= module.functions@);
    let roots = call_graph.roots.clone();
    let reachable_functions = call_graph.reachable_functions.clone();
    let reachable_imports = call_graph.reachable_imports.clone();
    assert(texts(roots@) =~= texts(call_graph.roots@));
    assert(texts(reachable_functions@) =~= texts(call_graph.reachable_functions@));
    assert(texts(reachable_imports@) =~= texts(call_graph.reachable_imports@));
    ReachabilityIr {
        roots,
        reachable_functions,
        reachable_imports,
        unreachable_functions: unreachable,
    }
}

// ---------------------------------------------------------------------------
// Unsafe sinks and paths
// ---------------------------------------------------------------------------

/// The kind of hazard an opcode poses, if any.
pub open spec fn spec_sink_kind(op: Opcode) -> Option<UnsafeSinkKindIr> {
    match op {
        Opcode::Unreachable => Some(UnsafeSinkKindIr::Trap),
        Opcode::CallIndirect | Opcode::ReturnCallIndirect | Opcode::CallRef
        | Opcode::ReturnCallRef => Some(UnsafeSinkKindIr::IndirectCall),
        Opcode::Throw | Opcode::ThrowRef | Opcode::Rethrow | Opcode::Delegate
        | Opcode::TryTable => Some(UnsafeSinkKindIr::Exception),
        Opcode::MemoryCopy | Opcode::MemoryFill | Opcode::MemoryInit | Opcode::DataDrop => Some(
            UnsafeSinkKindIr::MemoryBulk,
        ),
        Opcode::TableCopy | Opcode::TableFill | Opcode::TableInit | Opcode::ElemDrop => Some(
            UnsafeSinkKindIr::TableBulk,
        ),
        Opcode::I32Load | Opcode::I64Load | Opcode::F32Load | Opcode::F64Load
        | Opcode::I32Load8S | Opcode::I32Load8U | Opcode::I32Load16S | Opcode::I32Load16U
        | Opcode::I64Load8S | Opcode::I64Load8U | Opcode::I64Load16S | Opcode::I64Load16U
        | Opcode::I64Load32S | Opcode::I64Load32U | Opcode::I32Store | Opcode::I64Store
        | Opcode::F32Store | Opcode::F64Store | Opcode::I32Store8 | Opcode::I32Store16
        | Opcode::I64Store8 | Opcode::I64Store16 | Opcode::I64Store32 | Opcode::MemoryGrow
        | Opcode::MemorySize => Some(UnsafeSinkKindIr::MemoryAccess),
        Opcode::TableGet | Opcode::TableSet | Opcode::TableSize | Opcode::TableGrow => Some(
            UnsafeSinkKindIr::TableAccess,
        ),
        _ => None,
    }
}

pub fn unsafe_sink_kind(opcode: &Opcode) -> (r: Option<UnsafeSinkKindIr>)
    ensures
        r == spec_sink_kind(*opcode),
{
    match opcode {
        Opcode::Unreachable => Some(UnsafeSinkKindIr::Trap),
        Opcode::CallIndirect | Opcode::ReturnCallIndirect | Opcode::CallRef
        | Opcode::ReturnCallRef => Some(UnsafeSinkKindIr::IndirectCall),
        Opcode::Throw | Opcode::ThrowRef | Opcode::Rethrow | Opcode::Delegate
        | Opcode::TryTable => Some(UnsafeSinkKindIr::Exception),
        Opcode::MemoryCopy | Opcode::MemoryFill | Opcode::MemoryInit | Opcode::DataDrop => Some(
            UnsafeSinkKindIr::MemoryBulk,
        ),
        Opcode::TableCopy | Opcode::TableFill | Opcode::TableInit | Opcode::ElemDrop => Some(
            UnsafeSinkKindIr::TableBulk,
        ),
        Opcode::I32Load | Opcode::I64Load | Opcode::F32Load | Opcode::F64Load
        | Opcode::I32Load8S | Opcode::I32Load8U | Opcode::I32Load16S | Opcode::I32Load16U
        | Opcode::I64Load8S | Opcode::I64Load8U | Opcode::I64Load16S | Opcode::I64Load16U
        | Opcode::I64Load32S | Opcode::I64Load32U | Opcode::I32Store | Opcode::I64Store
        | Opcode::F32Store | Opcode::F64Store | Opcode::I32Store8 | Opcode::I32Store16
        | Opcode::I64Store8 | Opcode::I64Store16 | Opcode::I64Store32 | Opcode::MemoryGrow
        | Opcode::MemorySize => Some(UnsafeSinkKindIr::MemoryAccess),
        Opcode::TableGet | Opcode::TableSet | Opcode::TableSize | Opcode::TableGrow => Some(
            UnsafeSinkKindIr::TableAccess,
        ),
        _ => None,
    }
}

/// Block operators carry their raw indices.
pub open spec fn blocks_indexed(blocks: Seq<BasicBlockIr>) -> bool {
    forall|b: int|
        0 <= b < blocks.len() ==> (#[trigger] blocks[b]).operator_indices@.len()
            == blocks[b].operators@.len()
}

/// No operator before position `j` of block `b` (in block order) is a sink.
pub open spec fn no_sink_before(blocks: Seq<BasicBlockIr>, b: int, j: int) -> bool {
    &&& forall|b2: int, j2: int|
        0 <= b2 < b && 0 <= j2 < blocks[b2].operators@.len() ==> spec_sink_kind(
            (#[trigger] blocks[b2].operators@[j2]).opcode,
        ) is None
    &&& forall|j2: int| 0 <= j2 < j ==> spec_sink_kind((#[trigger] blocks[b].operators@[j2]).opcode) is None
}

/// The sink recorded for operator `j` of block `b`.
pub open spec fn sink_at(sink: UnsafeSinkIr, cfg: FunctionCfgIr, b: int, j: int) -> bool {
    let block = cfg.blocks@[b];
    let op = block.operators@[j];
    &&& sink.function_id@ == cfg.function_id@
    &&& sink.block_id == block.id
    &&& sink.operator_index == block.operator_indices@[j]
    &&& sink.offset == op.offset
    &&& sink.opcode@ == opcode_text(op.opcode)
    &&& spec_sink_kind(op.opcode) == Some(sink.kind)
}

/// The first sink of a control-flow graph, in block and operator order.
pub open spec fn first_sink_ok(r: Option<UnsafeSinkIr>, cfg: FunctionCfgIr) -> bool {
    let blocks = cfg.blocks@;
    match r {
        Some(sink) => exists|b: int, j: int|
            0 <= b < blocks.len() && 0 <= j < blocks[b].operators@.len() && no_sink_before(blocks, b, j)
                && #[trigger] sink_at(sink, cfg, b, j),
        None => no_sink_before(blocks, blocks.len() as int, 0),
    }
}

fn first_unsafe_sink(cfg: &FunctionCfgIr) -> (r: Option<UnsafeSinkIr>)
    requires
        blocks_indexed(cfg.blocks@),
    ensures
        first_sink_ok(r, *cfg),
{
    let ghost blocks = cfg.blocks@;
    let mut b: usize = 0;
    while b < cfg.blocks.len()
        invariant
            blocks == cfg.blocks@,
            blocks_indexed(blocks),
            b <= blocks.len(),
            no_sink_before(blocks, b as int, 0),
        decreases blocks.len() - b,
    {
        let block = &cfg.blocks[b];
        let mut j: usize = 0;
        while j < block.operators.len()
            invariant
                blocks == cfg.blocks@,
                blocks_indexed(blocks),
                b < blocks.len(),
                *block == blocks[b as int],
                j <= block.operators@.len(),
                no_sink_before(blocks, b as int, j as int),
            decreases block.operators@.len() - j,
        {
            let operator = &block.operators[j];
            if let Some(kind) = unsafe_sink_kind(&operator.opcode) {
                let sink = UnsafeSinkIr {
                    function_id: cfg.function_id.clone(),
                    block_id: block.id,
                    operator_index: block.operator_indices[j],
                    offset: operator.offset,
                    opcode: crate::text::string_of(operator.opcode.as_str()),
                    kind,
                };
                assert(sink_at(sink, *cfg, b as int, j as int));
                return Some(sink);
            }
            j = j + 1;
        }
        b = b + 1;
    }
    None
}

/// A call path: starts at a root and follows edges.
pub open spec fn call_path(roots: Seq<Seq<char>>, edges: Seq<CallGraphEdgeIr>, path: Seq<Seq<char>>) -> bool {
    &&& path.len() > 0
    &&& roots.contains(path[0])
    &&& forall|i: int| 0 <= i < path.len() - 1 ==> has_edge(edges, #[trigger] path[i], path[i + 1])
}

/// A call path from a root such that no call path from a root to its last
/// function has fewer edges.
pub open spec fn shortest_call_path(roots: Seq<Seq<char>>, edges: Seq<CallGraphEdgeIr>, path: Seq<Seq<char>>) -> bool {
    &&& call_path(roots, edges, path)
    &&& forall|n: nat| #[trigger] reach_within(roots, edges, path.last(), n) ==> path.len() <= n + 1
}

/// The path to the discovery at position `k`, following parents back to a
/// root.
fn path_to(
    order: &Vec<String>,
    parent: &Vec<usize>,
    k: usize,
    Ghost(roots): Ghost<Seq<Seq<char>>>,
    Ghost(edges): Ghost<Seq<CallGraphEdgeIr>>,
    Ghost(dist): Ghost<Seq<nat>>,
) -> (r: Vec<String>)
    requires
        discovery_ok(texts(order@), parent@, roots, edges),
        layered(parent@, dist),
        k < order@.len(),
    ensures
        call_path(roots, edges, texts(r@)),
        texts(r@).last() == order@[k as int]@,
        r@.len() == dist[k as int] + 1,
{
    let mut path: Vec<String> = Vec::new();
    path.push(order[k].clone());
    let mut current = k;
    proof {
        assert(texts(path@) =~= seq![texts(order@)[k as int]]);
    }
    while parent[current] != current
        invariant
            discovery_ok(texts(order@), parent@, roots, edges),
            layered(parent@, dist),
            current < order@.len(),
            path@.len() > 0,
            path@.len() + dist[current as int] == dist[k as int] + 1,
            texts(path@)[0] == texts(order@)[current as int],
            texts(path@).last() == order@[k as int]@,
            forall|i: int| 0 <= i < path@.len() - 1 ==> has_edge(edges, #[trigger] texts(path@)[i], texts(path@)[i + 1]),
        decreases current,
    {
        let previous = parent[current];
        let ghost prev = path@;
        path.insert(0, order[previous].clone());
        proof {
            assert(parent@[current as int] < current);
            let t = texts(path@);
            assert(t =~= seq![order@[previous as int]@] + texts(prev));
            assert forall|i: int| 0 <= i < t.len() - 1 implies has_edge(edges, #[trigger] t[i], t[i + 1]) by {
                if i > 0 {
                    assert(t[i] == texts(prev)[i - 1]);
                    assert(t[i + 1] == texts(prev)[i]);
                } else {
                    assert(t[1] == texts(prev)[0]);
                }
            }
        }
        current = previous;
    }
    path
}

/// The last control-flow graph of the function with identifier `id`.
pub open spec fn cfg_index_for(cfgs: Seq<FunctionCfgIr>, id: Seq<char>) -> Option<int>
    decreases cfgs.len(),
{
    if cfgs.len() == 0 {
        None
    } else if cfgs.last().function_id@ == id {
        Some(cfgs.len() - 1)
    } else {
        cfg_index_for(cfgs.drop_last(), id)
    }
}

proof fn lemma_cfg_index_for(cfgs: Seq<FunctionCfgIr>, id: Seq<char>)
    ensures
        cfg_index_for(cfgs, id) matches Some(i) ==> 0 <= i < cfgs.len() && cfgs[i].function_id@ == id,
    decreases cfgs.len(),
{
    if cfgs.len() > 0 {
        lemma_cfg_index_for(cfgs.drop_last(), id);
    }
}

fn find_cfg(cfgs: &Vec<FunctionCfgIr>, id: &str) -> (r: Option<usize>)
    ensures
        r == match cfg_index_for(cfgs@, id@) {
            Some(i) => Some(i as usize),
            None => None::<usize>,
        },
        r matches Some(i) ==> i < cfgs@.len() && cfgs@[i as int].function_id@ == id@
            && cfg_index_for(cfgs@, id@) == Some(i as int),
        r is None ==> cfg_index_for(cfgs@, id@) is None,
{
    proof {
        lemma_cfg_index_for(cfgs@, id@);
    }
    let mut i = cfgs.len();
    assert(cfgs@ =~= cfgs@.subrange(0, i as int));
    while i > 0
        invariant
            i <= cfgs@.len(),
            cfg_index_for(cfgs@, id@) == cfg_index_for(cfgs@.subrange(0, i as int), id@),
        decreases i,
    {
        let ghost prefix = cfgs@.subrange(0, i as int);
        assert(prefix.drop_last() =~= cfgs@.subrange(0, i - 1));
        if str_eq(cfgs[i - 1].function_id.as_str(), id) {
            return Some(i - 1);
        }
        i = i - 1;
    }
    None
}

/// The functions with a reported unsafe path: defined functions (in module
/// order) that the call graph lists as reachable and whose control-flow
/// graph has a sink; with the position of that graph.
pub open spec fn unsafe_candidates(
    fs: Seq<FunctionIr>,
    cfgs: Seq<FunctionCfgIr>,
    cg: CallGraphIr,
) -> Seq<(Seq<char>, int)>
    decreases fs.len(),
{
    if fs.len() == 0 {
        Seq::empty()
    } else {
        let p = unsafe_candidates(fs.drop_last(), cfgs, cg);
        let f = fs.last();
        match cfg_index_for(cfgs, f.id@) {
            Some(c) => if f.kind == FunctionKindIr::Defined && has_sink(cfgs[c])
                && texts(cg.reachable_functions@).contains(f.id@) {
                p.push((f.id@, c))
            } else {
                p
            },
            None => p,
        }
    }
}

/// Some block operator is a sink.
pub open spec fn has_sink(cfg: FunctionCfgIr) -> bool {
    !no_sink_before(cfg.blocks@, cfg.blocks@.len() as int, 0)
}

/// The unsafe path reported for a function: the first sink of its graph,
/// and a shortest call path from a root (just the function when no root
/// reaches it).
pub open spec fn unsafe_path_ok(
    p: UnsafePathIr,
    id: Seq<char>,
    cfg: FunctionCfgIr,
    cg: CallGraphIr,
) -> bool {
    let path = texts(p.function_path@);
    &&& first_sink_ok(Some(p.sink), cfg)
    &&& path.len() > 0
    &&& p.entry_function_id@ == path[0]
    &&& path.last() == id
    &&& if reachable(texts(cg.roots@), cg.edges@, id) {
        shortest_call_path(texts(cg.roots@), cg.edges@, path)
    } else {
        path == seq![id]
    }
}

fn build_unsafe_paths(
    module: &ModuleIr,
    cfgs: &Vec<FunctionCfgIr>,
    call_graph: &CallGraphIr,
) -> (r: Vec<UnsafePathIr>)
    requires
        forall|c: int| 0 <= c < cfgs@.len() ==> blocks_indexed((#[trigger] cfgs@[c]).blocks@),
    ensures
        r@.len() == unsafe_candidates(module.functions@, cfgs@, *call_graph).len(),
        forall|k: int|
            0 <= k < r@.len() ==> unsafe_path_ok(
                #[trigger] r@[k],
                unsafe_candidates(module.functions@, cfgs@, *call_graph)[k].0,
                cfgs@[unsafe_candidates(module.functions@, cfgs@, *call_graph)[k].1],
                *call_graph,
            ),
{
    let (order, parent, Ghost(dist)) = discover(&call_graph.roots, &call_graph.edges);
    let ghost roots = texts(call_graph.roots@);
    let ghost edges = call_graph.edges@;
    proof {
        assert forall|t: Seq<char>| texts(order@).contains(t) <==> reachable(roots, edges, t) by {
            if texts(order@).contains(t) {
                let k = choose|k: int| 0 <= k < texts(order@).len() && texts(order@)[k] == t;
                lemma_discovered_reachable(texts(order@), parent@, roots, edges, k);
            }
            if reachable(roots, edges, t) {
                let n = choose|n: nat| #[trigger] reach_within(roots, edges, t, n);
                lemma_reachable_discovered(texts(order@), roots, edges, t, n);
            }
        }
    }
    let mut paths: Vec<UnsafePathIr> = Vec::new();
    let mut i: usize = 0;
    while i < module.functions.len()
        invariant
            roots == texts(call_graph.roots@),
            edges == call_graph.edges@,
            discovery_ok(texts(order@), parent@, roots, edges),
            layered(parent@, dist),
            roots_at_zero(texts(order@), dist, roots),
            near_callees(texts(order@), dist, edges, order@.len() as int, 0),
            forall|t: Seq<char>| texts(order@).contains(t) <==> reachable(roots, edges, t),
            forall|c: int| 0 <= c < cfgs@.len() ==> blocks_indexed((#[trigger] cfgs@[c]).blocks@),
            i <= module.functions@.len(),
            paths@.len() == unsafe_candidates(module.functions@.subrange(0, i as int), cfgs@, *call_graph).len(),
            forall|k: int|
                0 <= k < paths@.len() ==> unsafe_path_ok(
                    #[trigger] paths@[k],
                    unsafe_candidates(module.functions@.subrange(0, i as int), cfgs@, *call_graph)[k].0,
                    cfgs@[unsafe_candidates(module.functions@.subrange(0, i as int), cfgs@, *call_graph)[k].1],
                    *call_graph,
                ),
        decreases module.functions@.len() - i,
    {
        let function = &module.functions[i];
        let ghost before = unsafe_candidates(module.functions@.subrange(0, i as int), cfgs@, *call_graph);
        proof {
            assert(module.functions@.subrange(0, i + 1).drop_last() =~= module.functions@.subrange(0, i as int));
            assert(module.functions@.subrange(0, i + 1).last() == *function);
        }
        if function.kind == FunctionKindIr::Defined {
            if let Some(c) = find_cfg(cfgs, function.id.as_str()) {
                let cfg = &cfgs[c];
                let found_sink = first_unsafe_sink(cfg);
                if let Some(sink) = found_sink {
                    if contains_text(&call_graph.reachable_functions, function.id.as_str()) {
                        let ghost sink_view = sink;
                        assert(has_sink(*cfg)) by {
                            let (b, j) = choose|b: int, j: int|
                                0 <= b < cfg.blocks@.len() && 0 <= j < cfg.blocks@[b].operators@.len() && no_sink_before(cfg.blocks@, b, j)
                                    && #[trigger] sink_at(sink_view, *cfg, b, j);
                            assert(spec_sink_kind(cfg.blocks@[b].operators@[j].opcode) is Some);
                        }
                        let mut found: Option<usize> = None;
                        let mut k: usize = 0;
                        while k < order.len()
                            invariant
                                k <= order@.len(),
                                found matches Some(x) ==> x < order@.len() && order@[x as int]@ == function.id@,
                                found is None ==> forall|j: int| 0 <= j < k ==> order@[j]@ != function.id@,
                            decreases order@.len() - k,
                        {
                            if found.is_none() && str_eq(order[k].as_str(), function.id.as_str()) {
                                found = Some(k);
                            }
                            k = k + 1;
                        }
                        let function_path = match found {
                            Some(x) => {
                                let p = path_to(&order, &parent, x, Ghost(roots), Ghost(edges), Ghost(dist));
                                proof {
                                    assert(texts(order@)[x as int] == function.id@);
                                    assert forall|n: nat| #[trigger] reach_within(roots, edges, function.id@, n)
                                        implies p@.len() <= n + 1 by {
                                        lemma_listed_within(texts(order@), dist, roots, edges, function.id@, n);
                                        let j = choose|j: int| 0 <= j < texts(order@).len() && texts(order@)[j] == function.id@ && dist[j] <= n;
                                        assert(j == x);
                                    }
                                }
                                p
                            },
                            None => {
                                let mut single: Vec<String> = Vec::new();
                                single.push(function.id.clone());
                                proof {
                                    if texts(order@).contains(function.id@) {
                                        let w = choose|w: int| 0 <= w < texts(order@).len() && texts(order@)[w] == function.id@;
                                        assert(order@[w]@ == function.id@);
                                    }
                                    assert(texts(single@) =~= seq![function.id@]);
                                }
                                single
                            },
                        };
                        proof {
                            if found is Some {
                                assert(texts(order@).contains(function.id@)) by {
                                    let x = found->0;
                                    assert(texts(order@)[x as int] == function.id@);
                                }
                            }
                        }
                        let entry = function_path[0].clone();
                        assert(texts(function_path@)[0] == function_path@[0]@);
                        let ghost item = (function.id@, c as int);
                        paths.push(UnsafePathIr { entry_function_id: entry, function_path, sink });
                        proof {
                            assert(unsafe_candidates(module.functions@.subrange(0, i + 1), cfgs@, *call_graph) == before.push(item));
                            assert(unsafe_path_ok(paths@.last(), item.0, cfgs@[item.1], *call_graph));
                        }
                    } else {
                        assert(unsafe_candidates(module.functions@.subrange(0, i + 1), cfgs@, *call_graph) == before);
                    }
                } else {
                    assert(!has_sink(*cfg));
                    assert(unsafe_candidates(module.functions@.subrange(0, i + 1), cfgs@, *call_graph) == before);
                }
            } else {
                assert(unsafe_candidates(module.functions@.subrange(0, i + 1), cfgs@, *call_graph) == before);
            }
        } else {
            assert(unsafe_candidates(module.functions@.subrange(0, i + 1), cfgs@, *call_graph) == before);
        }
        i = i + 1;
    }
    assert(module.functions@.subrange(0, module.functions@.len() as int) =~= module.functions@);
    paths
}

// ---------------------------------------------------------------------------
// Whole-module analysis
// ---------------------------------------------------------------------------

/// Each unsafe candidate names one of the graphs, and that graph belongs to
/// the candidate's function.
pub proof fn lemma_unsafe_candidates_graphs(fs: Seq<FunctionIr>, cfgs: Seq<FunctionCfgIr>, cg: CallGraphIr)
    ensures
        forall|k: int|
            0 <= k < unsafe_candidates(fs, cfgs, cg).len() ==> {
                let (id, c) = #[trigger] unsafe_candidates(fs, cfgs, cg)[k];
                &&& 0 <= c < cfgs.len()
                &&& cfgs[c].function_id@ == id
            },
    decreases fs.len(),
{
    if fs.len() > 0 {
        lemma_unsafe_candidates_graphs(fs.drop_last(), cfgs, cg);
        lemma_cfg_index_for(cfgs, fs.last().id@);
    }
}

/// The defined functions, in order.
pub open spec fn defined_functions(fs: Seq<FunctionIr>) -> Seq<FunctionIr>
    decreases fs.len(),
{
    if fs.len() == 0 {
        Seq::empty()
    } else {
        let p = defined_functions(fs.drop_last());
        if fs.last().kind == FunctionKindIr::Defined {
            p.push(fs.last())
        } else {
            p
        }
    }
}

/// The analysis of a module: a copy of the module; one control-flow graph
/// per defined function, in order; the call graph over those graphs; the
/// reachability summary; and the unsafe paths.
pub open spec fn analysis_built(a: AnalysisModule, resolved: ResolvedModule) -> bool {
    let m = a.module;
    let defined = defined_functions(m.functions@);
    &&& same_module(m, resolved.module)
    &&& a.cfgs@.len() == defined.len()
    &&& forall|k: int| 0 <= k < a.cfgs@.len() ==> cfg_built(#[trigger] a.cfgs@[k], defined[k], m)
    &&& call_graph_built(a.call_graph, m, a.cfgs@)
    &&& reachability_built(a.reachability, m, a.call_graph)
    &&& a.unsafe_paths@.len() == unsafe_candidates(m.functions@, a.cfgs@, a.call_graph).len()
    &&& forall|k: int|
        0 <= k < a.unsafe_paths@.len() ==> unsafe_path_ok(
            #[trigger] a.unsafe_paths@[k],
            unsafe_candidates(m.functions@, a.cfgs@, a.call_graph)[k].0,
            a.cfgs@[unsafe_candidates(m.functions@, a.cfgs@, a.call_graph)[k].1],
            a.call_graph,
        )
}

/// Blocks built by `cfg_built` carry their raw indices.
proof fn lemma_cfg_blocks_indexed(cfg: FunctionCfgIr, function: FunctionIr, module: ModuleIr)
    requires
        cfg_built(cfg, function, module),
    ensures
        blocks_indexed(cfg.blocks@),
{
    let ops = function.operators@;
    let positions = crate::cfg::exec_positions(ops);
    let leaders = crate::cfg::leaders_of(ops);
    let starts = crate::cfg::leader_starts(leaders);
    assert forall|b: int| 0 <= b < cfg.blocks@.len() implies (#[trigger] cfg.blocks@[b]).operator_indices@.len()
        == cfg.blocks@[b].operators@.len() by {
        assert(crate::cfg::block_with_edges(cfg.blocks@[b], b, ops));
        let end = crate::cfg::block_end(starts, b, positions.len() as int);
        assert(crate::cfg::block_built(cfg.blocks@[b], b, ops, positions, starts[b], end));
        crate::cfg::lemma_leaders_len(ops, ops.len() as int);
        crate::cfg::lemma_starts_upto(leaders, leaders.len() as int);
        if b + 1 < starts.len() {
            assert(starts[b] < starts[b + 1]);
        }
    }
}

/// Builds control-flow graphs, the call graph, reachability and unsafe
/// paths for a resolved module.
pub fn analysis_module(resolved: &ResolvedModule) -> (r: AnalysisModule)
    ensures
        analysis_built(r, *resolved),
{
    let module = resolved.module.copy();
    let mut cfgs: Vec<FunctionCfgIr> = Vec::new();
    let mut i: usize = 0;
    while i < module.functions.len()
        invariant
            i <= module.functions@.len(),
            cfgs@.len() == defined_functions(module.functions@.subrange(0, i as int)).len(),
            forall|k: int|
                0 <= k < cfgs@.len() ==> cfg_built(
                    #[trigger] cfgs@[k],
                    defined_functions(module.functions@.subrange(0, i as int))[k],
                    module,
                ),
        decreases module.functions@.len() - i,
    {
        let function = &module.functions[i];
        proof {
            assert(module.functions@.subrange(0, i + 1).drop_last() =~= module.functions@.subrange(0, i as int));
            assert(module.functions@.subrange(0, i + 1).last() == *function);
        }
        if function.kind == FunctionKindIr::Defined {
            let cfg = build_function_cfg(function, &module);
            cfgs.push(cfg);
        }
        i = i + 1;
    }
    assert(module.functions@.subrange(0, module.functions@.len() as int) =~= module.functions@);
    proof {
        assert forall|c: int| 0 <= c < cfgs@.len() implies blocks_indexed((#[trigger] cfgs@[c]).blocks@) by {
            lemma_cfg_blocks_indexed(cfgs@[c], defined_functions(module.functions@)[c], module);
        }
    }
    let call_graph = build_call_graph(&module, &cfgs);
    let reachability = build_reachability(&module, &call_graph);
    let unsafe_paths = build_unsafe_paths(&module, &cfgs, &call_graph);
    AnalysisModule::from_parts(module, cfgs, call_graph, reachability, unsafe_paths)
}

impl ResolvedModule {
    /// Runs the analysis branch on this module.
    pub fn analyze(&self) -> (r: AnalysisModule)
        ensures
            analysis_built(r, *self),
    {
        analysis_module(self)
    }
}

} // verus!
