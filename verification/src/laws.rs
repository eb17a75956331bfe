//! Properties of the library as a whole, each stated over the specifications
//! that the functions' contracts use.

use vstd::prelude::*;

use crate::analysis::{spec_sink_kind, callee_ids, edge_kind_of, site_edges, lemma_unsafe_candidates_graphs, no_sink_before, shortest_call_path, sink_at, unsafe_candidates, unsafe_path_ok, analysis_built, defined_functions, reach_ids, reach_within, reachable, root_candidates};
use crate::ir::{AnalysisModule, ParsedModule, ResolvedModule, same_module};
use crate::parse::{
    builds_from, call_indices, fresh_builder, functions_numbered, item_step, nth_defined, ModuleBuilder, ParseError,
    WasmItem,
};
use crate::render::{byte_decimals, byte_hex, decimals, hash_text, join_texts};
use crate::diff::{
    absent_from, pairs_agree, structural_changes, change_deltas, collection_changes, count_all_deltas, count_changes,
    count_deltas, is_delete, is_insert, is_replace, lemma_count_all_deltas_bound, lemma_count_changes_bound,
    step_deltas, steps_deltas, summary_of, total_deltas,
    added_view, deletes, inserts, record_of, removed_view, replaces, ChangeView, CollectionKind, DeltaView, DiffStep, DiffSummary, RecordView,
};
use crate::fingerprint::{
    canonical_body_parts, canonical_hash_of, canonical_text, is_fingerprint_of, local_parts,
    same_fingerprint, stable_id_for, FingerprintHash, FuncFingerprint,
};
use crate::ir::{ExportIr, ImportIr, TypeIr, same_immediate, same_locals, string_texts, FunctionIr, FunctionKindIr, Immediate, ModuleIr, ParsedOperator};
use crate::matcher::{
    greedy_pairs, keyed_indices, keyed_matching, mark_new, mark_old, match_key_of, pairs_for_keys,
    stage_pairs, unmatched_ids, unmatched_keys, zip_pairs, FunctionPair, MatchKey, MatchReason,
};
use crate::text::{
    decimal, digit_char, hex_fixed, insert_sorted, insert_unique, seq_lt, signed_decimal, sort_texts,
    sorted_texts, sorted_unique, strictly_sorted, texts,
};
use crate::analysis::has_edge;
use crate::cfg::{
    block_index, block_with_edges, branch_target_spec, cfg_built, edges_spec, exec_index,
    exec_positions, follow, is_exec, leader_starts, leaders_of, lookup_seq, opt_edge, table_edges,
    FrameInfo, frames_of, frames_upto, lemma_frames_upto, lemma_next_exec_skips,
    next_exec_from, next_exec_seq, block_end, blocks_built, starts_upto, lemma_starts_upto, exits_function, lemma_leaders_exact, spec_is_block_ending, starts_block,
};
use crate::ir::{Opcode, UnsafeSinkKindIr, BasicBlockIr, CallSiteIr, CfgEdgeIr, CfgEdgeKindIr, FunctionCfgIr};
use crate::ir::CallGraphEdgeIr;

verus! {

// ---------------------------------------------------------------------------
// Fingerprints and stable identity
// ---------------------------------------------------------------------------

/// A fingerprint is determined by the module and the function: two
/// fingerprints of the same function carry the same data.
pub proof fn law_fingerprint_is_deterministic(a: FuncFingerprint, b: FuncFingerprint, m: ModuleIr, f: FunctionIr)
    requires
        is_fingerprint_of(a, m, f),
        is_fingerprint_of(b, m, f),
    ensures
        same_fingerprint(a, b),
{
}

/// The stable identifier of a defined function with one export name depends
/// only on that name and its type: not on its position, identifier or body.
pub proof fn law_exported_id_ignores_position_and_body(f: FunctionIr, g: FunctionIr, hf: u64, hg: u64)
    requires
        f.kind == FunctionKindIr::Defined,
        g.kind == FunctionKindIr::Defined,
        string_texts(f.export_names).len() == 1,
        string_texts(f.export_names) == string_texts(g.export_names),
        f.type_id@ == g.type_id@,
    ensures
        stable_id_for(f, hf) == stable_id_for(g, hg),
{
    assert(string_texts(f.export_names)[0] == f.export_names@[0]@);
    assert(string_texts(g.export_names)[0] == g.export_names@[0]@);
}

/// Two instructions that agree up to which index a direct call uses, where
/// the called functions have the same identifier.
pub open spec fn same_up_to_call_index(m1: ModuleIr, a: ParsedOperator, m2: ModuleIr, b: ParsedOperator) -> bool {
    &&& a.opcode == b.opcode
    &&& match (a.immediate, b.immediate) {
        (Immediate::Call(i), Immediate::Call(j)) => (i as int) < m1.functions@.len() && (j as int)
            < m2.functions@.len() && m1.functions@[i as int].id@ == m2.functions@[j as int].id@,
        (Immediate::Call(_), _) => false,
        (_, Immediate::Call(_)) => false,
        _ => crate::render::hash_text(a.immediate) == crate::render::hash_text(b.immediate),
    }
}

/// The canonical body hash survives index drift: functions with the same
/// type, locals and instructions, whose direct calls name functions with the
/// same identifiers (at whatever index), have the same canonical hash.
pub proof fn law_canonical_hash_survives_index_drift(m1: ModuleIr, f1: FunctionIr, m2: ModuleIr, f2: FunctionIr)
    requires
        f1.type_id@ == f2.type_id@,
        same_locals(f1.locals@, f2.locals@),
        f1.operators@.len() == f2.operators@.len(),
        forall|k: int|
            0 <= k < f1.operators@.len() ==> same_up_to_call_index(
                m1,
                #[trigger] f1.operators@[k],
                m2,
                f2.operators@[k],
            ),
    ensures
        canonical_hash_of(m1, f1) == canonical_hash_of(m2, f2),
{
    assert(local_parts(f1.locals@) =~= local_parts(f2.locals@)) by {
        assert forall|k: int| 0 <= k < f1.locals@.len() implies local_parts(f1.locals@)[k]
            == local_parts(f2.locals@)[k] by {
            assert(crate::ir::same_local(f1.locals@[k], f2.locals@[k]));
        }
    }
    assert forall|k: int| 0 <= k < f1.operators@.len() implies canonical_text(m1, f1.operators@[k])
        == canonical_text(m2, f2.operators@[k]) by {
        assert(same_up_to_call_index(m1, f1.operators@[k], m2, f2.operators@[k]));
    }
    assert(canonical_body_parts(m1, f1) =~= canonical_body_parts(m2, f2));
}

// ---------------------------------------------------------------------------
// Sorting export names
// ---------------------------------------------------------------------------

proof fn lemma_insert_sorted_props(sorted: Seq<Seq<char>>, x: Seq<char>)
    requires
        sorted_texts(sorted),
    ensures
        sorted_texts(insert_sorted(sorted, x)),
        insert_sorted(sorted, x).to_multiset() == sorted.to_multiset().insert(x),
    decreases sorted.len(),
{
    broadcast use vstd::multiset::group_multiset_axioms;
    broadcast use vstd::seq_lib::group_to_multiset_ensures;

    if sorted.len() == 0 {
        assert(insert_sorted(sorted, x) =~= seq![x]);
        assert(seq![x] =~= Seq::<Seq<char>>::empty().push(x));
    } else if seq_lt(sorted[0], x) {
        let rest = sorted.drop_first();
        assert(sorted_texts(rest)) by {
            assert forall|i: int, j: int| 0 <= i < j < rest.len() implies !seq_lt(#[trigger] rest[j], #[trigger] rest[i]) by {
                assert(rest[i] == sorted[i + 1] && rest[j] == sorted[j + 1]);
            }
        }
        lemma_insert_sorted_props(rest, x);
        let ins = insert_sorted(rest, x);
        let r = seq![sorted[0]] + ins;
        assert(insert_sorted(sorted, x) == r);
        assert forall|i: int, j: int| 0 <= i < j < r.len() implies !seq_lt(#[trigger] r[j], #[trigger] r[i]) by {
            if i == 0 {
                assert(r[j] == ins[j - 1]);
                assert(ins.to_multiset().count(ins[j - 1]) > 0);
                if ins[j - 1] == x {
                    crate::text::lemma_seq_lt_asymmetric(sorted[0], x);
                } else {
                    assert(rest.to_multiset().count(ins[j - 1]) > 0);
                    assert(rest.contains(ins[j - 1]));
                    let w = choose|w: int| 0 <= w < rest.len() && rest[w] == ins[j - 1];
                    assert(rest[w] == sorted[w + 1]);
                    assert(!seq_lt(sorted[w + 1], sorted[0]));
                }
            } else {
                assert(r[i] == ins[i - 1] && r[j] == ins[j - 1]);
            }
        }
        assert(r =~= seq![sorted[0]] + ins);
        assert(sorted =~= seq![sorted[0]] + rest);
        vstd::seq_lib::lemma_multiset_commutative(seq![sorted[0]], ins);
        vstd::seq_lib::lemma_multiset_commutative(seq![sorted[0]], rest);
        assert(r.to_multiset() =~= sorted.to_multiset().insert(x));
    } else {
        let r = seq![x] + sorted;
        assert(insert_sorted(sorted, x) == r);
        assert forall|i: int, j: int| 0 <= i < j < r.len() implies !seq_lt(#[trigger] r[j], #[trigger] r[i]) by {
            if i == 0 {
                assert(r[j] == sorted[j - 1]);
                if j - 1 > 0 {
                    assert(!seq_lt(sorted[j - 1], sorted[0]));
                    if seq_lt(sorted[j - 1], x) {
                        crate::text::lemma_seq_lt_total(sorted[0], x);
                        if seq_lt(x, sorted[0]) {
                            crate::text::lemma_seq_lt_transitive(sorted[j - 1], x, sorted[0]);
                        }
                    }
                }
            } else {
                assert(r[i] == sorted[i - 1] && r[j] == sorted[j - 1]);
            }
        }
        vstd::seq_lib::lemma_multiset_commutative(seq![x], sorted);
        assert(r.to_multiset() =~= sorted.to_multiset().insert(x));
    }
}

/// Sorting puts the names in lexicographic order and keeps every name as
/// often as it occurs.
pub proof fn law_sort_texts_sorts(s: Seq<Seq<char>>)
    ensures
        sorted_texts(sort_texts(s)),
        sort_texts(s).to_multiset() == s.to_multiset(),
    decreases s.len(),
{
    broadcast use vstd::seq_lib::group_to_multiset_ensures;

    if s.len() == 0 {
        assert(sort_texts(s) =~= s);
    } else {
        law_sort_texts_sorts(s.drop_last());
        lemma_insert_sorted_props(sort_texts(s.drop_last()), s.last());
        assert(s =~= s.drop_last().push(s.last()));
    }
}

// ---------------------------------------------------------------------------
// Diff
// ---------------------------------------------------------------------------

/// An edit script of equal ranges only yields no instruction edits.
pub proof fn law_equal_script_has_no_edits(steps: Seq<DiffStep>, old: Seq<ParsedOperator>, new: Seq<ParsedOperator>)
    requires
        forall|i: int| 0 <= i < steps.len() ==> #[trigger] steps[i] is Equal,
    ensures
        steps_deltas(steps, old, new).len() == 0,
    decreases steps.len(),
{
    if steps.len() > 0 {
        law_equal_script_has_no_edits(steps.drop_last(), old, new);
        assert(steps[steps.len() - 1] is Equal);
    }
}

proof fn lemma_absent_from_self(s: Seq<Seq<char>>, other: Seq<Seq<char>>)
    requires
        forall|i: int| 0 <= i < s.len() ==> other.contains(#[trigger] s[i]),
    ensures
        absent_from(s, other).len() == 0,
    decreases s.len(),
{
    if s.len() > 0 {
        assert(other.contains(s[s.len() - 1]));
        lemma_absent_from_self(s.drop_last(), other);
    }
}

/// Comparing a list of identifiers with itself reports nothing added or
/// removed.
pub proof fn law_same_collection_no_changes(kind: CollectionKind, ids: Seq<Seq<char>>)
    ensures
        collection_changes(kind, ids, ids).len() == 0,
{
    let o = sort_texts(ids);
    assert forall|i: int| 0 <= i < o.len() implies o.contains(#[trigger] o[i]) by {}
    lemma_absent_from_self(o, o);
}

/// When every function's source index is matched, no function is reported
/// added or removed.
pub proof fn law_all_matched_none_unmatched(fs: Seq<FunctionIr>, matched: Seq<u32>)
    requires
        forall|i: int| 0 <= i < fs.len() ==> matched.contains(#[trigger] fs[i].source_index),
    ensures
        unmatched_ids(fs, matched).len() == 0,
    decreases fs.len(),
{
    if fs.len() > 0 {
        assert(matched.contains(fs[fs.len() - 1].source_index));
        law_all_matched_none_unmatched(fs.drop_last(), matched);
    }
}

/// Comparing a module with itself, each function paired with itself, reports
/// no change: nothing is added or removed, and every pair joins functions
/// that agree, so that `diff_changes` reports no changed function either.
pub proof fn law_self_diff_has_no_changes(m: ModuleIr, pairs: Seq<(u32, u32)>)
    requires
        forall|k: int| 0 <= k < pairs.len() ==> (#[trigger] pairs[k]).0 == pairs[k].1,
        forall|i: int|
            0 <= i < m.functions@.len() ==> pairs.map_values(|p: (u32, u32)| p.0).contains(
                #[trigger] m.functions@[i].source_index,
            ),
    ensures
        structural_changes(m, m, pairs).len() == 0,
        pairs_agree(m.functions@, m.functions@, pairs),
{
    let olds = pairs.map_values(|p: (u32, u32)| p.0);
    let news = pairs.map_values(|p: (u32, u32)| p.1);
    assert(olds =~= news);
    law_same_collection_no_changes(CollectionKind::Type, m.types@.map_values(|t: TypeIr| t.id@));
    law_same_collection_no_changes(CollectionKind::Import, m.imports@.map_values(|t: ImportIr| t.id@));
    law_same_collection_no_changes(CollectionKind::Export, m.exports@.map_values(|t: ExportIr| t.id@));
    law_all_matched_none_unmatched(m.functions@, olds);
}

/// The change counts of a summary add up to the number of changes, and its
/// instruction counts to the number of instruction edits.
pub proof fn law_summary_totals(cs: Seq<ChangeView>)
    ensures
        count_changes(cs, |c: ChangeView| c is TypeAdded) + count_changes(cs, |c: ChangeView| c is TypeRemoved)
            + count_changes(cs, |c: ChangeView| c is ImportAdded) + count_changes(cs, |c: ChangeView| c is ImportRemoved)
            + count_changes(cs, |c: ChangeView| c is ExportAdded) + count_changes(cs, |c: ChangeView| c is ExportRemoved)
            + count_changes(cs, |c: ChangeView| c is FunctionAdded) + count_changes(cs, |c: ChangeView| c is FunctionRemoved)
            + count_changes(cs, |c: ChangeView| c is FunctionChanged) == cs.len(),
        count_all_deltas(cs, |d: DeltaView| is_replace(d)) + count_all_deltas(cs, |d: DeltaView| is_insert(d))
            + count_all_deltas(cs, |d: DeltaView| is_delete(d)) == total_deltas(cs),
    decreases cs.len(),
{
    if cs.len() > 0 {
        law_summary_totals(cs.drop_last());
        lemma_delta_kinds_total(change_deltas(cs.last()));
    }
}

/// Summary counts add up over concatenated change lists: each count that a
/// summary takes of `a + b`, of changes or of instruction edits, is the count
/// of `a` plus the count of `b`.
pub proof fn law_summary_counts_add(
    a: Seq<ChangeView>,
    b: Seq<ChangeView>,
    change_kind: spec_fn(ChangeView) -> bool,
    edit_kind: spec_fn(DeltaView) -> bool,
)
    ensures
        count_changes(a + b, change_kind) == count_changes(a, change_kind) + count_changes(b, change_kind),
        count_all_deltas(a + b, edit_kind) == count_all_deltas(a, edit_kind) + count_all_deltas(b, edit_kind),
        total_deltas(a + b) == total_deltas(a) + total_deltas(b),
    decreases b.len(),
{
    if b.len() == 0 {
        assert(a + b =~= a);
    } else {
        law_summary_counts_add(a, b.drop_last(), change_kind, edit_kind);
        assert((a + b).drop_last() =~= a + b.drop_last());
        assert((a + b).last() == b.last());
    }
}

/// The summary of two change lists one after the other is the field-by-field
/// sum of their summaries, and the summary of no change is all zeros (while
/// the counts fit in `usize`, as `summarize` requires).
pub proof fn law_summary_adds(a: Seq<ChangeView>, b: Seq<ChangeView>)
    requires
        (a + b).len() + total_deltas(a + b) <= usize::MAX,
    ensures
        summary_of(Seq::<ChangeView>::empty()) == (DiffSummary {
            types_added: 0,
            types_removed: 0,
            imports_added: 0,
            imports_removed: 0,
            exports_added: 0,
            exports_removed: 0,
            functions_added: 0,
            functions_removed: 0,
            functions_changed: 0,
            operator_replacements: 0,
            operator_insertions: 0,
            operator_deletions: 0,
        }),
        summary_of(a + b).types_added == summary_of(a).types_added + summary_of(b).types_added,
        summary_of(a + b).types_removed == summary_of(a).types_removed + summary_of(b).types_removed,
        summary_of(a + b).imports_added == summary_of(a).imports_added + summary_of(b).imports_added,
        summary_of(a + b).imports_removed == summary_of(a).imports_removed + summary_of(b).imports_removed,
        summary_of(a + b).exports_added == summary_of(a).exports_added + summary_of(b).exports_added,
        summary_of(a + b).exports_removed == summary_of(a).exports_removed + summary_of(b).exports_removed,
        summary_of(a + b).functions_added == summary_of(a).functions_added + summary_of(b).functions_added,
        summary_of(a + b).functions_removed == summary_of(a).functions_removed + summary_of(b).functions_removed,
        summary_of(a + b).functions_changed == summary_of(a).functions_changed + summary_of(b).functions_changed,
        summary_of(a + b).operator_replacements == summary_of(a).operator_replacements + summary_of(b).operator_replacements,
        summary_of(a + b).operator_insertions == summary_of(a).operator_insertions + summary_of(b).operator_insertions,
        summary_of(a + b).operator_deletions == summary_of(a).operator_deletions + summary_of(b).operator_deletions,
{
    assert(Seq::<ChangeView>::empty().len() == 0);
    law_summary_counts_add(a, b, |c: ChangeView| c is TypeAdded, |d: DeltaView| is_replace(d));
    lemma_count_changes_bound(a + b, |c: ChangeView| c is TypeAdded);
    law_summary_counts_add(a, b, |c: ChangeView| c is TypeRemoved, |d: DeltaView| is_replace(d));
    lemma_count_changes_bound(a + b, |c: ChangeView| c is TypeRemoved);
    law_summary_counts_add(a, b, |c: ChangeView| c is ImportAdded, |d: DeltaView| is_replace(d));
    lemma_count_changes_bound(a + b, |c: ChangeView| c is ImportAdded);
    law_summary_counts_add(a, b, |c: ChangeView| c is ImportRemoved, |d: DeltaView| is_replace(d));
    lemma_count_changes_bound(a + b, |c: ChangeView| c is ImportRemoved);
    law_summary_counts_add(a, b, |c: ChangeView| c is ExportAdded, |d: DeltaView| is_replace(d));
    lemma_count_changes_bound(a + b, |c: ChangeView| c is ExportAdded);
    law_summary_counts_add(a, b, |c: ChangeView| c is ExportRemoved, |d: DeltaView| is_replace(d));
    lemma_count_changes_bound(a + b, |c: ChangeView| c is ExportRemoved);
    law_summary_counts_add(a, b, |c: ChangeView| c is FunctionAdded, |d: DeltaView| is_replace(d));
    lemma_count_changes_bound(a + b, |c: ChangeView| c is FunctionAdded);
    law_summary_counts_add(a, b, |c: ChangeView| c is FunctionRemoved, |d: DeltaView| is_replace(d));
    lemma_count_changes_bound(a + b, |c: ChangeView| c is FunctionRemoved);
    law_summary_counts_add(a, b, |c: ChangeView| c is FunctionChanged, |d: DeltaView| is_replace(d));
    lemma_count_changes_bound(a + b, |c: ChangeView| c is FunctionChanged);
    law_summary_counts_add(a, b, |c: ChangeView| c is TypeAdded, |d: DeltaView| is_replace(d));
    lemma_count_all_deltas_bound(a + b, |d: DeltaView| is_replace(d));
    law_summary_counts_add(a, b, |c: ChangeView| c is TypeAdded, |d: DeltaView| is_insert(d));
    lemma_count_all_deltas_bound(a + b, |d: DeltaView| is_insert(d));
    law_summary_counts_add(a, b, |c: ChangeView| c is TypeAdded, |d: DeltaView| is_delete(d));
    lemma_count_all_deltas_bound(a + b, |d: DeltaView| is_delete(d));
}

proof fn lemma_delta_kinds_total(ds: Seq<DeltaView>)
    ensures
        count_deltas(ds, |d: DeltaView| is_replace(d)) + count_deltas(ds, |d: DeltaView| is_insert(d))
            + count_deltas(ds, |d: DeltaView| is_delete(d)) == ds.len(),
    decreases ds.len(),
{
    if ds.len() > 0 {
        lemma_delta_kinds_total(ds.drop_last());
    }
}

// ---------------------------------------------------------------------------
// Matching
// ---------------------------------------------------------------------------

/// Greedy pairing matches each function at most once: every kept pair joins
/// an old and a new function that were unmatched, no two pairs share a side,
/// and both sides end up marked.
pub proof fn law_greedy_pairs_one_to_one(cands: Seq<(usize, usize)>, om: Seq<bool>, nm: Seq<bool>)
    requires
        forall|k: int| 0 <= k < cands.len() ==> (#[trigger] cands[k]).0 < om.len() && cands[k].1 < nm.len(),
    ensures
        ({
            let (ps, o, n) = greedy_pairs(cands, om, nm);
            &&& o.len() == om.len()
            &&& n.len() == nm.len()
            &&& forall|k: int| 0 <= k < ps.len() ==> (#[trigger] ps[k]).0 < om.len() && ps[k].1 < nm.len()
            &&& forall|k: int| 0 <= k < ps.len() ==> !om[(#[trigger] ps[k]).0 as int] && !nm[ps[k].1 as int]
            &&& forall|k: int| 0 <= k < ps.len() ==> o[(#[trigger] ps[k]).0 as int] && n[ps[k].1 as int]
            &&& forall|k: int, l: int| 0 <= k < l < ps.len() ==> (#[trigger] ps[k]).0 != (#[trigger] ps[l]).0 && ps[k].1 != ps[l].1
            &&& forall|i: int| 0 <= i < om.len() && om[i] ==> o[i]
            &&& forall|i: int| 0 <= i < nm.len() && nm[i] ==> n[i]
        }),
    decreases cands.len(),
{
    if cands.len() > 0 {
        let prev = greedy_pairs(cands.drop_last(), om, nm);
        law_greedy_pairs_one_to_one(cands.drop_last(), om, nm);
        let c = cands.last();
        assert(c == cands[cands.len() - 1]);
        if !(prev.1[c.0 as int] || prev.2[c.1 as int]) {
            let (ps, o, n) = greedy_pairs(cands, om, nm);
            assert(ps == prev.0.push(c));
            assert(o == prev.1.update(c.0 as int, true));
            assert(n == prev.2.update(c.1 as int, true));
            assert(!om[c.0 as int]);
            assert(!nm[c.1 as int]);
            assert forall|k: int| 0 <= k < ps.len() implies (#[trigger] ps[k]).0 < om.len() && ps[k].1 < nm.len() by {
                if k < prev.0.len() {
                    assert(ps[k] == prev.0[k]);
                }
            }
            assert forall|k: int| 0 <= k < ps.len() implies o[(#[trigger] ps[k]).0 as int] && n[ps[k].1 as int] by {
                if k < prev.0.len() {
                    assert(ps[k] == prev.0[k]);
                }
            }
            assert forall|k: int, l: int| 0 <= k < l < ps.len() implies (#[trigger] ps[k]).0 != (#[trigger] ps[l]).0 && ps[k].1 != ps[l].1 by {
                assert(ps[k] == prev.0[k]);
                if l < prev.0.len() {
                    assert(ps[l] == prev.0[l]);
                } else {
                    assert(prev.1[prev.0[k].0 as int]);
                    assert(prev.2[prev.0[k].1 as int]);
                }
            }
            assert forall|k: int| 0 <= k < ps.len() implies !om[(#[trigger] ps[k]).0 as int] && !nm[ps[k].1 as int] by {
                if k < prev.0.len() {
                    assert(ps[k] == prev.0[k]);
                }
            }
        }
    }
}

// ---------------------------------------------------------------------------
// Reachability
// ---------------------------------------------------------------------------

/// The analysis of a resolved module keeps the module; has one control-flow
/// graph per defined function, in order, each named after its function and
/// entered at its first block when it has any; lists its roots strictly
/// sorted, so without repeats; and its reachability summary repeats the call
/// graph's roots and reachable functions and imports.
pub proof fn law_analysis_shape(a: AnalysisModule, resolved: ResolvedModule)
    requires
        analysis_built(a, resolved),
    ensures
        same_module(a.module, resolved.module),
        a.cfgs@.len() == defined_functions(a.module.functions@).len(),
        forall|k: int|
            0 <= k < a.cfgs@.len() ==> {
                &&& (#[trigger] a.cfgs@[k]).function_id@ == defined_functions(a.module.functions@)[k].id@
                &&& a.cfgs@[k].entry_block == if a.cfgs@[k].blocks@.len() > 0 {
                    Some(0usize)
                } else {
                    None
                }
            },
        strictly_sorted(texts(a.call_graph.roots@)),
        texts(a.reachability.roots@) == texts(a.call_graph.roots@),
        texts(a.reachability.reachable_functions@) == texts(a.call_graph.reachable_functions@),
        texts(a.reachability.reachable_imports@) == texts(a.call_graph.reachable_imports@),
{
    law_sorted_unique(root_candidates(a.module));
}

/// Reachability is the least set that holds the roots and every callee of
/// its members: whatever is reached lies in every such set.
pub proof fn law_reachable_is_least_closed_set(
    roots: Seq<Seq<char>>,
    edges: Seq<CallGraphEdgeIr>,
    s: Set<Seq<char>>,
    t: Seq<char>,
)
    requires
        forall|x: Seq<char>| roots.contains(x) ==> s.contains(x),
        forall|e: int|
            0 <= e < edges.len() && s.contains((#[trigger] edges[e]).caller_function_id@) ==> s.contains(
                edges[e].callee_function_id@,
            ),
        reachable(roots, edges, t),
    ensures
        s.contains(t),
{
    let n = choose|n: nat| #[trigger] reach_within(roots, edges, t, n);
    lemma_within_closed_set(roots, edges, s, t, n);
}

proof fn lemma_within_closed_set(
    roots: Seq<Seq<char>>,
    edges: Seq<CallGraphEdgeIr>,
    s: Set<Seq<char>>,
    t: Seq<char>,
    n: nat,
)
    requires
        forall|x: Seq<char>| roots.contains(x) ==> s.contains(x),
        forall|e: int|
            0 <= e < edges.len() && s.contains((#[trigger] edges[e]).caller_function_id@) ==> s.contains(
                edges[e].callee_function_id@,
            ),
        reach_within(roots, edges, t, n),
    ensures
        s.contains(t),
    decreases n,
{
    if !roots.contains(t) {
        let a = choose|a: Seq<char>| #[trigger] has_edge(edges, a, t) && reach_within(roots, edges, a, (n - 1) as nat);
        lemma_within_closed_set(roots, edges, s, a, (n - 1) as nat);
        let e = choose|e: int|
            0 <= e < edges.len() && (#[trigger] edges[e]).caller_function_id@ == a
                && edges[e].callee_function_id@ == t;
    }
}

/// Each unsafe path of an analysis starts with its entry function, ends with
/// the function that holds its sink, and, when a root reaches that function,
/// is a shortest call path from a root.
pub proof fn law_unsafe_paths_shape(a: AnalysisModule, resolved: ResolvedModule)
    requires
        analysis_built(a, resolved),
    ensures
        forall|k: int|
            0 <= k < a.unsafe_paths@.len() ==> {
                let p = #[trigger] a.unsafe_paths@[k];
                let path = texts(p.function_path@);
                &&& path.len() > 0
                &&& p.entry_function_id@ == path[0]
                &&& path.last() == p.sink.function_id@
                &&& reachable(texts(a.call_graph.roots@), a.call_graph.edges@, path.last())
                    ==> shortest_call_path(texts(a.call_graph.roots@), a.call_graph.edges@, path)
            },
{
    let cands = unsafe_candidates(a.module.functions@, a.cfgs@, a.call_graph);
    lemma_unsafe_candidates_graphs(a.module.functions@, a.cfgs@, a.call_graph);
    assert forall|k: int| 0 <= k < a.unsafe_paths@.len() implies {
        let p = #[trigger] a.unsafe_paths@[k];
        let path = texts(p.function_path@);
        &&& path.len() > 0
        &&& p.entry_function_id@ == path[0]
        &&& path.last() == p.sink.function_id@
        &&& reachable(texts(a.call_graph.roots@), a.call_graph.edges@, path.last())
            ==> shortest_call_path(texts(a.call_graph.roots@), a.call_graph.edges@, path)
    } by {
        let p = a.unsafe_paths@[k];
        let (id, c) = cands[k];
        let cfg = a.cfgs@[c];
        assert(unsafe_path_ok(p, id, cfg, a.call_graph));
        let (bb, j) = choose|bb: int, j: int|
            0 <= bb < cfg.blocks@.len() && 0 <= j < cfg.blocks@[bb].operators@.len() && no_sink_before(cfg.blocks@, bb, j)
                && #[trigger] sink_at(p.sink, cfg, bb, j);
    }
}

/// Every root is reachable.
pub proof fn law_roots_are_reachable(roots: Seq<Seq<char>>, edges: Seq<CallGraphEdgeIr>, t: Seq<char>)
    requires
        roots.contains(t),
    ensures
        reachable(roots, edges, t),
{
    assert(reach_within(roots, edges, t, 0));
}

/// Whatever a reachable function calls is reachable.
pub proof fn law_reachable_closed_under_calls(roots: Seq<Seq<char>>, edges: Seq<CallGraphEdgeIr>, a: Seq<char>, b: Seq<char>)
    requires
        reachable(roots, edges, a),
        has_edge(edges, a, b),
    ensures
        reachable(roots, edges, b),
{
    let n = choose|n: nat| #[trigger] reach_within(roots, edges, a, n);
    assert(reach_within(roots, edges, b, n + 1));
}

/// Each function is listed among the reachable or among the unreachable
/// ones, never both.
pub proof fn law_reach_partition(fs: Seq<FunctionIr>, roots: Seq<Seq<char>>, edges: Seq<CallGraphEdgeIr>, f: FunctionIr)
    requires
        fs.contains(f),
    ensures
        reach_ids(fs, roots, edges, true, false).contains(f.id@) || reach_ids(fs, roots, edges, false, false).contains(
            f.id@,
        ),
        reachable(roots, edges, f.id@) ==> reach_ids(fs, roots, edges, true, false).contains(f.id@),
        !reachable(roots, edges, f.id@) ==> reach_ids(fs, roots, edges, false, false).contains(f.id@),
    decreases fs.len(),
{
    let last = fs.last();
    if last == f {
        let p1 = reach_ids(fs.drop_last(), roots, edges, true, false);
        let p2 = reach_ids(fs.drop_last(), roots, edges, false, false);
        if reachable(roots, edges, f.id@) {
            assert(reach_ids(fs, roots, edges, true, false) == p1.push(f.id@));
            assert(p1.push(f.id@)[p1.len() as int] == f.id@);
        } else {
            assert(reach_ids(fs, roots, edges, false, false) == p2.push(f.id@));
            assert(p2.push(f.id@)[p2.len() as int] == f.id@);
        }
    } else {
        let w = choose|w: int| 0 <= w < fs.len() && fs[w] == f;
        assert(w < fs.len() - 1);
        assert(fs.drop_last()[w] == f);
        law_reach_partition(fs.drop_last(), roots, edges, f);
        let p1 = reach_ids(fs.drop_last(), roots, edges, true, false);
        let p2 = reach_ids(fs.drop_last(), roots, edges, false, false);
        if p1.contains(f.id@) {
            let v = choose|v: int| 0 <= v < p1.len() && p1[v] == f.id@;
            let r1 = reach_ids(fs, roots, edges, true, false);
            assert(r1 == p1 || r1 == p1.push(last.id@));
            assert(r1[v] == f.id@);
        }
        if p2.contains(f.id@) {
            let v = choose|v: int| 0 <= v < p2.len() && p2[v] == f.id@;
            let r2 = reach_ids(fs, roots, edges, false, false);
            assert(r2 == p2 || r2 == p2.push(last.id@));
            assert(r2[v] == f.id@);
        }
    }
}

// ---------------------------------------------------------------------------
// Keyed matching is one-to-one
// ---------------------------------------------------------------------------

proof fn lemma_keyed_indices(fs: Seq<FunctionIr>, m: Seq<bool>, key: MatchKey, k: Seq<char>)
    requires
        fs.len() <= usize::MAX,
    ensures
        forall|t: int|
            0 <= t < keyed_indices(fs, m, key, k).len() ==> {
                let i = #[trigger] keyed_indices(fs, m, key, k)[t] as int;
                &&& i < fs.len()
                &&& !m[i]
                &&& match_key_of(fs[i], key) == Some(k)
            },
        forall|s: int, t: int|
            0 <= s < t < keyed_indices(fs, m, key, k).len() ==> #[trigger] keyed_indices(fs, m, key, k)[s]
                < #[trigger] keyed_indices(fs, m, key, k)[t],
    decreases fs.len(),
{
    if fs.len() > 0 {
        let init = fs.drop_last();
        lemma_keyed_indices(init, m, key, k);
        let rest = keyed_indices(init, m, key, k);
        let r = keyed_indices(fs, m, key, k);
        assert forall|t: int| 0 <= t < rest.len() implies (rest[t] as int) < init.len() && fs[rest[t] as int]
            == init[rest[t] as int] by {}
        if r.len() > rest.len() {
            assert(r == rest.push((fs.len() - 1) as usize));
        }
    }
}

proof fn lemma_insert_unique_sorted(sorted: Seq<Seq<char>>, x: Seq<char>)
    requires
        strictly_sorted(sorted),
    ensures
        strictly_sorted(insert_unique(sorted, x)),
        forall|y: Seq<char>| #[trigger] insert_unique(sorted, x).contains(y) <==> (sorted.contains(y) || y == x),
    decreases sorted.len(),
{
    if sorted.len() == 0 {
        assert(insert_unique(sorted, x) =~= seq![x]);
        assert forall|y: Seq<char>| insert_unique(sorted, x).contains(y) <==> (sorted.contains(y) || y == x) by {
            if y == x {
                assert(seq![x][0] == x);
            }
        }
    } else if seq_lt(sorted[0], x) {
        let rest = sorted.drop_first();
        assert(strictly_sorted(rest)) by {
            assert forall|i: int, j: int| 0 <= i < j < rest.len() implies seq_lt(#[trigger] rest[i], #[trigger] rest[j]) by {
                assert(rest[i] == sorted[i + 1] && rest[j] == sorted[j + 1]);
            }
        }
        lemma_insert_unique_sorted(rest, x);
        let ins = insert_unique(rest, x);
        let r = seq![sorted[0]] + ins;
        assert(insert_unique(sorted, x) == r);
        assert forall|i: int, j: int| 0 <= i < j < r.len() implies seq_lt(#[trigger] r[i], #[trigger] r[j]) by {
            if i == 0 {
                assert(r[j] == ins[j - 1]);
                assert(ins.contains(ins[j - 1]));
                if ins[j - 1] != x {
                    assert(rest.contains(ins[j - 1]));
                    let w = choose|w: int| 0 <= w < rest.len() && rest[w] == ins[j - 1];
                    assert(rest[w] == sorted[w + 1]);
                }
            } else {
                assert(r[i] == ins[i - 1] && r[j] == ins[j - 1]);
            }
        }
        assert forall|y: Seq<char>| r.contains(y) <==> (sorted.contains(y) || y == x) by {
            if r.contains(y) {
                let w = choose|w: int| 0 <= w < r.len() && r[w] == y;
                if w == 0 {
                    assert(sorted[0] == y);
                } else {
                    assert(ins[w - 1] == y);
                    assert(ins.contains(y));
                    if rest.contains(y) {
                        let v = choose|v: int| 0 <= v < rest.len() && rest[v] == y;
                        assert(sorted[v + 1] == y);
                    }
                }
            }
            if sorted.contains(y) {
                let w = choose|w: int| 0 <= w < sorted.len() && sorted[w] == y;
                if w == 0 {
                    assert(r[0] == y);
                } else {
                    assert(rest[w - 1] == y);
                    assert(rest.contains(y));
                    assert(ins.contains(y));
                    let v = choose|v: int| 0 <= v < ins.len() && ins[v] == y;
                    assert(r[v + 1] == y);
                }
            }
            if y == x {
                assert(ins.contains(y));
                let v = choose|v: int| 0 <= v < ins.len() && ins[v] == y;
                assert(r[v + 1] == y);
            }
        }
    } else if sorted[0] == x {
        assert(sorted.contains(sorted[0]));
    } else {
        let r = seq![x] + sorted;
        assert(insert_unique(sorted, x) == r);
        crate::text::lemma_seq_lt_total(sorted[0], x);
        assert forall|i: int, j: int| 0 <= i < j < r.len() implies seq_lt(#[trigger] r[i], #[trigger] r[j]) by {
            if i == 0 {
                assert(r[j] == sorted[j - 1]);
                if j - 1 > 0 {
                    crate::text::lemma_seq_lt_transitive(x, sorted[0], sorted[j - 1]);
                }
            } else {
                assert(r[i] == sorted[i - 1] && r[j] == sorted[j - 1]);
            }
        }
        assert forall|y: Seq<char>| r.contains(y) <==> (sorted.contains(y) || y == x) by {
            if r.contains(y) {
                let w = choose|w: int| 0 <= w < r.len() && r[w] == y;
                if w > 0 {
                    assert(sorted[w - 1] == y);
                }
            }
            if sorted.contains(y) {
                let w = choose|w: int| 0 <= w < sorted.len() && sorted[w] == y;
                assert(r[w + 1] == y);
            }
            if y == x {
                assert(r[0] == y);
            }
        }
    }
}

/// The sorted, de-duplicated form of a list is strictly increasing and holds
/// exactly the list's elements.
pub proof fn law_sorted_unique(s: Seq<Seq<char>>)
    ensures
        strictly_sorted(sorted_unique(s)),
        forall|y: Seq<char>| #[trigger] sorted_unique(s).contains(y) <==> s.contains(y),
    decreases s.len(),
{
    if s.len() > 0 {
        law_sorted_unique(s.drop_last());
        lemma_insert_unique_sorted(sorted_unique(s.drop_last()), s.last());
        assert forall|y: Seq<char>| sorted_unique(s).contains(y) <==> s.contains(y) by {
            if s.drop_last().contains(y) {
                let w = choose|w: int| 0 <= w < s.drop_last().len() && s.drop_last()[w] == y;
                assert(s[w] == y);
            }
            if s.contains(y) && y != s.last() {
                let w = choose|w: int| 0 <= w < s.len() && s[w] == y;
                assert(s.drop_last()[w] == y);
            }
            if y == s.last() {
                assert(s[s.len() - 1] == y);
            }
        }
    } else {
        assert(sorted_unique(s) =~= Seq::<Seq<char>>::empty());
    }
}

/// Each pair of a keyed stage joins an old and a new function with the same
/// key, both not matched before; the pairs for keys without repeats share no
/// function on either side.
proof fn lemma_pairs_for_keys(
    keys: Seq<Seq<char>>,
    old: Seq<FunctionIr>,
    om: Seq<bool>,
    new: Seq<FunctionIr>,
    nm: Seq<bool>,
    key: MatchKey,
    reason: MatchReason,
)
    requires
        strictly_sorted(keys),
        old.len() <= usize::MAX,
        new.len() <= usize::MAX,
    ensures
        ({
            let ps = pairs_for_keys(keys, old, om, new, nm, key, reason);
            &&& forall|q: int|
                0 <= q < ps.len() ==> {
                    let p = #[trigger] ps[q];
                    &&& (p.old_index as int) < old.len() && !om[p.old_index as int]
                    &&& (p.new_index as int) < new.len() && !nm[p.new_index as int]
                    &&& match_key_of(old[p.old_index as int], key) is Some
                    &&& keys.contains(match_key_of(old[p.old_index as int], key)->0)
                    &&& match_key_of(new[p.new_index as int], key) == match_key_of(old[p.old_index as int], key)
                    &&& p.reason == reason
                }
            &&& forall|q1: int, q2: int|
                0 <= q1 < q2 < ps.len() ==> (#[trigger] ps[q1]).old_index != (#[trigger] ps[q2]).old_index
                    && ps[q1].new_index != ps[q2].new_index
        }),
    decreases keys.len(),
{
    if keys.len() > 0 {
        let init = keys.drop_last();
        let k = keys.last();
        assert(strictly_sorted(init)) by {
            assert forall|i: int, j: int| 0 <= i < j < init.len() implies seq_lt(#[trigger] init[i], #[trigger] init[j]) by {
                assert(init[i] == keys[i] && init[j] == keys[j]);
            }
        }
        lemma_pairs_for_keys(init, old, om, new, nm, key, reason);
        let prev = pairs_for_keys(init, old, om, new, nm, key, reason);
        let a = keyed_indices(old, om, key, k);
        let b = keyed_indices(new, nm, key, k);
        lemma_keyed_indices(old, om, key, k);
        lemma_keyed_indices(new, nm, key, k);
        let z = zip_pairs(a, b, reason);
        let ps = prev + z;
        assert(pairs_for_keys(keys, old, om, new, nm, key, reason) == ps);
        assert(!init.contains(k)) by {
            if init.contains(k) {
                let w = choose|w: int| 0 <= w < init.len() && init[w] == k;
                assert(seq_lt(keys[w], keys[keys.len() - 1]));
                crate::text::lemma_seq_lt_irreflexive(k);
            }
        }
        assert forall|q: int| 0 <= q < ps.len() implies {
            let p = #[trigger] ps[q];
            &&& (p.old_index as int) < old.len() && !om[p.old_index as int]
            &&& (p.new_index as int) < new.len() && !nm[p.new_index as int]
            &&& match_key_of(old[p.old_index as int], key) is Some
            &&& keys.contains(match_key_of(old[p.old_index as int], key)->0)
            &&& match_key_of(new[p.new_index as int], key) == match_key_of(old[p.old_index as int], key)
            &&& p.reason == reason
        } by {
            if q < prev.len() {
                assert(ps[q] == prev[q]);
                let kk = match_key_of(old[prev[q].old_index as int], key)->0;
                let w = choose|w: int| 0 <= w < init.len() && init[w] == kk;
                assert(keys[w] == kk);
            } else {
                let t = q - prev.len();
                assert(ps[q] == z[t]);
                assert(z[t].old_index == a[t] && z[t].new_index == b[t]);
                assert(keys[keys.len() - 1] == k);
            }
        }
        assert forall|q1: int, q2: int| 0 <= q1 < q2 < ps.len() implies (#[trigger] ps[q1]).old_index
            != (#[trigger] ps[q2]).old_index && ps[q1].new_index != ps[q2].new_index by {
            if q2 < prev.len() {
                assert(ps[q1] == prev[q1] && ps[q2] == prev[q2]);
            } else if q1 >= prev.len() {
                let t1 = q1 - prev.len();
                let t2 = q2 - prev.len();
                assert(ps[q1] == z[t1] && ps[q2] == z[t2]);
                assert(a[t1] < a[t2]);
                assert(b[t1] < b[t2]);
            } else {
                let t2 = q2 - prev.len();
                assert(ps[q1] == prev[q1] && ps[q2] == z[t2]);
                let k1 = match_key_of(old[prev[q1].old_index as int], key)->0;
                assert(init.contains(k1));
                assert(match_key_of(old[a[t2] as int], key) == Some(k));
                assert(match_key_of(new[b[t2] as int], key) == Some(k));
            }
        }
    }
}

/// A keyed matching stage matches each function at most once: every pair
/// joins an old and a new function with equal keys, neither matched by an
/// earlier stage, and no two pairs share an old or a new function.
pub proof fn law_stage_pairs_one_to_one(
    old: Seq<FunctionIr>,
    om: Seq<bool>,
    new: Seq<FunctionIr>,
    nm: Seq<bool>,
    key: MatchKey,
    reason: MatchReason,
)
    requires
        old.len() <= usize::MAX,
        new.len() <= usize::MAX,
    ensures
        ({
            let ps = stage_pairs(old, om, new, nm, key, reason);
            &&& forall|q: int|
                0 <= q < ps.len() ==> {
                    let p = #[trigger] ps[q];
                    &&& (p.old_index as int) < old.len() && !om[p.old_index as int]
                    &&& (p.new_index as int) < new.len() && !nm[p.new_index as int]
                    &&& match_key_of(old[p.old_index as int], key) is Some
                    &&& match_key_of(new[p.new_index as int], key) == match_key_of(old[p.old_index as int], key)
                    &&& p.reason == reason
                }
            &&& forall|q1: int, q2: int|
                0 <= q1 < q2 < ps.len() ==> (#[trigger] ps[q1]).old_index != (#[trigger] ps[q2]).old_index
                    && ps[q1].new_index != ps[q2].new_index
        }),
{
    let keys = sorted_unique(unmatched_keys(old, om, key));
    law_sorted_unique(unmatched_keys(old, om, key));
    lemma_pairs_for_keys(keys, old, om, new, nm, key, reason);
}

/// Pairs whose old and new functions are all distinct, in range, unmatched
/// according to `om` and `nm`.
pub open spec fn fresh_one_to_one(ps: Seq<FunctionPair>, om: Seq<bool>, nm: Seq<bool>) -> bool {
    &&& forall|q: int|
        0 <= q < ps.len() ==> (#[trigger] ps[q]).old_index < om.len() && !om[ps[q].old_index as int]
            && ps[q].new_index < nm.len() && !nm[ps[q].new_index as int]
    &&& forall|q1: int, q2: int|
        0 <= q1 < q2 < ps.len() ==> (#[trigger] ps[q1]).old_index != (#[trigger] ps[q2]).old_index
            && ps[q1].new_index != ps[q2].new_index
}

proof fn lemma_stage_fresh(
    old: Seq<FunctionIr>,
    om: Seq<bool>,
    new: Seq<FunctionIr>,
    nm: Seq<bool>,
    key: MatchKey,
    reason: MatchReason,
)
    requires
        old.len() <= usize::MAX,
        new.len() <= usize::MAX,
        om.len() == old.len(),
        nm.len() == new.len(),
    ensures
        fresh_one_to_one(stage_pairs(old, om, new, nm, key, reason), om, nm),
{
    law_stage_pairs_one_to_one(old, om, new, nm, key, reason);
}

/// Appending fresh pairs for the marks left by `a` keeps the whole list one
/// to one and fresh.
proof fn lemma_append_fresh(a: Seq<FunctionPair>, b: Seq<FunctionPair>, om: Seq<bool>, nm: Seq<bool>)
    requires
        fresh_one_to_one(a, om, nm),
        fresh_one_to_one(b, mark_old(om, a), mark_new(nm, a)),
    ensures
        fresh_one_to_one(a + b, om, nm),
        mark_old(mark_old(om, a), b) == mark_old(om, a + b),
        mark_new(mark_new(nm, a), b) == mark_new(nm, a + b),
{
    let ab = a + b;
    let om1 = mark_old(om, a);
    let nm1 = mark_new(nm, a);
    assert forall|q: int| 0 <= q < ab.len() implies (#[trigger] ab[q]).old_index < om.len()
        && !om[ab[q].old_index as int] && ab[q].new_index < nm.len() && !nm[ab[q].new_index as int] by {
        if q >= a.len() {
            assert(ab[q] == b[q - a.len()]);
            assert(!om1[b[q - a.len()].old_index as int]);
            assert(!nm1[b[q - a.len()].new_index as int]);
        }
    }
    assert forall|q1: int, q2: int| 0 <= q1 < q2 < ab.len() implies (#[trigger] ab[q1]).old_index
        != (#[trigger] ab[q2]).old_index && ab[q1].new_index != ab[q2].new_index by {
        if q2 >= a.len() && q1 < a.len() {
            let p = b[q2 - a.len()];
            assert(ab[q2] == p);
            assert(!om1[p.old_index as int]);
            assert(!nm1[p.new_index as int]);
            assert(a[q1] == ab[q1]);
        } else if q1 >= a.len() {
            assert(ab[q1] == b[q1 - a.len()] && ab[q2] == b[q2 - a.len()]);
        }
    }
    assert(mark_old(om1, b) =~= mark_old(om, ab)) by {
        assert forall|i: int| 0 <= i < om.len() implies mark_old(om1, b)[i] == mark_old(om, ab)[i] by {
            if exists|p: int| 0 <= p < ab.len() && ab[p].old_index == i {
                let p = choose|p: int| 0 <= p < ab.len() && ab[p].old_index == i;
                if p < a.len() {
                    assert(a[p].old_index == i);
                } else {
                    assert(b[p - a.len()].old_index == i);
                }
            }
            if exists|p: int| 0 <= p < a.len() && a[p].old_index == i {
                let p = choose|p: int| 0 <= p < a.len() && a[p].old_index == i;
                assert(ab[p].old_index == i);
            }
            if exists|p: int| 0 <= p < b.len() && b[p].old_index == i {
                let p = choose|p: int| 0 <= p < b.len() && b[p].old_index == i;
                assert(ab[p + a.len()].old_index == i);
            }
        }
    }
    assert(mark_new(nm1, b) =~= mark_new(nm, ab)) by {
        assert forall|i: int| 0 <= i < nm.len() implies mark_new(nm1, b)[i] == mark_new(nm, ab)[i] by {
            if exists|p: int| 0 <= p < ab.len() && ab[p].new_index == i {
                let p = choose|p: int| 0 <= p < ab.len() && ab[p].new_index == i;
                if p < a.len() {
                    assert(a[p].new_index == i);
                } else {
                    assert(b[p - a.len()].new_index == i);
                }
            }
            if exists|p: int| 0 <= p < a.len() && a[p].new_index == i {
                let p = choose|p: int| 0 <= p < a.len() && a[p].new_index == i;
                assert(ab[p].new_index == i);
            }
            if exists|p: int| 0 <= p < b.len() && b[p].new_index == i {
                let p = choose|p: int| 0 <= p < b.len() && b[p].new_index == i;
                assert(ab[p + a.len()].new_index == i);
            }
        }
    }
}

/// The three keyed stages together match each old and each new function at
/// most once, and mark exactly the functions they match.
pub proof fn law_keyed_matching_one_to_one(old: Seq<FunctionIr>, new: Seq<FunctionIr>)
    requires
        old.len() <= usize::MAX,
        new.len() <= usize::MAX,
    ensures
        ({
            let (ps, om, nm) = keyed_matching(old, new);
            let om0 = Seq::new(old.len(), |i: int| false);
            let nm0 = Seq::new(new.len(), |i: int| false);
            &&& fresh_one_to_one(ps, om0, nm0)
            &&& om == mark_old(om0, ps)
            &&& nm == mark_new(nm0, ps)
        }),
{
    let om0 = Seq::new(old.len(), |i: int| false);
    let nm0 = Seq::new(new.len(), |i: int| false);
    let p1 = stage_pairs(old, om0, new, nm0, MatchKey::StableId, MatchReason::SameStableId);
    lemma_stage_fresh(old, om0, new, nm0, MatchKey::StableId, MatchReason::SameStableId);
    let om1 = mark_old(om0, p1);
    let nm1 = mark_new(nm0, p1);
    let p2 = stage_pairs(old, om1, new, nm1, MatchKey::ExactBody, MatchReason::SameExactBodyHash);
    lemma_stage_fresh(old, om1, new, nm1, MatchKey::ExactBody, MatchReason::SameExactBodyHash);
    lemma_append_fresh(p1, p2, om0, nm0);
    let om2 = mark_old(om1, p2);
    let nm2 = mark_new(nm1, p2);
    let p3 = stage_pairs(old, om2, new, nm2, MatchKey::CanonicalBody, MatchReason::SameCanonicalBodyHash);
    lemma_stage_fresh(old, om2, new, nm2, MatchKey::CanonicalBody, MatchReason::SameCanonicalBodyHash);
    assert(om2 == mark_old(om0, p1 + p2));
    assert(nm2 == mark_new(nm0, p1 + p2));
    lemma_append_fresh(p1 + p2, p3, om0, nm0);
}

// ---------------------------------------------------------------------------
// Control-flow graphs
// ---------------------------------------------------------------------------

/// Every block a lookup table names is below `n`.
pub open spec fn lookup_below(lookup: Seq<Option<usize>>, n: nat) -> bool {
    forall|x: int| 0 <= x < lookup.len() ==> (#[trigger] lookup[x] matches Some(v) ==> v < n)
}

/// Every edge that has a target names a block below `n`.
pub open spec fn edges_below(edges: Seq<CfgEdgeIr>, n: nat) -> bool {
    forall|e: int| 0 <= e < edges.len() ==> ((#[trigger] edges[e]).target_block matches Some(t) ==> t < n)
}

proof fn lemma_lookup_seq_below(ops: Seq<ParsedOperator>)
    requires
        ops.len() <= usize::MAX,
    ensures
        lookup_below(lookup_seq(ops), leader_starts(leaders_of(ops)).len()),
{
    let leaders = leaders_of(ops);
    assert forall|x: int| 0 <= x < lookup_seq(ops).len() implies (#[trigger] lookup_seq(ops)[x] matches Some(v)
        ==> v < leader_starts(leaders).len()) by {
        if is_exec(ops[x]) {
            crate::cfg::lemma_exec_index(ops, x);
            crate::cfg::lemma_leaders_first(ops, ops.len() as int);
            crate::cfg::lemma_block_index_range(leaders, exec_index(ops, x));
            crate::cfg::lemma_starts_upto(leaders, leaders.len() as int);
            crate::cfg::lemma_exec_positions_upto(ops, ops.len() as int);
        }
    }
}

proof fn lemma_branch_target_below(
    depth: int,
    stack: Seq<usize>,
    frames: Seq<FrameInfo>,
    next_exec: Seq<Option<usize>>,
    lookup: Seq<Option<usize>>,
    n: nat,
)
    requires
        lookup_below(lookup, n),
    ensures
        branch_target_spec(depth, stack, frames, next_exec, lookup) matches Some(t) ==> t < n,
{
}

proof fn lemma_table_edges_below(
    depths: Seq<u32>,
    stack: Seq<usize>,
    frames: Seq<FrameInfo>,
    next_exec: Seq<Option<usize>>,
    lookup: Seq<Option<usize>>,
    n: nat,
)
    requires
        lookup_below(lookup, n),
    ensures
        edges_below(table_edges(depths, stack, frames, next_exec, lookup), n),
    decreases depths.len(),
{
    if depths.len() > 0 {
        lemma_table_edges_below(depths.drop_last(), stack, frames, next_exec, lookup, n);
        lemma_branch_target_below(depths.last() as int, stack, frames, next_exec, lookup, n);
        let a = table_edges(depths.drop_last(), stack, frames, next_exec, lookup);
        let b = opt_edge(
            crate::ir::CfgEdgeKindIr::BranchTableTarget,
            branch_target_spec(depths.last() as int, stack, frames, next_exec, lookup),
        );
        assert forall|e: int| 0 <= e < (a + b).len() implies ((#[trigger] (a + b)[e]).target_block matches Some(t) ==> t < n) by {
            if e >= a.len() {
                assert((a + b)[e] == b[e - a.len()]);
            }
        }
    }
}

proof fn lemma_edges_spec_below(
    ops: Seq<ParsedOperator>,
    frames: Seq<FrameInfo>,
    next_exec: Seq<Option<usize>>,
    lookup: Seq<Option<usize>>,
    stack: Seq<usize>,
    frame_id: int,
    i: int,
    n: nat,
)
    requires
        lookup_below(lookup, n),
        0 <= i < ops.len(),
    ensures
        edges_below(edges_spec(ops, frames, next_exec, lookup, stack, frame_id, i), n),
{
    let op = ops[i];
    assert(follow(next_exec, lookup, i) matches Some(t) ==> t < n);
    match op.immediate {
        Immediate::BrTable { targets, default_target } => {
            lemma_table_edges_below(targets@, stack, frames, next_exec, lookup, n);
            lemma_branch_target_below(default_target as int, stack, frames, next_exec, lookup, n);
        },
        _ => {},
    }
    match crate::cfg::branch_label(op.immediate) {
        Some(d) => lemma_branch_target_below(d as int, stack, frames, next_exec, lookup, n),
        None => {},
    }
    if 0 <= frame_id < frames.len() {
        match frames[frame_id].else_op {
            Some(e) => assert(follow(next_exec, lookup, e as int) matches Some(t) ==> t < n),
            None => match frames[frame_id].end_op {
                Some(e) => assert(follow(next_exec, lookup, e as int) matches Some(t) ==> t < n),
                None => {},
            },
        }
    }
    let edges = edges_spec(ops, frames, next_exec, lookup, stack, frame_id, i);
    assert forall|e: int| 0 <= e < edges.len() implies ((#[trigger] edges[e]).target_block matches Some(t) ==> t < n) by {
        match op.opcode {
            crate::ir::Opcode::BrTable => {
                match op.immediate {
                    Immediate::BrTable { targets, default_target } => {
                        let a = table_edges(targets@, stack, frames, next_exec, lookup);
                        if e >= a.len() {
                            assert(edges[e] == opt_edge(
                                crate::ir::CfgEdgeKindIr::BranchTableDefault,
                                branch_target_spec(default_target as int, stack, frames, next_exec, lookup),
                            )[e - a.len()]);
                        } else {
                            assert(edges[e] == a[e]);
                        }
                    },
                    _ => {},
                }
            },
            _ => {},
        }
    }
}

/// An executable operator leads a basic block exactly when it is the first
/// operator, or the operator before it is a structural marker (`block`,
/// `loop`, `else`, `end`, `catch`, `catch_all`) or ends a block (a branch,
/// `if`, a return, a throw, `unreachable`, `try_table`): branch targets after
/// an `else` or `end` are among these.
pub proof fn law_block_leaders_closed_form(ops: Seq<ParsedOperator>)
    requires
        ops.len() <= usize::MAX,
    ensures
        leaders_of(ops).len() == exec_positions(ops).len(),
        forall|e: int|
            0 <= e < exec_positions(ops).len() ==> leaders_of(ops)[e] == starts_block(
                ops,
                #[trigger] exec_positions(ops)[e] as int,
            ),
{
    lemma_leaders_exact(ops, ops.len() as int);
    crate::cfg::lemma_exec_positions_upto(ops, ops.len() as int);
}

/// In a built control-flow graph every edge that has a target names one of
/// the graph's blocks, and the entry block is the first block when there is
/// any.
pub proof fn law_cfg_edges_stay_in_graph(cfg: FunctionCfgIr, function: FunctionIr, module: ModuleIr)
    requires
        cfg_built(cfg, function, module),
        function.operators@.len() <= usize::MAX,
    ensures
        forall|b: int|
            0 <= b < cfg.blocks@.len() ==> edges_below(#[trigger] cfg.blocks@[b].successors@, cfg.blocks@.len()),
        cfg.entry_block matches Some(k) ==> k < cfg.blocks@.len(),
{
    let ops = function.operators@;
    lemma_lookup_seq_below(ops);
    assert forall|b: int| 0 <= b < cfg.blocks@.len() implies edges_below(#[trigger] cfg.blocks@[b].successors@, cfg.blocks@.len()) by {
        assert(block_with_edges(cfg.blocks@[b], b, ops));
        let positions = exec_positions(ops);
        let starts = leader_starts(leaders_of(ops));
        let end = crate::cfg::block_end(starts, b, positions.len() as int);
        let last = positions[end] as int;
        let scan = crate::cfg::scan_upto(ops, last);
        crate::cfg::lemma_exec_positions_upto(ops, ops.len() as int);
        crate::cfg::lemma_leaders_len(ops, ops.len() as int);
        crate::cfg::lemma_starts_upto(leaders_of(ops), leaders_of(ops).len() as int);
        if b + 1 < starts.len() {
            assert(starts[b] < starts[b + 1]);
        }
        assert(0 <= end < positions.len());
        lemma_edges_spec_below(
            ops,
            crate::cfg::frames_of(ops),
            crate::cfg::next_exec_seq(ops),
            lookup_seq(ops),
            scan.0,
            scan.1 as int,
            last,
            starts.len(),
        );
    }
}

// ---------------------------------------------------------------------------
// Hash texts
// ---------------------------------------------------------------------------

/// A decimal digit.
pub open spec fn is_digit(c: char) -> bool {
    '0' <= c && c <= '9'
}

/// Only decimal digits.
pub open spec fn all_digits(s: Seq<char>) -> bool {
    forall|k: int| 0 <= k < s.len() ==> is_digit(#[trigger] s[k])
}

proof fn lemma_decimal_shape(n: nat)
    ensures
        decimal(n).len() >= 1,
        all_digits(decimal(n)),
        n < 10 <==> decimal(n).len() == 1,
    decreases n,
{
    if n >= 10 {
        lemma_decimal_shape(n / 10);
        let p = decimal(n / 10);
        assert forall|k: int| 0 <= k < decimal(n).len() implies is_digit(#[trigger] decimal(n)[k]) by {
            if k < p.len() {
                assert(decimal(n)[k] == p[k]);
            }
        }
    }
}

/// Digit characters differ for different digits.
proof fn lemma_digit_char_injective(a: nat, b: nat)
    requires
        a < 10,
        b < 10,
        digit_char(a) == digit_char(b),
    ensures
        a == b,
{
    assert(digit_char(a) as u32 == 48 + a);
    assert(digit_char(b) as u32 == 48 + b);
}

/// Different numbers have different decimal renderings.
proof fn lemma_decimal_injective(a: nat, b: nat)
    requires
        decimal(a) == decimal(b),
    ensures
        a == b,
    decreases a,
{
    lemma_decimal_shape(a);
    lemma_decimal_shape(b);
    if a >= 10 && b >= 10 {
        let da = decimal(a);
        assert(da.last() == digit_char(a % 10));
        assert(decimal(b).last() == digit_char(b % 10));
        assert(decimal(a / 10) =~= da.drop_last());
        assert(decimal(b / 10) =~= decimal(b).drop_last());
        lemma_decimal_injective(a / 10, b / 10);
        lemma_digit_char_injective(a % 10, b % 10);
    } else if a < 10 && b < 10 {
        assert(decimal(a)[0] == digit_char(a));
        assert(decimal(b)[0] == digit_char(b));
        lemma_digit_char_injective(a, b);
    }
}

/// Different integers have different signed decimal renderings.
proof fn lemma_signed_decimal_injective(a: int, b: int)
    requires
        signed_decimal(a) == signed_decimal(b),
    ensures
        a == b,
{
    if a < 0 && b < 0 {
        assert(decimal((-a) as nat) =~= signed_decimal(a).skip(1));
        assert(decimal((-b) as nat) =~= signed_decimal(b).skip(1));
        lemma_decimal_injective((-a) as nat, (-b) as nat);
    } else if a < 0 {
        lemma_decimal_shape(b as nat);
        assert(signed_decimal(a)[0] == '-');
        assert(is_digit(decimal(b as nat)[0]));
    } else if b < 0 {
        lemma_decimal_shape(a as nat);
        assert(signed_decimal(b)[0] == '-');
        assert(is_digit(decimal(a as nat)[0]));
    } else {
        lemma_decimal_injective(a as nat, b as nat);
    }
}

/// Two texts that start with the same prefix agree after it.
proof fn lemma_drop_prefix(p: Seq<char>, u: Seq<char>, v: Seq<char>)
    requires
        p + u == p + v,
    ensures
        u == v,
{
    assert(u =~= (p + u).skip(p.len() as int));
    assert(v =~= (p + v).skip(p.len() as int));
}

/// Digits, then a separator that starts with a non-digit, then the rest:
/// the digits and the rest are determined.
proof fn lemma_split_digits(x: Seq<char>, y: Seq<char>, s: Seq<char>, u: Seq<char>, v: Seq<char>)
    requires
        all_digits(x),
        all_digits(y),
        s.len() > 0,
        !is_digit(s[0]),
        x + (s + u) == y + (s + v),
    ensures
        x == y,
        u == v,
{
    let l = x + (s + u);
    let r = y + (s + v);
    if x.len() < y.len() {
        assert(l[x.len() as int] == s[0]);
        assert(r[x.len() as int] == y[x.len() as int]);
    } else if y.len() < x.len() {
        assert(r[y.len() as int] == s[0]);
        assert(l[y.len() as int] == x[y.len() as int]);
    }
    assert(x =~= l.take(x.len() as int));
    assert(y =~= r.take(y.len() as int));
    assert(s + u =~= l.skip(x.len() as int));
    assert(s + v =~= r.skip(y.len() as int));
    lemma_drop_prefix(s, u, v);
}

/// `p` + decimal(a) == `p` + decimal(b) gives a == b.
proof fn lemma_one_field(p: Seq<char>, a: nat, b: nat)
    requires
        p + decimal(a) == p + decimal(b),
    ensures
        a == b,
{
    lemma_drop_prefix(p, decimal(a), decimal(b));
    lemma_decimal_injective(a, b);
}

/// `p` + decimal(a) + `s` + decimal(b), with `s` starting with a non-digit,
/// determines both numbers.
proof fn lemma_two_fields(p: Seq<char>, s: Seq<char>, a: nat, b: nat, c: nat, d: nat)
    requires
        s.len() > 0,
        !is_digit(s[0]),
        p + decimal(a) + s + decimal(b) == p + decimal(c) + s + decimal(d),
    ensures
        a == c,
        b == d,
{
    lemma_decimal_shape(a);
    lemma_decimal_shape(c);
    assert(p + decimal(a) + s + decimal(b) =~= p + (decimal(a) + (s + decimal(b))));
    assert(p + decimal(c) + s + decimal(d) =~= p + (decimal(c) + (s + decimal(d))));
    lemma_drop_prefix(p, decimal(a) + (s + decimal(b)), decimal(c) + (s + decimal(d)));
    lemma_split_digits(decimal(a), decimal(c), s, decimal(b), decimal(d));
    lemma_decimal_injective(a, c);
    lemma_decimal_injective(b, d);
}

/// Three decimal fields behind a prefix and two separators that start with
/// non-digits determine all three numbers.
proof fn lemma_three_fields(p: Seq<char>, s: Seq<char>, t: Seq<char>, a: nat, b: nat, c: nat, x: nat, y: nat, z: nat)
    requires
        s.len() > 0,
        !is_digit(s[0]),
        t.len() > 0,
        !is_digit(t[0]),
        p + decimal(a) + s + decimal(b) + t + decimal(c) == p + decimal(x) + s + decimal(y) + t + decimal(z),
    ensures
        a == x,
        b == y,
        c == z,
{
    lemma_decimal_shape(a);
    lemma_decimal_shape(x);
    lemma_decimal_shape(b);
    lemma_decimal_shape(y);
    let u = decimal(b) + (t + decimal(c));
    let v = decimal(y) + (t + decimal(z));
    assert(p + decimal(a) + s + decimal(b) + t + decimal(c) =~= p + (decimal(a) + (s + u)));
    assert(p + decimal(x) + s + decimal(y) + t + decimal(z) =~= p + (decimal(x) + (s + v)));
    lemma_drop_prefix(p, decimal(a) + (s + u), decimal(x) + (s + v));
    lemma_split_digits(decimal(a), decimal(x), s, u, v);
    lemma_split_digits(decimal(b), decimal(y), t, decimal(c), decimal(z));
    lemma_decimal_injective(a, x);
    lemma_decimal_injective(b, y);
    lemma_decimal_injective(c, z);
}

/// No character of `x` is `c`.
pub open spec fn free_of(x: Seq<char>, c: char) -> bool {
    forall|k: int| 0 <= k < x.len() ==> #[trigger] x[k] != c
}

/// A text with no `s[0]` before `s` is split by `s`: what comes before and
/// after `s` is determined.
proof fn lemma_split_at(x: Seq<char>, y: Seq<char>, s: Seq<char>, u: Seq<char>, v: Seq<char>)
    requires
        s.len() > 0,
        free_of(x, s[0]),
        free_of(y, s[0]),
        x + (s + u) == y + (s + v),
    ensures
        x == y,
        u == v,
{
    let l = x + (s + u);
    let r = y + (s + v);
    if x.len() < y.len() {
        assert(l[x.len() as int] == s[0]);
        assert(r[x.len() as int] == y[x.len() as int]);
    } else if y.len() < x.len() {
        assert(r[y.len() as int] == s[0]);
        assert(l[y.len() as int] == x[y.len() as int]);
    }
    assert(x =~= l.take(x.len() as int));
    assert(y =~= r.take(y.len() as int));
    assert(s + u =~= l.skip(x.len() as int));
    assert(s + v =~= r.skip(y.len() as int));
    lemma_drop_prefix(s, u, v);
}

/// Two texts that end with the same suffix agree before it.
proof fn lemma_drop_suffix(u: Seq<char>, v: Seq<char>, p: Seq<char>)
    requires
        u + p == v + p,
    ensures
        u == v,
{
    assert(u =~= (u + p).take(u.len() as int));
    assert(v =~= (v + p).take(v.len() as int));
}

/// Non-empty runs of digits.
pub open spec fn digit_parts(p: Seq<Seq<char>>) -> bool {
    forall|i: int| 0 <= i < p.len() ==> (#[trigger] p[i]).len() > 0 && all_digits(p[i])
}

/// Digit runs joined by commas hold only digits and commas.
proof fn lemma_join_chars(p: Seq<Seq<char>>)
    requires
        digit_parts(p),
    ensures
        forall|k: int| 0 <= k < join_texts(p, seq![',']).len() ==> #[trigger] is_digit(join_texts(p, seq![','])[k])
            || join_texts(p, seq![','])[k] == ',',
        p.len() > 0 ==> join_texts(p, seq![',']).len() > 0,
        p.len() == 1 ==> all_digits(join_texts(p, seq![','])),
    decreases p.len(),
{
    if p.len() > 1 {
        lemma_join_chars(p.drop_last());
        let j = join_texts(p.drop_last(), seq![',']);
        let t = join_texts(p, seq![',']);
        assert(t == j + seq![','] + p.last());
        assert forall|k: int| 0 <= k < t.len() implies #[trigger] is_digit(t[k]) || t[k] == ',' by {
            if k < j.len() {
                assert(t[k] == j[k]);
            } else if k > j.len() {
                assert(t[k] == p.last()[k - j.len() - 1]);
            }
        }
    } else if p.len() == 1 {
        assert(p[0].len() > 0 && all_digits(p[0]));
    }
}

/// Digit runs joined by commas are determined by the joined text.
proof fn lemma_join_injective(p: Seq<Seq<char>>, q: Seq<Seq<char>>)
    requires
        digit_parts(p),
        digit_parts(q),
        join_texts(p, seq![',']) == join_texts(q, seq![',']),
    ensures
        p == q,
    decreases p.len(),
{
    lemma_join_chars(p);
    lemma_join_chars(q);
    let t = join_texts(p, seq![',']);
    if p.len() == 0 {
        assert(q.len() == 0);
        assert(p =~= q);
    } else if q.len() == 0 {
        assert(false);
    } else if p.len() == 1 && q.len() == 1 {
        assert(p =~= q);
    } else if p.len() == 1 {
        let j = join_texts(q.drop_last(), seq![',']);
        assert(t == j + seq![','] + q.last());
        assert(t[j.len() as int] == ',');
        assert(is_digit(t[j.len() as int]));
    } else if q.len() == 1 {
        let j = join_texts(p.drop_last(), seq![',']);
        assert(t == j + seq![','] + p.last());
        assert(t[j.len() as int] == ',');
        assert(is_digit(t[j.len() as int]));
    } else {
        let jp = join_texts(p.drop_last(), seq![',']);
        let jq = join_texts(q.drop_last(), seq![',']);
        let a = p.last();
        let b = q.last();
        assert(a.len() > 0 && all_digits(a));
        assert(b.len() > 0 && all_digits(b));
        assert(t == jp + seq![','] + a);
        assert(t == jq + seq![','] + b);
        // Compare from the right: the last part ends at the last comma.
        if a.len() < b.len() {
            let k = t.len() - a.len() - 1;
            assert(t[k] == ',');
            assert(t[k] == b[b.len() - a.len() - 1]);
        } else if b.len() < a.len() {
            let k = t.len() - b.len() - 1;
            assert(t[k] == ',');
            assert(t[k] == a[a.len() - b.len() - 1]);
        }
        assert(a =~= t.skip(t.len() - a.len()));
        assert(b =~= t.skip(t.len() - b.len()));
        assert(jp =~= t.take(jp.len() as int));
        assert(jq =~= t.take(jq.len() as int));
        assert forall|i: int| 0 <= i < p.drop_last().len() implies (#[trigger] p.drop_last()[i]).len() > 0
            && all_digits(p.drop_last()[i]) by {
            assert(p.drop_last()[i] == p[i]);
        }
        assert forall|i: int| 0 <= i < q.drop_last().len() implies (#[trigger] q.drop_last()[i]).len() > 0
            && all_digits(q.drop_last()[i]) by {
            assert(q.drop_last()[i] == q[i]);
        }
        lemma_join_injective(p.drop_last(), q.drop_last());
        assert(p =~= p.drop_last().push(a));
        assert(q =~= q.drop_last().push(b));
    }
}

/// Decimal renderings of lists of indices are digit runs, and determine the
/// lists.
proof fn lemma_decimals_injective(x: Seq<u32>, y: Seq<u32>)
    requires
        join_texts(decimals(x), seq![',']) == join_texts(decimals(y), seq![',']),
    ensures
        x == y,
        digit_parts(decimals(x)),
{
    assert forall|i: int| 0 <= i < decimals(x).len() implies (#[trigger] decimals(x)[i]).len() > 0
        && all_digits(decimals(x)[i]) by {
        lemma_decimal_shape(x[i] as nat);
    }
    assert forall|i: int| 0 <= i < decimals(y).len() implies (#[trigger] decimals(y)[i]).len() > 0
        && all_digits(decimals(y)[i]) by {
        lemma_decimal_shape(y[i] as nat);
    }
    lemma_join_injective(decimals(x), decimals(y));
    assert forall|i: int| 0 <= i < x.len() implies x[i] == y[i] by {
        assert(decimals(x)[i] == decimals(y)[i]);
        lemma_decimal_injective(x[i] as nat, y[i] as nat);
    }
    assert(x =~= y);
}

/// Decimal renderings of lists of bytes determine the lists.
proof fn lemma_byte_decimals_injective(x: Seq<u8>, y: Seq<u8>)
    requires
        join_texts(byte_decimals(x), seq![',']) == join_texts(byte_decimals(y), seq![',']),
    ensures
        x == y,
        digit_parts(byte_decimals(x)),
{
    assert forall|i: int| 0 <= i < byte_decimals(x).len() implies (#[trigger] byte_decimals(x)[i]).len() > 0
        && all_digits(byte_decimals(x)[i]) by {
        lemma_decimal_shape(x[i] as nat);
    }
    assert forall|i: int| 0 <= i < byte_decimals(y).len() implies (#[trigger] byte_decimals(y)[i]).len() > 0
        && all_digits(byte_decimals(y)[i]) by {
        lemma_decimal_shape(y[i] as nat);
    }
    lemma_join_injective(byte_decimals(x), byte_decimals(y));
    assert forall|i: int| 0 <= i < x.len() implies x[i] == y[i] by {
        assert(byte_decimals(x)[i] == byte_decimals(y)[i]);
        lemma_decimal_injective(x[i] as nat, y[i] as nat);
    }
    assert(x =~= y);
}

/// Hexadecimal digit characters differ for different digits.
proof fn lemma_hex_char_injective(a: nat, b: nat)
    requires
        a < 16,
        b < 16,
        digit_char(a) == digit_char(b),
    ensures
        a == b,
{
    if a < 10 {
        assert(digit_char(a) as u32 == 48 + a);
    } else {
        assert(digit_char(a) as u32 == 87 + a);
    }
    if b < 10 {
        assert(digit_char(b) as u32 == 48 + b);
    } else {
        assert(digit_char(b) as u32 == 87 + b);
    }
}

/// Two-digit hexadecimal renderings of bytes differ for different bytes.
proof fn lemma_hex_byte_injective(a: u8, b: u8)
    requires
        hex_fixed(a as nat, 2) == hex_fixed(b as nat, 2),
    ensures
        a == b,
{
    reveal_with_fuel(hex_fixed, 3);
    let ha = hex_fixed(a as nat, 2);
    let hb = hex_fixed(b as nat, 2);
    assert(hex_fixed(a as nat / 16 / 16, 0) =~= Seq::<char>::empty());
    assert(hex_fixed(b as nat / 16 / 16, 0) =~= Seq::<char>::empty());
    assert(ha[0] == digit_char((a as nat / 16) % 16));
    assert(ha[1] == digit_char((a as nat) % 16));
    assert(hb[0] == digit_char((b as nat / 16) % 16));
    assert(hb[1] == digit_char((b as nat) % 16));
    lemma_hex_char_injective((a as nat / 16) % 16, (b as nat / 16) % 16);
    lemma_hex_char_injective((a as nat) % 16, (b as nat) % 16);
}

/// Two-digit hexadecimal renderings of bytes, written one after the other,
/// determine the bytes.
proof fn lemma_byte_hex_injective(x: Seq<u8>, y: Seq<u8>)
    requires
        join_texts(byte_hex(x), Seq::empty()) == join_texts(byte_hex(y), Seq::empty()),
    ensures
        x == y,
    decreases x.len(),
{
    lemma_byte_hex_len(x);
    lemma_byte_hex_len(y);
    let t = join_texts(byte_hex(x), Seq::empty());
    if x.len() > 0 {
        let hx = hex_fixed(x.last() as nat, 2);
        let hy = hex_fixed(y.last() as nat, 2);
        let px = join_texts(byte_hex(x.drop_last()), Seq::empty());
        let py = join_texts(byte_hex(y.drop_last()), Seq::empty());
        assert(byte_hex(x).drop_last() =~= byte_hex(x.drop_last()));
        assert(byte_hex(y).drop_last() =~= byte_hex(y.drop_last()));
        lemma_byte_hex_len(x.drop_last());
        lemma_byte_hex_len(y.drop_last());
        if x.len() == 1 {
            assert(t == hx);
            assert(t == hy);
        } else {
            assert(t =~= px + hx);
            assert(t =~= py + hy);
        }
        assert(hx =~= t.skip(t.len() - 2));
        assert(hy =~= t.skip(t.len() - 2));
        assert(px =~= t.take(t.len() - 2));
        assert(py =~= t.take(t.len() - 2));
        lemma_hex_byte_injective(x.last(), y.last());
        lemma_byte_hex_injective(x.drop_last(), y.drop_last());
        assert(x =~= x.drop_last().push(x.last()));
        assert(y =~= y.drop_last().push(y.last()));
    } else {
        assert(y.len() == 0);
        assert(x =~= y);
    }
}

/// Two-digit renderings of `n` bytes join into `2 * n` characters.
proof fn lemma_byte_hex_len(x: Seq<u8>)
    ensures
        join_texts(byte_hex(x), Seq::empty()).len() == 2 * x.len(),
    decreases x.len(),
{
    assert(hex_fixed(0, 0) =~= Seq::<char>::empty());
    if x.len() > 0 {
        assert(byte_hex(x).drop_last() =~= byte_hex(x.drop_last()));
        lemma_byte_hex_len(x.drop_last());
        reveal_with_fuel(hex_fixed, 3);
        assert(hex_fixed(x.last() as nat, 2).len() == 2);
    }
}

/// Two immediates of the same kind, among those whose fields are fixed-size
/// integers.
pub open spec fn same_scalar_kind(a: Immediate, b: Immediate) -> bool {
    ||| a is Call && b is Call
    ||| a is CallIndirect && b is CallIndirect
    ||| a is CallRef && b is CallRef
    ||| a is Local && b is Local
    ||| a is Global && b is Global
    ||| a is Branch && b is Branch
    ||| a is MemArg && b is MemArg
    ||| a is MemoryIndex && b is MemoryIndex
    ||| a is MemoryCopy && b is MemoryCopy
    ||| a is DataIndex && b is DataIndex
    ||| a is ElemIndex && b is ElemIndex
    ||| a is TableCopy && b is TableCopy
    ||| a is TableIndex && b is TableIndex
    ||| a is I32Const && b is I32Const
    ||| a is I64Const && b is I64Const
    ||| a is RefFunc && b is RefFunc
    ||| a is Lane && b is Lane
    ||| a is SimdMemLane && b is SimdMemLane
    ||| a is StructType && b is StructType
    ||| a is StructField && b is StructField
    ||| a is ArrayType && b is ArrayType
    ||| a is ArrayNewFixed && b is ArrayNewFixed
    ||| a is ArrayNewData && b is ArrayNewData
    ||| a is ArrayNewElem && b is ArrayNewElem
    ||| a is TagIndex && b is TagIndex
}

/// Two immediates of the same kind, among those whose fields are integers
/// or lists of integers.
pub open spec fn same_integer_kind(a: Immediate, b: Immediate) -> bool {
    ||| same_scalar_kind(a, b)
    ||| a is Empty && b is Empty
    ||| a is BrTable && b is BrTable
    ||| a is Shuffle && b is Shuffle
    ||| a is V128Const && b is V128Const
    ||| a is TryTable && b is TryTable
}

/// Decimal renderings are non-empty digit runs.
proof fn lemma_decimal_parts(x: Seq<u32>)
    ensures
        digit_parts(decimals(x)),
        free_of(join_texts(decimals(x), seq![',']), ']'),
{
    assert forall|i: int| 0 <= i < decimals(x).len() implies (#[trigger] decimals(x)[i]).len() > 0
        && all_digits(decimals(x)[i]) by {
        lemma_decimal_shape(x[i] as nat);
    }
    lemma_join_chars(decimals(x));
    let j = join_texts(decimals(x), seq![',']);
    assert forall|k: int| 0 <= k < j.len() implies #[trigger] j[k] != ']' by {
        assert(is_digit(j[k]) || j[k] == ',');
    }
}

/// The hash text of an immediate whose fields are integers or lists of
/// integers determines its data: two such immediates of the same kind with
/// the same hash text carry the same data (lists compared by contents), and
/// are equal when their fields are fixed-size integers.
pub proof fn law_hash_text_determines_integer_immediates(a: Immediate, b: Immediate)
    requires
        same_integer_kind(a, b),
        hash_text(a) == hash_text(b),
    ensures
        same_immediate(a, b),
        same_scalar_kind(a, b) ==> a == b,
{
    broadcast use vstd::array::group_array_axioms;

    reveal_strlit(",table_index:");
    reveal_strlit(",offset:");
    reveal_strlit(",src:");
    reveal_strlit(",lane:");
    reveal_strlit(",field_index:");
    reveal_strlit(",size:");
    reveal_strlit(",data_index:");
    reveal_strlit(",elem_index:");
    reveal_strlit("],default:");
    reveal_strlit(",");
    assert(","@ =~= seq![',']);
    match (a, b) {
        (Immediate::Call(x), Immediate::Call(y)) => lemma_one_field("function_index:"@, x as nat, y as nat),
        (Immediate::CallIndirect { type_index: x1, table_index: x2 }, Immediate::CallIndirect { type_index: y1, table_index: y2 }) => {
            lemma_two_fields("type_index:"@, ",table_index:"@, x1 as nat, x2 as nat, y1 as nat, y2 as nat);
        },
        (Immediate::CallRef(x), Immediate::CallRef(y)) => lemma_one_field("type_index:"@, x as nat, y as nat),
        (Immediate::Local(x), Immediate::Local(y)) => lemma_one_field("local_index:"@, x as nat, y as nat),
        (Immediate::Global(x), Immediate::Global(y)) => lemma_one_field("global_index:"@, x as nat, y as nat),
        (Immediate::Branch(x), Immediate::Branch(y)) => lemma_one_field("relative_depth:"@, x as nat, y as nat),
        (Immediate::MemArg { align: x1, offset: x2 }, Immediate::MemArg { align: y1, offset: y2 }) => {
            lemma_two_fields("align:"@, ",offset:"@, x1 as nat, x2 as nat, y1 as nat, y2 as nat);
        },
        (Immediate::MemoryIndex(x), Immediate::MemoryIndex(y)) => lemma_one_field("mem:"@, x as nat, y as nat),
        (Immediate::MemoryCopy { dst_index: x1, src_index: x2 }, Immediate::MemoryCopy { dst_index: y1, src_index: y2 }) => {
            lemma_two_fields("dst:"@, ",src:"@, x1 as nat, x2 as nat, y1 as nat, y2 as nat);
        },
        (Immediate::DataIndex(x), Immediate::DataIndex(y)) => lemma_one_field("data:"@, x as nat, y as nat),
        (Immediate::ElemIndex(x), Immediate::ElemIndex(y)) => lemma_one_field("elem:"@, x as nat, y as nat),
        (Immediate::TableCopy { dst_table: x1, src_table: x2 }, Immediate::TableCopy { dst_table: y1, src_table: y2 }) => {
            lemma_two_fields("dst:"@, ",src:"@, x1 as nat, x2 as nat, y1 as nat, y2 as nat);
        },
        (Immediate::TableIndex(x), Immediate::TableIndex(y)) => lemma_one_field("table:"@, x as nat, y as nat),
        (Immediate::I32Const(x), Immediate::I32Const(y)) => {
            lemma_drop_prefix("value:"@, signed_decimal(x as int), signed_decimal(y as int));
            lemma_signed_decimal_injective(x as int, y as int);
        },
        (Immediate::I64Const(x), Immediate::I64Const(y)) => {
            lemma_drop_prefix("value:"@, signed_decimal(x as int), signed_decimal(y as int));
            lemma_signed_decimal_injective(x as int, y as int);
        },
        (Immediate::RefFunc(x), Immediate::RefFunc(y)) => lemma_one_field("function_index:"@, x as nat, y as nat),
        (Immediate::Lane(x), Immediate::Lane(y)) => lemma_one_field("lane:"@, x as nat, y as nat),
        (Immediate::SimdMemLane { align: x1, offset: x2, lane: x3 }, Immediate::SimdMemLane { align: y1, offset: y2, lane: y3 }) => {
            lemma_three_fields("align:"@, ",offset:"@, ",lane:"@, x1 as nat, x2 as nat, x3 as nat, y1 as nat, y2 as nat, y3 as nat);
        },
        (Immediate::StructType(x), Immediate::StructType(y)) => lemma_one_field("type_index:"@, x as nat, y as nat),
        (Immediate::StructField { type_index: x1, field_index: x2 }, Immediate::StructField { type_index: y1, field_index: y2 }) => {
            lemma_two_fields("type_index:"@, ",field_index:"@, x1 as nat, x2 as nat, y1 as nat, y2 as nat);
        },
        (Immediate::ArrayType(x), Immediate::ArrayType(y)) => lemma_one_field("type_index:"@, x as nat, y as nat),
        (Immediate::ArrayNewFixed { type_index: x1, size: x2 }, Immediate::ArrayNewFixed { type_index: y1, size: y2 }) => {
            lemma_two_fields("type_index:"@, ",size:"@, x1 as nat, x2 as nat, y1 as nat, y2 as nat);
        },
        (Immediate::ArrayNewData { type_index: x1, data_index: x2 }, Immediate::ArrayNewData { type_index: y1, data_index: y2 }) => {
            lemma_two_fields("type_index:"@, ",data_index:"@, x1 as nat, x2 as nat, y1 as nat, y2 as nat);
        },
        (Immediate::ArrayNewElem { type_index: x1, elem_index: x2 }, Immediate::ArrayNewElem { type_index: y1, elem_index: y2 }) => {
            lemma_two_fields("type_index:"@, ",elem_index:"@, x1 as nat, x2 as nat, y1 as nat, y2 as nat);
        },
        (Immediate::TagIndex(x), Immediate::TagIndex(y)) => lemma_one_field("tag_index:"@, x as nat, y as nat),
        (Immediate::BrTable { targets: t1, default_target: d1 }, Immediate::BrTable { targets: t2, default_target: d2 }) => {
            let j1 = join_texts(decimals(t1@), seq![',']);
            let j2 = join_texts(decimals(t2@), seq![',']);
            let s = "],default:"@;
            lemma_decimal_parts(t1@);
            lemma_decimal_parts(t2@);
            assert("br_table:["@ + j1 + s + decimal(d1 as nat) =~= "br_table:["@ + (j1 + (s + decimal(d1 as nat))));
            assert("br_table:["@ + j2 + s + decimal(d2 as nat) =~= "br_table:["@ + (j2 + (s + decimal(d2 as nat))));
            lemma_drop_prefix("br_table:["@, j1 + (s + decimal(d1 as nat)), j2 + (s + decimal(d2 as nat)));
            lemma_split_at(j1, j2, s, decimal(d1 as nat), decimal(d2 as nat));
            lemma_decimals_injective(t1@, t2@);
            lemma_decimal_injective(d1 as nat, d2 as nat);
        },
        (Immediate::TryTable(x), Immediate::TryTable(y)) => {
            let j1 = join_texts(decimals(x@), seq![',']);
            let j2 = join_texts(decimals(y@), seq![',']);
            assert("tags:["@ + j1 + "]"@ =~= "tags:["@ + (j1 + "]"@));
            assert("tags:["@ + j2 + "]"@ =~= "tags:["@ + (j2 + "]"@));
            lemma_drop_prefix("tags:["@, j1 + "]"@, j2 + "]"@);
            lemma_drop_suffix(j1, j2, "]"@);
            lemma_decimals_injective(x@, y@);
        },
        (Immediate::Shuffle(x), Immediate::Shuffle(y)) => {
            let j1 = join_texts(byte_decimals(x@), seq![',']);
            let j2 = join_texts(byte_decimals(y@), seq![',']);
            assert("lanes:["@ + j1 + "]"@ =~= "lanes:["@ + (j1 + "]"@));
            assert("lanes:["@ + j2 + "]"@ =~= "lanes:["@ + (j2 + "]"@));
            lemma_drop_prefix("lanes:["@, j1 + "]"@, j2 + "]"@);
            lemma_drop_suffix(j1, j2, "]"@);
            lemma_byte_decimals_injective(x@, y@);
            assert(x =~= y);
        },
        (Immediate::V128Const(x), Immediate::V128Const(y)) => {
            lemma_drop_prefix(
                "bytes:"@,
                join_texts(byte_hex(x@), Seq::empty()),
                join_texts(byte_hex(y@), Seq::empty()),
            );
            lemma_byte_hex_injective(x@, y@);
        },
        _ => {},
    }
}

// ---------------------------------------------------------------------------
// Hexadecimal digests
// ---------------------------------------------------------------------------

/// The value of a lower-case hexadecimal digit character.
pub open spec fn hex_digit_value(c: char) -> int {
    if c <= '9' {
        c as int - 48
    } else {
        c as int - 87
    }
}

/// The number that a text of hexadecimal digits denotes.
pub open spec fn hex_value(s: Seq<char>) -> int
    decreases s.len(),
{
    if s.len() == 0 {
        0
    } else {
        hex_value(s.drop_last()) * 16 + hex_digit_value(s.last())
    }
}

/// Sixteen to the power `w`.
pub open spec fn pow16(w: nat) -> nat
    decreases w,
{
    if w == 0 {
        1
    } else {
        16 * pow16((w - 1) as nat)
    }
}

proof fn lemma_hex_fixed_value(n: nat, w: nat)
    requires
        n < pow16(w),
    ensures
        hex_fixed(n, w).len() == w,
        hex_value(hex_fixed(n, w)) == n,
    decreases w,
{
    if w > 0 {
        let p = pow16((w - 1) as nat);
        assert(n / 16 < p) by (nonlinear_arith)
            requires
                n < 16 * p,
        ;
        lemma_hex_fixed_value(n / 16, (w - 1) as nat);
        let d = n % 16;
        if d < 10 {
            assert(digit_char(d) as u32 == 48 + d);
        } else {
            assert(digit_char(d) as u32 == 87 + d);
        }
        assert(hex_digit_value(digit_char(d)) == d);
        let t = hex_fixed(n, w);
        assert(t.drop_last() =~= hex_fixed(n / 16, (w - 1) as nat));
        assert(n == (n / 16) * 16 + n % 16);
    }
}

/// A digest's hexadecimal text has sixteen digits and reads back as the
/// digest.
pub proof fn law_hex_round_trips(h: FingerprintHash)
    ensures
        hex_fixed(h@ as nat, 16).len() == 16,
        hex_value(hex_fixed(h@ as nat, 16)) == h@,
{
    reveal_with_fuel(pow16, 17);
    assert(pow16(16) == 0x1_0000_0000_0000_0000);
    lemma_hex_fixed_value(h@ as nat, 16);
}

// ---------------------------------------------------------------------------
// Parsed modules
// ---------------------------------------------------------------------------

/// The functions of a parsed module: numbered by position, without export
/// names or fingerprints yet, their direct calls read off their
/// instructions, and an imported function with neither locals nor
/// instructions.
pub open spec fn functions_shaped(fs: Seq<FunctionIr>) -> bool {
    forall|i: int|
        0 <= i < fs.len() ==> {
            &&& (#[trigger] fs[i]).source_index == i
            &&& fs[i].export_names@.len() == 0
            &&& fs[i].fingerprint is None
            &&& fs[i].direct_calls@ == call_indices(fs[i].operators@)
            &&& fs[i].kind == FunctionKindIr::Imported ==> fs[i].operators@.len() == 0
                && fs[i].locals@.len() == 0
        }
}

proof fn lemma_nth_defined_is_defined(fs: Seq<FunctionIr>, k: nat)
    ensures
        nth_defined(fs, k) >= 0 ==> nth_defined(fs, k) < fs.len() && fs[nth_defined(fs, k)].kind
            == FunctionKindIr::Defined,
    decreases fs.len(),
{
    if fs.len() > 0 {
        if fs[0].kind == FunctionKindIr::Defined {
            if k > 0 {
                lemma_nth_defined_is_defined(fs.drop_first(), (k - 1) as nat);
            }
        } else {
            lemma_nth_defined_is_defined(fs.drop_first(), k);
        }
    }
}

/// An item that the builder accepts keeps the functions shaped.
proof fn lemma_item_keeps_shape(a: ModuleBuilder, item: WasmItem, b: ModuleBuilder, s: Result<(), ParseError>)
    requires
        functions_numbered(a),
        functions_shaped(a.module.functions@),
        item_step(a, item, b, s),
        s is Ok,
    ensures
        functions_numbered(b),
        functions_shaped(b.module.functions@),
{
    let fs = a.module.functions@;
    let gs = b.module.functions@;
    assert(call_indices(Seq::<ParsedOperator>::empty()) =~= Seq::<u32>::empty());
    match item {
        WasmItem::Import { module_name, name, ty } => {
            if gs.len() != fs.len() {
                assert forall|i: int| 0 <= i < gs.len() implies {
                    &&& (#[trigger] gs[i]).source_index == i
                    &&& gs[i].export_names@.len() == 0
                    &&& gs[i].fingerprint is None
                    &&& gs[i].direct_calls@ == call_indices(gs[i].operators@)
                    &&& gs[i].kind == FunctionKindIr::Imported ==> gs[i].operators@.len() == 0
                        && gs[i].locals@.len() == 0
                } by {
                    if i < fs.len() {
                        assert(gs[i] == fs[i]);
                    }
                }
            }
        },
        WasmItem::Function { type_index } => {
            assert forall|i: int| 0 <= i < gs.len() implies {
                &&& (#[trigger] gs[i]).source_index == i
                &&& gs[i].export_names@.len() == 0
                &&& gs[i].fingerprint is None
                &&& gs[i].direct_calls@ == call_indices(gs[i].operators@)
                &&& gs[i].kind == FunctionKindIr::Imported ==> gs[i].operators@.len() == 0
                    && gs[i].locals@.len() == 0
            } by {
                if i < fs.len() {
                    assert(gs[i] == fs[i]);
                }
            }
        },
        WasmItem::Body { locals, operators } => {
            let pos = nth_defined(fs, a.next_defined_function as nat);
            lemma_nth_defined_is_defined(fs, a.next_defined_function as nat);
            assert forall|i: int| 0 <= i < gs.len() implies {
                &&& (#[trigger] gs[i]).source_index == i
                &&& gs[i].export_names@.len() == 0
                &&& gs[i].fingerprint is None
                &&& gs[i].direct_calls@ == call_indices(gs[i].operators@)
                &&& gs[i].kind == FunctionKindIr::Imported ==> gs[i].operators@.len() == 0
                    && gs[i].locals@.len() == 0
            } by {
                if i != pos {
                    assert(gs[i] == fs[i]);
                }
            }
        },
        _ => {},
    }
}

proof fn lemma_builds_shape(b: ModuleBuilder, items: Seq<WasmItem>, p: ParsedModule)
    requires
        functions_numbered(b),
        functions_shaped(b.module.functions@),
        builds_from(b, items, Ok(p)),
    ensures
        functions_shaped(p.module.functions@),
    decreases items.len(),
{
    if items.len() > 0 {
        let (b2, st) = choose|b2: ModuleBuilder, st: Result<(), ParseError>|
            #[trigger] item_step(b, items[0], b2, st) && match st {
                Ok(_) => builds_from(b2, items.drop_first(), Ok(p)),
                Err(e) => Ok::<ParsedModule, ParseError>(p) == Err::<ParsedModule, ParseError>(e),
            };
        assert(st is Ok);
        lemma_item_keeps_shape(b, items[0], b2, st);
        lemma_builds_shape(b2, items.drop_first(), p);
    }
}

/// Every module that reading a list of items builds has its functions
/// numbered by position, without export names or fingerprints, with their
/// direct calls read off their instructions, and with no locals or
/// instructions for an imported function.
pub proof fn law_parsed_functions_shape(b: ModuleBuilder, items: Seq<WasmItem>, p: ParsedModule)
    requires
        fresh_builder(b),
        builds_from(b, items, Ok(p)),
    ensures
        functions_shaped(p.module.functions@),
{
    lemma_builds_shape(b, items, p);
}

// ---------------------------------------------------------------------------
// Successor edges
// ---------------------------------------------------------------------------

/// An edge leaves the function (returns or traps) exactly when it names no
/// target block.
pub open spec fn target_matches_kind(e: CfgEdgeIr) -> bool {
    e.target_block is None <==> (e.kind is Return || e.kind is Trap)
}

proof fn lemma_table_edges_kind(
    depths: Seq<u32>,
    stack: Seq<usize>,
    frames: Seq<FrameInfo>,
    next_exec: Seq<Option<usize>>,
    lookup: Seq<Option<usize>>,
)
    ensures
        forall|k: int|
            0 <= k < table_edges(depths, stack, frames, next_exec, lookup).len() ==> {
                let e = #[trigger] table_edges(depths, stack, frames, next_exec, lookup)[k];
                &&& e.target_block is Some
                &&& e.kind is BranchTableTarget
            },
    decreases depths.len(),
{
    if depths.len() > 0 {
        lemma_table_edges_kind(depths.drop_last(), stack, frames, next_exec, lookup);
    }
}

/// The successor edges of an executable operator: a return, a tail call or a
/// `return_call_ref` has one return edge; `unreachable`, a throw, `rethrow`,
/// `delegate` and `try_table` have one trap edge; `br` has at most one edge,
/// the taken branch; an operator that does not transfer control has at most
/// one edge, the fallthrough; and every edge names a target block exactly
/// when it neither returns nor traps.
pub proof fn law_successor_edges(
    ops: Seq<ParsedOperator>,
    frames: Seq<FrameInfo>,
    next_exec: Seq<Option<usize>>,
    lookup: Seq<Option<usize>>,
    stack: Seq<usize>,
    frame_id: int,
    i: int,
)
    ensures
        ({
            let es = edges_spec(ops, frames, next_exec, lookup, stack, frame_id, i);
            let op = ops[i].opcode;
            &&& forall|k: int| 0 <= k < es.len() ==> target_matches_kind(#[trigger] es[k])
            &&& (op is Return || op is ReturnCall || op is ReturnCallIndirect || op is ReturnCallRef)
                ==> es == seq![CfgEdgeIr { target_block: None, kind: CfgEdgeKindIr::Return }]
            &&& (op is Unreachable || op is Throw || op is ThrowRef || op is Rethrow || op is Delegate
                || op is TryTable) ==> es == seq![CfgEdgeIr { target_block: None, kind: CfgEdgeKindIr::Trap }]
            &&& op is Br ==> es.len() <= 1 && forall|k: int| 0 <= k < es.len() ==> (#[trigger] es[k]).kind is BranchTaken
            &&& !spec_is_block_ending(op) && !exits_function(op) ==> es.len() <= 1 && forall|k: int|
                0 <= k < es.len() ==> (#[trigger] es[k]).kind is Fallthrough
        }),
{
    let op = ops[i];
    if op.opcode is BrTable {
        match op.immediate {
            Immediate::BrTable { targets, default_target } => {
                lemma_table_edges_kind(targets@, stack, frames, next_exec, lookup);
            },
            _ => {},
        }
    }
}

// ---------------------------------------------------------------------------
// Call-site edges
// ---------------------------------------------------------------------------

/// The call-graph edges of a call site: one per possible callee, in order,
/// each from the caller, carrying the site's operator index and offset and
/// the kind of its call instruction (`call` direct, `return_call` tail
/// direct, `call_indirect` indirect, `return_call_indirect` tail indirect,
/// `call_ref` by reference, `return_call_ref` tail by reference); an
/// instruction of another kind gives none.
pub proof fn law_call_site_edges(module: ModuleIr, caller: Seq<char>, site: CallSiteIr)
    ensures
        edge_kind_of(site.operator.opcode) is None ==> site_edges(module, caller, site).len() == 0,
        edge_kind_of(site.operator.opcode) matches Some(kind) ==> {
            &&& site_edges(module, caller, site).len() == callee_ids(module, site).len()
            &&& forall|k: int|
                0 <= k < site_edges(module, caller, site).len() ==> #[trigger] site_edges(module, caller, site)[k]
                    == (caller, callee_ids(module, site)[k], site.operator_index, site.offset, kind)
        },
{
}

// ---------------------------------------------------------------------------
// Basic blocks
// ---------------------------------------------------------------------------

/// The operator indices of the blocks, one block after the other.
pub open spec fn joined_indices(blocks: Seq<BasicBlockIr>) -> Seq<usize>
    decreases blocks.len(),
{
    if blocks.len() == 0 {
        Seq::empty()
    } else {
        joined_indices(blocks.drop_last()) + blocks.last().operator_indices@
    }
}

proof fn lemma_starts_complete(leaders: Seq<bool>, n: int, e: int)
    requires
        0 <= e < n <= leaders.len(),
        leaders[e],
    ensures
        starts_upto(leaders, n).contains(e),
    decreases n,
{
    if e < n - 1 {
        lemma_starts_complete(leaders, n - 1, e);
        let prev = starts_upto(leaders, n - 1);
        let m = choose|m: int| 0 <= m < prev.len() && #[trigger] prev[m] == e;
        assert(starts_upto(leaders, n)[m] == e);
    } else {
        assert(starts_upto(leaders, n).last() == e);
    }
}

proof fn lemma_joined_prefix(
    blocks: Seq<BasicBlockIr>,
    ops: Seq<ParsedOperator>,
    positions: Seq<usize>,
    leaders: Seq<bool>,
    k: int,
)
    requires
        blocks_built(blocks, ops, positions, leaders),
        leaders.len() == positions.len(),
        positions.len() > 0 ==> leaders[0],
        0 <= k <= blocks.len(),
    ensures
        k < blocks.len() ==> joined_indices(blocks.take(k)) == positions.subrange(0, leader_starts(leaders)[k]),
        k == blocks.len() ==> joined_indices(blocks.take(k)) == positions,
    decreases k,
{
    let starts = leader_starts(leaders);
    let n = positions.len() as int;
    lemma_starts_upto(leaders, n);
    if k == 0 {
        assert(blocks.take(0) =~= Seq::<BasicBlockIr>::empty());
        if blocks.len() > 0 {
            assert(starts[0] == 0);
            assert(positions.subrange(0, 0) =~= Seq::<usize>::empty());
        } else if n > 0 {
            assert(starts.len() > 0);
        } else {
            assert(positions =~= Seq::<usize>::empty());
        }
    } else {
        lemma_joined_prefix(blocks, ops, positions, leaders, k - 1);
        assert(blocks.take(k).drop_last() =~= blocks.take(k - 1));
        assert(blocks.take(k).last() == blocks[k - 1]);
        let end = block_end(starts, k - 1, n);
        assert(blocks[k - 1].operator_indices@ == positions.subrange(starts[k - 1], end + 1));
        if k < blocks.len() {
            assert(end + 1 == starts[k]);
            assert(positions.subrange(0, starts[k - 1]) + positions.subrange(starts[k - 1], starts[k])
                =~= positions.subrange(0, starts[k]));
        } else {
            assert(end + 1 == n);
            assert(positions.subrange(0, starts[k - 1]) + positions.subrange(starts[k - 1], n) =~= positions);
        }
    }
}

/// Built blocks split the executable positions: joined one after the other
/// their operator indices are the positions in order; each block begins at a
/// leader and holds no other leader.
pub proof fn law_blocks_partition(
    blocks: Seq<BasicBlockIr>,
    ops: Seq<ParsedOperator>,
    positions: Seq<usize>,
    leaders: Seq<bool>,
)
    requires
        blocks_built(blocks, ops, positions, leaders),
        leaders.len() == positions.len(),
        positions.len() > 0 ==> leaders[0],
    ensures
        joined_indices(blocks) == positions,
        forall|k: int|
            0 <= k < blocks.len() ==> {
                let start = leader_starts(leaders)[k];
                let end = block_end(leader_starts(leaders), k, positions.len() as int);
                &&& leaders[start]
                &&& (#[trigger] blocks[k]).operator_indices@ == positions.subrange(start, end + 1)
                &&& forall|e: int| start < e <= end ==> !leaders[e]
            },
{
    let starts = leader_starts(leaders);
    let n = positions.len() as int;
    lemma_starts_upto(leaders, n);
    lemma_joined_prefix(blocks, ops, positions, leaders, blocks.len() as int);
    assert(blocks.take(blocks.len() as int) =~= blocks);
    assert forall|k: int| 0 <= k < blocks.len() implies {
        let start = starts[k];
        let end = block_end(starts, k, n);
        &&& leaders[start]
        &&& (#[trigger] blocks[k]).operator_indices@ == positions.subrange(start, end + 1)
        &&& forall|e: int| start < e <= end ==> !leaders[e]
    } by {
        let start = starts[k];
        let end = block_end(starts, k, n);
        assert forall|e: int| start < e <= end implies !leaders[e] by {
            if leaders[e] {
                lemma_starts_complete(leaders, n, e);
                let m = choose|m: int| 0 <= m < starts.len() && #[trigger] starts[m] == e;
                if m <= k {
                    if m < k {
                        assert(starts[m] < starts[k]);
                    }
                } else if k + 1 < starts.len() {
                    if m > k + 1 {
                        assert(starts[k + 1] < starts[m]);
                    }
                }
            }
        }
    }
}

// ---------------------------------------------------------------------------
// Branch targets
// ---------------------------------------------------------------------------

/// A loop frame opens at a `loop` operator, a block frame at a `block`,
/// `catch` or `catch_all`, an `if` frame at an `if`.
proof fn lemma_frame_starts(ops: Seq<ParsedOperator>, n: int)
    requires
        0 <= n <= ops.len() <= usize::MAX,
    ensures
        forall|k: int|
            0 <= k < frames_upto(ops, n).0.len() ==> {
                let f = #[trigger] frames_upto(ops, n).0[k];
                &&& f.start_op < n
                &&& f.kind is Loop ==> ops[f.start_op as int].opcode is Loop
                &&& f.kind is If ==> ops[f.start_op as int].opcode is If
            },
    decreases n,
{
    if n > 0 {
        lemma_frame_starts(ops, n - 1);
        lemma_frames_upto(ops, n - 1);
    }
}

/// A branch whose label names a loop goes back to the loop: to the block of
/// the first executable operator after the `loop` marker. A branch whose
/// label names a block or an `if` goes forward: to the block of the first
/// executable operator after that frame's `end`.
pub proof fn law_branch_targets(ops: Seq<ParsedOperator>, stack: Seq<usize>, depth: int)
    requires
        ops.len() <= usize::MAX,
        0 <= depth < stack.len(),
        stack[stack.len() - depth - 1] < frames_of(ops).len(),
    ensures
        ({
            let frame = frames_of(ops)[stack[stack.len() - depth - 1] as int];
            let target = branch_target_spec(depth, stack, frames_of(ops), next_exec_seq(ops), lookup_seq(ops));
            let block_of = |t: usize| Some(block_index(leaders_of(ops), exec_index(ops, t as int)) as usize);
            &&& frame.kind is Loop ==> ops[frame.start_op as int].opcode is Loop && target == match next_exec_from(
                ops,
                frame.start_op + 1,
            ) {
                Some(t) => block_of(t),
                None => None,
            }
            &&& !(frame.kind is Loop) ==> target == match frame.end_op {
                Some(e) => match next_exec_from(ops, e + 1) {
                    Some(t) => block_of(t),
                    None => None,
                },
                None => None,
            }
        }),
{
    lemma_frame_starts(ops, ops.len() as int);
    lemma_frames_upto(ops, ops.len() as int);
    let frame = frames_of(ops)[stack[stack.len() - depth - 1] as int];
    lemma_next_exec_skips(ops, frame.start_op + 1);
    if let Some(e) = frame.end_op {
        lemma_next_exec_skips(ops, e + 1);
    }
}

// ---------------------------------------------------------------------------
// Unsafe sinks
// ---------------------------------------------------------------------------

/// Which operations count as unsafe sinks, and of what kind: every memory
/// load and store, `memory.grow` and `memory.size` access memory; the bulk
/// memory operations and `data.drop` are bulk memory; the table reads,
/// writes, size and growth access tables; the bulk table operations and
/// `elem.drop` are bulk table operations; indirect and reference calls are
/// indirect calls; throws, `rethrow`, `delegate` and `try_table` are
/// exceptions; `unreachable` traps; and nothing else is a sink.
pub proof fn law_sink_kinds(op: Opcode)
    ensures
        (op is I32Load || op is I64Load || op is F32Load || op is F64Load || op is I32Load8S
            || op is I32Load8U || op is I32Load16S || op is I32Load16U || op is I64Load8S
            || op is I64Load8U || op is I64Load16S || op is I64Load16U || op is I64Load32S
            || op is I64Load32U || op is I32Store || op is I64Store || op is F32Store
            || op is F64Store || op is I32Store8 || op is I32Store16 || op is I64Store8
            || op is I64Store16 || op is I64Store32 || op is MemoryGrow || op is MemorySize)
            <==> spec_sink_kind(op) == Some(UnsafeSinkKindIr::MemoryAccess),
        (op is MemoryCopy || op is MemoryFill || op is MemoryInit || op is DataDrop)
            <==> spec_sink_kind(op) == Some(UnsafeSinkKindIr::MemoryBulk),
        (op is TableGet || op is TableSet || op is TableSize || op is TableGrow)
            <==> spec_sink_kind(op) == Some(UnsafeSinkKindIr::TableAccess),
        (op is TableCopy || op is TableFill || op is TableInit || op is ElemDrop)
            <==> spec_sink_kind(op) == Some(UnsafeSinkKindIr::TableBulk),
        (op is CallIndirect || op is ReturnCallIndirect || op is CallRef || op is ReturnCallRef)
            <==> spec_sink_kind(op) == Some(UnsafeSinkKindIr::IndirectCall),
        (op is Throw || op is ThrowRef || op is Rethrow || op is Delegate || op is TryTable)
            <==> spec_sink_kind(op) == Some(UnsafeSinkKindIr::Exception),
        op is Unreachable <==> spec_sink_kind(op) == Some(UnsafeSinkKindIr::Trap),
        spec_sink_kind(op) != Some(UnsafeSinkKindIr::Unreachable),
{
}

// ---------------------------------------------------------------------------
// Replaced ranges
// ---------------------------------------------------------------------------

/// The new instruction an edit shows, if any.
pub open spec fn new_side(d: DeltaView) -> Option<RecordView> {
    match d {
        DeltaView::Replace(_, _, n) => Some(n),
        DeltaView::Insert(_, n) => Some(n),
        DeltaView::Delete(_, _) => None,
    }
}

/// The old instruction an edit shows, if any.
pub open spec fn old_side(d: DeltaView) -> Option<RecordView> {
    match d {
        DeltaView::Replace(_, o, _) => Some(o),
        DeltaView::Insert(_, _) => None,
        DeltaView::Delete(_, o) => Some(o),
    }
}

/// The edits of a script are those of its steps in order: a single step
/// gives its own edits, and two scripts one after the other give their edits
/// one after the other.
pub proof fn law_script_edits_concatenate(
    a: Seq<DiffStep>,
    b: Seq<DiffStep>,
    old: Seq<ParsedOperator>,
    new: Seq<ParsedOperator>,
)
    ensures
        steps_deltas(Seq::<DiffStep>::empty(), old, new).len() == 0,
        a.len() == 1 ==> steps_deltas(a, old, new) == step_deltas(a[0], old, new),
        steps_deltas(a + b, old, new) == steps_deltas(a, old, new) + steps_deltas(b, old, new),
    decreases b.len(),
{
    if a.len() == 1 {
        assert(a.drop_last() =~= Seq::<DiffStep>::empty());
        assert(steps_deltas(a.drop_last(), old, new) =~= Seq::<DeltaView>::empty());
        assert(steps_deltas(a, old, new) =~= step_deltas(a[0], old, new));
    }
    if b.len() == 0 {
        assert(a + b =~= a);
        assert(steps_deltas(a, old, new) + steps_deltas(b, old, new) =~= steps_deltas(a, old, new));
    } else {
        law_script_edits_concatenate(a, b.drop_last(), old, new);
        assert((a + b).drop_last() =~= a + b.drop_last());
        assert((a + b).last() == b.last());
        assert(steps_deltas(a + b, old, new) =~= steps_deltas(a, old, new) + steps_deltas(b, old, new));
    }
}

/// The instruction position an edit names.
pub open spec fn edit_index(d: DeltaView) -> int {
    match d {
        DeltaView::Replace(i, _, _) => i as int,
        DeltaView::Insert(i, _) => i as int,
        DeltaView::Delete(i, _) => i as int,
    }
}

/// An equal range gives no edit; a deleted range one deletion per old
/// instruction, in order, at its position; an inserted range one insertion
/// per new instruction, in order, at its position.
pub proof fn law_plain_steps(
    old: Seq<ParsedOperator>,
    new: Seq<ParsedOperator>,
    old_index: usize,
    new_index: usize,
    len: usize,
)
    requires
        old_index + len <= usize::MAX,
        new_index + len <= usize::MAX,
    ensures
        step_deltas(DiffStep::Equal { old_index, new_index, len }, old, new).len() == 0,
        ({
            let ds = step_deltas(DiffStep::Delete { old_index, old_len: len, new_index }, old, new);
            &&& ds.len() == len
            &&& forall|k: int| 0 <= k < len ==> (#[trigger] ds[k]) is Delete && old_side(ds[k]) == Some(
                record_of(old[old_index + k]),
            ) && edit_index(ds[k]) == old_index + k
        }),
        ({
            let ds = step_deltas(DiffStep::Insert { old_index, new_index, new_len: len }, old, new);
            &&& ds.len() == len
            &&& forall|k: int| 0 <= k < len ==> (#[trigger] ds[k]) is Insert && new_side(ds[k]) == Some(
                record_of(new[new_index + k]),
            ) && edit_index(ds[k]) == new_index + k
        }),
{
}

/// A replaced range accounts for every instruction on both sides: its edits
/// are as many as the longer side; the first `min` of them replace old by new
/// instruction, pairwise; the rest delete the remaining old instructions or
/// insert the remaining new ones; read in order, they show each old
/// instruction of the range once and each new instruction of the range once.
pub proof fn law_replace_step_accounts_for_both_ranges(
    old: Seq<ParsedOperator>,
    new: Seq<ParsedOperator>,
    old_index: usize,
    old_len: usize,
    new_index: usize,
    new_len: usize,
)
    requires
        old_index + old_len <= usize::MAX,
        new_index + new_len <= usize::MAX,
    ensures
        ({
            let ds = step_deltas(DiffStep::Replace { old_index, old_len, new_index, new_len }, old, new);
            let m = if old_len <= new_len { old_len as int } else { new_len as int };
            &&& ds.len() == if old_len <= new_len { new_len as int } else { old_len as int }
            &&& forall|k: int| 0 <= k < m ==> (#[trigger] ds[k]) is Replace
            &&& forall|k: int| m <= k < ds.len() ==> if old_len > new_len { (#[trigger] ds[k]) is Delete } else { ds[k] is Insert }
            &&& forall|k: int| 0 <= k < new_len ==> new_side(#[trigger] ds[k]) == Some(record_of(new[new_index + k]))
            &&& forall|k: int| new_len <= k < ds.len() ==> new_side(#[trigger] ds[k]) is None
            &&& forall|k: int| 0 <= k < old_len ==> old_side(#[trigger] ds[k]) == Some(record_of(old[old_index + k]))
            &&& forall|k: int| old_len <= k < ds.len() ==> old_side(#[trigger] ds[k]) is None
            &&& forall|k: int| 0 <= k < ds.len() ==> edit_index(#[trigger] ds[k]) == if ds[k] is Insert {
                new_index + k
            } else {
                old_index + k
            }
        }),
{
    let m: nat = if old_len <= new_len { old_len as nat } else { new_len as nat };
    let r = replaces(old, old_index as int, new, new_index as int, m);
    let d = deletes(old, old_index + m, (old_len - m) as nat);
    let i = inserts(new, new_index + m, (new_len - m) as nat);
    let ds = step_deltas(DiffStep::Replace { old_index, old_len, new_index, new_len }, old, new);
    assert(ds == r + d + i);
    assert forall|k: int| 0 <= k < ds.len() implies ({
        &&& k < m ==> ds[k] == r[k]
        &&& m <= k < m + d.len() ==> ds[k] == d[k - m]
        &&& m + d.len() <= k ==> ds[k] == i[k - m - d.len()]
    }) by {}
}

// ---------------------------------------------------------------------------
// Added and removed items
// ---------------------------------------------------------------------------

/// The identifier a change reports as removed from a collection of `kind`.
pub open spec fn removed_id(kind: CollectionKind, c: ChangeView) -> Option<Seq<char>> {
    match (kind, c) {
        (CollectionKind::Type, ChangeView::TypeRemoved(id)) => Some(id),
        (CollectionKind::Import, ChangeView::ImportRemoved(id)) => Some(id),
        (CollectionKind::Export, ChangeView::ExportRemoved(id)) => Some(id),
        _ => None,
    }
}

/// The identifier a change reports as added to a collection of `kind`.
pub open spec fn added_id(kind: CollectionKind, c: ChangeView) -> Option<Seq<char>> {
    match (kind, c) {
        (CollectionKind::Type, ChangeView::TypeAdded(id)) => Some(id),
        (CollectionKind::Import, ChangeView::ImportAdded(id)) => Some(id),
        (CollectionKind::Export, ChangeView::ExportAdded(id)) => Some(id),
        _ => None,
    }
}

proof fn lemma_absent_from_members(s: Seq<Seq<char>>, other: Seq<Seq<char>>)
    ensures
        forall|x: Seq<char>| #[trigger] absent_from(s, other).contains(x) <==> s.contains(x) && !other.contains(x),
        forall|k: int| 0 <= k < absent_from(s, other).len() ==> s.contains(#[trigger] absent_from(s, other)[k])
            && !other.contains(absent_from(s, other)[k]),
    decreases s.len(),
{
    if s.len() > 0 {
        lemma_absent_from_members(s.drop_last(), other);
        let rest = absent_from(s.drop_last(), other);
        assert forall|x: Seq<char>| #[trigger] absent_from(s, other).contains(x) <==> s.contains(x) && !other.contains(x) by {
            if s.contains(x) && !other.contains(x) {
                let w = choose|w: int| 0 <= w < s.len() && s[w] == x;
                if w < s.len() - 1 {
                    assert(s.drop_last()[w] == x);
                    assert(rest.contains(x));
                    let v = choose|v: int| 0 <= v < rest.len() && rest[v] == x;
                    if !other.contains(s.last()) {
                        assert(absent_from(s, other)[v] == x);
                    }
                } else {
                    assert(absent_from(s, other).last() == x);
                }
            }
            if absent_from(s, other).contains(x) {
                let v = choose|v: int| 0 <= v < absent_from(s, other).len() && absent_from(s, other)[v] == x;
                if v < rest.len() {
                    assert(rest[v] == x);
                    assert(rest.contains(x));
                    let w = choose|w: int| 0 <= w < s.drop_last().len() && s.drop_last()[w] == x;
                    assert(s[w] == x);
                } else {
                    assert(x == s.last());
                    assert(s[s.len() - 1] == x);
                }
            }
        }
        assert forall|k: int| 0 <= k < absent_from(s, other).len() implies s.contains(#[trigger] absent_from(s, other)[k])
            && !other.contains(absent_from(s, other)[k]) by {
            assert(absent_from(s, other).contains(absent_from(s, other)[k]));
        }
    }
}

proof fn lemma_sorted_same_members(s: Seq<Seq<char>>)
    ensures
        forall|x: Seq<char>| #[trigger] sort_texts(s).contains(x) <==> s.contains(x),
{
    broadcast use vstd::seq_lib::group_to_multiset_ensures;

    law_sort_texts_sorts(s);
    assert forall|x: Seq<char>| #[trigger] sort_texts(s).contains(x) <==> s.contains(x) by {
        assert(sort_texts(s).to_multiset().count(x) == s.to_multiset().count(x));
    }
}

/// Comparing two lists of identifiers of one kind reports only additions and
/// removals of that kind: each removal names an identifier of the old list
/// that the new list lacks, each addition one of the new list that the old
/// list lacks; and every such identifier is reported.
pub proof fn law_collection_changes_sides(kind: CollectionKind, old_ids: Seq<Seq<char>>, new_ids: Seq<Seq<char>>)
    ensures
        ({
            let cs = collection_changes(kind, old_ids, new_ids);
            &&& forall|k: int|
                0 <= k < cs.len() ==> {
                    &&& removed_id(kind, #[trigger] cs[k]) is Some || added_id(kind, cs[k]) is Some
                    &&& removed_id(kind, cs[k]) matches Some(id) ==> old_ids.contains(id) && !new_ids.contains(id)
                    &&& added_id(kind, cs[k]) matches Some(id) ==> new_ids.contains(id) && !old_ids.contains(id)
                }
            &&& forall|id: Seq<char>|
                old_ids.contains(id) && !new_ids.contains(id) ==> exists|k: int|
                    0 <= k < cs.len() && #[trigger] removed_id(kind, cs[k]) == Some(id)
            &&& forall|id: Seq<char>|
                new_ids.contains(id) && !old_ids.contains(id) ==> exists|k: int|
                    0 <= k < cs.len() && #[trigger] added_id(kind, cs[k]) == Some(id)
        }),
{
    let o = sort_texts(old_ids);
    let n = sort_texts(new_ids);
    lemma_sorted_same_members(old_ids);
    lemma_sorted_same_members(new_ids);
    lemma_absent_from_members(o, n);
    lemma_absent_from_members(n, o);
    let rem = absent_from(o, n);
    let add = absent_from(n, o);
    let cs = collection_changes(kind, old_ids, new_ids);
    let rv = rem.map_values(|id: Seq<char>| removed_view(kind, id));
    let av = add.map_values(|id: Seq<char>| added_view(kind, id));
    assert(cs == rv + av);
    assert forall|k: int| 0 <= k < cs.len() implies {
        &&& removed_id(kind, #[trigger] cs[k]) is Some || added_id(kind, cs[k]) is Some
        &&& removed_id(kind, cs[k]) matches Some(id) ==> old_ids.contains(id) && !new_ids.contains(id)
        &&& added_id(kind, cs[k]) matches Some(id) ==> new_ids.contains(id) && !old_ids.contains(id)
    } by {
        if k < rv.len() {
            assert(cs[k] == rv[k]);
            assert(o.contains(rem[k]) && !n.contains(rem[k]));
        } else {
            assert(cs[k] == av[k - rv.len()]);
            assert(n.contains(add[k - rv.len()]) && !o.contains(add[k - rv.len()]));
        }
    }
    assert forall|id: Seq<char>| old_ids.contains(id) && !new_ids.contains(id) implies exists|k: int|
        0 <= k < cs.len() && #[trigger] removed_id(kind, cs[k]) == Some(id) by {
        assert(rem.contains(id));
        let v = choose|v: int| 0 <= v < rem.len() && rem[v] == id;
        assert(cs[v] == rv[v]);
        assert(removed_id(kind, cs[v]) == Some(id));
    }
    assert forall|id: Seq<char>| new_ids.contains(id) && !old_ids.contains(id) implies exists|k: int|
        0 <= k < cs.len() && #[trigger] added_id(kind, cs[k]) == Some(id) by {
        assert(add.contains(id));
        let v = choose|v: int| 0 <= v < add.len() && add[v] == id;
        assert(cs[rv.len() + v] == av[v]);
        assert(added_id(kind, cs[rv.len() + v]) == Some(id));
    }
}

// ---------------------------------------------------------------------------
// Summary counts
// ---------------------------------------------------------------------------

/// The instruction edits of all changed functions, one change after the
/// other.
pub open spec fn edits_of(cs: Seq<ChangeView>) -> Seq<DeltaView>
    decreases cs.len(),
{
    if cs.len() == 0 {
        Seq::empty()
    } else {
        edits_of(cs.drop_last()) + match cs.last() {
            ChangeView::FunctionChanged(_, _, _, _, _, ds) => ds,
            _ => Seq::empty(),
        }
    }
}

proof fn lemma_count_is_filter(cs: Seq<ChangeView>, p: spec_fn(ChangeView) -> bool, q: spec_fn(ChangeView) -> bool)
    requires
        forall|c: ChangeView| #[trigger] p(c) == q(c),
    ensures
        count_changes(cs, p) == cs.filter(q).len(),
    decreases cs.len(),
{
    reveal(Seq::filter);
    if cs.len() > 0 {
        lemma_count_is_filter(cs.drop_last(), p, q);
        assert(p(cs.last()) == q(cs.last()));
    }
}

proof fn lemma_deltas_is_filter(ds: Seq<DeltaView>, p: spec_fn(DeltaView) -> bool, q: spec_fn(DeltaView) -> bool)
    requires
        forall|d: DeltaView| #[trigger] p(d) == q(d),
    ensures
        count_deltas(ds, p) == ds.filter(q).len(),
    decreases ds.len(),
{
    reveal(Seq::filter);
    if ds.len() > 0 {
        lemma_deltas_is_filter(ds.drop_last(), p, q);
        assert(p(ds.last()) == q(ds.last()));
    }
}

proof fn lemma_all_deltas_is_filter(cs: Seq<ChangeView>, p: spec_fn(DeltaView) -> bool, q: spec_fn(DeltaView) -> bool)
    requires
        forall|d: DeltaView| #[trigger] p(d) == q(d),
    ensures
        count_all_deltas(cs, p) == edits_of(cs).filter(q).len(),
    decreases cs.len(),
{
    if cs.len() > 0 {
        lemma_all_deltas_is_filter(cs.drop_last(), p, q);
        let last = change_deltas(cs.last());
        lemma_deltas_is_filter(last, p, q);
        assert(edits_of(cs) == edits_of(cs.drop_last()) + last);
        Seq::filter_distributes_over_add(edits_of(cs.drop_last()), last, q);
    }
}

/// Each count of a summary is the number of changes of its kind (types,
/// imports, exports and functions added or removed, functions changed), and
/// each instruction count the number of edits of its kind (replacements,
/// insertions, deletions) over the changed functions, while the counts fit
/// in `usize` as `summarize` requires.
pub proof fn law_summary_counts_kinds(cs: Seq<ChangeView>)
    requires
        cs.len() + total_deltas(cs) <= usize::MAX,
    ensures
        summary_of(cs).types_added == cs.filter(|c: ChangeView| c is TypeAdded).len(),
        summary_of(cs).types_removed == cs.filter(|c: ChangeView| c is TypeRemoved).len(),
        summary_of(cs).imports_added == cs.filter(|c: ChangeView| c is ImportAdded).len(),
        summary_of(cs).imports_removed == cs.filter(|c: ChangeView| c is ImportRemoved).len(),
        summary_of(cs).exports_added == cs.filter(|c: ChangeView| c is ExportAdded).len(),
        summary_of(cs).exports_removed == cs.filter(|c: ChangeView| c is ExportRemoved).len(),
        summary_of(cs).functions_added == cs.filter(|c: ChangeView| c is FunctionAdded).len(),
        summary_of(cs).functions_removed == cs.filter(|c: ChangeView| c is FunctionRemoved).len(),
        summary_of(cs).functions_changed == cs.filter(|c: ChangeView| c is FunctionChanged).len(),
        summary_of(cs).operator_replacements == edits_of(cs).filter(|d: DeltaView| d is Replace).len(),
        summary_of(cs).operator_insertions == edits_of(cs).filter(|d: DeltaView| d is Insert).len(),
        summary_of(cs).operator_deletions == edits_of(cs).filter(|d: DeltaView| d is Delete).len(),
{
    lemma_count_is_filter(cs, |c: ChangeView| c is TypeAdded, |c: ChangeView| c is TypeAdded);
    lemma_count_changes_bound(cs, |c: ChangeView| c is TypeAdded);
    lemma_count_is_filter(cs, |c: ChangeView| c is TypeRemoved, |c: ChangeView| c is TypeRemoved);
    lemma_count_changes_bound(cs, |c: ChangeView| c is TypeRemoved);
    lemma_count_is_filter(cs, |c: ChangeView| c is ImportAdded, |c: ChangeView| c is ImportAdded);
    lemma_count_changes_bound(cs, |c: ChangeView| c is ImportAdded);
    lemma_count_is_filter(cs, |c: ChangeView| c is ImportRemoved, |c: ChangeView| c is ImportRemoved);
    lemma_count_changes_bound(cs, |c: ChangeView| c is ImportRemoved);
    lemma_count_is_filter(cs, |c: ChangeView| c is ExportAdded, |c: ChangeView| c is ExportAdded);
    lemma_count_changes_bound(cs, |c: ChangeView| c is ExportAdded);
    lemma_count_is_filter(cs, |c: ChangeView| c is ExportRemoved, |c: ChangeView| c is ExportRemoved);
    lemma_count_changes_bound(cs, |c: ChangeView| c is ExportRemoved);
    lemma_count_is_filter(cs, |c: ChangeView| c is FunctionAdded, |c: ChangeView| c is FunctionAdded);
    lemma_count_changes_bound(cs, |c: ChangeView| c is FunctionAdded);
    lemma_count_is_filter(cs, |c: ChangeView| c is FunctionRemoved, |c: ChangeView| c is FunctionRemoved);
    lemma_count_changes_bound(cs, |c: ChangeView| c is FunctionRemoved);
    lemma_count_is_filter(cs, |c: ChangeView| c is FunctionChanged, |c: ChangeView| c is FunctionChanged);
    lemma_count_changes_bound(cs, |c: ChangeView| c is FunctionChanged);
    lemma_all_deltas_is_filter(cs, |d: DeltaView| is_replace(d), |d: DeltaView| d is Replace);
    lemma_count_all_deltas_bound(cs, |d: DeltaView| is_replace(d));
    lemma_all_deltas_is_filter(cs, |d: DeltaView| is_insert(d), |d: DeltaView| d is Insert);
    lemma_count_all_deltas_bound(cs, |d: DeltaView| is_insert(d));
    lemma_all_deltas_is_filter(cs, |d: DeltaView| is_delete(d), |d: DeltaView| d is Delete);
    lemma_count_all_deltas_bound(cs, |d: DeltaView| is_delete(d));
}

} // verus!
