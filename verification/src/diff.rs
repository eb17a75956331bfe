//! Module-, function- and instruction-level differences between two
//! normalized modules.

use vstd::prelude::*;

use crate::ir::{
    same_locals, ExportIr, FunctionIr, ImportIr, ModuleIr, NormalizedModule, ParsedOperator, TypeIr,
};
use crate::matcher::{unmatched_function_ids, unmatched_ids};
use crate::opcode::opcode_text;
use crate::render::display_text_of;
use crate::text::{sort_strings, sort_texts, str_eq, string_of, texts};

verus! {

// ---------------------------------------------------------------------------
// Result types
// ---------------------------------------------------------------------------

/// Counts of each kind of change in a report.
#[derive(Debug, Clone, Copy, PartialEq, Eq, Structural)]
pub struct DiffSummary {
    pub types_added: usize,
    pub types_removed: usize,
    pub imports_added: usize,
    pub imports_removed: usize,
    pub exports_added: usize,
    pub exports_removed: usize,
    pub functions_added: usize,
    pub functions_removed: usize,
    pub functions_changed: usize,
    pub operator_replacements: usize,
    pub operator_insertions: usize,
    pub operator_deletions: usize,
}

/// One change between the old and the new module.
#[derive(Debug, Clone, PartialEq, Eq)]
pub enum DiffChange {
    TypeAdded { id: String },
    TypeRemoved { id: String },
    ImportAdded { id: String },
    ImportRemoved { id: String },
    ExportAdded { id: String },
    ExportRemoved { id: String },
    FunctionAdded { id: String },
    FunctionRemoved { id: String },
    FunctionChanged { function: FunctionDelta },
}

/// How a matched function changed.
#[derive(Debug, Clone, PartialEq, Eq)]
pub struct FunctionDelta {
    pub old_id: String,
    pub new_id: String,
    pub type_changed: bool,
    pub locals_changed: bool,
    pub direct_calls_changed: bool,
    pub operators: Vec<OperatorDelta>,
}

/// One instruction-level edit.
#[derive(Debug, Clone, PartialEq, Eq)]
pub enum OperatorDelta {
    Replace { index: usize, old: OperatorRecord, new: OperatorRecord },
    Insert { index: usize, operator: OperatorRecord },
    Delete { index: usize, operator: OperatorRecord },
}

/// An instruction as it appears in a report.
#[derive(Debug, Clone, PartialEq, Eq)]
pub struct OperatorRecord {
    pub offset: u64,
    pub opcode: String,
    pub text: String,
}

/// One segment of an edit script between two sequences, with the positions
/// and lengths of the old and new ranges it covers.
#[derive(Debug, Clone, Copy, PartialEq, Eq, Structural)]
pub enum DiffStep {
    Equal { old_index: usize, new_index: usize, len: usize },
    Delete { old_index: usize, old_len: usize, new_index: usize },
    Insert { old_index: usize, new_index: usize, new_len: usize },
    Replace { old_index: usize, old_len: usize, new_index: usize, new_len: usize },
}

// ---------------------------------------------------------------------------
// Views
// ---------------------------------------------------------------------------

/// An instruction record as plain values: offset, opcode name, display text.
pub type RecordView = (u64, Seq<char>, Seq<char>);

/// An instruction edit as plain values.
pub enum DeltaView {
    Replace(usize, RecordView, RecordView),
    Insert(usize, RecordView),
    Delete(usize, RecordView),
}

pub open spec fn record_view(r: OperatorRecord) -> RecordView {
    (r.offset, r.opcode@, r.text@)
}

/// The record that reports show for an instruction.
pub open spec fn record_of(op: ParsedOperator) -> RecordView {
    (op.offset, opcode_text(op.opcode), display_text_of(op))
}

pub open spec fn delta_view(d: OperatorDelta) -> DeltaView {
    match d {
        OperatorDelta::Replace { index, old, new } => DeltaView::Replace(
            index,
            record_view(old),
            record_view(new),
        ),
        OperatorDelta::Insert { index, operator } => DeltaView::Insert(index, record_view(operator)),
        OperatorDelta::Delete { index, operator } => DeltaView::Delete(index, record_view(operator)),
    }
}

pub open spec fn deltas_view(v: Seq<OperatorDelta>) -> Seq<DeltaView> {
    v.map_values(|d: OperatorDelta| delta_view(d))
}

// ---------------------------------------------------------------------------
// From an edit script to instruction edits
// ---------------------------------------------------------------------------

/// Every range of every step lies within sequences of the given lengths.
pub open spec fn steps_within(steps: Seq<DiffStep>, old_len: nat, new_len: nat) -> bool {
    forall|i: int|
        0 <= i < steps.len() ==> match #[trigger] steps[i] {
            DiffStep::Equal { old_index, new_index, len } => old_index + len <= old_len
                && new_index + len <= new_len,
            DiffStep::Delete { old_index, old_len: l, new_index } => old_index + l <= old_len
                && new_index <= new_len,
            DiffStep::Insert { old_index, new_index, new_len: l } => old_index <= old_len
                && new_index + l <= new_len,
            DiffStep::Replace { old_index, old_len: lo, new_index, new_len: ln } => old_index + lo
                <= old_len && new_index + ln <= new_len,
        }
}

/// Deletions of `len` old instructions from `start`.
pub open spec fn deletes(old: Seq<ParsedOperator>, start: int, len: nat) -> Seq<DeltaView> {
    Seq::new(len, |k: int| DeltaView::Delete((start + k) as usize, record_of(old[start + k])))
}

/// Insertions of `len` new instructions from `start`.
pub open spec fn inserts(new: Seq<ParsedOperator>, start: int, len: nat) -> Seq<DeltaView> {
    Seq::new(len, |k: int| DeltaView::Insert((start + k) as usize, record_of(new[start + k])))
}

/// Pairwise replacements of `len` instructions.
pub open spec fn replaces(
    old: Seq<ParsedOperator>,
    old_start: int,
    new: Seq<ParsedOperator>,
    new_start: int,
    len: nat,
) -> Seq<DeltaView> {
    Seq::new(
        len,
        |k: int|
            DeltaView::Replace(
                (old_start + k) as usize,
                record_of(old[old_start + k]),
                record_of(new[new_start + k]),
            ),
    )
}

/// The edits of one step: nothing for an equal range; a deletion or
/// insertion per instruction; for a replaced range, pairwise replacements
/// over the shorter length, then the rest of the longer side deleted or
/// inserted.
pub open spec fn step_deltas(step: DiffStep, old: Seq<ParsedOperator>, new: Seq<ParsedOperator>) -> Seq<DeltaView> {
    match step {
        DiffStep::Equal { .. } => Seq::empty(),
        DiffStep::Delete { old_index, old_len, .. } => deletes(old, old_index as int, old_len as nat),
        DiffStep::Insert { new_index, new_len, .. } => inserts(new, new_index as int, new_len as nat),
        DiffStep::Replace { old_index, old_len, new_index, new_len } => {
            let shared: nat = if old_len <= new_len {
                old_len as nat
            } else {
                new_len as nat
            };
            replaces(old, old_index as int, new, new_index as int, shared) + deletes(
                old,
                old_index + shared,
                (old_len - shared) as nat,
            ) + inserts(new, new_index + shared, (new_len - shared) as nat)
        },
    }
}

/// The edits of a whole script, step after step.
pub open spec fn steps_deltas(steps: Seq<DiffStep>, old: Seq<ParsedOperator>, new: Seq<ParsedOperator>) -> Seq<DeltaView>
    decreases steps.len(),
{
    if steps.len() == 0 {
        Seq::empty()
    } else {
        steps_deltas(steps.drop_last(), old, new) + step_deltas(steps.last(), old, new)
    }
}

/// The report record of an instruction.
pub fn operator_record(operator: &ParsedOperator) -> (r: OperatorRecord)
    ensures
        record_view(r) == record_of(*operator),
{
    OperatorRecord {
        offset: operator.offset,
        opcode: string_of(operator.opcode.as_str()),
        text: operator.display_text(),
    }
}

fn push_delta(out: &mut Vec<OperatorDelta>, d: OperatorDelta)
    ensures
        deltas_view(final(out)@) == deltas_view(old(out)@).push(delta_view(d)),
{
    out.push(d);
    assert(deltas_view(out@) =~= deltas_view(old(out)@).push(delta_view(d)));
}

fn push_deletes(out: &mut Vec<OperatorDelta>, old_ops: &Vec<ParsedOperator>, start: usize, len: usize)
    requires
        start + len <= old_ops.len(),
    ensures
        deltas_view(final(out)@) == deltas_view(old(out)@) + deletes(old_ops@, start as int, len as nat),
{
    let ghost base = deltas_view(out@);
    let mut k: usize = 0;
    while k < len
        invariant
            start + len <= old_ops.len(),
            k <= len,
            deltas_view(out@) == base + deletes(old_ops@, start as int, k as nat),
        decreases len - k,
    {
        push_delta(out, OperatorDelta::Delete { index: start + k, operator: operator_record(&old_ops[start + k]) });
        k = k + 1;
        assert(deltas_view(out@) =~= base + deletes(old_ops@, start as int, k as nat));
    }
}

fn push_inserts(out: &mut Vec<OperatorDelta>, new_ops: &Vec<ParsedOperator>, start: usize, len: usize)
    requires
        start + len <= new_ops.len(),
    ensures
        deltas_view(final(out)@) == deltas_view(old(out)@) + inserts(new_ops@, start as int, len as nat),
{
    let ghost base = deltas_view(out@);
    let mut k: usize = 0;
    while k < len
        invariant
            start + len <= new_ops.len(),
            k <= len,
            deltas_view(out@) == base + inserts(new_ops@, start as int, k as nat),
        decreases len - k,
    {
        push_delta(out, OperatorDelta::Insert { index: start + k, operator: operator_record(&new_ops[start + k]) });
        k = k + 1;
        assert(deltas_view(out@) =~= base + inserts(new_ops@, start as int, k as nat));
    }
}

fn push_replaces(
    out: &mut Vec<OperatorDelta>,
    old_ops: &Vec<ParsedOperator>,
    old_start: usize,
    new_ops: &Vec<ParsedOperator>,
    new_start: usize,
    len: usize,
)
    requires
        old_start + len <= old_ops.len(),
        new_start + len <= new_ops.len(),
    ensures
        deltas_view(final(out)@) == deltas_view(old(out)@) + replaces(
            old_ops@,
            old_start as int,
            new_ops@,
            new_start as int,
            len as nat,
        ),
{
    let ghost base = deltas_view(out@);
    let mut k: usize = 0;
    while k < len
        invariant
            old_start + len <= old_ops.len(),
            new_start + len <= new_ops.len(),
            k <= len,
            deltas_view(out@) == base + replaces(old_ops@, old_start as int, new_ops@, new_start as int, k as nat),
        decreases len - k,
    {
        push_delta(
            out,
            OperatorDelta::Replace {
                index: old_start + k,
                old: operator_record(&old_ops[old_start + k]),
                new: operator_record(&new_ops[new_start + k]),
            },
        );
        k = k + 1;
        assert(deltas_view(out@) =~= base + replaces(
            old_ops@,
            old_start as int,
            new_ops@,
            new_start as int,
            k as nat,
        ));
    }
}

/// The instruction edits of an edit script over `old` and `new`.
pub fn operator_deltas(old: &Vec<ParsedOperator>, new: &Vec<ParsedOperator>, steps: &Vec<DiffStep>) -> (r: Vec<OperatorDelta>)
    requires
        steps_within(steps@, old@.len(), new@.len()),
    ensures
        deltas_view(r@) == steps_deltas(steps@, old@, new@),
{
    let mut out: Vec<OperatorDelta> = Vec::new();
    let mut j: usize = 0;
    while j < steps.len()
        invariant
            j <= steps@.len(),
            steps_within(steps@, old@.len(), new@.len()),
            old@.len() == old.len(),
            new@.len() == new.len(),
            deltas_view(out@) == steps_deltas(steps@.take(j as int), old@, new@),
        decreases steps@.len() - j,
    {
        proof {
            assert(steps@.take(j + 1).drop_last() =~= steps@.take(j as int));
            assert(steps@.take(j + 1).last() == steps@[j as int]);
        }
        let step = steps[j];
        match step {
            DiffStep::Equal { .. } => {
                assert(deltas_view(out@) =~= steps_deltas(steps@.take(j + 1), old@, new@));
            },
            DiffStep::Delete { old_index, old_len, .. } => {
                push_deletes(&mut out, old, old_index, old_len);
            },
            DiffStep::Insert { new_index, new_len, .. } => {
                push_inserts(&mut out, new, new_index, new_len);
            },
            DiffStep::Replace { old_index, old_len, new_index, new_len } => {
                let shared = if old_len <= new_len {
                    old_len
                } else {
                    new_len
                };
                let ghost base = deltas_view(out@);
                push_replaces(&mut out, old, old_index, new, new_index, shared);
                push_deletes(&mut out, old, old_index + shared, old_len - shared);
                push_inserts(&mut out, new, new_index + shared, new_len - shared);
                assert(deltas_view(out@) =~= base + step_deltas(step, old@, new@));
            },
        }
        j = j + 1;
    }
    assert(steps@.take(steps@.len() as int) =~= steps@);
    out
}

// ---------------------------------------------------------------------------
// Instruction diff
// ---------------------------------------------------------------------------

/// The key by which instructions are compared: opcode name and display text.
pub open spec fn operator_key(op: ParsedOperator) -> (Seq<char>, Seq<char>) {
    (opcode_text(op.opcode), display_text_of(op))
}

pub open spec fn operator_keys(ops: Seq<ParsedOperator>) -> Seq<(Seq<char>, Seq<char>)> {
    ops.map_values(|o: ParsedOperator| operator_key(o))
}

pub open spec fn keys_view(v: Seq<(String, String)>) -> Seq<(Seq<char>, Seq<char>)> {
    v.map_values(|p: (String, String)| (p.0@, p.1@))
}

/// The edit script that the Myers algorithm of the `similar` crate computes
/// between two key sequences.
pub uninterp spec fn myers_steps(
    old: Seq<(Seq<char>, Seq<char>)>,
    new: Seq<(Seq<char>, Seq<char>)>,
) -> Seq<DiffStep>;

/// The instruction edits between two bodies.
pub open spec fn operator_diff(old: Seq<ParsedOperator>, new: Seq<ParsedOperator>) -> Seq<DeltaView> {
    steps_deltas(myers_steps(operator_keys(old), operator_keys(new)), old, new)
}

/// The script of two equal key sequences of length `n`: one equal range
/// over all of them, or nothing when they are empty.
pub open spec fn equal_script(n: nat) -> Seq<DiffStep> {
    if n == 0 {
        Seq::empty()
    } else {
        seq![DiffStep::Equal { old_index: 0, new_index: 0, len: n as usize }]
    }
}

/// `similar::capture_diff_slices` with `Algorithm::Myers`, each `DiffOp`
/// moved into a `DiffStep`. Claimed: the result is a function of the two key
/// sequences; every range it reports lies within them (the ops record the
/// algorithm's calls over `0..old.len()` and `0..new.len()`); and for equal
/// sequences it is one equal range over all of them, or nothing when they
/// are empty (the common prefix is trimmed first and reported as one equal
/// range, and nothing is left to compare).
#[verifier::external_body]
fn myers_diff(old: &Vec<(String, String)>, new: &Vec<(String, String)>) -> (r: Vec<DiffStep>)
    ensures
        r@ == myers_steps(keys_view(old@), keys_view(new@)),
        steps_within(r@, old@.len(), new@.len()),
        keys_view(old@) == keys_view(new@) ==> r@ == equal_script(old@.len()),
{
    similar::capture_diff_slices(similar::Algorithm::Myers, old, new).into_iter().map(|op| match op {
        similar::DiffOp::Equal { old_index, new_index, len } => DiffStep::Equal { old_index, new_index, len },
        similar::DiffOp::Delete { old_index, old_len, new_index } => DiffStep::Delete { old_index, old_len, new_index },
        similar::DiffOp::Insert { old_index, new_index, new_len } => DiffStep::Insert { old_index, new_index, new_len },
        similar::DiffOp::Replace { old_index, old_len, new_index, new_len } => DiffStep::Replace { old_index, old_len, new_index, new_len },
    }).collect()
}

fn keys_of(ops: &Vec<ParsedOperator>) -> (r: Vec<(String, String)>)
    ensures
        keys_view(r@) == operator_keys(ops@),
        r@.len() == ops@.len(),
{
    let mut out: Vec<(String, String)> = Vec::new();
    let mut i: usize = 0;
    while i < ops.len()
        invariant
            i <= ops@.len(),
            keys_view(out@) == operator_keys(ops@).take(i as int),
            out@.len() == i,
        decreases ops@.len() - i,
    {
        let key = (string_of(ops[i].opcode.as_str()), ops[i].display_text());
        let ghost before = out@;
        out.push(key);
        assert(out@ =~= before.push(key));
        assert(keys_view(out@) =~= operator_keys(ops@).take(i + 1));
        i = i + 1;
    }
    assert(operator_keys(ops@).take(ops@.len() as int) =~= operator_keys(ops@));
    out
}

/// The instruction edits between two bodies, compared by opcode and display
/// text.
pub fn diff_operators(old: &Vec<ParsedOperator>, new: &Vec<ParsedOperator>) -> (r: Vec<OperatorDelta>)
    ensures
        deltas_view(r@) == operator_diff(old@, new@),
        operator_keys(old@) == operator_keys(new@) ==> r@.len() == 0,
{
    let old_keys = keys_of(old);
    let new_keys = keys_of(new);
    let steps = myers_diff(&old_keys, &new_keys);
    let r = operator_deltas(old, new, &steps);
    proof {
        if operator_keys(old@) == operator_keys(new@) {
            let s = steps@;
            assert(keys_view(old_keys@) == keys_view(new_keys@));
            assert(s == equal_script(old_keys@.len()));
            if s.len() > 0 {
                assert(s.last() is Equal);
                assert(s.drop_last() =~= Seq::<DiffStep>::empty());
                assert(step_deltas(s.last(), old@, new@) =~= Seq::<DeltaView>::empty());
                assert(s.drop_last().len() == 0);
                assert(steps_deltas(s.drop_last(), old@, new@) =~= Seq::<DeltaView>::empty());
                assert(steps_deltas(s, old@, new@) =~= Seq::<DeltaView>::empty());
            }
            assert(deltas_view(r@).len() == r@.len());
        }
    }
    r
}

// ---------------------------------------------------------------------------
// Function diff
// ---------------------------------------------------------------------------

/// `d` describes how `new` differs from `old`.
pub open spec fn delta_describes(d: FunctionDelta, old: FunctionIr, new: FunctionIr) -> bool {
    &&& d.old_id@ == old.id@
    &&& d.new_id@ == new.id@
    &&& d.type_changed == (old.type_id@ != new.type_id@)
    &&& d.locals_changed == !same_locals(old.locals@, new.locals@)
    &&& d.direct_calls_changed == (old.direct_calls@ != new.direct_calls@)
    &&& deltas_view(d.operators@) == operator_diff(old.operators@, new.operators@)
}

/// Two functions that agree in type, locals, direct calls and instruction
/// keys (the opcode and immediate text of each instruction, in order).
pub open spec fn same_parts(old: FunctionIr, new: FunctionIr) -> bool {
    &&& old.type_id@ == new.type_id@
    &&& same_locals(old.locals@, new.locals@)
    &&& old.direct_calls@ == new.direct_calls@
    &&& operator_keys(old.operators@) == operator_keys(new.operators@)
}

/// Whether the two functions differ in type, locals, direct calls or body.
pub open spec fn function_changed(old: FunctionIr, new: FunctionIr) -> bool {
    ||| old.type_id@ != new.type_id@
    ||| !same_locals(old.locals@, new.locals@)
    ||| old.direct_calls@ != new.direct_calls@
    ||| operator_diff(old.operators@, new.operators@).len() > 0
}

fn locals_equal(a: &Vec<crate::ir::LocalIr>, b: &Vec<crate::ir::LocalIr>) -> (r: bool)
    ensures
        r == same_locals(a@, b@),
{
    if a.len() != b.len() {
        return false;
    }
    let mut i: usize = 0;
    while i < a.len()
        invariant
            a@.len() == b@.len(),
            i <= a@.len(),
            forall|k: int| 0 <= k < i ==> crate::ir::same_local(#[trigger] a@[k], b@[k]),
        decreases a@.len() - i,
    {
        if a[i].count != b[i].count || !str_eq(a[i].value_type.as_str(), b[i].value_type.as_str()) {
            return false;
        }
        i = i + 1;
    }
    true
}

fn calls_equal(a: &Vec<u32>, b: &Vec<u32>) -> (r: bool)
    ensures
        r == (a@ == b@),
{
    if a.len() != b.len() {
        return false;
    }
    let mut i: usize = 0;
    while i < a.len()
        invariant
            a@.len() == b@.len(),
            i <= a@.len(),
            forall|k: int| 0 <= k < i ==> a@[k] == b@[k],
        decreases a@.len() - i,
    {
        if a[i] != b[i] {
            return false;
        }
        i = i + 1;
    }
    assert(a@ =~= b@);
    true
}

/// How `new` differs from `old`, or `None` when they agree in type, locals,
/// direct calls and instructions.
pub fn diff_function(old: &FunctionIr, new: &FunctionIr) -> (r: Option<FunctionDelta>)
    ensures
        r is None <==> !function_changed(*old, *new),
        r matches Some(d) ==> delta_describes(d, *old, *new),
        same_parts(*old, *new) ==> r is None,
{
    let type_changed = !str_eq(old.type_id.as_str(), new.type_id.as_str());
    let locals_changed = !locals_equal(&old.locals, &new.locals);
    let direct_calls_changed = !calls_equal(&old.direct_calls, &new.direct_calls);
    let operators = diff_operators(&old.operators, &new.operators);
    if !type_changed && !locals_changed && !direct_calls_changed && operators.len() == 0 {
        return None;
    }
    Some(
        FunctionDelta {
            old_id: old.id.clone(),
            new_id: new.id.clone(),
            type_changed,
            locals_changed,
            direct_calls_changed,
            operators,
        },
    )
}

// ---------------------------------------------------------------------------
// Changes as plain values
// ---------------------------------------------------------------------------

/// A change as plain values.
pub enum ChangeView {
    TypeAdded(Seq<char>),
    TypeRemoved(Seq<char>),
    ImportAdded(Seq<char>),
    ImportRemoved(Seq<char>),
    ExportAdded(Seq<char>),
    ExportRemoved(Seq<char>),
    FunctionAdded(Seq<char>),
    FunctionRemoved(Seq<char>),
    FunctionChanged(Seq<char>, Seq<char>, bool, bool, bool, Seq<DeltaView>),
}

pub open spec fn change_view(c: DiffChange) -> ChangeView {
    match c {
        DiffChange::TypeAdded { id } => ChangeView::TypeAdded(id@),
        DiffChange::TypeRemoved { id } => ChangeView::TypeRemoved(id@),
        DiffChange::ImportAdded { id } => ChangeView::ImportAdded(id@),
        DiffChange::ImportRemoved { id } => ChangeView::ImportRemoved(id@),
        DiffChange::ExportAdded { id } => ChangeView::ExportAdded(id@),
        DiffChange::ExportRemoved { id } => ChangeView::ExportRemoved(id@),
        DiffChange::FunctionAdded { id } => ChangeView::FunctionAdded(id@),
        DiffChange::FunctionRemoved { id } => ChangeView::FunctionRemoved(id@),
        DiffChange::FunctionChanged { function: d } => ChangeView::FunctionChanged(
            d.old_id@,
            d.new_id@,
            d.type_changed,
            d.locals_changed,
            d.direct_calls_changed,
            deltas_view(d.operators@),
        ),
    }
}

pub open spec fn changes_view(v: Seq<DiffChange>) -> Seq<ChangeView> {
    v.map_values(|c: DiffChange| change_view(c))
}

fn push_change(changes: &mut Vec<DiffChange>, c: DiffChange)
    ensures
        changes_view(final(changes)@) == changes_view(old(changes)@).push(change_view(c)),
{
    changes.push(c);
    assert(changes_view(changes@) =~= changes_view(old(changes)@).push(change_view(c)));
}

// ---------------------------------------------------------------------------
// Added and removed items
// ---------------------------------------------------------------------------

/// Which list of identified items is compared.
#[derive(Debug, Clone, Copy, PartialEq, Eq, Structural)]
pub enum CollectionKind {
    Type,
    Import,
    Export,
}

pub open spec fn removed_view(kind: CollectionKind, id: Seq<char>) -> ChangeView {
    match kind {
        CollectionKind::Type => ChangeView::TypeRemoved(id),
        CollectionKind::Import => ChangeView::ImportRemoved(id),
        CollectionKind::Export => ChangeView::ExportRemoved(id),
    }
}

pub open spec fn added_view(kind: CollectionKind, id: Seq<char>) -> ChangeView {
    match kind {
        CollectionKind::Type => ChangeView::TypeAdded(id),
        CollectionKind::Import => ChangeView::ImportAdded(id),
        CollectionKind::Export => ChangeView::ExportAdded(id),
    }
}

/// The elements of `s` that `other` does not hold, in order, duplicates kept.
pub open spec fn absent_from(s: Seq<Seq<char>>, other: Seq<Seq<char>>) -> Seq<Seq<char>>
    decreases s.len(),
{
    if s.len() == 0 {
        Seq::empty()
    } else {
        let rest = absent_from(s.drop_last(), other);
        if other.contains(s.last()) {
            rest
        } else {
            rest.push(s.last())
        }
    }
}

/// The changes between two lists of identifiers: each sorted old identifier
/// missing from the new list is removed, then each sorted new identifier
/// missing from the old list is added.
pub open spec fn collection_changes(kind: CollectionKind, old_ids: Seq<Seq<char>>, new_ids: Seq<Seq<char>>) -> Seq<ChangeView> {
    let o = sort_texts(old_ids);
    let n = sort_texts(new_ids);
    absent_from(o, n).map_values(|id: Seq<char>| removed_view(kind, id)) + absent_from(
        n,
        o,
    ).map_values(|id: Seq<char>| added_view(kind, id))
}

fn removed_change(kind: CollectionKind, id: String) -> (r: DiffChange)
    ensures
        change_view(r) == removed_view(kind, id@),
{
    match kind {
        CollectionKind::Type => DiffChange::TypeRemoved { id },
        CollectionKind::Import => DiffChange::ImportRemoved { id },
        CollectionKind::Export => DiffChange::ExportRemoved { id },
    }
}

fn added_change(kind: CollectionKind, id: String) -> (r: DiffChange)
    ensures
        change_view(r) == added_view(kind, id@),
{
    match kind {
        CollectionKind::Type => DiffChange::TypeAdded { id },
        CollectionKind::Import => DiffChange::ImportAdded { id },
        CollectionKind::Export => DiffChange::ExportAdded { id },
    }
}

/// Appends a change for each identifier of `ids` that `other` lacks.
fn push_absent(changes: &mut Vec<DiffChange>, ids: &Vec<String>, other: &Vec<String>, kind: CollectionKind, removed: bool)
    ensures
        changes_view(final(changes)@) == changes_view(old(changes)@) + absent_from(
            texts(ids@),
            texts(other@),
        ).map_values(
            |id: Seq<char>|
                if removed {
                    removed_view(kind, id)
                } else {
                    added_view(kind, id)
                },
        ),
{
    let ghost base = changes_view(changes@);
    let ghost f = |id: Seq<char>|
        if removed {
            removed_view(kind, id)
        } else {
            added_view(kind, id)
        };
    let mut i: usize = 0;
    while i < ids.len()
        invariant
            i <= ids@.len(),
            f == (|id: Seq<char>|
                if removed {
                    removed_view(kind, id)
                } else {
                    added_view(kind, id)
                }),
            changes_view(changes@) == base + absent_from(texts(ids@).take(i as int), texts(other@)).map_values(f),
        decreases ids@.len() - i,
    {
        let ghost pre = texts(ids@).take(i as int);
        proof {
            assert(texts(ids@).take(i + 1).drop_last() =~= pre);
            assert(texts(ids@).take(i + 1).last() == ids@[i as int]@);
        }
        if !crate::text::contains_text(other, ids[i].as_str()) {
            let c = if removed {
                removed_change(kind, ids[i].clone())
            } else {
                added_change(kind, ids[i].clone())
            };
            push_change(changes, c);
            assert(absent_from(pre, texts(other@)).push(ids@[i as int]@).map_values(f) =~= absent_from(
                pre,
                texts(other@),
            ).map_values(f).push(f(ids@[i as int]@)));
        }
        i = i + 1;
        assert(changes_view(changes@) =~= base + absent_from(texts(ids@).take(i as int), texts(other@)).map_values(f));
    }
    assert(texts(ids@).take(ids@.len() as int) =~= texts(ids@));
}

/// Appends the removed and then the added identifiers of one kind.
pub fn push_collection_changes(old_ids: Vec<String>, new_ids: Vec<String>, kind: CollectionKind, changes: &mut Vec<DiffChange>)
    ensures
        changes_view(final(changes)@) == changes_view(old(changes)@) + collection_changes(
            kind,
            texts(old_ids@),
            texts(new_ids@),
        ),
{
    let old_sorted = sort_strings(&old_ids);
    let new_sorted = sort_strings(&new_ids);
    let ghost base = changes_view(changes@);
    push_absent(changes, &old_sorted, &new_sorted, kind, true);
    push_absent(changes, &new_sorted, &old_sorted, kind, false);
    assert(changes_view(changes@) =~= base + collection_changes(kind, texts(old_ids@), texts(new_ids@)));
}

/// The identifiers of a list of types.
pub fn ids_by_type(items: &Vec<TypeIr>) -> (r: Vec<String>)
    ensures
        texts(r@) == items@.map_values(|t: TypeIr| t.id@),
{
    let mut out: Vec<String> = Vec::new();
    let mut i: usize = 0;
    while i < items.len()
        invariant
            i <= items@.len(),
            texts(out@) == items@.map_values(|t: TypeIr| t.id@).take(i as int),
        decreases items@.len() - i,
    {
        let ghost before = out@;
        out.push(items[i].id.clone());
        proof {
            crate::text::lemma_texts_push(before, items@[i as int].id);
        }
        assert(texts(out@) =~= items@.map_values(|t: TypeIr| t.id@).take(i + 1));
        i = i + 1;
    }
    assert(items@.map_values(|t: TypeIr| t.id@).take(items@.len() as int) =~= items@.map_values(|t: TypeIr| t.id@));
    out
}

/// The identifiers of a list of imports.
pub fn ids_by_import(items: &Vec<ImportIr>) -> (r: Vec<String>)
    ensures
        texts(r@) == items@.map_values(|t: ImportIr| t.id@),
{
    let mut out: Vec<String> = Vec::new();
    let mut i: usize = 0;
    while i < items.len()
        invariant
            i <= items@.len(),
            texts(out@) == items@.map_values(|t: ImportIr| t.id@).take(i as int),
        decreases items@.len() - i,
    {
        let ghost before = out@;
        out.push(items[i].id.clone());
        proof {
            crate::text::lemma_texts_push(before, items@[i as int].id);
        }
        assert(texts(out@) =~= items@.map_values(|t: ImportIr| t.id@).take(i + 1));
        i = i + 1;
    }
    assert(items@.map_values(|t: ImportIr| t.id@).take(items@.len() as int) =~= items@.map_values(|t: ImportIr| t.id@));
    out
}

/// The identifiers of a list of exports.
pub fn ids_by_export(items: &Vec<ExportIr>) -> (r: Vec<String>)
    ensures
        texts(r@) == items@.map_values(|t: ExportIr| t.id@),
{
    let mut out: Vec<String> = Vec::new();
    let mut i: usize = 0;
    while i < items.len()
        invariant
            i <= items@.len(),
            texts(out@) == items@.map_values(|t: ExportIr| t.id@).take(i as int),
        decreases items@.len() - i,
    {
        let ghost before = out@;
        out.push(items[i].id.clone());
        proof {
            crate::text::lemma_texts_push(before, items@[i as int].id);
        }
        assert(texts(out@) =~= items@.map_values(|t: ExportIr| t.id@).take(i + 1));
        i = i + 1;
    }
    assert(items@.map_values(|t: ExportIr| t.id@).take(items@.len() as int) =~= items@.map_values(|t: ExportIr| t.id@));
    out
}

// ---------------------------------------------------------------------------
// Summary
// ---------------------------------------------------------------------------

/// How many changes satisfy `pred`.
pub open spec fn count_changes(cs: Seq<ChangeView>, pred: spec_fn(ChangeView) -> bool) -> nat
    decreases cs.len(),
{
    if cs.len() == 0 {
        0
    } else {
        count_changes(cs.drop_last(), pred) + if pred(cs.last()) {
            1nat
        } else {
            0nat
        }
    }
}

/// How many instruction edits satisfy `pred`.
pub open spec fn count_deltas(ds: Seq<DeltaView>, pred: spec_fn(DeltaView) -> bool) -> nat
    decreases ds.len(),
{
    if ds.len() == 0 {
        0
    } else {
        count_deltas(ds.drop_last(), pred) + if pred(ds.last()) {
            1nat
        } else {
            0nat
        }
    }
}

/// The instruction edits a change carries (none but for a changed function).
pub open spec fn change_deltas(c: ChangeView) -> Seq<DeltaView> {
    match c {
        ChangeView::FunctionChanged(_, _, _, _, _, ds) => ds,
        _ => Seq::empty(),
    }
}

/// How many instruction edits over all changes satisfy `pred`.
pub open spec fn count_all_deltas(cs: Seq<ChangeView>, pred: spec_fn(DeltaView) -> bool) -> nat
    decreases cs.len(),
{
    if cs.len() == 0 {
        0
    } else {
        count_all_deltas(cs.drop_last(), pred) + count_deltas(change_deltas(cs.last()), pred)
    }
}

/// The number of instruction edits over all changes.
pub open spec fn total_deltas(cs: Seq<ChangeView>) -> nat
    decreases cs.len(),
{
    if cs.len() == 0 {
        0
    } else {
        total_deltas(cs.drop_last()) + change_deltas(cs.last()).len()
    }
}

pub open spec fn is_replace(d: DeltaView) -> bool {
    d is Replace
}

pub open spec fn is_insert(d: DeltaView) -> bool {
    d is Insert
}

pub open spec fn is_delete(d: DeltaView) -> bool {
    d is Delete
}

/// The summary of a list of changes: how many of each kind, and how many
/// instruction replacements, insertions and deletions the changed functions
/// carry.
pub open spec fn summary_of(cs: Seq<ChangeView>) -> DiffSummary {
    DiffSummary {
        types_added: count_changes(cs, |c: ChangeView| c is TypeAdded) as usize,
        types_removed: count_changes(cs, |c: ChangeView| c is TypeRemoved) as usize,
        imports_added: count_changes(cs, |c: ChangeView| c is ImportAdded) as usize,
        imports_removed: count_changes(cs, |c: ChangeView| c is ImportRemoved) as usize,
        exports_added: count_changes(cs, |c: ChangeView| c is ExportAdded) as usize,
        exports_removed: count_changes(cs, |c: ChangeView| c is ExportRemoved) as usize,
        functions_added: count_changes(cs, |c: ChangeView| c is FunctionAdded) as usize,
        functions_removed: count_changes(cs, |c: ChangeView| c is FunctionRemoved) as usize,
        functions_changed: count_changes(cs, |c: ChangeView| c is FunctionChanged) as usize,
        operator_replacements: count_all_deltas(cs, |d: DeltaView| is_replace(d)) as usize,
        operator_insertions: count_all_deltas(cs, |d: DeltaView| is_insert(d)) as usize,
        operator_deletions: count_all_deltas(cs, |d: DeltaView| is_delete(d)) as usize,
    }
}

pub proof fn lemma_count_changes_bound(cs: Seq<ChangeView>, pred: spec_fn(ChangeView) -> bool)
    ensures
        count_changes(cs, pred) <= cs.len(),
    decreases cs.len(),
{
    if cs.len() > 0 {
        lemma_count_changes_bound(cs.drop_last(), pred);
    }
}

proof fn lemma_count_deltas_bound(ds: Seq<DeltaView>, pred: spec_fn(DeltaView) -> bool)
    ensures
        count_deltas(ds, pred) <= ds.len(),
    decreases ds.len(),
{
    if ds.len() > 0 {
        lemma_count_deltas_bound(ds.drop_last(), pred);
    }
}

pub proof fn lemma_count_all_deltas_bound(cs: Seq<ChangeView>, pred: spec_fn(DeltaView) -> bool)
    ensures
        count_all_deltas(cs, pred) <= total_deltas(cs),
    decreases cs.len(),
{
    if cs.len() > 0 {
        lemma_count_all_deltas_bound(cs.drop_last(), pred);
        lemma_count_deltas_bound(change_deltas(cs.last()), pred);
    }
}

proof fn lemma_total_deltas_prefix(cs: Seq<ChangeView>, i: int)
    requires
        0 <= i <= cs.len(),
    ensures
        total_deltas(cs.take(i)) <= total_deltas(cs),
    decreases cs.len(),
{
    if i < cs.len() {
        assert(cs.drop_last().take(i) =~= cs.take(i));
        lemma_total_deltas_prefix(cs.drop_last(), i);
    } else {
        assert(cs.take(i) =~= cs);
    }
}

/// Counts the replacements, insertions and deletions among `ops`.
fn count_operator_kinds(ops: &Vec<OperatorDelta>) -> (r: (usize, usize, usize))
    ensures
        r.0 == count_deltas(deltas_view(ops@), |d: DeltaView| is_replace(d)),
        r.1 == count_deltas(deltas_view(ops@), |d: DeltaView| is_insert(d)),
        r.2 == count_deltas(deltas_view(ops@), |d: DeltaView| is_delete(d)),
{
    let ghost ds = deltas_view(ops@);
    let mut replaced: usize = 0;
    let mut inserted: usize = 0;
    let mut deleted: usize = 0;
    let mut i: usize = 0;
    while i < ops.len()
        invariant
            i <= ops@.len(),
            ds == deltas_view(ops@),
            replaced == count_deltas(ds.take(i as int), |d: DeltaView| is_replace(d)),
            inserted == count_deltas(ds.take(i as int), |d: DeltaView| is_insert(d)),
            deleted == count_deltas(ds.take(i as int), |d: DeltaView| is_delete(d)),
        decreases ops@.len() - i,
    {
        proof {
            assert(ds.take(i + 1).drop_last() =~= ds.take(i as int));
            assert(ds.take(i + 1).last() == delta_view(ops@[i as int]));
            lemma_count_deltas_bound(ds.take(i as int), |d: DeltaView| is_replace(d));
            lemma_count_deltas_bound(ds.take(i as int), |d: DeltaView| is_insert(d));
            lemma_count_deltas_bound(ds.take(i as int), |d: DeltaView| is_delete(d));
        }
        match &ops[i] {
            OperatorDelta::Replace { .. } => replaced = replaced + 1,
            OperatorDelta::Insert { .. } => inserted = inserted + 1,
            OperatorDelta::Delete { .. } => deleted = deleted + 1,
        }
        i = i + 1;
    }
    assert(ds.take(ops@.len() as int) =~= ds);
    (replaced, inserted, deleted)
}

/// Counts the changes of each kind and the instruction edits they carry.
#[verifier::rlimit(50)]
pub fn summarize(changes: &Vec<DiffChange>) -> (r: DiffSummary)
    requires
        changes@.len() + total_deltas(changes_view(changes@)) <= usize::MAX,
    ensures
        r == summary_of(changes_view(changes@)),
{
    let ghost cs = changes_view(changes@);
    let mut summary = DiffSummary {
        types_added: 0,
        types_removed: 0,
        imports_added: 0,
        imports_removed: 0,
        exports_added: 0,
        exports_removed: 0,
        functions_added: 0,
        functions_removed: 0,
        functions_changed: 0,
        operator_replacements: 0,
        operator_insertions: 0,
        operator_deletions: 0,
    };
    let mut i: usize = 0;
    while i < changes.len()
        invariant
            i <= changes@.len(),
            cs == changes_view(changes@),
            changes@.len() + total_deltas(cs) <= usize::MAX,
            summary == summary_of(cs.take(i as int)),
        decreases changes@.len() - i,
    {
        let ghost pre = cs.take(i as int);
        proof {
            assert(cs.take(i + 1).drop_last() =~= pre);
            assert(cs.take(i + 1).last() == change_view(changes@[i as int]));
            lemma_count_changes_bound(pre, |c: ChangeView| c is TypeAdded);
            lemma_count_changes_bound(pre, |c: ChangeView| c is TypeRemoved);
            lemma_count_changes_bound(pre, |c: ChangeView| c is ImportAdded);
            lemma_count_changes_bound(pre, |c: ChangeView| c is ImportRemoved);
            lemma_count_changes_bound(pre, |c: ChangeView| c is ExportAdded);
            lemma_count_changes_bound(pre, |c: ChangeView| c is ExportRemoved);
            lemma_count_changes_bound(pre, |c: ChangeView| c is FunctionAdded);
            lemma_count_changes_bound(pre, |c: ChangeView| c is FunctionRemoved);
            lemma_count_changes_bound(pre, |c: ChangeView| c is FunctionChanged);
            lemma_count_all_deltas_bound(cs.take(i + 1), |d: DeltaView| is_replace(d));
            lemma_count_all_deltas_bound(cs.take(i + 1), |d: DeltaView| is_insert(d));
            lemma_count_all_deltas_bound(cs.take(i + 1), |d: DeltaView| is_delete(d));
            lemma_total_deltas_prefix(cs, i + 1);
        }
        match &changes[i] {
            DiffChange::TypeAdded { .. } => summary.types_added = summary.types_added + 1,
            DiffChange::TypeRemoved { .. } => summary.types_removed = summary.types_removed + 1,
            DiffChange::ImportAdded { .. } => summary.imports_added = summary.imports_added + 1,
            DiffChange::ImportRemoved { .. } => summary.imports_removed = summary.imports_removed + 1,
            DiffChange::ExportAdded { .. } => summary.exports_added = summary.exports_added + 1,
            DiffChange::ExportRemoved { .. } => summary.exports_removed = summary.exports_removed + 1,
            DiffChange::FunctionAdded { .. } => summary.functions_added = summary.functions_added + 1,
            DiffChange::FunctionRemoved { .. } => summary.functions_removed = summary.functions_removed + 1,
            DiffChange::FunctionChanged { function } => {
                summary.functions_changed = summary.functions_changed + 1;
                let (replaced, inserted, deleted) = count_operator_kinds(&function.operators);
                summary.operator_replacements = summary.operator_replacements + replaced;
                summary.operator_insertions = summary.operator_insertions + inserted;
                summary.operator_deletions = summary.operator_deletions + deleted;
            },
        }
        i = i + 1;
    }
    assert(cs.take(changes@.len() as int) =~= cs);
    summary
}

// ---------------------------------------------------------------------------
// Module diff
// ---------------------------------------------------------------------------

/// The position of the last function with source index `s`, or -1.
pub open spec fn last_with_source(fs: Seq<FunctionIr>, s: u32) -> int
    decreases fs.len(),
{
    if fs.len() == 0 {
        -1
    } else if fs.last().source_index == s {
        fs.len() - 1
    } else {
        last_with_source(fs.drop_last(), s)
    }
}

proof fn lemma_last_with_source_range(fs: Seq<FunctionIr>, s: u32)
    ensures
        -1 <= last_with_source(fs, s) < fs.len(),
    decreases fs.len(),
{
    if fs.len() > 0 {
        lemma_last_with_source_range(fs.drop_last(), s);
    }
}

/// The change recorded for a matched pair that differs.
pub open spec fn function_change_view(o: FunctionIr, n: FunctionIr) -> ChangeView {
    ChangeView::FunctionChanged(
        o.id@,
        n.id@,
        o.type_id@ != n.type_id@,
        !same_locals(o.locals@, n.locals@),
        o.direct_calls@ != n.direct_calls@,
        operator_diff(o.operators@, n.operators@),
    )
}

/// The changes of the matched pairs (by source index) that differ, in
/// pair order.
pub open spec fn changed_functions(old: Seq<FunctionIr>, new: Seq<FunctionIr>, pairs: Seq<(u32, u32)>) -> Seq<ChangeView>
    decreases pairs.len(),
{
    if pairs.len() == 0 {
        Seq::empty()
    } else {
        let rest = changed_functions(old, new, pairs.drop_last());
        let p = pairs.last();
        let o = old[last_with_source(old, p.0)];
        let n = new[last_with_source(new, p.1)];
        if function_changed(o, n) {
            rest.push(function_change_view(o, n))
        } else {
            rest
        }
    }
}

/// All changes between two modules given the matched pairs of source
/// indices: types, imports and exports removed and added; functions of
/// neither side of a pair removed or added; matched functions that differ.
pub open spec fn module_changes(old: ModuleIr, new: ModuleIr, pairs: Seq<(u32, u32)>) -> Seq<ChangeView> {
    structural_changes(old, new, pairs) + changed_functions(old.functions@, new.functions@, pairs)
}

/// The changes that do not look into matched bodies: types, imports and
/// exports removed and added, and functions of neither side of a pair
/// removed or added.
pub open spec fn structural_changes(old: ModuleIr, new: ModuleIr, pairs: Seq<(u32, u32)>) -> Seq<ChangeView> {
    collection_changes(
        CollectionKind::Type,
        old.types@.map_values(|t: TypeIr| t.id@),
        new.types@.map_values(|t: TypeIr| t.id@),
    ) + collection_changes(
        CollectionKind::Import,
        old.imports@.map_values(|t: ImportIr| t.id@),
        new.imports@.map_values(|t: ImportIr| t.id@),
    ) + collection_changes(
        CollectionKind::Export,
        old.exports@.map_values(|t: ExportIr| t.id@),
        new.exports@.map_values(|t: ExportIr| t.id@),
    ) + unmatched_ids(old.functions@, pairs.map_values(|p: (u32, u32)| p.0)).map_values(
        |id: Seq<char>| ChangeView::FunctionRemoved(id),
    ) + unmatched_ids(new.functions@, pairs.map_values(|p: (u32, u32)| p.1)).map_values(
        |id: Seq<char>| ChangeView::FunctionAdded(id),
    )
}

/// Every pair joins functions that agree in type, locals, direct calls and
/// instruction keys.
pub open spec fn pairs_agree(old: Seq<FunctionIr>, new: Seq<FunctionIr>, pairs: Seq<(u32, u32)>) -> bool {
    forall|k: int|
        0 <= k < pairs.len() ==> same_parts(
            old[last_with_source(old, (#[trigger] pairs[k]).0)],
            new[last_with_source(new, pairs[k].1)],
        )
}

/// Every pair names a source index present on its side.
pub open spec fn pairs_resolve(old: Seq<FunctionIr>, new: Seq<FunctionIr>, pairs: Seq<(u32, u32)>) -> bool {
    forall|k: int|
        0 <= k < pairs.len() ==> last_with_source(old, (#[trigger] pairs[k]).0) >= 0
            && last_with_source(new, pairs[k].1) >= 0
}

/// The position of the last function with source index `s`.
fn find_by_source_index(fs: &Vec<FunctionIr>, s: u32) -> (r: Option<usize>)
    ensures
        match r {
            Some(i) => i as int == last_with_source(fs@, s),
            None => last_with_source(fs@, s) < 0,
        },
{
    let mut i: usize = fs.len();
    assert(fs@.take(fs@.len() as int) =~= fs@);
    while i > 0
        invariant
            i <= fs@.len(),
            last_with_source(fs@, s) == last_with_source(fs@.take(i as int), s),
        decreases i,
    {
        proof {
            assert(fs@.take(i as int).drop_last() =~= fs@.take(i - 1));
            assert(fs@.take(i as int).last() == fs@[i - 1]);
        }
        if fs[i - 1].source_index == s {
            return Some(i - 1);
        }
        i = i - 1;
    }
    None
}

fn source_indices(pairs: &Vec<(u32, u32)>, old_side: bool) -> (r: Vec<u32>)
    ensures
        r@ == pairs@.map_values(
            |p: (u32, u32)|
                if old_side {
                    p.0
                } else {
                    p.1
                },
        ),
{
    let mut out: Vec<u32> = Vec::new();
    let mut i: usize = 0;
    while i < pairs.len()
        invariant
            i <= pairs@.len(),
            out@ == pairs@.map_values(
                |p: (u32, u32)|
                    if old_side {
                        p.0
                    } else {
                        p.1
                    },
            ).take(i as int),
        decreases pairs@.len() - i,
    {
        let (a, b) = pairs[i];
        out.push(if old_side { a } else { b });
        i = i + 1;
        assert(out@ =~= pairs@.map_values(
            |p: (u32, u32)|
                if old_side {
                    p.0
                } else {
                    p.1
                },
        ).take(i as int));
    }
    assert(pairs@.map_values(
        |p: (u32, u32)|
            if old_side {
                p.0
            } else {
                p.1
            },
    ).take(pairs@.len() as int) =~= pairs@.map_values(
        |p: (u32, u32)|
            if old_side {
                p.0
            } else {
                p.1
            },
    ));
    out
}

fn push_function_ids(changes: &mut Vec<DiffChange>, ids: Vec<String>, removed: bool)
    ensures
        changes_view(final(changes)@) == changes_view(old(changes)@) + texts(ids@).map_values(
            |id: Seq<char>|
                if removed {
                    ChangeView::FunctionRemoved(id)
                } else {
                    ChangeView::FunctionAdded(id)
                },
        ),
{
    let ghost f = |id: Seq<char>|
        if removed {
            ChangeView::FunctionRemoved(id)
        } else {
            ChangeView::FunctionAdded(id)
        };
    let ghost base = changes_view(changes@);
    let mut i: usize = 0;
    while i < ids.len()
        invariant
            i <= ids@.len(),
            f == (|id: Seq<char>|
                if removed {
                    ChangeView::FunctionRemoved(id)
                } else {
                    ChangeView::FunctionAdded(id)
                }),
            changes_view(changes@) == base + texts(ids@).map_values(f).take(i as int),
        decreases ids@.len() - i,
    {
        let id = ids[i].clone();
        let c = if removed {
            DiffChange::FunctionRemoved { id }
        } else {
            DiffChange::FunctionAdded { id }
        };
        push_change(changes, c);
        i = i + 1;
        assert(changes_view(changes@) =~= base + texts(ids@).map_values(f).take(i as int));
    }
    assert(texts(ids@).map_values(f).take(ids@.len() as int) =~= texts(ids@).map_values(f));
}

/// The changes between two normalized modules, given the matched pairs of
/// source indices in report order.
pub fn diff_changes(old: &NormalizedModule, new: &NormalizedModule, pairs: &Vec<(u32, u32)>) -> (r: Vec<DiffChange>)
    requires
        pairs_resolve(old.module.functions@, new.module.functions@, pairs@),
    ensures
        changes_view(r@) == module_changes(old.module, new.module, pairs@),
        pairs_agree(old.module.functions@, new.module.functions@, pairs@) ==> changes_view(r@)
            == structural_changes(old.module, new.module, pairs@),
{
    let om = &old.module;
    let nm = &new.module;
    let mut changes: Vec<DiffChange> = Vec::new();
    let old_types = ids_by_type(&om.types);
    let new_types = ids_by_type(&nm.types);
    push_collection_changes(old_types, new_types, CollectionKind::Type, &mut changes);
    let old_imports = ids_by_import(&om.imports);
    let new_imports = ids_by_import(&nm.imports);
    push_collection_changes(old_imports, new_imports, CollectionKind::Import, &mut changes);
    let old_exports = ids_by_export(&om.exports);
    let new_exports = ids_by_export(&nm.exports);
    push_collection_changes(old_exports, new_exports, CollectionKind::Export, &mut changes);
    let ghost after_collections = changes_view(changes@);
    let old_matched = source_indices(pairs, true);
    let new_matched = source_indices(pairs, false);
    assert(old_matched@ =~= pairs@.map_values(|p: (u32, u32)| p.0));
    assert(new_matched@ =~= pairs@.map_values(|p: (u32, u32)| p.1));
    let removed_ids = unmatched_function_ids(old, &old_matched);
    let added_ids = unmatched_function_ids(new, &new_matched);
    push_function_ids(&mut changes, removed_ids, true);
    push_function_ids(&mut changes, added_ids, false);
    let ghost base = changes_view(changes@);
    assert(base =~= after_collections + unmatched_ids(om.functions@, pairs@.map_values(|p: (u32, u32)| p.0)).map_values(
        |id: Seq<char>| ChangeView::FunctionRemoved(id),
    ) + unmatched_ids(nm.functions@, pairs@.map_values(|p: (u32, u32)| p.1)).map_values(
        |id: Seq<char>| ChangeView::FunctionAdded(id),
    ));
    let mut i: usize = 0;
    while i < pairs.len()
        invariant
            i <= pairs@.len(),
            pairs_resolve(om.functions@, nm.functions@, pairs@),
            changes_view(changes@) == base + changed_functions(om.functions@, nm.functions@, pairs@.take(i as int)),
            base == structural_changes(*om, *nm, pairs@),
            pairs_agree(om.functions@, nm.functions@, pairs@) ==> changes_view(changes@) == base,
        decreases pairs@.len() - i,
    {
        proof {
            assert(pairs@.take(i + 1).drop_last() =~= pairs@.take(i as int));
            assert(pairs@.take(i + 1).last() == pairs@[i as int]);
            lemma_last_with_source_range(om.functions@, pairs@[i as int].0);
            lemma_last_with_source_range(nm.functions@, pairs@[i as int].1);
        }
        let (a, b) = pairs[i];
        let oi = find_by_source_index(&om.functions, a);
        let ni = find_by_source_index(&nm.functions, b);
        match (oi, ni) {
            (Some(x), Some(y)) => {
                match diff_function(&om.functions[x], &nm.functions[y]) {
                    Some(delta) => {
                        proof {
                            if pairs_agree(om.functions@, nm.functions@, pairs@) {
                                assert(same_parts(om.functions@[x as int], nm.functions@[y as int]));
                            }
                        }
                        push_change(&mut changes, DiffChange::FunctionChanged { function: delta });
                    },
                    None => {},
                }
            },
            _ => {},
        }
        i = i + 1;
    }
    assert(pairs@.take(pairs@.len() as int) =~= pairs@);
    proof {
        assert(changes_view(changes@) =~= module_changes(*om, *nm, pairs@));
    }
    changes
}

} // verus!
