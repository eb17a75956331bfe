//! The layout of the text report: which lines a summary and each change
//! produce, as segments of text with a display style. Applying the styles
//! (terminal colors) is left to the caller.

use vstd::prelude::*;

use crate::diff::{
    change_view, changes_view, delta_view, deltas_view, ChangeView, DeltaView, DiffChange,
    DiffSummary, OperatorDelta,
};
use crate::ir::{FunctionIr, FunctionKindIr, ModuleIr};
use crate::matcher::MatchReason;
use crate::text::{decimal, push_decimal, push_str, string_of};

verus! {

/// How a segment of report text is shown.
#[derive(Debug, Clone, Copy, PartialEq, Eq, Structural)]
pub enum Style {
    Plain,
    Bold,
    Cyan,
    Green,
    Red,
    Yellow,
    BrightBlack,
}

/// A piece of a report line.
#[derive(Debug, Clone, PartialEq, Eq)]
pub struct Segment {
    pub text: String,
    pub style: Style,
}

/// A segment as plain values.
pub open spec fn segment_view(s: Segment) -> (Seq<char>, Style) {
    (s.text@, s.style)
}

pub open spec fn line_view(l: Seq<Segment>) -> Seq<(Seq<char>, Style)> {
    l.map_values(|s: Segment| segment_view(s))
}

pub open spec fn lines_view(ls: Seq<Vec<Segment>>) -> Seq<Seq<(Seq<char>, Style)>> {
    ls.map_values(|l: Vec<Segment>| line_view(l@))
}

pub open spec fn plain(t: Seq<char>) -> (Seq<char>, Style) {
    (t, Style::Plain)
}

pub open spec fn styled(t: Seq<char>, style: Style) -> (Seq<char>, Style) {
    (t, style)
}

// ---------------------------------------------------------------------------
// Summary
// ---------------------------------------------------------------------------

/// Whether the summary records a change of types, imports or exports.
pub open spec fn abi_changed(s: DiffSummary) -> bool {
    s.types_added > 0 || s.types_removed > 0 || s.imports_added > 0 || s.imports_removed > 0
        || s.exports_added > 0 || s.exports_removed > 0
}

/// The summary block of a report: a bold heading, the function counts, the
/// instruction counts, and the interface line.
pub open spec fn summary_lines_spec(s: DiffSummary, matched: nat) -> Seq<Seq<(Seq<char>, Style)>> {
    seq![
        seq![styled("Summary:"@, Style::Bold)],
        seq![
            plain("  functions: "@),
            styled(decimal(matched), Style::BrightBlack),
            plain(" matched, "@),
            styled(decimal(s.functions_changed as nat), Style::Yellow),
            plain(" changed, "@),
            styled(decimal(s.functions_added as nat), Style::Green),
            plain(" added, "@),
            styled(decimal(s.functions_removed as nat), Style::Red),
            plain(" removed"@),
        ],
        seq![
            plain("  operators: "@),
            styled(decimal(s.operator_replacements as nat), Style::Yellow),
            plain(" replaced, "@),
            styled(decimal(s.operator_insertions as nat), Style::Green),
            plain(" inserted, "@),
            styled(decimal(s.operator_deletions as nat), Style::Red),
            plain(" deleted"@),
        ],
        if abi_changed(s) {
            seq![
                plain("  abi: types "@),
                styled("+"@ + decimal(s.types_added as nat), Style::Green),
                plain(" "@),
                styled("-"@ + decimal(s.types_removed as nat), Style::Red),
                plain(", imports "@),
                styled("+"@ + decimal(s.imports_added as nat), Style::Green),
                plain(" "@),
                styled("-"@ + decimal(s.imports_removed as nat), Style::Red),
                plain(", exports "@),
                styled("+"@ + decimal(s.exports_added as nat), Style::Green),
                plain(" "@),
                styled("-"@ + decimal(s.exports_removed as nat), Style::Red),
            ]
        } else {
            seq![plain("  "@), styled("abi: unchanged"@, Style::Green)]
        },
    ]
}

fn seg(text: String, style: Style) -> (r: Segment)
    ensures
        segment_view(r) == (text@, style),
{
    Segment { text, style }
}

fn lit(text: &str, style: Style) -> (r: Segment)
    ensures
        segment_view(r) == (text@, style),
{
    Segment { text: string_of(text), style }
}

fn number(n: u64, style: Style) -> (r: Segment)
    ensures
        segment_view(r) == (decimal(n as nat), style),
{
    let mut text = String::new();
    push_decimal(&mut text, n);
    assert(text@ =~= decimal(n as nat));
    Segment { text, style }
}

fn signed_count(sign: &str, n: u64, style: Style) -> (r: Segment)
    ensures
        segment_view(r) == (sign@ + decimal(n as nat), style),
{
    let mut text = string_of(sign);
    push_decimal(&mut text, n);
    Segment { text, style }
}

fn push_line(lines: &mut Vec<Vec<Segment>>, line: Vec<Segment>)
    ensures
        lines_view(final(lines)@) == lines_view(old(lines)@).push(line_view(line@)),
{
    lines.push(line);
    assert(lines_view(lines@) =~= lines_view(old(lines)@).push(line_view(line@)));
}

/// The summary block of a report with `matched` function matches.
#[verifier::rlimit(40)]
pub fn summary_lines(summary: &DiffSummary, matched: usize) -> (r: Vec<Vec<Segment>>)
    ensures
        lines_view(r@) == summary_lines_spec(*summary, matched as nat),
{
    let s = summary;
    let mut lines: Vec<Vec<Segment>> = Vec::new();
    push_line(&mut lines, vec![lit("Summary:", Style::Bold)]);
    let functions = vec![
        lit("  functions: ", Style::Plain),
        number(matched as u64, Style::BrightBlack),
        lit(" matched, ", Style::Plain),
        number(s.functions_changed as u64, Style::Yellow),
        lit(" changed, ", Style::Plain),
        number(s.functions_added as u64, Style::Green),
        lit(" added, ", Style::Plain),
        number(s.functions_removed as u64, Style::Red),
        lit(" removed", Style::Plain),
    ];
    assert(functions@.len() == 9);
    push_line(&mut lines, functions);
    let operators = vec![
        lit("  operators: ", Style::Plain),
        number(s.operator_replacements as u64, Style::Yellow),
        lit(" replaced, ", Style::Plain),
        number(s.operator_insertions as u64, Style::Green),
        lit(" inserted, ", Style::Plain),
        number(s.operator_deletions as u64, Style::Red),
        lit(" deleted", Style::Plain),
    ];
    push_line(&mut lines, operators);
    if s.types_added > 0 || s.types_removed > 0 || s.imports_added > 0 || s.imports_removed > 0
        || s.exports_added > 0 || s.exports_removed > 0 {
        let abi = vec![
            lit("  abi: types ", Style::Plain),
            signed_count("+", s.types_added as u64, Style::Green),
            lit(" ", Style::Plain),
            signed_count("-", s.types_removed as u64, Style::Red),
            lit(", imports ", Style::Plain),
            signed_count("+", s.imports_added as u64, Style::Green),
            lit(" ", Style::Plain),
            signed_count("-", s.imports_removed as u64, Style::Red),
            lit(", exports ", Style::Plain),
            signed_count("+", s.exports_added as u64, Style::Green),
            lit(" ", Style::Plain),
            signed_count("-", s.exports_removed as u64, Style::Red),
        ];
        push_line(&mut lines, abi);
    } else {
        push_line(&mut lines, vec![lit("  ", Style::Plain), lit("abi: unchanged", Style::Green)]);
    }
    assert(lines_view(lines@) =~~= summary_lines_spec(*summary, matched as nat));
    lines
}

// ---------------------------------------------------------------------------
// Changes
// ---------------------------------------------------------------------------

/// A line for an added (`+`, green) or removed (`-`, red) item of a kind.
pub open spec fn item_line(added: bool, kind: Seq<char>, id: Seq<char>) -> Seq<(Seq<char>, Style)> {
    if added {
        seq![plain("  "@), styled("+ "@ + kind + " "@ + id, Style::Green)]
    } else {
        seq![plain("  "@), styled("- "@ + kind + " "@ + id, Style::Red)]
    }
}

/// The line of one instruction edit.
pub open spec fn delta_line(d: DeltaView) -> Seq<(Seq<char>, Style)> {
    match d {
        DeltaView::Replace(index, old, new) => seq![
            plain("    "@),
            styled("~"@, Style::Yellow),
            plain(" op["@ + decimal(index as nat) + "]: "@),
            styled(old.2, Style::Red),
            plain(" -> "@),
            styled(new.2, Style::Green),
        ],
        DeltaView::Insert(index, op) => seq![
            plain("    "@),
            styled("+"@, Style::Green),
            plain(" op["@ + decimal(index as nat) + "]: "@ + op.2),
        ],
        DeltaView::Delete(index, op) => seq![
            plain("    "@),
            styled("-"@, Style::Red),
            plain(" op["@ + decimal(index as nat) + "]: "@ + op.2),
        ],
    }
}

/// A `~` line with a note.
pub open spec fn note_line(note: Seq<char>) -> Seq<(Seq<char>, Style)> {
    seq![plain("    "@), styled("~"@, Style::Yellow), plain(" "@ + note)]
}

/// The optional note lines of a changed function.
pub open spec fn flag_lines(type_changed: bool, locals_changed: bool, calls_changed: bool) -> Seq<Seq<(Seq<char>, Style)>> {
    (if type_changed {
        seq![note_line("type signature changed"@)]
    } else {
        Seq::empty()
    }) + (if locals_changed {
        seq![note_line("locals changed"@)]
    } else {
        Seq::empty()
    }) + (if calls_changed {
        seq![note_line("direct calls changed"@)]
    } else {
        Seq::empty()
    })
}

/// The lines of one change: a line per added or removed item; for a changed
/// function a heading, a note per changed aspect and a line per edit.
pub open spec fn change_lines_spec(c: ChangeView) -> Seq<Seq<(Seq<char>, Style)>> {
    match c {
        ChangeView::TypeAdded(id) => seq![item_line(true, "type"@, id)],
        ChangeView::TypeRemoved(id) => seq![item_line(false, "type"@, id)],
        ChangeView::ImportAdded(id) => seq![item_line(true, "import"@, id)],
        ChangeView::ImportRemoved(id) => seq![item_line(false, "import"@, id)],
        ChangeView::ExportAdded(id) => seq![item_line(true, "export"@, id)],
        ChangeView::ExportRemoved(id) => seq![item_line(false, "export"@, id)],
        ChangeView::FunctionAdded(id) => seq![item_line(true, "function"@, id)],
        ChangeView::FunctionRemoved(id) => seq![item_line(false, "function"@, id)],
        ChangeView::FunctionChanged(old_id, new_id, t, l, c, ds) => seq![
            seq![plain("  "@), styled("~"@, Style::Yellow), plain(" "@ + old_id + " -> "@ + new_id)],
        ] + flag_lines(t, l, c) + ds.map_values(|d: DeltaView| delta_line(d)),
    }
}

fn item_line_of(added: bool, kind: &str, id: &String) -> (r: Vec<Segment>)
    ensures
        line_view(r@) == item_line(added, kind@, id@),
{
    let mut text = string_of(if added { "+ " } else { "- " });
    push_str(&mut text, kind);
    push_str(&mut text, " ");
    push_str(&mut text, id.as_str());
    let r = vec![lit("  ", Style::Plain), seg(text, if added { Style::Green } else { Style::Red })];
    assert(line_view(r@) =~~= item_line(added, kind@, id@));
    r
}

fn delta_line_of(d: &OperatorDelta) -> (r: Vec<Segment>)
    ensures
        line_view(r@) == delta_line(delta_view(*d)),
{
    match d {
        OperatorDelta::Replace { index, old, new } => {
            let mut at = string_of(" op[");
            push_decimal(&mut at, *index as u64);
            push_str(&mut at, "]: ");
            let r = vec![
                lit("    ", Style::Plain),
                lit("~", Style::Yellow),
                seg(at, Style::Plain),
                seg(old.text.clone(), Style::Red),
                lit(" -> ", Style::Plain),
                seg(new.text.clone(), Style::Green),
            ];
            assert(line_view(r@) =~~= delta_line(delta_view(*d)));
            r
        },
        OperatorDelta::Insert { index, operator } => {
            let mut at = string_of(" op[");
            push_decimal(&mut at, *index as u64);
            push_str(&mut at, "]: ");
            push_str(&mut at, operator.text.as_str());
            let r = vec![lit("    ", Style::Plain), lit("+", Style::Green), seg(at, Style::Plain)];
            assert(line_view(r@) =~~= delta_line(delta_view(*d)));
            r
        },
        OperatorDelta::Delete { index, operator } => {
            let mut at = string_of(" op[");
            push_decimal(&mut at, *index as u64);
            push_str(&mut at, "]: ");
            push_str(&mut at, operator.text.as_str());
            let r = vec![lit("    ", Style::Plain), lit("-", Style::Red), seg(at, Style::Plain)];
            assert(line_view(r@) =~~= delta_line(delta_view(*d)));
            r
        },
    }
}

fn push_note(lines: &mut Vec<Vec<Segment>>, note: &str)
    ensures
        lines_view(final(lines)@) == lines_view(old(lines)@).push(note_line(note@)),
{
    let mut text = string_of(" ");
    push_str(&mut text, note);
    let line = vec![lit("    ", Style::Plain), lit("~", Style::Yellow), seg(text, Style::Plain)];
    assert(line_view(line@) =~~= note_line(note@));
    push_line(lines, line);
}

/// Appends the lines of one change.
pub fn push_change_lines(lines: &mut Vec<Vec<Segment>>, change: &DiffChange)
    ensures
        lines_view(final(lines)@) == lines_view(old(lines)@) + change_lines_spec(change_view(*change)),
{
    let ghost base = lines_view(lines@);
    match change {
        DiffChange::TypeAdded { id } => push_line(lines, item_line_of(true, "type", id)),
        DiffChange::TypeRemoved { id } => push_line(lines, item_line_of(false, "type", id)),
        DiffChange::ImportAdded { id } => push_line(lines, item_line_of(true, "import", id)),
        DiffChange::ImportRemoved { id } => push_line(lines, item_line_of(false, "import", id)),
        DiffChange::ExportAdded { id } => push_line(lines, item_line_of(true, "export", id)),
        DiffChange::ExportRemoved { id } => push_line(lines, item_line_of(false, "export", id)),
        DiffChange::FunctionAdded { id } => push_line(lines, item_line_of(true, "function", id)),
        DiffChange::FunctionRemoved { id } => push_line(lines, item_line_of(false, "function", id)),
        DiffChange::FunctionChanged { function } => {
            let mut heading = string_of(" ");
            push_str(&mut heading, function.old_id.as_str());
            push_str(&mut heading, " -> ");
            push_str(&mut heading, function.new_id.as_str());
            let first = vec![lit("  ", Style::Plain), lit("~", Style::Yellow), seg(heading, Style::Plain)];
            push_line(lines, first);
            let ghost after_heading = lines_view(lines@);
            if function.type_changed {
                push_note(lines, "type signature changed");
            }
            if function.locals_changed {
                push_note(lines, "locals changed");
            }
            if function.direct_calls_changed {
                push_note(lines, "direct calls changed");
            }
            assert(lines_view(lines@) =~~= after_heading + flag_lines(
                function.type_changed,
                function.locals_changed,
                function.direct_calls_changed,
            ));
            let ghost after_flags = lines_view(lines@);
            let ghost ds = deltas_view(function.operators@);
            let mut i: usize = 0;
            while i < function.operators.len()
                invariant
                    i <= function.operators@.len(),
                    ds == deltas_view(function.operators@),
                    lines_view(lines@) == after_flags + ds.map_values(|d: DeltaView| delta_line(d)).take(
                        i as int,
                    ),
                decreases function.operators@.len() - i,
            {
                push_line(lines, delta_line_of(&function.operators[i]));
                i = i + 1;
                assert(lines_view(lines@) =~~= after_flags + ds.map_values(|d: DeltaView| delta_line(d)).take(
                    i as int,
                ));
            }
            assert(ds.map_values(|d: DeltaView| delta_line(d)).take(function.operators@.len() as int)
                =~= ds.map_values(|d: DeltaView| delta_line(d)));
        },
    }
    assert(lines_view(lines@) =~~= base + change_lines_spec(change_view(*change)));
}

/// All change lines in order.
pub open spec fn all_change_lines(cs: Seq<ChangeView>) -> Seq<Seq<(Seq<char>, Style)>>
    decreases cs.len(),
{
    if cs.len() == 0 {
        Seq::empty()
    } else {
        all_change_lines(cs.drop_last()) + change_lines_spec(cs.last())
    }
}

/// The changes block of a full report: a bold heading, then the lines of
/// each change, or `none`.
pub open spec fn changes_section_spec(cs: Seq<ChangeView>) -> Seq<Seq<(Seq<char>, Style)>> {
    seq![seq![styled("Changes:"@, Style::Bold)]] + if cs.len() == 0 {
        seq![seq![plain("  none"@)]]
    } else {
        all_change_lines(cs)
    }
}

/// The changes block of a full report.
pub fn changes_section(changes: &Vec<DiffChange>) -> (r: Vec<Vec<Segment>>)
    ensures
        lines_view(r@) == changes_section_spec(changes_view(changes@)),
{
    let ghost cs = changes_view(changes@);
    let mut lines: Vec<Vec<Segment>> = Vec::new();
    push_line(&mut lines, vec![lit("Changes:", Style::Bold)]);
    if changes.len() == 0 {
        push_line(&mut lines, vec![lit("  none", Style::Plain)]);
        assert(lines_view(lines@) =~~= changes_section_spec(cs));
        return lines;
    }
    let ghost head = lines_view(lines@);
    let mut i: usize = 0;
    while i < changes.len()
        invariant
            i <= changes@.len(),
            cs == changes_view(changes@),
            lines_view(lines@) == head + all_change_lines(cs.take(i as int)),
        decreases changes@.len() - i,
    {
        proof {
            assert(cs.take(i + 1).drop_last() =~= cs.take(i as int));
            assert(cs.take(i + 1).last() == change_view(changes@[i as int]));
        }
        push_change_lines(&mut lines, &changes[i]);
        i = i + 1;
        assert(lines_view(lines@) =~~= head + all_change_lines(cs.take(i as int)));
    }
    assert(cs.take(changes@.len() as int) =~= cs);
    assert(lines_view(lines@) =~~= changes_section_spec(cs));
    lines
}

/// The first line of a report: `Diff: <old> -> <new>`.
pub fn header_line(old_name: &str, new_name: &str) -> (r: Vec<Segment>)
    ensures
        line_view(r@) == seq![
            styled("Diff"@, Style::Bold),
            plain(": "@ + old_name@ + " -> "@ + new_name@),
        ],
{
    let mut rest = string_of(": ");
    push_str(&mut rest, old_name);
    push_str(&mut rest, " -> ");
    push_str(&mut rest, new_name);
    let r = vec![lit("Diff", Style::Bold), seg(rest, Style::Plain)];
    assert(line_view(r@) =~~= seq![
        styled("Diff"@, Style::Bold),
        plain(": "@ + old_name@ + " -> "@ + new_name@),
    ]);
    r
}

/// How many matches fell back to similarity.
pub open spec fn fallback_count(reasons: Seq<MatchReason>) -> nat
    decreases reasons.len(),
{
    if reasons.len() == 0 {
        0
    } else {
        fallback_count(reasons.drop_last()) + if reasons.last() == MatchReason::SimilarityFallback {
            1nat
        } else {
            0nat
        }
    }
}

/// How many changes are changed functions.
pub open spec fn changed_function_count(cs: Seq<ChangeView>) -> nat
    decreases cs.len(),
{
    if cs.len() == 0 {
        0
    } else {
        changed_function_count(cs.drop_last()) + if cs.last() is FunctionChanged {
            1nat
        } else {
            0nat
        }
    }
}

/// The closing lines of a short report: the number of similarity matches
/// when there are any, then the change totals or `changes: none`.
pub open spec fn short_tail_spec(reasons: Seq<MatchReason>, cs: Seq<ChangeView>) -> Seq<Seq<(Seq<char>, Style)>> {
    (if fallback_count(reasons) > 0 {
        seq![seq![plain("  fallback matches: "@), styled(decimal(fallback_count(reasons)), Style::BrightBlack)]]
    } else {
        Seq::empty()
    }) + if cs.len() == 0 {
        seq![seq![plain("  "@), styled("changes: none"@, Style::Green)]]
    } else {
        seq![
            seq![
                plain("  changes: "@),
                styled(decimal(cs.len()), Style::Yellow),
                plain(" total, "@),
                styled(decimal(changed_function_count(cs)), Style::Yellow),
                plain(" functions"@),
            ],
        ]
    }
}

proof fn lemma_fallback_count_bound(reasons: Seq<MatchReason>)
    ensures
        fallback_count(reasons) <= reasons.len(),
    decreases reasons.len(),
{
    if reasons.len() > 0 {
        lemma_fallback_count_bound(reasons.drop_last());
    }
}

proof fn lemma_changed_count_bound(cs: Seq<ChangeView>)
    ensures
        changed_function_count(cs) <= cs.len(),
    decreases cs.len(),
{
    if cs.len() > 0 {
        lemma_changed_count_bound(cs.drop_last());
    }
}

/// The closing lines of a short report.
pub fn short_tail(reasons: &Vec<MatchReason>, changes: &Vec<DiffChange>) -> (r: Vec<Vec<Segment>>)
    ensures
        lines_view(r@) == short_tail_spec(reasons@, changes_view(changes@)),
{
    let ghost cs = changes_view(changes@);
    let mut fallback: usize = 0;
    let mut i: usize = 0;
    while i < reasons.len()
        invariant
            i <= reasons@.len(),
            fallback == fallback_count(reasons@.take(i as int)),
            fallback <= i,
        decreases reasons@.len() - i,
    {
        proof {
            assert(reasons@.take(i + 1).drop_last() =~= reasons@.take(i as int));
        }
        if reasons[i] == MatchReason::SimilarityFallback {
            fallback = fallback + 1;
        }
        i = i + 1;
    }
    assert(reasons@.take(reasons@.len() as int) =~= reasons@);
    let mut changed: usize = 0;
    let mut j: usize = 0;
    while j < changes.len()
        invariant
            j <= changes@.len(),
            cs == changes_view(changes@),
            changed == changed_function_count(cs.take(j as int)),
            changed <= j,
        decreases changes@.len() - j,
    {
        proof {
            assert(cs.take(j + 1).drop_last() =~= cs.take(j as int));
            assert(cs.take(j + 1).last() == change_view(changes@[j as int]));
        }
        match &changes[j] {
            DiffChange::FunctionChanged { .. } => changed = changed + 1,
            _ => {},
        }
        j = j + 1;
    }
    assert(cs.take(changes@.len() as int) =~= cs);
    let mut lines: Vec<Vec<Segment>> = Vec::new();
    if fallback > 0 {
        push_line(&mut lines, vec![lit("  fallback matches: ", Style::Plain), number(fallback as u64, Style::BrightBlack)]);
    }
    if changes.len() == 0 {
        push_line(&mut lines, vec![lit("  ", Style::Plain), lit("changes: none", Style::Green)]);
    } else {
        push_line(
            &mut lines,
            vec![
                lit("  changes: ", Style::Plain),
                number(changes.len() as u64, Style::Yellow),
                lit(" total, ", Style::Plain),
                number(changed as u64, Style::Yellow),
                lit(" functions", Style::Plain),
            ],
        );
    }
    assert(lines_view(lines@) =~~= short_tail_spec(reasons@, cs));
    lines
}

// ---------------------------------------------------------------------------
// Module summary
// ---------------------------------------------------------------------------

/// The counts that an inspection reports beside a module.
#[derive(Debug, Clone, Copy, PartialEq, Eq, Structural)]
pub struct ModuleSummary {
    pub types: usize,
    pub imports: usize,
    pub exports: usize,
    pub functions: usize,
    pub defined_functions: usize,
    pub imported_functions: usize,
}

/// How many of the functions are of the given kind.
pub open spec fn kind_count(fs: Seq<FunctionIr>, kind: FunctionKindIr) -> nat
    decreases fs.len(),
{
    if fs.len() == 0 {
        0
    } else {
        kind_count(fs.drop_last(), kind) + if fs.last().kind == kind { 1nat } else { 0nat }
    }
}

/// The number of sections' items of a module, and of its functions by kind.
pub fn module_summary(module: &ModuleIr) -> (r: ModuleSummary)
    ensures
        r.types == module.types@.len(),
        r.imports == module.imports@.len(),
        r.exports == module.exports@.len(),
        r.functions == module.functions@.len(),
        r.defined_functions == kind_count(module.functions@, FunctionKindIr::Defined),
        r.imported_functions == kind_count(module.functions@, FunctionKindIr::Imported),
{
    let mut defined: usize = 0;
    let mut imported: usize = 0;
    let mut i: usize = 0;
    while i < module.functions.len()
        invariant
            i <= module.functions@.len(),
            defined == kind_count(module.functions@.take(i as int), FunctionKindIr::Defined),
            imported == kind_count(module.functions@.take(i as int), FunctionKindIr::Imported),
            defined + imported <= i,
        decreases module.functions@.len() - i,
    {
        proof {
            assert(module.functions@.take(i + 1).drop_last() =~= module.functions@.take(i as int));
            assert(module.functions@.take(i + 1).last() == module.functions@[i as int]);
        }
        match module.functions[i].kind {
            FunctionKindIr::Defined => {
                defined = defined + 1;
            },
            FunctionKindIr::Imported => {
                imported = imported + 1;
            },
        }
        i = i + 1;
    }
    assert(module.functions@.take(module.functions@.len() as int) =~= module.functions@);
    ModuleSummary {
        types: module.types.len(),
        imports: module.imports.len(),
        exports: module.exports.len(),
        functions: module.functions.len(),
        defined_functions: defined,
        imported_functions: imported,
    }
}

} // verus!
