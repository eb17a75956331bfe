//! Control-flow graph construction for one function body.
//!
//! Structural markers (`block`, `loop`, `else`, `end`, `catch`, `catch_all`)
//! do no work; the remaining, executable operators are grouped into basic
//! blocks that start at leaders, and each block ends with the edges of its
//! last operator.

use vstd::prelude::*;

use crate::ir::{
    same_operator, BasicBlockIr, CallSiteIr, CfgEdgeIr, CfgEdgeKindIr, FunctionIr, Immediate,
    FunctionCfgIr, ModuleIr, ParsedOperator,
};
use crate::opcode::{opcode_text, spec_is_structural_marker, Opcode};

verus! {

// ---------------------------------------------------------------------------
// Executable positions
// ---------------------------------------------------------------------------

/// An operator that does work (is not a structural marker).
pub open spec fn is_exec(op: ParsedOperator) -> bool {
    !spec_is_structural_marker(op.opcode)
}

/// The raw indices below `n` of the executable operators, in order.
pub open spec fn exec_positions_upto(ops: Seq<ParsedOperator>, n: int) -> Seq<usize>
    decreases n,
{
    if n <= 0 {
        Seq::empty()
    } else {
        let p = exec_positions_upto(ops, n - 1);
        if is_exec(ops[n - 1]) {
            p.push((n - 1) as usize)
        } else {
            p
        }
    }
}

/// The raw indices of all executable operators, in order.
pub open spec fn exec_positions(ops: Seq<ParsedOperator>) -> Seq<usize> {
    exec_positions_upto(ops, ops.len() as int)
}

/// Strictly increasing indices, all below `bound`.
pub open spec fn increasing_below(s: Seq<usize>, bound: int) -> bool {
    &&& forall|i: int, j: int| 0 <= i < j < s.len() ==> s[i] < s[j]
    &&& forall|i: int| 0 <= i < s.len() ==> s[i] < bound
}

pub proof fn lemma_exec_positions_upto(ops: Seq<ParsedOperator>, n: int)
    requires
        0 <= n <= ops.len() <= usize::MAX,
    ensures
        increasing_below(exec_positions_upto(ops, n), n),
        exec_positions_upto(ops, n).len() <= n,
        forall|i: int|
            0 <= i < exec_positions_upto(ops, n).len() ==> is_exec(
                ops[#[trigger] exec_positions_upto(ops, n)[i] as int],
            ),
        forall|r: int|
            0 <= r < n && is_exec(#[trigger] ops[r]) ==> exec_positions_upto(ops, n).contains(
                r as usize,
            ),
    decreases n,
{
    if n > 0 {
        lemma_exec_positions_upto(ops, n - 1);
        let p = exec_positions_upto(ops, n - 1);
        let c = exec_positions_upto(ops, n);
        if is_exec(ops[n - 1]) {
            assert(c == p.push((n - 1) as usize));
            assert forall|i: int, j: int| 0 <= i < j < c.len() implies c[i] < c[j] by {
                if j < p.len() {
                    assert(c[i] == p[i] && c[j] == p[j]);
                }
            }
            assert forall|i: int| 0 <= i < c.len() implies is_exec(ops[#[trigger] c[i] as int]) by {
                if i < p.len() {
                    assert(c[i] == p[i]);
                }
            }
        } else {
            assert(c == p);
        }
        assert forall|r: int| 0 <= r < n && is_exec(#[trigger] ops[r]) implies c.contains(
            r as usize,
        ) by {
            if r < n - 1 {
                let w = choose|w: int| 0 <= w < p.len() && p[w] == r as usize;
                assert(c[w] == r as usize);
            } else {
                assert(c[p.len() as int] == r as usize);
            }
        }
    }
}

/// Extending the prefix keeps the earlier positions.
pub proof fn lemma_exec_positions_prefix(ops: Seq<ParsedOperator>, m: int, n: int)
    requires
        0 <= m <= n <= ops.len() <= usize::MAX,
    ensures
        exec_positions_upto(ops, m).len() <= exec_positions_upto(ops, n).len(),
        forall|i: int|
            0 <= i < exec_positions_upto(ops, m).len() ==> #[trigger] exec_positions_upto(ops, m)[i]
                == exec_positions_upto(ops, n)[i],
    decreases n - m,
{
    if m < n {
        lemma_exec_positions_prefix(ops, m, n - 1);
    }
}

/// The position among executable operators of the executable operator at
/// raw index `r`.
pub open spec fn exec_index(ops: Seq<ParsedOperator>, r: int) -> int {
    exec_positions_upto(ops, r).len() as int
}

pub proof fn lemma_exec_index(ops: Seq<ParsedOperator>, r: int)
    requires
        0 <= r < ops.len() <= usize::MAX,
        is_exec(ops[r]),
    ensures
        0 <= exec_index(ops, r) < exec_positions(ops).len(),
        exec_positions(ops)[exec_index(ops, r)] == r,
{
    lemma_exec_positions_prefix(ops, r + 1, ops.len() as int);
    let p = exec_positions_upto(ops, r);
    assert(exec_positions_upto(ops, r + 1) == p.push(r as usize));
    assert(exec_positions_upto(ops, r + 1)[p.len() as int] == r as usize);
}

/// Raw indices of the executable operators.
fn executable_positions(operators: &Vec<ParsedOperator>) -> (r: Vec<usize>)
    ensures
        r@ == exec_positions(operators@),
{
    let mut r: Vec<usize> = Vec::new();
    let mut i: usize = 0;
    while i < operators.len()
        invariant
            i <= operators.len(),
            r@ == exec_positions_upto(operators@, i as int),
        decreases operators.len() - i,
    {
        if !operators[i].opcode.is_structural_marker() {
            r.push(i);
        }
        i = i + 1;
    }
    r
}

/// Maps raw indices to positions among `exec_positions`.
pub open spec fn position_map_ok(mapping: Seq<Option<usize>>, positions: Seq<usize>, len: int) -> bool {
    &&& mapping.len() == len
    &&& forall|e: int| 0 <= e < positions.len() ==> mapping[#[trigger] positions[e] as int] == Some(e as usize)
    &&& forall|r: int|
        0 <= r < len ==> (#[trigger] mapping[r] is None <==> !positions.contains(r as usize))
}

fn exec_positions_map(operators_len: usize, exec_positions: &Vec<usize>) -> (r: Vec<Option<usize>>)
    requires
        increasing_below(exec_positions@, operators_len as int),
    ensures
        position_map_ok(r@, exec_positions@, operators_len as int),
{
    let mut mapping: Vec<Option<usize>> = Vec::new();
    let mut i: usize = 0;
    while i < operators_len
        invariant
            i <= operators_len,
            mapping@.len() == i,
            forall|k: int| 0 <= k < i ==> mapping@[k] is None,
        decreases operators_len - i,
    {
        mapping.push(None);
        i = i + 1;
    }
    let mut e: usize = 0;
    while e < exec_positions.len()
        invariant
            increasing_below(exec_positions@, operators_len as int),
            e <= exec_positions.len(),
            mapping@.len() == operators_len,
            forall|k: int| 0 <= k < e ==> mapping@[#[trigger] exec_positions@[k] as int] == Some(k as usize),
            forall|r: int|
                0 <= r < operators_len ==> (#[trigger] mapping@[r] is None <==> !exec_positions@.subrange(
                    0,
                    e as int,
                ).contains(r as usize)),
        decreases exec_positions.len() - e,
    {
        let raw = exec_positions[e];
        mapping.set(raw, Some(e));
        proof {
            assert forall|r: int| 0 <= r < operators_len implies (#[trigger] mapping@[r] is None
                <==> !exec_positions@.subrange(0, e + 1).contains(r as usize)) by {
                let prev = exec_positions@.subrange(0, e as int);
                let next = exec_positions@.subrange(0, e + 1);
                if next.contains(r as usize) {
                    let w = choose|w: int| 0 <= w < next.len() && next[w] == r as usize;
                    if w < e {
                        assert(prev[w] == r as usize);
                    }
                }
                if prev.contains(r as usize) {
                    let w = choose|w: int| 0 <= w < prev.len() && prev[w] == r as usize;
                    assert(next[w] == r as usize);
                }
                if r == raw as int {
                    assert(next[e as int] == r as usize);
                }
            }
        }
        e = e + 1;
    }
    assert(exec_positions@.subrange(0, exec_positions@.len() as int) =~= exec_positions@);
    mapping
}

// ---------------------------------------------------------------------------
// Next executable operator
// ---------------------------------------------------------------------------

/// The first executable operator at raw index `j` or later.
pub open spec fn next_exec_from(ops: Seq<ParsedOperator>, j: int) -> Option<usize>
    decreases ops.len() - j,
{
    if j < 0 || j >= ops.len() {
        None
    } else if is_exec(ops[j]) {
        Some(j as usize)
    } else {
        next_exec_from(ops, j + 1)
    }
}

pub proof fn lemma_next_exec_from(ops: Seq<ParsedOperator>, j: int)
    requires
        0 <= j,
        ops.len() <= usize::MAX,
    ensures
        next_exec_from(ops, j) matches Some(k) ==> j <= k < ops.len() && is_exec(ops[k as int]),
    decreases ops.len() - j,
{
    if j < ops.len() && !is_exec(ops[j]) {
        lemma_next_exec_from(ops, j + 1);
    }
}

fn next_executable_indices(operators: &Vec<ParsedOperator>) -> (r: Vec<Option<usize>>)
    ensures
        r@.len() == operators@.len(),
        forall|i: int| 0 <= i < r@.len() ==> #[trigger] r@[i] == next_exec_from(operators@, i + 1),
{
    let n = operators.len();
    let mut next_exec: Vec<Option<usize>> = Vec::new();
    let mut i: usize = 0;
    while i < n
        invariant
            n == operators.len(),
            i <= n,
            next_exec@.len() == i,
        decreases n - i,
    {
        next_exec.push(None);
        i = i + 1;
    }
    let mut next: Option<usize> = None;
    let mut index: usize = n;
    while index > 0
        invariant
            n == operators.len(),
            index <= n,
            next_exec@.len() == n,
            next == next_exec_from(operators@, index as int),
            forall|k: int| index <= k < n ==> #[trigger] next_exec@[k] == next_exec_from(operators@, k + 1),
        decreases index,
    {
        index = index - 1;
        next_exec.set(index, next);
        if !operators[index].opcode.is_structural_marker() {
            next = Some(index);
        }
    }
    next_exec
}

// ---------------------------------------------------------------------------
// Structured-control frames
// ---------------------------------------------------------------------------

#[derive(Debug, Clone, Copy, PartialEq, Eq, Structural)]
pub enum FrameKind {
    Block,
    Loop,
    If,
}

/// A `block`, `loop`, `if` or catch clause and the raw indices of its
/// `else` and matching `end`.
#[derive(Debug, Clone, Copy, PartialEq, Eq, Structural)]
pub struct FrameInfo {
    pub kind: FrameKind,
    pub start_op: usize,
    pub end_op: Option<usize>,
    pub else_op: Option<usize>,
}

/// Frames and open-frame stack after one operator.
pub open spec fn frame_step(
    frames: Seq<FrameInfo>,
    stack: Seq<usize>,
    op: Opcode,
    index: usize,
) -> (Seq<FrameInfo>, Seq<usize>) {
    let open = |kind: FrameKind|
        (
            frames.push(FrameInfo { kind, start_op: index, end_op: None, else_op: None }),
            stack.push(frames.len() as usize),
        );
    match op {
        Opcode::Block => open(FrameKind::Block),
        Opcode::Loop => open(FrameKind::Loop),
        Opcode::If => open(FrameKind::If),
        Opcode::Catch => open(FrameKind::Block),
        Opcode::CatchAll => open(FrameKind::Block),
        Opcode::Else => if stack.len() > 0 {
            let f = stack.last() as int;
            (frames.update(f, FrameInfo { else_op: Some(index), ..frames[f] }), stack)
        } else {
            (frames, stack)
        },
        Opcode::End => if stack.len() > 0 {
            let f = stack.last() as int;
            (frames.update(f, FrameInfo { end_op: Some(index), ..frames[f] }), stack.drop_last())
        } else {
            (frames, stack)
        },
        _ => (frames, stack),
    }
}

/// Frames and open-frame stack after the first `n` operators.
pub open spec fn frames_upto(ops: Seq<ParsedOperator>, n: int) -> (Seq<FrameInfo>, Seq<usize>)
    decreases n,
{
    if n <= 0 {
        (Seq::empty(), Seq::empty())
    } else {
        let (f, s) = frames_upto(ops, n - 1);
        frame_step(f, s, ops[n - 1].opcode, (n - 1) as usize)
    }
}

/// All frames of a body, in the order they open.
pub open spec fn frames_of(ops: Seq<ParsedOperator>) -> Seq<FrameInfo> {
    frames_upto(ops, ops.len() as int).0
}

pub proof fn lemma_frames_upto(ops: Seq<ParsedOperator>, n: int)
    requires
        0 <= n <= ops.len() <= usize::MAX,
    ensures
        frames_upto(ops, n).1.len() <= frames_upto(ops, n).0.len() <= n,
        forall|k: int|
            0 <= k < frames_upto(ops, n).1.len() ==> #[trigger] frames_upto(ops, n).1[k]
                < frames_upto(ops, n).0.len(),
        forall|k: int|
            0 <= k < frames_upto(ops, n).0.len() ==> {
                &&& (#[trigger] frames_upto(ops, n).0[k]).end_op matches Some(e) ==> e < n
                &&& frames_upto(ops, n).0[k].else_op matches Some(e) ==> e < n
            },
    decreases n,
{
    if n > 0 {
        lemma_frames_upto(ops, n - 1);
    }
}

fn collect_frames(operators: &Vec<ParsedOperator>) -> (r: Vec<FrameInfo>)
    ensures
        r@ == frames_of(operators@),
{
    let mut frames: Vec<FrameInfo> = Vec::new();
    let mut stack: Vec<usize> = Vec::new();
    let mut index: usize = 0;
    while index < operators.len()
        invariant
            index <= operators.len(),
            frames@ == frames_upto(operators@, index as int).0,
            stack@ == frames_upto(operators@, index as int).1,
        decreases operators.len() - index,
    {
        proof {
            lemma_frames_upto(operators@, index as int);
        }
        let start = FrameInfo { kind: FrameKind::Block, start_op: index, end_op: None, else_op: None };
        match operators[index].opcode {
            Opcode::Block => {
                stack.push(frames.len());
                frames.push(start);
            },
            Opcode::Loop => {
                stack.push(frames.len());
                frames.push(FrameInfo { kind: FrameKind::Loop, ..start });
            },
            Opcode::If => {
                stack.push(frames.len());
                frames.push(FrameInfo { kind: FrameKind::If, ..start });
            },
            Opcode::Catch | Opcode::CatchAll => {
                stack.push(frames.len());
                frames.push(start);
            },
            Opcode::Else => {
                if stack.len() > 0 {
                    let f = stack[stack.len() - 1];
                    let frame = frames[f];
                    frames.set(f, FrameInfo { else_op: Some(index), ..frame });
                }
            },
            Opcode::End => {
                if let Some(f) = stack.pop() {
                    let frame = frames[f];
                    frames.set(f, FrameInfo { end_op: Some(index), ..frame });
                }
            },
            _ => {},
        }
        index = index + 1;
        proof {
            assert(frames@ =~= frames_upto(operators@, index as int).0);
            assert(stack@ =~= frames_upto(operators@, index as int).1);
        }
    }
    frames
}

// ---------------------------------------------------------------------------
// Leaders
// ---------------------------------------------------------------------------

/// Opcodes that open a frame in the left-to-right scan.
pub open spec fn opens_frame(op: Opcode) -> bool {
    op is Block || op is Loop || op is Catch || op is CatchAll || op is If
}

/// Opcodes that end a basic block.
pub open spec fn spec_is_block_ending(op: Opcode) -> bool {
    op is If || op is Br || op is BrIf || op is BrTable || op is Return || op is Unreachable
        || op is Throw || op is ThrowRef || op is Rethrow || op is Delegate || op is ReturnCall
        || op is ReturnCallIndirect || op is ReturnCallRef || op is TryTable || op is BrOnNull
        || op is BrOnNonNull || op is BrOnCast || op is BrOnCastFail
}

fn is_block_ending_opcode(opcode: &Opcode) -> (r: bool)
    ensures
        r == spec_is_block_ending(*opcode),
{
    match opcode {
        Opcode::If | Opcode::Br | Opcode::BrIf | Opcode::BrTable | Opcode::Return
        | Opcode::Unreachable | Opcode::Throw | Opcode::ThrowRef | Opcode::Rethrow
        | Opcode::Delegate | Opcode::ReturnCall | Opcode::ReturnCallIndirect
        | Opcode::ReturnCallRef | Opcode::TryTable | Opcode::BrOnNull | Opcode::BrOnNonNull
        | Opcode::BrOnCast | Opcode::BrOnCastFail => true,
        _ => false,
    }
}

/// The open-frame stack and the next frame number before raw index `n`.
pub open spec fn scan_upto(ops: Seq<ParsedOperator>, n: int) -> (Seq<usize>, nat)
    decreases n,
{
    if n <= 0 {
        (Seq::empty(), 0)
    } else {
        let (stack, id) = scan_upto(ops, n - 1);
        let op = ops[n - 1].opcode;
        if opens_frame(op) {
            (stack.push(id as usize), id + 1)
        } else if op is End && stack.len() > 0 {
            (stack.drop_last(), id)
        } else {
            (stack, id)
        }
    }
}

pub proof fn lemma_scan_upto(ops: Seq<ParsedOperator>, n: int)
    requires
        0 <= n <= ops.len(),
    ensures
        scan_upto(ops, n).1 <= n,
        forall|k: int| 0 <= k < scan_upto(ops, n).0.len() ==> #[trigger] scan_upto(ops, n).0[k] < scan_upto(ops, n).1,
    decreases n,
{
    if n > 0 {
        lemma_scan_upto(ops, n - 1);
    }
}

/// Where an `if` continues when its condition is false: after its `else`,
/// or after its `end` when it has none.
pub open spec fn if_false_target(
    ops: Seq<ParsedOperator>,
    frames: Seq<FrameInfo>,
    frame_id: int,
) -> Option<usize> {
    if 0 <= frame_id < frames.len() {
        match frames[frame_id].else_op {
            Some(e) => next_exec_from(ops, e + 1),
            None => match frames[frame_id].end_op {
                Some(e) => next_exec_from(ops, e + 1),
                None => None,
            },
        }
    } else {
        None
    }
}

/// Sets leader flag `e`.
pub open spec fn set_leader(leaders: Seq<bool>, e: int) -> Seq<bool> {
    if 0 <= e < leaders.len() {
        leaders.update(e, true)
    } else {
        leaders
    }
}

/// Marks as a leader the executable operator at raw index `target`.
pub open spec fn mark_leader(
    leaders: Seq<bool>,
    ops: Seq<ParsedOperator>,
    target: Option<usize>,
) -> Seq<bool> {
    match target {
        Some(raw) => if raw < ops.len() && is_exec(ops[raw as int]) {
            set_leader(leaders, exec_index(ops, raw as int))
        } else {
            leaders
        },
        None => leaders,
    }
}

/// Leader flags (one per executable operator) and whether the previous
/// executable operator ended a block, after scanning `n` raw operators.
pub open spec fn leaders_upto(ops: Seq<ParsedOperator>, n: int) -> (Seq<bool>, bool)
    decreases n,
{
    if n <= 0 {
        (Seq::new(exec_positions(ops).len(), |e: int| e == 0), true)
    } else {
        let (leaders, prev) = leaders_upto(ops, n - 1);
        let i = n - 1;
        let op = ops[i].opcode;
        if !is_exec(ops[i]) {
            (leaders, true)
        } else {
            let l1 = if prev {
                set_leader(leaders, exec_index(ops, i))
            } else {
                leaders
            };
            let l2 = if op is If {
                mark_leader(
                    mark_leader(l1, ops, next_exec_from(ops, i + 1)),
                    ops,
                    if_false_target(ops, frames_of(ops), scan_upto(ops, i).1 as int),
                )
            } else if spec_is_block_ending(op) {
                mark_leader(l1, ops, next_exec_from(ops, i + 1))
            } else {
                l1
            };
            (l2, spec_is_block_ending(op))
        }
    }
}

/// The leader flags of a body: the first executable operator, every
/// executable operator after a structural marker or after a block-ending
/// operator, and every branch target.
pub open spec fn leaders_of(ops: Seq<ParsedOperator>) -> Seq<bool> {
    leaders_upto(ops, ops.len() as int).0
}

pub proof fn lemma_leaders_len(ops: Seq<ParsedOperator>, n: int)
    requires
        0 <= n <= ops.len(),
    ensures
        leaders_upto(ops, n).0.len() == exec_positions(ops).len(),
    decreases n,
{
    if n > 0 {
        lemma_leaders_len(ops, n - 1);
    }
}

/// The raw operator at `p` starts a basic block: it is the first operator,
/// or the operator before it is a structural marker or ends a block.
pub open spec fn starts_block(ops: Seq<ParsedOperator>, p: int) -> bool {
    p == 0 || !is_exec(ops[p - 1]) || spec_is_block_ending(ops[p - 1].opcode)
}

/// Every operator that `next_exec_from` passes over is a structural marker.
pub proof fn lemma_next_exec_skips(ops: Seq<ParsedOperator>, j: int)
    requires
        0 <= j,
        ops.len() <= usize::MAX,
    ensures
        next_exec_from(ops, j) matches Some(t) ==> j <= t < ops.len() && is_exec(ops[t as int])
            && forall|k: int| j <= k < t ==> !is_exec(#[trigger] ops[k]),
    decreases ops.len() - j,
{
    if j < ops.len() && !is_exec(ops[j]) {
        lemma_next_exec_skips(ops, j + 1);
    }
}

/// A frame's `else` and `end` positions hold `else` and `end` operators.
pub proof fn lemma_frames_markers(ops: Seq<ParsedOperator>, n: int)
    requires
        0 <= n <= ops.len() <= usize::MAX,
    ensures
        forall|k: int|
            0 <= k < frames_upto(ops, n).0.len() ==> {
                &&& (#[trigger] frames_upto(ops, n).0[k]).end_op matches Some(e) ==> e < n && ops[e as int].opcode is End
                &&& frames_upto(ops, n).0[k].else_op matches Some(e) ==> e < n && ops[e as int].opcode is Else
            },
    decreases n,
{
    if n > 0 {
        lemma_frames_markers(ops, n - 1);
        lemma_frames_upto(ops, n - 1);
    }
}

/// The leader flags of `n` scanned operators mark only block starts, and
/// below `n` exactly the block starts; the pending flag says whether the
/// operator at `n` starts a block.
pub open spec fn leaders_exact(ops: Seq<ParsedOperator>, leaders: Seq<bool>, prev: bool, n: int) -> bool {
    let pos = exec_positions(ops);
    &&& leaders.len() == pos.len()
    &&& prev == starts_block(ops, n)
    &&& forall|e: int| 0 <= e < pos.len() && #[trigger] leaders[e] ==> starts_block(ops, pos[e] as int)
    &&& forall|e: int| 0 <= e < pos.len() && pos[e] < n ==> leaders[e] == starts_block(ops, #[trigger] pos[e] as int)
}

/// Marking an executable operator that starts a block keeps the flags exact.
proof fn lemma_mark_exact(ops: Seq<ParsedOperator>, leaders: Seq<bool>, prev: bool, n: int, target: Option<usize>)
    requires
        ops.len() <= usize::MAX,
        leaders_exact(ops, leaders, prev, n),
        target matches Some(t) ==> t < ops.len() && is_exec(ops[t as int]) ==> starts_block(ops, t as int),
    ensures
        leaders_exact(ops, mark_leader(leaders, ops, target), prev, n),
{
    if let Some(t) = target {
        if t < ops.len() && is_exec(ops[t as int]) {
            lemma_exec_index(ops, t as int);
            let x = exec_index(ops, t as int);
            let pos = exec_positions(ops);
            let l2 = mark_leader(leaders, ops, target);
            assert(l2 == leaders.update(x, true));
            assert forall|e: int| 0 <= e < pos.len() && #[trigger] l2[e] implies starts_block(ops, pos[e] as int) by {
                if e != x {
                    assert(l2[e] == leaders[e]);
                }
            }
            assert forall|e: int| 0 <= e < pos.len() && pos[e] < n implies l2[e] == starts_block(ops, #[trigger] pos[e] as int) by {
                if e != x {
                    assert(l2[e] == leaders[e]);
                }
            }
        }
    }
}

/// Scanning the operators keeps the leader flags exact.
pub proof fn lemma_leaders_exact(ops: Seq<ParsedOperator>, n: int)
    requires
        0 <= n <= ops.len() <= usize::MAX,
    ensures
        leaders_exact(ops, leaders_upto(ops, n).0, leaders_upto(ops, n).1, n),
    decreases n,
{
    let pos = exec_positions(ops);
    lemma_exec_positions_upto(ops, ops.len() as int);
    if n == 0 {
        let l = leaders_upto(ops, 0).0;
        assert forall|e: int| 0 <= e < pos.len() && #[trigger] l[e] implies starts_block(ops, pos[e] as int) by {
            let p = pos[e] as int;
            if p > 0 && is_exec(ops[p - 1]) {
                lemma_exec_index(ops, p - 1);
                lemma_exec_index_inverse(ops, e);
                let y = exec_index(ops, p - 1);
                if y >= e {
                    assert(pos[e] <= pos[y]);
                }
            }
        }
    } else {
        lemma_leaders_exact(ops, n - 1);
        lemma_leaders_len(ops, n - 1);
        let (leaders, prev) = leaders_upto(ops, n - 1);
        let i = n - 1;
        let op = ops[i].opcode;
        if !is_exec(ops[i]) {
            assert forall|e: int| 0 <= e < pos.len() && pos[e] < n implies leaders[e] == starts_block(ops, #[trigger] pos[e] as int) by {
                assert(is_exec(ops[pos[e] as int]));
            }
        } else {
            lemma_exec_index(ops, i);
            let x = exec_index(ops, i);
            let l1 = if prev { set_leader(leaders, x) } else { leaders };
            assert(leaders_exact(ops, l1, starts_block(ops, n), n)) by {
                assert forall|e: int| 0 <= e < pos.len() && #[trigger] l1[e] implies starts_block(ops, pos[e] as int) by {
                    if e != x {
                        assert(l1[e] == leaders[e]);
                    }
                }
                assert forall|e: int| 0 <= e < pos.len() && pos[e] < n implies l1[e] == starts_block(ops, #[trigger] pos[e] as int) by {
                    lemma_exec_index_inverse(ops, e);
                    if e != x {
                        assert(l1[e] == leaders[e]);
                        assert(pos[e] != i);
                    }
                }
            }
            let next = next_exec_from(ops, i + 1);
            lemma_next_exec_skips(ops, i + 1);
            if op is If || spec_is_block_ending(op) {
                assert(next matches Some(t) ==> t < ops.len() && is_exec(ops[t as int]) ==> starts_block(ops, t as int)) by {
                    if let Some(t) = next {
                        if t > i + 1 {
                            assert(!is_exec(ops[t - 1]));
                        }
                    }
                }
                lemma_mark_exact(ops, l1, starts_block(ops, n), n, next);
            }
            if op is If {
                let frames = frames_of(ops);
                let fid = scan_upto(ops, i).1 as int;
                let target = if_false_target(ops, frames, fid);
                lemma_frames_markers(ops, ops.len() as int);
                if 0 <= fid < frames.len() {
                    let f = frames[fid];
                    match f.else_op {
                        Some(e) => {
                            lemma_next_exec_skips(ops, e + 1);
                        },
                        None => match f.end_op {
                            Some(e) => {
                                lemma_next_exec_skips(ops, e + 1);
                            },
                            None => {},
                        },
                    }
                }
                assert(target matches Some(t) ==> t < ops.len() && is_exec(ops[t as int]) ==> starts_block(ops, t as int)) by {
                    if 0 <= fid < frames.len() {
                        let f = frames[fid];
                        if let Some(t) = target {
                            let e: int = match f.else_op {
                                Some(e) => e as int,
                                None => match f.end_op {
                                    Some(e) => e as int,
                                    None => 0,
                                },
                            };
                            assert(!is_exec(ops[e]));
                            if t > e + 1 {
                                assert(!is_exec(ops[t - 1]));
                            }
                        }
                    }
                }
                let m1 = mark_leader(l1, ops, next);
                lemma_mark_exact(ops, m1, starts_block(ops, n), n, target);
            }
        }
    }
}

fn mark_exec_target(
    leaders: &mut Vec<bool>,
    target: Option<usize>,
    raw_to_exec_pos: &Vec<Option<usize>>,
    Ghost(ops): Ghost<Seq<ParsedOperator>>,
)
    requires
        ops.len() <= usize::MAX,
        old(leaders)@.len() == exec_positions(ops).len(),
        position_map_ok(raw_to_exec_pos@, exec_positions(ops), ops.len() as int),
        target matches Some(raw) ==> raw < ops.len() && is_exec(ops[raw as int]),
    ensures
        final(leaders)@ == mark_leader(old(leaders)@, ops, target),
{
    if let Some(raw) = target {
        proof {
            lemma_exec_index(ops, raw as int);
            lemma_exec_positions_upto(ops, ops.len() as int);
            let e = exec_index(ops, raw as int);
            assert(raw_to_exec_pos@[exec_positions(ops)[e] as int] == Some(e as usize));
        }
        if let Some(t) = raw_to_exec_pos[raw] {
            leaders.set(t, true);
        }
    }
}

fn block_leaders(
    operators: &Vec<ParsedOperator>,
    exec_positions: &Vec<usize>,
    raw_to_exec_pos: &Vec<Option<usize>>,
    frames: &Vec<FrameInfo>,
    next_exec: &Vec<Option<usize>>,
) -> (r: Vec<bool>)
    requires
        exec_positions@ == crate::cfg::exec_positions(operators@),
        position_map_ok(raw_to_exec_pos@, exec_positions@, operators@.len() as int),
        frames@ == frames_of(operators@),
        next_exec@.len() == operators@.len(),
        forall|i: int| 0 <= i < next_exec@.len() ==> #[trigger] next_exec@[i] == next_exec_from(operators@, i + 1),
    ensures
        r@ == leaders_of(operators@),
{
    let ghost ops = operators@;
    let mut leaders: Vec<bool> = Vec::new();
    let mut e: usize = 0;
    while e < exec_positions.len()
        invariant
            e <= exec_positions.len(),
            leaders@ =~= Seq::new(e as nat, |k: int| k == 0),
        decreases exec_positions.len() - e,
    {
        leaders.push(e == 0);
        e = e + 1;
    }
    if exec_positions.len() == 0 {
        proof {
            lemma_leaders_len(ops, ops.len() as int);
        }
        assert(leaders@ =~= leaders_of(ops));
        return leaders;
    }
    proof {
        assert(ops.len() == operators.len());
        lemma_frames_upto(ops, ops.len() as int);
    }
    let mut next_frame_id: usize = 0;
    let mut previous_was_boundary = true;
    let mut raw_index: usize = 0;
    while raw_index < operators.len()
        invariant
            ops == operators@,
            raw_index <= ops.len(),
            exec_positions@ == crate::cfg::exec_positions(ops),
            position_map_ok(raw_to_exec_pos@, exec_positions@, ops.len() as int),
            frames@ == frames_of(ops),
            forall|k: int| 0 <= k < frames@.len() ==> {
                &&& (#[trigger] frames@[k]).end_op matches Some(x) ==> x < ops.len()
                &&& frames@[k].else_op matches Some(x) ==> x < ops.len()
            },
            next_exec@.len() == ops.len(),
            forall|i: int| 0 <= i < next_exec@.len() ==> #[trigger] next_exec@[i] == next_exec_from(ops, i + 1),
            leaders@ == leaders_upto(ops, raw_index as int).0,
            previous_was_boundary == leaders_upto(ops, raw_index as int).1,
            next_frame_id == scan_upto(ops, raw_index as int).1,
        decreases ops.len() - raw_index,
    {
        proof {
            lemma_scan_upto(ops, raw_index as int);
            lemma_leaders_len(ops, raw_index as int);
        }
        let operator = &operators[raw_index];
        if operator.opcode.is_structural_marker() {
            match operator.opcode {
                Opcode::Block | Opcode::Loop | Opcode::Catch | Opcode::CatchAll => {
                    next_frame_id = next_frame_id + 1;
                },
                _ => {},
            }
            previous_was_boundary = true;
        } else {
            proof {
                lemma_exec_index(ops, raw_index as int);
                lemma_exec_positions_upto(ops, ops.len() as int);
                lemma_next_exec_from(ops, raw_index + 1);
                let e = exec_index(ops, raw_index as int);
                assert(raw_to_exec_pos@[exec_positions@[e] as int] == Some(e as usize));
            }
            let exec_pos = match raw_to_exec_pos[raw_index] {
                Some(p) => p,
                None => {
                    assert(false);
                    0
                },
            };
            if previous_was_boundary {
                leaders.set(exec_pos, true);
            }
            match operator.opcode {
                Opcode::If => {
                    mark_exec_target(&mut leaders, next_exec[raw_index], raw_to_exec_pos, Ghost(ops));
                    if next_frame_id < frames.len() {
                        let frame = frames[next_frame_id];
                        if let Some(else_op) = frame.else_op {
                            proof { lemma_next_exec_from(ops, else_op + 1); }
                            mark_exec_target(&mut leaders, next_exec[else_op], raw_to_exec_pos, Ghost(ops));
                        } else if let Some(end_op) = frame.end_op {
                            proof { lemma_next_exec_from(ops, end_op + 1); }
                            mark_exec_target(&mut leaders, next_exec[end_op], raw_to_exec_pos, Ghost(ops));
                        }
                    }
                    next_frame_id = next_frame_id + 1;
                },
                _ => {
                    if is_block_ending_opcode(&operator.opcode) {
                        mark_exec_target(&mut leaders, next_exec[raw_index], raw_to_exec_pos, Ghost(ops));
                    }
                },
            }
            previous_was_boundary = is_block_ending_opcode(&operator.opcode);
        }
        raw_index = raw_index + 1;
    }
    leaders
}

pub proof fn lemma_exec_index_inverse(ops: Seq<ParsedOperator>, e: int)
    requires
        ops.len() <= usize::MAX,
        0 <= e < exec_positions(ops).len(),
    ensures
        is_exec(ops[exec_positions(ops)[e] as int]),
        exec_index(ops, exec_positions(ops)[e] as int) == e,
{
    lemma_exec_positions_upto(ops, ops.len() as int);
    let r = exec_positions(ops)[e] as int;
    lemma_exec_index(ops, r);
    let e2 = exec_index(ops, r);
    if e2 < e {
        assert(exec_positions(ops)[e2] < exec_positions(ops)[e]);
    } else if e2 > e {
        assert(exec_positions(ops)[e] < exec_positions(ops)[e2]);
    }
}

// ---------------------------------------------------------------------------
// Basic blocks
// ---------------------------------------------------------------------------

/// The positions below `n` whose leader flag is set, in order.
pub open spec fn starts_upto(leaders: Seq<bool>, n: int) -> Seq<int>
    decreases n,
{
    if n <= 0 {
        Seq::empty()
    } else {
        let p = starts_upto(leaders, n - 1);
        if leaders[n - 1] {
            p.push(n - 1)
        } else {
            p
        }
    }
}

/// The positions that start a basic block.
pub open spec fn leader_starts(leaders: Seq<bool>) -> Seq<int> {
    starts_upto(leaders, leaders.len() as int)
}

/// The last position of block `k`: just before the next start, or the last
/// position overall.
pub open spec fn block_end(starts: Seq<int>, k: int, count: int) -> int {
    if k + 1 < starts.len() {
        starts[k + 1] - 1
    } else {
        count - 1
    }
}

/// The block that holds position `e`: one less than the number of starts
/// at or before `e`.
pub open spec fn block_index(leaders: Seq<bool>, e: int) -> int {
    starts_upto(leaders, e + 1).len() - 1
}

pub proof fn lemma_starts_upto(leaders: Seq<bool>, n: int)
    requires
        0 <= n <= leaders.len(),
    ensures
        starts_upto(leaders, n).len() <= n,
        forall|i: int, j: int|
            0 <= i < j < starts_upto(leaders, n).len() ==> starts_upto(leaders, n)[i]
                < starts_upto(leaders, n)[j],
        forall|i: int|
            0 <= i < starts_upto(leaders, n).len() ==> 0 <= #[trigger] starts_upto(leaders, n)[i] < n
                && leaders[starts_upto(leaders, n)[i]],
        n > 0 && leaders[0] ==> starts_upto(leaders, n).len() > 0 && starts_upto(leaders, n)[0]
            == 0,
    decreases n,
{
    if n > 0 {
        lemma_starts_upto(leaders, n - 1);
        if n - 1 == 0 && leaders[0] {
            assert(starts_upto(leaders, n)[0] == 0);
        }
        if n > 1 && leaders[0] {
            assert(starts_upto(leaders, n)[0] == starts_upto(leaders, n - 1)[0]);
        }
    }
}

pub proof fn lemma_starts_prefix(leaders: Seq<bool>, m: int, n: int)
    requires
        0 <= m <= n <= leaders.len(),
    ensures
        starts_upto(leaders, m).len() <= starts_upto(leaders, n).len(),
        forall|i: int|
            0 <= i < starts_upto(leaders, m).len() ==> #[trigger] starts_upto(leaders, m)[i]
                == starts_upto(leaders, n)[i],
        forall|i: int|
            starts_upto(leaders, m).len() <= i < starts_upto(leaders, n).len() ==> m
                <= #[trigger] starts_upto(leaders, n)[i],
    decreases n - m,
{
    if m < n {
        lemma_starts_prefix(leaders, m, n - 1);
        lemma_starts_upto(leaders, n);
    }
}

/// Every position of block `k` lies in block `k`.
pub proof fn lemma_block_index(leaders: Seq<bool>, k: int, e: int)
    requires
        leaders.len() > 0,
        leaders[0],
        0 <= k < leader_starts(leaders).len(),
        leader_starts(leaders)[k] <= e <= block_end(leader_starts(leaders), k, leaders.len() as int),
    ensures
        0 <= e < leaders.len(),
        block_index(leaders, e) == k,
{
    let n = leaders.len() as int;
    let starts = leader_starts(leaders);
    lemma_starts_upto(leaders, n);
    lemma_starts_prefix(leaders, e + 1, n);
    let p = starts_upto(leaders, e + 1);
    lemma_starts_upto(leaders, e + 1);
    // every start up to k is at most e, so it is among the starts below e + 1
    if p.len() <= k {
        assert(e + 1 <= starts[p.len() as int]);
        assert(starts[p.len() as int] <= starts[k]);
    }
    // no start after k is at most e
    if p.len() > k + 1 {
        assert(starts[k + 1] == p[k + 1]);
        assert(p[k + 1] <= e);
    }
}

/// The block of one run of executable operators, `start ..= end` in
/// positions among executable operators.
pub open spec fn block_built(
    block: BasicBlockIr,
    id: int,
    ops: Seq<ParsedOperator>,
    positions: Seq<usize>,
    start: int,
    end: int,
) -> bool {
    &&& block.id == id
    &&& block.operator_indices@ == positions.subrange(start, end + 1)
    &&& block.operators@.len() == end + 1 - start
    &&& forall|j: int|
        0 <= j < block.operators@.len() ==> same_operator(
            #[trigger] block.operators@[j],
            ops[positions[start + j] as int],
        )
    &&& block.start_operator_index == positions[start]
    &&& block.end_operator_index == positions[end]
    &&& block.start_offset == Some(ops[positions[start] as int].offset)
    &&& block.end_offset == Some(ops[positions[end] as int].offset)
}

fn build_block(
    id: usize,
    operators: &Vec<ParsedOperator>,
    exec_positions: &Vec<usize>,
    start_exec_pos: usize,
    end_exec_pos: usize,
) -> (r: BasicBlockIr)
    requires
        start_exec_pos <= end_exec_pos < exec_positions@.len(),
        forall|e: int| 0 <= e < exec_positions@.len() ==> #[trigger] exec_positions@[e] < operators@.len(),
    ensures
        block_built(r, id as int, operators@, exec_positions@, start_exec_pos as int, end_exec_pos as int),
        r.successors@.len() == 0,
{
    let mut operator_indices: Vec<usize> = Vec::new();
    let mut block_operators: Vec<ParsedOperator> = Vec::new();
    let total = exec_positions.len();
    let mut e = start_exec_pos;
    while e <= end_exec_pos
        invariant
            total == exec_positions@.len(),
            start_exec_pos <= e <= end_exec_pos + 1,
            end_exec_pos < exec_positions@.len(),
            forall|x: int| 0 <= x < exec_positions@.len() ==> #[trigger] exec_positions@[x] < operators@.len(),
            operator_indices@ == exec_positions@.subrange(start_exec_pos as int, e as int),
            block_operators@.len() == e - start_exec_pos,
            forall|j: int|
                0 <= j < block_operators@.len() ==> same_operator(
                    #[trigger] block_operators@[j],
                    operators@[exec_positions@[start_exec_pos + j] as int],
                ),
        decreases end_exec_pos + 1 - e,
    {
        let raw = exec_positions[e];
        operator_indices.push(raw);
        block_operators.push(operators[raw].copy());
        proof {
            assert(operator_indices@ =~= exec_positions@.subrange(start_exec_pos as int, e + 1));
        }
        e = e + 1;
    }
    let first_raw = exec_positions[start_exec_pos];
    let last_raw = exec_positions[end_exec_pos];
    BasicBlockIr {
        id,
        start_operator_index: first_raw,
        end_operator_index: last_raw,
        start_offset: Some(operators[first_raw].offset),
        end_offset: Some(operators[last_raw].offset),
        operator_indices,
        operators: block_operators,
        successors: Vec::new(),
    }
}

/// The blocks of a body: one per leader, each running to just before the
/// next leader.
pub open spec fn blocks_built(
    blocks: Seq<BasicBlockIr>,
    ops: Seq<ParsedOperator>,
    positions: Seq<usize>,
    leaders: Seq<bool>,
) -> bool {
    let starts = leader_starts(leaders);
    &&& blocks.len() == starts.len()
    &&& forall|k: int|
        0 <= k < blocks.len() ==> block_built(
            #[trigger] blocks[k],
            k,
            ops,
            positions,
            starts[k],
            block_end(starts, k, positions.len() as int),
        )
}

fn build_blocks(
    function: &FunctionIr,
    operators: &Vec<ParsedOperator>,
    exec_positions: &Vec<usize>,
    leaders: &Vec<bool>,
) -> (r: Vec<BasicBlockIr>)
    requires
        leaders@.len() == exec_positions@.len(),
        leaders@.len() > 0 ==> leaders@[0],
        forall|e: int| 0 <= e < exec_positions@.len() ==> #[trigger] exec_positions@[e] < operators@.len(),
    ensures
        blocks_built(r@, operators@, exec_positions@, leaders@),
        forall|k: int| 0 <= k < r@.len() ==> (#[trigger] r@[k]).successors@.len() == 0,
{
    let n = leaders.len();
    let mut starts: Vec<usize> = Vec::new();
    let mut e: usize = 0;
    while e < n
        invariant
            n == leaders@.len(),
            e <= n,
            starts@.len() == starts_upto(leaders@, e as int).len(),
            forall|k: int| 0 <= k < starts@.len() ==> starts@[k] as int == #[trigger] starts_upto(leaders@, e as int)[k],
        decreases n - e,
    {
        if leaders[e] {
            starts.push(e);
        }
        e = e + 1;
    }
    let ghost sp = leader_starts(leaders@);
    proof {
        lemma_starts_upto(leaders@, n as int);
    }
    let mut blocks: Vec<BasicBlockIr> = Vec::new();
    let mut k: usize = 0;
    while k < starts.len()
        invariant
            n == leaders@.len(),
            n == exec_positions@.len(),
            sp == leader_starts(leaders@),
            starts@.len() == sp.len(),
            forall|x: int| 0 <= x < starts@.len() ==> starts@[x] as int == #[trigger] sp[x],
            forall|i: int, j: int| 0 <= i < j < sp.len() ==> sp[i] < sp[j],
            forall|i: int| 0 <= i < sp.len() ==> 0 <= #[trigger] sp[i] < n,
            forall|x: int| 0 <= x < exec_positions@.len() ==> #[trigger] exec_positions@[x] < operators@.len(),
            k <= starts.len(),
            blocks@.len() == k,
            forall|j: int|
                0 <= j < k ==> block_built(
                    #[trigger] blocks@[j],
                    j,
                    operators@,
                    exec_positions@,
                    sp[j],
                    block_end(sp, j, n as int),
                ),
            forall|j: int| 0 <= j < k ==> (#[trigger] blocks@[j]).successors@.len() == 0,
        decreases starts.len() - k,
    {
        let start = starts[k];
        assert(starts@[k as int] as int == sp[k as int]);
        let end = if k + 1 < starts.len() {
            assert(starts@[k + 1] as int == sp[k + 1]);
            assert(sp[k as int] < sp[k + 1]);
            starts[k + 1] - 1
        } else {
            n - 1
        };
        blocks.push(build_block(k, operators, exec_positions, start, end));
        k = k + 1;
    }
    if blocks.len() == 0 && exec_positions.len() > 0 {
        assert(sp.len() > 0);
        blocks.push(build_block(0, operators, exec_positions, 0, exec_positions.len() - 1));
    }
    let _ = function;
    blocks
}

/// Every position lies in the block that `block_index` names.
pub proof fn lemma_block_index_range(leaders: Seq<bool>, e: int)
    requires
        leaders.len() > 0,
        leaders[0],
        0 <= e < leaders.len(),
    ensures
        0 <= block_index(leaders, e) < leader_starts(leaders).len(),
        leader_starts(leaders)[block_index(leaders, e)] <= e <= block_end(
            leader_starts(leaders),
            block_index(leaders, e),
            leaders.len() as int,
        ),
{
    let n = leaders.len() as int;
    let starts = leader_starts(leaders);
    let p = starts_upto(leaders, e + 1);
    lemma_starts_upto(leaders, e + 1);
    lemma_starts_upto(leaders, n);
    lemma_starts_prefix(leaders, e + 1, n);
    let k = p.len() - 1;
    assert(starts[k] == p[k]);
    if k + 1 < starts.len() {
        assert(e + 1 <= starts[k + 1]);
    }
}

/// For each raw index, the block holding it (none for structural markers).
pub open spec fn lookup_ok(lookup: Seq<Option<usize>>, ops: Seq<ParsedOperator>, leaders: Seq<bool>) -> bool {
    &&& lookup.len() == ops.len()
    &&& forall|r: int|
        0 <= r < ops.len() ==> #[trigger] lookup[r] == if is_exec(ops[r]) {
            Some(block_index(leaders, exec_index(ops, r)) as usize)
        } else {
            None
        }
}

fn block_lookup(
    blocks: &Vec<BasicBlockIr>,
    operators_len: usize,
    Ghost(ops): Ghost<Seq<ParsedOperator>>,
    Ghost(leaders): Ghost<Seq<bool>>,
) -> (r: Vec<Option<usize>>)
    requires
        ops.len() == operators_len,
        leaders.len() == exec_positions(ops).len(),
        leaders.len() > 0 ==> leaders[0],
        blocks_built(blocks@, ops, exec_positions(ops), leaders),
    ensures
        lookup_ok(r@, ops, leaders),
{
    let ghost positions = exec_positions(ops);
    let ghost starts = leader_starts(leaders);
    let mut lookup: Vec<Option<usize>> = Vec::new();
    let mut i: usize = 0;
    while i < operators_len
        invariant
            i <= operators_len,
            lookup@.len() == i,
            forall|x: int| 0 <= x < i ==> lookup@[x] is None,
        decreases operators_len - i,
    {
        lookup.push(None);
        i = i + 1;
    }
    proof {
        lemma_exec_positions_upto(ops, ops.len() as int);
        lemma_starts_upto(leaders, leaders.len() as int);
    }
    let mut k: usize = 0;
    while k < blocks.len()
        invariant
            ops.len() == operators_len,
            leaders.len() == positions.len(),
            positions == exec_positions(ops),
            starts == leader_starts(leaders),
            leaders.len() > 0 ==> leaders[0],
            blocks_built(blocks@, ops, positions, leaders),
            increasing_below(positions, ops.len() as int),
            positions.len() <= ops.len(),
            k <= blocks@.len(),
            lookup@.len() == operators_len,
            forall|r: int|
                0 <= r < operators_len ==> #[trigger] lookup@[r] == if is_exec(ops[r])
                    && 0 <= block_index(leaders, exec_index(ops, r)) < k {
                    Some(block_index(leaders, exec_index(ops, r)) as usize)
                } else {
                    None
                },
        decreases blocks@.len() - k,
    {
        let block = &blocks[k];
        proof {
            lemma_starts_upto(leaders, leaders.len() as int);
        }
        let ghost start = starts[k as int];
        let ghost end = block_end(starts, k as int, positions.len() as int);
        assert(block_built(blocks@[k as int], k as int, ops, positions, start, end));
        proof {
            assert forall|r: int|
                0 <= r < operators_len && is_exec(ops[r]) && block_index(leaders, exec_index(ops, r))
                    == k implies exec_index(ops, r) >= start by {
                lemma_exec_index(ops, r);
                lemma_block_index_range(leaders, exec_index(ops, r));
            }
        }
        let mut j: usize = 0;
        while j < block.operator_indices.len()
            invariant
                ops.len() == operators_len,
                leaders.len() == positions.len(),
                positions == exec_positions(ops),
                starts == leader_starts(leaders),
                leaders.len() > 0,
                leaders[0],
                k < starts.len(),
                0 <= start <= end < positions.len(),
                start == starts[k as int],
                end == block_end(starts, k as int, positions.len() as int),
                block.operator_indices@ == positions.subrange(start, end + 1),
                increasing_below(positions, ops.len() as int),
                positions.len() <= ops.len(),
                j <= block.operator_indices@.len(),
                lookup@.len() == operators_len,
                forall|r: int|
                    0 <= r < operators_len ==> #[trigger] lookup@[r] == if is_exec(ops[r]) && (
                    (0 <= block_index(leaders, exec_index(ops, r)) < k) || (block_index(
                        leaders,
                        exec_index(ops, r),
                    ) == k && exec_index(ops, r) < start + j)) {
                        Some(block_index(leaders, exec_index(ops, r)) as usize)
                    } else {
                        None
                    },
            decreases block.operator_indices@.len() - j,
        {
            let raw = block.operator_indices[j];
            proof {
                assert(raw == positions[start + j]);
                lemma_exec_index_inverse(ops, start + j);
                lemma_block_index(leaders, k as int, start + j);
            }
            lookup.set(raw, Some(k));
            proof {
                assert forall|r: int|
                    0 <= r < operators_len && is_exec(ops[r]) && exec_index(ops, r) == start + j implies r
                    == raw as int by {
                    lemma_exec_index(ops, r);
                }
            }
            j = j + 1;
        }
        proof {
            assert forall|r: int| 0 <= r < operators_len implies #[trigger] lookup@[r] == if is_exec(
                ops[r],
            ) && 0 <= block_index(leaders, exec_index(ops, r)) < k + 1 {
                Some(block_index(leaders, exec_index(ops, r)) as usize)
            } else {
                None
            } by {
                if is_exec(ops[r]) {
                    lemma_exec_index(ops, r);
                    lemma_block_index_range(leaders, exec_index(ops, r));
                }
            }
        }
        k = k + 1;
    }
    proof {
        assert forall|r: int| 0 <= r < ops.len() implies #[trigger] lookup@[r] == if is_exec(ops[r]) {
            Some(block_index(leaders, exec_index(ops, r)) as usize)
        } else {
            None
        } by {
            if is_exec(ops[r]) {
                lemma_exec_index(ops, r);
                lemma_block_index_range(leaders, exec_index(ops, r));
            }
        }
    }
    lookup
}

pub proof fn lemma_leaders_first(ops: Seq<ParsedOperator>, n: int)
    requires
        0 <= n <= ops.len(),
        exec_positions(ops).len() > 0,
    ensures
        leaders_upto(ops, n).0.len() == exec_positions(ops).len(),
        leaders_upto(ops, n).0[0],
    decreases n,
{
    lemma_leaders_len(ops, n);
    if n > 0 {
        lemma_leaders_first(ops, n - 1);
    }
}

// ---------------------------------------------------------------------------
// Successor edges
// ---------------------------------------------------------------------------

/// The block of the operator that `next_exec` names for raw index `raw`.
pub open spec fn follow(next_exec: Seq<Option<usize>>, lookup: Seq<Option<usize>>, raw: int) -> Option<usize> {
    if 0 <= raw < next_exec.len() {
        match next_exec[raw] {
            Some(x) => if x < lookup.len() {
                lookup[x as int]
            } else {
                None
            },
            None => None,
        }
    } else {
        None
    }
}

/// The block a branch to label `depth` reaches, given the open-frame stack:
/// the loop head for a loop, the operator after `end` otherwise.
pub open spec fn branch_target_spec(
    depth: int,
    stack: Seq<usize>,
    frames: Seq<FrameInfo>,
    next_exec: Seq<Option<usize>>,
    lookup: Seq<Option<usize>>,
) -> Option<usize> {
    if depth + 1 > stack.len() {
        None
    } else {
        let frame_id = stack[stack.len() - depth - 1];
        if frame_id >= frames.len() {
            None
        } else {
            let frame = frames[frame_id as int];
            let raw_target = match frame.kind {
                FrameKind::Loop => if frame.start_op < next_exec.len() {
                    next_exec[frame.start_op as int]
                } else {
                    None
                },
                _ => match frame.end_op {
                    Some(e) => if e < next_exec.len() {
                        next_exec[e as int]
                    } else {
                        None
                    },
                    None => None,
                },
            };
            match raw_target {
                Some(t) => if t < lookup.len() {
                    lookup[t as int]
                } else {
                    None
                },
                None => None,
            }
        }
    }
}

fn branch_target_at_depth(
    depth: u32,
    frame_stack: &Vec<usize>,
    frames: &Vec<FrameInfo>,
    next_exec: &Vec<Option<usize>>,
    raw_to_block_id: &Vec<Option<usize>>,
) -> (r: Option<usize>)
    ensures
        r == branch_target_spec(depth as int, frame_stack@, frames@, next_exec@, raw_to_block_id@),
{
    if (depth as u64) + 1 > frame_stack.len() as u64 {
        return None;
    }
    let frame_index = frame_stack.len() - 1 - (depth as usize);
    let frame_id = frame_stack[frame_index];
    if frame_id >= frames.len() {
        return None;
    }
    let frame = frames[frame_id];
    let raw_target = match frame.kind {
        FrameKind::Loop => if frame.start_op < next_exec.len() {
            next_exec[frame.start_op]
        } else {
            None
        },
        _ => match frame.end_op {
            Some(e) => if e < next_exec.len() {
                next_exec[e]
            } else {
                None
            },
            None => None,
        },
    };
    match raw_target {
        Some(t) => if t < raw_to_block_id.len() {
            raw_to_block_id[t]
        } else {
            None
        },
        None => None,
    }
}

/// The label an operator branches to.
pub open spec fn branch_label(imm: Immediate) -> Option<u32> {
    match imm {
        Immediate::Branch(depth) => Some(depth),
        Immediate::BrOnCast { label, .. } => Some(label),
        _ => None,
    }
}

fn branch_target(
    operator: &ParsedOperator,
    frame_stack: &Vec<usize>,
    frames: &Vec<FrameInfo>,
    next_exec: &Vec<Option<usize>>,
    raw_to_block_id: &Vec<Option<usize>>,
) -> (r: Option<usize>)
    ensures
        r == match branch_label(operator.immediate) {
            Some(d) => branch_target_spec(d as int, frame_stack@, frames@, next_exec@, raw_to_block_id@),
            None => None,
        },
{
    match &operator.immediate {
        Immediate::Branch(depth) => branch_target_at_depth(*depth, frame_stack, frames, next_exec, raw_to_block_id),
        Immediate::BrOnCast { label, .. } => branch_target_at_depth(*label, frame_stack, frames, next_exec, raw_to_block_id),
        _ => None,
    }
}

/// A one-edge list when the target exists, else empty.
pub open spec fn opt_edge(kind: CfgEdgeKindIr, target: Option<usize>) -> Seq<CfgEdgeIr> {
    match target {
        Some(t) => seq![CfgEdgeIr { target_block: Some(t), kind }],
        None => Seq::empty(),
    }
}

/// One branch-table edge per listed label that resolves.
pub open spec fn table_edges(
    depths: Seq<u32>,
    stack: Seq<usize>,
    frames: Seq<FrameInfo>,
    next_exec: Seq<Option<usize>>,
    lookup: Seq<Option<usize>>,
) -> Seq<CfgEdgeIr>
    decreases depths.len(),
{
    if depths.len() == 0 {
        Seq::empty()
    } else {
        table_edges(depths.drop_last(), stack, frames, next_exec, lookup) + opt_edge(
            CfgEdgeKindIr::BranchTableTarget,
            branch_target_spec(depths.last() as int, stack, frames, next_exec, lookup),
        )
    }
}

/// Opcodes after which control leaves the function or traps.
pub open spec fn exits_function(op: Opcode) -> bool {
    op is Return || op is Unreachable || op is Throw || op is ThrowRef || op is Rethrow
        || op is Delegate || op is ReturnCall || op is ReturnCallIndirect || op is ReturnCallRef
        || op is TryTable
}

/// The outgoing edges of the executable operator at raw index `i`.
pub open spec fn edges_spec(
    ops: Seq<ParsedOperator>,
    frames: Seq<FrameInfo>,
    next_exec: Seq<Option<usize>>,
    lookup: Seq<Option<usize>>,
    stack: Seq<usize>,
    frame_id: int,
    i: int,
) -> Seq<CfgEdgeIr> {
    let op = ops[i];
    let fallthrough = follow(next_exec, lookup, i);
    let taken = match branch_label(op.immediate) {
        Some(d) => branch_target_spec(d as int, stack, frames, next_exec, lookup),
        None => None,
    };
    match op.opcode {
        Opcode::If => {
            let not_taken = if 0 <= frame_id < frames.len() {
                match frames[frame_id].else_op {
                    Some(e) => follow(next_exec, lookup, e as int),
                    None => match frames[frame_id].end_op {
                        Some(e) => follow(next_exec, lookup, e as int),
                        None => None,
                    },
                }
            } else {
                None
            };
            opt_edge(CfgEdgeKindIr::BranchTaken, fallthrough) + opt_edge(
                CfgEdgeKindIr::BranchNotTaken,
                not_taken,
            )
        },
        Opcode::Br => opt_edge(CfgEdgeKindIr::BranchTaken, taken),
        Opcode::BrIf | Opcode::BrOnNull | Opcode::BrOnNonNull | Opcode::BrOnCast
        | Opcode::BrOnCastFail => opt_edge(CfgEdgeKindIr::BranchTaken, taken) + opt_edge(
            CfgEdgeKindIr::BranchNotTaken,
            fallthrough,
        ),
        Opcode::BrTable => match op.immediate {
            Immediate::BrTable { targets, default_target } => table_edges(
                targets@,
                stack,
                frames,
                next_exec,
                lookup,
            ) + opt_edge(
                CfgEdgeKindIr::BranchTableDefault,
                branch_target_spec(default_target as int, stack, frames, next_exec, lookup),
            ),
            _ => Seq::empty(),
        },
        _ => if exits_function(op.opcode) {
            seq![
                CfgEdgeIr {
                    target_block: None,
                    kind: if op.opcode is Return || op.opcode is ReturnCall
                        || op.opcode is ReturnCallIndirect || op.opcode is ReturnCallRef {
                        CfgEdgeKindIr::Return
                    } else {
                        CfgEdgeKindIr::Trap
                    },
                },
            ]
        } else {
            opt_edge(CfgEdgeKindIr::Fallthrough, fallthrough)
        },
    }
}

fn push_opt_edge(edges: &mut Vec<CfgEdgeIr>, kind: CfgEdgeKindIr, target: Option<usize>)
    ensures
        final(edges)@ == old(edges)@ + opt_edge(kind, target),
{
    if let Some(t) = target {
        edges.push(CfgEdgeIr { kind, target_block: Some(t) });
    }
    proof {
        assert(final(edges)@ =~= old(edges)@ + opt_edge(kind, target));
    }
}

fn follow_exec(next_exec: &Vec<Option<usize>>, raw_to_block_id: &Vec<Option<usize>>, raw: usize) -> (r: Option<usize>)
    ensures
        r == follow(next_exec@, raw_to_block_id@, raw as int),
{
    if raw < next_exec.len() {
        match next_exec[raw] {
            Some(x) => if x < raw_to_block_id.len() {
                raw_to_block_id[x]
            } else {
                None
            },
            None => None,
        }
    } else {
        None
    }
}

fn operator_successors(
    operators: &Vec<ParsedOperator>,
    frames: &Vec<FrameInfo>,
    next_exec: &Vec<Option<usize>>,
    raw_to_block_id: &Vec<Option<usize>>,
) -> (r: Vec<Vec<CfgEdgeIr>>)
    ensures
        r@.len() == operators@.len(),
        forall|i: int|
            0 <= i < operators@.len() ==> (#[trigger] r@[i])@ == if is_exec(operators@[i]) {
                edges_spec(
                    operators@,
                    frames@,
                    next_exec@,
                    raw_to_block_id@,
                    scan_upto(operators@, i).0,
                    scan_upto(operators@, i).1 as int,
                    i,
                )
            } else {
                Seq::empty()
            },
{
    let ghost ops = operators@;
    let mut frame_stack: Vec<usize> = Vec::new();
    let mut next_frame_id: usize = 0;
    let mut successors: Vec<Vec<CfgEdgeIr>> = Vec::new();
    let mut raw_index: usize = 0;
    while raw_index < operators.len()
        invariant
            ops == operators@,
            raw_index <= ops.len(),
            frame_stack@ == scan_upto(ops, raw_index as int).0,
            next_frame_id == scan_upto(ops, raw_index as int).1,
            successors@.len() == raw_index,
            forall|i: int|
                0 <= i < raw_index ==> (#[trigger] successors@[i])@ == if is_exec(ops[i]) {
                    edges_spec(ops, frames@, next_exec@, raw_to_block_id@, scan_upto(ops, i).0, scan_upto(ops, i).1 as int, i)
                } else {
                    Seq::empty()
                },
        decreases ops.len() - raw_index,
    {
        proof {
            lemma_scan_upto(ops, raw_index as int);
        }
        let operator = &operators[raw_index];
        let mut edges: Vec<CfgEdgeIr> = Vec::new();
        if operator.opcode.is_structural_marker() {
            match operator.opcode {
                Opcode::Block | Opcode::Loop | Opcode::Catch | Opcode::CatchAll => {
                    frame_stack.push(next_frame_id);
                    next_frame_id = next_frame_id + 1;
                },
                Opcode::End => {
                    frame_stack.pop();
                },
                _ => {},
            }
        } else {
            let fallthrough = follow_exec(next_exec, raw_to_block_id, raw_index);
            match &operator.opcode {
                Opcode::If => {
                    push_opt_edge(&mut edges, CfgEdgeKindIr::BranchTaken, fallthrough);
                    let not_taken = if next_frame_id < frames.len() {
                        let frame = frames[next_frame_id];
                        if let Some(else_op) = frame.else_op {
                            follow_exec(next_exec, raw_to_block_id, else_op)
                        } else if let Some(end_op) = frame.end_op {
                            follow_exec(next_exec, raw_to_block_id, end_op)
                        } else {
                            None
                        }
                    } else {
                        None
                    };
                    push_opt_edge(&mut edges, CfgEdgeKindIr::BranchNotTaken, not_taken);
                    frame_stack.push(next_frame_id);
                    next_frame_id = next_frame_id + 1;
                },
                Opcode::Br => {
                    let taken = branch_target(operator, &frame_stack, frames, next_exec, raw_to_block_id);
                    push_opt_edge(&mut edges, CfgEdgeKindIr::BranchTaken, taken);
                },
                Opcode::BrIf | Opcode::BrOnNull | Opcode::BrOnNonNull | Opcode::BrOnCast
                | Opcode::BrOnCastFail => {
                    let taken = branch_target(operator, &frame_stack, frames, next_exec, raw_to_block_id);
                    push_opt_edge(&mut edges, CfgEdgeKindIr::BranchTaken, taken);
                    push_opt_edge(&mut edges, CfgEdgeKindIr::BranchNotTaken, fallthrough);
                },
                Opcode::BrTable => {
                    if let Immediate::BrTable { targets, default_target } = &operator.immediate {
                        let mut t: usize = 0;
                        while t < targets.len()
                            invariant
                                t <= targets@.len(),
                                edges@ == table_edges(
                                    targets@.subrange(0, t as int),
                                    frame_stack@,
                                    frames@,
                                    next_exec@,
                                    raw_to_block_id@,
                                ),
                            decreases targets@.len() - t,
                        {
                            let target = branch_target_at_depth(targets[t], &frame_stack, frames, next_exec, raw_to_block_id);
                            push_opt_edge(&mut edges, CfgEdgeKindIr::BranchTableTarget, target);
                            proof {
                                assert(targets@.subrange(0, t + 1).drop_last() =~= targets@.subrange(0, t as int));
                            }
                            t = t + 1;
                        }
                        assert(targets@.subrange(0, targets@.len() as int) =~= targets@);
                        let target = branch_target_at_depth(*default_target, &frame_stack, frames, next_exec, raw_to_block_id);
                        push_opt_edge(&mut edges, CfgEdgeKindIr::BranchTableDefault, target);
                    }
                },
                Opcode::Return | Opcode::Unreachable | Opcode::Throw | Opcode::ThrowRef
                | Opcode::Rethrow | Opcode::Delegate | Opcode::ReturnCall
                | Opcode::ReturnCallIndirect | Opcode::ReturnCallRef | Opcode::TryTable => {
                    let kind = match &operator.opcode {
                        Opcode::Return | Opcode::ReturnCall | Opcode::ReturnCallIndirect
                        | Opcode::ReturnCallRef => CfgEdgeKindIr::Return,
                        _ => CfgEdgeKindIr::Trap,
                    };
                    edges.push(CfgEdgeIr { kind, target_block: None });
                    assert(edges@ =~= seq![CfgEdgeIr { target_block: None, kind }]);
                },
                _ => {
                    push_opt_edge(&mut edges, CfgEdgeKindIr::Fallthrough, fallthrough);
                },
            }
        }
        proof {
            assert(edges@ =~= if is_exec(ops[raw_index as int]) {
                edges_spec(ops, frames@, next_exec@, raw_to_block_id@, scan_upto(ops, raw_index as int).0, scan_upto(ops, raw_index as int).1 as int, raw_index as int)
            } else {
                Seq::<CfgEdgeIr>::empty()
            });
        }
        successors.push(edges);
        raw_index = raw_index + 1;
        proof {
            assert(frame_stack@ =~= scan_upto(ops, raw_index as int).0);
        }
    }
    successors
}

// ---------------------------------------------------------------------------
// Call sites
// ---------------------------------------------------------------------------

/// Opcodes that call a function.
pub open spec fn spec_is_call(op: Opcode) -> bool {
    op is Call || op is CallIndirect || op is CallRef || op is ReturnCall
        || op is ReturnCallIndirect || op is ReturnCallRef
}

/// Calls that replace the current frame.
pub open spec fn spec_is_tail_call(op: Opcode) -> bool {
    op is ReturnCall || op is ReturnCallIndirect || op is ReturnCallRef
}

pub fn is_call_opcode(opcode: &Opcode) -> (r: bool)
    ensures
        r == spec_is_call(*opcode),
{
    match opcode {
        Opcode::Call | Opcode::CallIndirect | Opcode::CallRef | Opcode::ReturnCall
        | Opcode::ReturnCallIndirect | Opcode::ReturnCallRef => true,
        _ => false,
    }
}

/// The characters of an optional string.
pub open spec fn opt_text(o: Option<String>) -> Option<Seq<char>> {
    match o {
        Some(s) => Some(s@),
        None => None,
    }
}

/// The identifier of the function at an optional index, if in range.
pub open spec fn function_id_at(module: ModuleIr, index: Option<u32>) -> Option<Seq<char>> {
    match index {
        Some(i) => if i < module.functions@.len() {
            Some(module.functions@[i as int].id@)
        } else {
            None
        },
        None => None,
    }
}

/// The function index named by a `Call` immediate.
pub open spec fn call_index(imm: Immediate) -> Option<u32> {
    match imm {
        Immediate::Call(i) => Some(i),
        _ => None,
    }
}

/// Raw indices below `n` of call operators that lie in a block.
pub open spec fn call_raws(ops: Seq<ParsedOperator>, lookup: Seq<Option<usize>>, n: int) -> Seq<usize>
    decreases n,
{
    if n <= 0 {
        Seq::empty()
    } else {
        let p = call_raws(ops, lookup, n - 1);
        if lookup[n - 1] is Some && spec_is_call(ops[n - 1].opcode) {
            p.push((n - 1) as usize)
        } else {
            p
        }
    }
}

/// The call site recorded for the operator at raw index `raw`.
pub open spec fn call_site_ok(
    site: CallSiteIr,
    raw: int,
    ops: Seq<ParsedOperator>,
    lookup: Seq<Option<usize>>,
    module: ModuleIr,
) -> bool {
    let op = ops[raw];
    &&& site.operator_index == raw
    &&& Some(site.block_id) == lookup[raw]
    &&& site.offset == op.offset
    &&& same_operator(site.operator, op)
    &&& site.target_function_index == call_index(op.immediate)
    &&& opt_text(site.target_function_id) == function_id_at(module, call_index(op.immediate))
    &&& site.opcode@ == opcode_text(op.opcode)
    &&& site.tail_call == spec_is_tail_call(op.opcode)
}

fn build_call_sites(
    function: &FunctionIr,
    module: &ModuleIr,
    raw_to_block_id: &Vec<Option<usize>>,
) -> (r: Vec<CallSiteIr>)
    requires
        raw_to_block_id@.len() == function.operators@.len(),
    ensures
        r@.len() == call_raws(function.operators@, raw_to_block_id@, function.operators@.len() as int).len(),
        forall|k: int|
            0 <= k < r@.len() ==> call_site_ok(
                #[trigger] r@[k],
                call_raws(function.operators@, raw_to_block_id@, function.operators@.len() as int)[k] as int,
                function.operators@,
                raw_to_block_id@,
                *module,
            ),
{
    let ghost ops = function.operators@;
    let mut sites: Vec<CallSiteIr> = Vec::new();
    let mut operator_index: usize = 0;
    while operator_index < function.operators.len()
        invariant
            ops == function.operators@,
            raw_to_block_id@.len() == ops.len(),
            operator_index <= ops.len(),
            sites@.len() == call_raws(ops, raw_to_block_id@, operator_index as int).len(),
            forall|k: int|
                0 <= k < sites@.len() ==> call_site_ok(
                    #[trigger] sites@[k],
                    call_raws(ops, raw_to_block_id@, operator_index as int)[k] as int,
                    ops,
                    raw_to_block_id@,
                    *module,
                ),
        decreases ops.len() - operator_index,
    {
        let operator = &function.operators[operator_index];
        if let Some(block_id) = raw_to_block_id[operator_index] {
            if is_call_opcode(&operator.opcode) {
                let target_function_index = operator.immediate.call_function_index();
                let target_function_id = match target_function_index {
                    Some(index) => if (index as usize) < module.functions.len() {
                        Some(module.functions[index as usize].id.clone())
                    } else {
                        None
                    },
                    None => None,
                };
                let tail_call = match operator.opcode {
                    Opcode::ReturnCall | Opcode::ReturnCallIndirect | Opcode::ReturnCallRef => true,
                    _ => false,
                };
                sites.push(
                    CallSiteIr {
                        operator_index,
                        block_id,
                        offset: operator.offset,
                        operator: operator.copy(),
                        target_function_index,
                        target_function_id,
                        opcode: crate::text::string_of(operator.opcode.as_str()),
                        tail_call,
                    },
                );
            }
        }
        operator_index = operator_index + 1;
    }
    sites
}

// ---------------------------------------------------------------------------
// Whole-function control-flow graph
// ---------------------------------------------------------------------------

/// The next executable operator after each raw index.
pub open spec fn next_exec_seq(ops: Seq<ParsedOperator>) -> Seq<Option<usize>> {
    Seq::new(ops.len(), |i: int| next_exec_from(ops, i + 1))
}

/// The block of each raw index.
pub open spec fn lookup_seq(ops: Seq<ParsedOperator>) -> Seq<Option<usize>> {
    Seq::new(
        ops.len(),
        |r: int|
            if is_exec(ops[r]) {
                Some(block_index(leaders_of(ops), exec_index(ops, r)) as usize)
            } else {
                None
            },
    )
}

/// A block as built, and its edges: those of its last operator.
pub open spec fn block_with_edges(block: BasicBlockIr, k: int, ops: Seq<ParsedOperator>) -> bool {
    let positions = exec_positions(ops);
    let starts = leader_starts(leaders_of(ops));
    let end = block_end(starts, k, positions.len() as int);
    let last = positions[end] as int;
    &&& block_built(block, k, ops, positions, starts[k], end)
    &&& block.successors@ == edges_spec(
        ops,
        frames_of(ops),
        next_exec_seq(ops),
        lookup_seq(ops),
        scan_upto(ops, last).0,
        scan_upto(ops, last).1 as int,
        last,
    )
}

/// The control-flow graph of `function`: one block per leader, each ending
/// with the edges of its last operator, and one call site per call
/// operator.
pub open spec fn cfg_built(cfg: FunctionCfgIr, function: FunctionIr, module: ModuleIr) -> bool {
    let ops = function.operators@;
    let starts = leader_starts(leaders_of(ops));
    &&& cfg.function_id@ == function.id@
    &&& cfg.source_index == function.source_index
    &&& cfg.kind == function.kind
    &&& cfg.blocks@.len() == starts.len()
    &&& forall|k: int| 0 <= k < cfg.blocks@.len() ==> block_with_edges(#[trigger] cfg.blocks@[k], k, ops)
    &&& cfg.entry_block == if cfg.blocks@.len() > 0 {
        Some(0usize)
    } else {
        None
    }
    &&& cfg.call_sites@.len() == call_raws(ops, lookup_seq(ops), ops.len() as int).len()
    &&& forall|k: int|
        0 <= k < cfg.call_sites@.len() ==> call_site_ok(
            #[trigger] cfg.call_sites@[k],
            call_raws(ops, lookup_seq(ops), ops.len() as int)[k] as int,
            ops,
            lookup_seq(ops),
            module,
        )
}

fn finalize_block_successors(
    blocks: &mut Vec<BasicBlockIr>,
    successors_by_raw: &Vec<Vec<CfgEdgeIr>>,
)
    requires
        forall|k: int|
            0 <= k < old(blocks)@.len() ==> (#[trigger] old(blocks)@[k]).operator_indices@.len() > 0
                && old(blocks)@[k].operator_indices@.last() < successors_by_raw@.len(),
    ensures
        final(blocks)@.len() == old(blocks)@.len(),
        forall|k: int|
            0 <= k < final(blocks)@.len() ==> {
                &&& (#[trigger] final(blocks)@[k]).id == old(blocks)@[k].id
                &&& final(blocks)@[k].start_operator_index == old(blocks)@[k].start_operator_index
                &&& final(blocks)@[k].end_operator_index == old(blocks)@[k].end_operator_index
                &&& final(blocks)@[k].start_offset == old(blocks)@[k].start_offset
                &&& final(blocks)@[k].end_offset == old(blocks)@[k].end_offset
                &&& final(blocks)@[k].operator_indices == old(blocks)@[k].operator_indices
                &&& final(blocks)@[k].operators == old(blocks)@[k].operators
                &&& final(blocks)@[k].successors@ == successors_by_raw@[old(blocks)@[k].operator_indices@.last() as int]@
            },
{
    let mut k: usize = 0;
    while k < blocks.len()
        invariant
            k <= blocks@.len(),
            blocks@.len() == old(blocks)@.len(),
            forall|j: int|
                0 <= j < old(blocks)@.len() ==> (#[trigger] old(blocks)@[j]).operator_indices@.len() > 0
                    && old(blocks)@[j].operator_indices@.last() < successors_by_raw@.len(),
            forall|j: int| k <= j < blocks@.len() ==> #[trigger] blocks@[j] == old(blocks)@[j],
            forall|j: int|
                0 <= j < k ==> {
                    &&& (#[trigger] blocks@[j]).id == old(blocks)@[j].id
                    &&& blocks@[j].start_operator_index == old(blocks)@[j].start_operator_index
                    &&& blocks@[j].end_operator_index == old(blocks)@[j].end_operator_index
                    &&& blocks@[j].start_offset == old(blocks)@[j].start_offset
                    &&& blocks@[j].end_offset == old(blocks)@[j].end_offset
                    &&& blocks@[j].operator_indices == old(blocks)@[j].operator_indices
                    &&& blocks@[j].operators == old(blocks)@[j].operators
                    &&& blocks@[j].successors@ == successors_by_raw@[old(blocks)@[j].operator_indices@.last() as int]@
                },
        decreases blocks@.len() - k,
    {
        let last = blocks[k].operator_indices.len() - 1;
        let last_raw = blocks[k].operator_indices[last];
        let edges = successors_by_raw[last_raw].clone();
        assert(edges@ =~= successors_by_raw@[last_raw as int]@);
        blocks[k].successors = edges;
        k = k + 1;
    }
}

/// Builds the control-flow graph of one defined function.
pub(crate) fn build_function_cfg(function: &FunctionIr, module: &ModuleIr) -> (r: FunctionCfgIr)
    ensures
        cfg_built(r, *function, *module),
{
    let operators = &function.operators;
    let ghost ops = operators@;
    let frames = collect_frames(operators);
    let next_exec = next_executable_indices(operators);
    let exec_positions = executable_positions(operators);
    proof {
        assert(ops.len() == operators.len());
        lemma_exec_positions_upto(ops, ops.len() as int);
        lemma_leaders_len(ops, ops.len() as int);
        if exec_positions@.len() > 0 {
            lemma_leaders_first(ops, ops.len() as int);
        }
        lemma_frames_upto(ops, ops.len() as int);
        assert(next_exec@ =~= next_exec_seq(ops));
    }
    let raw_to_exec_pos = exec_positions_map(operators.len(), &exec_positions);
    let leaders = block_leaders(operators, &exec_positions, &raw_to_exec_pos, &frames, &next_exec);
    let mut blocks = build_blocks(function, operators, &exec_positions, &leaders);
    let raw_to_block_id = block_lookup(&blocks, operators.len(), Ghost(ops), Ghost(leaders@));
    proof {
        assert(raw_to_block_id@ =~= lookup_seq(ops));
    }
    let call_sites = build_call_sites(function, module, &raw_to_block_id);
    let successors_by_raw = operator_successors(operators, &frames, &next_exec, &raw_to_block_id);
    proof {
        lemma_starts_upto(leaders@, leaders@.len() as int);
        assert forall|k: int| 0 <= k < blocks@.len() implies (#[trigger] blocks@[k]).operator_indices@.len() > 0
            && blocks@[k].operator_indices@.last() < successors_by_raw@.len() by {
            let starts = leader_starts(leaders@);
            let end = block_end(starts, k, exec_positions@.len() as int);
            assert(block_built(blocks@[k], k, ops, exec_positions@, starts[k], end));
            if k + 1 < starts.len() {
                assert(starts[k] < starts[k + 1]);
            }
            assert(blocks@[k].operator_indices@.last() == exec_positions@[end]);
        }
    }
    let ghost built = blocks@;
    finalize_block_successors(&mut blocks, &successors_by_raw);
    let entry_block = if blocks.len() > 0 {
        Some(blocks[0].id)
    } else {
        None
    };
    proof {
        assert forall|k: int| 0 <= k < blocks@.len() implies block_with_edges(#[trigger] blocks@[k], k, ops) by {
            let starts = leader_starts(leaders@);
            let end = block_end(starts, k, exec_positions@.len() as int);
            assert(block_built(built[k], k, ops, exec_positions@, starts[k], end));
            if k + 1 < starts.len() {
                assert(starts[k] < starts[k + 1]);
            }
            let last = exec_positions@[end] as int;
            assert(built[k].operator_indices@.last() == last);
            lemma_exec_index_inverse(ops, end);
        }
        if blocks@.len() > 0 {
            assert(block_built(built[0], 0, ops, exec_positions@, leader_starts(leaders@)[0],
                block_end(leader_starts(leaders@), 0, exec_positions@.len() as int)));
        }
    }
    FunctionCfgIr {
        function_id: function.id.clone(),
        source_index: function.source_index,
        kind: function.kind,
        entry_block,
        blocks,
        call_sites,
    }
}

} // verus!
