//! Pairing the functions of an old and a new module: by stable identifier,
//! by exact body hash and by canonical body hash, then by similarity among
//! the functions still unpaired.

use vstd::prelude::*;

use crate::fingerprint::{occurrences, FuncFingerprint};
use crate::ir::{FunctionIr, FunctionKindIr, Immediate, NormalizedModule, ParsedOperator};
use crate::opcode::opcode_text;
use crate::render::hash_text;
use crate::text::{
    decimal, dedup_sorted, hex_fixed, push_decimal, push_str, seq_lt, sorted_unique, str_eq,
    str_lt, string_of, texts,
};

verus! {

/// Why two functions were paired.
#[derive(Debug, Clone, Copy, PartialEq, Eq, Structural)]
pub enum MatchReason {
    SameStableId,
    SameExactBodyHash,
    SameCanonicalBodyHash,
    SimilarityFallback,
}

/// A pairing of the function at `old_index` of the old module with the one
/// at `new_index` of the new module.
#[derive(Debug, Clone, Copy, PartialEq, Eq, Structural)]
pub struct FunctionPair {
    pub old_index: usize,
    pub new_index: usize,
    pub reason: MatchReason,
}

/// The key by which a matching stage groups functions.
#[derive(Debug, Clone, Copy, PartialEq, Eq, Structural)]
pub enum MatchKey {
    StableId,
    ExactBody,
    CanonicalBody,
}

/// The key of a function for a stage: its identifier; or, for a defined
/// function with a fingerprint, its type and exact or canonical body hash.
pub open spec fn match_key_of(f: FunctionIr, key: MatchKey) -> Option<Seq<char>> {
    match key {
        MatchKey::StableId => Some(f.id@),
        MatchKey::ExactBody => match f.fingerprint {
            Some(fp) => if f.kind == FunctionKindIr::Defined {
                Some(f.type_id@ + ":"@ + hex_fixed(fp.exact_body_hash@ as nat, 16))
            } else {
                None
            },
            None => None,
        },
        MatchKey::CanonicalBody => match f.fingerprint {
            Some(fp) => if f.kind == FunctionKindIr::Defined {
                Some(f.type_id@ + ":"@ + hex_fixed(fp.canonical_body_hash@ as nat, 16))
            } else {
                None
            },
            None => None,
        },
    }
}

/// The key of `function` for a stage.
pub fn match_key(function: &FunctionIr, key: MatchKey) -> (r: Option<String>)
    ensures
        match r {
            Some(s) => match_key_of(*function, key) == Some(s@),
            None => match_key_of(*function, key) is None,
        },
{
    match key {
        MatchKey::StableId => Some(function.id.clone()),
        _ => {
            if function.kind != FunctionKindIr::Defined {
                return None;
            }
            match &function.fingerprint {
                Some(fp) => {
                    let hash = match key {
                        MatchKey::ExactBody => fp.exact_body_hash,
                        _ => fp.canonical_body_hash,
                    };
                    let mut out = function.type_id.clone();
                    push_str(&mut out, ":");
                    let hex = hash.hex();
                    push_str(&mut out, hex.as_str());
                    assert(out@ =~= match_key_of(*function, key)->0);
                    Some(out)
                },
                None => None,
            }
        },
    }
}

// ---------------------------------------------------------------------------
// One keyed stage
// ---------------------------------------------------------------------------

/// The keys of the functions not yet matched, in function order.
pub open spec fn unmatched_keys(fs: Seq<FunctionIr>, matched: Seq<bool>, key: MatchKey) -> Seq<Seq<char>>
    decreases fs.len(),
{
    if fs.len() == 0 {
        Seq::empty()
    } else {
        let rest = unmatched_keys(fs.drop_last(), matched, key);
        let i = fs.len() - 1;
        match match_key_of(fs.last(), key) {
            Some(k) => if !matched[i] {
                rest.push(k)
            } else {
                rest
            },
            None => rest,
        }
    }
}

/// The positions of the functions not yet matched whose key is `k`, in order.
pub open spec fn keyed_indices(fs: Seq<FunctionIr>, matched: Seq<bool>, key: MatchKey, k: Seq<char>) -> Seq<usize>
    decreases fs.len(),
{
    if fs.len() == 0 {
        Seq::empty()
    } else {
        let rest = keyed_indices(fs.drop_last(), matched, key, k);
        let i = fs.len() - 1;
        if !matched[i] && match_key_of(fs.last(), key) == Some(k) {
            rest.push(i as usize)
        } else {
            rest
        }
    }
}

/// The first old position with a key paired with the first new position
/// with that key, the second with the second, as far as both lists go.
pub open spec fn zip_pairs(a: Seq<usize>, b: Seq<usize>, reason: MatchReason) -> Seq<FunctionPair> {
    let n = if a.len() <= b.len() {
        a.len()
    } else {
        b.len()
    };
    Seq::new(n, |t: int| FunctionPair { old_index: a[t], new_index: b[t], reason })
}

/// The pairs that a stage makes for the given keys, key after key.
pub open spec fn pairs_for_keys(
    keys: Seq<Seq<char>>,
    old: Seq<FunctionIr>,
    old_matched: Seq<bool>,
    new: Seq<FunctionIr>,
    new_matched: Seq<bool>,
    key: MatchKey,
    reason: MatchReason,
) -> Seq<FunctionPair>
    decreases keys.len(),
{
    if keys.len() == 0 {
        Seq::empty()
    } else {
        pairs_for_keys(keys.drop_last(), old, old_matched, new, new_matched, key, reason)
            + zip_pairs(
            keyed_indices(old, old_matched, key, keys.last()),
            keyed_indices(new, new_matched, key, keys.last()),
            reason,
        )
    }
}

/// The pairs of one stage: for each key of an unmatched old function, in
/// increasing order of key, the unmatched functions with that key paired by
/// occurrence.
pub open spec fn stage_pairs(
    old: Seq<FunctionIr>,
    old_matched: Seq<bool>,
    new: Seq<FunctionIr>,
    new_matched: Seq<bool>,
    key: MatchKey,
    reason: MatchReason,
) -> Seq<FunctionPair> {
    pairs_for_keys(
        sorted_unique(unmatched_keys(old, old_matched, key)),
        old,
        old_matched,
        new,
        new_matched,
        key,
        reason,
    )
}

/// `matched` with the given positions marked.
pub open spec fn mark_old(matched: Seq<bool>, pairs: Seq<FunctionPair>) -> Seq<bool> {
    Seq::new(
        matched.len(),
        |i: int| matched[i] || exists|p: int| 0 <= p < pairs.len() && pairs[p].old_index == i,
    )
}

pub open spec fn mark_new(matched: Seq<bool>, pairs: Seq<FunctionPair>) -> Seq<bool> {
    Seq::new(
        matched.len(),
        |i: int| matched[i] || exists|p: int| 0 <= p < pairs.len() && pairs[p].new_index == i,
    )
}

/// Positions of the functions with key `k` among those not matched.
fn keyed_positions(fs: &Vec<FunctionIr>, matched: &Vec<bool>, key: MatchKey, k: &str) -> (r: Vec<usize>)
    requires
        matched@.len() == fs@.len(),
    ensures
        r@ == keyed_indices(fs@, matched@, key, k@),
        forall|t: int| 0 <= t < r@.len() ==> #[trigger] r@[t] < fs@.len(),
{
    let mut out: Vec<usize> = Vec::new();
    let mut i: usize = 0;
    while i < fs.len()
        invariant
            matched@.len() == fs@.len(),
            i <= fs@.len(),
            out@ == keyed_indices(fs@.take(i as int), matched@, key, k@),
            forall|t: int| 0 <= t < out@.len() ==> #[trigger] out@[t] < i,
        decreases fs@.len() - i,
    {
        proof {
            assert(fs@.take(i + 1).drop_last() =~= fs@.take(i as int));
            assert(fs@.take(i + 1).last() == fs@[i as int]);
        }
        if !matched[i] {
            match match_key(&fs[i], key) {
                Some(s) => {
                    if str_eq(s.as_str(), k) {
                        out.push(i);
                    }
                },
                None => {},
            }
        }
        i = i + 1;
    }
    assert(fs@.take(fs@.len() as int) =~= fs@);
    out
}

/// The keys of the functions not matched, in function order.
fn unmatched_key_list(fs: &Vec<FunctionIr>, matched: &Vec<bool>, key: MatchKey) -> (r: Vec<String>)
    requires
        matched@.len() == fs@.len(),
    ensures
        texts(r@) == unmatched_keys(fs@, matched@, key),
{
    let mut out: Vec<String> = Vec::new();
    let mut i: usize = 0;
    while i < fs.len()
        invariant
            matched@.len() == fs@.len(),
            i <= fs@.len(),
            texts(out@) == unmatched_keys(fs@.take(i as int), matched@, key),
        decreases fs@.len() - i,
    {
        proof {
            assert(fs@.take(i + 1).drop_last() =~= fs@.take(i as int));
            assert(fs@.take(i + 1).last() == fs@[i as int]);
        }
        if !matched[i] {
            match match_key(&fs[i], key) {
                Some(s) => {
                    let ghost before = out@;
                    out.push(s);
                    proof {
                        crate::text::lemma_texts_push(before, s);
                    }
                },
                None => {},
            }
        }
        i = i + 1;
    }
    assert(fs@.take(fs@.len() as int) =~= fs@);
    out
}

/// Runs one keyed stage: pairs unmatched functions with equal keys, and
/// marks them matched.
pub fn match_by_key(
    old_fns: &Vec<FunctionIr>,
    new_fns: &Vec<FunctionIr>,
    key: MatchKey,
    reason: MatchReason,
    matched_old: &mut Vec<bool>,
    matched_new: &mut Vec<bool>,
    pairs: &mut Vec<FunctionPair>,
)
    requires
        old(matched_old)@.len() == old_fns@.len(),
        old(matched_new)@.len() == new_fns@.len(),
    ensures
        final(pairs)@ == old(pairs)@ + stage_pairs(
            old_fns@,
            old(matched_old)@,
            new_fns@,
            old(matched_new)@,
            key,
            reason,
        ),
        final(matched_old)@ == mark_old(
            old(matched_old)@,
            stage_pairs(old_fns@, old(matched_old)@, new_fns@, old(matched_new)@, key, reason),
        ),
        final(matched_new)@ == mark_new(
            old(matched_new)@,
            stage_pairs(old_fns@, old(matched_old)@, new_fns@, old(matched_new)@, key, reason),
        ),
{
    let ghost om = matched_old@;
    let ghost nm = matched_new@;
    let ghost base = pairs@;
    let keys = dedup_sorted(unmatched_key_list(old_fns, matched_old, key));
    let ghost ks = texts(keys@);
    let mut new_old_flags = matched_old.clone();
    let mut new_new_flags = matched_new.clone();
    assert(new_old_flags@ =~= om);
    assert(new_new_flags@ =~= nm);
    assert(mark_old(om, Seq::empty()) =~= om);
    assert(mark_new(nm, Seq::empty()) =~= nm);
    let mut j: usize = 0;
    while j < keys.len()
        invariant
            om.len() == old_fns@.len(),
            nm.len() == new_fns@.len(),
            matched_old@ == om,
            matched_new@ == nm,
            ks == texts(keys@),
            j <= keys@.len(),
            pairs@ == base + pairs_for_keys(ks.take(j as int), old_fns@, om, new_fns@, nm, key, reason),
            new_old_flags@ == mark_old(om, pairs_for_keys(ks.take(j as int), old_fns@, om, new_fns@, nm, key, reason)),
            new_new_flags@ == mark_new(nm, pairs_for_keys(ks.take(j as int), old_fns@, om, new_fns@, nm, key, reason)),
        decreases keys@.len() - j,
    {
        let ghost done = pairs_for_keys(ks.take(j as int), old_fns@, om, new_fns@, nm, key, reason);
        proof {
            assert(ks.take(j + 1).drop_last() =~= ks.take(j as int));
            assert(ks.take(j + 1).last() == keys@[j as int]@);
        }
        let olds = keyed_positions(old_fns, matched_old, key, keys[j].as_str());
        let news = keyed_positions(new_fns, matched_new, key, keys[j].as_str());
        let n = if olds.len() <= news.len() {
            olds.len()
        } else {
            news.len()
        };
        let ghost zipped = zip_pairs(olds@, news@, reason);
        let mut t: usize = 0;
        while t < n
            invariant
                n <= olds@.len(),
                n <= news@.len(),
                n == zipped.len(),
                zipped == zip_pairs(olds@, news@, reason),
                forall|q: int| 0 <= q < olds@.len() ==> #[trigger] olds@[q] < old_fns@.len(),
                forall|q: int| 0 <= q < news@.len() ==> #[trigger] news@[q] < new_fns@.len(),
                om.len() == old_fns@.len(),
                nm.len() == new_fns@.len(),
                t <= n,
                pairs@ == base + done + zipped.take(t as int),
                new_old_flags@ == mark_old(om, done + zipped.take(t as int)),
                new_new_flags@ == mark_new(nm, done + zipped.take(t as int)),
            decreases n - t,
        {
            let p = FunctionPair { old_index: olds[t], new_index: news[t], reason };
            pairs.push(p);
            new_old_flags[olds[t]] = true;
            new_new_flags[news[t]] = true;
            proof {
                let prev = done + zipped.take(t as int);
                let next = done + zipped.take(t + 1);
                assert(next =~= prev.push(p));
                assert(pairs@ =~= base + next);
                assert(new_old_flags@ =~= mark_old(om, next)) by {
                    assert forall|i: int| 0 <= i < om.len() implies new_old_flags@[i] == mark_old(om, next)[i] by {
                        if i == olds@[t as int] as int {
                            assert(next[next.len() - 1].old_index == i);
                        } else {
                            if exists|q: int| 0 <= q < next.len() && next[q].old_index == i {
                                let q = choose|q: int| 0 <= q < next.len() && next[q].old_index == i;
                                assert(q < prev.len());
                                assert(prev[q].old_index == i);
                            }
                            if exists|q: int| 0 <= q < prev.len() && prev[q].old_index == i {
                                let q = choose|q: int| 0 <= q < prev.len() && prev[q].old_index == i;
                                assert(next[q].old_index == i);
                            }
                        }
                    }
                }
                assert(new_new_flags@ =~= mark_new(nm, next)) by {
                    assert forall|i: int| 0 <= i < nm.len() implies new_new_flags@[i] == mark_new(nm, next)[i] by {
                        if i == news@[t as int] as int {
                            assert(next[next.len() - 1].new_index == i);
                        } else {
                            if exists|q: int| 0 <= q < next.len() && next[q].new_index == i {
                                let q = choose|q: int| 0 <= q < next.len() && next[q].new_index == i;
                                assert(q < prev.len());
                                assert(prev[q].new_index == i);
                            }
                            if exists|q: int| 0 <= q < prev.len() && prev[q].new_index == i {
                                let q = choose|q: int| 0 <= q < prev.len() && prev[q].new_index == i;
                                assert(next[q].new_index == i);
                            }
                        }
                    }
                }
            }
            t = t + 1;
        }
        proof {
            assert(zipped.take(n as int) =~= zipped);
        }
        j = j + 1;
    }
    proof {
        assert(ks.take(keys@.len() as int) =~= ks);
    }
    *matched_old = new_old_flags;
    *matched_new = new_new_flags;
}

// ---------------------------------------------------------------------------
// The keyed stages together
// ---------------------------------------------------------------------------

/// The pairs made by the three keyed stages, and the old and new functions
/// matched afterwards. Each stage only considers the functions that earlier
/// stages left unmatched.
pub open spec fn keyed_matching(old: Seq<FunctionIr>, new: Seq<FunctionIr>) -> (Seq<FunctionPair>, Seq<bool>, Seq<bool>) {
    let om0 = Seq::new(old.len(), |i: int| false);
    let nm0 = Seq::new(new.len(), |i: int| false);
    let p1 = stage_pairs(old, om0, new, nm0, MatchKey::StableId, MatchReason::SameStableId);
    let om1 = mark_old(om0, p1);
    let nm1 = mark_new(nm0, p1);
    let p2 = stage_pairs(old, om1, new, nm1, MatchKey::ExactBody, MatchReason::SameExactBodyHash);
    let om2 = mark_old(om1, p2);
    let nm2 = mark_new(nm1, p2);
    let p3 = stage_pairs(
        old,
        om2,
        new,
        nm2,
        MatchKey::CanonicalBody,
        MatchReason::SameCanonicalBodyHash,
    );
    (p1 + p2 + p3, mark_old(om2, p3), mark_new(nm2, p3))
}

fn all_false(n: usize) -> (r: Vec<bool>)
    ensures
        r@ == Seq::new(n as nat, |i: int| false),
{
    let mut out: Vec<bool> = Vec::new();
    let mut i: usize = 0;
    while i < n
        invariant
            i <= n,
            out@ == Seq::new(i as nat, |k: int| false),
        decreases n - i,
    {
        out.push(false);
        i = i + 1;
        assert(out@ =~= Seq::new(i as nat, |k: int| false));
    }
    out
}

/// Runs the keyed stages: by stable identifier, by exact body hash, by
/// canonical body hash. Returns the pairs and which old and new functions
/// they matched.
pub fn match_by_keys(old: &NormalizedModule, new: &NormalizedModule) -> (r: (Vec<FunctionPair>, Vec<bool>, Vec<bool>))
    ensures
        (r.0@, r.1@, r.2@) == keyed_matching(old.module.functions@, new.module.functions@),
{
    let old_fns = &old.module.functions;
    let new_fns = &new.module.functions;
    let mut matched_old = all_false(old_fns.len());
    let mut matched_new = all_false(new_fns.len());
    let mut pairs: Vec<FunctionPair> = Vec::new();
    match_by_key(old_fns, new_fns, MatchKey::StableId, MatchReason::SameStableId, &mut matched_old, &mut matched_new, &mut pairs);
    match_by_key(old_fns, new_fns, MatchKey::ExactBody, MatchReason::SameExactBodyHash, &mut matched_old, &mut matched_new, &mut pairs);
    match_by_key(
        old_fns,
        new_fns,
        MatchKey::CanonicalBody,
        MatchReason::SameCanonicalBodyHash,
        &mut matched_old,
        &mut matched_new,
        &mut pairs,
    );
    assert(pairs@ =~= keyed_matching(old_fns@, new_fns@).0);
    (pairs, matched_old, matched_new)
}

// ---------------------------------------------------------------------------
// Greedy pairing of ranked candidates
// ---------------------------------------------------------------------------

/// Taking candidates in order, each pair whose old and new function are
/// both still unmatched is kept and marks both matched.
pub open spec fn greedy_pairs(cands: Seq<(usize, usize)>, om: Seq<bool>, nm: Seq<bool>) -> (Seq<(usize, usize)>, Seq<bool>, Seq<bool>)
    decreases cands.len(),
{
    if cands.len() == 0 {
        (Seq::empty(), om, nm)
    } else {
        let prev = greedy_pairs(cands.drop_last(), om, nm);
        let c = cands.last();
        if prev.1[c.0 as int] || prev.2[c.1 as int] {
            prev
        } else {
            (prev.0.push(c), prev.1.update(c.0 as int, true), prev.2.update(c.1 as int, true))
        }
    }
}

proof fn lemma_greedy_lengths(cands: Seq<(usize, usize)>, om: Seq<bool>, nm: Seq<bool>)
    requires
        forall|k: int| 0 <= k < cands.len() ==> (#[trigger] cands[k]).0 < om.len() && cands[k].1 < nm.len(),
    ensures
        greedy_pairs(cands, om, nm).1.len() == om.len(),
        greedy_pairs(cands, om, nm).2.len() == nm.len(),
    decreases cands.len(),
{
    if cands.len() > 0 {
        lemma_greedy_lengths(cands.drop_last(), om, nm);
    }
}

/// Pairs ranked candidates greedily (see `greedy_pairs`), updating the
/// matched flags.
pub fn assign_in_order(candidates: &Vec<(usize, usize)>, matched_old: &mut Vec<bool>, matched_new: &mut Vec<bool>) -> (r: Vec<(usize, usize)>)
    requires
        forall|k: int|
            0 <= k < candidates@.len() ==> (#[trigger] candidates@[k]).0 < old(matched_old)@.len()
                && candidates@[k].1 < old(matched_new)@.len(),
    ensures
        (r@, final(matched_old)@, final(matched_new)@) == greedy_pairs(
            candidates@,
            old(matched_old)@,
            old(matched_new)@,
        ),
{
    let ghost om = matched_old@;
    let ghost nm = matched_new@;
    let mut out: Vec<(usize, usize)> = Vec::new();
    let mut i: usize = 0;
    while i < candidates.len()
        invariant
            i <= candidates@.len(),
            forall|k: int|
                0 <= k < candidates@.len() ==> (#[trigger] candidates@[k]).0 < om.len()
                    && candidates@[k].1 < nm.len(),
            (out@, matched_old@, matched_new@) == greedy_pairs(candidates@.take(i as int), om, nm),
        decreases candidates@.len() - i,
    {
        proof {
            assert(candidates@.take(i + 1).drop_last() =~= candidates@.take(i as int));
            assert(candidates@.take(i + 1).last() == candidates@[i as int]);
            lemma_greedy_lengths(candidates@.take(i as int), om, nm);
        }
        let (a, b) = candidates[i];
        if !matched_old[a] && !matched_new[b] {
            matched_old[a] = true;
            matched_new[b] = true;
            out.push((a, b));
        }
        i = i + 1;
    }
    assert(candidates@.take(candidates@.len() as int) =~= candidates@);
    out
}

// ---------------------------------------------------------------------------
// Unmatched functions
// ---------------------------------------------------------------------------

/// The identifiers of the functions whose source index is not among
/// `matched`, in function order.
pub open spec fn unmatched_ids(fs: Seq<FunctionIr>, matched: Seq<u32>) -> Seq<Seq<char>>
    decreases fs.len(),
{
    if fs.len() == 0 {
        Seq::empty()
    } else {
        let rest = unmatched_ids(fs.drop_last(), matched);
        if matched.contains(fs.last().source_index) {
            rest
        } else {
            rest.push(fs.last().id@)
        }
    }
}

fn contains_u32(v: &Vec<u32>, x: u32) -> (r: bool)
    ensures
        r == v@.contains(x),
{
    let mut i: usize = 0;
    while i < v.len()
        invariant
            i <= v@.len(),
            forall|k: int| 0 <= k < i ==> v@[k] != x,
        decreases v@.len() - i,
    {
        if v[i] == x {
            return true;
        }
        i = i + 1;
    }
    false
}

/// The identifiers of the functions of `module` whose source index no
/// match names.
pub fn unmatched_function_ids(module: &NormalizedModule, matched_source_indices: &Vec<u32>) -> (r: Vec<String>)
    ensures
        texts(r@) == unmatched_ids(module.module.functions@, matched_source_indices@),
{
    let fs = &module.module.functions;
    let mut out: Vec<String> = Vec::new();
    let mut i: usize = 0;
    while i < fs.len()
        invariant
            i <= fs@.len(),
            texts(out@) == unmatched_ids(fs@.take(i as int), matched_source_indices@),
        decreases fs@.len() - i,
    {
        proof {
            assert(fs@.take(i + 1).drop_last() =~= fs@.take(i as int));
            assert(fs@.take(i + 1).last() == fs@[i as int]);
        }
        if !contains_u32(matched_source_indices, fs[i].source_index) {
            let ghost before = out@;
            out.push(fs[i].id.clone());
            proof {
                crate::text::lemma_texts_push(before, fs@[i as int].id);
            }
        }
        i = i + 1;
    }
    assert(fs@.take(fs@.len() as int) =~= fs@);
    out
}

// ---------------------------------------------------------------------------
// Histogram keys and shared counts for similarity
// ---------------------------------------------------------------------------

/// A call target written by identifier when in range, else by index.
pub open spec fn target_key(fs: Seq<FunctionIr>, opcode: Seq<char>, i: u32) -> Seq<char> {
    if (i as int) < fs.len() {
        opcode + ":"@ + fs[i as int].id@
    } else {
        opcode + ":function_index:"@ + decimal(i as nat)
    }
}

/// The opcode histogram key of an instruction: the opcode name, with the
/// target of a direct call or function reference.
pub open spec fn opcode_key(fs: Seq<FunctionIr>, op: ParsedOperator) -> Seq<char> {
    match op.immediate {
        Immediate::Call(i) => target_key(fs, opcode_text(op.opcode), i),
        Immediate::RefFunc(i) => target_key(fs, opcode_text(op.opcode), i),
        _ => opcode_text(op.opcode),
    }
}

/// The immediate histogram key of an instruction: the opcode name with the
/// call target, or with the hash text of its immediate.
pub open spec fn immediate_key(fs: Seq<FunctionIr>, op: ParsedOperator) -> Seq<char> {
    match op.immediate {
        Immediate::Empty => opcode_text(op.opcode),
        Immediate::Call(i) => target_key(fs, opcode_text(op.opcode), i),
        Immediate::RefFunc(i) => target_key(fs, opcode_text(op.opcode), i),
        _ => opcode_text(op.opcode) + ":"@ + hash_text(op.immediate),
    }
}

fn push_target_key(out: &mut String, fs: &Vec<FunctionIr>, i: u32)
    ensures
        final(out)@ == target_key(fs@, old(out)@, i),
{
    let idx = i as usize;
    if idx < fs.len() {
        push_str(out, ":");
        push_str(out, fs[idx].id.as_str());
    } else {
        push_str(out, ":function_index:");
        push_decimal(out, i as u64);
    }
    assert(final(out)@ =~= target_key(fs@, old(out)@, i));
}

/// The opcode histogram key of an instruction of a function of `module`.
pub fn opcode_histogram_key(module: &NormalizedModule, operator: &ParsedOperator) -> (r: String)
    ensures
        r@ == opcode_key(module.module.functions@, *operator),
{
    let mut out = string_of(operator.opcode.as_str());
    match &operator.immediate {
        Immediate::Call(i) => push_target_key(&mut out, &module.module.functions, *i),
        Immediate::RefFunc(i) => push_target_key(&mut out, &module.module.functions, *i),
        _ => {},
    }
    out
}

/// The immediate histogram key of an instruction of a function of `module`.
pub fn immediate_histogram_key(module: &NormalizedModule, operator: &ParsedOperator) -> (r: String)
    ensures
        r@ == immediate_key(module.module.functions@, *operator),
{
    let mut out = string_of(operator.opcode.as_str());
    match &operator.immediate {
        Immediate::Empty => {},
        Immediate::Call(i) => push_target_key(&mut out, &module.module.functions, *i),
        Immediate::RefFunc(i) => push_target_key(&mut out, &module.module.functions, *i),
        _ => {
            push_str(&mut out, ":");
            let text = operator.immediate.as_hash_text();
            push_str(&mut out, text.as_str());
            assert(out@ =~= immediate_key(module.module.functions@, *operator));
        },
    }
    out
}

/// The opcode or immediate histogram keys of every instruction of `function`.
pub fn histogram_keys(module: &NormalizedModule, function: &FunctionIr, immediate: bool) -> (r: Vec<String>)
    ensures
        texts(r@) == function.operators@.map_values(
            |o: ParsedOperator|
                if immediate {
                    immediate_key(module.module.functions@, o)
                } else {
                    opcode_key(module.module.functions@, o)
                },
        ),
{
    let ghost f = |o: ParsedOperator|
        if immediate {
            immediate_key(module.module.functions@, o)
        } else {
            opcode_key(module.module.functions@, o)
        };
    let ops = &function.operators;
    let mut out: Vec<String> = Vec::new();
    let mut i: usize = 0;
    while i < ops.len()
        invariant
            i <= ops@.len(),
            f == (|o: ParsedOperator|
                if immediate {
                    immediate_key(module.module.functions@, o)
                } else {
                    opcode_key(module.module.functions@, o)
                }),
            texts(out@) == ops@.map_values(f).take(i as int),
        decreases ops@.len() - i,
    {
        let key = if immediate {
            immediate_histogram_key(module, &ops[i])
        } else {
            opcode_histogram_key(module, &ops[i])
        };
        let ghost before = out@;
        out.push(key);
        proof {
            crate::text::lemma_texts_push(before, key);
        }
        assert(texts(out@) =~= ops@.map_values(f).take(i + 1));
        i = i + 1;
    }
    assert(ops@.map_values(f).take(ops@.len() as int) =~= ops@.map_values(f));
    out
}

/// The position of the first element of `s` equal to `x`, or -1.
pub open spec fn first_index<A>(s: Seq<A>, x: A) -> int
    decreases s.len(),
{
    if s.len() == 0 {
        -1
    } else if s[0] == x {
        0
    } else {
        let r = first_index(s.drop_first(), x);
        if r < 0 {
            -1
        } else {
            r + 1
        }
    }
}

/// How many elements the two lists share, counting repeats: each element of
/// `a` in turn takes away an equal element of `b`, if one is left.
pub open spec fn shared_count<A>(a: Seq<A>, b: Seq<A>) -> nat
    decreases a.len(),
{
    if a.len() == 0 {
        0
    } else {
        let j = first_index(b, a[0]);
        if j >= 0 {
            1 + shared_count(a.drop_first(), b.remove(j))
        } else {
            shared_count(a.drop_first(), b)
        }
    }
}

proof fn lemma_first_index<A>(s: Seq<A>, x: A)
    ensures
        -1 <= first_index(s, x) < s.len(),
        first_index(s, x) >= 0 ==> s[first_index(s, x)] == x,
        first_index(s, x) >= 0 ==> forall|k: int| 0 <= k < first_index(s, x) ==> s[k] != x,
        first_index(s, x) < 0 ==> forall|k: int| 0 <= k < s.len() ==> s[k] != x,
    decreases s.len(),
{
    if s.len() > 0 && s[0] != x {
        lemma_first_index(s.drop_first(), x);
        assert forall|k: int| 0 < k < s.len() implies s[k] == s.drop_first()[k - 1] by {}
    }
}

/// Shared elements never outnumber either list.
pub proof fn lemma_shared_count_bound<A>(a: Seq<A>, b: Seq<A>)
    ensures
        shared_count(a, b) <= a.len(),
        shared_count(a, b) <= b.len(),
    decreases a.len(),
{
    if a.len() > 0 {
        let j = first_index(b, a[0]);
        lemma_first_index(b, a[0]);
        if j >= 0 {
            lemma_shared_count_bound(a.drop_first(), b.remove(j));
        } else {
            lemma_shared_count_bound(a.drop_first(), b);
        }
    }
}

/// The number of keys the two lists share, counting repeats.
pub fn shared_key_count(a: &Vec<String>, b: &Vec<String>) -> (r: usize)
    ensures
        r == shared_count(texts(a@), texts(b@)),
{
    let mut rest: Vec<String> = b.clone();
    assert(texts(rest@) =~= texts(b@)) by {
        assert forall|k: int| 0 <= k < rest@.len() implies rest@[k] == b@[k] by {
            assert(cloned::<String>(b@[k], rest@[k]));
        }
    }
    let mut count: usize = 0;
    let mut i: usize = 0;
    assert(texts(a@).skip(0) =~= texts(a@));
    while i < a.len()
        invariant
            i <= a@.len(),
            count <= i,
            count + shared_count(texts(a@).skip(i as int), texts(rest@)) == shared_count(texts(a@), texts(b@)),
        decreases a@.len() - i,
    {
        let ghost ta = texts(a@).skip(i as int);
        let ghost tr = texts(rest@);
        proof {
            assert(ta[0] == a@[i as int]@);
            assert(ta.drop_first() =~= texts(a@).skip(i + 1));
            lemma_first_index(tr, ta[0]);
        }
        let mut j: usize = 0;
        while j < rest.len() && !str_eq(rest[j].as_str(), a[i].as_str())
            invariant
                i < a@.len(),
                j <= rest@.len(),
                tr == texts(rest@),
                forall|k: int| 0 <= k < j ==> tr[k] != a@[i as int]@,
            decreases rest@.len() - j,
        {
            j = j + 1;
        }
        if j < rest.len() {
            proof {
                let fi = first_index(tr, ta[0]);
                assert(fi == j as int) by {
                    if 0 <= fi && fi < j {
                        assert(tr[fi] != a@[i as int]@);
                    }
                    if fi > j {
                        assert(tr[j as int] != ta[0]);
                    }
                    if fi < 0 {
                        assert(tr[j as int] != ta[0]);
                    }
                }
            }
            rest.remove(j);
            assert(texts(rest@) =~= tr.remove(j as int));
            count = count + 1;
        } else {
            proof {
                let fi = first_index(tr, ta[0]);
                if fi >= 0 {
                    assert(tr[fi] == ta[0]);
                }
            }
        }
        i = i + 1;
    }
    assert(texts(a@).skip(a@.len() as int) =~= Seq::<Seq<char>>::empty());
    count
}

/// The number of call targets the two lists share, counting repeats.
pub fn shared_call_count(a: &Vec<u32>, b: &Vec<u32>) -> (r: usize)
    ensures
        r == shared_count(a@, b@),
{
    let mut rest: Vec<u32> = b.clone();
    assert(rest@ =~= b@);
    let mut count: usize = 0;
    let mut i: usize = 0;
    assert(a@.skip(0) =~= a@);
    while i < a.len()
        invariant
            i <= a@.len(),
            count <= i,
            count + shared_count(a@.skip(i as int), rest@) == shared_count(a@, b@),
        decreases a@.len() - i,
    {
        let ghost ta = a@.skip(i as int);
        let ghost tr = rest@;
        proof {
            assert(ta[0] == a@[i as int]);
            assert(ta.drop_first() =~= a@.skip(i + 1));
            lemma_first_index(tr, ta[0]);
        }
        let mut j: usize = 0;
        while j < rest.len() && rest[j] != a[i]
            invariant
                i < a@.len(),
                j <= rest@.len(),
                tr == rest@,
                forall|k: int| 0 <= k < j ==> tr[k] != a@[i as int],
            decreases rest@.len() - j,
        {
            j = j + 1;
        }
        if j < rest.len() {
            proof {
                let fi = first_index(tr, ta[0]);
                assert(fi == j as int) by {
                    if 0 <= fi && fi < j {
                        assert(tr[fi] != a@[i as int]);
                    }
                    if fi > j {
                        assert(tr[j as int] != ta[0]);
                    }
                    if fi < 0 {
                        assert(tr[j as int] != ta[0]);
                    }
                }
            }
            rest.remove(j);
            count = count + 1;
        } else {
            proof {
                let fi = first_index(tr, ta[0]);
                if fi >= 0 {
                    assert(tr[fi] == ta[0]);
                }
            }
        }
        i = i + 1;
    }
    assert(a@.skip(a@.len() as int) =~= Seq::<u32>::empty());
    count
}

// ---------------------------------------------------------------------------
// Report order of pairs
// ---------------------------------------------------------------------------

/// Pairs are reported by old identifier, then new identifier, then old and
/// new source index.
pub open spec fn pair_lt(old: Seq<FunctionIr>, new: Seq<FunctionIr>, p: FunctionPair, q: FunctionPair) -> bool {
    let po = old[p.old_index as int];
    let pn = new[p.new_index as int];
    let qo = old[q.old_index as int];
    let qn = new[q.new_index as int];
    ||| seq_lt(po.id@, qo.id@)
    ||| po.id@ == qo.id@ && seq_lt(pn.id@, qn.id@)
    ||| po.id@ == qo.id@ && pn.id@ == qn.id@ && po.source_index < qo.source_index
    ||| po.id@ == qo.id@ && pn.id@ == qn.id@ && po.source_index == qo.source_index
        && pn.source_index < qn.source_index
}

/// Inserts `x` before the first pair that orders after it.
pub open spec fn insert_pair(old: Seq<FunctionIr>, new: Seq<FunctionIr>, sorted: Seq<FunctionPair>, x: FunctionPair) -> Seq<FunctionPair>
    decreases sorted.len(),
{
    if sorted.len() == 0 {
        seq![x]
    } else if !pair_lt(old, new, x, sorted[0]) {
        seq![sorted[0]] + insert_pair(old, new, sorted.drop_first(), x)
    } else {
        seq![x] + sorted
    }
}

/// The pairs in report order (a stable insertion sort: among pairs that
/// order alike, earlier ones stay first).
pub open spec fn sort_pairs(old: Seq<FunctionIr>, new: Seq<FunctionIr>, s: Seq<FunctionPair>) -> Seq<FunctionPair>
    decreases s.len(),
{
    if s.len() == 0 {
        Seq::empty()
    } else {
        insert_pair(old, new, sort_pairs(old, new, s.drop_last()), s.last())
    }
}

proof fn lemma_insert_pair_at(old: Seq<FunctionIr>, new: Seq<FunctionIr>, sorted: Seq<FunctionPair>, x: FunctionPair, k: int)
    requires
        0 <= k <= sorted.len(),
        forall|m: int| 0 <= m < k ==> !pair_lt(old, new, x, #[trigger] sorted[m]),
        k < sorted.len() ==> pair_lt(old, new, x, sorted[k]),
    ensures
        insert_pair(old, new, sorted, x) == sorted.take(k).push(x) + sorted.skip(k),
    decreases k,
{
    if k == 0 {
        assert(sorted.take(0).push(x) + sorted.skip(0) =~= seq![x] + sorted);
    } else {
        let rest = sorted.drop_first();
        assert forall|m: int| 0 <= m < k - 1 implies !pair_lt(old, new, x, #[trigger] rest[m]) by {
            assert(rest[m] == sorted[m + 1]);
        }
        if k - 1 < rest.len() {
            assert(rest[k - 1] == sorted[k]);
        }
        lemma_insert_pair_at(old, new, rest, x, k - 1);
        assert(!pair_lt(old, new, x, sorted[0]));
        assert(seq![sorted[0]] + (rest.take(k - 1).push(x) + rest.skip(k - 1)) =~= sorted.take(
            k,
        ).push(x) + sorted.skip(k));
    }
}

/// All pairs name functions of the two lists.
pub open spec fn pairs_in_range(pairs: Seq<FunctionPair>, old_len: nat, new_len: nat) -> bool {
    forall|k: int|
        0 <= k < pairs.len() ==> (#[trigger] pairs[k]).old_index < old_len && pairs[k].new_index
            < new_len
}

fn pair_before(old: &Vec<FunctionIr>, new: &Vec<FunctionIr>, p: FunctionPair, q: FunctionPair) -> (r: bool)
    requires
        p.old_index < old@.len(),
        q.old_index < old@.len(),
        p.new_index < new@.len(),
        q.new_index < new@.len(),
    ensures
        r == pair_lt(old@, new@, p, q),
{
    let po = &old[p.old_index];
    let qo = &old[q.old_index];
    let pn = &new[p.new_index];
    let qn = &new[q.new_index];
    if str_lt(po.id.as_str(), qo.id.as_str()) {
        return true;
    }
    if !str_eq(po.id.as_str(), qo.id.as_str()) {
        return false;
    }
    if str_lt(pn.id.as_str(), qn.id.as_str()) {
        return true;
    }
    if !str_eq(pn.id.as_str(), qn.id.as_str()) {
        return false;
    }
    po.source_index < qo.source_index || (po.source_index == qo.source_index && pn.source_index < qn.source_index)
}

/// The pairs in report order.
pub fn order_pairs(old: &NormalizedModule, new: &NormalizedModule, pairs: &Vec<FunctionPair>) -> (r: Vec<FunctionPair>)
    requires
        pairs_in_range(pairs@, old.module.functions@.len(), new.module.functions@.len()),
    ensures
        r@ == sort_pairs(old.module.functions@, new.module.functions@, pairs@),
{
    let of = &old.module.functions;
    let nf = &new.module.functions;
    let mut out: Vec<FunctionPair> = Vec::new();
    let mut i: usize = 0;
    while i < pairs.len()
        invariant
            i <= pairs@.len(),
            pairs_in_range(pairs@, of@.len(), nf@.len()),
            out@ == sort_pairs(of@, nf@, pairs@.take(i as int)),
            pairs_in_range(out@, of@.len(), nf@.len()),
        decreases pairs@.len() - i,
    {
        proof {
            assert(pairs@.take(i + 1).drop_last() =~= pairs@.take(i as int));
            assert(pairs@.take(i + 1).last() == pairs@[i as int]);
        }
        let x = pairs[i];
        let ghost before = out@;
        let n = out.len();
        let mut k: usize = 0;
        while k < n && !pair_before(of, nf, x, out[k])
            invariant
                n == out@.len(),
                out@ == before,
                k <= n,
                x.old_index < of@.len(),
                x.new_index < nf@.len(),
                pairs_in_range(out@, of@.len(), nf@.len()),
                forall|m: int| 0 <= m < k ==> !pair_lt(of@, nf@, x, #[trigger] out@[m]),
            decreases n - k,
        {
            k = k + 1;
        }
        proof {
            lemma_insert_pair_at(of@, nf@, before, x, k as int);
        }
        out.insert(k, x);
        proof {
            assert(out@ =~= before.take(k as int).push(x) + before.skip(k as int));
            assert forall|m: int| 0 <= m < out@.len() implies (#[trigger] out@[m]).old_index < of@.len()
                && out@[m].new_index < nf@.len() by {
                if m < k {
                    assert(out@[m] == before[m]);
                } else if m > k {
                    assert(out@[m] == before[m - 1]);
                }
            }
        }
        i = i + 1;
    }
    assert(pairs@.take(pairs@.len() as int) =~= pairs@);
    out
}

} // verus!
