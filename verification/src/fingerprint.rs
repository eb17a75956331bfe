//! Deterministic function fingerprints for exact-body and canonical-body
//! matching.

use vstd::prelude::*;

use crate::ir::{string_texts, FunctionIr, FunctionKindIr, Immediate, LocalIr, ModuleIr, ParsedOperator, ResolvedModule};
use crate::opcode::opcode_text;
use crate::render::{display_text_of, hash_text, join_texts};
use crate::text::{
    decimal, dedup_sorted, digit_char, hex_fixed, push_decimal, push_hex_fixed, push_str, sorted_unique,
    str_eq, string_of, texts,
};
use vstd::utf8::encode_utf8;

verus! {

/// A 64-bit FNV-1a digest.
#[derive(Debug, Clone, Copy, PartialEq, Eq, Structural, PartialOrd, Ord, Hash)]
pub struct FingerprintHash(u64);

impl View for FingerprintHash {
    type V = u64;

    closed spec fn view(&self) -> u64 {
        self.0
    }
}

impl FingerprintHash {
    /// The digest with the given value.
    pub fn new(value: u64) -> (r: FingerprintHash)
        ensures
            r@ == value,
    {
        FingerprintHash(value)
    }

    /// The 64-bit value of the digest.
    pub fn value(self) -> (r: u64)
        ensures
            r == self@,
    {
        self.0
    }
}

/// How often an opcode occurs in a function body.
#[derive(Debug, Clone, PartialEq, Eq)]
pub struct OpcodeCount {
    pub opcode: String,
    pub count: u32,
}

/// A reference to a function by its stable identifier.
#[derive(Debug, Clone, PartialEq, Eq)]
pub struct StableFuncRef {
    pub stable_id: String,
}

/// The fingerprint of one function.
#[derive(Debug, Clone, PartialEq, Eq)]
pub struct FuncFingerprint {
    pub stable_id: String,
    pub type_sig_hash: FingerprintHash,
    pub exact_body_hash: FingerprintHash,
    pub canonical_body_hash: FingerprintHash,
    pub opcode_histogram: Vec<OpcodeCount>,
    pub direct_call_targets: Vec<StableFuncRef>,
    pub instruction_count: u32,
}

/// The (opcode, count) pairs of a histogram.
pub open spec fn histogram_entries(v: Seq<OpcodeCount>) -> Seq<(Seq<char>, u32)> {
    v.map_values(|c: OpcodeCount| (c.opcode@, c.count))
}

/// The identifiers of a list of function references.
pub open spec fn ref_ids(v: Seq<StableFuncRef>) -> Seq<Seq<char>> {
    v.map_values(|r: StableFuncRef| r.stable_id@)
}

/// Two fingerprints carry the same data.
pub open spec fn same_fingerprint(a: FuncFingerprint, b: FuncFingerprint) -> bool {
    &&& a.stable_id@ == b.stable_id@
    &&& a.type_sig_hash@ == b.type_sig_hash@
    &&& a.exact_body_hash@ == b.exact_body_hash@
    &&& a.canonical_body_hash@ == b.canonical_body_hash@
    &&& histogram_entries(a.opcode_histogram@) == histogram_entries(b.opcode_histogram@)
    &&& ref_ids(a.direct_call_targets@) == ref_ids(b.direct_call_targets@)
    &&& a.instruction_count == b.instruction_count
}

/// A deep copy of a fingerprint.
pub fn copy_fingerprint(fp: &FuncFingerprint) -> (r: FuncFingerprint)
    ensures
        same_fingerprint(r, *fp),
{
    let mut histogram: Vec<OpcodeCount> = Vec::new();
    let mut i: usize = 0;
    while i < fp.opcode_histogram.len()
        invariant
            i <= fp.opcode_histogram.len(),
            histogram@.len() == i,
            forall|k: int|
                0 <= k < i ==> (#[trigger] histogram@[k]).opcode@ == fp.opcode_histogram@[k].opcode@
                    && histogram@[k].count == fp.opcode_histogram@[k].count,
        decreases fp.opcode_histogram.len() - i,
    {
        let entry = &fp.opcode_histogram[i];
        histogram.push(OpcodeCount { opcode: entry.opcode.clone(), count: entry.count });
        i = i + 1;
    }
    let mut targets: Vec<StableFuncRef> = Vec::new();
    let mut i: usize = 0;
    while i < fp.direct_call_targets.len()
        invariant
            i <= fp.direct_call_targets.len(),
            targets@.len() == i,
            forall|k: int|
                0 <= k < i ==> (#[trigger] targets@[k]).stable_id@
                    == fp.direct_call_targets@[k].stable_id@,
        decreases fp.direct_call_targets.len() - i,
    {
        targets.push(StableFuncRef { stable_id: fp.direct_call_targets[i].stable_id.clone() });
        i = i + 1;
    }
    assert(histogram_entries(histogram@) =~= histogram_entries(fp.opcode_histogram@));
    assert(ref_ids(targets@) =~= ref_ids(fp.direct_call_targets@));
    FuncFingerprint {
        stable_id: fp.stable_id.clone(),
        type_sig_hash: fp.type_sig_hash,
        exact_body_hash: fp.exact_body_hash,
        canonical_body_hash: fp.canonical_body_hash,
        opcode_histogram: histogram,
        direct_call_targets: targets,
        instruction_count: fp.instruction_count,
    }
}

// ---------------------------------------------------------------------------
// FNV-1a over a list of text parts
// ---------------------------------------------------------------------------

/// The FNV-1a 64-bit offset basis.
pub const FNV_OFFSET: u64 = 0xcbf29ce484222325;

/// The FNV-1a 64-bit prime.
pub const FNV_PRIME: u64 = 0x100000001b3;

/// One FNV-1a step: xor in a byte, then multiply modulo 2^64.
pub open spec fn fnv_step(h: u64, b: u8) -> u64 {
    (((h ^ (b as u64)) as nat * FNV_PRIME as nat) % 0x1_0000_0000_0000_0000nat) as u64
}

/// FNV-1a over a byte string, starting from `h`.
pub open spec fn fnv_bytes(h: u64, bytes: Seq<u8>) -> u64
    decreases bytes.len(),
{
    if bytes.len() == 0 {
        h
    } else {
        fnv_step(fnv_bytes(h, bytes.drop_last()), bytes.last())
    }
}

/// One part: its UTF-8 bytes, then the separator byte `0xff`.
pub open spec fn fnv_part(h: u64, part: Seq<char>) -> u64 {
    fnv_step(fnv_bytes(h, encode_utf8(part)), 0xff)
}

/// The hash of a list of parts, folded from the offset basis.
pub open spec fn fnv_parts(parts: Seq<Seq<char>>) -> u64
    decreases parts.len(),
{
    if parts.len() == 0 {
        FNV_OFFSET
    } else {
        fnv_part(fnv_parts(parts.drop_last()), parts.last())
    }
}

/// Hashes one more part into `h`.
fn hash_part_into(h: u64, part: &str) -> (r: u64)
    ensures
        r == fnv_part(h, part@),
{
    let bytes = part.as_bytes();
    let mut acc = h;
    let mut i: usize = 0;
    while i < bytes.len()
        invariant
            i <= bytes@.len(),
            bytes@ == encode_utf8(part@),
            acc == fnv_bytes(h, bytes@.take(i as int)),
        decreases bytes@.len() - i,
    {
        assert(bytes@.take(i + 1).drop_last() =~= bytes@.take(i as int));
        acc = (acc ^ (bytes[i] as u64)).wrapping_mul(FNV_PRIME);
        i = i + 1;
    }
    assert(bytes@.take(bytes@.len() as int) =~= bytes@);
    (acc ^ 0xff).wrapping_mul(FNV_PRIME)
}

/// The FNV-1a hash of a list of text parts, each followed by `0xff`.
pub fn hash_parts(parts: &Vec<String>) -> (r: FingerprintHash)
    ensures
        r@ == fnv_parts(texts(parts@)),
{
    let mut h: u64 = FNV_OFFSET;
    let mut i: usize = 0;
    while i < parts.len()
        invariant
            i <= parts@.len(),
            h == fnv_parts(texts(parts@).take(i as int)),
        decreases parts@.len() - i,
    {
        assert(texts(parts@).take(i + 1).drop_last() =~= texts(parts@).take(i as int));
        h = hash_part_into(h, parts[i].as_str());
        i = i + 1;
    }
    assert(texts(parts@).take(parts@.len() as int) =~= texts(parts@));
    FingerprintHash(h)
}

impl FingerprintHash {
    /// The digest as 16 lower-case hexadecimal digits.
    pub fn hex(self) -> (r: String)
        ensures
            r@ == hex_fixed(self@ as nat, 16),
    {
        let mut out = String::new();
        push_hex_fixed(&mut out, self.0, 16);
        assert(out@ =~= hex_fixed(self@ as nat, 16));
        out
    }
}

// ---------------------------------------------------------------------------
// What a fingerprint is made of
// ---------------------------------------------------------------------------

/// The hash part of a local declaration.
pub open spec fn local_part(l: LocalIr) -> Seq<char> {
    "local:"@ + decimal(l.count as nat) + ":"@ + l.value_type@
}

/// The hash parts of a function's local declarations.
pub open spec fn local_parts(ls: Seq<LocalIr>) -> Seq<Seq<char>> {
    ls.map_values(|l: LocalIr| local_part(l))
}

/// The parts of the exact body hash: the type, the locals and the display
/// text of every instruction.
pub open spec fn exact_body_parts(f: FunctionIr) -> Seq<Seq<char>> {
    seq!["exact-body"@, f.type_id@] + local_parts(f.locals@) + f.operators@.map_values(
        |o: ParsedOperator| "op:"@ + display_text_of(o),
    )
}

/// The canonical text of an instruction's immediate: a direct call names its
/// target by the target's identifier; everything else is its hash text.
pub open spec fn canonical_text(m: ModuleIr, o: ParsedOperator) -> Seq<char> {
    match o.immediate {
        Immediate::Call(i) => if (i as int) < m.functions@.len() {
            "Call { function: "@ + m.functions@[i as int].id@ + " }"@
        } else {
            "function_index:"@ + decimal(i as nat)
        },
        _ => hash_text(o.immediate),
    }
}

/// The parts of the canonical body hash, in which call targets are named by
/// identifier rather than by index.
pub open spec fn canonical_body_parts(m: ModuleIr, f: FunctionIr) -> Seq<Seq<char>> {
    seq!["canonical-body"@, f.type_id@] + local_parts(f.locals@) + f.operators@.map_values(
        |o: ParsedOperator| "op:"@ + opcode_text(o.opcode) + ":"@ + canonical_text(m, o),
    )
}

/// The canonical body hash of a function.
pub open spec fn canonical_hash_of(m: ModuleIr, f: FunctionIr) -> u64 {
    fnv_parts(canonical_body_parts(m, f))
}

/// One character inside a JSON string: `"` and a backslash behind a
/// backslash; backspace, tab, newline, form feed and carriage return as a
/// backslash and `b`, `t`, `n`, `f`, `r`; any other character below U+0020
/// as a backslash, `u00` and two lowercase hex digits; every other
/// character as it is.
pub open spec fn json_char(c: char) -> Seq<char> {
    if c == '"' {
        seq!['\\', '"']
    } else if c == '\\' {
        seq!['\\', '\\']
    } else if c == '\u{8}' {
        seq!['\\', 'b']
    } else if c == '\t' {
        seq!['\\', 't']
    } else if c == '\n' {
        seq!['\\', 'n']
    } else if c == '\u{c}' {
        seq!['\\', 'f']
    } else if c == '\r' {
        seq!['\\', 'r']
    } else if (c as u32) < 0x20 {
        seq!['\\', 'u', '0', '0', digit_char((c as u32 / 16) as nat), digit_char((c as u32 % 16) as nat)]
    } else {
        seq![c]
    }
}

/// The characters of a string, each written as inside a JSON string.
pub open spec fn json_chars(s: Seq<char>) -> Seq<char>
    decreases s.len(),
{
    if s.len() == 0 {
        Seq::empty()
    } else {
        json_chars(s.drop_last()) + json_char(s.last())
    }
}

/// A JSON string: the escaped characters between double quotes.
pub open spec fn json_quoted(s: Seq<char>) -> Seq<char> {
    seq!['"'] + json_chars(s) + seq!['"']
}

/// The compact JSON array of the given strings: the quoted strings joined by
/// `,` between `[` and `]`.
pub open spec fn json_string_array(names: Seq<Seq<char>>) -> Seq<char> {
    seq!['['] + join_texts(names.map_values(|n: Seq<char>| json_quoted(n)), seq![',']) + seq![']']
}

/// The stable identifier of a function from its parts: an import keeps its
/// identifier; a defined function is named by its single export name, by all
/// its export names, or, when not exported, by its type and body hash.
pub open spec fn stable_id_from(
    kind: FunctionKindIr,
    id: Seq<char>,
    export_names: Seq<Seq<char>>,
    type_id: Seq<char>,
    body_hash: u64,
) -> Seq<char> {
    match kind {
        FunctionKindIr::Imported => id,
        FunctionKindIr::Defined => if export_names.len() == 1 {
            "func:export:"@ + export_names[0] + ":"@ + type_id
        } else if export_names.len() == 0 {
            "func:type:"@ + type_id + ":body:"@ + hex_fixed(body_hash as nat, 16)
        } else {
            "func:exports:"@ + json_string_array(export_names) + ":"@ + type_id
        },
    }
}

/// The stable identifier of a function given its canonical body hash.
pub open spec fn stable_id_for(f: FunctionIr, body_hash: u64) -> Seq<char> {
    stable_id_from(f.kind, f.id@, string_texts(f.export_names), f.type_id@, body_hash)
}

/// The opcode names of a list of instructions.
pub open spec fn op_texts(ops: Seq<ParsedOperator>) -> Seq<Seq<char>> {
    ops.map_values(|o: ParsedOperator| opcode_text(o.opcode))
}

/// How many times `t` occurs in `s`.
pub open spec fn occurrences(s: Seq<Seq<char>>, t: Seq<char>) -> nat
    decreases s.len(),
{
    if s.len() == 0 {
        0
    } else {
        occurrences(s.drop_last(), t) + if s.last() == t {
            1nat
        } else {
            0nat
        }
    }
}

/// Each distinct text in increasing order, with the number of its
/// occurrences (kept to 32 bits).
pub open spec fn histogram_of(ts: Seq<Seq<char>>) -> Seq<(Seq<char>, u32)> {
    sorted_unique(ts).map_values(|k: Seq<char>| (k, occurrences(ts, k) as u32))
}

/// The identifiers of the functions that the in-range call indices name,
/// in call order.
pub open spec fn call_target_ids(functions: Seq<FunctionIr>, calls: Seq<u32>) -> Seq<Seq<char>>
    decreases calls.len(),
{
    if calls.len() == 0 {
        Seq::empty()
    } else {
        let rest = call_target_ids(functions, calls.drop_last());
        if (calls.last() as int) < functions.len() {
            rest.push(functions[calls.last() as int].id@)
        } else {
            rest
        }
    }
}

/// `fp` is the fingerprint of `f` within module `m`.
pub open spec fn is_fingerprint_of(fp: FuncFingerprint, m: ModuleIr, f: FunctionIr) -> bool {
    &&& fp.stable_id@ == stable_id_for(f, canonical_hash_of(m, f))
    &&& fp.type_sig_hash@ == fnv_parts(seq![f.type_id@])
    &&& fp.exact_body_hash@ == fnv_parts(exact_body_parts(f))
    &&& fp.canonical_body_hash@ == canonical_hash_of(m, f)
    &&& histogram_entries(fp.opcode_histogram@) == histogram_of(op_texts(f.operators@))
    &&& ref_ids(fp.direct_call_targets@) == sorted_unique(
        call_target_ids(m.functions@, f.direct_calls@),
    )
    &&& fp.instruction_count == f.operators@.len() as u32
}

proof fn lemma_occurrences_bound(s: Seq<Seq<char>>, t: Seq<char>)
    ensures
        occurrences(s, t) <= s.len(),
    decreases s.len(),
{
    if s.len() > 0 {
        lemma_occurrences_bound(s.drop_last(), t);
    }
}

// ---------------------------------------------------------------------------
// Computing a fingerprint
// ---------------------------------------------------------------------------

/// `serde_json::Value::from` on a list of strings, written by the value's
/// compact `Display` impl: the claim is the text that `json_string_array`
/// spells out (`[`, the strings quoted and escaped by serde_json's escape
/// table, joined by `,`, then `]`).
#[verifier::external_body]
fn json_array_text(names: &Vec<String>) -> (r: String)
    ensures
        r@ == json_string_array(string_texts(*names)),
{
    serde_json::Value::from(names.clone()).to_string()
}

/// Appends the hash parts of the locals to `parts`.
fn push_local_parts(parts: &mut Vec<String>, locals: &Vec<LocalIr>)
    ensures
        texts(final(parts)@) == texts(old(parts)@) + local_parts(locals@),
{
    let ghost start = texts(parts@);
    let mut i: usize = 0;
    while i < locals.len()
        invariant
            i <= locals@.len(),
            texts(parts@) == start + local_parts(locals@).take(i as int),
        decreases locals@.len() - i,
    {
        let mut part = string_of("local:");
        push_decimal(&mut part, locals[i].count as u64);
        push_str(&mut part, ":");
        push_str(&mut part, locals[i].value_type.as_str());
        assert(part@ =~= local_part(locals@[i as int]));
        let ghost before = parts@;
        parts.push(part);
        proof {
            assert(parts@ =~= before.push(parts@.last()));
            crate::text::lemma_texts_push(before, parts@.last());
        }
        assert(texts(parts@) =~= start + local_parts(locals@).take(i + 1));
        i = i + 1;
    }
    assert(local_parts(locals@).take(locals@.len() as int) =~= local_parts(locals@));
}

/// The exact body hash: type, locals and the display text of each instruction.
fn exact_body_hash(function: &FunctionIr) -> (r: FingerprintHash)
    ensures
        r@ == fnv_parts(exact_body_parts(*function)),
{
    let mut parts: Vec<String> = Vec::new();
    parts.push(string_of("exact-body"));
    parts.push(function.type_id.clone());
    assert(texts(parts@) =~= seq!["exact-body"@, function.type_id@]);
    push_local_parts(&mut parts, &function.locals);
    let ghost start = texts(parts@);
    let ops = &function.operators;
    let ghost op_parts = ops@.map_values(|o: ParsedOperator| "op:"@ + display_text_of(o));
    let mut i: usize = 0;
    while i < ops.len()
        invariant
            i <= ops@.len(),
            op_parts == ops@.map_values(|o: ParsedOperator| "op:"@ + display_text_of(o)),
            texts(parts@) == start + op_parts.take(i as int),
        decreases ops@.len() - i,
    {
        let mut part = string_of("op:");
        let text = ops[i].display_text();
        push_str(&mut part, text.as_str());
        let ghost before = parts@;
        parts.push(part);
        proof {
            assert(parts@ =~= before.push(parts@.last()));
            crate::text::lemma_texts_push(before, parts@.last());
        }
        assert(texts(parts@) =~= start + op_parts.take(i + 1));
        i = i + 1;
    }
    assert(op_parts.take(ops@.len() as int) =~= op_parts);
    assert(texts(parts@) =~= exact_body_parts(*function));
    hash_parts(&parts)
}

/// The canonical text of an instruction's immediate.
fn canonical_operator_text(module: &ModuleIr, operator: &ParsedOperator) -> (r: String)
    ensures
        r@ == canonical_text(*module, *operator),
{
    match &operator.immediate {
        Immediate::Call(index) => {
            let i = *index as usize;
            if i < module.functions.len() {
                let mut out = string_of("Call { function: ");
                push_str(&mut out, module.functions[i].id.as_str());
                push_str(&mut out, " }");
                assert(out@ =~= canonical_text(*module, *operator));
                out
            } else {
                let mut out = string_of("function_index:");
                push_decimal(&mut out, *index as u64);
                assert(out@ =~= canonical_text(*module, *operator));
                out
            }
        },
        _ => operator.immediate.as_hash_text(),
    }
}

/// The canonical body hash: like the exact hash, but each instruction is
/// written by opcode and canonical immediate text.
fn canonical_body_hash(module: &ModuleIr, function: &FunctionIr) -> (r: FingerprintHash)
    ensures
        r@ == canonical_hash_of(*module, *function),
{
    let mut parts: Vec<String> = Vec::new();
    parts.push(string_of("canonical-body"));
    parts.push(function.type_id.clone());
    assert(texts(parts@) =~= seq!["canonical-body"@, function.type_id@]);
    push_local_parts(&mut parts, &function.locals);
    let ghost start = texts(parts@);
    let ops = &function.operators;
    let ghost op_parts = ops@.map_values(
        |o: ParsedOperator| "op:"@ + opcode_text(o.opcode) + ":"@ + canonical_text(*module, o),
    );
    let mut i: usize = 0;
    while i < ops.len()
        invariant
            i <= ops@.len(),
            op_parts == ops@.map_values(
                |o: ParsedOperator| "op:"@ + opcode_text(o.opcode) + ":"@ + canonical_text(*module, o),
            ),
            texts(parts@) == start + op_parts.take(i as int),
        decreases ops@.len() - i,
    {
        let mut part = string_of("op:");
        push_str(&mut part, ops[i].opcode.as_str());
        push_str(&mut part, ":");
        let text = canonical_operator_text(module, &ops[i]);
        push_str(&mut part, text.as_str());
        assert(part@ =~= op_parts[i as int]);
        let ghost before = parts@;
        parts.push(part);
        proof {
            assert(parts@ =~= before.push(parts@.last()));
            crate::text::lemma_texts_push(before, parts@.last());
        }
        assert(texts(parts@) =~= start + op_parts.take(i + 1));
        i = i + 1;
    }
    assert(op_parts.take(ops@.len() as int) =~= op_parts);
    assert(texts(parts@) =~= canonical_body_parts(*module, *function));
    hash_parts(&parts)
}

/// How many instructions have the opcode name `name`.
fn count_opcode(ops: &Vec<ParsedOperator>, name: &str) -> (r: u64)
    ensures
        r == occurrences(op_texts(ops@), name@),
{
    let ghost ts = op_texts(ops@);
    let mut c: u64 = 0;
    let mut i: usize = 0;
    while i < ops.len()
        invariant
            i <= ops@.len(),
            ts == op_texts(ops@),
            c == occurrences(ts.take(i as int), name@),
        decreases ops@.len() - i,
    {
        proof {
            assert(ts.take(i + 1).drop_last() =~= ts.take(i as int));
            lemma_occurrences_bound(ts.take(i as int), name@);
        }
        if str_eq(ops[i].opcode.as_str(), name) {
            c = c + 1;
        }
        i = i + 1;
    }
    assert(ts.take(ops@.len() as int) =~= ts);
    c
}

/// Each opcode name used in the body, in increasing order, with its count.
fn opcode_histogram(function: &FunctionIr) -> (r: Vec<OpcodeCount>)
    ensures
        histogram_entries(r@) == histogram_of(op_texts(function.operators@)),
{
    let ops = &function.operators;
    let mut names: Vec<String> = Vec::new();
    let mut i: usize = 0;
    while i < ops.len()
        invariant
            i <= ops@.len(),
            texts(names@) == op_texts(ops@).take(i as int),
        decreases ops@.len() - i,
    {
        let ghost before = names@;
        names.push(string_of(ops[i].opcode.as_str()));
        proof {
            assert(names@ =~= before.push(names@.last()));
            crate::text::lemma_texts_push(before, names@.last());
        }
        assert(texts(names@) =~= op_texts(ops@).take(i + 1));
        i = i + 1;
    }
    assert(op_texts(ops@).take(ops@.len() as int) =~= op_texts(ops@));
    let keys = dedup_sorted(names);
    let ghost ts = op_texts(ops@);
    let mut out: Vec<OpcodeCount> = Vec::new();
    let mut k: usize = 0;
    while k < keys.len()
        invariant
            k <= keys@.len(),
            ts == op_texts(ops@),
            texts(keys@) == sorted_unique(ts),
            histogram_entries(out@) == histogram_of(ts).take(k as int),
        decreases keys@.len() - k,
    {
        let c = count_opcode(ops, keys[k].as_str());
        let ghost before = out@;
        let entry = OpcodeCount { opcode: keys[k].clone(), count: #[verifier::truncate] (c as u32) };
        out.push(entry);
        proof {
            assert(out@ =~= before.push(entry));
            assert(histogram_entries(out@) =~= histogram_entries(before).push((entry.opcode@, entry.count)));
            assert(texts(keys@)[k as int] == keys@[k as int]@);
        }
        assert(histogram_entries(out@) =~= histogram_of(ts).take(k + 1));
        k = k + 1;
    }
    assert(histogram_of(ts).take(keys@.len() as int) =~= histogram_of(ts));
    out
}

/// The identifiers of the functions called directly, sorted, each once.
fn direct_call_targets(module: &ModuleIr, function: &FunctionIr) -> (r: Vec<StableFuncRef>)
    ensures
        ref_ids(r@) == sorted_unique(call_target_ids(module.functions@, function.direct_calls@)),
{
    let calls = &function.direct_calls;
    let mut ids: Vec<String> = Vec::new();
    let mut i: usize = 0;
    while i < calls.len()
        invariant
            i <= calls@.len(),
            texts(ids@) == call_target_ids(module.functions@, calls@.take(i as int)),
        decreases calls@.len() - i,
    {
        assert(calls@.take(i + 1).drop_last() =~= calls@.take(i as int));
        let idx = calls[i] as usize;
        if idx < module.functions.len() {
            ids.push(module.functions[idx].id.clone());
            assert(texts(ids@) =~= call_target_ids(module.functions@, calls@.take(i + 1)));
        }
        i = i + 1;
    }
    assert(calls@.take(calls@.len() as int) =~= calls@);
    let keys = dedup_sorted(ids);
    let mut out: Vec<StableFuncRef> = Vec::new();
    let mut k: usize = 0;
    while k < keys.len()
        invariant
            k <= keys@.len(),
            ref_ids(out@) == texts(keys@).take(k as int),
        decreases keys@.len() - k,
    {
        let ghost before = out@;
        let entry = StableFuncRef { stable_id: keys[k].clone() };
        out.push(entry);
        proof {
            assert(out@ =~= before.push(entry));
            assert(ref_ids(out@) =~= ref_ids(before).push(entry.stable_id@));
            assert(texts(keys@)[k as int] == keys@[k as int]@);
        }
        assert(ref_ids(out@) =~= texts(keys@).take(k + 1));
        k = k + 1;
    }
    assert(texts(keys@).take(keys@.len() as int) =~= texts(keys@));
    out
}

/// The stable identifier of a function, given its canonical body hash.
fn stable_function_id_for_hash(function: &FunctionIr, canonical_body_hash: FingerprintHash) -> (r: String)
    ensures
        r@ == stable_id_for(*function, canonical_body_hash@),
{
    match function.kind {
        FunctionKindIr::Imported => function.id.clone(),
        FunctionKindIr::Defined => {
            let n = function.export_names.len();
            if n == 1 {
                let mut out = string_of("func:export:");
                push_str(&mut out, function.export_names[0].as_str());
                push_str(&mut out, ":");
                push_str(&mut out, function.type_id.as_str());
                assert(out@ =~= stable_id_for(*function, canonical_body_hash@));
                out
            } else if n == 0 {
                let mut out = string_of("func:type:");
                push_str(&mut out, function.type_id.as_str());
                push_str(&mut out, ":body:");
                let hex = canonical_body_hash.hex();
                push_str(&mut out, hex.as_str());
                assert(out@ =~= stable_id_for(*function, canonical_body_hash@));
                out
            } else {
                let mut out = string_of("func:exports:");
                let json = json_array_text(&function.export_names);
                push_str(&mut out, json.as_str());
                push_str(&mut out, ":");
                push_str(&mut out, function.type_id.as_str());
                assert(out@ =~= stable_id_for(*function, canonical_body_hash@));
                out
            }
        },
    }
}

/// The stable identifier of `function` within `module`.
pub fn stable_function_id(module: &ModuleIr, function: &FunctionIr) -> (r: String)
    ensures
        r@ == stable_id_for(*function, canonical_hash_of(*module, *function)),
{
    stable_function_id_for_hash(function, canonical_body_hash(module, function))
}

/// The fingerprint of `function` within `module`.
pub fn function_fingerprint(module: &ModuleIr, function: &FunctionIr) -> (r: FuncFingerprint)
    ensures
        is_fingerprint_of(r, *module, *function),
{
    let exact = exact_body_hash(function);
    let canonical = canonical_body_hash(module, function);
    let mut sig: Vec<String> = Vec::new();
    sig.push(function.type_id.clone());
    assert(texts(sig@) =~= seq![function.type_id@]);
    FuncFingerprint {
        stable_id: stable_function_id_for_hash(function, canonical),
        type_sig_hash: hash_parts(&sig),
        exact_body_hash: exact,
        canonical_body_hash: canonical,
        opcode_histogram: opcode_histogram(function),
        direct_call_targets: direct_call_targets(module, function),
        instruction_count: function.operators.len() as u32,
    }
}

/// The fingerprint of every function of the module, in order.
pub fn module_fingerprints(module: &ResolvedModule) -> (r: Vec<FuncFingerprint>)
    ensures
        r@.len() == module.module.functions@.len(),
        forall|i: int|
            0 <= i < r@.len() ==> is_fingerprint_of(
                #[trigger] r@[i],
                module.module,
                module.module.functions@[i],
            ),
{
    let m = &module.module;
    let mut out: Vec<FuncFingerprint> = Vec::new();
    let mut i: usize = 0;
    while i < m.functions.len()
        invariant
            i <= m.functions@.len(),
            out@.len() == i,
            forall|k: int| 0 <= k < i ==> is_fingerprint_of(#[trigger] out@[k], *m, m.functions@[k]),
        decreases m.functions@.len() - i,
    {
        out.push(function_fingerprint(m, &m.functions[i]));
        i = i + 1;
    }
    out
}

} // verus!
