//! Text renderings of instructions: the stable text that goes into hashes
//! and the display text shown in reports.

use vstd::prelude::*;

use crate::ir::{string_texts, Immediate, ParsedOperator};
use crate::opcode::opcode_text;
use crate::text::{
    decimal, hex_fixed, push_decimal, push_hex_fixed, push_signed_decimal, push_str,
    signed_decimal,
};

verus! {

// ---------------------------------------------------------------------------
// Joining
// ---------------------------------------------------------------------------

/// The parts written one after the other with `sep` between neighbours.
pub open spec fn join_texts(parts: Seq<Seq<char>>, sep: Seq<char>) -> Seq<char>
    decreases parts.len(),
{
    if parts.len() == 0 {
        Seq::empty()
    } else if parts.len() == 1 {
        parts[0]
    } else {
        join_texts(parts.drop_last(), sep) + sep + parts.last()
    }
}

/// Decimal renderings of a list of indices.
pub open spec fn decimals(v: Seq<u32>) -> Seq<Seq<char>> {
    v.map_values(|x: u32| decimal(x as nat))
}

/// Decimal renderings of a list of bytes.
pub open spec fn byte_decimals(v: Seq<u8>) -> Seq<Seq<char>> {
    v.map_values(|b: u8| decimal(b as nat))
}

/// Two-digit hexadecimal renderings of a list of bytes.
pub open spec fn byte_hex(v: Seq<u8>) -> Seq<Seq<char>> {
    v.map_values(|b: u8| hex_fixed(b as nat, 2))
}

/// `0x`-prefixed two-digit hexadecimal renderings of a list of bytes.
pub open spec fn byte_hex_prefixed(v: Seq<u8>) -> Seq<Seq<char>> {
    v.map_values(|b: u8| "0x"@ + hex_fixed(b as nat, 2))
}

/// A bracketed, comma-and-space separated list, as Rust's `Debug` writes a slice.
pub open spec fn debug_list(parts: Seq<Seq<char>>) -> Seq<char> {
    "["@ + join_texts(parts, ", "@) + "]"@
}

/// Rust's `Debug` rendering of a string (quoted and escaped).
pub uninterp spec fn str_debug(s: Seq<char>) -> Seq<char>;

/// Debug renderings of a list of strings.
pub open spec fn debug_strings(v: Seq<Seq<char>>) -> Seq<Seq<char>> {
    v.map_values(|s: Seq<char>| str_debug(s))
}

/// Joining one more part onto a prefix of the parts.
pub proof fn lemma_join_step(parts: Seq<Seq<char>>, sep: Seq<char>, i: int)
    requires
        0 <= i < parts.len(),
    ensures
        join_texts(parts.take(i + 1), sep) == if i == 0 {
            parts[0]
        } else {
            join_texts(parts.take(i), sep) + sep + parts[i]
        },
{
    assert(parts.take(i + 1).drop_last() =~= parts.take(i));
    assert(parts.take(i + 1).last() == parts[i]);
}

/// Rust's `{:?}` of a string.
#[verifier::external_body]
fn debug_text(s: &str) -> (r: String)
    ensures
        r@ == str_debug(s@),
{
    format!("{:?}", s)
}

/// Appends the decimal renderings of `v`, joined by `sep`.
fn push_joined_decimals(out: &mut String, v: &Vec<u32>, sep: &str)
    ensures
        final(out)@ == old(out)@ + join_texts(decimals(v@), sep@),
{
    let ghost start = out@;
    let ghost parts = decimals(v@);
    let mut i: usize = 0;
    while i < v.len()
        invariant
            i <= v.len(),
            parts == decimals(v@),
            out@ == start + join_texts(parts.take(i as int), sep@),
        decreases v.len() - i,
    {
        proof {
            lemma_join_step(parts, sep@, i as int);
        }
        if i > 0 {
            push_str(out, sep);
        }
        push_decimal(out, v[i] as u64);
        i = i + 1;
        proof {
            assert(out@ =~= start + join_texts(parts.take(i as int), sep@));
        }
    }
    proof {
        assert(parts.take(v.len() as int) =~= parts);
    }
}

/// How a byte is written in a list of bytes.
#[derive(Clone, Copy, PartialEq, Eq, Structural)]
enum ByteStyle {
    Decimal,
    Hex,
    PrefixedHex,
}

spec fn byte_parts(v: Seq<u8>, style: ByteStyle) -> Seq<Seq<char>> {
    match style {
        ByteStyle::Decimal => byte_decimals(v),
        ByteStyle::Hex => byte_hex(v),
        ByteStyle::PrefixedHex => byte_hex_prefixed(v),
    }
}

/// Appends the renderings of `v` in the given style, joined by `sep`.
fn push_joined_bytes(out: &mut String, v: &[u8], style: ByteStyle, sep: &str)
    ensures
        final(out)@ == old(out)@ + join_texts(byte_parts(v@, style), sep@),
{
    let ghost start = out@;
    let ghost parts = byte_parts(v@, style);
    let mut i: usize = 0;
    while i < v.len()
        invariant
            i <= v.len(),
            parts == byte_parts(v@, style),
            out@ == start + join_texts(parts.take(i as int), sep@),
        decreases v.len() - i,
    {
        proof {
            lemma_join_step(parts, sep@, i as int);
        }
        if i > 0 {
            push_str(out, sep);
        }
        let b = v[i];
        match style {
            ByteStyle::Decimal => push_decimal(out, b as u64),
            ByteStyle::Hex => push_hex_fixed(out, b as u64, 2),
            ByteStyle::PrefixedHex => {
                push_str(out, "0x");
                push_hex_fixed(out, b as u64, 2);
            },
        }
        i = i + 1;
        proof {
            assert(out@ =~= start + join_texts(parts.take(i as int), sep@));
        }
    }
    proof {
        assert(parts.take(v.len() as int) =~= parts);
    }
}

/// Appends the strings of `v`, joined by `sep`; each written by its `Debug`
/// rendering when `debug` holds.
fn push_joined_strings(out: &mut String, v: &Vec<String>, debug: bool, sep: &str)
    ensures
        final(out)@ == old(out)@ + join_texts(
            if debug {
                debug_strings(string_texts(*v))
            } else {
                string_texts(*v)
            },
            sep@,
        ),
{
    let ghost start = out@;
    let ghost parts = if debug {
        debug_strings(string_texts(*v))
    } else {
        string_texts(*v)
    };
    let mut i: usize = 0;
    while i < v.len()
        invariant
            i <= v.len(),
            parts == (if debug {
                debug_strings(string_texts(*v))
            } else {
                string_texts(*v)
            }),
            out@ == start + join_texts(parts.take(i as int), sep@),
        decreases v.len() - i,
    {
        proof {
            lemma_join_step(parts, sep@, i as int);
        }
        if i > 0 {
            push_str(out, sep);
        }
        if debug {
            let d = debug_text(v[i].as_str());
            push_str(out, d.as_str());
        } else {
            push_str(out, v[i].as_str());
        }
        i = i + 1;
        proof {
            assert(out@ =~= start + join_texts(parts.take(i as int), sep@));
        }
    }
    proof {
        assert(parts.take(v.len() as int) =~= parts);
    }
}

/// Appends `label` followed by the decimal rendering of `n`.
fn push_labeled(out: &mut String, label: &str, n: u64)
    ensures
        final(out)@ == old(out)@ + label@ + decimal(n as nat),
{
    push_str(out, label);
    push_decimal(out, n);
    proof {
        assert(final(out)@ =~= old(out)@ + label@ + decimal(n as nat));
    }
}

/// Appends `label` followed by the text of `s`.
fn push_labeled_text(out: &mut String, label: &str, s: &str)
    ensures
        final(out)@ == old(out)@ + label@ + s@,
{
    push_str(out, label);
    push_str(out, s);
    proof {
        assert(final(out)@ =~= old(out)@ + label@ + s@);
    }
}

// ---------------------------------------------------------------------------
// Hash text of an immediate
// ---------------------------------------------------------------------------

/// The deterministic text of an immediate that goes into body hashes.
pub open spec fn hash_text(imm: Immediate) -> Seq<char> {
    match imm {
        Immediate::Empty => Seq::empty(),
        Immediate::BlockType(ty) => "blockty:"@ + ty@,
        Immediate::BrTable { targets, default_target } => "br_table:["@ + join_texts(
            decimals(targets@),
            ","@,
        ) + "],default:"@ + decimal(default_target as nat),
        Immediate::Call(i) => "function_index:"@ + decimal(i as nat),
        Immediate::CallIndirect { type_index, table_index } => "type_index:"@ + decimal(
            type_index as nat,
        ) + ",table_index:"@ + decimal(table_index as nat),
        Immediate::CallRef(t) => "type_index:"@ + decimal(t as nat),
        Immediate::Local(i) => "local_index:"@ + decimal(i as nat),
        Immediate::Global(i) => "global_index:"@ + decimal(i as nat),
        Immediate::Branch(d) => "relative_depth:"@ + decimal(d as nat),
        Immediate::MemArg { align, offset } => "align:"@ + decimal(align as nat) + ",offset:"@
            + decimal(offset as nat),
        Immediate::MemoryIndex(i) => "mem:"@ + decimal(i as nat),
        Immediate::MemoryCopy { dst_index, src_index } => "dst:"@ + decimal(dst_index as nat)
            + ",src:"@ + decimal(src_index as nat),
        Immediate::DataIndex(i) => "data:"@ + decimal(i as nat),
        Immediate::ElemIndex(i) => "elem:"@ + decimal(i as nat),
        Immediate::TableCopy { dst_table, src_table } => "dst:"@ + decimal(dst_table as nat)
            + ",src:"@ + decimal(src_table as nat),
        Immediate::TableIndex(i) => "table:"@ + decimal(i as nat),
        Immediate::I32Const(v) => "value:"@ + signed_decimal(v as int),
        Immediate::I64Const(v) => "value:"@ + signed_decimal(v as int),
        Immediate::F32Const(_, t) => "value:"@ + t@,
        Immediate::F64Const(_, t) => "value:"@ + t@,
        Immediate::RefNull(ht) => "hty:"@ + ht@,
        Immediate::RefFunc(i) => "function_index:"@ + decimal(i as nat),
        Immediate::Lane(i) => "lane:"@ + decimal(i as nat),
        Immediate::SimdMemLane { align, offset, lane } => "align:"@ + decimal(align as nat)
            + ",offset:"@ + decimal(offset as nat) + ",lane:"@ + decimal(lane as nat),
        Immediate::Shuffle(lanes) => "lanes:["@ + join_texts(byte_decimals(lanes@), ","@)
            + "]"@,
        Immediate::V128Const(bytes) => "bytes:"@ + join_texts(byte_hex(bytes@), Seq::empty()),
        Immediate::SelectTypes(types) => "types:["@ + join_texts(string_texts(types), ","@)
            + "]"@,
        Immediate::StructType(i) => "type_index:"@ + decimal(i as nat),
        Immediate::StructField { type_index, field_index } => "type_index:"@ + decimal(
            type_index as nat,
        ) + ",field_index:"@ + decimal(field_index as nat),
        Immediate::ArrayType(i) => "type_index:"@ + decimal(i as nat),
        Immediate::ArrayNewFixed { type_index, size } => "type_index:"@ + decimal(
            type_index as nat,
        ) + ",size:"@ + decimal(size as nat),
        Immediate::ArrayNewData { type_index, data_index } => "type_index:"@ + decimal(
            type_index as nat,
        ) + ",data_index:"@ + decimal(data_index as nat),
        Immediate::ArrayNewElem { type_index, elem_index } => "type_index:"@ + decimal(
            type_index as nat,
        ) + ",elem_index:"@ + decimal(elem_index as nat),
        Immediate::RefCast { src_type, dst_type } => "src:"@ + src_type@ + ",dst:"@
            + dst_type@,
        Immediate::BrOnCast { src_type, dst_type, label } => "src:"@ + src_type@ + ",dst:"@
            + dst_type@ + ",label:"@ + decimal(label as nat),
        Immediate::TryTable(tags) => "tags:["@ + join_texts(decimals(tags@), ","@) + "]"@,
        Immediate::TagIndex(i) => "tag_index:"@ + decimal(i as nat),
        Immediate::Unrecognized(s) => s@,
    }
}

impl Immediate {
    /// The deterministic text of this immediate used for hashing.
    pub fn as_hash_text(&self) -> (r: String)
        ensures
            r@ == hash_text(*self),
    {
        let mut out = String::new();
        match self {
            Immediate::Empty => {},
            Immediate::BlockType(ty) => push_labeled_text(&mut out, "blockty:", ty.as_str()),
            Immediate::BrTable { targets, default_target } => {
                push_str(&mut out, "br_table:[");
                push_joined_decimals(&mut out, targets, ",");
                push_labeled(&mut out, "],default:", *default_target as u64);
            },
            Immediate::Call(i) => push_labeled(&mut out, "function_index:", *i as u64),
            Immediate::CallIndirect { type_index, table_index } => {
                push_labeled(&mut out, "type_index:", *type_index as u64);
                push_labeled(&mut out, ",table_index:", *table_index as u64);
            },
            Immediate::CallRef(t) => push_labeled(&mut out, "type_index:", *t as u64),
            Immediate::Local(i) => push_labeled(&mut out, "local_index:", *i as u64),
            Immediate::Global(i) => push_labeled(&mut out, "global_index:", *i as u64),
            Immediate::Branch(d) => push_labeled(&mut out, "relative_depth:", *d as u64),
            Immediate::MemArg { align, offset } => {
                push_labeled(&mut out, "align:", *align as u64);
                push_labeled(&mut out, ",offset:", *offset);
            },
            Immediate::MemoryIndex(i) => push_labeled(&mut out, "mem:", *i as u64),
            Immediate::MemoryCopy { dst_index, src_index } => {
                push_labeled(&mut out, "dst:", *dst_index as u64);
                push_labeled(&mut out, ",src:", *src_index as u64);
            },
            Immediate::DataIndex(i) => push_labeled(&mut out, "data:", *i as u64),
            Immediate::ElemIndex(i) => push_labeled(&mut out, "elem:", *i as u64),
            Immediate::TableCopy { dst_table, src_table } => {
                push_labeled(&mut out, "dst:", *dst_table as u64);
                push_labeled(&mut out, ",src:", *src_table as u64);
            },
            Immediate::TableIndex(i) => push_labeled(&mut out, "table:", *i as u64),
            Immediate::I32Const(v) => {
                push_str(&mut out, "value:");
                push_signed_decimal(&mut out, *v as i64);
            },
            Immediate::I64Const(v) => {
                push_str(&mut out, "value:");
                push_signed_decimal(&mut out, *v);
            },
            Immediate::F32Const(_, t) => push_labeled_text(&mut out, "value:", t.as_str()),
            Immediate::F64Const(_, t) => push_labeled_text(&mut out, "value:", t.as_str()),
            Immediate::RefNull(ht) => push_labeled_text(&mut out, "hty:", ht.as_str()),
            Immediate::RefFunc(i) => push_labeled(&mut out, "function_index:", *i as u64),
            Immediate::Lane(i) => push_labeled(&mut out, "lane:", *i as u64),
            Immediate::SimdMemLane { align, offset, lane } => {
                push_labeled(&mut out, "align:", *align as u64);
                push_labeled(&mut out, ",offset:", *offset);
                push_labeled(&mut out, ",lane:", *lane as u64);
            },
            Immediate::Shuffle(lanes) => {
                push_str(&mut out, "lanes:[");
                push_joined_bytes(&mut out, lanes.as_slice(), ByteStyle::Decimal, ",");
                push_str(&mut out, "]");
            },
            Immediate::V128Const(bytes) => {
                push_str(&mut out, "bytes:");
                proof {
                    reveal_strlit("");
                    assert(""@ =~= Seq::<char>::empty());
                }
                push_joined_bytes(&mut out, bytes.as_slice(), ByteStyle::Hex, "");
            },
            Immediate::SelectTypes(types) => {
                push_str(&mut out, "types:[");
                push_joined_strings(&mut out, types, false, ",");
                push_str(&mut out, "]");
            },
            Immediate::StructType(i) => push_labeled(&mut out, "type_index:", *i as u64),
            Immediate::StructField { type_index, field_index } => {
                push_labeled(&mut out, "type_index:", *type_index as u64);
                push_labeled(&mut out, ",field_index:", *field_index as u64);
            },
            Immediate::ArrayType(i) => push_labeled(&mut out, "type_index:", *i as u64),
            Immediate::ArrayNewFixed { type_index, size } => {
                push_labeled(&mut out, "type_index:", *type_index as u64);
                push_labeled(&mut out, ",size:", *size as u64);
            },
            Immediate::ArrayNewData { type_index, data_index } => {
                push_labeled(&mut out, "type_index:", *type_index as u64);
                push_labeled(&mut out, ",data_index:", *data_index as u64);
            },
            Immediate::ArrayNewElem { type_index, elem_index } => {
                push_labeled(&mut out, "type_index:", *type_index as u64);
                push_labeled(&mut out, ",elem_index:", *elem_index as u64);
            },
            Immediate::RefCast { src_type, dst_type } => {
                push_labeled_text(&mut out, "src:", src_type.as_str());
                push_labeled_text(&mut out, ",dst:", dst_type.as_str());
            },
            Immediate::BrOnCast { src_type, dst_type, label } => {
                push_labeled_text(&mut out, "src:", src_type.as_str());
                push_labeled_text(&mut out, ",dst:", dst_type.as_str());
                push_labeled(&mut out, ",label:", *label as u64);
            },
            Immediate::TryTable(tags) => {
                push_str(&mut out, "tags:[");
                push_joined_decimals(&mut out, tags, ",");
                push_str(&mut out, "]");
            },
            Immediate::TagIndex(i) => push_labeled(&mut out, "tag_index:", *i as u64),
            Immediate::Unrecognized(s) => push_str(&mut out, s.as_str()),
        }
        proof {
            assert(out@ =~= hash_text(*self));
        }
        out
    }
}

// ---------------------------------------------------------------------------
// Display text of an operator
// ---------------------------------------------------------------------------

/// The `MemArg { .. }` part of a memory access in display text.
pub open spec fn memarg_text(align: u32, offset: u64) -> Seq<char> {
    "memarg: MemArg { align: "@ + decimal(align as nat) + ", max_align: 0, offset: "@ + decimal(
        offset as nat,
    ) + ", memory: 0 }"@
}

/// The fields written between the braces of an operator's display text.
pub open spec fn display_fields(imm: Immediate) -> Seq<char> {
    match imm {
        Immediate::BlockType(ty) => "blockty: "@ + ty@,
        Immediate::BrTable { targets, default_target } => "targets: "@ + debug_list(
            decimals(targets@),
        ) + ", default: "@ + decimal(default_target as nat),
        Immediate::Call(i) => "function_index: "@ + decimal(i as nat),
        Immediate::CallIndirect { type_index, table_index } => "type_index: "@ + decimal(
            type_index as nat,
        ) + ", table_index: "@ + decimal(table_index as nat),
        Immediate::CallRef(t) => "type_index: "@ + decimal(t as nat),
        Immediate::Local(i) => "local_index: "@ + decimal(i as nat),
        Immediate::Global(i) => "global_index: "@ + decimal(i as nat),
        Immediate::Branch(d) => "relative_depth: "@ + decimal(d as nat),
        Immediate::MemArg { align, offset } => memarg_text(align, offset),
        Immediate::MemoryIndex(i) => "mem: "@ + decimal(i as nat),
        Immediate::MemoryCopy { dst_index, src_index } => "dst_mem: "@ + decimal(
            dst_index as nat,
        ) + ", src_mem: "@ + decimal(src_index as nat),
        Immediate::DataIndex(i) => "data_index: "@ + decimal(i as nat),
        Immediate::ElemIndex(i) => "elem_index: "@ + decimal(i as nat),
        Immediate::TableCopy { dst_table, src_table } => "dst_table: "@ + decimal(
            dst_table as nat,
        ) + ", src_table: "@ + decimal(src_table as nat),
        Immediate::TableIndex(i) => "table: "@ + decimal(i as nat),
        Immediate::I32Const(v) => "value: "@ + signed_decimal(v as int),
        Immediate::I64Const(v) => "value: "@ + signed_decimal(v as int),
        Immediate::F32Const(_, t) => "value: "@ + t@,
        Immediate::F64Const(_, t) => "value: "@ + t@,
        Immediate::RefNull(ht) => "hty: "@ + ht@,
        Immediate::RefFunc(i) => "function_index: "@ + decimal(i as nat),
        Immediate::Lane(i) => "lane: "@ + decimal(i as nat),
        Immediate::SimdMemLane { align, offset, lane } => memarg_text(align, offset)
            + ", lane: "@ + decimal(lane as nat),
        Immediate::Shuffle(lanes) => "lanes: "@ + debug_list(byte_decimals(lanes@)),
        Immediate::V128Const(bytes) => "bytes: "@ + debug_list(byte_hex_prefixed(bytes@)),
        Immediate::SelectTypes(types) => "types: "@ + debug_list(
            debug_strings(string_texts(types)),
        ),
        Immediate::StructType(i) => "type_index: "@ + decimal(i as nat),
        Immediate::StructField { type_index, field_index } => "type_index: "@ + decimal(
            type_index as nat,
        ) + ", field_index: "@ + decimal(field_index as nat),
        Immediate::ArrayType(i) => "type_index: "@ + decimal(i as nat),
        Immediate::ArrayNewFixed { type_index, size } => "type_index: "@ + decimal(
            type_index as nat,
        ) + ", size: "@ + decimal(size as nat),
        Immediate::ArrayNewData { type_index, data_index } => "type_index: "@ + decimal(
            type_index as nat,
        ) + ", data_index: "@ + decimal(data_index as nat),
        Immediate::ArrayNewElem { type_index, elem_index } => "type_index: "@ + decimal(
            type_index as nat,
        ) + ", elem_index: "@ + decimal(elem_index as nat),
        Immediate::RefCast { src_type, dst_type } => "src: "@ + src_type@ + ", dst: "@
            + dst_type@,
        Immediate::BrOnCast { src_type, dst_type, label } => "src: "@ + src_type@ + ", dst: "@
            + dst_type@ + ", label: "@ + decimal(label as nat),
        Immediate::TryTable(tags) => "tags: "@ + debug_list(decimals(tags@)),
        Immediate::TagIndex(i) => "tag_index: "@ + decimal(i as nat),
        Immediate::Empty => Seq::empty(),
        Immediate::Unrecognized(_) => Seq::empty(),
    }
}

/// The display text of an operator: the opcode name alone, the opcode name
/// followed by its fields in braces, or the stored text of an unrecognised
/// immediate.
pub open spec fn display_text_of(op: ParsedOperator) -> Seq<char> {
    match op.immediate {
        Immediate::Empty => opcode_text(op.opcode),
        Immediate::Unrecognized(s) => s@,
        _ => opcode_text(op.opcode) + " { "@ + display_fields(op.immediate) + " }"@,
    }
}

/// Appends the memory-argument part of a display text.
fn push_memarg(out: &mut String, align: u32, offset: u64)
    ensures
        final(out)@ == old(out)@ + memarg_text(align, offset),
{
    push_labeled(out, "memarg: MemArg { align: ", align as u64);
    push_labeled(out, ", max_align: 0, offset: ", offset);
    push_str(out, ", memory: 0 }");
    proof {
        assert(final(out)@ =~= old(out)@ + memarg_text(align, offset));
    }
}

/// Appends `[`, the parts, and `]`, as `debug_list` writes them.
fn push_debug_decimals(out: &mut String, v: &Vec<u32>)
    ensures
        final(out)@ == old(out)@ + debug_list(decimals(v@)),
{
    push_str(out, "[");
    push_joined_decimals(out, v, ", ");
    push_str(out, "]");
    proof {
        assert(final(out)@ =~= old(out)@ + debug_list(decimals(v@)));
    }
}

/// Appends the fields of a display text for `imm`.
#[verifier::rlimit(40)]
fn push_display_fields(out: &mut String, imm: &Immediate)
    ensures
        final(out)@ == old(out)@ + display_fields(*imm),
{
    let ghost start = out@;
    match imm {
        Immediate::Empty => {},
        Immediate::Unrecognized(_) => {},
        Immediate::BlockType(ty) => push_labeled_text(out, "blockty: ", ty.as_str()),
        Immediate::BrTable { targets, default_target } => {
            push_str(out, "targets: ");
            push_debug_decimals(out, targets);
            push_labeled(out, ", default: ", *default_target as u64);
        },
        Immediate::Call(i) => push_labeled(out, "function_index: ", *i as u64),
        Immediate::CallIndirect { type_index, table_index } => {
            push_labeled(out, "type_index: ", *type_index as u64);
            push_labeled(out, ", table_index: ", *table_index as u64);
        },
        Immediate::CallRef(t) => push_labeled(out, "type_index: ", *t as u64),
        Immediate::Local(i) => push_labeled(out, "local_index: ", *i as u64),
        Immediate::Global(i) => push_labeled(out, "global_index: ", *i as u64),
        Immediate::Branch(d) => push_labeled(out, "relative_depth: ", *d as u64),
        Immediate::MemArg { align, offset } => push_memarg(out, *align, *offset),
        Immediate::MemoryIndex(i) => push_labeled(out, "mem: ", *i as u64),
        Immediate::MemoryCopy { dst_index, src_index } => {
            push_labeled(out, "dst_mem: ", *dst_index as u64);
            push_labeled(out, ", src_mem: ", *src_index as u64);
        },
        Immediate::DataIndex(i) => push_labeled(out, "data_index: ", *i as u64),
        Immediate::ElemIndex(i) => push_labeled(out, "elem_index: ", *i as u64),
        Immediate::TableCopy { dst_table, src_table } => {
            push_labeled(out, "dst_table: ", *dst_table as u64);
            push_labeled(out, ", src_table: ", *src_table as u64);
        },
        Immediate::TableIndex(i) => push_labeled(out, "table: ", *i as u64),
        Immediate::I32Const(v) => {
            push_str(out, "value: ");
            push_signed_decimal(out, *v as i64);
        },
        Immediate::I64Const(v) => {
            push_str(out, "value: ");
            push_signed_decimal(out, *v);
        },
        Immediate::F32Const(_, t) => push_labeled_text(out, "value: ", t.as_str()),
        Immediate::F64Const(_, t) => push_labeled_text(out, "value: ", t.as_str()),
        Immediate::RefNull(ht) => push_labeled_text(out, "hty: ", ht.as_str()),
        Immediate::RefFunc(i) => push_labeled(out, "function_index: ", *i as u64),
        Immediate::Lane(i) => push_labeled(out, "lane: ", *i as u64),
        Immediate::SimdMemLane { align, offset, lane } => {
            push_memarg(out, *align, *offset);
            push_labeled(out, ", lane: ", *lane as u64);
        },
        Immediate::Shuffle(lanes) => {
            push_str(out, "lanes: ");
            push_str(out, "[");
            push_joined_bytes(out, lanes.as_slice(), ByteStyle::Decimal, ", ");
            push_str(out, "]");
        },
        Immediate::V128Const(bytes) => {
            push_str(out, "bytes: ");
            push_str(out, "[");
            push_joined_bytes(out, bytes.as_slice(), ByteStyle::PrefixedHex, ", ");
            push_str(out, "]");
        },
        Immediate::SelectTypes(types) => {
            push_str(out, "types: ");
            push_str(out, "[");
            push_joined_strings(out, types, true, ", ");
            push_str(out, "]");
        },
        Immediate::StructType(i) => push_labeled(out, "type_index: ", *i as u64),
        Immediate::StructField { type_index, field_index } => {
            push_labeled(out, "type_index: ", *type_index as u64);
            push_labeled(out, ", field_index: ", *field_index as u64);
        },
        Immediate::ArrayType(i) => push_labeled(out, "type_index: ", *i as u64),
        Immediate::ArrayNewFixed { type_index, size } => {
            push_labeled(out, "type_index: ", *type_index as u64);
            push_labeled(out, ", size: ", *size as u64);
        },
        Immediate::ArrayNewData { type_index, data_index } => {
            push_labeled(out, "type_index: ", *type_index as u64);
            push_labeled(out, ", data_index: ", *data_index as u64);
        },
        Immediate::ArrayNewElem { type_index, elem_index } => {
            push_labeled(out, "type_index: ", *type_index as u64);
            push_labeled(out, ", elem_index: ", *elem_index as u64);
        },
        Immediate::RefCast { src_type, dst_type } => {
            push_labeled_text(out, "src: ", src_type.as_str());
            push_labeled_text(out, ", dst: ", dst_type.as_str());
        },
        Immediate::BrOnCast { src_type, dst_type, label } => {
            push_labeled_text(out, "src: ", src_type.as_str());
            push_labeled_text(out, ", dst: ", dst_type.as_str());
            push_labeled(out, ", label: ", *label as u64);
        },
        Immediate::TryTable(tags) => {
            push_str(out, "tags: ");
            push_debug_decimals(out, tags);
        },
        Immediate::TagIndex(i) => push_labeled(out, "tag_index: ", *i as u64),
    }
    proof {
        assert(out@ =~= start + display_fields(*imm));
    }
}

impl ParsedOperator {
    /// The display text of this operator, as reports show it.
    pub fn display_text(&self) -> (r: String)
        ensures
            r@ == display_text_of(*self),
    {
        match &self.immediate {
            Immediate::Empty => crate::text::string_of(self.opcode.as_str()),
            Immediate::Unrecognized(s) => s.clone(),
            _ => {
                let mut out = crate::text::string_of(self.opcode.as_str());
                push_str(&mut out, " { ");
                push_display_fields(&mut out, &self.immediate);
                push_str(&mut out, " }");
                proof {
                    assert(out@ =~= display_text_of(*self));
                }
                out
            },
        }
    }
}

} // verus!
