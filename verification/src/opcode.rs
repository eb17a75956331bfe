//! The typed opcode of every WebAssembly instruction the parser knows by name.

use vstd::prelude::*;

verus! {

/// Typed opcode of a WebAssembly instruction.
///
/// Named variants cover the instructions the parser recognises; any other
/// instruction is kept as `Unrecognized` with its textual name.
#[derive(Debug, Clone, PartialEq, Eq)]
pub enum Opcode {
    Unreachable,
    Nop,
    Block,
    Loop,
    If,
    Else,
    End,
    Br,
    BrIf,
    BrTable,
    Return,
    Call,
    CallIndirect,
    ReturnCall,
    ReturnCallIndirect,
    CallRef,
    ReturnCallRef,
    Drop,
    Select,
    LocalGet,
    LocalSet,
    LocalTee,
    GlobalGet,
    GlobalSet,
    TableGet,
    TableSet,
    TableSize,
    TableGrow,
    TableFill,
    TableCopy,
    TableInit,
    ElemDrop,
    I32Load,
    I64Load,
    F32Load,
    F64Load,
    I32Load8S,
    I32Load8U,
    I32Load16S,
    I32Load16U,
    I64Load8S,
    I64Load8U,
    I64Load16S,
    I64Load16U,
    I64Load32S,
    I64Load32U,
    I32Store,
    I64Store,
    F32Store,
    F64Store,
    I32Store8,
    I32Store16,
    I64Store8,
    I64Store16,
    I64Store32,
    MemorySize,
    MemoryGrow,
    MemoryInit,
    DataDrop,
    MemoryCopy,
    MemoryFill,
    I32Const,
    I64Const,
    F32Const,
    F64Const,
    RefNull,
    RefIsNull,
    RefFunc,
    RefEq,
    RefAsNonNull,
    BrOnNull,
    BrOnNonNull,
    I32Eqz,
    I32Eq,
    I32Ne,
    I32LtS,
    I32LtU,
    I32GtS,
    I32GtU,
    I32LeS,
    I32LeU,
    I32GeS,
    I32GeU,
    I64Eqz,
    I64Eq,
    I64Ne,
    I64LtS,
    I64LtU,
    I64GtS,
    I64GtU,
    I64LeS,
    I64LeU,
    I64GeS,
    I64GeU,
    F32Eq,
    F32Ne,
    F32Lt,
    F32Gt,
    F32Le,
    F32Ge,
    F64Eq,
    F64Ne,
    F64Lt,
    F64Gt,
    F64Le,
    F64Ge,
    I32Clz,
    I32Ctz,
    I32Popcnt,
    I32Extend8S,
    I32Extend16S,
    I64Clz,
    I64Ctz,
    I64Popcnt,
    I64Extend8S,
    I64Extend16S,
    I64Extend32S,
    F32Abs,
    F32Neg,
    F32Ceil,
    F32Floor,
    F32Trunc,
    F32Nearest,
    F32Sqrt,
    F64Abs,
    F64Neg,
    F64Ceil,
    F64Floor,
    F64Trunc,
    F64Nearest,
    F64Sqrt,
    I32Add,
    I32Sub,
    I32Mul,
    I32DivS,
    I32DivU,
    I32RemS,
    I32RemU,
    I32And,
    I32Or,
    I32Xor,
    I32Shl,
    I32ShrS,
    I32ShrU,
    I32Rotl,
    I32Rotr,
    I64Add,
    I64Sub,
    I64Mul,
    I64DivS,
    I64DivU,
    I64RemS,
    I64RemU,
    I64And,
    I64Or,
    I64Xor,
    I64Shl,
    I64ShrS,
    I64ShrU,
    I64Rotl,
    I64Rotr,
    F32Add,
    F32Sub,
    F32Mul,
    F32Div,
    F32Min,
    F32Max,
    F32Copysign,
    F64Add,
    F64Sub,
    F64Mul,
    F64Div,
    F64Min,
    F64Max,
    F64Copysign,
    I32WrapI64,
    I32TruncF32S,
    I32TruncF32U,
    I32TruncF64S,
    I32TruncF64U,
    I64ExtendI32S,
    I64ExtendI32U,
    I64TruncF32S,
    I64TruncF32U,
    I64TruncF64S,
    I64TruncF64U,
    F32ConvertI32S,
    F32ConvertI32U,
    F32ConvertI64S,
    F32ConvertI64U,
    F32DemoteF64,
    F64ConvertI32S,
    F64ConvertI32U,
    F64ConvertI64S,
    F64ConvertI64U,
    F64PromoteF32,
    I32ReinterpretF32,
    I64ReinterpretF64,
    F32ReinterpretI32,
    F64ReinterpretI64,
    I32TruncSatF32S,
    I32TruncSatF32U,
    I32TruncSatF64S,
    I32TruncSatF64U,
    I64TruncSatF32S,
    I64TruncSatF32U,
    I64TruncSatF64S,
    I64TruncSatF64U,
    V128Load,
    V128Load8x8S,
    V128Load8x8U,
    V128Load16x4S,
    V128Load16x4U,
    V128Load32x2S,
    V128Load32x2U,
    V128Load8Splat,
    V128Load16Splat,
    V128Load32Splat,
    V128Load64Splat,
    V128Load32Zero,
    V128Load64Zero,
    V128Store,
    V128Const,
    V128Load8Lane,
    V128Load16Lane,
    V128Load32Lane,
    V128Load64Lane,
    V128Store8Lane,
    V128Store16Lane,
    V128Store32Lane,
    V128Store64Lane,
    I8x16Shuffle,
    I8x16Swizzle,
    I8x16Splat,
    I16x8Splat,
    I32x4Splat,
    I64x2Splat,
    F32x4Splat,
    F64x2Splat,
    I8x16ExtractLaneS,
    I8x16ExtractLaneU,
    I8x16ReplaceLane,
    I16x8ExtractLaneS,
    I16x8ExtractLaneU,
    I16x8ReplaceLane,
    I32x4ExtractLane,
    I32x4ReplaceLane,
    I64x2ExtractLane,
    I64x2ReplaceLane,
    F32x4ExtractLane,
    F32x4ReplaceLane,
    F64x2ExtractLane,
    F64x2ReplaceLane,
    I8x16Eq,
    I8x16Ne,
    I8x16LtS,
    I8x16LtU,
    I8x16GtS,
    I8x16GtU,
    I8x16LeS,
    I8x16LeU,
    I8x16GeS,
    I8x16GeU,
    I16x8Eq,
    I16x8Ne,
    I16x8LtS,
    I16x8LtU,
    I16x8GtS,
    I16x8GtU,
    I16x8LeS,
    I16x8LeU,
    I16x8GeS,
    I16x8GeU,
    I32x4Eq,
    I32x4Ne,
    I32x4LtS,
    I32x4LtU,
    I32x4GtS,
    I32x4GtU,
    I32x4LeS,
    I32x4LeU,
    I32x4GeS,
    I32x4GeU,
    I64x2Eq,
    I64x2Ne,
    I64x2LtS,
    I64x2GtS,
    I64x2LeS,
    I64x2GeS,
    F32x4Eq,
    F32x4Ne,
    F32x4Lt,
    F32x4Gt,
    F32x4Le,
    F32x4Ge,
    F64x2Eq,
    F64x2Ne,
    F64x2Lt,
    F64x2Gt,
    F64x2Le,
    F64x2Ge,
    I8x16Neg,
    I8x16Popcnt,
    I16x8Neg,
    I32x4Neg,
    I64x2Neg,
    F32x4Neg,
    F64x2Neg,
    I8x16Abs,
    I16x8Abs,
    I32x4Abs,
    I64x2Abs,
    F32x4Abs,
    F64x2Abs,
    F32x4Sqrt,
    F64x2Sqrt,
    I8x16Add,
    I16x8Add,
    I32x4Add,
    I64x2Add,
    F32x4Add,
    F64x2Add,
    I8x16AddSatS,
    I8x16AddSatU,
    I16x8AddSatS,
    I16x8AddSatU,
    I8x16Sub,
    I16x8Sub,
    I32x4Sub,
    I64x2Sub,
    F32x4Sub,
    F64x2Sub,
    I8x16SubSatS,
    I8x16SubSatU,
    I16x8SubSatS,
    I16x8SubSatU,
    I8x16MinS,
    I8x16MinU,
    I16x8MinS,
    I16x8MinU,
    I32x4MinS,
    I32x4MinU,
    I64x2MinS,
    I64x2MinU,
    F32x4Min,
    F64x2Min,
    I8x16MaxS,
    I8x16MaxU,
    I16x8MaxS,
    I16x8MaxU,
    I32x4MaxS,
    I32x4MaxU,
    I64x2MaxS,
    I64x2MaxU,
    F32x4Max,
    F64x2Max,
    I8x16AvgrU,
    I16x8AvgrU,
    I8x16RoundingAverageU,
    I16x8RoundingAverageU,
    I8x16Mul,
    I16x8Mul,
    I32x4Mul,
    I64x2Mul,
    F32x4Mul,
    F64x2Mul,
    I16x8Q15MulrSatS,
    I16x8ExtMulLowI8x16S,
    I16x8ExtMulHighI8x16S,
    I16x8ExtMulLowI8x16U,
    I16x8ExtMulHighI8x16U,
    I32x4ExtMulLowI16x8S,
    I32x4ExtMulHighI16x8S,
    I32x4ExtMulLowI16x8U,
    I32x4ExtMulHighI16x8U,
    I64x2ExtMulLowI32x4S,
    I64x2ExtMulHighI32x4S,
    I64x2ExtMulLowI32x4U,
    I64x2ExtMulHighI32x4U,
    I8x16Shl,
    I16x8Shl,
    I32x4Shl,
    I64x2Shl,
    I8x16ShrS,
    I8x16ShrU,
    I16x8ShrS,
    I16x8ShrU,
    I32x4ShrS,
    I32x4ShrU,
    I64x2ShrS,
    I64x2ShrU,
    I8x16AllTrue,
    I16x8AllTrue,
    I32x4AllTrue,
    I64x2AllTrue,
    I8x16Bitmask,
    I16x8Bitmask,
    I32x4Bitmask,
    I64x2Bitmask,
    I8x16NarrowI16x8S,
    I8x16NarrowI16x8U,
    I16x8NarrowI32x4S,
    I16x8NarrowI32x4U,
    I16x8ExtendLowI8x16S,
    I16x8ExtendHighI8x16S,
    I16x8ExtendLowI8x16U,
    I16x8ExtendHighI8x16U,
    I32x4ExtendLowI16x8S,
    I32x4ExtendHighI16x8S,
    I32x4ExtendLowI16x8U,
    I32x4ExtendHighI16x8U,
    I64x2ExtendLowI32x4S,
    I64x2ExtendHighI32x4S,
    I64x2ExtendLowI32x4U,
    I64x2ExtendHighI32x4U,
    I32x4TruncSatF32x4S,
    I32x4TruncSatF32x4U,
    I32x4TruncSatF64x2SZero,
    I32x4TruncSatF64x2UZero,
    F32x4ConvertI32x4S,
    F32x4ConvertI32x4U,
    F64x2ConvertLowI32x4S,
    F64x2ConvertLowI32x4U,
    F32x4DemoteF64x2Zero,
    F64x2PromoteLowF32x4,
    F32x4Ceil,
    F32x4Floor,
    F32x4Trunc,
    F32x4Nearest,
    F64x2Ceil,
    F64x2Floor,
    F64x2Trunc,
    F64x2Nearest,
    I32x4DotI16x8S,
    I16x8ExtAddPairwiseI8x16S,
    I16x8ExtAddPairwiseI8x16U,
    I32x4ExtAddPairwiseI16x8S,
    I32x4ExtAddPairwiseI16x8U,
    V128AnyTrue,
    V128And,
    V128AndNot,
    V128Or,
    V128Xor,
    V128Not,
    V128Bitselect,
    F32x4Div,
    F32x4PMin,
    F32x4PMax,
    F64x2Div,
    F64x2PMin,
    F64x2PMax,
    I8x16RelaxedSwizzle,
    I32x4RelaxedTruncF32x4S,
    I32x4RelaxedTruncF32x4U,
    I32x4RelaxedTruncF64x2SZero,
    I32x4RelaxedTruncF64x2UZero,
    F32x4RelaxedMadd,
    F32x4RelaxedNmadd,
    F64x2RelaxedMadd,
    F64x2RelaxedNmadd,
    I8x16RelaxedLaneselect,
    I16x8RelaxedLaneselect,
    I32x4RelaxedLaneselect,
    I64x2RelaxedLaneselect,
    F32x4RelaxedMin,
    F32x4RelaxedMax,
    F64x2RelaxedMin,
    F64x2RelaxedMax,
    I16x8RelaxedQ15mulrS,
    I16x8RelaxedDotI8x16I7x16S,
    I32x4RelaxedDotI8x16I7x16AddS,
    MemoryAtomicNotify,
    MemoryAtomicWait32,
    MemoryAtomicWait64,
    AtomicFence,
    I32AtomicLoad,
    I64AtomicLoad,
    I32AtomicLoad8U,
    I32AtomicLoad16U,
    I64AtomicLoad8U,
    I64AtomicLoad16U,
    I64AtomicLoad32U,
    I32AtomicStore,
    I64AtomicStore,
    I32AtomicStore8,
    I32AtomicStore16,
    I64AtomicStore8,
    I64AtomicStore16,
    I64AtomicStore32,
    I32AtomicRmwAdd,
    I64AtomicRmwAdd,
    I32AtomicRmw8AddU,
    I32AtomicRmw16AddU,
    I64AtomicRmw8AddU,
    I64AtomicRmw16AddU,
    I64AtomicRmw32AddU,
    I32AtomicRmwSub,
    I64AtomicRmwSub,
    I32AtomicRmw8SubU,
    I32AtomicRmw16SubU,
    I64AtomicRmw8SubU,
    I64AtomicRmw16SubU,
    I64AtomicRmw32SubU,
    I32AtomicRmwAnd,
    I64AtomicRmwAnd,
    I32AtomicRmw8AndU,
    I32AtomicRmw16AndU,
    I64AtomicRmw8AndU,
    I64AtomicRmw16AndU,
    I64AtomicRmw32AndU,
    I32AtomicRmwOr,
    I64AtomicRmwOr,
    I32AtomicRmw8OrU,
    I32AtomicRmw16OrU,
    I64AtomicRmw8OrU,
    I64AtomicRmw16OrU,
    I64AtomicRmw32OrU,
    I32AtomicRmwXor,
    I64AtomicRmwXor,
    I32AtomicRmw8XorU,
    I32AtomicRmw16XorU,
    I64AtomicRmw8XorU,
    I64AtomicRmw16XorU,
    I64AtomicRmw32XorU,
    I32AtomicRmwXchg,
    I64AtomicRmwXchg,
    I32AtomicRmw8XchgU,
    I32AtomicRmw16XchgU,
    I64AtomicRmw8XchgU,
    I64AtomicRmw16XchgU,
    I64AtomicRmw32XchgU,
    I32AtomicRmwCmpxchg,
    I64AtomicRmwCmpxchg,
    I32AtomicRmw8CmpxchgU,
    I32AtomicRmw16CmpxchgU,
    I64AtomicRmw8CmpxchgU,
    I64AtomicRmw16CmpxchgU,
    I64AtomicRmw32CmpxchgU,
    StructNew,
    StructNewDefault,
    StructGet,
    StructGetS,
    StructGetU,
    StructSet,
    ArrayNew,
    ArrayNewDefault,
    ArrayNewFixed,
    ArrayNewData,
    ArrayNewElem,
    ArrayGet,
    ArrayGetS,
    ArrayGetU,
    ArraySet,
    ArrayLen,
    ArrayFill,
    ArrayCopy,
    ArrayInitData,
    ArrayInitElem,
    RefTestRef,
    RefTestNonNullRef,
    RefCastRef,
    RefCastNonNullRef,
    BrOnCast,
    BrOnCastFail,
    AnyConvertExtern,
    ExternConvertAny,
    RefI31,
    I31GetS,
    I31GetU,
    TryTable,
    Throw,
    ThrowRef,
    Rethrow,
    Catch,
    CatchAll,
    Delegate,
    Unrecognized(String),
}

/// The variant name of an opcode; `Unrecognized` for the catch-all variant.
pub open spec fn opcode_variant_name(op: Opcode) -> Seq<char> {
    match op {
        Opcode::Unreachable => "Unreachable"@,
        Opcode::Nop => "Nop"@,
        Opcode::Block => "Block"@,
        Opcode::Loop => "Loop"@,
        Opcode::If => "If"@,
        Opcode::Else => "Else"@,
        Opcode::End => "End"@,
        Opcode::Br => "Br"@,
        Opcode::BrIf => "BrIf"@,
        Opcode::BrTable => "BrTable"@,
        Opcode::Return => "Return"@,
        Opcode::Call => "Call"@,
        Opcode::CallIndirect => "CallIndirect"@,
        Opcode::ReturnCall => "ReturnCall"@,
        Opcode::ReturnCallIndirect => "ReturnCallIndirect"@,
        Opcode::CallRef => "CallRef"@,
        Opcode::ReturnCallRef => "ReturnCallRef"@,
        Opcode::Drop => "Drop"@,
        Opcode::Select => "Select"@,
        Opcode::LocalGet => "LocalGet"@,
        Opcode::LocalSet => "LocalSet"@,
        Opcode::LocalTee => "LocalTee"@,
        Opcode::GlobalGet => "GlobalGet"@,
        Opcode::GlobalSet => "GlobalSet"@,
        Opcode::TableGet => "TableGet"@,
        Opcode::TableSet => "TableSet"@,
        Opcode::TableSize => "TableSize"@,
        Opcode::TableGrow => "TableGrow"@,
        Opcode::TableFill => "TableFill"@,
        Opcode::TableCopy => "TableCopy"@,
        Opcode::TableInit => "TableInit"@,
        Opcode::ElemDrop => "ElemDrop"@,
        Opcode::I32Load => "I32Load"@,
        Opcode::I64Load => "I64Load"@,
        Opcode::F32Load => "F32Load"@,
        Opcode::F64Load => "F64Load"@,
        Opcode::I32Load8S => "I32Load8S"@,
        Opcode::I32Load8U => "I32Load8U"@,
        Opcode::I32Load16S => "I32Load16S"@,
        Opcode::I32Load16U => "I32Load16U"@,
        Opcode::I64Load8S => "I64Load8S"@,
        Opcode::I64Load8U => "I64Load8U"@,
        Opcode::I64Load16S => "I64Load16S"@,
        Opcode::I64Load16U => "I64Load16U"@,
        Opcode::I64Load32S => "I64Load32S"@,
        Opcode::I64Load32U => "I64Load32U"@,
        Opcode::I32Store => "I32Store"@,
        Opcode::I64Store => "I64Store"@,
        Opcode::F32Store => "F32Store"@,
        Opcode::F64Store => "F64Store"@,
        Opcode::I32Store8 => "I32Store8"@,
        Opcode::I32Store16 => "I32Store16"@,
        Opcode::I64Store8 => "I64Store8"@,
        Opcode::I64Store16 => "I64Store16"@,
        Opcode::I64Store32 => "I64Store32"@,
        Opcode::MemorySize => "MemorySize"@,
        Opcode::MemoryGrow => "MemoryGrow"@,
        Opcode::MemoryInit => "MemoryInit"@,
        Opcode::DataDrop => "DataDrop"@,
        Opcode::MemoryCopy => "MemoryCopy"@,
        Opcode::MemoryFill => "MemoryFill"@,
        Opcode::I32Const => "I32Const"@,
        Opcode::I64Const => "I64Const"@,
        Opcode::F32Const => "F32Const"@,
        Opcode::F64Const => "F64Const"@,
        Opcode::RefNull => "RefNull"@,
        Opcode::RefIsNull => "RefIsNull"@,
        Opcode::RefFunc => "RefFunc"@,
        Opcode::RefEq => "RefEq"@,
        Opcode::RefAsNonNull => "RefAsNonNull"@,
        Opcode::BrOnNull => "BrOnNull"@,
        Opcode::BrOnNonNull => "BrOnNonNull"@,
        Opcode::I32Eqz => "I32Eqz"@,
        Opcode::I32Eq => "I32Eq"@,
        Opcode::I32Ne => "I32Ne"@,
        Opcode::I32LtS => "I32LtS"@,
        Opcode::I32LtU => "I32LtU"@,
        Opcode::I32GtS => "I32GtS"@,
        Opcode::I32GtU => "I32GtU"@,
        Opcode::I32LeS => "I32LeS"@,
        Opcode::I32LeU => "I32LeU"@,
        Opcode::I32GeS => "I32GeS"@,
        Opcode::I32GeU => "I32GeU"@,
        Opcode::I64Eqz => "I64Eqz"@,
        Opcode::I64Eq => "I64Eq"@,
        Opcode::I64Ne => "I64Ne"@,
        Opcode::I64LtS => "I64LtS"@,
        Opcode::I64LtU => "I64LtU"@,
        Opcode::I64GtS => "I64GtS"@,
        Opcode::I64GtU => "I64GtU"@,
        Opcode::I64LeS => "I64LeS"@,
        Opcode::I64LeU => "I64LeU"@,
        Opcode::I64GeS => "I64GeS"@,
        Opcode::I64GeU => "I64GeU"@,
        Opcode::F32Eq => "F32Eq"@,
        Opcode::F32Ne => "F32Ne"@,
        Opcode::F32Lt => "F32Lt"@,
        Opcode::F32Gt => "F32Gt"@,
        Opcode::F32Le => "F32Le"@,
        Opcode::F32Ge => "F32Ge"@,
        Opcode::F64Eq => "F64Eq"@,
        Opcode::F64Ne => "F64Ne"@,
        Opcode::F64Lt => "F64Lt"@,
        Opcode::F64Gt => "F64Gt"@,
        Opcode::F64Le => "F64Le"@,
        Opcode::F64Ge => "F64Ge"@,
        Opcode::I32Clz => "I32Clz"@,
        Opcode::I32Ctz => "I32Ctz"@,
        Opcode::I32Popcnt => "I32Popcnt"@,
        Opcode::I32Extend8S => "I32Extend8S"@,
        Opcode::I32Extend16S => "I32Extend16S"@,
        Opcode::I64Clz => "I64Clz"@,
        Opcode::I64Ctz => "I64Ctz"@,
        Opcode::I64Popcnt => "I64Popcnt"@,
        Opcode::I64Extend8S => "I64Extend8S"@,
        Opcode::I64Extend16S => "I64Extend16S"@,
        Opcode::I64Extend32S => "I64Extend32S"@,
        Opcode::F32Abs => "F32Abs"@,
        Opcode::F32Neg => "F32Neg"@,
        Opcode::F32Ceil => "F32Ceil"@,
        Opcode::F32Floor => "F32Floor"@,
        Opcode::F32Trunc => "F32Trunc"@,
        Opcode::F32Nearest => "F32Nearest"@,
        Opcode::F32Sqrt => "F32Sqrt"@,
        Opcode::F64Abs => "F64Abs"@,
        Opcode::F64Neg => "F64Neg"@,
        Opcode::F64Ceil => "F64Ceil"@,
        Opcode::F64Floor => "F64Floor"@,
        Opcode::F64Trunc => "F64Trunc"@,
        Opcode::F64Nearest => "F64Nearest"@,
        Opcode::F64Sqrt => "F64Sqrt"@,
        Opcode::I32Add => "I32Add"@,
        Opcode::I32Sub => "I32Sub"@,
        Opcode::I32Mul => "I32Mul"@,
        Opcode::I32DivS => "I32DivS"@,
        Opcode::I32DivU => "I32DivU"@,
        Opcode::I32RemS => "I32RemS"@,
        Opcode::I32RemU => "I32RemU"@,
        Opcode::I32And => "I32And"@,
        Opcode::I32Or => "I32Or"@,
        Opcode::I32Xor => "I32Xor"@,
        Opcode::I32Shl => "I32Shl"@,
        Opcode::I32ShrS => "I32ShrS"@,
        Opcode::I32ShrU => "I32ShrU"@,
        Opcode::I32Rotl => "I32Rotl"@,
        Opcode::I32Rotr => "I32Rotr"@,
        Opcode::I64Add => "I64Add"@,
        Opcode::I64Sub => "I64Sub"@,
        Opcode::I64Mul => "I64Mul"@,
        Opcode::I64DivS => "I64DivS"@,
        Opcode::I64DivU => "I64DivU"@,
        Opcode::I64RemS => "I64RemS"@,
        Opcode::I64RemU => "I64RemU"@,
        Opcode::I64And => "I64And"@,
        Opcode::I64Or => "I64Or"@,
        Opcode::I64Xor => "I64Xor"@,
        Opcode::I64Shl => "I64Shl"@,
        Opcode::I64ShrS => "I64ShrS"@,
        Opcode::I64ShrU => "I64ShrU"@,
        Opcode::I64Rotl => "I64Rotl"@,
        Opcode::I64Rotr => "I64Rotr"@,
        Opcode::F32Add => "F32Add"@,
        Opcode::F32Sub => "F32Sub"@,
        Opcode::F32Mul => "F32Mul"@,
        Opcode::F32Div => "F32Div"@,
        Opcode::F32Min => "F32Min"@,
        Opcode::F32Max => "F32Max"@,
        Opcode::F32Copysign => "F32Copysign"@,
        Opcode::F64Add => "F64Add"@,
        Opcode::F64Sub => "F64Sub"@,
        Opcode::F64Mul => "F64Mul"@,
        Opcode::F64Div => "F64Div"@,
        Opcode::F64Min => "F64Min"@,
        Opcode::F64Max => "F64Max"@,
        Opcode::F64Copysign => "F64Copysign"@,
        Opcode::I32WrapI64 => "I32WrapI64"@,
        Opcode::I32TruncF32S => "I32TruncF32S"@,
        Opcode::I32TruncF32U => "I32TruncF32U"@,
        Opcode::I32TruncF64S => "I32TruncF64S"@,
        Opcode::I32TruncF64U => "I32TruncF64U"@,
        Opcode::I64ExtendI32S => "I64ExtendI32S"@,
        Opcode::I64ExtendI32U => "I64ExtendI32U"@,
        Opcode::I64TruncF32S => "I64TruncF32S"@,
        Opcode::I64TruncF32U => "I64TruncF32U"@,
        Opcode::I64TruncF64S => "I64TruncF64S"@,
        Opcode::I64TruncF64U => "I64TruncF64U"@,
        Opcode::F32ConvertI32S => "F32ConvertI32S"@,
        Opcode::F32ConvertI32U => "F32ConvertI32U"@,
        Opcode::F32ConvertI64S => "F32ConvertI64S"@,
        Opcode::F32ConvertI64U => "F32ConvertI64U"@,
        Opcode::F32DemoteF64 => "F32DemoteF64"@,
        Opcode::F64ConvertI32S => "F64ConvertI32S"@,
        Opcode::F64ConvertI32U => "F64ConvertI32U"@,
        Opcode::F64ConvertI64S => "F64ConvertI64S"@,
        Opcode::F64ConvertI64U => "F64ConvertI64U"@,
        Opcode::F64PromoteF32 => "F64PromoteF32"@,
        Opcode::I32ReinterpretF32 => "I32ReinterpretF32"@,
        Opcode::I64ReinterpretF64 => "I64ReinterpretF64"@,
        Opcode::F32ReinterpretI32 => "F32ReinterpretI32"@,
        Opcode::F64ReinterpretI64 => "F64ReinterpretI64"@,
        Opcode::I32TruncSatF32S => "I32TruncSatF32S"@,
        Opcode::I32TruncSatF32U => "I32TruncSatF32U"@,
        Opcode::I32TruncSatF64S => "I32TruncSatF64S"@,
        Opcode::I32TruncSatF64U => "I32TruncSatF64U"@,
        Opcode::I64TruncSatF32S => "I64TruncSatF32S"@,
        Opcode::I64TruncSatF32U => "I64TruncSatF32U"@,
        Opcode::I64TruncSatF64S => "I64TruncSatF64S"@,
        Opcode::I64TruncSatF64U => "I64TruncSatF64U"@,
        Opcode::V128Load => "V128Load"@,
        Opcode::V128Load8x8S => "V128Load8x8S"@,
        Opcode::V128Load8x8U => "V128Load8x8U"@,
        Opcode::V128Load16x4S => "V128Load16x4S"@,
        Opcode::V128Load16x4U => "V128Load16x4U"@,
        Opcode::V128Load32x2S => "V128Load32x2S"@,
        Opcode::V128Load32x2U => "V128Load32x2U"@,
        Opcode::V128Load8Splat => "V128Load8Splat"@,
        Opcode::V128Load16Splat => "V128Load16Splat"@,
        Opcode::V128Load32Splat => "V128Load32Splat"@,
        Opcode::V128Load64Splat => "V128Load64Splat"@,
        Opcode::V128Load32Zero => "V128Load32Zero"@,
        Opcode::V128Load64Zero => "V128Load64Zero"@,
        Opcode::V128Store => "V128Store"@,
        Opcode::V128Const => "V128Const"@,
        Opcode::V128Load8Lane => "V128Load8Lane"@,
        Opcode::V128Load16Lane => "V128Load16Lane"@,
        Opcode::V128Load32Lane => "V128Load32Lane"@,
        Opcode::V128Load64Lane => "V128Load64Lane"@,
        Opcode::V128Store8Lane => "V128Store8Lane"@,
        Opcode::V128Store16Lane => "V128Store16Lane"@,
        Opcode::V128Store32Lane => "V128Store32Lane"@,
        Opcode::V128Store64Lane => "V128Store64Lane"@,
        Opcode::I8x16Shuffle => "I8x16Shuffle"@,
        Opcode::I8x16Swizzle => "I8x16Swizzle"@,
        Opcode::I8x16Splat => "I8x16Splat"@,
        Opcode::I16x8Splat => "I16x8Splat"@,
        Opcode::I32x4Splat => "I32x4Splat"@,
        Opcode::I64x2Splat => "I64x2Splat"@,
        Opcode::F32x4Splat => "F32x4Splat"@,
        Opcode::F64x2Splat => "F64x2Splat"@,
        Opcode::I8x16ExtractLaneS => "I8x16ExtractLaneS"@,
        Opcode::I8x16ExtractLaneU => "I8x16ExtractLaneU"@,
        Opcode::I8x16ReplaceLane => "I8x16ReplaceLane"@,
        Opcode::I16x8ExtractLaneS => "I16x8ExtractLaneS"@,
        Opcode::I16x8ExtractLaneU => "I16x8ExtractLaneU"@,
        Opcode::I16x8ReplaceLane => "I16x8ReplaceLane"@,
        Opcode::I32x4ExtractLane => "I32x4ExtractLane"@,
        Opcode::I32x4ReplaceLane => "I32x4ReplaceLane"@,
        Opcode::I64x2ExtractLane => "I64x2ExtractLane"@,
        Opcode::I64x2ReplaceLane => "I64x2ReplaceLane"@,
        Opcode::F32x4ExtractLane => "F32x4ExtractLane"@,
        Opcode::F32x4ReplaceLane => "F32x4ReplaceLane"@,
        Opcode::F64x2ExtractLane => "F64x2ExtractLane"@,
        Opcode::F64x2ReplaceLane => "F64x2ReplaceLane"@,
        Opcode::I8x16Eq => "I8x16Eq"@,
        Opcode::I8x16Ne => "I8x16Ne"@,
        Opcode::I8x16LtS => "I8x16LtS"@,
        Opcode::I8x16LtU => "I8x16LtU"@,
        Opcode::I8x16GtS => "I8x16GtS"@,
        Opcode::I8x16GtU => "I8x16GtU"@,
        Opcode::I8x16LeS => "I8x16LeS"@,
        Opcode::I8x16LeU => "I8x16LeU"@,
        Opcode::I8x16GeS => "I8x16GeS"@,
        Opcode::I8x16GeU => "I8x16GeU"@,
        Opcode::I16x8Eq => "I16x8Eq"@,
        Opcode::I16x8Ne => "I16x8Ne"@,
        Opcode::I16x8LtS => "I16x8LtS"@,
        Opcode::I16x8LtU => "I16x8LtU"@,
        Opcode::I16x8GtS => "I16x8GtS"@,
        Opcode::I16x8GtU => "I16x8GtU"@,
        Opcode::I16x8LeS => "I16x8LeS"@,
        Opcode::I16x8LeU => "I16x8LeU"@,
        Opcode::I16x8GeS => "I16x8GeS"@,
        Opcode::I16x8GeU => "I16x8GeU"@,
        Opcode::I32x4Eq => "I32x4Eq"@,
        Opcode::I32x4Ne => "I32x4Ne"@,
        Opcode::I32x4LtS => "I32x4LtS"@,
        Opcode::I32x4LtU => "I32x4LtU"@,
        Opcode::I32x4GtS => "I32x4GtS"@,
        Opcode::I32x4GtU => "I32x4GtU"@,
        Opcode::I32x4LeS => "I32x4LeS"@,
        Opcode::I32x4LeU => "I32x4LeU"@,
        Opcode::I32x4GeS => "I32x4GeS"@,
        Opcode::I32x4GeU => "I32x4GeU"@,
        Opcode::I64x2Eq => "I64x2Eq"@,
        Opcode::I64x2Ne => "I64x2Ne"@,
        Opcode::I64x2LtS => "I64x2LtS"@,
        Opcode::I64x2GtS => "I64x2GtS"@,
        Opcode::I64x2LeS => "I64x2LeS"@,
        Opcode::I64x2GeS => "I64x2GeS"@,
        Opcode::F32x4Eq => "F32x4Eq"@,
        Opcode::F32x4Ne => "F32x4Ne"@,
        Opcode::F32x4Lt => "F32x4Lt"@,
        Opcode::F32x4Gt => "F32x4Gt"@,
        Opcode::F32x4Le => "F32x4Le"@,
        Opcode::F32x4Ge => "F32x4Ge"@,
        Opcode::F64x2Eq => "F64x2Eq"@,
        Opcode::F64x2Ne => "F64x2Ne"@,
        Opcode::F64x2Lt => "F64x2Lt"@,
        Opcode::F64x2Gt => "F64x2Gt"@,
        Opcode::F64x2Le => "F64x2Le"@,
        Opcode::F64x2Ge => "F64x2Ge"@,
        Opcode::I8x16Neg => "I8x16Neg"@,
        Opcode::I8x16Popcnt => "I8x16Popcnt"@,
        Opcode::I16x8Neg => "I16x8Neg"@,
        Opcode::I32x4Neg => "I32x4Neg"@,
        Opcode::I64x2Neg => "I64x2Neg"@,
        Opcode::F32x4Neg => "F32x4Neg"@,
        Opcode::F64x2Neg => "F64x2Neg"@,
        Opcode::I8x16Abs => "I8x16Abs"@,
        Opcode::I16x8Abs => "I16x8Abs"@,
        Opcode::I32x4Abs => "I32x4Abs"@,
        Opcode::I64x2Abs => "I64x2Abs"@,
        Opcode::F32x4Abs => "F32x4Abs"@,
        Opcode::F64x2Abs => "F64x2Abs"@,
        Opcode::F32x4Sqrt => "F32x4Sqrt"@,
        Opcode::F64x2Sqrt => "F64x2Sqrt"@,
        Opcode::I8x16Add => "I8x16Add"@,
        Opcode::I16x8Add => "I16x8Add"@,
        Opcode::I32x4Add => "I32x4Add"@,
        Opcode::I64x2Add => "I64x2Add"@,
        Opcode::F32x4Add => "F32x4Add"@,
        Opcode::F64x2Add => "F64x2Add"@,
        Opcode::I8x16AddSatS => "I8x16AddSatS"@,
        Opcode::I8x16AddSatU => "I8x16AddSatU"@,
        Opcode::I16x8AddSatS => "I16x8AddSatS"@,
        Opcode::I16x8AddSatU => "I16x8AddSatU"@,
        Opcode::I8x16Sub => "I8x16Sub"@,
        Opcode::I16x8Sub => "I16x8Sub"@,
        Opcode::I32x4Sub => "I32x4Sub"@,
        Opcode::I64x2Sub => "I64x2Sub"@,
        Opcode::F32x4Sub => "F32x4Sub"@,
        Opcode::F64x2Sub => "F64x2Sub"@,
        Opcode::I8x16SubSatS => "I8x16SubSatS"@,
        Opcode::I8x16SubSatU => "I8x16SubSatU"@,
        Opcode::I16x8SubSatS => "I16x8SubSatS"@,
        Opcode::I16x8SubSatU => "I16x8SubSatU"@,
        Opcode::I8x16MinS => "I8x16MinS"@,
        Opcode::I8x16MinU => "I8x16MinU"@,
        Opcode::I16x8MinS => "I16x8MinS"@,
        Opcode::I16x8MinU => "I16x8MinU"@,
        Opcode::I32x4MinS => "I32x4MinS"@,
        Opcode::I32x4MinU => "I32x4MinU"@,
        Opcode::I64x2MinS => "I64x2MinS"@,
        Opcode::I64x2MinU => "I64x2MinU"@,
        Opcode::F32x4Min => "F32x4Min"@,
        Opcode::F64x2Min => "F64x2Min"@,
        Opcode::I8x16MaxS => "I8x16MaxS"@,
        Opcode::I8x16MaxU => "I8x16MaxU"@,
        Opcode::I16x8MaxS => "I16x8MaxS"@,
        Opcode::I16x8MaxU => "I16x8MaxU"@,
        Opcode::I32x4MaxS => "I32x4MaxS"@,
        Opcode::I32x4MaxU => "I32x4MaxU"@,
        Opcode::I64x2MaxS => "I64x2MaxS"@,
        Opcode::I64x2MaxU => "I64x2MaxU"@,
        Opcode::F32x4Max => "F32x4Max"@,
        Opcode::F64x2Max => "F64x2Max"@,
        Opcode::I8x16AvgrU => "I8x16AvgrU"@,
        Opcode::I16x8AvgrU => "I16x8AvgrU"@,
        Opcode::I8x16RoundingAverageU => "I8x16RoundingAverageU"@,
        Opcode::I16x8RoundingAverageU => "I16x8RoundingAverageU"@,
        Opcode::I8x16Mul => "I8x16Mul"@,
        Opcode::I16x8Mul => "I16x8Mul"@,
        Opcode::I32x4Mul => "I32x4Mul"@,
        Opcode::I64x2Mul => "I64x2Mul"@,
        Opcode::F32x4Mul => "F32x4Mul"@,
        Opcode::F64x2Mul => "F64x2Mul"@,
        Opcode::I16x8Q15MulrSatS => "I16x8Q15MulrSatS"@,
        Opcode::I16x8ExtMulLowI8x16S => "I16x8ExtMulLowI8x16S"@,
        Opcode::I16x8ExtMulHighI8x16S => "I16x8ExtMulHighI8x16S"@,
        Opcode::I16x8ExtMulLowI8x16U => "I16x8ExtMulLowI8x16U"@,
        Opcode::I16x8ExtMulHighI8x16U => "I16x8ExtMulHighI8x16U"@,
        Opcode::I32x4ExtMulLowI16x8S => "I32x4ExtMulLowI16x8S"@,
        Opcode::I32x4ExtMulHighI16x8S => "I32x4ExtMulHighI16x8S"@,
        Opcode::I32x4ExtMulLowI16x8U => "I32x4ExtMulLowI16x8U"@,
        Opcode::I32x4ExtMulHighI16x8U => "I32x4ExtMulHighI16x8U"@,
        Opcode::I64x2ExtMulLowI32x4S => "I64x2ExtMulLowI32x4S"@,
        Opcode::I64x2ExtMulHighI32x4S => "I64x2ExtMulHighI32x4S"@,
        Opcode::I64x2ExtMulLowI32x4U => "I64x2ExtMulLowI32x4U"@,
        Opcode::I64x2ExtMulHighI32x4U => "I64x2ExtMulHighI32x4U"@,
        Opcode::I8x16Shl => "I8x16Shl"@,
        Opcode::I16x8Shl => "I16x8Shl"@,
        Opcode::I32x4Shl => "I32x4Shl"@,
        Opcode::I64x2Shl => "I64x2Shl"@,
        Opcode::I8x16ShrS => "I8x16ShrS"@,
        Opcode::I8x16ShrU => "I8x16ShrU"@,
        Opcode::I16x8ShrS => "I16x8ShrS"@,
        Opcode::I16x8ShrU => "I16x8ShrU"@,
        Opcode::I32x4ShrS => "I32x4ShrS"@,
        Opcode::I32x4ShrU => "I32x4ShrU"@,
        Opcode::I64x2ShrS => "I64x2ShrS"@,
        Opcode::I64x2ShrU => "I64x2ShrU"@,
        Opcode::I8x16AllTrue => "I8x16AllTrue"@,
        Opcode::I16x8AllTrue => "I16x8AllTrue"@,
        Opcode::I32x4AllTrue => "I32x4AllTrue"@,
        Opcode::I64x2AllTrue => "I64x2AllTrue"@,
        Opcode::I8x16Bitmask => "I8x16Bitmask"@,
        Opcode::I16x8Bitmask => "I16x8Bitmask"@,
        Opcode::I32x4Bitmask => "I32x4Bitmask"@,
        Opcode::I64x2Bitmask => "I64x2Bitmask"@,
        Opcode::I8x16NarrowI16x8S => "I8x16NarrowI16x8S"@,
        Opcode::I8x16NarrowI16x8U => "I8x16NarrowI16x8U"@,
        Opcode::I16x8NarrowI32x4S => "I16x8NarrowI32x4S"@,
        Opcode::I16x8NarrowI32x4U => "I16x8NarrowI32x4U"@,
        Opcode::I16x8ExtendLowI8x16S => "I16x8ExtendLowI8x16S"@,
        Opcode::I16x8ExtendHighI8x16S => "I16x8ExtendHighI8x16S"@,
        Opcode::I16x8ExtendLowI8x16U => "I16x8ExtendLowI8x16U"@,
        Opcode::I16x8ExtendHighI8x16U => "I16x8ExtendHighI8x16U"@,
        Opcode::I32x4ExtendLowI16x8S => "I32x4ExtendLowI16x8S"@,
        Opcode::I32x4ExtendHighI16x8S => "I32x4ExtendHighI16x8S"@,
        Opcode::I32x4ExtendLowI16x8U => "I32x4ExtendLowI16x8U"@,
        Opcode::I32x4ExtendHighI16x8U => "I32x4ExtendHighI16x8U"@,
        Opcode::I64x2ExtendLowI32x4S => "I64x2ExtendLowI32x4S"@,
        Opcode::I64x2ExtendHighI32x4S => "I64x2ExtendHighI32x4S"@,
        Opcode::I64x2ExtendLowI32x4U => "I64x2ExtendLowI32x4U"@,
        Opcode::I64x2ExtendHighI32x4U => "I64x2ExtendHighI32x4U"@,
        Opcode::I32x4TruncSatF32x4S => "I32x4TruncSatF32x4S"@,
        Opcode::I32x4TruncSatF32x4U => "I32x4TruncSatF32x4U"@,
        Opcode::I32x4TruncSatF64x2SZero => "I32x4TruncSatF64x2SZero"@,
        Opcode::I32x4TruncSatF64x2UZero => "I32x4TruncSatF64x2UZero"@,
        Opcode::F32x4ConvertI32x4S => "F32x4ConvertI32x4S"@,
        Opcode::F32x4ConvertI32x4U => "F32x4ConvertI32x4U"@,
        Opcode::F64x2ConvertLowI32x4S => "F64x2ConvertLowI32x4S"@,
        Opcode::F64x2ConvertLowI32x4U => "F64x2ConvertLowI32x4U"@,
        Opcode::F32x4DemoteF64x2Zero => "F32x4DemoteF64x2Zero"@,
        Opcode::F64x2PromoteLowF32x4 => "F64x2PromoteLowF32x4"@,
        Opcode::F32x4Ceil => "F32x4Ceil"@,
        Opcode::F32x4Floor => "F32x4Floor"@,
        Opcode::F32x4Trunc => "F32x4Trunc"@,
        Opcode::F32x4Nearest => "F32x4Nearest"@,
        Opcode::F64x2Ceil => "F64x2Ceil"@,
        Opcode::F64x2Floor => "F64x2Floor"@,
        Opcode::F64x2Trunc => "F64x2Trunc"@,
        Opcode::F64x2Nearest => "F64x2Nearest"@,
        Opcode::I32x4DotI16x8S => "I32x4DotI16x8S"@,
        Opcode::I16x8ExtAddPairwiseI8x16S => "I16x8ExtAddPairwiseI8x16S"@,
        Opcode::I16x8ExtAddPairwiseI8x16U => "I16x8ExtAddPairwiseI8x16U"@,
        Opcode::I32x4ExtAddPairwiseI16x8S => "I32x4ExtAddPairwiseI16x8S"@,
        Opcode::I32x4ExtAddPairwiseI16x8U => "I32x4ExtAddPairwiseI16x8U"@,
        Opcode::V128AnyTrue => "V128AnyTrue"@,
        Opcode::V128And => "V128And"@,
        Opcode::V128AndNot => "V128AndNot"@,
        Opcode::V128Or => "V128Or"@,
        Opcode::V128Xor => "V128Xor"@,
        Opcode::V128Not => "V128Not"@,
        Opcode::V128Bitselect => "V128Bitselect"@,
        Opcode::F32x4Div => "F32x4Div"@,
        Opcode::F32x4PMin => "F32x4PMin"@,
        Opcode::F32x4PMax => "F32x4PMax"@,
        Opcode::F64x2Div => "F64x2Div"@,
        Opcode::F64x2PMin => "F64x2PMin"@,
        Opcode::F64x2PMax => "F64x2PMax"@,
        Opcode::I8x16RelaxedSwizzle => "I8x16RelaxedSwizzle"@,
        Opcode::I32x4RelaxedTruncF32x4S => "I32x4RelaxedTruncF32x4S"@,
        Opcode::I32x4RelaxedTruncF32x4U => "I32x4RelaxedTruncF32x4U"@,
        Opcode::I32x4RelaxedTruncF64x2SZero => "I32x4RelaxedTruncF64x2SZero"@,
        Opcode::I32x4RelaxedTruncF64x2UZero => "I32x4RelaxedTruncF64x2UZero"@,
        Opcode::F32x4RelaxedMadd => "F32x4RelaxedMadd"@,
        Opcode::F32x4RelaxedNmadd => "F32x4RelaxedNmadd"@,
        Opcode::F64x2RelaxedMadd => "F64x2RelaxedMadd"@,
        Opcode::F64x2RelaxedNmadd => "F64x2RelaxedNmadd"@,
        Opcode::I8x16RelaxedLaneselect => "I8x16RelaxedLaneselect"@,
        Opcode::I16x8RelaxedLaneselect => "I16x8RelaxedLaneselect"@,
        Opcode::I32x4RelaxedLaneselect => "I32x4RelaxedLaneselect"@,
        Opcode::I64x2RelaxedLaneselect => "I64x2RelaxedLaneselect"@,
        Opcode::F32x4RelaxedMin => "F32x4RelaxedMin"@,
        Opcode::F32x4RelaxedMax => "F32x4RelaxedMax"@,
        Opcode::F64x2RelaxedMin => "F64x2RelaxedMin"@,
        Opcode::F64x2RelaxedMax => "F64x2RelaxedMax"@,
        Opcode::I16x8RelaxedQ15mulrS => "I16x8RelaxedQ15mulrS"@,
        Opcode::I16x8RelaxedDotI8x16I7x16S => "I16x8RelaxedDotI8x16I7x16S"@,
        Opcode::I32x4RelaxedDotI8x16I7x16AddS => "I32x4RelaxedDotI8x16I7x16AddS"@,
        Opcode::MemoryAtomicNotify => "MemoryAtomicNotify"@,
        Opcode::MemoryAtomicWait32 => "MemoryAtomicWait32"@,
        Opcode::MemoryAtomicWait64 => "MemoryAtomicWait64"@,
        Opcode::AtomicFence => "AtomicFence"@,
        Opcode::I32AtomicLoad => "I32AtomicLoad"@,
        Opcode::I64AtomicLoad => "I64AtomicLoad"@,
        Opcode::I32AtomicLoad8U => "I32AtomicLoad8U"@,
        Opcode::I32AtomicLoad16U => "I32AtomicLoad16U"@,
        Opcode::I64AtomicLoad8U => "I64AtomicLoad8U"@,
        Opcode::I64AtomicLoad16U => "I64AtomicLoad16U"@,
        Opcode::I64AtomicLoad32U => "I64AtomicLoad32U"@,
        Opcode::I32AtomicStore => "I32AtomicStore"@,
        Opcode::I64AtomicStore => "I64AtomicStore"@,
        Opcode::I32AtomicStore8 => "I32AtomicStore8"@,
        Opcode::I32AtomicStore16 => "I32AtomicStore16"@,
        Opcode::I64AtomicStore8 => "I64AtomicStore8"@,
        Opcode::I64AtomicStore16 => "I64AtomicStore16"@,
        Opcode::I64AtomicStore32 => "I64AtomicStore32"@,
        Opcode::I32AtomicRmwAdd => "I32AtomicRmwAdd"@,
        Opcode::I64AtomicRmwAdd => "I64AtomicRmwAdd"@,
        Opcode::I32AtomicRmw8AddU => "I32AtomicRmw8AddU"@,
        Opcode::I32AtomicRmw16AddU => "I32AtomicRmw16AddU"@,
        Opcode::I64AtomicRmw8AddU => "I64AtomicRmw8AddU"@,
        Opcode::I64AtomicRmw16AddU => "I64AtomicRmw16AddU"@,
        Opcode::I64AtomicRmw32AddU => "I64AtomicRmw32AddU"@,
        Opcode::I32AtomicRmwSub => "I32AtomicRmwSub"@,
        Opcode::I64AtomicRmwSub => "I64AtomicRmwSub"@,
        Opcode::I32AtomicRmw8SubU => "I32AtomicRmw8SubU"@,
        Opcode::I32AtomicRmw16SubU => "I32AtomicRmw16SubU"@,
        Opcode::I64AtomicRmw8SubU => "I64AtomicRmw8SubU"@,
        Opcode::I64AtomicRmw16SubU => "I64AtomicRmw16SubU"@,
        Opcode::I64AtomicRmw32SubU => "I64AtomicRmw32SubU"@,
        Opcode::I32AtomicRmwAnd => "I32AtomicRmwAnd"@,
        Opcode::I64AtomicRmwAnd => "I64AtomicRmwAnd"@,
        Opcode::I32AtomicRmw8AndU => "I32AtomicRmw8AndU"@,
        Opcode::I32AtomicRmw16AndU => "I32AtomicRmw16AndU"@,
        Opcode::I64AtomicRmw8AndU => "I64AtomicRmw8AndU"@,
        Opcode::I64AtomicRmw16AndU => "I64AtomicRmw16AndU"@,
        Opcode::I64AtomicRmw32AndU => "I64AtomicRmw32AndU"@,
        Opcode::I32AtomicRmwOr => "I32AtomicRmwOr"@,
        Opcode::I64AtomicRmwOr => "I64AtomicRmwOr"@,
        Opcode::I32AtomicRmw8OrU => "I32AtomicRmw8OrU"@,
        Opcode::I32AtomicRmw16OrU => "I32AtomicRmw16OrU"@,
        Opcode::I64AtomicRmw8OrU => "I64AtomicRmw8OrU"@,
        Opcode::I64AtomicRmw16OrU => "I64AtomicRmw16OrU"@,
        Opcode::I64AtomicRmw32OrU => "I64AtomicRmw32OrU"@,
        Opcode::I32AtomicRmwXor => "I32AtomicRmwXor"@,
        Opcode::I64AtomicRmwXor => "I64AtomicRmwXor"@,
        Opcode::I32AtomicRmw8XorU => "I32AtomicRmw8XorU"@,
        Opcode::I32AtomicRmw16XorU => "I32AtomicRmw16XorU"@,
        Opcode::I64AtomicRmw8XorU => "I64AtomicRmw8XorU"@,
        Opcode::I64AtomicRmw16XorU => "I64AtomicRmw16XorU"@,
        Opcode::I64AtomicRmw32XorU => "I64AtomicRmw32XorU"@,
        Opcode::I32AtomicRmwXchg => "I32AtomicRmwXchg"@,
        Opcode::I64AtomicRmwXchg => "I64AtomicRmwXchg"@,
        Opcode::I32AtomicRmw8XchgU => "I32AtomicRmw8XchgU"@,
        Opcode::I32AtomicRmw16XchgU => "I32AtomicRmw16XchgU"@,
        Opcode::I64AtomicRmw8XchgU => "I64AtomicRmw8XchgU"@,
        Opcode::I64AtomicRmw16XchgU => "I64AtomicRmw16XchgU"@,
        Opcode::I64AtomicRmw32XchgU => "I64AtomicRmw32XchgU"@,
        Opcode::I32AtomicRmwCmpxchg => "I32AtomicRmwCmpxchg"@,
        Opcode::I64AtomicRmwCmpxchg => "I64AtomicRmwCmpxchg"@,
        Opcode::I32AtomicRmw8CmpxchgU => "I32AtomicRmw8CmpxchgU"@,
        Opcode::I32AtomicRmw16CmpxchgU => "I32AtomicRmw16CmpxchgU"@,
        Opcode::I64AtomicRmw8CmpxchgU => "I64AtomicRmw8CmpxchgU"@,
        Opcode::I64AtomicRmw16CmpxchgU => "I64AtomicRmw16CmpxchgU"@,
        Opcode::I64AtomicRmw32CmpxchgU => "I64AtomicRmw32CmpxchgU"@,
        Opcode::StructNew => "StructNew"@,
        Opcode::StructNewDefault => "StructNewDefault"@,
        Opcode::StructGet => "StructGet"@,
        Opcode::StructGetS => "StructGetS"@,
        Opcode::StructGetU => "StructGetU"@,
        Opcode::StructSet => "StructSet"@,
        Opcode::ArrayNew => "ArrayNew"@,
        Opcode::ArrayNewDefault => "ArrayNewDefault"@,
        Opcode::ArrayNewFixed => "ArrayNewFixed"@,
        Opcode::ArrayNewData => "ArrayNewData"@,
        Opcode::ArrayNewElem => "ArrayNewElem"@,
        Opcode::ArrayGet => "ArrayGet"@,
        Opcode::ArrayGetS => "ArrayGetS"@,
        Opcode::ArrayGetU => "ArrayGetU"@,
        Opcode::ArraySet => "ArraySet"@,
        Opcode::ArrayLen => "ArrayLen"@,
        Opcode::ArrayFill => "ArrayFill"@,
        Opcode::ArrayCopy => "ArrayCopy"@,
        Opcode::ArrayInitData => "ArrayInitData"@,
        Opcode::ArrayInitElem => "ArrayInitElem"@,
        Opcode::RefTestRef => "RefTestRef"@,
        Opcode::RefTestNonNullRef => "RefTestNonNullRef"@,
        Opcode::RefCastRef => "RefCastRef"@,
        Opcode::RefCastNonNullRef => "RefCastNonNullRef"@,
        Opcode::BrOnCast => "BrOnCast"@,
        Opcode::BrOnCastFail => "BrOnCastFail"@,
        Opcode::AnyConvertExtern => "AnyConvertExtern"@,
        Opcode::ExternConvertAny => "ExternConvertAny"@,
        Opcode::RefI31 => "RefI31"@,
        Opcode::I31GetS => "I31GetS"@,
        Opcode::I31GetU => "I31GetU"@,
        Opcode::TryTable => "TryTable"@,
        Opcode::Throw => "Throw"@,
        Opcode::ThrowRef => "ThrowRef"@,
        Opcode::Rethrow => "Rethrow"@,
        Opcode::Catch => "Catch"@,
        Opcode::CatchAll => "CatchAll"@,
        Opcode::Delegate => "Delegate"@,
        Opcode::Unrecognized(_) => "Unrecognized"@,
    }
}

/// The text of an opcode used for display and hashing: the variant name,
/// or the stored name for an unrecognised instruction.
pub open spec fn opcode_text(op: Opcode) -> Seq<char> {
    match op {
        Opcode::Unrecognized(s) => s@,
        _ => opcode_variant_name(op),
    }
}

/// Opcodes that only delimit structured control (they never execute work).
pub open spec fn spec_is_structural_marker(op: Opcode) -> bool {
    op is Block || op is Loop || op is Else || op is End || op is Catch || op is CatchAll
}

/// Opcodes that branch on a runtime condition.
pub open spec fn spec_is_conditional_branch(op: Opcode) -> bool {
    op is If || op is BrIf || op is BrOnNull || op is BrOnNonNull || op is BrOnCast
        || op is BrOnCastFail
}

/// Opcodes after which control never falls through.
pub open spec fn spec_is_terminator(op: Opcode) -> bool {
    op is Br || op is BrTable || op is Return || op is Unreachable || op is ReturnCall
        || op is ReturnCallIndirect || op is ReturnCallRef || op is Throw || op is ThrowRef
        || op is Rethrow || op is Delegate || op is TryTable
}

impl Opcode {
    /// The opcode name for display and hashing: the variant name for named
    /// variants, the stored text for `Unrecognized`.
    pub fn as_str(&self) -> (r: &str)
        ensures
            r@ == opcode_text(*self),
    {
        match self {
            Opcode::Unrecognized(s) => s.as_str(),
            _ => self.variant_name(),
        }
    }

    pub fn is_structural_marker(&self) -> (r: bool)
        ensures
            r == spec_is_structural_marker(*self),
    {
        match self {
            Opcode::Block | Opcode::Loop | Opcode::Else | Opcode::End | Opcode::Catch
            | Opcode::CatchAll => true,
            _ => false,
        }
    }

    pub fn is_conditional_branch(&self) -> (r: bool)
        ensures
            r == spec_is_conditional_branch(*self),
    {
        match self {
            Opcode::If | Opcode::BrIf | Opcode::BrOnNull | Opcode::BrOnNonNull
            | Opcode::BrOnCast | Opcode::BrOnCastFail => true,
            _ => false,
        }
    }

    pub fn is_terminator(&self) -> (r: bool)
        ensures
            r == spec_is_terminator(*self),
    {
        match self {
            Opcode::Br | Opcode::BrTable | Opcode::Return | Opcode::Unreachable
            | Opcode::ReturnCall | Opcode::ReturnCallIndirect | Opcode::ReturnCallRef
            | Opcode::Throw | Opcode::ThrowRef | Opcode::Rethrow | Opcode::Delegate
            | Opcode::TryTable => true,
            _ => false,
        }
    }

    /// The name of the variant itself (`Unrecognized` for the catch-all).
    pub fn variant_name(&self) -> (r: &'static str)
        ensures
            r@ == opcode_variant_name(*self),
    {
        match self {
            Opcode::Unreachable => "Unreachable",
            Opcode::Nop => "Nop",
            Opcode::Block => "Block",
            Opcode::Loop => "Loop",
            Opcode::If => "If",
            Opcode::Else => "Else",
            Opcode::End => "End",
            Opcode::Br => "Br",
            Opcode::BrIf => "BrIf",
            Opcode::BrTable => "BrTable",
            Opcode::Return => "Return",
            Opcode::Call => "Call",
            Opcode::CallIndirect => "CallIndirect",
            Opcode::ReturnCall => "ReturnCall",
            Opcode::ReturnCallIndirect => "ReturnCallIndirect",
            Opcode::CallRef => "CallRef",
            Opcode::ReturnCallRef => "ReturnCallRef",
            Opcode::Drop => "Drop",
            Opcode::Select => "Select",
            Opcode::LocalGet => "LocalGet",
            Opcode::LocalSet => "LocalSet",
            Opcode::LocalTee => "LocalTee",
            Opcode::GlobalGet => "GlobalGet",
            Opcode::GlobalSet => "GlobalSet",
            Opcode::TableGet => "TableGet",
            Opcode::TableSet => "TableSet",
            Opcode::TableSize => "TableSize",
            Opcode::TableGrow => "TableGrow",
            Opcode::TableFill => "TableFill",
            Opcode::TableCopy => "TableCopy",
            Opcode::TableInit => "TableInit",
            Opcode::ElemDrop => "ElemDrop",
            Opcode::I32Load => "I32Load",
            Opcode::I64Load => "I64Load",
            Opcode::F32Load => "F32Load",
            Opcode::F64Load => "F64Load",
            Opcode::I32Load8S => "I32Load8S",
            Opcode::I32Load8U => "I32Load8U",
            Opcode::I32Load16S => "I32Load16S",
            Opcode::I32Load16U => "I32Load16U",
            Opcode::I64Load8S => "I64Load8S",
            Opcode::I64Load8U => "I64Load8U",
            Opcode::I64Load16S => "I64Load16S",
            Opcode::I64Load16U => "I64Load16U",
            Opcode::I64Load32S => "I64Load32S",
            Opcode::I64Load32U => "I64Load32U",
            Opcode::I32Store => "I32Store",
            Opcode::I64Store => "I64Store",
            Opcode::F32Store => "F32Store",
            Opcode::F64Store => "F64Store",
            Opcode::I32Store8 => "I32Store8",
            Opcode::I32Store16 => "I32Store16",
            Opcode::I64Store8 => "I64Store8",
            Opcode::I64Store16 => "I64Store16",
            Opcode::I64Store32 => "I64Store32",
            Opcode::MemorySize => "MemorySize",
            Opcode::MemoryGrow => "MemoryGrow",
            Opcode::MemoryInit => "MemoryInit",
            Opcode::DataDrop => "DataDrop",
            Opcode::MemoryCopy => "MemoryCopy",
            Opcode::MemoryFill => "MemoryFill",
            Opcode::I32Const => "I32Const",
            Opcode::I64Const => "I64Const",
            Opcode::F32Const => "F32Const",
            Opcode::F64Const => "F64Const",
            Opcode::RefNull => "RefNull",
            Opcode::RefIsNull => "RefIsNull",
            Opcode::RefFunc => "RefFunc",
            Opcode::RefEq => "RefEq",
            Opcode::RefAsNonNull => "RefAsNonNull",
            Opcode::BrOnNull => "BrOnNull",
            Opcode::BrOnNonNull => "BrOnNonNull",
            Opcode::I32Eqz => "I32Eqz",
            Opcode::I32Eq => "I32Eq",
            Opcode::I32Ne => "I32Ne",
            Opcode::I32LtS => "I32LtS",
            Opcode::I32LtU => "I32LtU",
            Opcode::I32GtS => "I32GtS",
            Opcode::I32GtU => "I32GtU",
            Opcode::I32LeS => "I32LeS",
            Opcode::I32LeU => "I32LeU",
            Opcode::I32GeS => "I32GeS",
            Opcode::I32GeU => "I32GeU",
            Opcode::I64Eqz => "I64Eqz",
            Opcode::I64Eq => "I64Eq",
            Opcode::I64Ne => "I64Ne",
            Opcode::I64LtS => "I64LtS",
            Opcode::I64LtU => "I64LtU",
            Opcode::I64GtS => "I64GtS",
            Opcode::I64GtU => "I64GtU",
            Opcode::I64LeS => "I64LeS",
            Opcode::I64LeU => "I64LeU",
            Opcode::I64GeS => "I64GeS",
            Opcode::I64GeU => "I64GeU",
            Opcode::F32Eq => "F32Eq",
            Opcode::F32Ne => "F32Ne",
            Opcode::F32Lt => "F32Lt",
            Opcode::F32Gt => "F32Gt",
            Opcode::F32Le => "F32Le",
            Opcode::F32Ge => "F32Ge",
            Opcode::F64Eq => "F64Eq",
            Opcode::F64Ne => "F64Ne",
            Opcode::F64Lt => "F64Lt",
            Opcode::F64Gt => "F64Gt",
            Opcode::F64Le => "F64Le",
            Opcode::F64Ge => "F64Ge",
            Opcode::I32Clz => "I32Clz",
            Opcode::I32Ctz => "I32Ctz",
            Opcode::I32Popcnt => "I32Popcnt",
            Opcode::I32Extend8S => "I32Extend8S",
            Opcode::I32Extend16S => "I32Extend16S",
            Opcode::I64Clz => "I64Clz",
            Opcode::I64Ctz => "I64Ctz",
            Opcode::I64Popcnt => "I64Popcnt",
            Opcode::I64Extend8S => "I64Extend8S",
            Opcode::I64Extend16S => "I64Extend16S",
            Opcode::I64Extend32S => "I64Extend32S",
            Opcode::F32Abs => "F32Abs",
            Opcode::F32Neg => "F32Neg",
            Opcode::F32Ceil => "F32Ceil",
            Opcode::F32Floor => "F32Floor",
            Opcode::F32Trunc => "F32Trunc",
            Opcode::F32Nearest => "F32Nearest",
            Opcode::F32Sqrt => "F32Sqrt",
            Opcode::F64Abs => "F64Abs",
            Opcode::F64Neg => "F64Neg",
            Opcode::F64Ceil => "F64Ceil",
            Opcode::F64Floor => "F64Floor",
            Opcode::F64Trunc => "F64Trunc",
            Opcode::F64Nearest => "F64Nearest",
            Opcode::F64Sqrt => "F64Sqrt",
            Opcode::I32Add => "I32Add",
            Opcode::I32Sub => "I32Sub",
            Opcode::I32Mul => "I32Mul",
            Opcode::I32DivS => "I32DivS",
            Opcode::I32DivU => "I32DivU",
            Opcode::I32RemS => "I32RemS",
            Opcode::I32RemU => "I32RemU",
            Opcode::I32And => "I32And",
            Opcode::I32Or => "I32Or",
            Opcode::I32Xor => "I32Xor",
            Opcode::I32Shl => "I32Shl",
            Opcode::I32ShrS => "I32ShrS",
            Opcode::I32ShrU => "I32ShrU",
            Opcode::I32Rotl => "I32Rotl",
            Opcode::I32Rotr => "I32Rotr",
            Opcode::I64Add => "I64Add",
            Opcode::I64Sub => "I64Sub",
            Opcode::I64Mul => "I64Mul",
            Opcode::I64DivS => "I64DivS",
            Opcode::I64DivU => "I64DivU",
            Opcode::I64RemS => "I64RemS",
            Opcode::I64RemU => "I64RemU",
            Opcode::I64And => "I64And",
            Opcode::I64Or => "I64Or",
            Opcode::I64Xor => "I64Xor",
            Opcode::I64Shl => "I64Shl",
            Opcode::I64ShrS => "I64ShrS",
            Opcode::I64ShrU => "I64ShrU",
            Opcode::I64Rotl => "I64Rotl",
            Opcode::I64Rotr => "I64Rotr",
            Opcode::F32Add => "F32Add",
            Opcode::F32Sub => "F32Sub",
            Opcode::F32Mul => "F32Mul",
            Opcode::F32Div => "F32Div",
            Opcode::F32Min => "F32Min",
            Opcode::F32Max => "F32Max",
            Opcode::F32Copysign => "F32Copysign",
            Opcode::F64Add => "F64Add",
            Opcode::F64Sub => "F64Sub",
            Opcode::F64Mul => "F64Mul",
            Opcode::F64Div => "F64Div",
            Opcode::F64Min => "F64Min",
            Opcode::F64Max => "F64Max",
            Opcode::F64Copysign => "F64Copysign",
            Opcode::I32WrapI64 => "I32WrapI64",
            Opcode::I32TruncF32S => "I32TruncF32S",
            Opcode::I32TruncF32U => "I32TruncF32U",
            Opcode::I32TruncF64S => "I32TruncF64S",
            Opcode::I32TruncF64U => "I32TruncF64U",
            Opcode::I64ExtendI32S => "I64ExtendI32S",
            Opcode::I64ExtendI32U => "I64ExtendI32U",
            Opcode::I64TruncF32S => "I64TruncF32S",
            Opcode::I64TruncF32U => "I64TruncF32U",
            Opcode::I64TruncF64S => "I64TruncF64S",
            Opcode::I64TruncF64U => "I64TruncF64U",
            Opcode::F32ConvertI32S => "F32ConvertI32S",
            Opcode::F32ConvertI32U => "F32ConvertI32U",
            Opcode::F32ConvertI64S => "F32ConvertI64S",
            Opcode::F32ConvertI64U => "F32ConvertI64U",
            Opcode::F32DemoteF64 => "F32DemoteF64",
            Opcode::F64ConvertI32S => "F64ConvertI32S",
            Opcode::F64ConvertI32U => "F64ConvertI32U",
            Opcode::F64ConvertI64S => "F64ConvertI64S",
            Opcode::F64ConvertI64U => "F64ConvertI64U",
            Opcode::F64PromoteF32 => "F64PromoteF32",
            Opcode::I32ReinterpretF32 => "I32ReinterpretF32",
            Opcode::I64ReinterpretF64 => "I64ReinterpretF64",
            Opcode::F32ReinterpretI32 => "F32ReinterpretI32",
            Opcode::F64ReinterpretI64 => "F64ReinterpretI64",
            Opcode::I32TruncSatF32S => "I32TruncSatF32S",
            Opcode::I32TruncSatF32U => "I32TruncSatF32U",
            Opcode::I32TruncSatF64S => "I32TruncSatF64S",
            Opcode::I32TruncSatF64U => "I32TruncSatF64U",
            Opcode::I64TruncSatF32S => "I64TruncSatF32S",
            Opcode::I64TruncSatF32U => "I64TruncSatF32U",
            Opcode::I64TruncSatF64S => "I64TruncSatF64S",
            Opcode::I64TruncSatF64U => "I64TruncSatF64U",
            Opcode::V128Load => "V128Load",
            Opcode::V128Load8x8S => "V128Load8x8S",
            Opcode::V128Load8x8U => "V128Load8x8U",
            Opcode::V128Load16x4S => "V128Load16x4S",
            Opcode::V128Load16x4U => "V128Load16x4U",
            Opcode::V128Load32x2S => "V128Load32x2S",
            Opcode::V128Load32x2U => "V128Load32x2U",
            Opcode::V128Load8Splat => "V128Load8Splat",
            Opcode::V128Load16Splat => "V128Load16Splat",
            Opcode::V128Load32Splat => "V128Load32Splat",
            Opcode::V128Load64Splat => "V128Load64Splat",
            Opcode::V128Load32Zero => "V128Load32Zero",
            Opcode::V128Load64Zero => "V128Load64Zero",
            Opcode::V128Store => "V128Store",
            Opcode::V128Const => "V128Const",
            Opcode::V128Load8Lane => "V128Load8Lane",
            Opcode::V128Load16Lane => "V128Load16Lane",
            Opcode::V128Load32Lane => "V128Load32Lane",
            Opcode::V128Load64Lane => "V128Load64Lane",
            Opcode::V128Store8Lane => "V128Store8Lane",
            Opcode::V128Store16Lane => "V128Store16Lane",
            Opcode::V128Store32Lane => "V128Store32Lane",
            Opcode::V128Store64Lane => "V128Store64Lane",
            Opcode::I8x16Shuffle => "I8x16Shuffle",
            Opcode::I8x16Swizzle => "I8x16Swizzle",
            Opcode::I8x16Splat => "I8x16Splat",
            Opcode::I16x8Splat => "I16x8Splat",
            Opcode::I32x4Splat => "I32x4Splat",
            Opcode::I64x2Splat => "I64x2Splat",
            Opcode::F32x4Splat => "F32x4Splat",
            Opcode::F64x2Splat => "F64x2Splat",
            Opcode::I8x16ExtractLaneS => "I8x16ExtractLaneS",
            Opcode::I8x16ExtractLaneU => "I8x16ExtractLaneU",
            Opcode::I8x16ReplaceLane => "I8x16ReplaceLane",
            Opcode::I16x8ExtractLaneS => "I16x8ExtractLaneS",
            Opcode::I16x8ExtractLaneU => "I16x8ExtractLaneU",
            Opcode::I16x8ReplaceLane => "I16x8ReplaceLane",
            Opcode::I32x4ExtractLane => "I32x4ExtractLane",
            Opcode::I32x4ReplaceLane => "I32x4ReplaceLane",
            Opcode::I64x2ExtractLane => "I64x2ExtractLane",
            Opcode::I64x2ReplaceLane => "I64x2ReplaceLane",
            Opcode::F32x4ExtractLane => "F32x4ExtractLane",
            Opcode::F32x4ReplaceLane => "F32x4ReplaceLane",
            Opcode::F64x2ExtractLane => "F64x2ExtractLane",
            Opcode::F64x2ReplaceLane => "F64x2ReplaceLane",
            Opcode::I8x16Eq => "I8x16Eq",
            Opcode::I8x16Ne => "I8x16Ne",
            Opcode::I8x16LtS => "I8x16LtS",
            Opcode::I8x16LtU => "I8x16LtU",
            Opcode::I8x16GtS => "I8x16GtS",
            Opcode::I8x16GtU => "I8x16GtU",
            Opcode::I8x16LeS => "I8x16LeS",
            Opcode::I8x16LeU => "I8x16LeU",
            Opcode::I8x16GeS => "I8x16GeS",
            Opcode::I8x16GeU => "I8x16GeU",
            Opcode::I16x8Eq => "I16x8Eq",
            Opcode::I16x8Ne => "I16x8Ne",
            Opcode::I16x8LtS => "I16x8LtS",
            Opcode::I16x8LtU => "I16x8LtU",
            Opcode::I16x8GtS => "I16x8GtS",
            Opcode::I16x8GtU => "I16x8GtU",
            Opcode::I16x8LeS => "I16x8LeS",
            Opcode::I16x8LeU => "I16x8LeU",
            Opcode::I16x8GeS => "I16x8GeS",
            Opcode::I16x8GeU => "I16x8GeU",
            Opcode::I32x4Eq => "I32x4Eq",
            Opcode::I32x4Ne => "I32x4Ne",
            Opcode::I32x4LtS => "I32x4LtS",
            Opcode::I32x4LtU => "I32x4LtU",
            Opcode::I32x4GtS => "I32x4GtS",
            Opcode::I32x4GtU => "I32x4GtU",
            Opcode::I32x4LeS => "I32x4LeS",
            Opcode::I32x4LeU => "I32x4LeU",
            Opcode::I32x4GeS => "I32x4GeS",
            Opcode::I32x4GeU => "I32x4GeU",
            Opcode::I64x2Eq => "I64x2Eq",
            Opcode::I64x2Ne => "I64x2Ne",
            Opcode::I64x2LtS => "I64x2LtS",
            Opcode::I64x2GtS => "I64x2GtS",
            Opcode::I64x2LeS => "I64x2LeS",
            Opcode::I64x2GeS => "I64x2GeS",
            Opcode::F32x4Eq => "F32x4Eq",
            Opcode::F32x4Ne => "F32x4Ne",
            Opcode::F32x4Lt => "F32x4Lt",
            Opcode::F32x4Gt => "F32x4Gt",
            Opcode::F32x4Le => "F32x4Le",
            Opcode::F32x4Ge => "F32x4Ge",
            Opcode::F64x2Eq => "F64x2Eq",
            Opcode::F64x2Ne => "F64x2Ne",
            Opcode::F64x2Lt => "F64x2Lt",
            Opcode::F64x2Gt => "F64x2Gt",
            Opcode::F64x2Le => "F64x2Le",
            Opcode::F64x2Ge => "F64x2Ge",
            Opcode::I8x16Neg => "I8x16Neg",
            Opcode::I8x16Popcnt => "I8x16Popcnt",
            Opcode::I16x8Neg => "I16x8Neg",
            Opcode::I32x4Neg => "I32x4Neg",
            Opcode::I64x2Neg => "I64x2Neg",
            Opcode::F32x4Neg => "F32x4Neg",
            Opcode::F64x2Neg => "F64x2Neg",
            Opcode::I8x16Abs => "I8x16Abs",
            Opcode::I16x8Abs => "I16x8Abs",
            Opcode::I32x4Abs => "I32x4Abs",
            Opcode::I64x2Abs => "I64x2Abs",
            Opcode::F32x4Abs => "F32x4Abs",
            Opcode::F64x2Abs => "F64x2Abs",
            Opcode::F32x4Sqrt => "F32x4Sqrt",
            Opcode::F64x2Sqrt => "F64x2Sqrt",
            Opcode::I8x16Add => "I8x16Add",
            Opcode::I16x8Add => "I16x8Add",
            Opcode::I32x4Add => "I32x4Add",
            Opcode::I64x2Add => "I64x2Add",
            Opcode::F32x4Add => "F32x4Add",
            Opcode::F64x2Add => "F64x2Add",
            Opcode::I8x16AddSatS => "I8x16AddSatS",
            Opcode::I8x16AddSatU => "I8x16AddSatU",
            Opcode::I16x8AddSatS => "I16x8AddSatS",
            Opcode::I16x8AddSatU => "I16x8AddSatU",
            Opcode::I8x16Sub => "I8x16Sub",
            Opcode::I16x8Sub => "I16x8Sub",
            Opcode::I32x4Sub => "I32x4Sub",
            Opcode::I64x2Sub => "I64x2Sub",
            Opcode::F32x4Sub => "F32x4Sub",
            Opcode::F64x2Sub => "F64x2Sub",
            Opcode::I8x16SubSatS => "I8x16SubSatS",
            Opcode::I8x16SubSatU => "I8x16SubSatU",
            Opcode::I16x8SubSatS => "I16x8SubSatS",
            Opcode::I16x8SubSatU => "I16x8SubSatU",
            Opcode::I8x16MinS => "I8x16MinS",
            Opcode::I8x16MinU => "I8x16MinU",
            Opcode::I16x8MinS => "I16x8MinS",
            Opcode::I16x8MinU => "I16x8MinU",
            Opcode::I32x4MinS => "I32x4MinS",
            Opcode::I32x4MinU => "I32x4MinU",
            Opcode::I64x2MinS => "I64x2MinS",
            Opcode::I64x2MinU => "I64x2MinU",
            Opcode::F32x4Min => "F32x4Min",
            Opcode::F64x2Min => "F64x2Min",
            Opcode::I8x16MaxS => "I8x16MaxS",
            Opcode::I8x16MaxU => "I8x16MaxU",
            Opcode::I16x8MaxS => "I16x8MaxS",
            Opcode::I16x8MaxU => "I16x8MaxU",
            Opcode::I32x4MaxS => "I32x4MaxS",
            Opcode::I32x4MaxU => "I32x4MaxU",
            Opcode::I64x2MaxS => "I64x2MaxS",
            Opcode::I64x2MaxU => "I64x2MaxU",
            Opcode::F32x4Max => "F32x4Max",
            Opcode::F64x2Max => "F64x2Max",
            Opcode::I8x16AvgrU => "I8x16AvgrU",
            Opcode::I16x8AvgrU => "I16x8AvgrU",
            Opcode::I8x16RoundingAverageU => "I8x16RoundingAverageU",
            Opcode::I16x8RoundingAverageU => "I16x8RoundingAverageU",
            Opcode::I8x16Mul => "I8x16Mul",
            Opcode::I16x8Mul => "I16x8Mul",
            Opcode::I32x4Mul => "I32x4Mul",
            Opcode::I64x2Mul => "I64x2Mul",
            Opcode::F32x4Mul => "F32x4Mul",
            Opcode::F64x2Mul => "F64x2Mul",
            Opcode::I16x8Q15MulrSatS => "I16x8Q15MulrSatS",
            Opcode::I16x8ExtMulLowI8x16S => "I16x8ExtMulLowI8x16S",
            Opcode::I16x8ExtMulHighI8x16S => "I16x8ExtMulHighI8x16S",
            Opcode::I16x8ExtMulLowI8x16U => "I16x8ExtMulLowI8x16U",
            Opcode::I16x8ExtMulHighI8x16U => "I16x8ExtMulHighI8x16U",
            Opcode::I32x4ExtMulLowI16x8S => "I32x4ExtMulLowI16x8S",
            Opcode::I32x4ExtMulHighI16x8S => "I32x4ExtMulHighI16x8S",
            Opcode::I32x4ExtMulLowI16x8U => "I32x4ExtMulLowI16x8U",
            Opcode::I32x4ExtMulHighI16x8U => "I32x4ExtMulHighI16x8U",
            Opcode::I64x2ExtMulLowI32x4S => "I64x2ExtMulLowI32x4S",
            Opcode::I64x2ExtMulHighI32x4S => "I64x2ExtMulHighI32x4S",
            Opcode::I64x2ExtMulLowI32x4U => "I64x2ExtMulLowI32x4U",
            Opcode::I64x2ExtMulHighI32x4U => "I64x2ExtMulHighI32x4U",
            Opcode::I8x16Shl => "I8x16Shl",
            Opcode::I16x8Shl => "I16x8Shl",
            Opcode::I32x4Shl => "I32x4Shl",
            Opcode::I64x2Shl => "I64x2Shl",
            Opcode::I8x16ShrS => "I8x16ShrS",
            Opcode::I8x16ShrU => "I8x16ShrU",
            Opcode::I16x8ShrS => "I16x8ShrS",
            Opcode::I16x8ShrU => "I16x8ShrU",
            Opcode::I32x4ShrS => "I32x4ShrS",
            Opcode::I32x4ShrU => "I32x4ShrU",
            Opcode::I64x2ShrS => "I64x2ShrS",
            Opcode::I64x2ShrU => "I64x2ShrU",
            Opcode::I8x16AllTrue => "I8x16AllTrue",
            Opcode::I16x8AllTrue => "I16x8AllTrue",
            Opcode::I32x4AllTrue => "I32x4AllTrue",
            Opcode::I64x2AllTrue => "I64x2AllTrue",
            Opcode::I8x16Bitmask => "I8x16Bitmask",
            Opcode::I16x8Bitmask => "I16x8Bitmask",
            Opcode::I32x4Bitmask => "I32x4Bitmask",
            Opcode::I64x2Bitmask => "I64x2Bitmask",
            Opcode::I8x16NarrowI16x8S => "I8x16NarrowI16x8S",
            Opcode::I8x16NarrowI16x8U => "I8x16NarrowI16x8U",
            Opcode::I16x8NarrowI32x4S => "I16x8NarrowI32x4S",
            Opcode::I16x8NarrowI32x4U => "I16x8NarrowI32x4U",
            Opcode::I16x8ExtendLowI8x16S => "I16x8ExtendLowI8x16S",
            Opcode::I16x8ExtendHighI8x16S => "I16x8ExtendHighI8x16S",
            Opcode::I16x8ExtendLowI8x16U => "I16x8ExtendLowI8x16U",
            Opcode::I16x8ExtendHighI8x16U => "I16x8ExtendHighI8x16U",
            Opcode::I32x4ExtendLowI16x8S => "I32x4ExtendLowI16x8S",
            Opcode::I32x4ExtendHighI16x8S => "I32x4ExtendHighI16x8S",
            Opcode::I32x4ExtendLowI16x8U => "I32x4ExtendLowI16x8U",
            Opcode::I32x4ExtendHighI16x8U => "I32x4ExtendHighI16x8U",
            Opcode::I64x2ExtendLowI32x4S => "I64x2ExtendLowI32x4S",
            Opcode::I64x2ExtendHighI32x4S => "I64x2ExtendHighI32x4S",
            Opcode::I64x2ExtendLowI32x4U => "I64x2ExtendLowI32x4U",
            Opcode::I64x2ExtendHighI32x4U => "I64x2ExtendHighI32x4U",
            Opcode::I32x4TruncSatF32x4S => "I32x4TruncSatF32x4S",
            Opcode::I32x4TruncSatF32x4U => "I32x4TruncSatF32x4U",
            Opcode::I32x4TruncSatF64x2SZero => "I32x4TruncSatF64x2SZero",
            Opcode::I32x4TruncSatF64x2UZero => "I32x4TruncSatF64x2UZero",
            Opcode::F32x4ConvertI32x4S => "F32x4ConvertI32x4S",
            Opcode::F32x4ConvertI32x4U => "F32x4ConvertI32x4U",
            Opcode::F64x2ConvertLowI32x4S => "F64x2ConvertLowI32x4S",
            Opcode::F64x2ConvertLowI32x4U => "F64x2ConvertLowI32x4U",
            Opcode::F32x4DemoteF64x2Zero => "F32x4DemoteF64x2Zero",
            Opcode::F64x2PromoteLowF32x4 => "F64x2PromoteLowF32x4",
            Opcode::F32x4Ceil => "F32x4Ceil",
            Opcode::F32x4Floor => "F32x4Floor",
            Opcode::F32x4Trunc => "F32x4Trunc",
            Opcode::F32x4Nearest => "F32x4Nearest",
            Opcode::F64x2Ceil => "F64x2Ceil",
            Opcode::F64x2Floor => "F64x2Floor",
            Opcode::F64x2Trunc => "F64x2Trunc",
            Opcode::F64x2Nearest => "F64x2Nearest",
            Opcode::I32x4DotI16x8S => "I32x4DotI16x8S",
            Opcode::I16x8ExtAddPairwiseI8x16S => "I16x8ExtAddPairwiseI8x16S",
            Opcode::I16x8ExtAddPairwiseI8x16U => "I16x8ExtAddPairwiseI8x16U",
            Opcode::I32x4ExtAddPairwiseI16x8S => "I32x4ExtAddPairwiseI16x8S",
            Opcode::I32x4ExtAddPairwiseI16x8U => "I32x4ExtAddPairwiseI16x8U",
            Opcode::V128AnyTrue => "V128AnyTrue",
            Opcode::V128And => "V128And",
            Opcode::V128AndNot => "V128AndNot",
            Opcode::V128Or => "V128Or",
            Opcode::V128Xor => "V128Xor",
            Opcode::V128Not => "V128Not",
            Opcode::V128Bitselect => "V128Bitselect",
            Opcode::F32x4Div => "F32x4Div",
            Opcode::F32x4PMin => "F32x4PMin",
            Opcode::F32x4PMax => "F32x4PMax",
            Opcode::F64x2Div => "F64x2Div",
            Opcode::F64x2PMin => "F64x2PMin",
            Opcode::F64x2PMax => "F64x2PMax",
            Opcode::I8x16RelaxedSwizzle => "I8x16RelaxedSwizzle",
            Opcode::I32x4RelaxedTruncF32x4S => "I32x4RelaxedTruncF32x4S",
            Opcode::I32x4RelaxedTruncF32x4U => "I32x4RelaxedTruncF32x4U",
            Opcode::I32x4RelaxedTruncF64x2SZero => "I32x4RelaxedTruncF64x2SZero",
            Opcode::I32x4RelaxedTruncF64x2UZero => "I32x4RelaxedTruncF64x2UZero",
            Opcode::F32x4RelaxedMadd => "F32x4RelaxedMadd",
            Opcode::F32x4RelaxedNmadd => "F32x4RelaxedNmadd",
            Opcode::F64x2RelaxedMadd => "F64x2RelaxedMadd",
            Opcode::F64x2RelaxedNmadd => "F64x2RelaxedNmadd",
            Opcode::I8x16RelaxedLaneselect => "I8x16RelaxedLaneselect",
            Opcode::I16x8RelaxedLaneselect => "I16x8RelaxedLaneselect",
            Opcode::I32x4RelaxedLaneselect => "I32x4RelaxedLaneselect",
            Opcode::I64x2RelaxedLaneselect => "I64x2RelaxedLaneselect",
            Opcode::F32x4RelaxedMin => "F32x4RelaxedMin",
            Opcode::F32x4RelaxedMax => "F32x4RelaxedMax",
            Opcode::F64x2RelaxedMin => "F64x2RelaxedMin",
            Opcode::F64x2RelaxedMax => "F64x2RelaxedMax",
            Opcode::I16x8RelaxedQ15mulrS => "I16x8RelaxedQ15mulrS",
            Opcode::I16x8RelaxedDotI8x16I7x16S => "I16x8RelaxedDotI8x16I7x16S",
            Opcode::I32x4RelaxedDotI8x16I7x16AddS => "I32x4RelaxedDotI8x16I7x16AddS",
            Opcode::MemoryAtomicNotify => "MemoryAtomicNotify",
            Opcode::MemoryAtomicWait32 => "MemoryAtomicWait32",
            Opcode::MemoryAtomicWait64 => "MemoryAtomicWait64",
            Opcode::AtomicFence => "AtomicFence",
            Opcode::I32AtomicLoad => "I32AtomicLoad",
            Opcode::I64AtomicLoad => "I64AtomicLoad",
            Opcode::I32AtomicLoad8U => "I32AtomicLoad8U",
            Opcode::I32AtomicLoad16U => "I32AtomicLoad16U",
            Opcode::I64AtomicLoad8U => "I64AtomicLoad8U",
            Opcode::I64AtomicLoad16U => "I64AtomicLoad16U",
            Opcode::I64AtomicLoad32U => "I64AtomicLoad32U",
            Opcode::I32AtomicStore => "I32AtomicStore",
            Opcode::I64AtomicStore => "I64AtomicStore",
            Opcode::I32AtomicStore8 => "I32AtomicStore8",
            Opcode::I32AtomicStore16 => "I32AtomicStore16",
            Opcode::I64AtomicStore8 => "I64AtomicStore8",
            Opcode::I64AtomicStore16 => "I64AtomicStore16",
            Opcode::I64AtomicStore32 => "I64AtomicStore32",
            Opcode::I32AtomicRmwAdd => "I32AtomicRmwAdd",
            Opcode::I64AtomicRmwAdd => "I64AtomicRmwAdd",
            Opcode::I32AtomicRmw8AddU => "I32AtomicRmw8AddU",
            Opcode::I32AtomicRmw16AddU => "I32AtomicRmw16AddU",
            Opcode::I64AtomicRmw8AddU => "I64AtomicRmw8AddU",
            Opcode::I64AtomicRmw16AddU => "I64AtomicRmw16AddU",
            Opcode::I64AtomicRmw32AddU => "I64AtomicRmw32AddU",
            Opcode::I32AtomicRmwSub => "I32AtomicRmwSub",
            Opcode::I64AtomicRmwSub => "I64AtomicRmwSub",
            Opcode::I32AtomicRmw8SubU => "I32AtomicRmw8SubU",
            Opcode::I32AtomicRmw16SubU => "I32AtomicRmw16SubU",
            Opcode::I64AtomicRmw8SubU => "I64AtomicRmw8SubU",
            Opcode::I64AtomicRmw16SubU => "I64AtomicRmw16SubU",
            Opcode::I64AtomicRmw32SubU => "I64AtomicRmw32SubU",
            Opcode::I32AtomicRmwAnd => "I32AtomicRmwAnd",
            Opcode::I64AtomicRmwAnd => "I64AtomicRmwAnd",
            Opcode::I32AtomicRmw8AndU => "I32AtomicRmw8AndU",
            Opcode::I32AtomicRmw16AndU => "I32AtomicRmw16AndU",
            Opcode::I64AtomicRmw8AndU => "I64AtomicRmw8AndU",
            Opcode::I64AtomicRmw16AndU => "I64AtomicRmw16AndU",
            Opcode::I64AtomicRmw32AndU => "I64AtomicRmw32AndU",
            Opcode::I32AtomicRmwOr => "I32AtomicRmwOr",
            Opcode::I64AtomicRmwOr => "I64AtomicRmwOr",
            Opcode::I32AtomicRmw8OrU => "I32AtomicRmw8OrU",
            Opcode::I32AtomicRmw16OrU => "I32AtomicRmw16OrU",
            Opcode::I64AtomicRmw8OrU => "I64AtomicRmw8OrU",
            Opcode::I64AtomicRmw16OrU => "I64AtomicRmw16OrU",
            Opcode::I64AtomicRmw32OrU => "I64AtomicRmw32OrU",
            Opcode::I32AtomicRmwXor => "I32AtomicRmwXor",
            Opcode::I64AtomicRmwXor => "I64AtomicRmwXor",
            Opcode::I32AtomicRmw8XorU => "I32AtomicRmw8XorU",
            Opcode::I32AtomicRmw16XorU => "I32AtomicRmw16XorU",
            Opcode::I64AtomicRmw8XorU => "I64AtomicRmw8XorU",
            Opcode::I64AtomicRmw16XorU => "I64AtomicRmw16XorU",
            Opcode::I64AtomicRmw32XorU => "I64AtomicRmw32XorU",
            Opcode::I32AtomicRmwXchg => "I32AtomicRmwXchg",
            Opcode::I64AtomicRmwXchg => "I64AtomicRmwXchg",
            Opcode::I32AtomicRmw8XchgU => "I32AtomicRmw8XchgU",
            Opcode::I32AtomicRmw16XchgU => "I32AtomicRmw16XchgU",
            Opcode::I64AtomicRmw8XchgU => "I64AtomicRmw8XchgU",
            Opcode::I64AtomicRmw16XchgU => "I64AtomicRmw16XchgU",
            Opcode::I64AtomicRmw32XchgU => "I64AtomicRmw32XchgU",
            Opcode::I32AtomicRmwCmpxchg => "I32AtomicRmwCmpxchg",
            Opcode::I64AtomicRmwCmpxchg => "I64AtomicRmwCmpxchg",
            Opcode::I32AtomicRmw8CmpxchgU => "I32AtomicRmw8CmpxchgU",
            Opcode::I32AtomicRmw16CmpxchgU => "I32AtomicRmw16CmpxchgU",
            Opcode::I64AtomicRmw8CmpxchgU => "I64AtomicRmw8CmpxchgU",
            Opcode::I64AtomicRmw16CmpxchgU => "I64AtomicRmw16CmpxchgU",
            Opcode::I64AtomicRmw32CmpxchgU => "I64AtomicRmw32CmpxchgU",
            Opcode::StructNew => "StructNew",
            Opcode::StructNewDefault => "StructNewDefault",
            Opcode::StructGet => "StructGet",
            Opcode::StructGetS => "StructGetS",
            Opcode::StructGetU => "StructGetU",
            Opcode::StructSet => "StructSet",
            Opcode::ArrayNew => "ArrayNew",
            Opcode::ArrayNewDefault => "ArrayNewDefault",
            Opcode::ArrayNewFixed => "ArrayNewFixed",
            Opcode::ArrayNewData => "ArrayNewData",
            Opcode::ArrayNewElem => "ArrayNewElem",
            Opcode::ArrayGet => "ArrayGet",
            Opcode::ArrayGetS => "ArrayGetS",
            Opcode::ArrayGetU => "ArrayGetU",
            Opcode::ArraySet => "ArraySet",
            Opcode::ArrayLen => "ArrayLen",
            Opcode::ArrayFill => "ArrayFill",
            Opcode::ArrayCopy => "ArrayCopy",
            Opcode::ArrayInitData => "ArrayInitData",
            Opcode::ArrayInitElem => "ArrayInitElem",
            Opcode::RefTestRef => "RefTestRef",
            Opcode::RefTestNonNullRef => "RefTestNonNullRef",
            Opcode::RefCastRef => "RefCastRef",
            Opcode::RefCastNonNullRef => "RefCastNonNullRef",
            Opcode::BrOnCast => "BrOnCast",
            Opcode::BrOnCastFail => "BrOnCastFail",
            Opcode::AnyConvertExtern => "AnyConvertExtern",
            Opcode::ExternConvertAny => "ExternConvertAny",
            Opcode::RefI31 => "RefI31",
            Opcode::I31GetS => "I31GetS",
            Opcode::I31GetU => "I31GetU",
            Opcode::TryTable => "TryTable",
            Opcode::Throw => "Throw",
            Opcode::ThrowRef => "ThrowRef",
            Opcode::Rethrow => "Rethrow",
            Opcode::Catch => "Catch",
            Opcode::CatchAll => "CatchAll",
            Opcode::Delegate => "Delegate",
            Opcode::Unrecognized(_) => "Unrecognized",
        }
    }

    /// An exact copy of this opcode.
    pub fn copy(&self) -> (r: Opcode)
        ensures
            r == *self,
    {
        match self {
            Opcode::Unreachable => Opcode::Unreachable,
            Opcode::Nop => Opcode::Nop,
            Opcode::Block => Opcode::Block,
            Opcode::Loop => Opcode::Loop,
            Opcode::If => Opcode::If,
            Opcode::Else => Opcode::Else,
            Opcode::End => Opcode::End,
            Opcode::Br => Opcode::Br,
            Opcode::BrIf => Opcode::BrIf,
            Opcode::BrTable => Opcode::BrTable,
            Opcode::Return => Opcode::Return,
            Opcode::Call => Opcode::Call,
            Opcode::CallIndirect => Opcode::CallIndirect,
            Opcode::ReturnCall => Opcode::ReturnCall,
            Opcode::ReturnCallIndirect => Opcode::ReturnCallIndirect,
            Opcode::CallRef => Opcode::CallRef,
            Opcode::ReturnCallRef => Opcode::ReturnCallRef,
            Opcode::Drop => Opcode::Drop,
            Opcode::Select => Opcode::Select,
            Opcode::LocalGet => Opcode::LocalGet,
            Opcode::LocalSet => Opcode::LocalSet,
            Opcode::LocalTee => Opcode::LocalTee,
            Opcode::GlobalGet => Opcode::GlobalGet,
            Opcode::GlobalSet => Opcode::GlobalSet,
            Opcode::TableGet => Opcode::TableGet,
            Opcode::TableSet => Opcode::TableSet,
            Opcode::TableSize => Opcode::TableSize,
            Opcode::TableGrow => Opcode::TableGrow,
            Opcode::TableFill => Opcode::TableFill,
            Opcode::TableCopy => Opcode::TableCopy,
            Opcode::TableInit => Opcode::TableInit,
            Opcode::ElemDrop => Opcode::ElemDrop,
            Opcode::I32Load => Opcode::I32Load,
            Opcode::I64Load => Opcode::I64Load,
            Opcode::F32Load => Opcode::F32Load,
            Opcode::F64Load => Opcode::F64Load,
            Opcode::I32Load8S => Opcode::I32Load8S,
            Opcode::I32Load8U => Opcode::I32Load8U,
            Opcode::I32Load16S => Opcode::I32Load16S,
            Opcode::I32Load16U => Opcode::I32Load16U,
            Opcode::I64Load8S => Opcode::I64Load8S,
            Opcode::I64Load8U => Opcode::I64Load8U,
            Opcode::I64Load16S => Opcode::I64Load16S,
            Opcode::I64Load16U => Opcode::I64Load16U,
            Opcode::I64Load32S => Opcode::I64Load32S,
            Opcode::I64Load32U => Opcode::I64Load32U,
            Opcode::I32Store => Opcode::I32Store,
            Opcode::I64Store => Opcode::I64Store,
            Opcode::F32Store => Opcode::F32Store,
            Opcode::F64Store => Opcode::F64Store,
            Opcode::I32Store8 => Opcode::I32Store8,
            Opcode::I32Store16 => Opcode::I32Store16,
            Opcode::I64Store8 => Opcode::I64Store8,
            Opcode::I64Store16 => Opcode::I64Store16,
            Opcode::I64Store32 => Opcode::I64Store32,
            Opcode::MemorySize => Opcode::MemorySize,
            Opcode::MemoryGrow => Opcode::MemoryGrow,
            Opcode::MemoryInit => Opcode::MemoryInit,
            Opcode::DataDrop => Opcode::DataDrop,
            Opcode::MemoryCopy => Opcode::MemoryCopy,
            Opcode::MemoryFill => Opcode::MemoryFill,
            Opcode::I32Const => Opcode::I32Const,
            Opcode::I64Const => Opcode::I64Const,
            Opcode::F32Const => Opcode::F32Const,
            Opcode::F64Const => Opcode::F64Const,
            Opcode::RefNull => Opcode::RefNull,
            Opcode::RefIsNull => Opcode::RefIsNull,
            Opcode::RefFunc => Opcode::RefFunc,
            Opcode::RefEq => Opcode::RefEq,
            Opcode::RefAsNonNull => Opcode::RefAsNonNull,
            Opcode::BrOnNull => Opcode::BrOnNull,
            Opcode::BrOnNonNull => Opcode::BrOnNonNull,
            Opcode::I32Eqz => Opcode::I32Eqz,
            Opcode::I32Eq => Opcode::I32Eq,
            Opcode::I32Ne => Opcode::I32Ne,
            Opcode::I32LtS => Opcode::I32LtS,
            Opcode::I32LtU => Opcode::I32LtU,
            Opcode::I32GtS => Opcode::I32GtS,
            Opcode::I32GtU => Opcode::I32GtU,
            Opcode::I32LeS => Opcode::I32LeS,
            Opcode::I32LeU => Opcode::I32LeU,
            Opcode::I32GeS => Opcode::I32GeS,
            Opcode::I32GeU => Opcode::I32GeU,
            Opcode::I64Eqz => Opcode::I64Eqz,
            Opcode::I64Eq => Opcode::I64Eq,
            Opcode::I64Ne => Opcode::I64Ne,
            Opcode::I64LtS => Opcode::I64LtS,
            Opcode::I64LtU => Opcode::I64LtU,
            Opcode::I64GtS => Opcode::I64GtS,
            Opcode::I64GtU => Opcode::I64GtU,
            Opcode::I64LeS => Opcode::I64LeS,
            Opcode::I64LeU => Opcode::I64LeU,
            Opcode::I64GeS => Opcode::I64GeS,
            Opcode::I64GeU => Opcode::I64GeU,
            Opcode::F32Eq => Opcode::F32Eq,
            Opcode::F32Ne => Opcode::F32Ne,
            Opcode::F32Lt => Opcode::F32Lt,
            Opcode::F32Gt => Opcode::F32Gt,
            Opcode::F32Le => Opcode::F32Le,
            Opcode::F32Ge => Opcode::F32Ge,
            Opcode::F64Eq => Opcode::F64Eq,
            Opcode::F64Ne => Opcode::F64Ne,
            Opcode::F64Lt => Opcode::F64Lt,
            Opcode::F64Gt => Opcode::F64Gt,
            Opcode::F64Le => Opcode::F64Le,
            Opcode::F64Ge => Opcode::F64Ge,
            Opcode::I32Clz => Opcode::I32Clz,
            Opcode::I32Ctz => Opcode::I32Ctz,
            Opcode::I32Popcnt => Opcode::I32Popcnt,
            Opcode::I32Extend8S => Opcode::I32Extend8S,
            Opcode::I32Extend16S => Opcode::I32Extend16S,
            Opcode::I64Clz => Opcode::I64Clz,
            Opcode::I64Ctz => Opcode::I64Ctz,
            Opcode::I64Popcnt => Opcode::I64Popcnt,
            Opcode::I64Extend8S => Opcode::I64Extend8S,
            Opcode::I64Extend16S => Opcode::I64Extend16S,
            Opcode::I64Extend32S => Opcode::I64Extend32S,
            Opcode::F32Abs => Opcode::F32Abs,
            Opcode::F32Neg => Opcode::F32Neg,
            Opcode::F32Ceil => Opcode::F32Ceil,
            Opcode::F32Floor => Opcode::F32Floor,
            Opcode::F32Trunc => Opcode::F32Trunc,
            Opcode::F32Nearest => Opcode::F32Nearest,
            Opcode::F32Sqrt => Opcode::F32Sqrt,
            Opcode::F64Abs => Opcode::F64Abs,
            Opcode::F64Neg => Opcode::F64Neg,
            Opcode::F64Ceil => Opcode::F64Ceil,
            Opcode::F64Floor => Opcode::F64Floor,
            Opcode::F64Trunc => Opcode::F64Trunc,
            Opcode::F64Nearest => Opcode::F64Nearest,
            Opcode::F64Sqrt => Opcode::F64Sqrt,
            Opcode::I32Add => Opcode::I32Add,
            Opcode::I32Sub => Opcode::I32Sub,
            Opcode::I32Mul => Opcode::I32Mul,
            Opcode::I32DivS => Opcode::I32DivS,
            Opcode::I32DivU => Opcode::I32DivU,
            Opcode::I32RemS => Opcode::I32RemS,
            Opcode::I32RemU => Opcode::I32RemU,
            Opcode::I32And => Opcode::I32And,
            Opcode::I32Or => Opcode::I32Or,
            Opcode::I32Xor => Opcode::I32Xor,
            Opcode::I32Shl => Opcode::I32Shl,
            Opcode::I32ShrS => Opcode::I32ShrS,
            Opcode::I32ShrU => Opcode::I32ShrU,
            Opcode::I32Rotl => Opcode::I32Rotl,
            Opcode::I32Rotr => Opcode::I32Rotr,
            Opcode::I64Add => Opcode::I64Add,
            Opcode::I64Sub => Opcode::I64Sub,
            Opcode::I64Mul => Opcode::I64Mul,
            Opcode::I64DivS => Opcode::I64DivS,
            Opcode::I64DivU => Opcode::I64DivU,
            Opcode::I64RemS => Opcode::I64RemS,
            Opcode::I64RemU => Opcode::I64RemU,
            Opcode::I64And => Opcode::I64And,
            Opcode::I64Or => Opcode::I64Or,
            Opcode::I64Xor => Opcode::I64Xor,
            Opcode::I64Shl => Opcode::I64Shl,
            Opcode::I64ShrS => Opcode::I64ShrS,
            Opcode::I64ShrU => Opcode::I64ShrU,
            Opcode::I64Rotl => Opcode::I64Rotl,
            Opcode::I64Rotr => Opcode::I64Rotr,
            Opcode::F32Add => Opcode::F32Add,
            Opcode::F32Sub => Opcode::F32Sub,
            Opcode::F32Mul => Opcode::F32Mul,
            Opcode::F32Div => Opcode::F32Div,
            Opcode::F32Min => Opcode::F32Min,
            Opcode::F32Max => Opcode::F32Max,
            Opcode::F32Copysign => Opcode::F32Copysign,
            Opcode::F64Add => Opcode::F64Add,
            Opcode::F64Sub => Opcode::F64Sub,
            Opcode::F64Mul => Opcode::F64Mul,
            Opcode::F64Div => Opcode::F64Div,
            Opcode::F64Min => Opcode::F64Min,
            Opcode::F64Max => Opcode::F64Max,
            Opcode::F64Copysign => Opcode::F64Copysign,
            Opcode::I32WrapI64 => Opcode::I32WrapI64,
            Opcode::I32TruncF32S => Opcode::I32TruncF32S,
            Opcode::I32TruncF32U => Opcode::I32TruncF32U,
            Opcode::I32TruncF64S => Opcode::I32TruncF64S,
            Opcode::I32TruncF64U => Opcode::I32TruncF64U,
            Opcode::I64ExtendI32S => Opcode::I64ExtendI32S,
            Opcode::I64ExtendI32U => Opcode::I64ExtendI32U,
            Opcode::I64TruncF32S => Opcode::I64TruncF32S,
            Opcode::I64TruncF32U => Opcode::I64TruncF32U,
            Opcode::I64TruncF64S => Opcode::I64TruncF64S,
            Opcode::I64TruncF64U => Opcode::I64TruncF64U,
            Opcode::F32ConvertI32S => Opcode::F32ConvertI32S,
            Opcode::F32ConvertI32U => Opcode::F32ConvertI32U,
            Opcode::F32ConvertI64S => Opcode::F32ConvertI64S,
            Opcode::F32ConvertI64U => Opcode::F32ConvertI64U,
            Opcode::F32DemoteF64 => Opcode::F32DemoteF64,
            Opcode::F64ConvertI32S => Opcode::F64ConvertI32S,
            Opcode::F64ConvertI32U => Opcode::F64ConvertI32U,
            Opcode::F64ConvertI64S => Opcode::F64ConvertI64S,
            Opcode::F64ConvertI64U => Opcode::F64ConvertI64U,
            Opcode::F64PromoteF32 => Opcode::F64PromoteF32,
            Opcode::I32ReinterpretF32 => Opcode::I32ReinterpretF32,
            Opcode::I64ReinterpretF64 => Opcode::I64ReinterpretF64,
            Opcode::F32ReinterpretI32 => Opcode::F32ReinterpretI32,
            Opcode::F64ReinterpretI64 => Opcode::F64ReinterpretI64,
            Opcode::I32TruncSatF32S => Opcode::I32TruncSatF32S,
            Opcode::I32TruncSatF32U => Opcode::I32TruncSatF32U,
            Opcode::I32TruncSatF64S => Opcode::I32TruncSatF64S,
            Opcode::I32TruncSatF64U => Opcode::I32TruncSatF64U,
            Opcode::I64TruncSatF32S => Opcode::I64TruncSatF32S,
            Opcode::I64TruncSatF32U => Opcode::I64TruncSatF32U,
            Opcode::I64TruncSatF64S => Opcode::I64TruncSatF64S,
            Opcode::I64TruncSatF64U => Opcode::I64TruncSatF64U,
            Opcode::V128Load => Opcode::V128Load,
            Opcode::V128Load8x8S => Opcode::V128Load8x8S,
            Opcode::V128Load8x8U => Opcode::V128Load8x8U,
            Opcode::V128Load16x4S => Opcode::V128Load16x4S,
            Opcode::V128Load16x4U => Opcode::V128Load16x4U,
            Opcode::V128Load32x2S => Opcode::V128Load32x2S,
            Opcode::V128Load32x2U => Opcode::V128Load32x2U,
            Opcode::V128Load8Splat => Opcode::V128Load8Splat,
            Opcode::V128Load16Splat => Opcode::V128Load16Splat,
            Opcode::V128Load32Splat => Opcode::V128Load32Splat,
            Opcode::V128Load64Splat => Opcode::V128Load64Splat,
            Opcode::V128Load32Zero => Opcode::V128Load32Zero,
            Opcode::V128Load64Zero => Opcode::V128Load64Zero,
            Opcode::V128Store => Opcode::V128Store,
            Opcode::V128Const => Opcode::V128Const,
            Opcode::V128Load8Lane => Opcode::V128Load8Lane,
            Opcode::V128Load16Lane => Opcode::V128Load16Lane,
            Opcode::V128Load32Lane => Opcode::V128Load32Lane,
            Opcode::V128Load64Lane => Opcode::V128Load64Lane,
            Opcode::V128Store8Lane => Opcode::V128Store8Lane,
            Opcode::V128Store16Lane => Opcode::V128Store16Lane,
            Opcode::V128Store32Lane => Opcode::V128Store32Lane,
            Opcode::V128Store64Lane => Opcode::V128Store64Lane,
            Opcode::I8x16Shuffle => Opcode::I8x16Shuffle,
            Opcode::I8x16Swizzle => Opcode::I8x16Swizzle,
            Opcode::I8x16Splat => Opcode::I8x16Splat,
            Opcode::I16x8Splat => Opcode::I16x8Splat,
            Opcode::I32x4Splat => Opcode::I32x4Splat,
            Opcode::I64x2Splat => Opcode::I64x2Splat,
            Opcode::F32x4Splat => Opcode::F32x4Splat,
            Opcode::F64x2Splat => Opcode::F64x2Splat,
            Opcode::I8x16ExtractLaneS => Opcode::I8x16ExtractLaneS,
            Opcode::I8x16ExtractLaneU => Opcode::I8x16ExtractLaneU,
            Opcode::I8x16ReplaceLane => Opcode::I8x16ReplaceLane,
            Opcode::I16x8ExtractLaneS => Opcode::I16x8ExtractLaneS,
            Opcode::I16x8ExtractLaneU => Opcode::I16x8ExtractLaneU,
            Opcode::I16x8ReplaceLane => Opcode::I16x8ReplaceLane,
            Opcode::I32x4ExtractLane => Opcode::I32x4ExtractLane,
            Opcode::I32x4ReplaceLane => Opcode::I32x4ReplaceLane,
            Opcode::I64x2ExtractLane => Opcode::I64x2ExtractLane,
            Opcode::I64x2ReplaceLane => Opcode::I64x2ReplaceLane,
            Opcode::F32x4ExtractLane => Opcode::F32x4ExtractLane,
            Opcode::F32x4ReplaceLane => Opcode::F32x4ReplaceLane,
            Opcode::F64x2ExtractLane => Opcode::F64x2ExtractLane,
            Opcode::F64x2ReplaceLane => Opcode::F64x2ReplaceLane,
            Opcode::I8x16Eq => Opcode::I8x16Eq,
            Opcode::I8x16Ne => Opcode::I8x16Ne,
            Opcode::I8x16LtS => Opcode::I8x16LtS,
            Opcode::I8x16LtU => Opcode::I8x16LtU,
            Opcode::I8x16GtS => Opcode::I8x16GtS,
            Opcode::I8x16GtU => Opcode::I8x16GtU,
            Opcode::I8x16LeS => Opcode::I8x16LeS,
            Opcode::I8x16LeU => Opcode::I8x16LeU,
            Opcode::I8x16GeS => Opcode::I8x16GeS,
            Opcode::I8x16GeU => Opcode::I8x16GeU,
            Opcode::I16x8Eq => Opcode::I16x8Eq,
            Opcode::I16x8Ne => Opcode::I16x8Ne,
            Opcode::I16x8LtS => Opcode::I16x8LtS,
            Opcode::I16x8LtU => Opcode::I16x8LtU,
            Opcode::I16x8GtS => Opcode::I16x8GtS,
            Opcode::I16x8GtU => Opcode::I16x8GtU,
            Opcode::I16x8LeS => Opcode::I16x8LeS,
            Opcode::I16x8LeU => Opcode::I16x8LeU,
            Opcode::I16x8GeS => Opcode::I16x8GeS,
            Opcode::I16x8GeU => Opcode::I16x8GeU,
            Opcode::I32x4Eq => Opcode::I32x4Eq,
            Opcode::I32x4Ne => Opcode::I32x4Ne,
            Opcode::I32x4LtS => Opcode::I32x4LtS,
            Opcode::I32x4LtU => Opcode::I32x4LtU,
            Opcode::I32x4GtS => Opcode::I32x4GtS,
            Opcode::I32x4GtU => Opcode::I32x4GtU,
            Opcode::I32x4LeS => Opcode::I32x4LeS,
            Opcode::I32x4LeU => Opcode::I32x4LeU,
            Opcode::I32x4GeS => Opcode::I32x4GeS,
            Opcode::I32x4GeU => Opcode::I32x4GeU,
            Opcode::I64x2Eq => Opcode::I64x2Eq,
            Opcode::I64x2Ne => Opcode::I64x2Ne,
            Opcode::I64x2LtS => Opcode::I64x2LtS,
            Opcode::I64x2GtS => Opcode::I64x2GtS,
            Opcode::I64x2LeS => Opcode::I64x2LeS,
            Opcode::I64x2GeS => Opcode::I64x2GeS,
            Opcode::F32x4Eq => Opcode::F32x4Eq,
            Opcode::F32x4Ne => Opcode::F32x4Ne,
            Opcode::F32x4Lt => Opcode::F32x4Lt,
            Opcode::F32x4Gt => Opcode::F32x4Gt,
            Opcode::F32x4Le => Opcode::F32x4Le,
            Opcode::F32x4Ge => Opcode::F32x4Ge,
            Opcode::F64x2Eq => Opcode::F64x2Eq,
            Opcode::F64x2Ne => Opcode::F64x2Ne,
            Opcode::F64x2Lt => Opcode::F64x2Lt,
            Opcode::F64x2Gt => Opcode::F64x2Gt,
            Opcode::F64x2Le => Opcode::F64x2Le,
            Opcode::F64x2Ge => Opcode::F64x2Ge,
            Opcode::I8x16Neg => Opcode::I8x16Neg,
            Opcode::I8x16Popcnt => Opcode::I8x16Popcnt,
            Opcode::I16x8Neg => Opcode::I16x8Neg,
            Opcode::I32x4Neg => Opcode::I32x4Neg,
            Opcode::I64x2Neg => Opcode::I64x2Neg,
            Opcode::F32x4Neg => Opcode::F32x4Neg,
            Opcode::F64x2Neg => Opcode::F64x2Neg,
            Opcode::I8x16Abs => Opcode::I8x16Abs,
            Opcode::I16x8Abs => Opcode::I16x8Abs,
            Opcode::I32x4Abs => Opcode::I32x4Abs,
            Opcode::I64x2Abs => Opcode::I64x2Abs,
            Opcode::F32x4Abs => Opcode::F32x4Abs,
            Opcode::F64x2Abs => Opcode::F64x2Abs,
            Opcode::F32x4Sqrt => Opcode::F32x4Sqrt,
            Opcode::F64x2Sqrt => Opcode::F64x2Sqrt,
            Opcode::I8x16Add => Opcode::I8x16Add,
            Opcode::I16x8Add => Opcode::I16x8Add,
            Opcode::I32x4Add => Opcode::I32x4Add,
            Opcode::I64x2Add => Opcode::I64x2Add,
            Opcode::F32x4Add => Opcode::F32x4Add,
            Opcode::F64x2Add => Opcode::F64x2Add,
            Opcode::I8x16AddSatS => Opcode::I8x16AddSatS,
            Opcode::I8x16AddSatU => Opcode::I8x16AddSatU,
            Opcode::I16x8AddSatS => Opcode::I16x8AddSatS,
            Opcode::I16x8AddSatU => Opcode::I16x8AddSatU,
            Opcode::I8x16Sub => Opcode::I8x16Sub,
            Opcode::I16x8Sub => Opcode::I16x8Sub,
            Opcode::I32x4Sub => Opcode::I32x4Sub,
            Opcode::I64x2Sub => Opcode::I64x2Sub,
            Opcode::F32x4Sub => Opcode::F32x4Sub,
            Opcode::F64x2Sub => Opcode::F64x2Sub,
            Opcode::I8x16SubSatS => Opcode::I8x16SubSatS,
            Opcode::I8x16SubSatU => Opcode::I8x16SubSatU,
            Opcode::I16x8SubSatS => Opcode::I16x8SubSatS,
            Opcode::I16x8SubSatU => Opcode::I16x8SubSatU,
            Opcode::I8x16MinS => Opcode::I8x16MinS,
            Opcode::I8x16MinU => Opcode::I8x16MinU,
            Opcode::I16x8MinS => Opcode::I16x8MinS,
            Opcode::I16x8MinU => Opcode::I16x8MinU,
            Opcode::I32x4MinS => Opcode::I32x4MinS,
            Opcode::I32x4MinU => Opcode::I32x4MinU,
            Opcode::I64x2MinS => Opcode::I64x2MinS,
            Opcode::I64x2MinU => Opcode::I64x2MinU,
            Opcode::F32x4Min => Opcode::F32x4Min,
            Opcode::F64x2Min => Opcode::F64x2Min,
            Opcode::I8x16MaxS => Opcode::I8x16MaxS,
            Opcode::I8x16MaxU => Opcode::I8x16MaxU,
            Opcode::I16x8MaxS => Opcode::I16x8MaxS,
            Opcode::I16x8MaxU => Opcode::I16x8MaxU,
            Opcode::I32x4MaxS => Opcode::I32x4MaxS,
            Opcode::I32x4MaxU => Opcode::I32x4MaxU,
            Opcode::I64x2MaxS => Opcode::I64x2MaxS,
            Opcode::I64x2MaxU => Opcode::I64x2MaxU,
            Opcode::F32x4Max => Opcode::F32x4Max,
            Opcode::F64x2Max => Opcode::F64x2Max,
            Opcode::I8x16AvgrU => Opcode::I8x16AvgrU,
            Opcode::I16x8AvgrU => Opcode::I16x8AvgrU,
            Opcode::I8x16RoundingAverageU => Opcode::I8x16RoundingAverageU,
            Opcode::I16x8RoundingAverageU => Opcode::I16x8RoundingAverageU,
            Opcode::I8x16Mul => Opcode::I8x16Mul,
            Opcode::I16x8Mul => Opcode::I16x8Mul,
            Opcode::I32x4Mul => Opcode::I32x4Mul,
            Opcode::I64x2Mul => Opcode::I64x2Mul,
            Opcode::F32x4Mul => Opcode::F32x4Mul,
            Opcode::F64x2Mul => Opcode::F64x2Mul,
            Opcode::I16x8Q15MulrSatS => Opcode::I16x8Q15MulrSatS,
            Opcode::I16x8ExtMulLowI8x16S => Opcode::I16x8ExtMulLowI8x16S,
            Opcode::I16x8ExtMulHighI8x16S => Opcode::I16x8ExtMulHighI8x16S,
            Opcode::I16x8ExtMulLowI8x16U => Opcode::I16x8ExtMulLowI8x16U,
            Opcode::I16x8ExtMulHighI8x16U => Opcode::I16x8ExtMulHighI8x16U,
            Opcode::I32x4ExtMulLowI16x8S => Opcode::I32x4ExtMulLowI16x8S,
            Opcode::I32x4ExtMulHighI16x8S => Opcode::I32x4ExtMulHighI16x8S,
            Opcode::I32x4ExtMulLowI16x8U => Opcode::I32x4ExtMulLowI16x8U,
            Opcode::I32x4ExtMulHighI16x8U => Opcode::I32x4ExtMulHighI16x8U,
            Opcode::I64x2ExtMulLowI32x4S => Opcode::I64x2ExtMulLowI32x4S,
            Opcode::I64x2ExtMulHighI32x4S => Opcode::I64x2ExtMulHighI32x4S,
            Opcode::I64x2ExtMulLowI32x4U => Opcode::I64x2ExtMulLowI32x4U,
            Opcode::I64x2ExtMulHighI32x4U => Opcode::I64x2ExtMulHighI32x4U,
            Opcode::I8x16Shl => Opcode::I8x16Shl,
            Opcode::I16x8Shl => Opcode::I16x8Shl,
            Opcode::I32x4Shl => Opcode::I32x4Shl,
            Opcode::I64x2Shl => Opcode::I64x2Shl,
            Opcode::I8x16ShrS => Opcode::I8x16ShrS,
            Opcode::I8x16ShrU => Opcode::I8x16ShrU,
            Opcode::I16x8ShrS => Opcode::I16x8ShrS,
            Opcode::I16x8ShrU => Opcode::I16x8ShrU,
            Opcode::I32x4ShrS => Opcode::I32x4ShrS,
            Opcode::I32x4ShrU => Opcode::I32x4ShrU,
            Opcode::I64x2ShrS => Opcode::I64x2ShrS,
            Opcode::I64x2ShrU => Opcode::I64x2ShrU,
            Opcode::I8x16AllTrue => Opcode::I8x16AllTrue,
            Opcode::I16x8AllTrue => Opcode::I16x8AllTrue,
            Opcode::I32x4AllTrue => Opcode::I32x4AllTrue,
            Opcode::I64x2AllTrue => Opcode::I64x2AllTrue,
            Opcode::I8x16Bitmask => Opcode::I8x16Bitmask,
            Opcode::I16x8Bitmask => Opcode::I16x8Bitmask,
            Opcode::I32x4Bitmask => Opcode::I32x4Bitmask,
            Opcode::I64x2Bitmask => Opcode::I64x2Bitmask,
            Opcode::I8x16NarrowI16x8S => Opcode::I8x16NarrowI16x8S,
            Opcode::I8x16NarrowI16x8U => Opcode::I8x16NarrowI16x8U,
            Opcode::I16x8NarrowI32x4S => Opcode::I16x8NarrowI32x4S,
            Opcode::I16x8NarrowI32x4U => Opcode::I16x8NarrowI32x4U,
            Opcode::I16x8ExtendLowI8x16S => Opcode::I16x8ExtendLowI8x16S,
            Opcode::I16x8ExtendHighI8x16S => Opcode::I16x8ExtendHighI8x16S,
            Opcode::I16x8ExtendLowI8x16U => Opcode::I16x8ExtendLowI8x16U,
            Opcode::I16x8ExtendHighI8x16U => Opcode::I16x8ExtendHighI8x16U,
            Opcode::I32x4ExtendLowI16x8S => Opcode::I32x4ExtendLowI16x8S,
            Opcode::I32x4ExtendHighI16x8S => Opcode::I32x4ExtendHighI16x8S,
            Opcode::I32x4ExtendLowI16x8U => Opcode::I32x4ExtendLowI16x8U,
            Opcode::I32x4ExtendHighI16x8U => Opcode::I32x4ExtendHighI16x8U,
            Opcode::I64x2ExtendLowI32x4S => Opcode::I64x2ExtendLowI32x4S,
            Opcode::I64x2ExtendHighI32x4S => Opcode::I64x2ExtendHighI32x4S,
            Opcode::I64x2ExtendLowI32x4U => Opcode::I64x2ExtendLowI32x4U,
            Opcode::I64x2ExtendHighI32x4U => Opcode::I64x2ExtendHighI32x4U,
            Opcode::I32x4TruncSatF32x4S => Opcode::I32x4TruncSatF32x4S,
            Opcode::I32x4TruncSatF32x4U => Opcode::I32x4TruncSatF32x4U,
            Opcode::I32x4TruncSatF64x2SZero => Opcode::I32x4TruncSatF64x2SZero,
            Opcode::I32x4TruncSatF64x2UZero => Opcode::I32x4TruncSatF64x2UZero,
            Opcode::F32x4ConvertI32x4S => Opcode::F32x4ConvertI32x4S,
            Opcode::F32x4ConvertI32x4U => Opcode::F32x4ConvertI32x4U,
            Opcode::F64x2ConvertLowI32x4S => Opcode::F64x2ConvertLowI32x4S,
            Opcode::F64x2ConvertLowI32x4U => Opcode::F64x2ConvertLowI32x4U,
            Opcode::F32x4DemoteF64x2Zero => Opcode::F32x4DemoteF64x2Zero,
            Opcode::F64x2PromoteLowF32x4 => Opcode::F64x2PromoteLowF32x4,
            Opcode::F32x4Ceil => Opcode::F32x4Ceil,
            Opcode::F32x4Floor => Opcode::F32x4Floor,
            Opcode::F32x4Trunc => Opcode::F32x4Trunc,
            Opcode::F32x4Nearest => Opcode::F32x4Nearest,
            Opcode::F64x2Ceil => Opcode::F64x2Ceil,
            Opcode::F64x2Floor => Opcode::F64x2Floor,
            Opcode::F64x2Trunc => Opcode::F64x2Trunc,
            Opcode::F64x2Nearest => Opcode::F64x2Nearest,
            Opcode::I32x4DotI16x8S => Opcode::I32x4DotI16x8S,
            Opcode::I16x8ExtAddPairwiseI8x16S => Opcode::I16x8ExtAddPairwiseI8x16S,
            Opcode::I16x8ExtAddPairwiseI8x16U => Opcode::I16x8ExtAddPairwiseI8x16U,
            Opcode::I32x4ExtAddPairwiseI16x8S => Opcode::I32x4ExtAddPairwiseI16x8S,
            Opcode::I32x4ExtAddPairwiseI16x8U => Opcode::I32x4ExtAddPairwiseI16x8U,
            Opcode::V128AnyTrue => Opcode::V128AnyTrue,
            Opcode::V128And => Opcode::V128And,
            Opcode::V128AndNot => Opcode::V128AndNot,
            Opcode::V128Or => Opcode::V128Or,
            Opcode::V128Xor => Opcode::V128Xor,
            Opcode::V128Not => Opcode::V128Not,
            Opcode::V128Bitselect => Opcode::V128Bitselect,
            Opcode::F32x4Div => Opcode::F32x4Div,
            Opcode::F32x4PMin => Opcode::F32x4PMin,
            Opcode::F32x4PMax => Opcode::F32x4PMax,
            Opcode::F64x2Div => Opcode::F64x2Div,
            Opcode::F64x2PMin => Opcode::F64x2PMin,
            Opcode::F64x2PMax => Opcode::F64x2PMax,
            Opcode::I8x16RelaxedSwizzle => Opcode::I8x16RelaxedSwizzle,
            Opcode::I32x4RelaxedTruncF32x4S => Opcode::I32x4RelaxedTruncF32x4S,
            Opcode::I32x4RelaxedTruncF32x4U => Opcode::I32x4RelaxedTruncF32x4U,
            Opcode::I32x4RelaxedTruncF64x2SZero => Opcode::I32x4RelaxedTruncF64x2SZero,
            Opcode::I32x4RelaxedTruncF64x2UZero => Opcode::I32x4RelaxedTruncF64x2UZero,
            Opcode::F32x4RelaxedMadd => Opcode::F32x4RelaxedMadd,
            Opcode::F32x4RelaxedNmadd => Opcode::F32x4RelaxedNmadd,
            Opcode::F64x2RelaxedMadd => Opcode::F64x2RelaxedMadd,
            Opcode::F64x2RelaxedNmadd => Opcode::F64x2RelaxedNmadd,
            Opcode::I8x16RelaxedLaneselect => Opcode::I8x16RelaxedLaneselect,
            Opcode::I16x8RelaxedLaneselect => Opcode::I16x8RelaxedLaneselect,
            Opcode::I32x4RelaxedLaneselect => Opcode::I32x4RelaxedLaneselect,
            Opcode::I64x2RelaxedLaneselect => Opcode::I64x2RelaxedLaneselect,
            Opcode::F32x4RelaxedMin => Opcode::F32x4RelaxedMin,
            Opcode::F32x4RelaxedMax => Opcode::F32x4RelaxedMax,
            Opcode::F64x2RelaxedMin => Opcode::F64x2RelaxedMin,
            Opcode::F64x2RelaxedMax => Opcode::F64x2RelaxedMax,
            Opcode::I16x8RelaxedQ15mulrS => Opcode::I16x8RelaxedQ15mulrS,
            Opcode::I16x8RelaxedDotI8x16I7x16S => Opcode::I16x8RelaxedDotI8x16I7x16S,
            Opcode::I32x4RelaxedDotI8x16I7x16AddS => Opcode::I32x4RelaxedDotI8x16I7x16AddS,
            Opcode::MemoryAtomicNotify => Opcode::MemoryAtomicNotify,
            Opcode::MemoryAtomicWait32 => Opcode::MemoryAtomicWait32,
            Opcode::MemoryAtomicWait64 => Opcode::MemoryAtomicWait64,
            Opcode::AtomicFence => Opcode::AtomicFence,
            Opcode::I32AtomicLoad => Opcode::I32AtomicLoad,
            Opcode::I64AtomicLoad => Opcode::I64AtomicLoad,
            Opcode::I32AtomicLoad8U => Opcode::I32AtomicLoad8U,
            Opcode::I32AtomicLoad16U => Opcode::I32AtomicLoad16U,
            Opcode::I64AtomicLoad8U => Opcode::I64AtomicLoad8U,
            Opcode::I64AtomicLoad16U => Opcode::I64AtomicLoad16U,
            Opcode::I64AtomicLoad32U => Opcode::I64AtomicLoad32U,
            Opcode::I32AtomicStore => Opcode::I32AtomicStore,
            Opcode::I64AtomicStore => Opcode::I64AtomicStore,
            Opcode::I32AtomicStore8 => Opcode::I32AtomicStore8,
            Opcode::I32AtomicStore16 => Opcode::I32AtomicStore16,
            Opcode::I64AtomicStore8 => Opcode::I64AtomicStore8,
            Opcode::I64AtomicStore16 => Opcode::I64AtomicStore16,
            Opcode::I64AtomicStore32 => Opcode::I64AtomicStore32,
            Opcode::I32AtomicRmwAdd => Opcode::I32AtomicRmwAdd,
            Opcode::I64AtomicRmwAdd => Opcode::I64AtomicRmwAdd,
            Opcode::I32AtomicRmw8AddU => Opcode::I32AtomicRmw8AddU,
            Opcode::I32AtomicRmw16AddU => Opcode::I32AtomicRmw16AddU,
            Opcode::I64AtomicRmw8AddU => Opcode::I64AtomicRmw8AddU,
            Opcode::I64AtomicRmw16AddU => Opcode::I64AtomicRmw16AddU,
            Opcode::I64AtomicRmw32AddU => Opcode::I64AtomicRmw32AddU,
            Opcode::I32AtomicRmwSub => Opcode::I32AtomicRmwSub,
            Opcode::I64AtomicRmwSub => Opcode::I64AtomicRmwSub,
            Opcode::I32AtomicRmw8SubU => Opcode::I32AtomicRmw8SubU,
            Opcode::I32AtomicRmw16SubU => Opcode::I32AtomicRmw16SubU,
            Opcode::I64AtomicRmw8SubU => Opcode::I64AtomicRmw8SubU,
            Opcode::I64AtomicRmw16SubU => Opcode::I64AtomicRmw16SubU,
            Opcode::I64AtomicRmw32SubU => Opcode::I64AtomicRmw32SubU,
            Opcode::I32AtomicRmwAnd => Opcode::I32AtomicRmwAnd,
            Opcode::I64AtomicRmwAnd => Opcode::I64AtomicRmwAnd,
            Opcode::I32AtomicRmw8AndU => Opcode::I32AtomicRmw8AndU,
            Opcode::I32AtomicRmw16AndU => Opcode::I32AtomicRmw16AndU,
            Opcode::I64AtomicRmw8AndU => Opcode::I64AtomicRmw8AndU,
            Opcode::I64AtomicRmw16AndU => Opcode::I64AtomicRmw16AndU,
            Opcode::I64AtomicRmw32AndU => Opcode::I64AtomicRmw32AndU,
            Opcode::I32AtomicRmwOr => Opcode::I32AtomicRmwOr,
            Opcode::I64AtomicRmwOr => Opcode::I64AtomicRmwOr,
            Opcode::I32AtomicRmw8OrU => Opcode::I32AtomicRmw8OrU,
            Opcode::I32AtomicRmw16OrU => Opcode::I32AtomicRmw16OrU,
            Opcode::I64AtomicRmw8OrU => Opcode::I64AtomicRmw8OrU,
            Opcode::I64AtomicRmw16OrU => Opcode::I64AtomicRmw16OrU,
            Opcode::I64AtomicRmw32OrU => Opcode::I64AtomicRmw32OrU,
            Opcode::I32AtomicRmwXor => Opcode::I32AtomicRmwXor,
            Opcode::I64AtomicRmwXor => Opcode::I64AtomicRmwXor,
            Opcode::I32AtomicRmw8XorU => Opcode::I32AtomicRmw8XorU,
            Opcode::I32AtomicRmw16XorU => Opcode::I32AtomicRmw16XorU,
            Opcode::I64AtomicRmw8XorU => Opcode::I64AtomicRmw8XorU,
            Opcode::I64AtomicRmw16XorU => Opcode::I64AtomicRmw16XorU,
            Opcode::I64AtomicRmw32XorU => Opcode::I64AtomicRmw32XorU,
            Opcode::I32AtomicRmwXchg => Opcode::I32AtomicRmwXchg,
            Opcode::I64AtomicRmwXchg => Opcode::I64AtomicRmwXchg,
            Opcode::I32AtomicRmw8XchgU => Opcode::I32AtomicRmw8XchgU,
            Opcode::I32AtomicRmw16XchgU => Opcode::I32AtomicRmw16XchgU,
            Opcode::I64AtomicRmw8XchgU => Opcode::I64AtomicRmw8XchgU,
            Opcode::I64AtomicRmw16XchgU => Opcode::I64AtomicRmw16XchgU,
            Opcode::I64AtomicRmw32XchgU => Opcode::I64AtomicRmw32XchgU,
            Opcode::I32AtomicRmwCmpxchg => Opcode::I32AtomicRmwCmpxchg,
            Opcode::I64AtomicRmwCmpxchg => Opcode::I64AtomicRmwCmpxchg,
            Opcode::I32AtomicRmw8CmpxchgU => Opcode::I32AtomicRmw8CmpxchgU,
            Opcode::I32AtomicRmw16CmpxchgU => Opcode::I32AtomicRmw16CmpxchgU,
            Opcode::I64AtomicRmw8CmpxchgU => Opcode::I64AtomicRmw8CmpxchgU,
            Opcode::I64AtomicRmw16CmpxchgU => Opcode::I64AtomicRmw16CmpxchgU,
            Opcode::I64AtomicRmw32CmpxchgU => Opcode::I64AtomicRmw32CmpxchgU,
            Opcode::StructNew => Opcode::StructNew,
            Opcode::StructNewDefault => Opcode::StructNewDefault,
            Opcode::StructGet => Opcode::StructGet,
            Opcode::StructGetS => Opcode::StructGetS,
            Opcode::StructGetU => Opcode::StructGetU,
            Opcode::StructSet => Opcode::StructSet,
            Opcode::ArrayNew => Opcode::ArrayNew,
            Opcode::ArrayNewDefault => Opcode::ArrayNewDefault,
            Opcode::ArrayNewFixed => Opcode::ArrayNewFixed,
            Opcode::ArrayNewData => Opcode::ArrayNewData,
            Opcode::ArrayNewElem => Opcode::ArrayNewElem,
            Opcode::ArrayGet => Opcode::ArrayGet,
            Opcode::ArrayGetS => Opcode::ArrayGetS,
            Opcode::ArrayGetU => Opcode::ArrayGetU,
            Opcode::ArraySet => Opcode::ArraySet,
            Opcode::ArrayLen => Opcode::ArrayLen,
            Opcode::ArrayFill => Opcode::ArrayFill,
            Opcode::ArrayCopy => Opcode::ArrayCopy,
            Opcode::ArrayInitData => Opcode::ArrayInitData,
            Opcode::ArrayInitElem => Opcode::ArrayInitElem,
            Opcode::RefTestRef => Opcode::RefTestRef,
            Opcode::RefTestNonNullRef => Opcode::RefTestNonNullRef,
            Opcode::RefCastRef => Opcode::RefCastRef,
            Opcode::RefCastNonNullRef => Opcode::RefCastNonNullRef,
            Opcode::BrOnCast => Opcode::BrOnCast,
            Opcode::BrOnCastFail => Opcode::BrOnCastFail,
            Opcode::AnyConvertExtern => Opcode::AnyConvertExtern,
            Opcode::ExternConvertAny => Opcode::ExternConvertAny,
            Opcode::RefI31 => Opcode::RefI31,
            Opcode::I31GetS => Opcode::I31GetS,
            Opcode::I31GetU => Opcode::I31GetU,
            Opcode::TryTable => Opcode::TryTable,
            Opcode::Throw => Opcode::Throw,
            Opcode::ThrowRef => Opcode::ThrowRef,
            Opcode::Rethrow => Opcode::Rethrow,
            Opcode::Catch => Opcode::Catch,
            Opcode::CatchAll => Opcode::CatchAll,
            Opcode::Delegate => Opcode::Delegate,
            Opcode::Unrecognized(s) => Opcode::Unrecognized(s.clone()),
        }
    }
}

} // verus!
