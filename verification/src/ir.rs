//! Internal representation of a WebAssembly module, shared by the resolve,
//! normalize, fingerprint, diff and analysis stages.

use vstd::prelude::*;

use crate::fingerprint::{copy_fingerprint, same_fingerprint, FuncFingerprint};
pub use crate::opcode::Opcode;

verus! {

/// Typed immediate (operand) data of an instruction.
#[derive(Debug, Clone, PartialEq, Eq)]
pub enum Immediate {
    Empty,
    BlockType(String),
    BrTable { targets: Vec<u32>, default_target: u32 },
    Call(u32),
    CallIndirect { type_index: u32, table_index: u32 },
    CallRef(u32),
    Local(u32),
    Global(u32),
    Branch(u32),
    MemArg { align: u32, offset: u64 },
    MemoryIndex(u32),
    MemoryCopy { dst_index: u32, src_index: u32 },
    DataIndex(u32),
    ElemIndex(u32),
    TableCopy { dst_table: u32, src_table: u32 },
    TableIndex(u32),
    I32Const(i32),
    I64Const(i64),
    /// The bit pattern and its decimal rendering.
    F32Const(u32, String),
    /// The bit pattern and its decimal rendering.
    F64Const(u64, String),
    RefNull(String),
    RefFunc(u32),
    Lane(u8),
    SimdMemLane { align: u32, offset: u64, lane: u8 },
    Shuffle([u8; 16]),
    V128Const(Vec<u8>),
    SelectTypes(Vec<String>),
    StructType(u32),
    StructField { type_index: u32, field_index: u32 },
    ArrayType(u32),
    ArrayNewFixed { type_index: u32, size: u32 },
    ArrayNewData { type_index: u32, data_index: u32 },
    ArrayNewElem { type_index: u32, elem_index: u32 },
    RefCast { src_type: String, dst_type: String },
    BrOnCast { src_type: String, dst_type: String, label: u32 },
    TryTable(Vec<u32>),
    TagIndex(u32),
    Unrecognized(String),
}

/// The characters of each string in a list.
pub open spec fn string_texts(v: Vec<String>) -> Seq<Seq<char>> {
    v@.map_values(|s: String| s@)
}

/// Two immediates carry the same data (vectors compared by contents).
pub open spec fn same_immediate(a: Immediate, b: Immediate) -> bool {
    match (a, b) {
        (Immediate::BrTable { targets: t1, default_target: d1 }, Immediate::BrTable {
            targets: t2,
            default_target: d2,
        }) => t1@ == t2@ && d1 == d2,
        (Immediate::V128Const(x), Immediate::V128Const(y)) => x@ == y@,
        (Immediate::SelectTypes(x), Immediate::SelectTypes(y)) => string_texts(x)
            == string_texts(y),
        (Immediate::TryTable(x), Immediate::TryTable(y)) => x@ == y@,
        (Immediate::BlockType(x), Immediate::BlockType(y)) => x@ == y@,
        (Immediate::F32Const(b1, t1), Immediate::F32Const(b2, t2)) => b1 == b2 && t1@ == t2@,
        (Immediate::F64Const(b1, t1), Immediate::F64Const(b2, t2)) => b1 == b2 && t1@ == t2@,
        (Immediate::RefNull(x), Immediate::RefNull(y)) => x@ == y@,
        (Immediate::Unrecognized(x), Immediate::Unrecognized(y)) => x@ == y@,
        (Immediate::RefCast { src_type: s1, dst_type: d1 }, Immediate::RefCast {
            src_type: s2,
            dst_type: d2,
        }) => s1@ == s2@ && d1@ == d2@,
        (Immediate::BrOnCast { src_type: s1, dst_type: d1, label: l1 }, Immediate::BrOnCast {
            src_type: s2,
            dst_type: d2,
            label: l2,
        }) => s1@ == s2@ && d1@ == d2@ && l1 == l2,
        (Immediate::BrTable { .. }, _) => false,
        (Immediate::V128Const(_), _) => false,
        (Immediate::SelectTypes(_), _) => false,
        (Immediate::TryTable(_), _) => false,
        (Immediate::BlockType(_), _) => false,
        (Immediate::F32Const(..), _) => false,
        (Immediate::F64Const(..), _) => false,
        (Immediate::RefNull(_), _) => false,
        (Immediate::Unrecognized(_), _) => false,
        (Immediate::RefCast { .. }, _) => false,
        (Immediate::BrOnCast { .. }, _) => false,
        _ => a == b,
    }
}

impl Immediate {
    /// The function index of a `Call` immediate.
    pub fn call_function_index(&self) -> (r: Option<u32>)
        ensures
            r == (match *self {
                Immediate::Call(i) => Some(i),
                _ => None::<u32>,
            }),
    {
        match self {
            Immediate::Call(idx) => Some(*idx),
            _ => None,
        }
    }
}

/// A deep copy of an immediate.
pub fn copy_immediate(imm: &Immediate) -> (r: Immediate)
    ensures
        same_immediate(r, *imm),
{
    match imm {
        Immediate::Empty => Immediate::Empty,
        Immediate::BlockType(s) => Immediate::BlockType(s.clone()),
        Immediate::BrTable { targets, default_target } => {
            let t = targets.clone();
            assert(t@ =~= targets@);
            Immediate::BrTable { targets: t, default_target: *default_target }
        },
        Immediate::Call(x) => Immediate::Call(*x),
        Immediate::CallIndirect { type_index, table_index } => Immediate::CallIndirect {
            type_index: *type_index,
            table_index: *table_index,
        },
        Immediate::CallRef(x) => Immediate::CallRef(*x),
        Immediate::Local(x) => Immediate::Local(*x),
        Immediate::Global(x) => Immediate::Global(*x),
        Immediate::Branch(x) => Immediate::Branch(*x),
        Immediate::MemArg { align, offset } => Immediate::MemArg {
            align: *align,
            offset: *offset,
        },
        Immediate::MemoryIndex(x) => Immediate::MemoryIndex(*x),
        Immediate::MemoryCopy { dst_index, src_index } => Immediate::MemoryCopy {
            dst_index: *dst_index,
            src_index: *src_index,
        },
        Immediate::DataIndex(x) => Immediate::DataIndex(*x),
        Immediate::ElemIndex(x) => Immediate::ElemIndex(*x),
        Immediate::TableCopy { dst_table, src_table } => Immediate::TableCopy {
            dst_table: *dst_table,
            src_table: *src_table,
        },
        Immediate::TableIndex(x) => Immediate::TableIndex(*x),
        Immediate::I32Const(x) => Immediate::I32Const(*x),
        Immediate::I64Const(x) => Immediate::I64Const(*x),
        Immediate::F32Const(x, t) => Immediate::F32Const(*x, t.clone()),
        Immediate::F64Const(x, t) => Immediate::F64Const(*x, t.clone()),
        Immediate::RefNull(s) => Immediate::RefNull(s.clone()),
        Immediate::RefFunc(x) => Immediate::RefFunc(*x),
        Immediate::Lane(x) => Immediate::Lane(*x),
        Immediate::SimdMemLane { align, offset, lane } => Immediate::SimdMemLane {
            align: *align,
            offset: *offset,
            lane: *lane,
        },
        Immediate::Shuffle(lanes) => Immediate::Shuffle(*lanes),
        Immediate::V128Const(bytes) => {
            let b = bytes.clone();
            assert(b@ =~= bytes@);
            Immediate::V128Const(b)
        },
        Immediate::SelectTypes(types) => {
            let t = types.clone();
            assert(string_texts(t) =~= string_texts(*types));
            Immediate::SelectTypes(t)
        },
        Immediate::StructType(x) => Immediate::StructType(*x),
        Immediate::StructField { type_index, field_index } => Immediate::StructField {
            type_index: *type_index,
            field_index: *field_index,
        },
        Immediate::ArrayType(x) => Immediate::ArrayType(*x),
        Immediate::ArrayNewFixed { type_index, size } => Immediate::ArrayNewFixed {
            type_index: *type_index,
            size: *size,
        },
        Immediate::ArrayNewData { type_index, data_index } => Immediate::ArrayNewData {
            type_index: *type_index,
            data_index: *data_index,
        },
        Immediate::ArrayNewElem { type_index, elem_index } => Immediate::ArrayNewElem {
            type_index: *type_index,
            elem_index: *elem_index,
        },
        Immediate::RefCast { src_type, dst_type } => Immediate::RefCast {
            src_type: src_type.clone(),
            dst_type: dst_type.clone(),
        },
        Immediate::BrOnCast { src_type, dst_type, label } => Immediate::BrOnCast {
            src_type: src_type.clone(),
            dst_type: dst_type.clone(),
            label: *label,
        },
        Immediate::TryTable(tags) => {
            let t = tags.clone();
            assert(t@ =~= tags@);
            Immediate::TryTable(t)
        },
        Immediate::TagIndex(x) => Immediate::TagIndex(*x),
        Immediate::Unrecognized(s) => Immediate::Unrecognized(s.clone()),
    }
}

/// Typed parsed instruction.
#[derive(Debug, Clone, PartialEq, Eq)]
pub struct ParsedOperator {
    /// Byte offset within the code section.
    pub offset: u64,
    pub opcode: Opcode,
    pub immediate: Immediate,
}

/// Two operators agree in offset, opcode and immediate data.
pub open spec fn same_operator(a: ParsedOperator, b: ParsedOperator) -> bool {
    a.offset == b.offset && a.opcode == b.opcode && same_immediate(a.immediate, b.immediate)
}

/// Element-wise `same_operator`.
pub open spec fn same_operators(a: Seq<ParsedOperator>, b: Seq<ParsedOperator>) -> bool {
    a.len() == b.len() && forall|i: int| 0 <= i < a.len() ==> same_operator(#[trigger] a[i], b[i])
}

impl ParsedOperator {
    /// A deep copy of this operator.
    pub fn copy(&self) -> (r: ParsedOperator)
        ensures
            same_operator(r, *self),
    {
        ParsedOperator {
            offset: self.offset,
            opcode: self.opcode.copy(),
            immediate: copy_immediate(&self.immediate),
        }
    }

    /// The opcode name of this operator.
    pub fn kind_str(&self) -> (r: &str)
        ensures
            r@ == crate::opcode::opcode_text(self.opcode),
    {
        self.opcode.as_str()
    }
}

/// A deep copy of a list of operators.
pub fn copy_operators(ops: &Vec<ParsedOperator>) -> (r: Vec<ParsedOperator>)
    ensures
        same_operators(r@, ops@),
{
    let mut r: Vec<ParsedOperator> = Vec::new();
    let mut i: usize = 0;
    while i < ops.len()
        invariant
            i <= ops.len(),
            r@.len() == i,
            forall|k: int| 0 <= k < i ==> same_operator(#[trigger] r@[k], ops@[k]),
        decreases ops.len() - i,
    {
        r.push(ops[i].copy());
        i = i + 1;
    }
    r
}

/// A copy of a list of strings.
pub fn copy_strings(v: &Vec<String>) -> (r: Vec<String>)
    ensures
        string_texts(r) == string_texts(*v),
        r@ == v@,
{
    let r = v.clone();
    assert(r@ =~= v@);
    r
}

/// Kinds of items a module imports or exports.
#[derive(Debug, Clone, Copy, PartialEq, Eq, Structural)]
pub enum ExternalKindIr {
    Func,
    Table,
    Memory,
    Global,
    Tag,
}

impl ExternalKindIr {
    /// The lower-case keyword of this kind.
    pub fn as_str(self) -> (r: &'static str)
        ensures
            r@ == external_kind_text(self),
    {
        match self {
            ExternalKindIr::Func => "func",
            ExternalKindIr::Table => "table",
            ExternalKindIr::Memory => "memory",
            ExternalKindIr::Global => "global",
            ExternalKindIr::Tag => "tag",
        }
    }
}

/// The lower-case keyword of an external kind.
pub open spec fn external_kind_text(k: ExternalKindIr) -> Seq<char> {
    match k {
        ExternalKindIr::Func => "func"@,
        ExternalKindIr::Table => "table"@,
        ExternalKindIr::Memory => "memory"@,
        ExternalKindIr::Global => "global"@,
        ExternalKindIr::Tag => "tag"@,
    }
}

#[derive(Debug, Clone, Copy, PartialEq, Eq, Structural)]
pub enum FunctionKindIr {
    Imported,
    Defined,
}

#[derive(Debug, Clone, Copy, PartialEq, Eq, Structural)]
pub enum ElementKindIr {
    Active,
    Passive,
    Declared,
}

#[derive(Debug, Clone, Copy, PartialEq, Eq, Structural)]
pub enum CfgEdgeKindIr {
    Fallthrough,
    BranchTaken,
    BranchNotTaken,
    BranchTableTarget,
    BranchTableDefault,
    Return,
    Trap,
}

#[derive(Debug, Clone, Copy, PartialEq, Eq, Structural)]
pub enum CallGraphEdgeKindIr {
    Direct,
    TailDirect,
    Indirect,
    TailIndirect,
    Ref,
    TailRef,
}

#[derive(Debug, Clone, Copy, PartialEq, Eq, Structural)]
pub enum UnsafeSinkKindIr {
    Unreachable,
    MemoryAccess,
    MemoryBulk,
    TableAccess,
    TableBulk,
    IndirectCall,
    Exception,
    Trap,
}

/// How an import is typed.
#[derive(Debug, Clone, PartialEq, Eq)]
pub enum TypeRefIr {
    Func { type_index: u32, type_id: String },
    Table(String),
    Memory(String),
    Global(String),
    Tag(String),
}

#[derive(Debug, Clone, PartialEq, Eq)]
pub struct TypeIr {
    pub id: String,
    pub source_index: u32,
    pub params: Vec<String>,
    pub results: Vec<String>,
}

#[derive(Debug, Clone, PartialEq, Eq)]
pub struct ImportIr {
    pub id: String,
    pub source_index: u32,
    pub module: String,
    pub name: String,
    pub kind: ExternalKindIr,
    pub type_ref: TypeRefIr,
}

#[derive(Debug, Clone, PartialEq, Eq)]
pub struct ExportIr {
    pub id: String,
    pub source_index: u32,
    pub name: String,
    pub kind: ExternalKindIr,
    pub item_index: u32,
}

#[derive(Debug, Clone, PartialEq, Eq)]
pub struct TableIr {
    pub index: u32,
    pub source_index: u32,
    pub init_function_index: Option<u32>,
    pub has_unknown_init: bool,
}

#[derive(Debug, Clone, PartialEq, Eq)]
pub struct ElementIr {
    pub source_index: u32,
    pub kind: ElementKindIr,
    pub table_index: Option<u32>,
    pub function_indices: Vec<u32>,
    pub has_unknown_items: bool,
}

#[derive(Debug, Clone, PartialEq, Eq)]
pub struct LocalIr {
    pub count: u32,
    pub value_type: String,
}

#[derive(Debug, Clone, PartialEq, Eq)]
pub struct FunctionIr {
    pub id: String,
    pub source_index: u32,
    pub type_index: u32,
    pub type_id: String,
    pub kind: FunctionKindIr,
    pub export_names: Vec<String>,
    pub locals: Vec<LocalIr>,
    pub operators: Vec<ParsedOperator>,
    pub direct_calls: Vec<u32>,
    pub fingerprint: Option<FuncFingerprint>,
}

#[derive(Debug, Clone, PartialEq, Eq)]
pub struct ModuleIr {
    pub types: Vec<TypeIr>,
    pub imports: Vec<ImportIr>,
    pub exports: Vec<ExportIr>,
    pub tables: Vec<TableIr>,
    pub elements: Vec<ElementIr>,
    pub start_function_index: Option<u32>,
    pub functions: Vec<FunctionIr>,
}

/// Legacy operator record kept for serialized diff consumers.
#[derive(Debug, Clone, PartialEq, Eq)]
pub struct OperatorIr {
    pub offset: u64,
    pub kind: String,
    pub text: String,
}

pub open spec fn same_type(a: TypeIr, b: TypeIr) -> bool {
    a.id@ == b.id@ && a.source_index == b.source_index && string_texts(a.params) == string_texts(
        b.params,
    ) && string_texts(a.results) == string_texts(b.results)
}

pub open spec fn same_element(a: ElementIr, b: ElementIr) -> bool {
    a.source_index == b.source_index && a.kind == b.kind && a.table_index == b.table_index
        && a.function_indices@ == b.function_indices@ && a.has_unknown_items == b.has_unknown_items
}

pub open spec fn same_local(a: LocalIr, b: LocalIr) -> bool {
    a.count == b.count && a.value_type@ == b.value_type@
}

pub open spec fn same_locals(a: Seq<LocalIr>, b: Seq<LocalIr>) -> bool {
    a.len() == b.len() && forall|i: int| 0 <= i < a.len() ==> same_local(#[trigger] a[i], b[i])
}

pub open spec fn same_optional_fingerprint(a: Option<FuncFingerprint>, b: Option<FuncFingerprint>) -> bool {
    match (a, b) {
        (Some(x), Some(y)) => same_fingerprint(x, y),
        (None, None) => true,
        _ => false,
    }
}

/// Two functions carry the same data (vectors compared by contents).
pub open spec fn same_function(a: FunctionIr, b: FunctionIr) -> bool {
    &&& a.id@ == b.id@
    &&& a.source_index == b.source_index
    &&& a.type_index == b.type_index
    &&& a.type_id@ == b.type_id@
    &&& a.kind == b.kind
    &&& string_texts(a.export_names) == string_texts(b.export_names)
    &&& same_locals(a.locals@, b.locals@)
    &&& same_operators(a.operators@, b.operators@)
    &&& a.direct_calls@ == b.direct_calls@
    &&& same_optional_fingerprint(a.fingerprint, b.fingerprint)
}

pub open spec fn same_functions(a: Seq<FunctionIr>, b: Seq<FunctionIr>) -> bool {
    a.len() == b.len() && forall|i: int| 0 <= i < a.len() ==> same_function(#[trigger] a[i], b[i])
}

/// Two modules carry the same data (vectors compared by contents).
pub open spec fn same_module(a: ModuleIr, b: ModuleIr) -> bool {
    &&& a.types@.len() == b.types@.len()
    &&& (forall|i: int| 0 <= i < a.types@.len() ==> same_type(#[trigger] a.types@[i], b.types@[i]))
    &&& a.imports@ == b.imports@
    &&& a.exports@ == b.exports@
    &&& a.tables@ == b.tables@
    &&& a.elements@.len() == b.elements@.len()
    &&& (forall|i: int|
        0 <= i < a.elements@.len() ==> same_element(#[trigger] a.elements@[i], b.elements@[i]))
    &&& a.start_function_index == b.start_function_index
    &&& same_functions(a.functions@, b.functions@)
}

impl TypeRefIr {
    pub fn copy(&self) -> (r: TypeRefIr)
        ensures
            r == *self,
    {
        match self {
            TypeRefIr::Func { type_index, type_id } => TypeRefIr::Func {
                type_index: *type_index,
                type_id: type_id.clone(),
            },
            TypeRefIr::Table(s) => TypeRefIr::Table(s.clone()),
            TypeRefIr::Memory(s) => TypeRefIr::Memory(s.clone()),
            TypeRefIr::Global(s) => TypeRefIr::Global(s.clone()),
            TypeRefIr::Tag(s) => TypeRefIr::Tag(s.clone()),
        }
    }
}

impl TypeIr {
    pub fn copy(&self) -> (r: TypeIr)
        ensures
            same_type(r, *self),
    {
        TypeIr {
            id: self.id.clone(),
            source_index: self.source_index,
            params: copy_strings(&self.params),
            results: copy_strings(&self.results),
        }
    }
}

impl ImportIr {
    pub fn copy(&self) -> (r: ImportIr)
        ensures
            r == *self,
    {
        ImportIr {
            id: self.id.clone(),
            source_index: self.source_index,
            module: self.module.clone(),
            name: self.name.clone(),
            kind: self.kind,
            type_ref: self.type_ref.copy(),
        }
    }
}

impl ExportIr {
    pub fn copy(&self) -> (r: ExportIr)
        ensures
            r == *self,
    {
        ExportIr {
            id: self.id.clone(),
            source_index: self.source_index,
            name: self.name.clone(),
            kind: self.kind,
            item_index: self.item_index,
        }
    }
}

impl TableIr {
    pub fn copy(&self) -> (r: TableIr)
        ensures
            r == *self,
    {
        TableIr {
            index: self.index,
            source_index: self.source_index,
            init_function_index: self.init_function_index,
            has_unknown_init: self.has_unknown_init,
        }
    }
}

impl ElementIr {
    pub fn copy(&self) -> (r: ElementIr)
        ensures
            same_element(r, *self),
    {
        let f = self.function_indices.clone();
        assert(f@ =~= self.function_indices@);
        ElementIr {
            source_index: self.source_index,
            kind: self.kind,
            table_index: self.table_index,
            function_indices: f,
            has_unknown_items: self.has_unknown_items,
        }
    }
}

impl LocalIr {
    pub fn copy(&self) -> (r: LocalIr)
        ensures
            same_local(r, *self),
    {
        LocalIr { count: self.count, value_type: self.value_type.clone() }
    }
}

/// A deep copy of a list of locals.
pub fn copy_locals(v: &Vec<LocalIr>) -> (r: Vec<LocalIr>)
    ensures
        same_locals(r@, v@),
{
    let mut r: Vec<LocalIr> = Vec::new();
    let mut i: usize = 0;
    while i < v.len()
        invariant
            i <= v.len(),
            r@.len() == i,
            forall|k: int| 0 <= k < i ==> same_local(#[trigger] r@[k], v@[k]),
        decreases v.len() - i,
    {
        r.push(v[i].copy());
        i = i + 1;
    }
    r
}

impl FunctionIr {
    /// A deep copy of this function.
    pub fn copy(&self) -> (r: FunctionIr)
        ensures
            same_function(r, *self),
    {
        let calls = self.direct_calls.clone();
        assert(calls@ =~= self.direct_calls@);
        let fingerprint = match &self.fingerprint {
            Some(fp) => Some(copy_fingerprint(fp)),
            None => None,
        };
        FunctionIr {
            id: self.id.clone(),
            source_index: self.source_index,
            type_index: self.type_index,
            type_id: self.type_id.clone(),
            kind: self.kind,
            export_names: copy_strings(&self.export_names),
            locals: copy_locals(&self.locals),
            operators: copy_operators(&self.operators),
            direct_calls: calls,
            fingerprint,
        }
    }
}

/// A deep copy of a list of functions.
pub fn copy_functions(v: &Vec<FunctionIr>) -> (r: Vec<FunctionIr>)
    ensures
        same_functions(r@, v@),
{
    let mut r: Vec<FunctionIr> = Vec::new();
    let mut i: usize = 0;
    while i < v.len()
        invariant
            i <= v.len(),
            r@.len() == i,
            forall|k: int| 0 <= k < i ==> same_function(#[trigger] r@[k], v@[k]),
        decreases v.len() - i,
    {
        r.push(v[i].copy());
        i = i + 1;
    }
    r
}

impl ModuleIr {
    /// An empty module.
    pub fn new() -> (r: ModuleIr)
        ensures
            r.types@.len() == 0,
            r.imports@.len() == 0,
            r.exports@.len() == 0,
            r.tables@.len() == 0,
            r.elements@.len() == 0,
            r.start_function_index is None,
            r.functions@.len() == 0,
    {
        ModuleIr {
            types: Vec::new(),
            imports: Vec::new(),
            exports: Vec::new(),
            tables: Vec::new(),
            elements: Vec::new(),
            start_function_index: None,
            functions: Vec::new(),
        }
    }

    /// A deep copy of this module.
    pub fn copy(&self) -> (r: ModuleIr)
        ensures
            same_module(r, *self),
    {
        let mut types: Vec<TypeIr> = Vec::new();
        let mut i: usize = 0;
        while i < self.types.len()
            invariant
                i <= self.types.len(),
                types@.len() == i,
                forall|k: int| 0 <= k < i ==> same_type(#[trigger] types@[k], self.types@[k]),
            decreases self.types.len() - i,
        {
            types.push(self.types[i].copy());
            i = i + 1;
        }
        let mut imports: Vec<ImportIr> = Vec::new();
        let mut i: usize = 0;
        while i < self.imports.len()
            invariant
                i <= self.imports.len(),
                imports@ == self.imports@.subrange(0, i as int),
            decreases self.imports.len() - i,
        {
            imports.push(self.imports[i].copy());
            i = i + 1;
        }
        let mut exports: Vec<ExportIr> = Vec::new();
        let mut i: usize = 0;
        while i < self.exports.len()
            invariant
                i <= self.exports.len(),
                exports@ == self.exports@.subrange(0, i as int),
            decreases self.exports.len() - i,
        {
            exports.push(self.exports[i].copy());
            i = i + 1;
        }
        let mut tables: Vec<TableIr> = Vec::new();
        let mut i: usize = 0;
        while i < self.tables.len()
            invariant
                i <= self.tables.len(),
                tables@ == self.tables@.subrange(0, i as int),
            decreases self.tables.len() - i,
        {
            tables.push(self.tables[i].copy());
            i = i + 1;
        }
        let mut elements: Vec<ElementIr> = Vec::new();
        let mut i: usize = 0;
        while i < self.elements.len()
            invariant
                i <= self.elements.len(),
                elements@.len() == i,
                forall|k: int|
                    0 <= k < i ==> same_element(#[trigger] elements@[k], self.elements@[k]),
            decreases self.elements.len() - i,
        {
            elements.push(self.elements[i].copy());
            i = i + 1;
        }
        assert(imports@ =~= self.imports@);
        assert(exports@ =~= self.exports@);
        assert(tables@ =~= self.tables@);
        ModuleIr {
            types,
            imports,
            exports,
            tables,
            elements,
            start_function_index: self.start_function_index,
            functions: copy_functions(&self.functions),
        }
    }
}

/// Parser output: raw indices and operators.
#[derive(Debug, Clone, PartialEq, Eq)]
pub struct ParsedModule {
    pub module: ModuleIr,
}

impl ParsedModule {
    pub fn new() -> (r: ParsedModule)
        ensures
            r.module.types@.len() == 0,
            r.module.imports@.len() == 0,
            r.module.exports@.len() == 0,
            r.module.tables@.len() == 0,
            r.module.elements@.len() == 0,
            r.module.start_function_index is None,
            r.module.functions@.len() == 0,
    {
        ParsedModule { module: ModuleIr::new() }
    }
}

/// The hub module: stable function identities attached.
#[derive(Debug, Clone, PartialEq, Eq)]
pub struct ResolvedModule {
    pub module: ModuleIr,
}

impl ResolvedModule {
    pub fn from_module(module: ModuleIr) -> (r: ResolvedModule)
        ensures
            r.module == module,
    {
        ResolvedModule { module }
    }
}

/// The diff branch: functions carry fingerprints.
#[derive(Debug, Clone, PartialEq, Eq)]
pub struct NormalizedModule {
    pub module: ModuleIr,
}

impl NormalizedModule {
    pub fn from_module(module: ModuleIr) -> (r: NormalizedModule)
        ensures
            r.module == module,
    {
        NormalizedModule { module }
    }
}

#[derive(Debug, Clone, PartialEq, Eq)]
pub struct FunctionCfgIr {
    pub function_id: String,
    pub source_index: u32,
    pub kind: FunctionKindIr,
    pub entry_block: Option<usize>,
    pub blocks: Vec<BasicBlockIr>,
    pub call_sites: Vec<CallSiteIr>,
}

#[derive(Debug, Clone, PartialEq, Eq)]
pub struct BasicBlockIr {
    pub id: usize,
    pub start_operator_index: usize,
    pub end_operator_index: usize,
    pub start_offset: Option<u64>,
    pub end_offset: Option<u64>,
    pub operator_indices: Vec<usize>,
    pub operators: Vec<ParsedOperator>,
    pub successors: Vec<CfgEdgeIr>,
}

#[derive(Debug, Clone, Copy, PartialEq, Eq, Structural)]
pub struct CfgEdgeIr {
    pub target_block: Option<usize>,
    pub kind: CfgEdgeKindIr,
}

#[derive(Debug, Clone, PartialEq, Eq)]
pub struct CallSiteIr {
    pub operator_index: usize,
    pub block_id: usize,
    pub offset: u64,
    pub operator: ParsedOperator,
    pub target_function_index: Option<u32>,
    pub target_function_id: Option<String>,
    pub opcode: String,
    pub tail_call: bool,
}

#[derive(Debug, Clone, PartialEq, Eq)]
pub struct CallGraphIr {
    pub roots: Vec<String>,
    pub edges: Vec<CallGraphEdgeIr>,
    pub reachable_functions: Vec<String>,
    pub reachable_imports: Vec<String>,
    pub unreachable_functions: Vec<String>,
}

#[derive(Debug, Clone, PartialEq, Eq)]
pub struct CallGraphEdgeIr {
    pub caller_function_id: String,
    pub callee_function_id: String,
    pub call_site_index: usize,
    pub call_site_offset: u64,
    pub kind: CallGraphEdgeKindIr,
}

#[derive(Debug, Clone, PartialEq, Eq)]
pub struct ReachabilityIr {
    pub roots: Vec<String>,
    pub reachable_functions: Vec<String>,
    pub reachable_imports: Vec<String>,
    pub unreachable_functions: Vec<String>,
}

#[derive(Debug, Clone, PartialEq, Eq)]
pub struct UnsafePathIr {
    pub entry_function_id: String,
    pub function_path: Vec<String>,
    pub sink: UnsafeSinkIr,
}

#[derive(Debug, Clone, PartialEq, Eq)]
pub struct UnsafeSinkIr {
    pub function_id: String,
    pub block_id: usize,
    pub operator_index: usize,
    pub offset: u64,
    pub opcode: String,
    pub kind: UnsafeSinkKindIr,
}

impl CallGraphIr {
    /// An empty call graph.
    pub fn new() -> (r: CallGraphIr)
        ensures
            r.roots@.len() == 0,
            r.edges@.len() == 0,
            r.reachable_functions@.len() == 0,
            r.reachable_imports@.len() == 0,
            r.unreachable_functions@.len() == 0,
    {
        CallGraphIr {
            roots: Vec::new(),
            edges: Vec::new(),
            reachable_functions: Vec::new(),
            reachable_imports: Vec::new(),
            unreachable_functions: Vec::new(),
        }
    }
}

impl ReachabilityIr {
    /// An empty reachability summary.
    pub fn new() -> (r: ReachabilityIr)
        ensures
            r.roots@.len() == 0,
            r.reachable_functions@.len() == 0,
            r.reachable_imports@.len() == 0,
            r.unreachable_functions@.len() == 0,
    {
        ReachabilityIr {
            roots: Vec::new(),
            reachable_functions: Vec::new(),
            reachable_imports: Vec::new(),
            unreachable_functions: Vec::new(),
        }
    }
}

/// The analysis branch: control-flow graphs, call graph, reachability and
/// unsafe paths.
#[derive(Debug, Clone, PartialEq, Eq)]
pub struct AnalysisModule {
    pub module: ModuleIr,
    pub cfgs: Vec<FunctionCfgIr>,
    pub call_graph: CallGraphIr,
    pub reachability: ReachabilityIr,
    pub unsafe_paths: Vec<UnsafePathIr>,
}

impl AnalysisModule {
    /// A module with empty analysis results.
    pub fn from_module(module: ModuleIr) -> (r: AnalysisModule)
        ensures
            r.module == module,
            r.cfgs@.len() == 0,
            r.call_graph.roots@.len() == 0,
            r.call_graph.edges@.len() == 0,
            r.call_graph.reachable_functions@.len() == 0,
            r.call_graph.reachable_imports@.len() == 0,
            r.call_graph.unreachable_functions@.len() == 0,
            r.reachability.roots@.len() == 0,
            r.reachability.reachable_functions@.len() == 0,
            r.reachability.reachable_imports@.len() == 0,
            r.reachability.unreachable_functions@.len() == 0,
            r.unsafe_paths@.len() == 0,
    {
        AnalysisModule {
            module,
            cfgs: Vec::new(),
            call_graph: CallGraphIr::new(),
            reachability: ReachabilityIr::new(),
            unsafe_paths: Vec::new(),
        }
    }

    pub fn from_parts(
        module: ModuleIr,
        cfgs: Vec<FunctionCfgIr>,
        call_graph: CallGraphIr,
        reachability: ReachabilityIr,
        unsafe_paths: Vec<UnsafePathIr>,
    ) -> (r: AnalysisModule)
        ensures
            r.module == module,
            r.cfgs == cfgs,
            r.call_graph == call_graph,
            r.reachability == reachability,
            r.unsafe_paths == unsafe_paths,
    {
        AnalysisModule { module, cfgs, call_graph, reachability, unsafe_paths }
    }
}

} // verus!
