//! Building a parsed module from the items of a WebAssembly binary, section
//! by section. The reader of the binary hands each item over as plain values;
//! the builder decides identities, indices and errors.

use vstd::prelude::*;

use crate::ir::{
    external_kind_text, ElementIr, ElementKindIr, ExternalKindIr, FunctionIr, FunctionKindIr,
    Immediate, ImportIr, LocalIr, ModuleIr, ParsedModule, ParsedOperator, TableIr, TypeIr,
    TypeRefIr, ExportIr, string_texts,
};
use crate::render::join_texts;
use crate::text::{decimal, push_decimal, push_str, string_of};

verus! {

/// Why a binary could not be read as a module.
#[derive(Debug, Clone, PartialEq, Eq)]
pub struct ParseError {
    pub message: String,
}

impl ParseError {
    /// An error with the given message.
    pub fn new(message: String) -> (r: ParseError)
        ensures
            r.message@ == message@,
    {
        ParseError { message }
    }

    /// The message as reports print it: `wasm parse error: ` and the message.
    pub fn to_text(&self) -> (r: String)
        ensures
            r@ == "wasm parse error: "@ + self.message@,
    {
        let mut out = string_of("wasm parse error: ");
        push_str(&mut out, self.message.as_str());
        out
    }
}

/// How an import is typed, as the binary states it.
#[derive(Debug, Clone, PartialEq, Eq)]
pub enum RawTypeRef {
    /// A function of the given type index.
    Func(u32),
    /// A table, memory, global or tag, with its description text.
    Table(String),
    Memory(String),
    Global(String),
    Tag(String),
}

/// The identifier of a function type: `type:` params `->` results.
pub open spec fn type_id_text(params: Seq<Seq<char>>, results: Seq<Seq<char>>) -> Seq<char> {
    "type:"@ + join_texts(params, ","@) + "->"@ + join_texts(results, ","@)
}

/// The identifier text of an import's type.
pub open spec fn type_ref_text(t: TypeRefIr) -> Seq<char> {
    match t {
        TypeRefIr::Func { type_id, .. } => type_id@,
        TypeRefIr::Table(s) => s@,
        TypeRefIr::Memory(s) => s@,
        TypeRefIr::Global(s) => s@,
        TypeRefIr::Tag(s) => s@,
    }
}

/// The kind of item an import brings in.
pub open spec fn raw_kind(t: RawTypeRef) -> ExternalKindIr {
    match t {
        RawTypeRef::Func(_) => ExternalKindIr::Func,
        RawTypeRef::Table(_) => ExternalKindIr::Table,
        RawTypeRef::Memory(_) => ExternalKindIr::Memory,
        RawTypeRef::Global(_) => ExternalKindIr::Global,
        RawTypeRef::Tag(_) => ExternalKindIr::Tag,
    }
}

/// The message of an index that does not fit in 32 bits.
pub open spec fn range_message(label: Seq<char>) -> Seq<char> {
    label + " exceeds u32 range"@
}

/// The message of a type index beyond the type section.
pub open spec fn type_index_message(i: u32) -> Seq<char> {
    "type index "@ + decimal(i as nat) + " is out of bounds"@
}

/// The function indices that the instructions call directly, in order.
pub open spec fn call_indices(ops: Seq<ParsedOperator>) -> Seq<u32>
    decreases ops.len(),
{
    if ops.len() == 0 {
        Seq::empty()
    } else {
        let rest = call_indices(ops.drop_last());
        match ops.last().immediate {
            Immediate::Call(i) => rest.push(i),
            _ => rest,
        }
    }
}

/// The position of the `k`-th defined function (from 0), or -1.
pub open spec fn nth_defined(fs: Seq<FunctionIr>, k: nat) -> int
    decreases fs.len(),
{
    if fs.len() == 0 {
        -1
    } else {
        let rest = if fs[0].kind == FunctionKindIr::Defined {
            if k == 0 {
                -1
            } else {
                nth_defined(fs.drop_first(), (k - 1) as nat)
            }
        } else {
            nth_defined(fs.drop_first(), k)
        };
        if fs[0].kind == FunctionKindIr::Defined && k == 0 {
            0
        } else if rest < 0 {
            -1
        } else {
            rest + 1
        }
    }
}

/// The number of imported tables.
pub open spec fn table_import_total(imports: Seq<ImportIr>) -> nat
    decreases imports.len(),
{
    if imports.len() == 0 {
        0
    } else {
        table_import_total(imports.drop_last()) + if imports.last().kind == ExternalKindIr::Table {
            1nat
        } else {
            0nat
        }
    }
}

/// The state of reading a binary: the module so far, the type index of each
/// declared function body, the next function index, how many bodies were
/// read, and whether the module header was seen.
pub struct ModuleBuilder {
    pub module: ModuleIr,
    pub defined_type_indices: Vec<u32>,
    pub next_function_index: u32,
    pub next_defined_function: usize,
    pub saw_module: bool,
}

/// `value` as a 32-bit index, or the error naming `label`.
fn checked_u32(value: usize, label: &str) -> (r: Result<u32, ParseError>)
    ensures
        match r {
            Ok(v) => value <= u32::MAX && v == value,
            Err(e) => value > u32::MAX && e.message@ == range_message(label@),
        },
{
    if value <= 0xffff_ffff {
        Ok(value as u32)
    } else {
        let mut m = string_of(label);
        push_str(&mut m, " exceeds u32 range");
        Err(ParseError { message: m })
    }
}

/// The identifier of the type at `type_index`, or the out-of-bounds error.
fn type_id_for_index(types: &Vec<TypeIr>, type_index: u32) -> (r: Result<String, ParseError>)
    ensures
        match r {
            Ok(s) => (type_index as int) < types@.len() && s@ == types@[type_index as int].id@,
            Err(e) => (type_index as int) >= types@.len() && e.message@ == type_index_message(
                type_index,
            ),
        },
{
    let i = type_index as usize;
    if i < types.len() {
        Ok(types[i].id.clone())
    } else {
        let mut m = string_of("type index ");
        push_decimal(&mut m, type_index as u64);
        push_str(&mut m, " is out of bounds");
        assert(m@ =~= type_index_message(type_index));
        Err(ParseError { message: m })
    }
}

/// Appends the strings of `v` joined by `sep`.
fn push_joined(out: &mut String, v: &Vec<String>, sep: &str)
    ensures
        final(out)@ == old(out)@ + join_texts(string_texts(*v), sep@),
{
    let ghost start = out@;
    let ghost parts = string_texts(*v);
    let mut i: usize = 0;
    while i < v.len()
        invariant
            i <= v@.len(),
            parts == string_texts(*v),
            out@ == start + join_texts(parts.take(i as int), sep@),
        decreases v@.len() - i,
    {
        proof {
            crate::render::lemma_join_step(parts, sep@, i as int);
        }
        if i > 0 {
            push_str(out, sep);
        }
        push_str(out, v[i].as_str());
        i = i + 1;
        assert(out@ =~= start + join_texts(parts.take(i as int), sep@));
    }
    assert(parts.take(v@.len() as int) =~= parts);
}

/// The identifier of a function type with the given parameter and result
/// type names.
pub fn type_id(params: &Vec<String>, results: &Vec<String>) -> (r: String)
    ensures
        r@ == type_id_text(string_texts(*params), string_texts(*results)),
{
    let mut out = string_of("type:");
    push_joined(&mut out, params, ",");
    push_str(&mut out, "->");
    push_joined(&mut out, results, ",");
    assert(out@ =~= type_id_text(string_texts(*params), string_texts(*results)));
    out
}

/// The positions of direct calls' function indices.
fn direct_calls_of(ops: &Vec<ParsedOperator>) -> (r: Vec<u32>)
    ensures
        r@ == call_indices(ops@),
{
    let mut out: Vec<u32> = Vec::new();
    let mut i: usize = 0;
    while i < ops.len()
        invariant
            i <= ops@.len(),
            out@ == call_indices(ops@.take(i as int)),
        decreases ops@.len() - i,
    {
        proof {
            assert(ops@.take(i + 1).drop_last() =~= ops@.take(i as int));
            assert(ops@.take(i + 1).last() == ops@[i as int]);
        }
        match ops[i].immediate.call_function_index() {
            Some(idx) => out.push(idx),
            None => {},
        }
        i = i + 1;
    }
    assert(ops@.take(ops@.len() as int) =~= ops@);
    out
}

/// Function `i` of the module has source index `i`, and the next function
/// index is the number of functions: imports come first, then definitions,
/// numbered in the order read.
pub open spec fn functions_numbered(b: ModuleBuilder) -> bool {
    &&& b.next_function_index == b.module.functions@.len()
    &&& forall|i: int| 0 <= i < b.module.functions@.len() ==> (#[trigger] b.module.functions@[i]).source_index == i
}

/// The counters of the two builders agree.
pub open spec fn same_counters(a: ModuleBuilder, b: ModuleBuilder) -> bool {
    &&& a.defined_type_indices == b.defined_type_indices
    &&& a.next_function_index == b.next_function_index
    &&& a.next_defined_function == b.next_defined_function
    &&& a.saw_module == b.saw_module
}

/// A builder that has read nothing.
pub open spec fn fresh_builder(b: ModuleBuilder) -> bool {
    &&& b.module.types@.len() == 0
    &&& b.module.imports@.len() == 0
    &&& b.module.exports@.len() == 0
    &&& b.module.tables@.len() == 0
    &&& b.module.elements@.len() == 0
    &&& b.module.start_function_index is None
    &&& b.module.functions@.len() == 0
    &&& b.defined_type_indices@.len() == 0
    &&& b.next_function_index == 0
    &&& b.next_defined_function == 0
    &&& !b.saw_module
    &&& functions_numbered(b)
}

/// The version header: a module is accepted, a component refused.
pub open spec fn begin_step(a: ModuleBuilder, b: ModuleBuilder, is_module: bool, r: Result<(), ParseError>) -> bool {
    &&& functions_numbered(a) ==> functions_numbered(b)
    &&& b.module == a.module
    &&& b.defined_type_indices == a.defined_type_indices
    &&& b.next_function_index == a.next_function_index
    &&& b.next_defined_function == a.next_defined_function
    &&& is_module ==> r is Ok && b.saw_module
    &&& !is_module ==> b.saw_module == a.saw_module && (r matches Err(e)
        && e.message@ == "components are not supported"@)
}

/// A function type at `section_index` of the type section.
pub open spec fn add_type_step(
    a: ModuleBuilder,
    b: ModuleBuilder,
    section_index: usize,
    params: Vec<String>,
    results: Vec<String>,
    r: Result<(), ParseError>,
) -> bool {
    &&& functions_numbered(a) ==> functions_numbered(b)
    &&& same_counters(b, a)
    &&& b.module == (ModuleIr { types: b.module.types, ..a.module })
    &&& match r {
        Ok(_) => section_index <= u32::MAX && b.module.types@ == a.module.types@.push(b.module.types@.last())
            && b.module.types@.last().id@ == type_id_text(string_texts(params), string_texts(results))
            && b.module.types@.last().source_index == section_index
            && b.module.types@.last().params == params
            && b.module.types@.last().results == results,
        Err(e) => section_index > u32::MAX && e.message@ == range_message("type index"@)
            && b.module.types == a.module.types,
    }
}

/// An import of the import section.
pub open spec fn add_import_step(
    a: ModuleBuilder,
    b: ModuleBuilder,
    module_name: String,
    name: String,
    ty: RawTypeRef,
    r: Result<(), ParseError>,
) -> bool {
    &&& functions_numbered(a) ==> functions_numbered(b)
    &&& b.defined_type_indices == a.defined_type_indices
    &&& b.next_defined_function == a.next_defined_function
    &&& b.saw_module == a.saw_module
    &&& b.module.types == a.module.types
    &&& b.module.exports == a.module.exports
    &&& b.module.tables == a.module.tables
    &&& b.module.elements == a.module.elements
    &&& b.module.start_function_index == a.module.start_function_index
    &&& a.module.imports@.len() > u32::MAX ==> (r matches Err(e) && e.message@ == range_message("import index"@))
    &&& a.module.imports@.len() <= u32::MAX ==> match ty {
        RawTypeRef::Func(ti) => if (ti as int) >= a.module.types@.len() {
            r matches Err(e) && e.message@ == type_index_message(ti)
        } else if a.next_function_index == u32::MAX {
            r matches Err(e) && e.message@ == "function index overflow while reading imports"@
        } else {
            let tid = a.module.types@[ti as int].id@;
            let f = b.module.functions@.last();
            let im = b.module.imports@.last();
            &&& r is Ok
            &&& b.module.functions@ == a.module.functions@.push(f)
            &&& f.id@ == "import:"@ + module_name@ + ":"@ + name@ + ":func:"@ + tid
            &&& f.source_index == a.next_function_index
            &&& f.type_index == ti
            &&& f.type_id@ == tid
            &&& f.kind == FunctionKindIr::Imported
            &&& f.export_names@.len() == 0 && f.locals@.len() == 0
            &&& f.operators@.len() == 0 && f.direct_calls@.len() == 0
            &&& f.fingerprint is None
            &&& b.next_function_index == a.next_function_index + 1
            &&& b.module.imports@ == a.module.imports@.push(im)
            &&& im.id@ == "import:"@ + module_name@ + ":"@ + name@ + ":"@
                + external_kind_text(ExternalKindIr::Func) + ":"@ + tid
            &&& im.source_index == a.module.imports@.len()
            &&& im.module == module_name && im.name == name
            &&& im.kind == ExternalKindIr::Func
            &&& im.type_ref matches TypeRefIr::Func { type_index, type_id }
                && type_index == ti && type_id@ == tid
        },
        _ => {
            let im = b.module.imports@.last();
            &&& r is Ok
            &&& b.module.functions == a.module.functions
            &&& b.next_function_index == a.next_function_index
            &&& b.module.imports@ == a.module.imports@.push(im)
            &&& im.id@ == "import:"@ + module_name@ + ":"@ + name@ + ":"@
                + external_kind_text(raw_kind(ty)) + ":"@ + type_ref_text(im.type_ref)
            &&& im.source_index == a.module.imports@.len()
            &&& im.module == module_name && im.name == name
            &&& im.kind == raw_kind(ty)
            &&& match (ty, im.type_ref) {
                (RawTypeRef::Table(x), TypeRefIr::Table(y)) => x == y,
                (RawTypeRef::Memory(x), TypeRefIr::Memory(y)) => x == y,
                (RawTypeRef::Global(x), TypeRefIr::Global(y)) => x == y,
                (RawTypeRef::Tag(x), TypeRefIr::Tag(y)) => x == y,
                _ => false,
            }
        },
    }
}

/// An entry of the function section: a defined function of the given type.
pub open spec fn add_function_step(a: ModuleBuilder, b: ModuleBuilder, type_index: u32, r: Result<(), ParseError>) -> bool {
    &&& functions_numbered(a) ==> functions_numbered(b)
    &&& b.next_defined_function == a.next_defined_function
    &&& b.saw_module == a.saw_module
    &&& b.module == (ModuleIr { functions: b.module.functions, ..a.module })
    &&& (type_index as int) >= a.module.types@.len() ==> (r matches Err(e)
        && e.message@ == type_index_message(type_index))
    &&& (type_index as int) < a.module.types@.len() && a.next_function_index == u32::MAX ==> (r matches Err(e)
        && e.message@ == "function index overflow while reading functions"@)
    &&& (type_index as int) < a.module.types@.len() && a.next_function_index < u32::MAX ==> {
        let tid = a.module.types@[type_index as int].id@;
        let f = b.module.functions@.last();
        &&& r is Ok
        &&& b.module.functions@ == a.module.functions@.push(f)
        &&& f.id@ == "type:"@ + tid + ":defined:"@ + decimal(a.defined_type_indices@.len())
        &&& f.source_index == a.next_function_index
        &&& f.type_index == type_index
        &&& f.type_id@ == tid
        &&& f.kind == FunctionKindIr::Defined
        &&& f.export_names@.len() == 0 && f.locals@.len() == 0
        &&& f.operators@.len() == 0 && f.direct_calls@.len() == 0
        &&& f.fingerprint is None
        &&& b.defined_type_indices@ == a.defined_type_indices@.push(type_index)
        &&& b.next_function_index == a.next_function_index + 1
    }
}

/// An export of the export section.
pub open spec fn add_export_step(
    a: ModuleBuilder,
    b: ModuleBuilder,
    name: String,
    kind: ExternalKindIr,
    index: u32,
    r: Result<(), ParseError>,
) -> bool {
    &&& functions_numbered(a) ==> functions_numbered(b)
    &&& same_counters(b, a)
    &&& b.module == (ModuleIr { exports: b.module.exports, ..a.module })
    &&& match r {
        Ok(_) => {
            let e = b.module.exports@.last();
            &&& a.module.exports@.len() <= u32::MAX
            &&& b.module.exports@ == a.module.exports@.push(e)
            &&& e.id@ == "export:"@ + name@ + ":"@ + external_kind_text(kind)
            &&& e.source_index == a.module.exports@.len()
            &&& e.name == name
            &&& e.kind == kind
            &&& e.item_index == index
        },
        Err(e) => a.module.exports@.len() > u32::MAX && e.message@ == range_message("export index"@)
            && b.module.exports == a.module.exports,
    }
}

/// A table of the table section, at `section_index` within it.
pub open spec fn add_table_step(
    a: ModuleBuilder,
    b: ModuleBuilder,
    section_index: usize,
    init_function_index: Option<u32>,
    has_unknown_init: bool,
    r: Result<(), ParseError>,
) -> bool {
    &&& functions_numbered(a) ==> functions_numbered(b)
    &&& same_counters(b, a)
    &&& b.module == (ModuleIr { tables: b.module.tables, ..a.module })
    &&& section_index > u32::MAX ==> (r matches Err(e) && e.message@ == range_message("table index"@))
    &&& section_index <= u32::MAX ==> {
        let first = (table_import_total(a.module.imports@) as u32) as int;
        if first + section_index > u32::MAX {
            r matches Err(e) && e.message@ == "table index overflow while reading tables"@
        } else {
            let t = b.module.tables@.last();
            &&& r is Ok
            &&& b.module.tables@ == a.module.tables@.push(t)
            &&& t.index == first + section_index
            &&& t.source_index == section_index
            &&& t.init_function_index == init_function_index
            &&& t.has_unknown_init == has_unknown_init
        }
    }
}

/// The start section.
pub open spec fn set_start_step(a: ModuleBuilder, b: ModuleBuilder, func: u32) -> bool {
    &&& functions_numbered(a) ==> functions_numbered(b)
    &&& same_counters(b, a)
    &&& b.module == (ModuleIr { start_function_index: Some(func), ..a.module })
}

/// An element segment of the element section, at `section_index` within it.
pub open spec fn add_element_step(
    a: ModuleBuilder,
    b: ModuleBuilder,
    section_index: usize,
    kind: ElementKindIr,
    table_index: Option<u32>,
    function_indices: Vec<u32>,
    has_unknown_items: bool,
    r: Result<(), ParseError>,
) -> bool {
    &&& functions_numbered(a) ==> functions_numbered(b)
    &&& same_counters(b, a)
    &&& b.module == (ModuleIr { elements: b.module.elements, ..a.module })
    &&& match r {
        Ok(_) => section_index <= u32::MAX && b.module.elements@ == a.module.elements@.push(
            ElementIr {
                source_index: section_index as u32,
                kind,
                table_index,
                function_indices,
                has_unknown_items,
            },
        ),
        Err(e) => section_index > u32::MAX && e.message@ == range_message("element index"@)
            && b.module.elements == a.module.elements,
    }
}

/// The start of the code section, which announces `count` bodies.
pub open spec fn begin_code_step(a: ModuleBuilder, count: u32, r: Result<(), ParseError>) -> bool {
    match r {
        Ok(_) => count as int == a.defined_type_indices@.len(),
        Err(e) => count as int != a.defined_type_indices@.len() && e.message@
            == "function section declares "@ + decimal(a.defined_type_indices@.len())
            + " bodies but code section has "@ + decimal(count as nat),
    }
}

/// A body is about to be read: some defined function is still without one.
pub open spec fn body_slot_step(a: ModuleBuilder, r: Result<(), ParseError>) -> bool {
    if nth_defined(a.module.functions@, a.next_defined_function as nat) < 0 {
        r matches Err(e) && e.message@ == "code section contains more bodies than functions"@
    } else {
        r is Ok
    }
}

/// The next body of the code section.
pub open spec fn add_body_step(
    a: ModuleBuilder,
    b: ModuleBuilder,
    locals: Vec<LocalIr>,
    operators: Vec<ParsedOperator>,
    r: Result<(), ParseError>,
) -> bool {
    &&& functions_numbered(a) ==> functions_numbered(b)
    &&& b.defined_type_indices == a.defined_type_indices
    &&& b.next_function_index == a.next_function_index
    &&& b.saw_module == a.saw_module
    &&& b.module == (ModuleIr { functions: b.module.functions, ..a.module })
    &&& ({
        let pos = nth_defined(a.module.functions@, a.next_defined_function as nat);
        if pos < 0 {
            &&& r matches Err(e) && e.message@ == "code section contains more bodies than functions"@
            &&& b.module.functions == a.module.functions
            &&& b.next_defined_function == a.next_defined_function
        } else {
            let f = a.module.functions@[pos];
            &&& r is Ok
            &&& b.module.functions@ == a.module.functions@.update(
                pos,
                FunctionIr { locals, operators, direct_calls: b.module.functions@[pos].direct_calls, ..f },
            )
            &&& b.module.functions@[pos].direct_calls@ == call_indices(operators@)
            &&& b.next_defined_function == a.next_defined_function + 1
        }
    })
}

/// The end of the binary: the module, once the header was seen and every
/// declared body was read.
pub open spec fn finish_step(a: ModuleBuilder, r: Result<ParsedModule, ParseError>) -> bool {
    &&& !a.saw_module ==> (r matches Err(e) && e.message@ == "missing wasm module header"@)
    &&& a.saw_module && a.next_defined_function != a.defined_type_indices@.len() ==> (r matches Err(e)
        && e.message@ == "function section declares "@ + decimal(a.defined_type_indices@.len())
        + " bodies but parsed "@ + decimal(a.next_defined_function as nat) + " code bodies"@)
    &&& a.saw_module && a.next_defined_function == a.defined_type_indices@.len() ==> (r matches Ok(p)
        && p.module == a.module)
}

impl ModuleBuilder {
    /// A builder that has read nothing.
    pub fn new() -> (r: ModuleBuilder)
        ensures
            fresh_builder(r),
    {
        ModuleBuilder {
            module: ModuleIr::new(),
            defined_type_indices: Vec::new(),
            next_function_index: 0,
            next_defined_function: 0,
            saw_module: false,
        }
    }

    /// The version header: a module is accepted, a component refused.
    pub fn begin(&mut self, is_module: bool) -> (r: Result<(), ParseError>)
        ensures
            begin_step(*old(self), *final(self), is_module, r),
    {
        if !is_module {
            return Err(ParseError { message: string_of("components are not supported") });
        }
        self.saw_module = true;
        Ok(())
    }

    /// A function type of the type section, at `section_index` within it.
    pub fn add_type(&mut self, section_index: usize, params: Vec<String>, results: Vec<String>) -> (r: Result<(), ParseError>)
        ensures
            add_type_step(*old(self), *final(self), section_index, params, results, r),
    {
        let source_index = match checked_u32(section_index, "type index") {
            Ok(v) => v,
            Err(e) => return Err(e),
        };
        let id = type_id(&params, &results);
        self.module.types.push(TypeIr { id, source_index, params, results });
        Ok(())
    }

    /// An import of the import section.
    pub fn add_import(&mut self, module_name: String, name: String, ty: RawTypeRef) -> (r: Result<(), ParseError>)
        ensures
            add_import_step(*old(self), *final(self), module_name, name, ty, r),
    {
        let source_index = match checked_u32(self.module.imports.len(), "import index") {
            Ok(v) => v,
            Err(e) => return Err(e),
        };
        let (kind, type_ref) = match ty {
            RawTypeRef::Func(type_index) => {
                let type_id = match type_id_for_index(&self.module.types, type_index) {
                    Ok(t) => t,
                    Err(e) => return Err(e),
                };
                (ExternalKindIr::Func, TypeRefIr::Func { type_index, type_id })
            },
            RawTypeRef::Table(t) => (ExternalKindIr::Table, TypeRefIr::Table(t)),
            RawTypeRef::Memory(t) => (ExternalKindIr::Memory, TypeRefIr::Memory(t)),
            RawTypeRef::Global(t) => (ExternalKindIr::Global, TypeRefIr::Global(t)),
            RawTypeRef::Tag(t) => (ExternalKindIr::Tag, TypeRefIr::Tag(t)),
        };
        let mut id = string_of("import:");
        push_str(&mut id, module_name.as_str());
        push_str(&mut id, ":");
        push_str(&mut id, name.as_str());
        push_str(&mut id, ":");
        push_str(&mut id, kind.as_str());
        push_str(&mut id, ":");
        match &type_ref {
            TypeRefIr::Func { type_index, type_id } => {
                if self.next_function_index == 0xffff_ffff {
                    return Err(
                        ParseError {
                            message: string_of("function index overflow while reading imports"),
                        },
                    );
                }
                push_str(&mut id, type_id.as_str());
                let mut fid = string_of("import:");
                push_str(&mut fid, module_name.as_str());
                push_str(&mut fid, ":");
                push_str(&mut fid, name.as_str());
                push_str(&mut fid, ":func:");
                push_str(&mut fid, type_id.as_str());
                self.module.functions.push(
                    FunctionIr {
                        id: fid,
                        source_index: self.next_function_index,
                        type_index: *type_index,
                        type_id: type_id.clone(),
                        kind: FunctionKindIr::Imported,
                        export_names: Vec::new(),
                        locals: Vec::new(),
                        operators: Vec::new(),
                        direct_calls: Vec::new(),
                        fingerprint: None,
                    },
                );
                self.next_function_index = self.next_function_index + 1;
            },
            TypeRefIr::Table(t) => push_str(&mut id, t.as_str()),
            TypeRefIr::Memory(t) => push_str(&mut id, t.as_str()),
            TypeRefIr::Global(t) => push_str(&mut id, t.as_str()),
            TypeRefIr::Tag(t) => push_str(&mut id, t.as_str()),
        }
        self.module.imports.push(
            ImportIr { id, source_index, module: module_name, name, kind, type_ref },
        );
        Ok(())
    }
}

impl ModuleBuilder {
    /// A function declaration of the function section, with its type index.
    pub fn add_function(&mut self, type_index: u32) -> (r: Result<(), ParseError>)
        ensures
            add_function_step(*old(self), *final(self), type_index, r),
    {
        let type_id = match type_id_for_index(&self.module.types, type_index) {
            Ok(t) => t,
            Err(e) => return Err(e),
        };
        if self.next_function_index == 0xffff_ffff {
            return Err(
                ParseError { message: string_of("function index overflow while reading functions") },
            );
        }
        let mut id = string_of("type:");
        push_str(&mut id, type_id.as_str());
        push_str(&mut id, ":defined:");
        push_decimal(&mut id, self.defined_type_indices.len() as u64);
        self.module.functions.push(
            FunctionIr {
                id,
                source_index: self.next_function_index,
                type_index,
                type_id,
                kind: FunctionKindIr::Defined,
                export_names: Vec::new(),
                locals: Vec::new(),
                operators: Vec::new(),
                direct_calls: Vec::new(),
                fingerprint: None,
            },
        );
        self.defined_type_indices.push(type_index);
        self.next_function_index = self.next_function_index + 1;
        Ok(())
    }

    /// An export of the export section.
    pub fn add_export(&mut self, name: String, kind: ExternalKindIr, index: u32) -> (r: Result<(), ParseError>)
        ensures
            add_export_step(*old(self), *final(self), name, kind, index, r),
    {
        let source_index = match checked_u32(self.module.exports.len(), "export index") {
            Ok(v) => v,
            Err(e) => return Err(e),
        };
        let mut id = string_of("export:");
        push_str(&mut id, name.as_str());
        push_str(&mut id, ":");
        push_str(&mut id, kind.as_str());
        self.module.exports.push(ExportIr { id, source_index, name, kind, item_index: index });
        Ok(())
    }

    /// A table of the table section, at `section_index` within it, with what
    /// its initializer refers to.
    pub fn add_table(&mut self, section_index: usize, init_function_index: Option<u32>, has_unknown_init: bool) -> (r: Result<(), ParseError>)
        ensures
            add_table_step(*old(self), *final(self), section_index, init_function_index, has_unknown_init, r),
    {
        let source_index = match checked_u32(section_index, "table index") {
            Ok(v) => v,
            Err(e) => return Err(e),
        };
        let first = imported_table_count(&self.module);
        let index = match first.checked_add(source_index) {
            Some(v) => v,
            None => {
                return Err(
                    ParseError { message: string_of("table index overflow while reading tables") },
                )
            },
        };
        self.module.tables.push(
            TableIr { index, source_index, init_function_index, has_unknown_init },
        );
        Ok(())
    }

    /// The start section.
    pub fn set_start(&mut self, func: u32)
        ensures
            set_start_step(*old(self), *final(self), func),
    {
        self.module.start_function_index = Some(func);
    }

    /// An element segment of the element section, at `section_index` within
    /// it.
    pub fn add_element(
        &mut self,
        section_index: usize,
        kind: ElementKindIr,
        table_index: Option<u32>,
        function_indices: Vec<u32>,
        has_unknown_items: bool,
    ) -> (r: Result<(), ParseError>)
        ensures
            add_element_step(*old(self), *final(self), section_index, kind, table_index, function_indices, has_unknown_items, r),
    {
        let source_index = match checked_u32(section_index, "element index") {
            Ok(v) => v,
            Err(e) => return Err(e),
        };
        self.module.elements.push(
            ElementIr { source_index, kind, table_index, function_indices, has_unknown_items },
        );
        Ok(())
    }

    /// The start of the code section, which announces `count` bodies: as
    /// many as the function section declared.
    pub fn begin_code(&self, count: u32) -> (r: Result<(), ParseError>)
        ensures
            begin_code_step(*self, count, r),
    {
        let declared = self.defined_type_indices.len();
        if count as usize != declared {
            let mut m = string_of("function section declares ");
            push_decimal(&mut m, declared as u64);
            push_str(&mut m, " bodies but code section has ");
            push_decimal(&mut m, count as u64);
            return Err(ParseError { message: m });
        }
        Ok(())
    }

    /// The check made when a body starts, before it is decoded: a defined
    /// function is still without a body.
    pub fn check_body_slot(&self) -> (r: Result<(), ParseError>)
        ensures
            body_slot_step(*self, r),
    {
        let ghost fs = self.module.functions@;
        let k = self.next_defined_function;
        let mut seen: usize = 0;
        let mut i: usize = 0;
        let n = self.module.functions.len();
        assert(fs.skip(0) =~= fs);
        while i < n && !(self.module.functions[i].kind == FunctionKindIr::Defined && seen == k)
            invariant
                n == fs.len(),
                fs == self.module.functions@,
                i <= n,
                seen <= i,
                seen <= k,
                nth_defined(fs, k as nat) == ({
                    let x = nth_defined(fs.skip(i as int), (k - seen) as nat);
                    if x < 0 {
                        -1
                    } else {
                        x + i
                    }
                }),
            decreases n - i,
        {
            proof {
                assert(fs.skip(i as int).drop_first() =~= fs.skip(i + 1));
                assert(fs.skip(i as int)[0] == fs[i as int]);
            }
            if self.module.functions[i].kind == FunctionKindIr::Defined {
                seen = seen + 1;
            }
            i = i + 1;
        }
        proof {
            if i < n {
                assert(fs.skip(i as int)[0] == fs[i as int]);
            } else {
                assert(fs.skip(i as int).len() == 0);
            }
        }
        if i == n {
            return Err(
                ParseError { message: string_of("code section contains more bodies than functions") },
            );
        }
        Ok(())
    }

    /// The next body of the code section: the locals and instructions of the
    /// next defined function.
    pub fn add_body(&mut self, locals: Vec<LocalIr>, operators: Vec<ParsedOperator>) -> (r: Result<(), ParseError>)
        ensures
            add_body_step(*old(self), *final(self), locals, operators, r),
    {
        let ghost g_locals = locals;
        let ghost g_operators = operators;
        let ghost fs = self.module.functions@;
        let k = self.next_defined_function;
        let mut seen: usize = 0;
        let mut i: usize = 0;
        let n = self.module.functions.len();
        assert(fs.skip(0) =~= fs);
        while i < n && !(self.module.functions[i].kind == FunctionKindIr::Defined && seen == k)
            invariant
                n == fs.len(),
                fs == self.module.functions@,
                i <= n,
                seen <= i,
                seen <= k,
                nth_defined(fs, k as nat) == ({
                    let x = nth_defined(fs.skip(i as int), (k - seen) as nat);
                    if x < 0 {
                        -1
                    } else {
                        x + i
                    }
                }),
            decreases n - i,
        {
            proof {
                assert(fs.skip(i as int).drop_first() =~= fs.skip(i + 1));
                assert(fs.skip(i as int)[0] == fs[i as int]);
            }
            if self.module.functions[i].kind == FunctionKindIr::Defined {
                seen = seen + 1;
            }
            i = i + 1;
        }
        proof {
            if i < n {
                assert(fs.skip(i as int)[0] == fs[i as int]);
            } else {
                assert(fs.skip(i as int).len() == 0);
            }
        }
        if i == n {
            return Err(
                ParseError { message: string_of("code section contains more bodies than functions") },
            );
        }
        let calls = direct_calls_of(&operators);
        self.module.functions[i].locals = locals;
        self.module.functions[i].direct_calls = calls;
        self.module.functions[i].operators = operators;
        self.next_defined_function = k + 1;
        proof {
            let f = fs[i as int];
            assert(self.module.functions@ =~= fs.update(
                i as int,
                FunctionIr { locals: g_locals, operators: g_operators, direct_calls: self.module.functions@[i as int].direct_calls, ..f },
            ));
        }
        Ok(())
    }

    /// The end of the binary: the module, unless no module header was seen or
    /// fewer bodies were read than declared.
    pub fn finish(self) -> (r: Result<ParsedModule, ParseError>)
        ensures
            finish_step(self, r),
    {
        if !self.saw_module {
            return Err(ParseError { message: string_of("missing wasm module header") });
        }
        let declared = self.defined_type_indices.len();
        if self.next_defined_function != declared {
            let mut m = string_of("function section declares ");
            push_decimal(&mut m, declared as u64);
            push_str(&mut m, " bodies but parsed ");
            push_decimal(&mut m, self.next_defined_function as u64);
            push_str(&mut m, " code bodies");
            return Err(ParseError { message: m });
        }
        Ok(ParsedModule { module: self.module })
    }

    /// The error for a payload that only nested modules and components have.
    pub fn reject_payload() -> (r: ParseError)
        ensures
            r.message@ == "nested modules and components are not supported"@,
    {
        ParseError { message: string_of("nested modules and components are not supported") }
    }
}

/// The number of imported tables (as 32 bits).
fn imported_table_count(module: &ModuleIr) -> (r: u32)
    ensures
        r == table_import_total(module.imports@) as u32,
{
    let mut count: usize = 0;
    let mut i: usize = 0;
    while i < module.imports.len()
        invariant
            i <= module.imports@.len(),
            count == table_import_total(module.imports@.take(i as int)),
            count <= i,
        decreases module.imports@.len() - i,
    {
        proof {
            assert(module.imports@.take(i + 1).drop_last() =~= module.imports@.take(i as int));
            assert(module.imports@.take(i + 1).last() == module.imports@[i as int]);
        }
        if module.imports[i].kind == ExternalKindIr::Table {
            count = count + 1;
        }
        i = i + 1;
    }
    assert(module.imports@.take(module.imports@.len() as int) =~= module.imports@);
    #[verifier::truncate]
    (count as u32)
}

/// One instruction of a constant expression, as far as a function
/// reference depends on it.
#[derive(Debug, Clone, PartialEq, Eq)]
pub enum ConstExprItem {
    /// `ref.func` with its function index.
    RefFunc(u32),
    /// `ref.null`.
    RefNull,
    /// `end`.
    End,
    /// Any other instruction.
    Other,
    /// An instruction the reader could not decode, with its message.
    Unreadable(String),
}

/// What a constant expression makes of a table slot or an element item.
#[derive(Debug, Clone, Copy, PartialEq, Eq)]
pub enum ConstExprFunctionRef {
    /// A reference to the function with this index.
    Function(u32),
    /// A null reference.
    Null,
    /// Something that is not a plain function reference.
    Unknown,
}

/// The reference that the items make, read from the front: the first
/// `ref.func` or other instruction decides; an unreadable item before that
/// is an error; without either, a `ref.null` seen on the way makes it null.
pub open spec fn const_expr_scan(items: Seq<ConstExprItem>, saw_null: bool) -> Result<ConstExprFunctionRef, ParseError>
    decreases items.len(),
{
    if items.len() == 0 {
        Ok(if saw_null { ConstExprFunctionRef::Null } else { ConstExprFunctionRef::Unknown })
    } else {
        match items[0] {
            ConstExprItem::RefFunc(i) => Ok(ConstExprFunctionRef::Function(i)),
            ConstExprItem::Other => Ok(ConstExprFunctionRef::Unknown),
            ConstExprItem::Unreadable(m) => Err(ParseError { message: m }),
            ConstExprItem::RefNull => const_expr_scan(items.drop_first(), true),
            ConstExprItem::End => const_expr_scan(items.drop_first(), saw_null),
        }
    }
}

/// The function reference of a constant expression, given its instructions
/// in order.
pub fn const_expr_function_ref(items: &Vec<ConstExprItem>) -> (r: Result<ConstExprFunctionRef, ParseError>)
    ensures
        r == const_expr_scan(items@, false),
{
    let mut saw_null = false;
    let mut i: usize = 0;
    assert(items@.skip(0) =~= items@);
    while i < items.len()
        invariant
            i <= items@.len(),
            const_expr_scan(items@, false) == const_expr_scan(items@.skip(i as int), saw_null),
        decreases items@.len() - i,
    {
        proof {
            assert(items@.skip(i as int)[0] == items@[i as int]);
            assert(items@.skip(i as int).drop_first() =~= items@.skip(i + 1));
        }
        match &items[i] {
            ConstExprItem::RefFunc(index) => {
                return Ok(ConstExprFunctionRef::Function(*index));
            },
            ConstExprItem::Other => {
                return Ok(ConstExprFunctionRef::Unknown);
            },
            ConstExprItem::Unreadable(message) => {
                return Err(ParseError { message: message.clone() });
            },
            ConstExprItem::RefNull => {
                saw_null = true;
            },
            ConstExprItem::End => {},
        }
        i = i + 1;
    }
    proof {
        assert(items@.skip(i as int).len() == 0);
    }
    if saw_null {
        Ok(ConstExprFunctionRef::Null)
    } else {
        Ok(ConstExprFunctionRef::Unknown)
    }
}

/// A table's initial slot: the function it refers to, if any, and whether
/// it is something other than a function or null reference.
pub fn table_init_ref(init: ConstExprFunctionRef) -> (r: (Option<u32>, bool))
    ensures
        r == match init {
            ConstExprFunctionRef::Function(i) => (Some(i), false),
            ConstExprFunctionRef::Null => (None::<u32>, false),
            ConstExprFunctionRef::Unknown => (None::<u32>, true),
        },
{
    match init {
        ConstExprFunctionRef::Function(i) => (Some(i), false),
        ConstExprFunctionRef::Null => (None, false),
        ConstExprFunctionRef::Unknown => (None, true),
    }
}

/// The functions that a list of references names, in order.
pub open spec fn referenced_functions(refs: Seq<ConstExprFunctionRef>) -> Seq<u32>
    decreases refs.len(),
{
    if refs.len() == 0 {
        Seq::empty()
    } else {
        let rest = referenced_functions(refs.drop_last());
        match refs.last() {
            ConstExprFunctionRef::Function(i) => rest.push(i),
            _ => rest,
        }
    }
}

/// An element segment's items, given each item's reference: the functions
/// they name, in order, and whether any item is not a plain function or null
/// reference.
pub fn element_item_refs(refs: &Vec<ConstExprFunctionRef>) -> (r: (Vec<u32>, bool))
    ensures
        r.0@ == referenced_functions(refs@),
        r.1 == exists|k: int| 0 <= k < refs@.len() && refs@[k] == ConstExprFunctionRef::Unknown,
{
    let mut functions: Vec<u32> = Vec::new();
    let mut unknown = false;
    let mut i: usize = 0;
    while i < refs.len()
        invariant
            i <= refs@.len(),
            functions@ == referenced_functions(refs@.take(i as int)),
            unknown == exists|k: int| 0 <= k < i && refs@[k] == ConstExprFunctionRef::Unknown,
        decreases refs@.len() - i,
    {
        proof {
            assert(refs@.take(i + 1).drop_last() =~= refs@.take(i as int));
            assert(refs@.take(i + 1).last() == refs@[i as int]);
        }
        match refs[i] {
            ConstExprFunctionRef::Function(index) => functions.push(index),
            ConstExprFunctionRef::Null => {},
            ConstExprFunctionRef::Unknown => {
                unknown = true;
            },
        }
        i = i + 1;
    }
    assert(refs@.take(refs@.len() as int) =~= refs@);
    (functions, unknown)
}

// ---------------------------------------------------------------------------
// Reading a binary item by item
// ---------------------------------------------------------------------------

/// One item of a binary, in the order the reader meets it, as plain values.
#[derive(Debug, Clone, PartialEq, Eq)]
pub enum WasmItem {
    /// The version header: a module, or something else (a component).
    Header { is_module: bool },
    /// A function type, at its position in the type section.
    Type { section_index: usize, params: Vec<String>, results: Vec<String> },
    /// An import.
    Import { module_name: String, name: String, ty: RawTypeRef },
    /// An entry of the function section.
    Function { type_index: u32 },
    /// An export.
    Export { name: String, kind: ExternalKindIr, index: u32 },
    /// A table, at its position in the table section, with its initial slot.
    Table { section_index: usize, init_function_index: Option<u32>, has_unknown_init: bool },
    /// The start function.
    Start { func: u32 },
    /// An element segment, at its position in the element section.
    Element {
        section_index: usize,
        kind: ElementKindIr,
        table_index: Option<u32>,
        function_indices: Vec<u32>,
        has_unknown_items: bool,
    },
    /// The start of the code section with the number of bodies it announces.
    CodeStart { count: u32 },
    /// The start of a function body, before it is decoded.
    BodyStart,
    /// A function body: its locals and instructions.
    Body { locals: Vec<LocalIr>, operators: Vec<ParsedOperator> },
    /// A section that carries nothing the module keeps (custom, memory,
    /// global, tag, data count and data sections, and the end).
    Skipped,
    /// A nested module or component, or another payload that is refused.
    Unsupported,
    /// The reader could not decode the binary here; its message.
    Unreadable(String),
}

/// What reading one item does to the builder: the builder method it reaches,
/// or, for the items that reach none, an unchanged builder with success or
/// the item's error.
pub open spec fn item_step(a: ModuleBuilder, item: WasmItem, b: ModuleBuilder, r: Result<(), ParseError>) -> bool {
    match item {
        WasmItem::Header { is_module } => begin_step(a, b, is_module, r),
        WasmItem::Type { section_index, params, results } => add_type_step(a, b, section_index, params, results, r),
        WasmItem::Import { module_name, name, ty } => add_import_step(a, b, module_name, name, ty, r),
        WasmItem::Function { type_index } => add_function_step(a, b, type_index, r),
        WasmItem::Export { name, kind, index } => add_export_step(a, b, name, kind, index, r),
        WasmItem::Table { section_index, init_function_index, has_unknown_init } => add_table_step(
            a,
            b,
            section_index,
            init_function_index,
            has_unknown_init,
            r,
        ),
        WasmItem::Start { func } => set_start_step(a, b, func) && r is Ok,
        WasmItem::Element { section_index, kind, table_index, function_indices, has_unknown_items } => add_element_step(
            a,
            b,
            section_index,
            kind,
            table_index,
            function_indices,
            has_unknown_items,
            r,
        ),
        WasmItem::CodeStart { count } => b == a && begin_code_step(a, count, r),
        WasmItem::BodyStart => b == a && body_slot_step(a, r),
        WasmItem::Body { locals, operators } => add_body_step(a, b, locals, operators, r),
        WasmItem::Skipped => b == a && r is Ok,
        WasmItem::Unsupported => b == a && (r matches Err(e) && e.message@
            == "nested modules and components are not supported"@),
        WasmItem::Unreadable(m) => b == a && (r matches Err(e) && e.message@ == m@),
    }
}

/// The outcome of reading `items` into the builder `b`: the items are taken
/// in order; the first that fails gives the error, and after the last the
/// builder finishes.
pub open spec fn builds_from(b: ModuleBuilder, items: Seq<WasmItem>, r: Result<ParsedModule, ParseError>) -> bool
    decreases items.len(),
{
    if items.len() == 0 {
        finish_step(b, r)
    } else {
        exists|b2: ModuleBuilder, s: Result<(), ParseError>|
            #[trigger] item_step(b, items[0], b2, s) && match s {
                Ok(_) => builds_from(b2, items.drop_first(), r),
                Err(e) => r == Err::<ParsedModule, ParseError>(e),
            }
    }
}

/// The module of a binary, given its items in the order the reader meets
/// them: each item reaches its builder method, starting from a fresh
/// builder; the first error ends the reading.
pub fn parse_items(items: Vec<WasmItem>) -> (r: Result<ParsedModule, ParseError>)
    ensures
        exists|b: ModuleBuilder| fresh_builder(b) && builds_from(b, items@, r),
{
    let ghost all = items@;
    let mut rest = items;
    let mut builder = ModuleBuilder::new();
    let ghost start = builder;
    while rest.len() > 0
        invariant
            all == items@,
            fresh_builder(start),
            forall|res: Result<ParsedModule, ParseError>| builds_from(builder, rest@, res) ==> builds_from(start, all, res),
        decreases rest@.len(),
    {
        let ghost before = builder;
        let ghost pending = rest@;
        let item = rest.remove(0);
        let ghost g_item = item;
        proof {
            assert(rest@ =~= pending.drop_first());
        }
        let step: Result<(), ParseError> = match item {
            WasmItem::Header { is_module } => builder.begin(is_module),
            WasmItem::Type { section_index, params, results } => builder.add_type(section_index, params, results),
            WasmItem::Import { module_name, name, ty } => builder.add_import(module_name, name, ty),
            WasmItem::Function { type_index } => builder.add_function(type_index),
            WasmItem::Export { name, kind, index } => builder.add_export(name, kind, index),
            WasmItem::Table { section_index, init_function_index, has_unknown_init } => builder.add_table(
                section_index,
                init_function_index,
                has_unknown_init,
            ),
            WasmItem::Start { func } => {
                builder.set_start(func);
                Ok(())
            },
            WasmItem::Element { section_index, kind, table_index, function_indices, has_unknown_items } => builder.add_element(
                section_index,
                kind,
                table_index,
                function_indices,
                has_unknown_items,
            ),
            WasmItem::CodeStart { count } => builder.begin_code(count),
            WasmItem::BodyStart => builder.check_body_slot(),
            WasmItem::Body { locals, operators } => builder.add_body(locals, operators),
            WasmItem::Skipped => Ok(()),
            WasmItem::Unsupported => Err(ModuleBuilder::reject_payload()),
            WasmItem::Unreadable(message) => Err(ParseError::new(message)),
        };
        proof {
            assert(item_step(before, g_item, builder, step));
            assert(pending[0] == g_item);
        }
        match step {
            Err(e) => {
                proof {
                    assert(item_step(before, pending[0], builder, step));
                    assert(builds_from(before, pending, Err::<ParsedModule, ParseError>(e)));
                    assert(builds_from(start, all, Err::<ParsedModule, ParseError>(e)));
                    assert(fresh_builder(start));
                }
                return Err(e);
            },
            Ok(_) => {
                proof {
                    assert forall|res: Result<ParsedModule, ParseError>| builds_from(builder, rest@, res) implies builds_from(
                        start,
                        all,
                        res,
                    ) by {
                        assert(item_step(before, pending[0], builder, step));
                        assert(builds_from(before, pending, res));
                    }
                }
            },
        }
    }
    let r = builder.finish();
    proof {
        assert(builds_from(builder, rest@, r));
    }
    r
}

} // verus!
