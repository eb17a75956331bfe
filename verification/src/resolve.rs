//! Resolution: attaching export names and stable identities to functions.
//!
//! The resolved module is the hub of the pipeline: diffing and analysis both
//! start from it.

use vstd::prelude::*;

use crate::fingerprint::{
    canonical_body_parts, canonical_hash_of, canonical_text, stable_function_id, stable_id_for,
    stable_id_from,
};
use crate::ir::{
    string_texts, ExportIr, ExternalKindIr, FunctionIr, ModuleIr, ParsedModule, ParsedOperator,
    ResolvedModule,
};
use crate::text::{sort_strings, sort_texts, texts};

verus! {

/// The names of the function exports that name function `i`, in export order.
pub open spec fn func_export_names(exports: Seq<ExportIr>, i: int) -> Seq<Seq<char>>
    decreases exports.len(),
{
    if exports.len() == 0 {
        Seq::empty()
    } else {
        let rest = func_export_names(exports.drop_last(), i);
        let e = exports.last();
        if e.kind == ExternalKindIr::Func && e.item_index as int == i {
            rest.push(e.name@)
        } else {
            rest
        }
    }
}

/// The export names of function `i` once the module's exports are attached:
/// the names it had and those of the exports naming it, sorted.
pub open spec fn resolved_export_names(m: ModuleIr, i: int) -> Seq<Seq<char>> {
    sort_texts(string_texts(m.functions@[i].export_names) + func_export_names(m.exports@, i))
}

/// The stable identifier of function `i` after resolution.
pub open spec fn resolved_id(m: ModuleIr, i: int) -> Seq<char> {
    let f = m.functions@[i];
    stable_id_from(f.kind, f.id@, resolved_export_names(m, i), f.type_id@, canonical_hash_of(m, f))
}

/// Everything but the functions is the same in both modules.
pub open spec fn same_module_items(a: ModuleIr, b: ModuleIr) -> bool {
    &&& a.types == b.types
    &&& a.imports == b.imports
    &&& a.exports == b.exports
    &&& a.tables == b.tables
    &&& a.elements == b.elements
    &&& a.start_function_index == b.start_function_index
}

/// `a` and `b` agree in everything but identifier and export names.
pub open spec fn same_function_body(a: FunctionIr, b: FunctionIr) -> bool {
    &&& a.source_index == b.source_index
    &&& a.type_index == b.type_index
    &&& a.type_id == b.type_id
    &&& a.kind == b.kind
    &&& a.locals == b.locals
    &&& a.operators == b.operators
    &&& a.direct_calls == b.direct_calls
    &&& a.fingerprint == b.fingerprint
}

/// `r` is `m` with export names attached and stable identifiers refreshed.
pub open spec fn is_resolution_of(r: ModuleIr, m: ModuleIr) -> bool {
    &&& same_module_items(r, m)
    &&& r.functions@.len() == m.functions@.len()
    &&& forall|i: int|
        0 <= i < m.functions@.len() ==> {
            &&& same_function_body(#[trigger] r.functions@[i], m.functions@[i])
            &&& string_texts(r.functions@[i].export_names) == resolved_export_names(m, i)
            &&& r.functions@[i].id@ == resolved_id(m, i)
        }
}

/// Adds the name of every function export to the function it names, then
/// sorts each function's export names.
fn attach_function_exports(module: &mut ModuleIr)
    ensures
        same_module_items(*final(module), *old(module)),
        final(module).functions@.len() == old(module).functions@.len(),
        forall|i: int|
            0 <= i < old(module).functions@.len() ==> {
                &&& same_function_body(#[trigger] final(module).functions@[i], old(module).functions@[i])
                &&& final(module).functions@[i].id == old(module).functions@[i].id
                &&& string_texts(final(module).functions@[i].export_names)
                    == resolved_export_names(*old(module), i)
            },
{
    let ghost start = *module;
    let n = module.functions.len();
    let mut j: usize = 0;
    while j < module.exports.len()
        invariant
            same_module_items(*module, start),
            module.functions@.len() == n,
            n == start.functions@.len(),
            j <= module.exports@.len(),
            forall|i: int|
                0 <= i < n ==> {
                    &&& same_function_body(#[trigger] module.functions@[i], start.functions@[i])
                    &&& module.functions@[i].id == start.functions@[i].id
                    &&& string_texts(module.functions@[i].export_names) == string_texts(
                        start.functions@[i].export_names,
                    ) + func_export_names(start.exports@.take(j as int), i)
                },
        decreases module.exports@.len() - j,
    {
        let kind = module.exports[j].kind;
        let idx = module.exports[j].item_index as usize;
        proof {
            assert(start.exports@.take(j + 1).drop_last() =~= start.exports@.take(j as int));
            assert(start.exports@.take(j + 1).last() == start.exports@[j as int]);
        }
        if kind == ExternalKindIr::Func && idx < n {
            let name = module.exports[j].name.clone();
            let ghost before = module.functions@;
            module.functions[idx].export_names.push(name);
            proof {
                assert forall|i: int| 0 <= i < n implies {
                    &&& same_function_body(#[trigger] module.functions@[i], start.functions@[i])
                    &&& module.functions@[i].id == start.functions@[i].id
                    &&& string_texts(module.functions@[i].export_names) == string_texts(
                        start.functions@[i].export_names,
                    ) + func_export_names(start.exports@.take(j + 1), i)
                } by {
                    if i == idx as int {
                        assert(string_texts(module.functions@[i].export_names) =~= string_texts(
                            before[i].export_names,
                        ).push(name@));
                    } else {
                        assert(module.functions@[i] == before[i]);
                    }
                }
            }
        }
        j = j + 1;
    }
    assert(start.exports@.take(module.exports@.len() as int) =~= start.exports@);
    let mut i: usize = 0;
    while i < n
        invariant
            same_module_items(*module, start),
            module.functions@.len() == n,
            n == start.functions@.len(),
            i <= n,
            forall|k: int|
                0 <= k < n ==> {
                    &&& same_function_body(#[trigger] module.functions@[k], start.functions@[k])
                    &&& module.functions@[k].id == start.functions@[k].id
                    &&& string_texts(module.functions@[k].export_names) == if k < i {
                        resolved_export_names(start, k)
                    } else {
                        string_texts(start.functions@[k].export_names) + func_export_names(
                            start.exports@,
                            k,
                        )
                    }
                },
        decreases n - i,
    {
        let sorted = sort_strings(&module.functions[i].export_names);
        let ghost before = module.functions@;
        module.functions[i].export_names = sorted;
        proof {
            assert forall|k: int| 0 <= k < n implies {
                &&& same_function_body(#[trigger] module.functions@[k], start.functions@[k])
                &&& module.functions@[k].id == start.functions@[k].id
                &&& string_texts(module.functions@[k].export_names) == if k < i + 1 {
                    resolved_export_names(start, k)
                } else {
                    string_texts(start.functions@[k].export_names) + func_export_names(
                        start.exports@,
                        k,
                    )
                }
            } by {
                if k != i as int {
                    assert(module.functions@[k] == before[k]);
                } else {
                    assert(string_texts(module.functions@[k].export_names) =~= texts(sorted@));
                    assert(texts(before[k].export_names@) =~= string_texts(before[k].export_names));
                }
            }
        }
        i = i + 1;
    }
}

/// The canonical body hash does not depend on export names: it reads the
/// function's type, locals and instructions, and the identifiers of the
/// module's functions.
pub proof fn lemma_canonical_hash_ignores_export_names(a: ModuleIr, b: ModuleIr, i: int)
    requires
        0 <= i < a.functions@.len(),
        a.functions@.len() == b.functions@.len(),
        forall|k: int| 0 <= k < a.functions@.len() ==> (#[trigger] a.functions@[k]).id == b.functions@[k].id,
        same_function_body(a.functions@[i], b.functions@[i]),
    ensures
        canonical_hash_of(a, a.functions@[i]) == canonical_hash_of(b, b.functions@[i]),
{
    let fa = a.functions@[i];
    let fb = b.functions@[i];
    assert forall|o: ParsedOperator| canonical_text(a, o) == canonical_text(b, o) by {
        match o.immediate {
            crate::ir::Immediate::Call(c) => {
                if (c as int) < a.functions@.len() {
                    assert(a.functions@[c as int].id == b.functions@[c as int].id);
                }
            },
            _ => {},
        }
    }
    assert(canonical_body_parts(a, fa) =~= canonical_body_parts(b, fb));
}

/// Replaces each function's identifier by its stable identifier, all computed
/// from the module as it was.
fn refresh_function_stable_ids(module: &mut ModuleIr)
    ensures
        same_module_items(*final(module), *old(module)),
        final(module).functions@.len() == old(module).functions@.len(),
        forall|i: int|
            0 <= i < old(module).functions@.len() ==> {
                &&& same_function_body(#[trigger] final(module).functions@[i], old(module).functions@[i])
                &&& final(module).functions@[i].export_names == old(module).functions@[i].export_names
                &&& final(module).functions@[i].id@ == stable_id_for(
                    old(module).functions@[i],
                    canonical_hash_of(*old(module), old(module).functions@[i]),
                )
            },
{
    let ghost start = *module;
    let n = module.functions.len();
    let mut ids: Vec<String> = Vec::new();
    let mut i: usize = 0;
    while i < n
        invariant
            *module == start,
            n == module.functions@.len(),
            i <= n,
            ids@.len() == i,
            forall|k: int|
                0 <= k < i ==> (#[trigger] ids@[k])@ == stable_id_for(
                    start.functions@[k],
                    canonical_hash_of(start, start.functions@[k]),
                ),
        decreases n - i,
    {
        let id = stable_function_id(module, &module.functions[i]);
        ids.push(id);
        i = i + 1;
    }
    let mut i: usize = 0;
    while i < n
        invariant
            same_module_items(*module, start),
            n == module.functions@.len(),
            n == start.functions@.len(),
            ids@.len() == n,
            i <= n,
            forall|k: int|
                0 <= k < n ==> (#[trigger] ids@[k])@ == stable_id_for(
                    start.functions@[k],
                    canonical_hash_of(start, start.functions@[k]),
                ),
            forall|k: int|
                0 <= k < n ==> {
                    &&& same_function_body(#[trigger] module.functions@[k], start.functions@[k])
                    &&& module.functions@[k].export_names == start.functions@[k].export_names
                    &&& if k < i {
                        module.functions@[k].id@ == ids@[k]@
                    } else {
                        module.functions@[k].id == start.functions@[k].id
                    }
                },
        decreases n - i,
    {
        let id = ids[i].clone();
        let ghost before = module.functions@;
        module.functions[i].id = id;
        proof {
            assert forall|k: int| 0 <= k < n implies {
                &&& same_function_body(#[trigger] module.functions@[k], start.functions@[k])
                &&& module.functions@[k].export_names == start.functions@[k].export_names
                &&& if k < i + 1 {
                    module.functions@[k].id@ == ids@[k]@
                } else {
                    module.functions@[k].id == start.functions@[k].id
                }
            } by {
                if k != i as int {
                    assert(module.functions@[k] == before[k]);
                }
            }
        }
        i = i + 1;
    }
}

/// Resolves a parsed module: attaches export names to functions and gives
/// every function its stable identifier.
pub fn resolve_module(parsed: ParsedModule) -> (r: ResolvedModule)
    ensures
        is_resolution_of(r.module, parsed.module),
{
    let ghost m0 = parsed.module;
    let mut module = parsed.module;
    attach_function_exports(&mut module);
    let ghost m1 = module;
    refresh_function_stable_ids(&mut module);
    proof {
        assert forall|i: int| 0 <= i < m0.functions@.len() implies {
            &&& same_function_body(#[trigger] module.functions@[i], m0.functions@[i])
            &&& string_texts(module.functions@[i].export_names) == resolved_export_names(m0, i)
            &&& module.functions@[i].id@ == resolved_id(m0, i)
        } by {
            assert forall|k: int| 0 <= k < m1.functions@.len() implies (#[trigger] m1.functions@[k]).id
                == m0.functions@[k].id by {
                assert(same_function_body(m1.functions@[k], m0.functions@[k]));
            }
            lemma_canonical_hash_ignores_export_names(m1, m0, i);
        }
    }
    ResolvedModule::from_module(module)
}

impl ParsedModule {
    /// Resolves this module (see `resolve_module`).
    pub fn resolve(self) -> (r: ResolvedModule)
        ensures
            is_resolution_of(r.module, self.module),
    {
        resolve_module(self)
    }
}

} // verus!
