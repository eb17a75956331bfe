//! Normalization: the diff branch of the pipeline, in which every function
//! carries its fingerprint. The resolved module is left as it is.

use vstd::prelude::*;

use crate::fingerprint::{copy_fingerprint, is_fingerprint_of, module_fingerprints};
use crate::ir::{
    same_element, same_locals, same_operators, same_type, string_texts, FunctionIr, ModuleIr,
    NormalizedModule, ResolvedModule,
};

verus! {

/// `a` and `b` carry the same data, the fingerprint aside.
pub open spec fn same_function_but_fingerprint(a: FunctionIr, b: FunctionIr) -> bool {
    &&& a.id@ == b.id@
    &&& a.source_index == b.source_index
    &&& a.type_index == b.type_index
    &&& a.type_id@ == b.type_id@
    &&& a.kind == b.kind
    &&& string_texts(a.export_names) == string_texts(b.export_names)
    &&& same_locals(a.locals@, b.locals@)
    &&& same_operators(a.operators@, b.operators@)
    &&& a.direct_calls@ == b.direct_calls@
}

/// `n` is `r` with the fingerprint of each function attached.
pub open spec fn is_normalization_of(n: ModuleIr, r: ModuleIr) -> bool {
    &&& n.types@.len() == r.types@.len()
    &&& (forall|i: int| 0 <= i < n.types@.len() ==> same_type(#[trigger] n.types@[i], r.types@[i]))
    &&& n.imports@ == r.imports@
    &&& n.exports@ == r.exports@
    &&& n.tables@ == r.tables@
    &&& n.elements@.len() == r.elements@.len()
    &&& (forall|i: int|
        0 <= i < n.elements@.len() ==> same_element(#[trigger] n.elements@[i], r.elements@[i]))
    &&& n.start_function_index == r.start_function_index
    &&& n.functions@.len() == r.functions@.len()
    &&& forall|i: int|
        0 <= i < n.functions@.len() ==> {
            &&& same_function_but_fingerprint(#[trigger] n.functions@[i], r.functions@[i])
            &&& n.functions@[i].fingerprint matches Some(fp) && is_fingerprint_of(
                fp,
                r,
                r.functions@[i],
            )
        }
}

/// A copy of the resolved module in which every function carries its
/// fingerprint.
pub fn normalize_module(resolved: &ResolvedModule) -> (r: NormalizedModule)
    ensures
        is_normalization_of(r.module, resolved.module),
{
    let ghost src = resolved.module;
    let mut module = resolved.module.copy();
    let fingerprints = module_fingerprints(resolved);
    let n = module.functions.len();
    let mut i: usize = 0;
    while i < n
        invariant
            n == module.functions@.len(),
            n == src.functions@.len(),
            fingerprints@.len() == n,
            i <= n,
            forall|k: int|
                0 <= k < n ==> is_fingerprint_of(#[trigger] fingerprints@[k], src, src.functions@[k]),
            module.types@.len() == src.types@.len(),
            forall|k: int| 0 <= k < module.types@.len() ==> same_type(#[trigger] module.types@[k], src.types@[k]),
            module.imports@ == src.imports@,
            module.exports@ == src.exports@,
            module.tables@ == src.tables@,
            module.elements@.len() == src.elements@.len(),
            forall|k: int|
                0 <= k < module.elements@.len() ==> same_element(#[trigger] module.elements@[k], src.elements@[k]),
            module.start_function_index == src.start_function_index,
            forall|k: int|
                0 <= k < n ==> {
                    &&& same_function_but_fingerprint(#[trigger] module.functions@[k], src.functions@[k])
                    &&& k < i ==> (module.functions@[k].fingerprint matches Some(fp)
                        && is_fingerprint_of(fp, src, src.functions@[k]))
                },
        decreases n - i,
    {
        let fp = copy_fingerprint(&fingerprints[i]);
        let ghost before = module.functions@;
        module.functions[i].fingerprint = Some(fp);
        proof {
            assert forall|k: int| 0 <= k < n implies {
                &&& same_function_but_fingerprint(#[trigger] module.functions@[k], src.functions@[k])
                &&& k < i + 1 ==> (module.functions@[k].fingerprint matches Some(fp)
                    && is_fingerprint_of(fp, src, src.functions@[k]))
            } by {
                if k != i as int {
                    assert(module.functions@[k] == before[k]);
                }
            }
        }
        i = i + 1;
    }
    NormalizedModule::from_module(module)
}

} // verus!
