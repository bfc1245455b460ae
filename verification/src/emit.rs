//! Emission: turns a valid interface description into the binary shim
//! module, section by section, in the order the format requires.
//!
//! The module's exact shape is pinned down by [`shim_sections`]: two
//! function types, one dispatch import, one thunk per declared function
//! in declaration order, exports sorted by name ascending and bound to
//! function indices assigned sequentially from 1 in that sorted order,
//! and one three-instruction body per declared function whose pushed
//! constant is the function's declaration-order position.

use vstd::prelude::*;

verus! {

use crate::encoder::{
    code_section_add, code_section_model, code_section_new, export_section_add_function,
    export_section_model, export_section_new, function_body_add, function_body_model,
    function_body_new, function_section_add, function_section_model, function_section_new,
    import_section_add_function, import_section_model, import_section_new, module_add_code_section,
    module_add_export_section, module_add_function_section, module_add_import_section,
    module_add_type_section, module_bytes, module_finish, module_new, module_sections,
    type_section_add_function, type_section_model, type_section_new,
};
use crate::interface::{declared_names, Interface, InterfaceModel};
use crate::order::{
    lemma_sorted_names_contained, lemma_sorted_names_ensures, sort_names, sorted_names, views_of,
};
use crate::wasm::{
    code_entries_size, export_entries_size, func_type_size, import_entries_size,
    import_entry_size, type_entries_size, ExportModel, FuncTypeModel, ImportModel, Instr,
    SectionModel, ValKind, MAX_SECTION_BYTES,
};

/// The most functions an interface may declare and still be emitted:
/// well below what the format's 32-bit section size limits allow for the
/// Function and Code sections, and well below the 32-bit signed range of
/// the thunk constant.
pub const MAX_FUNCTIONS: usize = 1000000;

/// The longest declared function name, in characters, that can be
/// emitted: keeps each export entry at no more than 4011 encoded bytes,
/// so the Export section of `MAX_FUNCTIONS` entries stays within the
/// format's 32-bit section size limit.
pub const MAX_NAME_CHARS: usize = 1000;

/// Whether an interface is small enough to emit: the function count and
/// every declared name's length keep each section's encoded size within
/// the binary format's 32-bit limits.
pub open spec fn emittable(iface: InterfaceModel) -> bool {
    &&& iface.functions.len() <= MAX_FUNCTIONS
    &&& forall|k: int|
        0 <= k < iface.functions.len() ==> #[trigger] iface.functions[k].name.len()
            <= MAX_NAME_CHARS
}

/// The type of the dispatch import: one 32-bit integer in, one out.
pub open spec fn dispatch_func_type() -> FuncTypeModel {
    FuncTypeModel { params: seq![ValKind::I32], results: seq![ValKind::I32] }
}

/// The type of every exported thunk: no parameters, one 32-bit integer out.
pub open spec fn thunk_func_type() -> FuncTypeModel {
    FuncTypeModel { params: Seq::empty(), results: seq![ValKind::I32] }
}

/// The single import: the host dispatch hook, bound to type 0.
pub open spec fn dispatch_import() -> ImportModel {
    ImportModel { module: "coremod"@, field: "__invoke"@, type_index: 0u32 }
}

/// The body of the thunk at declaration-order position `i`: push `i`,
/// call the import (function index 0), return.
pub open spec fn thunk_body(i: int) -> Seq<Instr> {
    seq![Instr::I32Const(i as i32), Instr::Call(0u32), Instr::End]
}

/// The export entries for the given declared names: the names in
/// ascending order, bound to function indices assigned sequentially from
/// 1 (index 0 is the import) in that sorted order.
pub open spec fn export_entries(names: Seq<Seq<char>>) -> Seq<ExportModel> {
    Seq::new(
        sorted_names(names).len(),
        |k: int| ExportModel { name: sorted_names(names)[k], func_index: (k + 1) as u32 },
    )
}

/// The five sections of the shim module for an interface, in the order
/// the binary format requires them.
pub open spec fn shim_sections(iface: InterfaceModel) -> Seq<SectionModel> {
    let n = iface.functions.len();
    seq![
        SectionModel::TypeSec(seq![dispatch_func_type(), thunk_func_type()]),
        SectionModel::ImportSec(seq![dispatch_import()]),
        SectionModel::FunctionSec(Seq::new(n, |k: int| 1u32)),
        SectionModel::ExportSec(export_entries(declared_names(iface.functions))),
        SectionModel::CodeSec(Seq::new(n, |k: int| thunk_body(k))),
    ]
}

/// Builds the Type section: type 0 for the dispatch import, type 1 for
/// the thunks.
fn build_type_section() -> (s: wasm_encoder::TypeSection)
    ensures
        type_section_model(s) == seq![dispatch_func_type(), thunk_func_type()],
{
    let mut s = type_section_new();
    let mut i32_params: Vec<ValKind> = Vec::new();
    i32_params.push(ValKind::I32);
    let mut i32_results: Vec<ValKind> = Vec::new();
    i32_results.push(ValKind::I32);
    let no_params: Vec<ValKind> = Vec::new();
    type_section_add_function(&mut s, &i32_params, &i32_results);
    type_section_add_function(&mut s, &no_params, &i32_results);
    proof {
        assert(i32_params@ =~= seq![ValKind::I32]);
        assert(i32_results@ =~= seq![ValKind::I32]);
        assert(no_params@ =~= Seq::<ValKind>::empty());
        assert((FuncTypeModel { params: i32_params@, results: i32_results@ })
            =~~= dispatch_func_type());
        assert((FuncTypeModel { params: no_params@, results: i32_results@ }) =~~= thunk_func_type());
        assert(type_section_model(s) =~= seq![dispatch_func_type(), thunk_func_type()]);
    }
    s
}

/// Builds the Import section: the single dispatch import.
fn build_import_section() -> (s: wasm_encoder::ImportSection)
    ensures
        import_section_model(s) == seq![dispatch_import()],
{
    let mut s = import_section_new();
    proof {
        reveal_strlit("coremod");
        reveal_strlit("__invoke");
    }
    import_section_add_function(&mut s, "coremod", "__invoke", 0);
    proof {
        assert(import_section_model(s) =~= seq![dispatch_import()]);
    }
    s
}

/// Builds the Function section: one entry of type 1 per declared
/// function, in declaration order.
fn build_function_section(n: usize) -> (s: wasm_encoder::FunctionSection)
    ensures
        function_section_model(s) == Seq::new(n as nat, |k: int| 1u32),
{
    let mut s = function_section_new();
    let mut i: usize = 0;
    proof {
        assert(function_section_model(s) =~= Seq::new(0nat, |k: int| 1u32));
    }
    while i < n
        invariant
            i <= n,
            function_section_model(s) == Seq::new(i as nat, |k: int| 1u32),
        decreases n - i,
    {
        function_section_add(&mut s, 1);
        proof {
            assert(function_section_model(s) =~= Seq::new((i + 1) as nat, |k: int| 1u32));
        }
        i = i + 1;
    }
    s
}

/// With every name at most [`MAX_NAME_CHARS`] characters, each export
/// entry takes at most 4011 encoded bytes.
proof fn lemma_export_entries_size_bound(es: Seq<ExportModel>)
    requires
        forall|k: int| 0 <= k < es.len() ==> #[trigger] es[k].name.len() <= MAX_NAME_CHARS,
    ensures
        export_entries_size(es) <= 4011 * es.len(),
    decreases es.len(),
{
    if es.len() > 0 {
        assert(es[0].name.len() <= MAX_NAME_CHARS);
        assert forall|k: int|
            0 <= k < es.drop_first().len() implies #[trigger] es.drop_first()[k].name.len()
            <= MAX_NAME_CHARS by {
            assert(es[k + 1].name.len() <= MAX_NAME_CHARS);
        }
        lemma_export_entries_size_bound(es.drop_first());
    }
}

/// Every name the sort hands back obeys the bound the declared names
/// obey.
proof fn lemma_sorted_name_lengths(names: Seq<Seq<char>>, bound: int)
    requires
        forall|k: int| 0 <= k < names.len() ==> #[trigger] names[k].len() <= bound,
    ensures
        forall|k: int|
            0 <= k < sorted_names(names).len() ==> #[trigger] sorted_names(names)[k].len()
                <= bound,
{
    lemma_sorted_names_contained(names);
    assert forall|k: int|
        0 <= k < sorted_names(names).len() implies #[trigger] sorted_names(names)[k].len()
        <= bound by {
        let x = sorted_names(names)[k];
        assert(names.contains(x));
        let j = choose|j: int| 0 <= j < names.len() && names[j] == x;
        assert(names[j].len() <= bound);
    }
}

/// A Code section of three-instruction bodies takes at most 28 encoded
/// bytes per body.
proof fn lemma_code_entries_size_bound(cs: Seq<Seq<Instr>>)
    requires
        forall|k: int| 0 <= k < cs.len() ==> #[trigger] cs[k].len() == 3,
    ensures
        code_entries_size(cs) <= 28 * cs.len(),
    decreases cs.len(),
{
    if cs.len() > 0 {
        assert(cs[0].len() == 3);
        assert forall|k: int|
            0 <= k < cs.drop_first().len() implies #[trigger] cs.drop_first()[k].len() == 3 by {
            assert(cs[k + 1].len() == 3);
        }
        lemma_code_entries_size_bound(cs.drop_first());
    }
}

/// Builds the Export section: the declared names in ascending order,
/// bound to function indices 1, 2, ... in that order.
fn build_export_section(iface: &Interface) -> (s: wasm_encoder::ExportSection)
    requires
        emittable(iface@),
    ensures
        export_section_model(s) == export_entries(declared_names(iface@.functions)),
{
    let n = iface.functions.len();
    let mut names: Vec<String> = Vec::new();
    let mut j: usize = 0;
    while j < n
        invariant
            j <= n,
            n == iface.functions@.len(),
            names@.len() == j,
            forall|t: int| 0 <= t < j ==> #[trigger] names@[t]@ == iface@.functions[t].name,
        decreases n - j,
    {
        names.push(iface.functions[j].name.clone());
        j = j + 1;
    }
    proof {
        assert(views_of(names@) =~= declared_names(iface@.functions));
        lemma_sorted_names_ensures(declared_names(iface@.functions));
    }
    let sorted = sort_names(&names);
    let ghost sorted_model = sorted_names(declared_names(iface@.functions));
    proof {
        assert(views_of(sorted@) == sorted_model);
        assert(sorted@.len() == views_of(sorted@).len());
        lemma_sorted_name_lengths(declared_names(iface@.functions), MAX_NAME_CHARS as int);
    }
    let mut s = export_section_new();
    let mut k: usize = 0;
    proof {
        assert(export_section_model(s) =~= Seq::new(
            0nat,
            |t: int| ExportModel { name: sorted_model[t], func_index: (t + 1) as u32 },
        ));
    }
    while k < sorted.len()
        invariant
            k <= sorted@.len(),
            sorted@.len() == n,
            n <= MAX_FUNCTIONS,
            views_of(sorted@) == sorted_model,
            forall|t: int|
                0 <= t < sorted_model.len() ==> #[trigger] sorted_model[t].len()
                    <= MAX_NAME_CHARS,
            export_section_model(s) == Seq::new(
                k as nat,
                |t: int| ExportModel { name: sorted_model[t], func_index: (t + 1) as u32 },
            ),
        decreases sorted@.len() - k,
    {
        proof {
            assert(sorted@[k as int]@ == sorted_model[k as int]);
        }
        export_section_add_function(&mut s, sorted[k].as_str(), (k as u32) + 1);
        proof {
            assert(export_section_model(s) =~= Seq::new(
                (k + 1) as nat,
                |t: int| ExportModel { name: sorted_model[t], func_index: (t + 1) as u32 },
            ));
        }
        k = k + 1;
    }
    proof {
        assert(export_section_model(s) =~= export_entries(declared_names(iface@.functions)));
    }
    s
}

/// Builds one thunk body: push the declaration-order position, call the
/// dispatch import, return.
fn build_thunk_body(position: usize) -> (f: wasm_encoder::Function)
    requires
        position <= MAX_FUNCTIONS,
    ensures
        function_body_model(f) == thunk_body(position as int),
{
    let mut f = function_body_new();
    function_body_add(&mut f, Instr::I32Const(position as i32));
    function_body_add(&mut f, Instr::Call(0));
    function_body_add(&mut f, Instr::End);
    proof {
        assert(function_body_model(f) =~= thunk_body(position as int));
    }
    f
}

/// Builds the Code section: one thunk per declared function, in
/// declaration order.
fn build_code_section(n: usize) -> (s: wasm_encoder::CodeSection)
    requires
        n <= MAX_FUNCTIONS,
    ensures
        code_section_model(s) == Seq::new(n as nat, |k: int| thunk_body(k)),
{
    let mut s = code_section_new();
    let mut i: usize = 0;
    proof {
        assert(code_section_model(s) =~= Seq::new(0nat, |k: int| thunk_body(k)));
    }
    while i < n
        invariant
            i <= n,
            n <= MAX_FUNCTIONS,
            code_section_model(s) == Seq::new(i as nat, |k: int| thunk_body(k)),
        decreases n - i,
    {
        let body = build_thunk_body(i);
        code_section_add(&mut s, &body);
        proof {
            assert(code_section_model(s) =~= Seq::new((i + 1) as nat, |k: int| thunk_body(k)));
        }
        i = i + 1;
    }
    s
}

/// Emits the binary shim module for a valid interface description.
///
/// The result is the serialization of exactly the five sections of
/// [`shim_sections`], so it is determined by the interface value alone.
pub fn emit_shim_module(iface: &Interface) -> (r: Vec<u8>)
    requires
        emittable(iface@),
    ensures
        r@ == module_bytes(shim_sections(iface@)),
{
    let n = iface.functions.len();
    let mut m = module_new();
    let types = build_type_section();
    proof {
        let ts = seq![dispatch_func_type(), thunk_func_type()];
        assert(ts.drop_first() =~= seq![thunk_func_type()]);
        assert(seq![thunk_func_type()].drop_first() =~= Seq::<FuncTypeModel>::empty());
        assert(func_type_size(dispatch_func_type()) == 13);
        assert(func_type_size(thunk_func_type()) == 12);
        assert(type_entries_size(Seq::<FuncTypeModel>::empty()) == 0);
        assert(type_entries_size(seq![thunk_func_type()]) == 12);
        assert(type_entries_size(ts) == 25);
    }
    module_add_type_section(&mut m, &types);
    let imports = build_import_section();
    proof {
        reveal_strlit("coremod");
        reveal_strlit("__invoke");
        assert(seq![dispatch_import()].drop_first() =~= Seq::<ImportModel>::empty());
        assert(import_entries_size(Seq::<ImportModel>::empty()) == 0);
        assert(import_entry_size(dispatch_import()) == 76);
        assert(import_entries_size(seq![dispatch_import()]) == 76);
    }
    module_add_import_section(&mut m, &imports);
    let functions = build_function_section(n);
    module_add_function_section(&mut m, &functions);
    let exports = build_export_section(iface);
    proof {
        let names = declared_names(iface@.functions);
        let entries = export_entries(names);
        lemma_sorted_names_ensures(names);
        lemma_sorted_name_lengths(names, MAX_NAME_CHARS as int);
        assert forall|k: int| 0 <= k < entries.len() implies #[trigger] entries[k].name.len()
            <= MAX_NAME_CHARS by {
            assert(entries[k].name == sorted_names(names)[k]);
        }
        lemma_export_entries_size_bound(entries);
        assert(entries.len() == iface@.functions.len());
        assert(export_entries_size(entries) <= MAX_SECTION_BYTES);
    }
    module_add_export_section(&mut m, &exports);
    let code = build_code_section(n);
    proof {
        let bodies = Seq::new(n as nat, |k: int| thunk_body(k));
        assert(forall|k: int| 0 <= k < bodies.len() ==> #[trigger] bodies[k].len() == 3);
        lemma_code_entries_size_bound(bodies);
    }
    module_add_code_section(&mut m, &code);
    proof {
        assert(module_sections(m) =~= shim_sections(iface@));
    }
    module_finish(m)
}

} // verus!
