//! The structural guarantees of the emitted module, stated and proved
//! over the section models that [`crate::emit::shim_sections`] pins down.

use vstd::prelude::*;

verus! {

use vstd::relations::sorted_by;
use crate::emit::{shim_sections, thunk_body};
use crate::extract::{extract_spec, ExtractErrorModel};
use crate::encoder::module_bytes;
use crate::interface::{declared_names, InterfaceModel};
use crate::order::{lemma_sorted_names_ensures, lex_le, lex_le_fn, lex_lt, sorted_names};
use crate::source::SourceModuleModel;
use crate::wasm::{Instr, SectionModel};

/// For an interface declaring `n` functions, the emitted module holds
/// five sections in the order Type, Import, Function, Export, Code; the
/// Function, Export and Code sections hold exactly `n` entries each, and
/// the Import section exactly one.
pub proof fn lemma_section_counts(iface: InterfaceModel)
    ensures
        shim_sections(iface).len() == 5,
        shim_sections(iface)[0] is TypeSec,
        shim_sections(iface)[1] is ImportSec,
        shim_sections(iface)[1]->ImportSec_0.len() == 1,
        shim_sections(iface)[2] is FunctionSec,
        shim_sections(iface)[2]->FunctionSec_0.len() == iface.functions.len(),
        shim_sections(iface)[3] is ExportSec,
        shim_sections(iface)[3]->ExportSec_0.len() == iface.functions.len(),
        shim_sections(iface)[4] is CodeSec,
        shim_sections(iface)[4]->CodeSec_0.len() == iface.functions.len(),
{
    lemma_sorted_names_ensures(declared_names(iface.functions));
}

/// If the declared function names are pairwise distinct, so are the
/// names of the Export section's entries.
pub proof fn lemma_export_names_distinct(iface: InterfaceModel)
    requires
        declared_names(iface.functions).no_duplicates(),
    ensures
        forall|p: int, q: int|
            0 <= p < q < shim_sections(iface)[3]->ExportSec_0.len()
                ==> #[trigger] shim_sections(iface)[3]->ExportSec_0[p].name != #[trigger] shim_sections(
                iface,
            )[3]->ExportSec_0[q].name,
{
    let names = declared_names(iface.functions);
    let sorted = sorted_names(names);
    lemma_sorted_names_ensures(names);
    names.lemma_multiset_has_no_duplicates();
    sorted.lemma_multiset_has_no_duplicates_conv();
}

/// The Export section's entries appear in ascending name order, and each
/// is bound to the function index that is one more than its position
/// (index 0 is reserved for the import).
pub proof fn lemma_exports_sorted(iface: InterfaceModel)
    requires
        iface.functions.len() <= crate::emit::MAX_FUNCTIONS,
    ensures
        forall|p: int, q: int|
            0 <= p < q < shim_sections(iface)[3]->ExportSec_0.len() ==> lex_le(
                #[trigger] shim_sections(iface)[3]->ExportSec_0[p].name,
                #[trigger] shim_sections(iface)[3]->ExportSec_0[q].name,
            ),
        forall|k: int|
            0 <= k < shim_sections(iface)[3]->ExportSec_0.len()
                ==> #[trigger] shim_sections(iface)[3]->ExportSec_0[k].func_index == k + 1,
{
    let names = declared_names(iface.functions);
    let sorted = sorted_names(names);
    lemma_sorted_names_ensures(names);
    let exports = shim_sections(iface)[3]->ExportSec_0;
    assert forall|p: int, q: int| 0 <= p < q < exports.len() implies lex_le(
        exports[p].name,
        exports[q].name,
    ) by {
        assert(sorted_by(sorted, lex_le_fn()));
        assert(lex_le_fn()(sorted[p], sorted[q]));
    }
}

/// With pairwise-distinct declared names the Export section's name order
/// is strictly ascending.
pub proof fn lemma_exports_strictly_ascending(iface: InterfaceModel)
    requires
        iface.functions.len() <= crate::emit::MAX_FUNCTIONS,
        declared_names(iface.functions).no_duplicates(),
    ensures
        forall|p: int, q: int|
            0 <= p < q < shim_sections(iface)[3]->ExportSec_0.len() ==> lex_lt(
                #[trigger] shim_sections(iface)[3]->ExportSec_0[p].name,
                #[trigger] shim_sections(iface)[3]->ExportSec_0[q].name,
            ),
{
    lemma_exports_sorted(iface);
    lemma_export_names_distinct(iface);
}

/// Every Code-section slot holds exactly the three-instruction thunk:
/// push the slot's declaration-order position, call the import at
/// function index 0, end. Together with `lemma_exports_sorted`, the slot
/// an exported name resolves to (its function index minus one, since
/// index 0 is the import) is its sorted position, while the pushed
/// constant is the declaration-order position of the function occupying
/// that slot — the two coincide only when the declaration order is
/// already sorted.
pub proof fn lemma_thunk_shape(iface: InterfaceModel)
    ensures
        forall|k: int|
            0 <= k < shim_sections(iface)[4]->CodeSec_0.len()
                ==> #[trigger] shim_sections(iface)[4]->CodeSec_0[k] == seq![
                Instr::I32Const(k as i32),
                Instr::Call(0u32),
                Instr::End,
            ],
{
    let code = shim_sections(iface)[4]->CodeSec_0;
    assert forall|k: int| 0 <= k < code.len() implies #[trigger] code[k] == seq![
        Instr::I32Const(k as i32),
        Instr::Call(0u32),
        Instr::End,
    ] by {
        assert(code[k] == thunk_body(k));
    }
}

/// Extraction and emission are deterministic: any two byte sequences
/// that satisfy the pipeline's contract for the same source tree are
/// identical.
pub proof fn lemma_pipeline_deterministic(m: SourceModuleModel, b1: Seq<u8>, b2: Seq<u8>)
    requires
        extract_spec(m) is Ok,
        b1 == module_bytes(shim_sections(extract_spec(m)->Ok_0)),
        b2 == module_bytes(shim_sections(extract_spec(m)->Ok_0)),
    ensures
        b1 == b2,
{
}

/// An interface with no declared functions still yields a well-formed
/// module: all five sections present in order, the Function, Export and
/// Code sections empty, the Type section with its two types and the
/// Import section with its single dispatch import.
pub proof fn lemma_empty_interface_sections(iface: InterfaceModel)
    requires
        iface.functions.len() == 0,
    ensures
        shim_sections(iface).len() == 5,
        shim_sections(iface)[0]->TypeSec_0.len() == 2,
        shim_sections(iface)[1]->ImportSec_0.len() == 1,
        shim_sections(iface)[2]->FunctionSec_0 =~= Seq::<u32>::empty(),
        shim_sections(iface)[3]->ExportSec_0 =~= Seq::<crate::wasm::ExportModel>::empty(),
        shim_sections(iface)[4]->CodeSec_0 =~= Seq::<Seq<Instr>>::empty(),
{
    lemma_section_counts(iface);
}

} // verus!
