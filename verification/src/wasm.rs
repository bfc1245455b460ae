//! Mathematical models of the parts of a binary module that the emitter
//! constructs: section entries, import entries, export entries, and
//! function-body instruction sequences.

use vstd::prelude::*;

verus! {

/// A primitive value kind of the binary format. Only the 32-bit integer
/// kind is ever emitted.
#[derive(Clone, Copy)]
pub enum ValKind {
    I32,
}

/// One function type of the Type section.
#[verifier::ext_equal]
pub struct FuncTypeModel {
    pub params: Seq<ValKind>,
    pub results: Seq<ValKind>,
}

/// One function import of the Import section: a two-part name and the
/// index of its type.
#[verifier::ext_equal]
pub struct ImportModel {
    pub module: Seq<char>,
    pub field: Seq<char>,
    pub type_index: u32,
}

/// One function export of the Export section: a name and the index of
/// the function it is bound to.
#[verifier::ext_equal]
pub struct ExportModel {
    pub name: Seq<char>,
    pub func_index: u32,
}

/// One instruction of a function body. Only the three instructions a
/// thunk needs are modelled.
#[derive(Clone, Copy)]
pub enum Instr {
    /// Push a constant 32-bit integer.
    I32Const(i32),
    /// Call the function at the given index.
    Call(u32),
    /// End of the function body.
    End,
}

/// One section of the binary module, with its entries in order.
#[verifier::ext_equal]
pub enum SectionModel {
    TypeSec(Seq<FuncTypeModel>),
    ImportSec(Seq<ImportModel>),
    FunctionSec(Seq<u32>),
    ExportSec(Seq<ExportModel>),
    CodeSec(Seq<Seq<Instr>>),
}

// The binary format writes every length as a 32-bit integer, so a section
// whose contents grow past that limit cannot be encoded. The functions
// below bound, from above, the encoded size of each section's contents:
// a length prefix takes at most 5 bytes, a value kind 1 byte, a character
// at most 4 bytes of UTF-8, and an instruction at most 6 bytes (a 1-byte
// opcode and at most a 5-byte immediate).

/// An upper bound on the encoded bytes of one function type: the form
/// byte, two length prefixes, and one byte per parameter and result kind.
pub open spec fn func_type_size(t: FuncTypeModel) -> int {
    11 + t.params.len() as int + t.results.len() as int
}

/// An upper bound on the encoded bytes of a Type section's contents.
pub open spec fn type_entries_size(s: Seq<FuncTypeModel>) -> int
    decreases s.len(),
{
    if s.len() == 0 {
        0
    } else {
        func_type_size(s.first()) + type_entries_size(s.drop_first())
    }
}

/// An upper bound on the encoded bytes of one import entry: two length
/// prefixes and names, the kind byte, and the type index.
pub open spec fn import_entry_size(i: ImportModel) -> int {
    16 + 4 * i.module.len() as int + 4 * i.field.len() as int
}

/// An upper bound on the encoded bytes of an Import section's contents.
pub open spec fn import_entries_size(s: Seq<ImportModel>) -> int
    decreases s.len(),
{
    if s.len() == 0 {
        0
    } else {
        import_entry_size(s.first()) + import_entries_size(s.drop_first())
    }
}

/// An upper bound on the encoded bytes of a Function section's contents:
/// one type index of at most 5 bytes per entry.
pub open spec fn function_entries_size(s: Seq<u32>) -> int {
    5 * s.len() as int
}

/// An upper bound on the encoded bytes of one export entry: the name
/// with its length prefix, the kind byte, and the function index.
pub open spec fn export_entry_size(e: ExportModel) -> int {
    11 + 4 * e.name.len() as int
}

/// An upper bound on the encoded bytes of an Export section's contents.
pub open spec fn export_entries_size(s: Seq<ExportModel>) -> int
    decreases s.len(),
{
    if s.len() == 0 {
        0
    } else {
        export_entry_size(s.first()) + export_entries_size(s.drop_first())
    }
}

/// An upper bound on the encoded bytes of one function body: its size
/// prefix, its (empty) locals list, and its instructions.
pub open spec fn code_body_size(b: Seq<Instr>) -> int {
    10 + 6 * b.len() as int
}

/// An upper bound on the encoded bytes of a Code section's contents.
pub open spec fn code_entries_size(s: Seq<Seq<Instr>>) -> int
    decreases s.len(),
{
    if s.len() == 0 {
        0
    } else {
        code_body_size(s.first()) + code_entries_size(s.drop_first())
    }
}

/// The largest contents size a section may reach and still be written:
/// the format's 32-bit limit, less the section's own entry-count prefix.
pub const MAX_SECTION_BYTES: u64 = 0xffff_fffa;

} // verus!
