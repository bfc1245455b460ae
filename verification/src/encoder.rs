//! Trusted boundary to the `wasm_encoder` crate, which serializes the
//! binary module format.
//!
//! Each section builder is held behind a declared opaque type, its
//! entries are named by an uninterpreted model function, and each method
//! the emitter calls is wrapped in a function whose contract states, over
//! those models, what the crate's own source shows the method does. The
//! byte serialization itself is named, not restated: it is a pure
//! function of the section contents.

use vstd::prelude::*;

verus! {

use crate::wasm::{
    code_entries_size, export_entries_size, function_entries_size, import_entries_size,
    type_entries_size, ExportModel, FuncTypeModel, ImportModel, Instr, SectionModel, ValKind,
    MAX_SECTION_BYTES,
};

#[verifier::external_type_specification]
#[verifier::external_body]
pub struct ExTypeSection(wasm_encoder::TypeSection);

#[verifier::external_type_specification]
#[verifier::external_body]
pub struct ExImportSection(wasm_encoder::ImportSection);

#[verifier::external_type_specification]
#[verifier::external_body]
pub struct ExFunctionSection(wasm_encoder::FunctionSection);

#[verifier::external_type_specification]
#[verifier::external_body]
pub struct ExExportSection(wasm_encoder::ExportSection);

#[verifier::external_type_specification]
#[verifier::external_body]
pub struct ExCodeSection(wasm_encoder::CodeSection);

#[verifier::external_type_specification]
#[verifier::external_body]
pub struct ExFunction(wasm_encoder::Function);

#[verifier::external_type_specification]
#[verifier::external_body]
pub struct ExModule(wasm_encoder::Module);

/// The function types a Type section holds, in the order they were added.
pub uninterp spec fn type_section_model(s: wasm_encoder::TypeSection) -> Seq<FuncTypeModel>;

/// The entries an Import section holds, in the order they were added.
pub uninterp spec fn import_section_model(s: wasm_encoder::ImportSection) -> Seq<ImportModel>;

/// The type indices a Function section holds, in the order they were added.
pub uninterp spec fn function_section_model(s: wasm_encoder::FunctionSection) -> Seq<u32>;

/// The entries an Export section holds, in the order they were added.
pub uninterp spec fn export_section_model(s: wasm_encoder::ExportSection) -> Seq<ExportModel>;

/// The function bodies a Code section holds, in the order they were added.
pub uninterp spec fn code_section_model(s: wasm_encoder::CodeSection) -> Seq<Seq<Instr>>;

/// The instructions a function body holds, in the order they were added.
pub uninterp spec fn function_body_model(f: wasm_encoder::Function) -> Seq<Instr>;

/// The serialized bytes of a module made of the given sections, in order.
/// Serialization is deterministic: the bytes depend on the section
/// contents alone.
pub uninterp spec fn module_bytes(sections: Seq<SectionModel>) -> Seq<u8>;

/// Relies on `wasm_encoder::TypeSection::new`: a freshly created section
/// holds no entries.
#[verifier::external_body]
pub(crate) fn type_section_new() -> (s: wasm_encoder::TypeSection)
    ensures
        type_section_model(s) == Seq::<FuncTypeModel>::empty(),
{
    wasm_encoder::TypeSection::new()
}

/// Relies on `wasm_encoder::TypeSection::ty` followed by
/// `CoreTypeEncoder::function`: appends one function type with the given
/// parameter and result kinds. The encoder writes each list's length as
/// a 32-bit integer and panics on longer lists, so those are excluded.
#[verifier::external_body]
pub(crate) fn type_section_add_function(
    s: &mut wasm_encoder::TypeSection,
    params: &Vec<ValKind>,
    results: &Vec<ValKind>,
)
    requires
        params@.len() <= 0xffff_ffff,
        results@.len() <= 0xffff_ffff,
    ensures
        type_section_model(*final(s)) == type_section_model(*old(s)).push(
            FuncTypeModel { params: params@, results: results@ },
        ),
{
    s.ty().function(
        params.iter().map(|v| match v {
            ValKind::I32 => wasm_encoder::ValType::I32,
        }),
        results.iter().map(|v| match v {
            ValKind::I32 => wasm_encoder::ValType::I32,
        }),
    );
}

/// Relies on `wasm_encoder::ImportSection::new`: a freshly created
/// section holds no entries.
#[verifier::external_body]
pub(crate) fn import_section_new() -> (s: wasm_encoder::ImportSection)
    ensures
        import_section_model(s) == Seq::<ImportModel>::empty(),
{
    wasm_encoder::ImportSection::new()
}

/// Relies on `wasm_encoder::ImportSection::import` with
/// `EntityType::Function`: appends one function import with the given
/// two-part name, bound to the given type index. The encoder writes each
/// name's byte length as a 32-bit integer and panics on longer names, so
/// names whose UTF-8 form (at most 4 bytes per character) could exceed
/// that are excluded.
#[verifier::external_body]
pub(crate) fn import_section_add_function(
    s: &mut wasm_encoder::ImportSection,
    module: &str,
    field: &str,
    type_index: u32,
)
    requires
        module@.len() <= 0x3fff_ffff,
        field@.len() <= 0x3fff_ffff,
    ensures
        import_section_model(*final(s)) == import_section_model(*old(s)).push(
            ImportModel { module: module@, field: field@, type_index: type_index },
        ),
{
    s.import(module, field, wasm_encoder::EntityType::Function(type_index));
}

/// Relies on `wasm_encoder::FunctionSection::new`: a freshly created
/// section holds no entries.
#[verifier::external_body]
pub(crate) fn function_section_new() -> (s: wasm_encoder::FunctionSection)
    ensures
        function_section_model(s) == Seq::<u32>::empty(),
{
    wasm_encoder::FunctionSection::new()
}

/// Relies on `wasm_encoder::FunctionSection::function`: appends one
/// entry declaring a function of the given type index.
#[verifier::external_body]
pub(crate) fn function_section_add(s: &mut wasm_encoder::FunctionSection, type_index: u32)
    ensures
        function_section_model(*final(s)) == function_section_model(*old(s)).push(type_index),
{
    s.function(type_index);
}

/// Relies on `wasm_encoder::ExportSection::new`: a freshly created
/// section holds no entries.
#[verifier::external_body]
pub(crate) fn export_section_new() -> (s: wasm_encoder::ExportSection)
    ensures
        export_section_model(s) == Seq::<ExportModel>::empty(),
{
    wasm_encoder::ExportSection::new()
}

/// Relies on `wasm_encoder::ExportSection::export` with
/// `ExportKind::Func`: appends one function export with the given name
/// and function index. The encoder writes the name's byte length as a
/// 32-bit integer and panics on longer names, so names whose UTF-8 form
/// (at most 4 bytes per character) could exceed that are excluded.
#[verifier::external_body]
pub(crate) fn export_section_add_function(
    s: &mut wasm_encoder::ExportSection,
    name: &str,
    func_index: u32,
)
    requires
        name@.len() <= 0x3fff_ffff,
    ensures
        export_section_model(*final(s)) == export_section_model(*old(s)).push(
            ExportModel { name: name@, func_index: func_index },
        ),
{
    s.export(name, wasm_encoder::ExportKind::Func, func_index);
}

/// Relies on `wasm_encoder::CodeSection::new`: a freshly created section
/// holds no entries.
#[verifier::external_body]
pub(crate) fn code_section_new() -> (s: wasm_encoder::CodeSection)
    ensures
        code_section_model(s) == Seq::<Seq<Instr>>::empty(),
{
    wasm_encoder::CodeSection::new()
}

/// Relies on `wasm_encoder::CodeSection::function`: appends one function
/// body. The encoder writes the body's byte size (at most 6 bytes per
/// instruction, plus its locals prefix) as a 32-bit integer and panics
/// past that, so longer bodies are excluded.
#[verifier::external_body]
pub(crate) fn code_section_add(s: &mut wasm_encoder::CodeSection, f: &wasm_encoder::Function)
    requires
        function_body_model(*f).len() <= 0x0fff_ffff,
    ensures
        code_section_model(*final(s)) == code_section_model(*old(s)).push(function_body_model(*f)),
{
    s.function(f);
}

/// Relies on `wasm_encoder::Function::new` with an empty locals list: a
/// freshly created body declares no locals and holds no instructions.
#[verifier::external_body]
pub(crate) fn function_body_new() -> (f: wasm_encoder::Function)
    ensures
        function_body_model(f) == Seq::<Instr>::empty(),
{
    wasm_encoder::Function::new(core::iter::empty())
}

/// Relies on `wasm_encoder::Function::instruction` with
/// `Instruction::I32Const`, `Instruction::Call` or `Instruction::End`:
/// appends the corresponding instruction to the body.
#[verifier::external_body]
pub(crate) fn function_body_add(f: &mut wasm_encoder::Function, ins: Instr)
    ensures
        function_body_model(*final(f)) == function_body_model(*old(f)).push(ins),
{
    match ins {
        Instr::I32Const(x) => f.instruction(&wasm_encoder::Instruction::I32Const(x)),
        Instr::Call(x) => f.instruction(&wasm_encoder::Instruction::Call(x)),
        Instr::End => f.instruction(&wasm_encoder::Instruction::End),
    };
}

/// Relies on `wasm_encoder::Module::new`: a freshly created module holds
/// no sections.
#[verifier::external_body]
pub(crate) fn module_new() -> (m: wasm_encoder::Module)
    ensures
        crate::encoder::module_sections(m) == Seq::<SectionModel>::empty(),
{
    wasm_encoder::Module::new()
}

/// The sections a module holds, in the order they were added.
pub uninterp spec fn module_sections(m: wasm_encoder::Module) -> Seq<SectionModel>;

/// Relies on `wasm_encoder::Module::section` on a `TypeSection`:
/// appends that section. Writing a section encodes its contents size as
/// a 32-bit integer and panics past that, so sections whose contents
/// could exceed [`MAX_SECTION_BYTES`] are excluded.
#[verifier::external_body]
pub(crate) fn module_add_type_section(m: &mut wasm_encoder::Module, s: &wasm_encoder::TypeSection)
    requires
        type_entries_size(type_section_model(*s)) <= MAX_SECTION_BYTES,
    ensures
        module_sections(*final(m)) == module_sections(*old(m)).push(
            SectionModel::TypeSec(type_section_model(*s)),
        ),
{
    m.section(s);
}

/// Relies on `wasm_encoder::Module::section` on an `ImportSection`:
/// appends that section. Sections whose contents could exceed
/// [`MAX_SECTION_BYTES`] are excluded, as for the Type section.
#[verifier::external_body]
pub(crate) fn module_add_import_section(
    m: &mut wasm_encoder::Module,
    s: &wasm_encoder::ImportSection,
)
    requires
        import_entries_size(import_section_model(*s)) <= MAX_SECTION_BYTES,
    ensures
        module_sections(*final(m)) == module_sections(*old(m)).push(
            SectionModel::ImportSec(import_section_model(*s)),
        ),
{
    m.section(s);
}

/// Relies on `wasm_encoder::Module::section` on a `FunctionSection`:
/// appends that section. Sections whose contents could exceed
/// [`MAX_SECTION_BYTES`] are excluded, as for the Type section.
#[verifier::external_body]
pub(crate) fn module_add_function_section(
    m: &mut wasm_encoder::Module,
    s: &wasm_encoder::FunctionSection,
)
    requires
        function_entries_size(function_section_model(*s)) <= MAX_SECTION_BYTES,
    ensures
        module_sections(*final(m)) == module_sections(*old(m)).push(
            SectionModel::FunctionSec(function_section_model(*s)),
        ),
{
    m.section(s);
}

/// Relies on `wasm_encoder::Module::section` on an `ExportSection`:
/// appends that section. Sections whose contents could exceed
/// [`MAX_SECTION_BYTES`] are excluded, as for the Type section.
#[verifier::external_body]
pub(crate) fn module_add_export_section(
    m: &mut wasm_encoder::Module,
    s: &wasm_encoder::ExportSection,
)
    requires
        export_entries_size(export_section_model(*s)) <= MAX_SECTION_BYTES,
    ensures
        module_sections(*final(m)) == module_sections(*old(m)).push(
            SectionModel::ExportSec(export_section_model(*s)),
        ),
{
    m.section(s);
}

/// Relies on `wasm_encoder::Module::section` on a `CodeSection`:
/// appends that section. Sections whose contents could exceed
/// [`MAX_SECTION_BYTES`] are excluded, as for the Type section.
#[verifier::external_body]
pub(crate) fn module_add_code_section(m: &mut wasm_encoder::Module, s: &wasm_encoder::CodeSection)
    requires
        code_entries_size(code_section_model(*s)) <= MAX_SECTION_BYTES,
    ensures
        module_sections(*final(m)) == module_sections(*old(m)).push(
            SectionModel::CodeSec(code_section_model(*s)),
        ),
{
    m.section(s);
}

/// Relies on `wasm_encoder::Module::finish`: returns the serialized
/// bytes, a pure function of the sections that were added, in order.
#[verifier::external_body]
pub(crate) fn module_finish(m: wasm_encoder::Module) -> (r: Vec<u8>)
    ensures
        r@ == module_bytes(module_sections(m)),
{
    m.finish()
}

} // verus!
