//! Compiles a restricted TypeScript-like interface description into a
//! WebAssembly shim module: one exported thunk per declared function, each
//! forwarding to a single host-provided dispatch import.

use vstd::prelude::*;

pub mod emit;
pub mod encoder;
pub mod extract;
pub mod laws;
pub mod interface;
pub mod order;
pub mod source;
pub mod wasm;

verus! {

use crate::emit::{emit_shim_module, emittable, shim_sections};
use crate::encoder::module_bytes;
use crate::extract::{extract_interface, extract_spec, ExtractError, ExtractErrorModel};
use crate::interface::InterfaceModel;
use crate::source::{SourceModule, SourceModuleModel};

/// Whether the interface a source tree yields, if any, is small enough
/// to emit: see [`crate::emit::emittable`] for the size limits the
/// binary format imposes.
pub open spec fn within_emit_limit(m: SourceModuleModel) -> bool {
    match extract_spec(m) {
        Result::Ok(iface) => emittable(iface),
        Result::Err(_) => true,
    }
}

/// The whole transformation, byte streams aside: extracts the interface
/// description from the parsed source tree and emits the binary shim
/// module, or reports the first violation of the accepted subset.
/// Emission never starts unless extraction fully succeeds.
pub fn compile_interface(module: &SourceModule) -> (r: Result<Vec<u8>, ExtractError>)
    requires
        within_emit_limit(module@),
    ensures
        match r {
            Result::Ok(bytes) => extract_spec(module@) is Ok && bytes@ == module_bytes(
                shim_sections(extract_spec(module@)->Ok_0),
            ),
            Result::Err(e) => extract_spec(module@) == Result::<InterfaceModel,
            ExtractErrorModel>::Err(e@),
        },
{
    match extract_interface(module) {
        Result::Ok(iface) => Result::Ok(emit_shim_module(&iface)),
        Result::Err(e) => Result::Err(e),
    }
}

} // verus!
