//! The boundary to the graphics context.
//!
//! All GPU work is synchronous and happens on the thread that owns the
//! context. The core never talks to the context directly: it records
//! [`GlCall`] values and asks a `GlDriver` for the few operations whose
//! results feed back into its decisions (compiling, linking, generating
//! names, attribute lookup). The driver is supplied by the surrounding
//! run loop; nothing is assumed about what it returns, so every function
//! of the core states what holds of each possible outcome.

use crate::commands::GlCall;
use crate::shaders::ShaderKind;
use vstd::prelude::*;

verus! {

/// What the run loop provides to execute GPU work against the single
/// graphics context.
pub trait GlDriver {
    /// Compile shading-language source of the given kind; returns the new
    /// shader object's identifier, or the compiler's diagnostic text.
    fn compile_shader(&mut self, kind: ShaderKind, source: &str) -> Result<u32, String>;

    /// Attach two compiled shaders to a fresh program object and link it;
    /// returns the program's identifier, or the linker's diagnostic text
    /// after deleting the partially created program object.
    fn link_program(&mut self, vertex_id: u32, fragment_id: u32) -> Result<u32, String>;

    /// Generate one vertex-array object and return its identifier.
    fn gen_vertex_array(&mut self) -> u32;

    /// Generate one buffer object and return its identifier.
    fn gen_buffer(&mut self) -> u32;

    /// Look up a vertex attribute by name in a linked program; `None`
    /// when the program has no attribute of that name.
    fn get_attrib_location(&mut self, program_id: u32, name: &str) -> Option<u32>;

    /// Execute one deferred operation.
    fn run(&mut self, call: GlCall);
}

} // verus!
