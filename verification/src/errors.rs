//! The error taxonomy of the rendering core.

use vstd::prelude::*;

verus! {

/// An error raised by the graphics layer: shader compilation, program
/// linking, and the validity checks made before either is attempted.
#[derive(Debug)]
pub enum GlError {
    /// The driver's compiler rejected the shader source; carries the
    /// driver-reported diagnostic text.
    ShaderCompile(String),
    /// The driver's linker rejected a pair of compiled shaders; carries the
    /// driver-reported diagnostic text.
    ProgramLink(String),
    /// A shader source held an interior null byte and was never handed to
    /// the compiler.
    NullByte,
    /// A vertex attribute name was not found in the linked program.
    NonexistantVariableName(String),
}

impl Clone for GlError {
    fn clone(&self) -> (r: Self)
        ensures
            r == *self,
    {
        match self {
            GlError::ShaderCompile(diag) => GlError::ShaderCompile(diag.clone()),
            GlError::ProgramLink(diag) => GlError::ProgramLink(diag.clone()),
            GlError::NullByte => GlError::NullByte,
            GlError::NonexistantVariableName(name) => GlError::NonexistantVariableName(
                name.clone(),
            ),
        }
    }
}

/// A capability the windowing collaborator reported as unavailable.
#[derive(Clone, Copy, PartialEq, Eq, Structural, Debug)]
pub enum UnsupportedDevice {
    /// The platform refused the requested cursor-grab mode.
    CursorGrab,
}

/// The top-level error surface of the engine.
#[derive(Debug)]
pub enum DuendeError {
    /// An unexpected failure of the collaborator layer, as diagnostic text.
    InternalError(String),
    /// An improper GL call occurred.
    GlError(GlError),
    /// The device does not support a requested capability.
    UnsupportedDevice(UnsupportedDevice),
}

impl Clone for DuendeError {
    fn clone(&self) -> (r: Self)
        ensures
            r == *self,
    {
        match self {
            DuendeError::InternalError(diag) => DuendeError::InternalError(diag.clone()),
            DuendeError::GlError(e) => DuendeError::GlError(e.clone()),
            DuendeError::UnsupportedDevice(d) => DuendeError::UnsupportedDevice(*d),
        }
    }
}

} // verus!
