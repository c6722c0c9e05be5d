//! The commands the library asks the graphics driver to run.
//!
//! The library never talks to the driver itself: it plans a sequence of
//! commands, and the caller carries each one out against the live
//! context. A plan is plain data, so a test can inspect it as a trace.

use vstd::prelude::*;

verus! {

/// One driver command of a plan, with the handles and plain values it
/// needs. The caller holding the plan also holds the current view
/// matrix; `UniformMatrix4` refers to it.
#[derive(Clone, Copy, Debug, PartialEq, Eq, Structural)]
pub enum GlCommand {
    /// Make the program the active pipeline.
    UseProgram { program: u32 },
    /// Upload the caller's current 4x4 view matrix to this uniform slot.
    UniformMatrix4 { location: u32 },
    /// Upload the window size in pixels to this two-component uniform slot.
    Uniform2u { location: u32, width: u32, height: u32 },
    /// Bind this buffer as the active vertex storage.
    BindArrayBuffer { buffer: u32 },
    /// Enable the vertex attribute at this slot.
    EnableAttrib { location: u32 },
    /// Describe the attribute's layout: three contiguous floats per
    /// vertex, tightly packed, not normalized.
    AttribPointerF3 { location: u32 },
    /// Issue an indexed draw of `index_count` 16-bit indices as triangles.
    DrawTrianglesU16 { index_count: u32 },
    /// Disable the vertex attribute at this slot.
    DisableAttrib { location: u32 },
    /// Attach a compiled shader to a program before linking.
    AttachShader { program: u32, shader: u32 },
    /// Ask the driver to link the program.
    LinkProgram { program: u32 },
    /// Detach a shader from a successfully linked program.
    DetachShader { program: u32, shader: u32 },
}

} // verus!
