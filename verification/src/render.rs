//! The fractal renderer: the full-screen quad geometry and the per-frame
//! draw-call plan.
//!
//! Attribute and uniform slots are resolved once, at setup, and kept in
//! the renderer next to the program and buffer handles; a frame's draw is
//! planned from those cached slots without any further name queries.

use vstd::prelude::*;

use crate::command::GlCommand;
use crate::fixed::SCALE;
use crate::shader::ShaderProgram;

verus! {

/// The vertex positions of the full-screen quad, in thousandths: four
/// corners of the square spanning [-1, 1] on both axes, three
/// coordinates each (x, y, z = 0), starting at the upper-left corner and
/// winding through lower-left, lower-right and upper-right.
pub open spec fn quad_vertices_spec() -> Seq<i64> {
    seq![
        -1000i64,
        1000i64,
        0i64,
        -1000i64,
        -1000i64,
        0i64,
        1000i64,
        -1000i64,
        0i64,
        1000i64,
        1000i64,
        0i64,
    ]
}

/// The index list of the quad: two triangles covering it, wound
/// consistently.
pub open spec fn quad_indices_spec() -> Seq<u16> {
    seq![0u16, 1u16, 2u16, 0u16, 2u16, 3u16]
}

/// The vertex positions of the full-screen quad, in thousandths of a
/// clip-space unit: four corners of [-1, 1]^2, three coordinates each.
pub fn quad_vertices() -> (v: Vec<i64>)
    ensures
        v@ == quad_vertices_spec(),
{
    let mut v: Vec<i64> = Vec::new();
    v.push(-SCALE);
    v.push(SCALE);
    v.push(0i64);
    v.push(-SCALE);
    v.push(-SCALE);
    v.push(0i64);
    v.push(SCALE);
    v.push(-SCALE);
    v.push(0i64);
    v.push(SCALE);
    v.push(SCALE);
    v.push(0i64);
    proof {
        assert(v@ =~= quad_vertices_spec());
    }
    v
}

/// The six indices describing the quad's two triangles.
pub fn quad_indices() -> (ix: Vec<u16>)
    ensures
        ix@ == quad_indices_spec(),
{
    let mut ix: Vec<u16> = Vec::new();
    ix.push(0u16);
    ix.push(1u16);
    ix.push(2u16);
    ix.push(0u16);
    ix.push(2u16);
    ix.push(3u16);
    proof {
        assert(ix@ =~= quad_indices_spec());
    }
    ix
}

/// The quad's vertex storage on the driver side: one owned buffer
/// handle, immutable after creation.
pub struct GeometryBuffer {
    /// The driver's handle for the uploaded vertex buffer.
    pub vbo: u32,
}

impl GeometryBuffer {
    /// Wrap the buffer handle the driver returned for the uploaded quad.
    pub fn new(vbo: u32) -> (g: GeometryBuffer)
        ensures
            g.vbo == vbo,
    {
        GeometryBuffer { vbo }
    }
}

/// The per-frame renderer: the linked program, the buffer holding the
/// quad, and the attribute and uniform slots resolved once at setup.
pub struct FractalRenderer {
    /// The linked program's handle.
    pub program: u32,
    /// The quad's vertex buffer handle.
    pub vbo: u32,
    /// The slot of the per-vertex position attribute.
    pub position_loc: u32,
    /// The slot of the 4x4 view-matrix uniform.
    pub matrix_loc: u32,
    /// The slot of the window-size uniform, when the program declares
    /// one; a program without it is drawn all the same.
    pub window_size_loc: Option<u32>,
}

/// The exact command sequence of one frame: activate the program, upload
/// the view matrix, upload the window size when the program has a slot
/// for it, bind the quad, enable and describe the position attribute,
/// draw the two triangles over six indices, and disable the attribute
/// again.
pub open spec fn draw_plan_spec(r: FractalRenderer, width: u32, height: u32) -> Seq<GlCommand> {
    let head = seq![
        GlCommand::UseProgram { program: r.program },
        GlCommand::UniformMatrix4 { location: r.matrix_loc },
    ];
    let ws = match r.window_size_loc {
        Some(loc) => seq![GlCommand::Uniform2u { location: loc, width, height }],
        None => Seq::<GlCommand>::empty(),
    };
    let tail = seq![
        GlCommand::BindArrayBuffer { buffer: r.vbo },
        GlCommand::EnableAttrib { location: r.position_loc },
        GlCommand::AttribPointerF3 { location: r.position_loc },
        GlCommand::DrawTrianglesU16 { index_count: 6 },
        GlCommand::DisableAttrib { location: r.position_loc },
    ];
    head + ws + tail
}

impl FractalRenderer {
    /// Compose a renderer from a linked program, the quad's buffer, and
    /// the slots resolved against that exact program at setup.
    pub fn new(
        program: &ShaderProgram,
        geometry: &GeometryBuffer,
        position_loc: u32,
        matrix_loc: u32,
        window_size_loc: Option<u32>,
    ) -> (r: FractalRenderer)
        ensures
            r.program == program.id,
            r.vbo == geometry.vbo,
            r.position_loc == position_loc,
            r.matrix_loc == matrix_loc,
            r.window_size_loc == window_size_loc,
    {
        FractalRenderer { program: program.id, vbo: geometry.vbo, position_loc, matrix_loc, window_size_loc }
    }

    /// Plan one frame's draw for the given view matrix (16 entries,
    /// column-major, in thousandths) and window size. The plan is the
    /// exact sequence `draw_plan_spec` gives: the attribute enabled by
    /// the frame is disabled again before the frame ends.
    pub fn draw_plan(&self, matrix: &Vec<i64>, width: u32, height: u32) -> (cmds: Vec<GlCommand>)
        requires
            matrix@.len() == 16,
        ensures
            cmds@ == draw_plan_spec(*self, width, height),
    {
        let mut cmds: Vec<GlCommand> = Vec::new();
        cmds.push(GlCommand::UseProgram { program: self.program });
        cmds.push(GlCommand::UniformMatrix4 { location: self.matrix_loc });
        match self.window_size_loc {
            Some(loc) => {
                cmds.push(GlCommand::Uniform2u { location: loc, width, height });
            },
            None => {},
        }
        cmds.push(GlCommand::BindArrayBuffer { buffer: self.vbo });
        cmds.push(GlCommand::EnableAttrib { location: self.position_loc });
        cmds.push(GlCommand::AttribPointerF3 { location: self.position_loc });
        cmds.push(GlCommand::DrawTrianglesU16 { index_count: 6 });
        cmds.push(GlCommand::DisableAttrib { location: self.position_loc });
        proof {
            assert(cmds@ =~= draw_plan_spec(*self, width, height));
        }
        cmds
    }
}

/// Law: a frame's plan leaves the attribute-enable state as it found it
/// and draws exactly once. The one command that enables an attribute
/// enables the position input, the one command that disables an
/// attribute disables that same input and is the plan's last command,
/// and the draw just before it covers six 16-bit indices — the quad's
/// two triangles.
pub proof fn lemma_draw_plan_balanced(r: FractalRenderer, width: u32, height: u32)
    ensures
        draw_plan_spec(r, width, height).last() == (GlCommand::DisableAttrib {
            location: r.position_loc,
        }),
        forall|i: int|
            0 <= i < draw_plan_spec(r, width, height).len() && ((#[trigger] draw_plan_spec(
                r,
                width,
                height,
            )[i]) matches GlCommand::EnableAttrib { .. }) ==> draw_plan_spec(r, width, height)[i]
                == (GlCommand::EnableAttrib { location: r.position_loc }) && i == draw_plan_spec(
                r,
                width,
                height,
            ).len() - 4,
        forall|i: int|
            0 <= i < draw_plan_spec(r, width, height).len() && ((#[trigger] draw_plan_spec(
                r,
                width,
                height,
            )[i]) matches GlCommand::DisableAttrib { .. }) ==> i == draw_plan_spec(
                r,
                width,
                height,
            ).len() - 1,
        forall|i: int|
            0 <= i < draw_plan_spec(r, width, height).len() && ((#[trigger] draw_plan_spec(
                r,
                width,
                height,
            )[i]) matches GlCommand::DrawTrianglesU16 { .. }) ==> draw_plan_spec(r, width, height)[i]
                == (GlCommand::DrawTrianglesU16 { index_count: 6 }) && i == draw_plan_spec(
                r,
                width,
                height,
            ).len() - 2,
{
    let plan = draw_plan_spec(r, width, height);
    match r.window_size_loc {
        Some(loc) => {
            assert(plan =~= seq![
                GlCommand::UseProgram { program: r.program },
                GlCommand::UniformMatrix4 { location: r.matrix_loc },
                GlCommand::Uniform2u { location: loc, width, height },
                GlCommand::BindArrayBuffer { buffer: r.vbo },
                GlCommand::EnableAttrib { location: r.position_loc },
                GlCommand::AttribPointerF3 { location: r.position_loc },
                GlCommand::DrawTrianglesU16 { index_count: 6 },
                GlCommand::DisableAttrib { location: r.position_loc },
            ]);
        },
        None => {
            assert(plan =~= seq![
                GlCommand::UseProgram { program: r.program },
                GlCommand::UniformMatrix4 { location: r.matrix_loc },
                GlCommand::BindArrayBuffer { buffer: r.vbo },
                GlCommand::EnableAttrib { location: r.position_loc },
                GlCommand::AttribPointerF3 { location: r.position_loc },
                GlCommand::DrawTrianglesU16 { index_count: 6 },
                GlCommand::DisableAttrib { location: r.position_loc },
            ]);
        },
    }
}

} // verus!
