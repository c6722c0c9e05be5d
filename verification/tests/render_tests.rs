use rusty_fractals::command::GlCommand;
use rusty_fractals::render::{quad_indices, quad_vertices, FractalRenderer, GeometryBuffer};
use rusty_fractals::shader::{
    attach_link_plan, check_source, compile_outcome, detach_plan, link_outcome, name_valid,
    resolve_location, Stage,
};
use rusty_fractals::view::ViewState;
use rusty_fractals::SCALE;

const VERT_SRC: &str = "attribute vec4 vPosition;\nuniform mat4 uMVPMatrix;\nvoid main() { gl_Position = uMVPMatrix * vPosition; }\n";
const FRAG_SRC: &str = "precision mediump float;\nuniform vec2 uWindowSize;\nvoid main() { gl_FragColor = vec4(gl_FragCoord.xy / uWindowSize, 0.0, 1.0); }\n";

#[test]
fn quad_covers_clip_space() {
    let v = quad_vertices();
    assert_eq!(
        v,
        vec![
            -SCALE, SCALE, 0, //
            -SCALE, -SCALE, 0, //
            SCALE, -SCALE, 0, //
            SCALE, SCALE, 0,
        ]
    );
    // Every corner of [-1,1]^2 appears once.
    for corner in [(-SCALE, SCALE), (-SCALE, -SCALE), (SCALE, -SCALE), (SCALE, SCALE)] {
        let found = v.chunks(3).filter(|c| (c[0], c[1]) == corner).count();
        assert_eq!(found, 1);
    }
}

#[test]
fn quad_indices_form_two_triangles() {
    assert_eq!(quad_indices(), vec![0, 1, 2, 0, 2, 3]);
}

#[test]
fn draw_plan_without_window_size_uniform() {
    let r = FractalRenderer {
        program: 11,
        vbo: 3,
        position_loc: 0,
        matrix_loc: 1,
        window_size_loc: None,
    };
    let m = vec![0i64; 16];
    let plan = r.draw_plan(&m, 800, 600);
    assert_eq!(
        plan,
        vec![
            GlCommand::UseProgram { program: 11 },
            GlCommand::UniformMatrix4 { location: 1 },
            GlCommand::BindArrayBuffer { buffer: 3 },
            GlCommand::EnableAttrib { location: 0 },
            GlCommand::AttribPointerF3 { location: 0 },
            GlCommand::DrawTrianglesU16 { index_count: 6 },
            GlCommand::DisableAttrib { location: 0 },
        ]
    );
}

#[test]
fn end_to_end_trace_with_the_reference_shaders() {
    // Build the pipeline from the two reference shader sources against a
    // mock driver that, like any conforming one, accepts them: compile
    // both stages, link, detach, resolve the slots, then draw one frame
    // at the identity-derived view and a 800x600 window.
    let vert_src = VERT_SRC.as_bytes().to_vec();
    let frag_src = FRAG_SRC.as_bytes().to_vec();
    assert!(check_source(&vert_src).is_ok());
    assert!(check_source(&frag_src).is_ok());

    // Mock driver handles and success reports.
    let vert = compile_outcome(1, Stage::Vertex, true, String::new()).unwrap();
    let frag = compile_outcome(2, Stage::Fragment, true, String::new()).unwrap();
    let units = vec![vert, frag];
    let link_cmds = attach_link_plan(3, &units);
    assert_eq!(
        link_cmds,
        vec![
            GlCommand::AttachShader { program: 3, shader: 1 },
            GlCommand::AttachShader { program: 3, shader: 2 },
            GlCommand::LinkProgram { program: 3 },
        ]
    );
    let program = link_outcome(3, true, String::new()).unwrap();
    assert_eq!(
        detach_plan(program.id, &units),
        vec![
            GlCommand::DetachShader { program: 3, shader: 1 },
            GlCommand::DetachShader { program: 3, shader: 2 },
        ]
    );

    // The names the renderer needs exist in the reference sources.
    assert!(name_valid(&b"vPosition".to_vec()));
    assert!(name_valid(&b"uMVPMatrix".to_vec()));
    let position_loc = resolve_location(0, 0).unwrap();
    let matrix_loc = resolve_location(1, 0).unwrap();
    let window_size_loc = resolve_location(2, 0).unwrap();

    // Upload the quad and compose the renderer.
    assert_eq!(quad_vertices().len(), 12);
    let geometry = GeometryBuffer::new(4);
    let renderer =
        FractalRenderer::new(&program, &geometry, position_loc, matrix_loc, Some(window_size_loc));

    // The identity-derived view matrix: diag(-1, 1, 1, 1), no translation.
    let view = ViewState::from_parts(0, 0, SCALE, SCALE, SCALE);
    let matrix = view.transform_matrix();
    assert_eq!(matrix[0], -SCALE);
    assert_eq!(matrix[5], SCALE);
    assert_eq!(matrix[12], 0);
    assert_eq!(matrix[13], 0);

    // One frame: the trace submits the two full-quad triangles and
    // leaves the attribute-enable state as it found it.
    let plan = renderer.draw_plan(&matrix, 800, 600);
    assert_eq!(
        plan,
        vec![
            GlCommand::UseProgram { program: 3 },
            GlCommand::UniformMatrix4 { location: 1 },
            GlCommand::Uniform2u { location: 2, width: 800, height: 600 },
            GlCommand::BindArrayBuffer { buffer: 4 },
            GlCommand::EnableAttrib { location: 0 },
            GlCommand::AttribPointerF3 { location: 0 },
            GlCommand::DrawTrianglesU16 { index_count: 6 },
            GlCommand::DisableAttrib { location: 0 },
        ]
    );
}
