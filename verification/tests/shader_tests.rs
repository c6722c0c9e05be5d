use rusty_fractals::command::GlCommand;
use rusty_fractals::shader::{
    attach_link_plan, check_source, compile_outcome, detach_plan, link_outcome, name_valid,
    resolve_location, stage_code, ShaderError, ShaderUnit, Stage,
};

const VERT_SRC: &str = "attribute vec4 vPosition;\nuniform mat4 uMVPMatrix;\nvoid main() { gl_Position = uMVPMatrix * vPosition; }\n";

#[test]
fn clean_source_is_accepted() {
    let src = VERT_SRC.as_bytes().to_vec();
    assert!(check_source(&src).is_ok());
    assert!(check_source(&Vec::new()).is_ok());
}

#[test]
fn source_with_embedded_nul_is_rejected() {
    let src = b"void main() {\0}".to_vec();
    let r = check_source(&src);
    assert!(matches!(r, Err(ShaderError::InvalidSource)));
}

#[test]
fn name_validity() {
    assert!(name_valid(&b"vPosition".to_vec()));
    assert!(name_valid(&b"uMVPMatrix".to_vec()));
    assert!(!name_valid(&Vec::new()));
    assert!(!name_valid(&b"bad\0name".to_vec()));
}

#[test]
fn stage_codes_name_the_driver_entry_points() {
    assert_eq!(stage_code(Stage::Vertex), 0x8B31);
    assert_eq!(stage_code(Stage::Fragment), 0x8B30);
}

#[test]
fn successful_compile_owns_the_handle() {
    let r = compile_outcome(7, Stage::Vertex, true, String::new());
    let unit = r.unwrap();
    assert_eq!(unit.id, 7);
    assert!(matches!(unit.stage, Stage::Vertex));
}

#[test]
fn failed_compile_surfaces_the_diagnostic_verbatim() {
    let log = String::from("0:1(1): error: syntax error, unexpected IDENTIFIER");
    let r = compile_outcome(7, Stage::Fragment, false, log.clone());
    match r {
        Err(ShaderError::Compile { stage, log: got }) => {
            assert!(matches!(stage, Stage::Fragment));
            assert_eq!(got, log);
            assert!(!got.is_empty());
        }
        _ => panic!("expected a compile error"),
    }
}

#[test]
fn successful_link_owns_the_program() {
    let r = link_outcome(9, true, String::new());
    assert_eq!(r.unwrap().id, 9);
}

#[test]
fn failed_link_surfaces_the_diagnostic_verbatim() {
    let log = String::from("error: vertex shader lacks main()");
    let r = link_outcome(9, false, log.clone());
    match r {
        Err(ShaderError::Link { log: got }) => assert_eq!(got, log),
        _ => panic!("expected a link error"),
    }
}

#[test]
fn clean_nonnegative_location_resolves() {
    assert_eq!(resolve_location(0, 0).unwrap(), 0);
    assert_eq!(resolve_location(3, 0).unwrap(), 3);
}

#[test]
fn sentinel_location_is_not_found_never_valid() {
    // The driver's "not found" answer must never pass as a slot.
    let r = resolve_location(-1, 0);
    assert!(matches!(r, Err(ShaderError::NotFound)));
    let r = resolve_location(-7, 0);
    assert!(matches!(r, Err(ShaderError::NotFound)));
}

#[test]
fn driver_error_while_resolving_is_not_found() {
    // Even a nonnegative answer is void when the driver flagged an error.
    let r = resolve_location(2, 0x0501);
    assert!(matches!(r, Err(ShaderError::NotFound)));
}

#[test]
fn attach_link_detach_sequence() {
    let units = vec![
        ShaderUnit { id: 4, stage: Stage::Vertex },
        ShaderUnit { id: 5, stage: Stage::Fragment },
    ];
    let plan = attach_link_plan(11, &units);
    assert_eq!(
        plan,
        vec![
            GlCommand::AttachShader { program: 11, shader: 4 },
            GlCommand::AttachShader { program: 11, shader: 5 },
            GlCommand::LinkProgram { program: 11 },
        ]
    );
    let after = detach_plan(11, &units);
    assert_eq!(
        after,
        vec![
            GlCommand::DetachShader { program: 11, shader: 4 },
            GlCommand::DetachShader { program: 11, shader: 5 },
        ]
    );
}
