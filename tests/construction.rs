use shader_program::construction::{Action, Phase, ShaderBuild, STATUS_OK};
use shader_program::error::CompilationError;
use shader_program::program::Shader;
use shader_program::stage::Stage;

const VS: &str = "#version 330 core\nvoid main() { gl_Position = vec4(0.0); }\n";
const FS: &str = "#version 330 core\nout vec4 c;\nvoid main() { c = vec4(1.0); }\n";
const GS: &str = "#version 330 core\nlayout (points) in;\nvoid main() {}\n";

fn framed(s: &str) -> Vec<u8> {
    let mut v = s.as_bytes().to_vec();
    v.push(0);
    v
}

fn expect_compile(a: Action, stage: Stage, source: &str) {
    match a {
        Action::CompileStage { stage: s, source: src } => {
            assert_eq!(s, stage);
            assert_eq!(src, framed(source));
        }
        _ => panic!("expected a compile step"),
    }
}

#[test]
fn valid_pair_links_into_a_held_program() {
    let (mut b, a) = ShaderBuild::new(VS, FS);
    assert_eq!(b.phase(), Phase::Compiling);
    expect_compile(a, Stage::Vertex, VS);
    expect_compile(b.stage_compiled(4, STATUS_OK), Stage::Fragment, FS);
    match b.stage_compiled(5, STATUS_OK) {
        Action::LinkProgram { shaders } => assert_eq!(shaders, vec![4, 5]),
        _ => panic!("expected a link step"),
    }
    assert_eq!(b.phase(), Phase::Linking);
    match b.link_done(9, STATUS_OK) {
        Action::Finish { delete_shaders, delete_program, result } => {
            assert_eq!(delete_shaders, vec![4, 5]);
            assert_eq!(delete_program, None);
            assert_eq!(result, Ok(Shader { id: 9, live: true }));
        }
        _ => panic!("expected the end"),
    }
    assert_eq!(b.phase(), Phase::Done);
}

#[test]
fn geometry_stage_is_compiled_third_and_linked() {
    let (mut b, a) = ShaderBuild::with_geometry_shader(VS, FS, GS);
    expect_compile(a, Stage::Vertex, VS);
    expect_compile(b.stage_compiled(1, STATUS_OK), Stage::Fragment, FS);
    expect_compile(b.stage_compiled(2, STATUS_OK), Stage::Geometry, GS);
    match b.stage_compiled(3, STATUS_OK) {
        Action::LinkProgram { shaders } => assert_eq!(shaders, vec![1, 2, 3]),
        _ => panic!("expected a link step"),
    }
    match b.link_done(7, STATUS_OK) {
        Action::Finish { delete_shaders, delete_program, result } => {
            assert_eq!(delete_shaders, vec![1, 2, 3]);
            assert_eq!(delete_program, None);
            assert_eq!(result, Ok(Shader { id: 7, live: true }));
        }
        _ => panic!("expected the end"),
    }
}

#[test]
fn vertex_syntax_error_reports_vertex_stage_and_log() {
    let (mut b, _) = ShaderBuild::new("#version 330 core\nvoid main() { oops }\n", FS);
    match b.stage_compiled(4, 0) {
        Action::ReadStageLog { shader } => assert_eq!(shader, 4),
        _ => panic!("expected a log read"),
    }
    assert_eq!(b.phase(), Phase::StageLog);
    let log = b"0:2(15): error: syntax error\n\0".to_vec();
    match b.log_read(&log) {
        Action::Finish { delete_shaders, delete_program, result } => {
            assert_eq!(delete_shaders, vec![4]);
            assert_eq!(delete_program, None);
            let e = result.unwrap_err();
            assert_eq!(
                e,
                CompilationError::StageCompilationFailed {
                    stage: Stage::Vertex,
                    log: "0:2(15): error: syntax error\n".to_string(),
                }
            );
            assert_eq!(e.step_label(), "VERTEX");
        }
        _ => panic!("expected the end"),
    }
}

#[test]
fn fragment_failure_deletes_both_shader_objects() {
    let (mut b, _) = ShaderBuild::new(VS, FS);
    b.stage_compiled(4, STATUS_OK);
    b.stage_compiled(5, 0);
    match b.log_read(&b"bad\0".to_vec()) {
        Action::Finish { delete_shaders, delete_program, result } => {
            assert_eq!(delete_shaders, vec![4, 5]);
            assert_eq!(delete_program, None);
            assert_eq!(
                result,
                Err(CompilationError::StageCompilationFailed { stage: Stage::Fragment, log: "bad".to_string() })
            );
        }
        _ => panic!("expected the end"),
    }
}

#[test]
fn geometry_failure_names_geometry_stage() {
    let (mut b, _) = ShaderBuild::with_geometry_shader(VS, FS, GS);
    b.stage_compiled(1, STATUS_OK);
    b.stage_compiled(2, STATUS_OK);
    b.stage_compiled(3, 0);
    match b.log_read(&b"g\0".to_vec()) {
        Action::Finish { delete_shaders, result, .. } => {
            assert_eq!(delete_shaders, vec![1, 2, 3]);
            let e = result.unwrap_err();
            assert_eq!(e.step_label(), "GEOMETRY");
        }
        _ => panic!("expected the end"),
    }
}

#[test]
fn link_failure_reports_program_log_and_deletes_program() {
    let (mut b, _) = ShaderBuild::new(VS, FS);
    b.stage_compiled(4, STATUS_OK);
    b.stage_compiled(5, STATUS_OK);
    match b.link_done(9, 0) {
        Action::ReadProgramLog { program } => assert_eq!(program, 9),
        _ => panic!("expected a log read"),
    }
    assert_eq!(b.phase(), Phase::ProgramLog { program: 9 });
    match b.log_read(&b"error: vs out 'c' not read by fs\0\0\0".to_vec()) {
        Action::Finish { delete_shaders, delete_program, result } => {
            assert_eq!(delete_shaders, vec![4, 5]);
            assert_eq!(delete_program, Some(9));
            let e = result.unwrap_err();
            assert_eq!(
                e,
                CompilationError::ProgramLinkFailed { log: "error: vs out 'c' not read by fs".to_string() }
            );
            assert_eq!(e.step_label(), "PROGRAM");
        }
        _ => panic!("expected the end"),
    }
}

#[test]
fn empty_log_is_still_a_compile_failure() {
    let (mut b, _) = ShaderBuild::new(VS, FS);
    b.stage_compiled(4, 0);
    match b.log_read(&Vec::new()) {
        Action::Finish { result, .. } => assert_eq!(
            result,
            Err(CompilationError::StageCompilationFailed { stage: Stage::Vertex, log: String::new() })
        ),
        _ => panic!("expected the end"),
    }
}

#[test]
fn undecodable_log_is_reported() {
    let (mut b, _) = ShaderBuild::new(VS, FS);
    b.stage_compiled(4, 0);
    match b.log_read(&vec![0xff, 0xfe, 0]) {
        Action::Finish { delete_shaders, result, .. } => {
            assert_eq!(delete_shaders, vec![4]);
            assert_eq!(result, Err(CompilationError::DiagnosticDecodeFailed));
        }
        _ => panic!("expected the end"),
    }
}

#[test]
fn shader_object_creation_failure_deletes_earlier_objects() {
    let (mut b, _) = ShaderBuild::new(VS, FS);
    b.stage_compiled(4, STATUS_OK);
    match b.stage_compiled(0, 0) {
        Action::Finish { delete_shaders, delete_program, result } => {
            assert_eq!(delete_shaders, vec![4]);
            assert_eq!(delete_program, None);
            assert_eq!(result, Err(CompilationError::ShaderCreationFailed { stage: Stage::Fragment }));
        }
        _ => panic!("expected the end"),
    }
    assert_eq!(b.phase(), Phase::Done);
}

#[test]
fn program_object_creation_failure_is_reported() {
    let (mut b, _) = ShaderBuild::new(VS, FS);
    b.stage_compiled(4, STATUS_OK);
    b.stage_compiled(5, STATUS_OK);
    match b.link_done(0, 0) {
        Action::Finish { delete_shaders, delete_program, result } => {
            assert_eq!(delete_shaders, vec![4, 5]);
            assert_eq!(delete_program, None);
            assert_eq!(result, Err(CompilationError::ProgramCreationFailed));
        }
        _ => panic!("expected the end"),
    }
}

#[test]
fn nul_in_source_ends_before_any_object_is_made() {
    let (b, a) = ShaderBuild::new(VS, "void main() {}\0");
    assert_eq!(b.phase(), Phase::Done);
    match a {
        Action::Finish { delete_shaders, delete_program, result } => {
            assert!(delete_shaders.is_empty());
            assert_eq!(delete_program, None);
            assert_eq!(result, Err(CompilationError::SourceContainsNul { stage: Stage::Fragment }));
        }
        _ => panic!("expected the end"),
    }
    let (_, a) = ShaderBuild::with_geometry_shader("a\0", FS, "b\0");
    match a {
        Action::Finish { result, .. } => {
            assert_eq!(result, Err(CompilationError::SourceContainsNul { stage: Stage::Vertex }))
        }
        _ => panic!("expected the end"),
    }
    let (_, a) = ShaderBuild::with_geometry_shader(VS, FS, "x\0y");
    match a {
        Action::Finish { result, .. } => {
            assert_eq!(result, Err(CompilationError::SourceContainsNul { stage: Stage::Geometry }))
        }
        _ => panic!("expected the end"),
    }
}

#[test]
fn stage_labels() {
    assert_eq!(Stage::Vertex.label(), "VERTEX");
    assert_eq!(Stage::Fragment.label(), "FRAGMENT");
    assert_eq!(Stage::Geometry.label(), "GEOMETRY");
    assert_eq!(CompilationError::ProgramCreationFailed.step_label(), "PROGRAM");
    assert_eq!(CompilationError::ShaderCreationFailed { stage: Stage::Fragment }.step_label(), "FRAGMENT");
}
