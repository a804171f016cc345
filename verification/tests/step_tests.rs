use glsl_build::step::{plan_compile_one, finish_compile};
use glsl_build::{CompileError, Configuration, FragmentCompiler, ShaderKind, VertexCompiler};

#[test]
fn kind_extensions() {
    assert_eq!(ShaderKind::Vertex.source_extension(), "vert");
    assert_eq!(ShaderKind::Fragment.source_extension(), "frag");
    assert_eq!(ShaderKind::Vertex.output_extension(), "vert.spirv");
    assert_eq!(ShaderKind::Fragment.output_extension(), "frag.spirv");
}

#[test]
fn compiler_extensions_match_their_kinds() {
    assert_eq!(VertexCompiler::source_file_extension(), "vert");
    assert_eq!(FragmentCompiler::source_file_extension(), "frag");
}

#[test]
fn vertex_plan_is_complete() {
    let plan = VertexCompiler::plan_compile_one(
        "shaders/demo.vert",
        "build/intermediate",
        Configuration::Debug,
        "deps/demo.d",
        &Vec::new(),
    );
    assert_eq!(plan.program, "glslc");
    assert_eq!(plan.output_path, "build/intermediate/demo.vert.spirv");
    assert_eq!(
        plan.args,
        vec![
            "shaders/demo.vert",
            "-MD",
            "-MF",
            "deps/demo.d",
            "-o",
            "build/intermediate/demo.vert.spirv",
            "--target-env=vulkan1.3",
            "-g",
            "-O0",
        ]
    );
}

#[test]
fn fragment_plan_is_complete() {
    let plan = FragmentCompiler::plan_compile_one(
        "shaders/demo.frag",
        "build/intermediate",
        Configuration::Release,
        "deps/demo.d",
        &Vec::new(),
    );
    assert_eq!(plan.program, "glslc");
    assert_eq!(plan.output_path, "build/intermediate/demo.frag.spirv");
    assert_eq!(
        plan.args,
        vec![
            "shaders/demo.frag",
            "-MD",
            "-MF",
            "deps/demo.d",
            "-o",
            "build/intermediate/demo.frag.spirv",
            "--target-env=vulkan1.3",
            "-O",
        ]
    );
}

#[test]
fn plans_agree_with_generic_step() {
    let a = plan_compile_one(
        ShaderKind::Vertex,
        "s/x.vert",
        "i",
        Configuration::Release,
        "d/x.d",
        &vec!["-DFOO".to_string()],
    );
    let b = VertexCompiler::plan_compile_one(
        "s/x.vert",
        "i",
        Configuration::Release,
        "d/x.d",
        &vec!["-DFOO".to_string()],
    );
    assert_eq!(a.program, b.program);
    assert_eq!(a.args, b.args);
    assert_eq!(a.output_path, b.output_path);
}

#[test]
fn successful_exit_returns_the_output_path() {
    let r = finish_compile(true, "out/demo.vert.spirv".to_string());
    assert_eq!(r, Ok("out/demo.vert.spirv".to_string()));
}

#[test]
fn failed_exit_reports_compiler_error() {
    let r = finish_compile(false, "out/demo.vert.spirv".to_string());
    assert_eq!(r, Err(CompileError::CompilerReportedError));
}
