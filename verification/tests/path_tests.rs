use glsl_build::compute_output_path;

#[test]
fn vertex_output_path() {
    let r = compute_output_path("shaders/demo.vert", "build/intermediate", "vert.spirv");
    assert_eq!(r, "build/intermediate/demo.vert.spirv");
}

#[test]
fn fragment_output_path() {
    let r = compute_output_path("shaders/demo.frag", "build/intermediate", "frag.spirv");
    assert_eq!(r, "build/intermediate/demo.frag.spirv");
}

#[test]
fn output_path_is_deterministic() {
    let a = compute_output_path("shaders/light.vert", "out", "vert.spirv");
    let b = compute_output_path("shaders/light.vert", "out", "vert.spirv");
    assert_eq!(a, b);
}

#[test]
fn source_without_directory() {
    let r = compute_output_path("demo.vert", "out", "vert.spirv");
    assert_eq!(r, "out/demo.vert.spirv");
}

#[test]
fn source_without_extension() {
    let r = compute_output_path("shaders/demo", "out", "vert.spirv");
    assert_eq!(r, "out/demo.vert.spirv");
}

#[test]
fn only_last_extension_is_replaced() {
    let r = compute_output_path("a/b.c/demo.tes.vert", "out", "vert.spirv");
    assert_eq!(r, "out/demo.tes.vert.spirv");
}
