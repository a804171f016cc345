use glsl_build::sanitize_dependency_text;

#[test]
fn doubles_single_backslash() {
    assert_eq!(sanitize_dependency_text("a\\b"), "a\\\\b");
}

#[test]
fn doubles_windows_path_separators() {
    let input = "out.spirv: C:\\shaders\\demo.vert";
    let expected = "out.spirv: C:\\\\shaders\\\\demo.vert";
    assert_eq!(sanitize_dependency_text(input), expected);
}

#[test]
fn leaves_text_without_backslashes_unchanged() {
    let input = "build/demo.vert.spirv: shaders/demo.vert shaders/common.glsl";
    assert_eq!(sanitize_dependency_text(input), input);
}

#[test]
fn empty_text_stays_empty() {
    assert_eq!(sanitize_dependency_text(""), "");
}

#[test]
fn sanitizing_twice_doubles_again() {
    let once = sanitize_dependency_text("a\\b");
    let twice = sanitize_dependency_text(&once);
    assert_eq!(once, "a\\\\b");
    assert_eq!(twice, "a\\\\\\\\b");
    assert_ne!(twice, once);
}

#[test]
fn backslash_count_is_doubled() {
    let input = "x\\y\\z\\";
    let out = sanitize_dependency_text(input);
    let n = input.chars().filter(|c| *c == '\\').count();
    let m = out.chars().filter(|c| *c == '\\').count();
    assert_eq!(n, 3);
    assert_eq!(m, 2 * n);
    assert_eq!(out, "x\\\\y\\\\z\\\\");
}
