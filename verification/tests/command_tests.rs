use glsl_build::command::build_command_args;
use glsl_build::Configuration;

fn flags(v: &[&str]) -> Vec<String> {
    v.iter().map(|s| s.to_string()).collect()
}

#[test]
fn debug_command_with_no_extra_flags() {
    let r = build_command_args(
        "shaders/demo.vert",
        "deps/demo.d",
        "out/demo.vert.spirv",
        &flags(&[]),
        Configuration::Debug,
    );
    assert_eq!(
        r,
        flags(&[
            "shaders/demo.vert",
            "-MD",
            "-MF",
            "deps/demo.d",
            "-o",
            "out/demo.vert.spirv",
            "--target-env=vulkan1.3",
            "-g",
            "-O0",
        ])
    );
}

#[test]
fn release_command_with_no_extra_flags() {
    let r = build_command_args(
        "shaders/demo.frag",
        "deps/demo.d",
        "out/demo.frag.spirv",
        &flags(&[]),
        Configuration::Release,
    );
    assert_eq!(
        r,
        flags(&[
            "shaders/demo.frag",
            "-MD",
            "-MF",
            "deps/demo.d",
            "-o",
            "out/demo.frag.spirv",
            "--target-env=vulkan1.3",
            "-O",
        ])
    );
}

#[test]
fn default_target_env_appended_after_extra_flags() {
    let r = build_command_args(
        "a.vert",
        "a.d",
        "a.spirv",
        &flags(&["-DFOO=1", "-I", "include"]),
        Configuration::Release,
    );
    assert_eq!(
        r,
        flags(&[
            "a.vert",
            "-MD",
            "-MF",
            "a.d",
            "-o",
            "a.spirv",
            "-DFOO=1",
            "-I",
            "include",
            "--target-env=vulkan1.3",
            "-O",
        ])
    );
}

#[test]
fn caller_target_env_suppresses_injection() {
    let r = build_command_args(
        "a.vert",
        "a.d",
        "a.spirv",
        &flags(&["--target-env=vulkan1.0"]),
        Configuration::Release,
    );
    assert_eq!(
        r,
        flags(&["a.vert", "-MD", "-MF", "a.d", "-o", "a.spirv", "--target-env=vulkan1.0", "-O"])
    );
    let te: Vec<&String> = r.iter().filter(|f| f.starts_with("--target-env")).collect();
    assert_eq!(te.len(), 1);
}

#[test]
fn exactly_one_target_env_flag_when_none_supplied() {
    let r = build_command_args(
        "a.vert",
        "a.d",
        "a.spirv",
        &flags(&["-DFOO"]),
        Configuration::Debug,
    );
    let te: Vec<&String> = r.iter().filter(|f| f.starts_with("--target-env")).collect();
    assert_eq!(te.len(), 1);
    assert_eq!(te[0], "--target-env=vulkan1.3");
}

#[test]
fn debug_has_debug_info_and_no_optimization() {
    let r = build_command_args("a.vert", "a.d", "a.spirv", &flags(&[]), Configuration::Debug);
    assert!(r.contains(&"-g".to_string()));
    assert!(r.contains(&"-O0".to_string()));
    assert!(!r.contains(&"-O".to_string()));
}

#[test]
fn release_has_optimization_only() {
    let r = build_command_args("a.vert", "a.d", "a.spirv", &flags(&[]), Configuration::Release);
    assert!(r.contains(&"-O".to_string()));
    assert!(!r.contains(&"-g".to_string()));
    assert!(!r.contains(&"-O0".to_string()));
}

#[test]
fn extra_flag_order_is_preserved() {
    let extra = flags(&["-x", "-y", "-z"]);
    let r = build_command_args("a.vert", "a.d", "a.spirv", &extra, Configuration::Release);
    assert_eq!(&r[6..9], &extra[..]);
}
