use glsl_build::diagnostics::{classify_stderr, is_warning_line, split_lines};

#[test]
fn warning_marker_is_detected() {
    assert!(is_warning_line("demo.vert:3: warning: unused variable"));
    assert!(is_warning_line("warning: something"));
}

#[test]
fn plain_lines_are_not_warnings() {
    assert!(!is_warning_line("demo.vert:3: error: expected ';'"));
    assert!(!is_warning_line(""));
    assert!(!is_warning_line("warning without colon"));
}

#[test]
fn split_breaks_at_newlines() {
    assert_eq!(split_lines("a\nb\nc"), vec!["a", "b", "c"]);
}

#[test]
fn split_drops_final_empty_piece() {
    assert_eq!(split_lines("a\nb\n"), vec!["a", "b"]);
    assert_eq!(split_lines(""), Vec::<String>::new());
    assert_eq!(split_lines("\n"), vec![""]);
}

#[test]
fn split_strips_carriage_returns() {
    assert_eq!(split_lines("a\r\nb\r\n"), vec!["a", "b"]);
}

#[test]
fn classify_routes_warnings_and_diagnostics() {
    let text = "demo.vert:3: warning: unused variable\ndemo.vert:9: error: expected ';'\n";
    let r = classify_stderr(text);
    assert_eq!(r.len(), 2);
    assert!(r[0].warning);
    assert_eq!(r[0].text, "demo.vert:3: warning: unused variable");
    assert!(!r[1].warning);
    assert_eq!(r[1].text, "demo.vert:9: error: expected ';'");
}

#[test]
fn classify_of_empty_output_is_empty() {
    assert!(classify_stderr("").is_empty());
}
