use cloud_profiler_rust::token::strip_bearer_prefix;

fn strip_str(s: &str) -> String {
    let out = strip_bearer_prefix(&s.as_bytes().to_vec());
    String::from_utf8(out).expect("stripping an ASCII prefix keeps UTF-8 intact")
}

#[test]
fn strips_a_single_bearer_marker() {
    assert_eq!(strip_str("Bearer tok123"), "tok123");
}

#[test]
fn leaves_a_bare_token_alone() {
    assert_eq!(strip_str("tok123"), "tok123");
}

#[test]
fn strips_repeated_markers() {
    assert_eq!(strip_str("Bearer Bearer tok"), "tok");
}

#[test]
fn marker_must_match_exactly() {
    assert_eq!(strip_str("bearer tok"), "bearer tok");
    assert_eq!(strip_str("Bearertok"), "Bearertok");
}

#[test]
fn short_and_empty_inputs_pass_through() {
    assert_eq!(strip_str(""), "");
    assert_eq!(strip_str("Bearer"), "Bearer");
    assert_eq!(strip_str("Bearer "), "");
}
