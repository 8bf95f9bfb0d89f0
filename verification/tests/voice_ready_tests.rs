use voca::voice::is_ready;

#[test]
fn ready_line_is_recognised() {
    assert!(is_ready("{\"ready\":true}\n"));
    assert!(is_ready("  {\"ready\": true, \"model\": \"small\"}  "));
    assert!(!is_ready("{\"ready\":false}"));
    assert!(!is_ready("{\"ready\":\"true\"}"));
    assert!(!is_ready("loading model..."));
    assert!(!is_ready(""));
}
