use voca::model::ToolCall;
use voca::stream::{classify_sse_line, merge_tool_delta, SseLine};

#[test]
fn data_lines_are_told_apart() {
    assert!(matches!(classify_sse_line("data: {\"a\":1}\n"), SseLine::Data(d) if d == "{\"a\":1}"));
    assert!(matches!(classify_sse_line("  data:[DONE]  \r\n"), SseLine::Done));
    assert!(matches!(classify_sse_line("data:   [DONE]"), SseLine::Done));
    assert!(matches!(classify_sse_line(": keep-alive"), SseLine::Ignore));
    assert!(matches!(classify_sse_line("event: message"), SseLine::Ignore));
    assert!(matches!(classify_sse_line(""), SseLine::Ignore));
    assert!(matches!(classify_sse_line("data:"), SseLine::Data(d) if d.is_empty()));
}

#[test]
fn tool_call_pieces_are_joined_by_index() {
    let mut calls: Vec<ToolCall> = Vec::new();
    merge_tool_delta(&mut calls, 0, Some("call_1"), Some("read_"), Some("{\"pa"));
    merge_tool_delta(&mut calls, 0, None, Some("file"), Some("th\":\"a\"}"));
    merge_tool_delta(&mut calls, 2, Some("call_3"), Some("list_dir"), None);
    assert_eq!(calls.len(), 3);
    assert_eq!(calls[0].id, "call_1");
    assert_eq!(calls[0].name, "read_file");
    assert_eq!(calls[0].arguments, "{\"path\":\"a\"}");
    assert_eq!(calls[1].id, "");
    assert_eq!(calls[1].name, "");
    assert_eq!(calls[2].id, "call_3");
    assert_eq!(calls[2].name, "list_dir");
    assert_eq!(calls[2].arguments, "");
}
