use voca::app::{make_banner, shorten_home_path, App, SYSTEM_PROMPT};
use voca::model::{BubbleRole, InputMode, Limits, Provider, VoiceOpts};

fn provider(code: &str, name: &str, model: &str) -> Provider {
    Provider { code: code.into(), name: name.into(), model: model.into(), api_key: None }
}

fn new_app() -> App {
    let ps = vec![provider("qwen", "Qwen", "qwen-plus"), provider("openai", "OpenAI", "gpt-4o-mini")];
    App::new(
        provider("qwen", "Qwen", "qwen-plus"),
        ps,
        VoiceOpts { speak: true, listen: false, lang: "id".into() },
        Limits { max_history: 20 },
    )
}

#[test]
fn new_app_starts_empty_with_system_prompt() {
    let app = new_app();
    assert!(app.messages.is_empty());
    assert!(app.is_at_bottom);
    assert_eq!(app.input_mode, InputMode::Normal);
    assert_eq!(app.llm_messages.len(), 1);
    assert_eq!(app.llm_messages[0].role, "system");
    assert_eq!(app.llm_messages[0].content, SYSTEM_PROMPT);
    assert!(SYSTEM_PROMPT.starts_with("Kamu Voca, asisten coding"));
    assert!(SYSTEM_PROMPT.contains("perintah. Pakai tool"));
}

#[test]
fn scroll_up_stops_at_top() {
    let mut app = new_app();
    app.scroll_offset = 5;
    app.scroll_up(3);
    assert_eq!(app.scroll_offset, 2);
    assert!(!app.is_at_bottom);
    app.scroll_up(10);
    assert_eq!(app.scroll_offset, 0);
}

#[test]
fn scroll_down_stops_at_bottom() {
    let mut app = new_app();
    app.total_lines = 50;
    app.scroll_offset = 0;
    app.is_at_bottom = false;
    app.scroll_down(10, 20);
    assert_eq!(app.scroll_offset, 10);
    assert!(!app.is_at_bottom);
    app.scroll_down(100, 20);
    assert_eq!(app.scroll_offset, 30);
    assert!(app.is_at_bottom);
}

#[test]
fn scroll_to_bottom_follows() {
    let mut app = new_app();
    app.total_lines = 12;
    app.is_at_bottom = false;
    app.scroll_to_bottom(5);
    assert_eq!(app.scroll_offset, 7);
    assert!(app.is_at_bottom);
    app.scroll_to_bottom(40);
    assert_eq!(app.scroll_offset, 0);
}

#[test]
fn scroll_up_then_down_returns() {
    let mut app = new_app();
    app.total_lines = 100;
    app.scroll_offset = 40;
    app.scroll_up(10);
    app.scroll_down(10, 20);
    assert_eq!(app.scroll_offset, 40);
}

#[test]
fn push_bubbles_in_order() {
    let mut app = new_app();
    app.push_system("sys");
    app.push_user("halo");
    app.push_tool("◆ read_file a.txt");
    let got: Vec<(BubbleRole, String)> = app.messages.iter().map(|b| (b.role, b.content.clone())).collect();
    assert_eq!(
        got,
        vec![
            (BubbleRole::System, "sys".to_string()),
            (BubbleRole::User, "halo".to_string()),
            (BubbleRole::Tool, "◆ read_file a.txt".to_string()),
        ]
    );
}

#[test]
fn streaming_records_the_whole_answer() {
    let mut app = new_app();
    app.start_streaming("memikirkan...");
    assert!(app.is_streaming);
    assert_eq!(app.input_mode, InputMode::Processing);
    assert_eq!(app.spinner_msg, "memikirkan...");
    app.append_chunk("Ha");
    app.append_chunk("");
    app.append_chunk("lo!");
    app.finish_streaming();
    assert!(!app.is_streaming);
    assert_eq!(app.input_mode, InputMode::Normal);
    assert!(app.current_stream.is_empty());
    assert_eq!(app.messages.len(), 1);
    assert_eq!(app.messages[0].role, BubbleRole::Assistant);
    assert_eq!(app.messages[0].content, "Halo!");
}

#[test]
fn streaming_nothing_adds_no_bubble() {
    let mut app = new_app();
    app.start_streaming("x");
    app.append_chunk("");
    app.finish_streaming();
    assert!(app.messages.is_empty());
    assert_eq!(app.input_mode, InputMode::Normal);
}

#[test]
fn banner_text_layout() {
    let b = make_banner("Qwen", "qwen-plus", "ID", "~/proj", "ketik + suara");
    let lines: Vec<&str> = b.lines().collect();
    assert_eq!(lines.len(), 8);
    assert_eq!(lines[0], format!("╭{}", "─".repeat(50)));
    assert_eq!(lines[1], "│ V O C A  ·  AI Coding Assistant");
    assert_eq!(lines[2], format!("├{}", "─".repeat(50)));
    assert_eq!(lines[3], "│ model  : Qwen · qwen-plus");
    assert_eq!(lines[4], "│ bahasa : ID");
    assert_eq!(lines[5], "│ folder : ~/proj");
    assert_eq!(lines[6], "│ mode   : ketik + suara");
    assert_eq!(lines[7], format!("╰{}", "─".repeat(50)));
}

#[test]
fn push_banner_adds_one_system_bubble() {
    let mut app = new_app();
    app.push_banner(None);
    assert_eq!(app.messages.len(), 1);
    assert_eq!(app.messages[0].role, BubbleRole::System);
    assert!(app.messages[0].content.contains("│ bahasa : ID\n"));
    assert!(app.messages[0].content.contains("│ mode   : ketik + suara\n"));
    assert!(app.messages[0].content.contains("│ folder : \n"));
}

#[test]
fn home_is_shortened() {
    assert_eq!(shorten_home_path("/home/ana/proj", Some("/home/ana".into())), "~/proj");
    assert_eq!(shorten_home_path("/srv/x", Some("/home/ana".into())), "/srv/x");
    assert_eq!(shorten_home_path("/home/ana", Some("/home/ana".into())), "~");
    assert_eq!(shorten_home_path("/home/ana", None), "/home/ana");
}
