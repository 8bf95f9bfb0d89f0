use voca::agent::{handle_event, process_user_input};
use voca::app::App;
use voca::events::{Action, AppEvent, KeyCode, KeyPress, MouseAction, ToolOutcome};
use voca::model::{BubbleRole, InputMode, Limits, MenuKind, Provider, ToolCall, VoiceOpts};

fn provider(code: &str, name: &str, model: &str, key: Option<&str>) -> Provider {
    Provider { code: code.into(), name: name.into(), model: model.into(), api_key: key.map(|k| k.into()) }
}

fn app_with(listen: bool, speak: bool, bridge: bool) -> App {
    let ps = vec![
        provider("qwen", "Qwen", "qwen-plus", Some("k1")),
        provider("openai", "OpenAI", "gpt-4o-mini", None),
        provider("deepseek", "DeepSeek", "deepseek-chat", None),
    ];
    let mut app = App::new(
        provider("qwen", "Qwen", "qwen-plus", Some("k1")),
        ps,
        VoiceOpts { speak, listen, lang: "id".into() },
        Limits { max_history: 4 },
    );
    app.has_voice_bridge = bridge;
    app
}

fn key(code: KeyCode) -> AppEvent {
    AppEvent::Key(KeyPress { code, ctrl: false })
}

fn last_bubble(app: &App) -> (BubbleRole, String) {
    let b = app.messages.last().unwrap();
    (b.role, b.content.clone())
}

#[test]
fn typed_line_is_sent_to_model() {
    let mut app = app_with(false, false, false);
    let acts = handle_event(&mut app, key(KeyCode::Enter), "  jelaskan kode ini  ");
    assert!(matches!(acts.as_slice(), [Action::ResetInput, Action::StartLlmTurn]));
    assert_eq!(last_bubble(&app), (BubbleRole::User, "jelaskan kode ini".to_string()));
    let m = app.llm_messages.last().unwrap();
    assert_eq!((m.role.as_str(), m.content.as_str()), ("user", "jelaskan kode ini"));
    assert!(app.is_streaming);
    assert_eq!(app.input_mode, InputMode::Processing);
    assert_eq!(app.spinner_msg, "memikirkan...");
}

#[test]
fn exit_and_quit_end_session() {
    let mut app = app_with(false, false, false);
    assert!(process_user_input(&mut app, "/exit").is_empty());
    assert!(app.should_quit);
    let mut app = app_with(false, false, false);
    process_user_input(&mut app, " /quit ");
    assert!(app.should_quit);
    assert!(app.messages.is_empty());
}

#[test]
fn help_lists_commands() {
    let mut app = app_with(false, false, false);
    process_user_input(&mut app, "/help");
    assert_eq!(
        last_bubble(&app),
        (BubbleRole::System, "Perintah: /model [nama]  ·  /lan [id|en]  ·  /exit".to_string())
    );
}

#[test]
fn model_without_argument_opens_menu() {
    let mut app = app_with(false, false, false);
    let acts = process_user_input(&mut app, "/model");
    assert!(acts.is_empty());
    assert_eq!(app.input_mode, InputMode::Menu);
    let menu = app.menu.as_ref().unwrap();
    assert_eq!(menu.title, "PILIH MODEL");
    assert_eq!(menu.kind, MenuKind::Model);
    assert_eq!(menu.selected, 0);
    assert_eq!(menu.items[0], format!("{:<11} {}  {}{}", "qwen", "qwen-plus", "●", " ←"));
    assert_eq!(menu.items[1], format!("{:<11} {}  {}{}", "openai", "gpt-4o-mini", "○", ""));
    assert_eq!(menu.items.len(), 3);
}

#[test]
fn model_with_argument_asks_for_key() {
    let mut app = app_with(false, false, false);
    let acts = process_user_input(&mut app, "/model deepseek");
    assert!(matches!(acts.as_slice(), [Action::EnsureApiKey(2)]));
    let acts = handle_event(&mut app, AppEvent::ApiKeyReady(2, Ok("sk-1".into())), "");
    assert!(acts.is_empty());
    assert_eq!(app.provider.code, "deepseek");
    assert_eq!(app.provider.api_key.as_deref(), Some("sk-1"));
    assert_eq!(last_bubble(&app), (BubbleRole::System, "✓ model: DeepSeek (deepseek-chat)".to_string()));
}

#[test]
fn api_key_failure_is_reported() {
    let mut app = app_with(false, false, false);
    handle_event(&mut app, AppEvent::ApiKeyReady(1, Err("kunci kosong".into())), "");
    assert_eq!(app.provider.code, "qwen");
    assert_eq!(last_bubble(&app), (BubbleRole::System, "❌ kunci kosong".to_string()));
}

#[test]
fn unknown_provider_is_reported() {
    let mut app = app_with(false, false, false);
    let acts = process_user_input(&mut app, "/model mistral");
    assert!(acts.is_empty());
    assert_eq!(
        last_bubble(&app),
        (BubbleRole::System, "❌ provider tidak dikenal (qwen / openai / openrouter / deepseek)".to_string())
    );
}

#[test]
fn lan_sets_and_toggles_language() {
    let mut app = app_with(false, false, false);
    process_user_input(&mut app, "/lan en");
    assert_eq!(app.voice.lang, "en");
    assert_eq!(last_bubble(&app), (BubbleRole::System, "✓ bahasa: EN".to_string()));
    process_user_input(&mut app, "/lang id");
    assert_eq!(app.voice.lang, "id");
    process_user_input(&mut app, "/lan xx");
    assert_eq!(app.voice.lang, "en");
    process_user_input(&mut app, "/lan xx");
    assert_eq!(app.voice.lang, "id");
}

#[test]
fn lan_without_argument_opens_language_menu() {
    let mut app = app_with(false, false, false);
    process_user_input(&mut app, "/lan");
    let menu = app.menu.as_ref().unwrap();
    assert_eq!(menu.title, "PILIH BAHASA");
    assert_eq!(menu.items, vec!["Indonesia ←".to_string(), "English".to_string()]);
    assert_eq!(menu.selected, 0);
    assert_eq!(app.input_mode, InputMode::Menu);
}

#[test]
fn menu_navigation_wraps_and_applies() {
    let mut app = app_with(false, false, false);
    process_user_input(&mut app, "/lan");
    handle_event(&mut app, key(KeyCode::Up), "");
    assert_eq!(app.menu.as_ref().unwrap().selected, 1);
    handle_event(&mut app, key(KeyCode::Char('j')), "");
    assert_eq!(app.menu.as_ref().unwrap().selected, 0);
    handle_event(&mut app, key(KeyCode::Down), "");
    assert_eq!(app.menu.as_ref().unwrap().selected, 1);
    handle_event(&mut app, key(KeyCode::Char('x')), "");
    assert!(app.menu.is_some());
    handle_event(&mut app, key(KeyCode::Enter), "");
    assert!(app.menu.is_none());
    assert_eq!(app.input_mode, InputMode::Normal);
    assert_eq!(app.voice.lang, "en");
}

#[test]
fn menu_escape_cancels() {
    let mut app = app_with(false, false, false);
    process_user_input(&mut app, "/model");
    handle_event(&mut app, key(KeyCode::Char('q')), "");
    assert!(app.menu.is_none());
    assert_eq!(app.input_mode, InputMode::Normal);
    assert_eq!(last_bubble(&app), (BubbleRole::System, "(dibatalkan)".to_string()));
}

#[test]
fn model_menu_enter_asks_for_key() {
    let mut app = app_with(false, false, false);
    process_user_input(&mut app, "/model");
    handle_event(&mut app, key(KeyCode::Down), "");
    let acts = handle_event(&mut app, key(KeyCode::Enter), "");
    assert!(matches!(acts.as_slice(), [Action::EnsureApiKey(1)]));
    assert!(app.menu.is_none());
}

#[test]
fn quick_phrase_switches_language() {
    let mut app = app_with(false, false, false);
    let acts = process_user_input(&mut app, "Bahasa Inggris!");
    assert!(acts.is_empty());
    assert_eq!(app.voice.lang, "en");
    let acts = process_user_input(&mut app, "gpt");
    assert!(matches!(acts.as_slice(), [Action::EnsureApiKey(1)]));
}

#[test]
fn ctrl_c_quits_in_any_mode() {
    let mut app = app_with(false, false, false);
    app.input_mode = InputMode::Processing;
    let acts = handle_event(&mut app, AppEvent::Key(KeyPress { code: KeyCode::Char('c'), ctrl: true }), "");
    assert!(acts.is_empty());
    assert!(app.should_quit);
}

#[test]
fn keys_ignored_while_busy() {
    let mut app = app_with(false, false, false);
    app.input_mode = InputMode::Listening;
    let acts = handle_event(&mut app, key(KeyCode::Enter), "abc");
    assert!(acts.is_empty());
    assert!(app.messages.is_empty());
}

#[test]
fn typing_keys_edit_the_input() {
    let mut app = app_with(false, false, false);
    let acts = handle_event(&mut app, key(KeyCode::Char('a')), "");
    assert!(matches!(acts.as_slice(), [Action::EditInput]));
}

#[test]
fn mic_mode_enter_starts_listening() {
    let mut app = app_with(true, true, true);
    let acts = handle_event(&mut app, key(KeyCode::Enter), "");
    assert!(matches!(acts.as_slice(), [Action::ResetInput, Action::QueueStartListening]));
    assert_eq!(app.input_mode, InputMode::Listening);
    let acts = handle_event(&mut app, AppEvent::StartListening, "");
    assert!(matches!(acts.as_slice(), [Action::Listen(l)] if l == "id"));
    let acts = handle_event(&mut app, AppEvent::VoiceResult(String::new()), "");
    assert!(acts.is_empty());
    assert_eq!(app.input_mode, InputMode::Normal);
    assert_eq!(
        last_bubble(&app),
        (BubbleRole::System, "🎤 tidak ada ucapan terdeteksi — coba lagi atau ketik pesan".to_string())
    );
}

#[test]
fn mic_mode_t_switches_to_typing_and_esc_back() {
    let mut app = app_with(true, false, true);
    let acts = handle_event(&mut app, key(KeyCode::Char('t')), "");
    assert!(acts.is_empty());
    assert!(app.voice_text_mode);
    let acts = handle_event(&mut app, key(KeyCode::Esc), "");
    assert!(matches!(acts.as_slice(), [Action::ResetInput]));
    assert!(!app.voice_text_mode);
    let acts = handle_event(&mut app, key(KeyCode::Char('x')), "");
    assert!(matches!(acts.as_slice(), [Action::EditInput]));
    assert!(app.voice_text_mode);
}

#[test]
fn start_listening_without_bridge_returns_to_normal() {
    let mut app = app_with(true, true, false);
    app.input_mode = InputMode::Listening;
    let acts = handle_event(&mut app, AppEvent::StartListening, "");
    assert!(acts.is_empty());
    assert_eq!(app.input_mode, InputMode::Normal);
}

#[test]
fn voice_result_is_processed() {
    let mut app = app_with(true, true, true);
    app.input_mode = InputMode::Listening;
    let acts = handle_event(&mut app, AppEvent::VoiceResult("buat file baru".into()), "");
    assert!(matches!(acts.as_slice(), [Action::StartLlmTurn]));
    assert_eq!(last_bubble(&app), (BubbleRole::User, "buat file baru".to_string()));
}

#[test]
fn stream_chunks_and_completion() {
    let mut app = app_with(false, true, true);
    process_user_input(&mut app, "halo");
    handle_event(&mut app, AppEvent::LlmChunk("Hai".into()), "");
    handle_event(&mut app, AppEvent::LlmChunk(" juga".into()), "");
    assert_eq!(app.current_stream, "Hai juga");
    let acts = handle_event(&mut app, AppEvent::LlmComplete("Hai juga".into(), vec![]), "");
    assert!(matches!(acts.as_slice(), [Action::QueueSpeak(t)] if t == "Hai juga"));
    assert_eq!(last_bubble(&app), (BubbleRole::Assistant, "Hai juga".to_string()));
    let m = app.llm_messages.last().unwrap();
    assert_eq!((m.role.as_str(), m.content.as_str()), ("assistant", "Hai juga"));
    assert!(!app.is_streaming);
    let acts = handle_event(&mut app, AppEvent::VoiceSpeak("Hai juga".into()), "");
    assert!(matches!(acts.as_slice(), [Action::Speak(t, l)] if t == "Hai juga" && l == "id"));
}

#[test]
fn completion_with_tools_runs_them() {
    let mut app = app_with(false, false, false);
    process_user_input(&mut app, "baca README");
    let call = ToolCall { id: "c1".into(), name: "read_file".into(), arguments: "{\"path\":\"README.md\"}".into() };
    let acts = handle_event(&mut app, AppEvent::LlmComplete(String::new(), vec![call]), "");
    match acts.as_slice() {
        [Action::RunTools(calls)] => {
            assert_eq!(calls.len(), 1);
            assert_eq!(calls[0].id, "c1");
        }
        other => panic!("unexpected {:?}", other),
    }
    assert_eq!(app.llm_messages.last().unwrap().tool_calls.len(), 1);
    let outcome = ToolOutcome {
        id: "c1".into(),
        name: "read_file".into(),
        summary: "README.md".into(),
        result: "isi".into(),
    };
    let acts = handle_event(&mut app, AppEvent::ToolsDone(vec![outcome]), "");
    assert!(matches!(acts.as_slice(), [Action::StartLlmTurn]));
    assert_eq!(last_bubble(&app), (BubbleRole::Tool, "◆ read_file README.md".to_string()));
    let m = app.llm_messages.last().unwrap();
    assert_eq!(m.role, "tool");
    assert_eq!(m.content, "isi");
    assert_eq!(m.tool_call_id.as_deref(), Some("c1"));
    assert!(app.is_streaming);
}

#[test]
fn writing_tools_wait_for_yes() {
    let mut app = app_with(false, false, false);
    process_user_input(&mut app, "buat file");
    let read = ToolCall { id: "c1".into(), name: "read_file".into(), arguments: "{\"path\":\"a.txt\"}".into() };
    let write = ToolCall {
        id: "c2".into(),
        name: "write_file".into(),
        arguments: "{\"path\":\"b.txt\",\"content\":\"x\"}".into(),
    };
    let run = ToolCall { id: "c3".into(), name: "run_command".into(), arguments: "{\"command\":\"ls\"}".into() };
    let acts = handle_event(&mut app, AppEvent::LlmComplete(String::new(), vec![read, write, run]), "");
    assert!(acts.is_empty());
    assert_eq!(
        app.input_mode,
        InputMode::Confirming("izinkan tool · write_file b.txt · run_command ls".into())
    );
    assert_eq!(app.pending_tools.len(), 3);
    let acts = handle_event(&mut app, AppEvent::ConfirmAnswer(true), "");
    match acts.as_slice() {
        [Action::RunTools(calls)] => {
            let ids: Vec<&str> = calls.iter().map(|c| c.id.as_str()).collect();
            assert_eq!(ids, vec!["c1", "c2", "c3"]);
        }
        other => panic!("unexpected {:?}", other),
    }
    assert_eq!(app.input_mode, InputMode::Normal);
    assert!(app.pending_tools.is_empty());
}

#[test]
fn refused_tools_never_run() {
    let mut app = app_with(false, false, false);
    process_user_input(&mut app, "jalankan test");
    let run = ToolCall { id: "c7".into(), name: "run_command".into(), arguments: "{\"command\":\"rm -rf x\"}".into() };
    let acts = handle_event(&mut app, AppEvent::LlmComplete("oke".into(), vec![run]), "");
    assert!(acts.is_empty());
    let acts = handle_event(&mut app, key(KeyCode::Esc), "");
    assert!(matches!(acts.as_slice(), [Action::QueueConfirm(false)]));
    let acts = handle_event(&mut app, AppEvent::ConfirmAnswer(false), "");
    assert!(acts.is_empty());
    assert!(app.pending_tools.is_empty());
    assert_eq!(app.input_mode, InputMode::Normal);
    assert_eq!(last_bubble(&app), (BubbleRole::System, "(dibatalkan)".to_string()));
    let m = app.llm_messages.last().unwrap();
    assert_eq!(m.role, "tool");
    assert_eq!(m.tool_call_id.as_deref(), Some("c7"));
    assert_eq!(m.content, "dibatalkan oleh pengguna");
}

#[test]
fn completion_without_tools_trims_history() {
    let mut app = app_with(false, false, false);
    for i in 0..6 {
        process_user_input(&mut app, &format!("pesan {i}"));
        handle_event(&mut app, AppEvent::LlmComplete(format!("jawab {i}"), vec![]), "");
    }
    assert!(app.llm_messages.len() <= 5);
    assert_eq!(app.llm_messages[0].role, "system");
    assert_eq!(app.llm_messages[1].role, "user");
}

#[test]
fn llm_error_is_shown() {
    let mut app = app_with(false, false, false);
    process_user_input(&mut app, "halo");
    handle_event(&mut app, AppEvent::LlmError("timeout".into()), "");
    assert!(!app.is_streaming);
    assert_eq!(app.input_mode, InputMode::Normal);
    assert_eq!(last_bubble(&app), (BubbleRole::System, "❌ timeout".to_string()));
}

#[test]
fn tool_result_starts_new_turn() {
    let mut app = app_with(false, false, false);
    let acts = handle_event(&mut app, AppEvent::ToolResult("c9".into(), "ok".into()), "");
    assert!(matches!(acts.as_slice(), [Action::StartLlmTurn]));
    assert_eq!(app.llm_messages.last().unwrap().tool_call_id.as_deref(), Some("c9"));
}

#[test]
fn confirm_answers() {
    let mut app = app_with(false, false, false);
    app.input_mode = InputMode::Confirming("hapus file?".into());
    let acts = handle_event(&mut app, key(KeyCode::Char('Y')), "");
    assert!(matches!(acts.as_slice(), [Action::QueueConfirm(true)]));
    let acts = handle_event(&mut app, key(KeyCode::Enter), "");
    assert!(matches!(acts.as_slice(), [Action::QueueConfirm(false)]));
    let acts = handle_event(&mut app, key(KeyCode::Char('z')), "");
    assert!(acts.is_empty());
    handle_event(&mut app, AppEvent::ConfirmAnswer(false), "");
    assert_eq!(app.input_mode, InputMode::Normal);
    assert_eq!(last_bubble(&app), (BubbleRole::System, "(dibatalkan)".to_string()));
    let n = app.messages.len();
    handle_event(&mut app, AppEvent::ConfirmAnswer(true), "");
    assert_eq!(app.messages.len(), n);
}

#[test]
fn tick_advances_and_wraps() {
    let mut app = app_with(false, false, false);
    handle_event(&mut app, AppEvent::Tick, "");
    assert_eq!(app.spinner_frame, 1);
    app.spinner_frame = usize::MAX;
    handle_event(&mut app, AppEvent::Tick, "");
    assert_eq!(app.spinner_frame, 0);
}

#[test]
fn page_keys_and_wheel_scroll() {
    let mut app = app_with(false, false, false);
    app.total_lines = 100;
    app.scroll_offset = 50;
    handle_event(&mut app, key(KeyCode::PageUp), "");
    assert_eq!(app.scroll_offset, 40);
    assert!(!app.is_at_bottom);
    handle_event(&mut app, AppEvent::Mouse(MouseAction::ScrollDown), "");
    assert_eq!(app.scroll_offset, 43);
    handle_event(&mut app, key(KeyCode::PageDown), "");
    assert_eq!(app.scroll_offset, 53);
    handle_event(&mut app, key(KeyCode::End), "");
    assert_eq!(app.scroll_offset, 100);
    assert!(app.is_at_bottom);
    handle_event(&mut app, AppEvent::Mouse(MouseAction::ScrollUp), "");
    assert_eq!(app.scroll_offset, 97);
}

#[test]
fn chunk_keeps_view_at_bottom() {
    let mut app = app_with(false, false, false);
    app.total_lines = 30;
    app.is_at_bottom = true;
    app.scroll_offset = 3;
    handle_event(&mut app, AppEvent::LlmChunk("x".into()), "");
    assert_eq!(app.scroll_offset, 30);
    app.is_at_bottom = false;
    app.scroll_offset = 3;
    handle_event(&mut app, AppEvent::LlmChunk("y".into()), "");
    assert_eq!(app.scroll_offset, 3);
}
