use voca::app::App;
use voca::model::{ChatBubble, BubbleRole, InputMode, Limits, MenuKind, MenuState, Provider, VoiceOpts};
use voca::ui::{
    centered_rect, chat_lines, compute_wrapped_lines, header_rule, header_title_line, input_cursor, input_view,
    layout_chat, menu_popup, popup_fits, scrollbar, spin, status_line, Area, ChatLine, StyledSpan, Tone,
};

fn new_app(listen: bool) -> App {
    let p = Provider { code: "qwen".into(), name: "Qwen".into(), model: "qwen-plus".into(), api_key: None };
    App::new(
        p.clone(),
        vec![p],
        VoiceOpts { speak: false, listen, lang: "id".into() },
        Limits { max_history: 10 },
    )
}

fn texts(l: &ChatLine) -> Vec<(String, Tone)> {
    l.spans.iter().map(|s| (s.text.clone(), s.tone)).collect()
}

fn t(s: &str, tone: Tone) -> (String, Tone) {
    (s.to_string(), tone)
}

#[test]
fn spinner_cycles_through_ten_frames() {
    assert_eq!(spin(0), '⠋');
    assert_eq!(spin(9), '⠏');
    assert_eq!(spin(10), '⠋');
    assert_eq!(spin(23), '⠸');
}

#[test]
fn chat_lines_of_bubbles() {
    let mut app = new_app(false);
    app.messages.push(ChatBubble { role: BubbleRole::User, content: "halo\ndunia".into() });
    app.messages.push(ChatBubble { role: BubbleRole::System, content: "❌ gagal".into() });
    app.messages.push(ChatBubble { role: BubbleRole::Tool, content: "◆ ls".into() });
    let ls = chat_lines(&app);
    let got: Vec<Vec<(String, Tone)>> = ls.iter().map(texts).collect();
    assert_eq!(
        got,
        vec![
            vec![t("  ╭─ ", Tone::Accent), t("ANDA", Tone::AccentBold)],
            vec![t("  │ ", Tone::Accent), t("halo", Tone::Text)],
            vec![t("  │ ", Tone::Accent), t("dunia", Tone::Text)],
            vec![t("", Tone::Plain)],
            vec![t("  ", Tone::Plain), t("❌ gagal", Tone::Error)],
            vec![t("", Tone::Plain)],
            vec![t("  ◆ ", Tone::Tool), t("◆ ls", Tone::ToolDim)],
        ]
    );
}

#[test]
fn chat_lines_system_tones_and_empty_bubbles() {
    let mut app = new_app(false);
    app.messages.push(ChatBubble { role: BubbleRole::System, content: String::new() });
    app.messages.push(ChatBubble { role: BubbleRole::System, content: "⚠ awas".into() });
    app.messages.push(ChatBubble { role: BubbleRole::System, content: "info".into() });
    let got: Vec<Vec<(String, Tone)>> = chat_lines(&app).iter().map(texts).collect();
    assert_eq!(
        got,
        vec![
            vec![t("  ", Tone::Plain), t("⚠ awas", Tone::Warning)],
            vec![t("", Tone::Plain)],
            vec![t("  ", Tone::Plain), t("info", Tone::MutedItalic)],
        ]
    );
}

#[test]
fn streaming_shows_spinner_then_text() {
    let mut app = new_app(false);
    app.start_streaming("");
    app.spinner_frame = 12;
    let got: Vec<Vec<(String, Tone)>> = chat_lines(&app).iter().map(texts).collect();
    assert_eq!(
        got,
        vec![
            vec![t("  ╭─ ", Tone::Accent), t("VOCA", Tone::AccentBold)],
            vec![t("  │ ", Tone::Accent), t("⠹ ", Tone::Accent), t("memikirkan...", Tone::MutedItalic)],
        ]
    );
    app.append_chunk("ok");
    let got: Vec<Vec<(String, Tone)>> = chat_lines(&app).iter().map(texts).collect();
    assert_eq!(
        got,
        vec![
            vec![t("  ╭─ ", Tone::Accent), t("VOCA", Tone::AccentBold)],
            vec![t("  │ ", Tone::Accent), t("ok", Tone::Text)],
            vec![t("  │ ", Tone::Accent), t("⠹", Tone::Accent)],
        ]
    );
}

fn line(parts: &[&str]) -> ChatLine {
    ChatLine { spans: parts.iter().map(|p| StyledSpan { text: p.to_string(), tone: Tone::Plain }).collect() }
}

#[test]
fn wrapped_lines_count_rows() {
    let ls = vec![line(&["  │ ", "abcdef"]), line(&[""]), line(&["abcd"])];
    assert_eq!(compute_wrapped_lines(&ls, 4), 3 + 1 + 1);
    assert_eq!(compute_wrapped_lines(&ls, 0), 3);
    assert_eq!(compute_wrapped_lines(&ls, 100), 3);
    assert_eq!(compute_wrapped_lines(&vec![], 10), 0);
    assert_eq!(compute_wrapped_lines(&vec![line(&["é".repeat(9).as_str()])], 3), 3);
}

#[test]
fn wrapped_lines_count_is_not_cut() {
    let many: Vec<ChatLine> = (0..65536).map(|_| line(&["x"])).collect();
    assert_eq!(compute_wrapped_lines(&many, 0), 65536);
    assert_eq!(compute_wrapped_lines(&many, 80), 65536);
    let long = vec![line(&["y".repeat(70000).as_str()])];
    assert_eq!(compute_wrapped_lines(&long, 1), 70000);
}

#[test]
fn layout_chat_updates_scroll() {
    let mut app = new_app(false);
    for i in 0..10 {
        app.push_user(&format!("pesan {i}"));
    }
    let ls = layout_chat(&mut app, 42, 5);
    assert_eq!(ls.len(), 29);
    assert_eq!(app.total_lines, 29);
    assert_eq!(app.scroll_offset, 24);
    app.is_at_bottom = false;
    app.scroll_offset = 2;
    layout_chat(&mut app, 42, 5);
    assert_eq!(app.scroll_offset, 2);
    assert_eq!(scrollbar(&app, 5), Some((24, 2)));
    assert_eq!(scrollbar(&app, 40), None);
}

#[test]
fn header_and_rule() {
    let app = new_app(true);
    let l = header_title_line(&app, 60).unwrap();
    let got = texts(&l);
    assert_eq!(got[0], t("  ◈ ", Tone::AccentBold));
    assert_eq!(got[3].0, " ".repeat(60 - 32 - 9 - 4));
    assert_eq!(got[4], t(" ◉ SUARA ", Tone::BadgeVoice));
    assert_eq!(got[5], t(" ID ", Tone::AccentBold));
    let narrow = header_title_line(&new_app(false), 10).unwrap();
    assert_eq!(texts(&narrow)[3].0, "");
    assert_eq!(texts(&narrow)[4], t(" ⌨  KETIK ", Tone::BadgeTyping));
    assert_eq!(texts(&header_rule(3)), vec![t("───", Tone::Accent)]);
}

#[test]
fn status_bar_content() {
    let app = new_app(false);
    let got = texts(&status_line(&app, 2));
    assert_eq!(
        got,
        vec![
            t(" Qwen · qwen-plus ", Tone::Muted),
            t("│", Tone::Border),
            t(" ⌨", Tone::Muted),
            t(" KETIK ", Tone::Muted),
            t("│", Tone::Border),
            t(" /model  ·  /lan  ·  /exit ", Tone::Muted),
            t("  ", Tone::Plain),
        ]
    );
    let app = new_app(true);
    let got = texts(&status_line(&app, 0));
    assert_eq!(got[2], t(" ◉", Tone::AccentBold));
    assert_eq!(got[5].0, " Enter bicara  ·  /model  ·  /lan  ·  /exit ");
}

#[test]
fn input_area_by_mode() {
    let mut app = new_app(true);
    app.has_voice_bridge = true;
    let v = input_view(&app, "");
    assert!(!v.show_cursor);
    assert_eq!(texts(&v.line)[1], t("Enter = bicara", Tone::Accent));
    let v = input_view(&app, "ab");
    assert!(v.show_cursor);
    assert_eq!(texts(&v.line), vec![t("  › ", Tone::AccentBold), t("ab", Tone::Text)]);
    app.voice_text_mode = true;
    let v = input_view(&app, "");
    assert_eq!(texts(&v.line)[1], t("ketik pesan… (Esc = kembali mic)", Tone::MutedItalic));
    app.input_mode = InputMode::Processing;
    app.spinner_frame = 1;
    let v = input_view(&app, "");
    assert_eq!(texts(&v.line), vec![t("  ", Tone::Plain), t("⠙ ", Tone::Muted), t("memikirkan…", Tone::MutedItalic)]);
    app.input_mode = InputMode::Confirming("lanjut?".into());
    let v = input_view(&app, "");
    assert!(v.warning_border);
    assert_eq!(texts(&v.line)[1], t("lanjut?", Tone::Text));
    app.input_mode = InputMode::Listening;
    let v = input_view(&app, "");
    assert_eq!(texts(&v.line)[2], t("mendengarkan suara Anda…", Tone::AccentItalic));
    app.input_mode = InputMode::Menu;
    let v = input_view(&app, "");
    assert_eq!(texts(&v.line), vec![t("  ↑/↓ pilih  ·  Enter konfirmasi  ·  q batal", Tone::MutedItalic)]);
}

#[test]
fn centered_rect_in_area() {
    let area = Area { x: 0, y: 0, width: 80, height: 24 };
    assert_eq!(centered_rect(40, 10, area), Area { x: 20, y: 7, width: 40, height: 10 });
    assert_eq!(centered_rect(100, 30, area), Area { x: 0, y: 0, width: 80, height: 24 });
    let far = Area { x: 65530, y: 1, width: 4, height: 2 };
    assert_eq!(centered_rect(10, 1, far), Area { x: 65530, y: 1, width: 4, height: 1 });
}

#[test]
fn menu_popup_layout() {
    let menu = MenuState {
        title: "PILIH BAHASA".into(),
        items: vec!["Indonesia ←".into(), "English".into()],
        selected: 1,
        kind: MenuKind::Language,
    };
    let p = menu_popup(&menu, Area { x: 0, y: 0, width: 80, height: 24 });
    assert_eq!(p.area, Area { x: 23, y: 9, width: 34, height: 6 });
    assert_eq!(texts(&p.title)[1], t("PILIH BAHASA", Tone::MenuTitle));
    let got: Vec<Vec<(String, Tone)>> = p.lines.iter().map(texts).collect();
    assert_eq!(
        got,
        vec![
            vec![t("   ", Tone::Plain), t("Indonesia ←", Tone::MenuItem)],
            vec![t(" ❯ ", Tone::MenuSelectedMarker), t("English", Tone::MenuSelected)],
            vec![t("", Tone::Plain)],
            vec![t(" ↑/↓ pilih  ·  Enter ok  ·  q batal", Tone::MenuHint)],
        ]
    );
    let small = menu_popup(&menu, Area { x: 0, y: 0, width: 20, height: 3 });
    assert_eq!(small.area, Area { x: 0, y: 0, width: 20, height: 3 });
}

#[test]
fn popup_fits_edges() {
    let menu = MenuState {
        title: "PILIH BAHASA".into(),
        items: vec!["Indonesia ←".into(), "English".into()],
        selected: 0,
        kind: MenuKind::Language,
    };
    assert!(popup_fits(&menu, Area { x: 0, y: 0, width: 80, height: 24 }));
    assert!(popup_fits(&menu, Area { x: 65535 - 23, y: 0, width: 80, height: 24 }));
    assert!(!popup_fits(&menu, Area { x: 65535 - 22, y: 0, width: 80, height: 24 }));
    assert!(popup_fits(&menu, Area { x: 0, y: 65535, width: 80, height: 2 }));
    assert!(popup_fits(&menu, Area { x: 0, y: 65535 - 9, width: 80, height: 24 }));
    assert!(!popup_fits(&menu, Area { x: 0, y: 65535 - 8, width: 80, height: 24 }));
    let wide = MenuState {
        title: "x".repeat(65530),
        items: vec!["a".into()],
        selected: 0,
        kind: MenuKind::Model,
    };
    assert!(!popup_fits(&wide, Area { x: 0, y: 0, width: 80, height: 24 }));
}

#[test]
fn input_cursor_after_prompt_under_border() {
    assert_eq!(input_cursor(Area { x: 0, y: 20, width: 80, height: 3 }, 5), Some((9, 21)));
    assert_eq!(input_cursor(Area { x: 2, y: 0, width: 80, height: 0 }, 0), Some((6, 0)));
    assert_eq!(input_cursor(Area { x: 0, y: 65535, width: 80, height: 3 }, 1), Some((5, 65535)));
    assert_eq!(input_cursor(Area { x: 0, y: 0, width: 80, height: 3 }, 65536 + 7), Some((11, 1)));
    assert_eq!(input_cursor(Area { x: 65530, y: 0, width: 5, height: 3 }, 1), Some((65535, 1)));
    assert_eq!(input_cursor(Area { x: 65530, y: 0, width: 5, height: 3 }, 2), None);
}
