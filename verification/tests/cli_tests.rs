use voca::app::App;
use voca::cli::{announce_voice_status, initial_provider_index, parse_args};
use voca::model::{BubbleRole, Limits, Provider, VoiceOpts};

fn args(a: &[&str]) -> Vec<String> {
    a.iter().map(|s| s.to_string()).collect()
}

#[test]
fn defaults_are_voice_and_indonesian() {
    let o = parse_args(&args(&["voca"]));
    assert!(!o.show_version);
    assert!(o.listen && o.speak);
    assert_eq!(o.lang, "id");
    assert_eq!(o.initial_text, None);
}

#[test]
fn flags_in_order() {
    let o = parse_args(&args(&["voca", "--no-voice", "--speak", "--lang", "en", "-t", "halo", "--zzz"]));
    assert!(!o.listen);
    assert!(o.speak);
    assert_eq!(o.lang, "en");
    assert_eq!(o.initial_text.as_deref(), Some("halo"));
    let o = parse_args(&args(&["voca", "--text-only", "--listen", "--lang"]));
    assert!(o.listen && !o.speak);
    assert_eq!(o.lang, "id");
    let o = parse_args(&args(&["voca", "--no-voice", "--voice", "--text", "a", "--say"]));
    assert!(o.listen && o.speak);
    assert_eq!(o.initial_text.as_deref(), Some("a"));
}

#[test]
fn version_flag_first_only() {
    assert!(parse_args(&args(&["voca", "--version"])).show_version);
    assert!(parse_args(&args(&["voca", "-v"])).show_version);
    assert!(!parse_args(&args(&["voca", "--lang", "-v"])).show_version);
}

fn provider(code: &str) -> Provider {
    Provider { code: code.into(), name: code.into(), model: "m".into(), api_key: None }
}

#[test]
fn initial_provider_falls_back_to_first() {
    let ps = vec![provider("qwen"), provider("openai")];
    assert_eq!(initial_provider_index(&ps, "openai"), 1);
    assert_eq!(initial_provider_index(&ps, "nope"), 0);
}

#[test]
fn voice_status_messages() {
    let mut app = App::new(provider("qwen"), vec![provider("qwen")], VoiceOpts { speak: true, listen: true, lang: "id".into() }, Limits { max_history: 3 });
    announce_voice_status(&mut app);
    assert!(!app.voice.listen && !app.voice.speak);
    assert_eq!(app.messages[0].role, BubbleRole::System);
    assert_eq!(
        app.messages[0].content,
        "⌨  Sidecar suara tidak tersedia — lanjut mode teks.\n·  Jalankan dulu: python3 -m voca.voice_server"
    );
    let mut app = App::new(provider("qwen"), vec![provider("qwen")], VoiceOpts { speak: true, listen: false, lang: "id".into() }, Limits { max_history: 3 });
    app.has_voice_bridge = true;
    announce_voice_status(&mut app);
    assert!(app.voice.speak);
    assert_eq!(app.messages[0].content, "◉ Sidecar suara siap. Tekan Enter kosong untuk mulai bicara.");
    let mut app = App::new(provider("qwen"), vec![provider("qwen")], VoiceOpts { speak: false, listen: false, lang: "id".into() }, Limits { max_history: 3 });
    announce_voice_status(&mut app);
    assert!(app.messages.is_empty());
}

#[test]
fn key_variables_are_named_from_the_code() {
    assert_eq!(voca::cli::key_var("qwen"), "DASHSCOPE_API_KEY");
    assert_eq!(voca::cli::key_var("openai"), "OPENAI_API_KEY");
    assert_eq!(voca::cli::key_var("deepseek"), "DEEPSEEK_API_KEY");
}
