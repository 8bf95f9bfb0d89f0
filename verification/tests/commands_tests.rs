use voca::commands::detect_quick_command;

#[test]
fn quick_command_recognises_models() {
    assert_eq!(detect_quick_command("qwen"), Some(("model", "qwen")));
    assert_eq!(detect_quick_command("Kwen"), Some(("model", "qwen")));
    assert_eq!(detect_quick_command("  Open AI! "), Some(("model", "openai")));
    assert_eq!(detect_quick_command("ChatGPT."), Some(("model", "openai")));
    assert_eq!(detect_quick_command("open router"), Some(("model", "openrouter")));
    assert_eq!(detect_quick_command("Dipsik"), Some(("model", "deepseek")));
}

#[test]
fn quick_command_recognises_languages() {
    assert_eq!(detect_quick_command("Bahasa Inggris"), Some(("lan", "en")));
    assert_eq!(detect_quick_command("english"), Some(("lan", "en")));
    assert_eq!(detect_quick_command("Indonesia!"), Some(("lan", "id")));
    assert_eq!(detect_quick_command("bahasa indonesia"), Some(("lan", "id")));
}

#[test]
fn quick_command_rejects_other_text() {
    assert_eq!(detect_quick_command(""), None);
    assert_eq!(detect_quick_command("!!!"), None);
    assert_eq!(detect_quick_command("tolong buatkan script"), None);
    assert_eq!(detect_quick_command("pakai qwen saja ya dong"), None);
    assert_eq!(detect_quick_command("open  ai"), None);
}

#[test]
fn ascii_case_and_punctuation_do_not_matter() {
    assert_eq!(detect_quick_command("DEEP-SEEK?!"), detect_quick_command("deepseek"));
    assert_eq!(detect_quick_command("d.e.e.p s.e.e.k"), Some(("model", "deepseek")));
    assert_eq!(detect_quick_command("InDoNeSiA"), Some(("lan", "id")));
    assert_eq!(detect_quick_command("(gpt)"), detect_quick_command("GPT"));
    assert_eq!(detect_quick_command("open-ai"), Some(("model", "openai")));
    assert_eq!(detect_quick_command("halo, apa kabar?"), None);
}
