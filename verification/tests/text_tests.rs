use voca::text::{
    count_words, pad_right_str, split_lines, str_eq, strip_prefix, trim_start_matches_char,
    trim_str,
};

#[test]
fn trim_removes_unicode_whitespace_at_both_ends() {
    assert_eq!(trim_str("  halo dunia \n\t"), "halo dunia");
    assert_eq!(trim_str("\u{a0}x\u{2003}"), "x");
    assert_eq!(trim_str("   "), "");
    assert_eq!(trim_str(""), "");
    assert_eq!(trim_str("a b"), "a b");
}

#[test]
fn count_words_counts_whitespace_separated_runs() {
    assert_eq!(count_words(""), 0);
    assert_eq!(count_words("   "), 0);
    assert_eq!(count_words("open ai"), 2);
    assert_eq!(count_words("  a  b\tc\nd "), 4);
    assert_eq!(count_words("satu"), 1);
}

#[test]
fn split_lines_follows_str_lines() {
    let cases = ["", "a", "a\n", "a\nb", "a\r\nb\r\n", "\n", "\n\n", "a\r", "a\n\rb", "x\r\n\r\ny"];
    for c in cases {
        let expected: Vec<String> = c.lines().map(|l| l.to_string()).collect();
        assert_eq!(split_lines(c), expected, "input {:?}", c);
    }
}

#[test]
fn strip_prefix_returns_the_rest() {
    assert_eq!(strip_prefix("/model qwen", "/model"), Some(" qwen".to_string()));
    assert_eq!(strip_prefix("/mod", "/model"), None);
    assert_eq!(strip_prefix("/lang", "/lan"), Some("g".to_string()));
    assert_eq!(strip_prefix("❌ gagal", "❌"), Some(" gagal".to_string()));
    assert_eq!(strip_prefix("abc", ""), Some("abc".to_string()));
}

#[test]
fn pad_right_fills_to_width() {
    assert_eq!(pad_right_str("qwen", 11), "qwen       ");
    assert_eq!(pad_right_str("openrouter12", 11), "openrouter12");
    assert_eq!(pad_right_str("", 3), "   ");
    assert_eq!(format!("{:<11}", "deepseek"), pad_right_str("deepseek", 11));
}

#[test]
fn trim_start_matches_removes_leading_char() {
    assert_eq!(trim_start_matches_char("gg id", 'g'), " id");
    assert_eq!(trim_start_matches_char("id", 'g'), "id");
    assert_eq!(trim_start_matches_char("ggg", 'g'), "");
}

#[test]
fn str_eq_compares_characters() {
    assert!(str_eq("id", "id"));
    assert!(!str_eq("id", "en"));
    assert!(!str_eq("id", "id "));
}
