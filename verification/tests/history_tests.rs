use voca::history::trim_history;
use voca::model::Message;

fn msgs(roles: &[&str]) -> Vec<Message> {
    roles
        .iter()
        .enumerate()
        .map(|(i, r)| Message::new(r, &format!("m{i}")))
        .collect()
}

fn shape(ms: &[Message]) -> Vec<(String, String)> {
    ms.iter().map(|m| (m.role.clone(), m.content.clone())).collect()
}

#[test]
fn trim_history_keeps_short_history() {
    let mut m = msgs(&["system", "user", "assistant"]);
    let before = shape(&m);
    trim_history(&mut m, 2);
    assert_eq!(shape(&m), before);
}

#[test]
fn trim_history_drops_oldest_and_starts_at_user() {
    let mut m = msgs(&["system", "user", "assistant", "tool", "user", "assistant"]);
    trim_history(&mut m, 3);
    assert_eq!(
        shape(&m),
        vec![
            ("system".to_string(), "m0".to_string()),
            ("user".to_string(), "m4".to_string()),
            ("assistant".to_string(), "m5".to_string()),
        ]
    );
}

#[test]
fn trim_history_may_drop_everything_after_prompt() {
    let mut m = msgs(&["system", "user", "assistant", "assistant"]);
    trim_history(&mut m, 1);
    assert_eq!(shape(&m), vec![("system".to_string(), "m0".to_string())]);
}

#[test]
fn trim_history_on_empty_and_zero_max() {
    let mut e: Vec<Message> = Vec::new();
    trim_history(&mut e, 0);
    assert!(e.is_empty());
    let mut m = msgs(&["system", "user", "assistant"]);
    trim_history(&mut m, 0);
    assert_eq!(shape(&m), vec![("system".to_string(), "m0".to_string())]);
}

#[test]
fn trim_history_twice_is_trim_once() {
    let mut a = msgs(&["system", "user", "assistant", "user", "tool", "assistant", "user", "assistant"]);
    trim_history(&mut a, 4);
    let once = shape(&a);
    trim_history(&mut a, 4);
    assert_eq!(shape(&a), once);
    assert!(a.len() <= 5);
    assert_eq!(a[1].role, "user");
}
