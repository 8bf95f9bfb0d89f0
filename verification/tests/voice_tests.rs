use voca::voice::{find_voca_root, listen_request, speak_request, transcript, voca_root_candidates};

#[test]
fn requests_are_json_lines() {
    assert_eq!(speak_request("halo \"dunia\"", "id"), r#"{"cmd":"speak","lang":"id","text":"halo \"dunia\""}"#);
    assert_eq!(listen_request("en"), r#"{"cmd":"listen","lang":"en"}"#);
    let v: serde_json::Value = serde_json::from_str(&speak_request("a\nb", "en")).unwrap();
    assert_eq!(v["text"], "a\nb");
}

#[test]
fn transcript_reads_text_member() {
    assert_eq!(transcript(Some("  {\"text\": \"buka file\"}\n".into())), "buka file");
    assert_eq!(transcript(Some("{\"ok\": true}".into())), "");
    assert_eq!(transcript(Some("{\"text\": 3}".into())), "");
    assert_eq!(transcript(Some("bukan json".into())), "");
    assert_eq!(transcript(None), "");
}

#[test]
fn candidates_walk_up_five_levels() {
    assert_eq!(
        voca_root_candidates("/a/b/c/d/e/f"),
        vec!["/a/b/c/d/e/f", "/a/b/c/d/e", "/a/b/c/d", "/a/b/c", "/a/b"]
    );
    assert_eq!(voca_root_candidates("/a"), vec!["/a", "/"]);
    assert_eq!(voca_root_candidates("/"), vec!["/"]);
    assert_eq!(voca_root_candidates("rel/dir"), vec!["rel/dir", "rel", ""]);
}

#[test]
fn root_is_nearest_flagged_dir() {
    assert_eq!(find_voca_root("/a/b", &vec![false, true, true]), Some("/a".to_string()));
    assert_eq!(find_voca_root("/a/b", &vec![true]), Some("/a/b".to_string()));
    assert_eq!(find_voca_root("/a/b", &vec![false, false, false]), None);
    assert_eq!(find_voca_root("/a/b", &vec![]), None);
    assert_eq!(find_voca_root("/", &vec![false, true]), None);
}
