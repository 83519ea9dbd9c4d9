use taurin::history::{format_preview, format_time_ago, kept_after_delete, shows_badge, HistoryPanel, PreviewInput, PreviewValue};

#[test]
fn previews_of_inputs() {
    let input = PreviewInput::Object(vec![
        ("input".to_string(), PreviewValue::Text("hello".to_string())),
        ("n".to_string(), PreviewValue::Json("42".to_string())),
        ("long".to_string(), PreviewValue::Text("x".repeat(45))),
        ("fourth".to_string(), PreviewValue::Text("hidden".to_string())),
    ]);
    assert_eq!(format_preview(&input), format!("input: hello | n: 42 | long: {}...", "x".repeat(40)));
    assert_eq!(format_preview(&PreviewInput::Object(vec![])), "");
    assert_eq!(format_preview(&PreviewInput::Other("[1,2]".to_string())), "[1,2]");
    assert_eq!(format_preview(&PreviewInput::Other("9".repeat(81))), format!("{}...", "9".repeat(80)));
}

#[test]
fn times() {
    assert_eq!(format_time_ago("2024-03-05T10:20:30Z"), "2024-03-05 10:20");
    assert_eq!(format_time_ago("2024-03-05T10"), "2024-03-05T10");
}

#[test]
fn panel() {
    let mut p = HistoryPanel::new();
    assert!(p.toggle());
    assert!(!p.toggle());
    assert_eq!(p.on_search(String::new()), None);
    assert_eq!(p.on_search("abc".to_string()), Some("abc".to_string()));
    let ids = vec!["a".to_string(), "b".to_string(), "a".to_string()];
    assert_eq!(kept_after_delete(&ids, "a"), vec![1]);
    assert_eq!(kept_after_delete(&ids, "z"), vec![0, 1, 2]);
    assert!(shows_badge(1) && !shows_badge(0));
}
