use taurin::clipboard::{
    content_of, entry_to_add, format_time, history_query, is_copied, section_entries,
    truncate_content, with_exclude_passwords, with_max_entries, ClipboardEntry, ClipboardSettings,
    ContentType, HistoryQuery,
};

fn entry(id: &str, content: &str, pinned: bool) -> ClipboardEntry {
    ClipboardEntry {
        id: id.to_string(),
        content: content.to_string(),
        content_type: ContentType::Text,
        pinned,
        created_at: "2024-03-05T10:20:30Z".to_string(),
        copied_count: 0,
    }
}

#[test]
fn default_settings() {
    let s = ClipboardSettings::default();
    assert_eq!(s.max_entries, 100);
    assert!(s.exclude_passwords);
    assert!(s.exclude_patterns.is_empty());
}

#[test]
fn entry_limit_is_clamped() {
    let s = ClipboardSettings::default();
    assert_eq!(with_max_entries(&s, "5").unwrap().max_entries, 10);
    assert_eq!(with_max_entries(&s, "5000").unwrap().max_entries, 1000);
    assert_eq!(with_max_entries(&s, "250").unwrap().max_entries, 250);
    assert!(with_max_entries(&s, "abc").is_none());
    assert!(!with_exclude_passwords(&s, false).exclude_passwords);
}

#[test]
fn time_shows_the_date() {
    assert_eq!(format_time("2024-03-05T10:20:30Z"), "2024-03-05");
    assert_eq!(format_time("2024"), "2024");
    assert_eq!(format_time("2024-03-05"), "2024-03-05");
}

#[test]
fn long_content_is_cut() {
    assert_eq!(truncate_content("hello", 10), "hello");
    assert_eq!(truncate_content("hello world", 5), "hello...");
    assert_eq!(truncate_content(&"a".repeat(200), 200), "a".repeat(200));
    assert_eq!(truncate_content("日本語テキスト", 6), "日本...");
}

#[test]
fn pinned_and_recent_sections() {
    let es = vec![entry("1", "a", true), entry("2", "b", false), entry("3", "c", true)];
    let pinned: Vec<String> = section_entries(&es, true).into_iter().map(|e| e.id).collect();
    let recent: Vec<String> = section_entries(&es, false).into_iter().map(|e| e.id).collect();
    assert_eq!(pinned, vec!["1", "3"]);
    assert_eq!(recent, vec!["2"]);
}

#[test]
fn copying_and_adding() {
    let es = vec![entry("1", "first", false), entry("2", "second", false)];
    assert_eq!(content_of(&es, "2"), Some("second".to_string()));
    assert_eq!(content_of(&es, "9"), None);
    assert!(is_copied(&Some("2".to_string()), "2"));
    assert!(!is_copied(&None, "2"));
    assert!(entry_to_add("").is_none());
    assert_eq!(entry_to_add("x"), Some("x".to_string()));
    assert!(matches!(history_query(""), HistoryQuery::LoadAll));
    assert!(matches!(history_query("q"), HistoryQuery::Search(ref s) if s == "q"));
    let code = ClipboardEntry { content_type: ContentType::Code, ..entry("c", "fn", false) };
    assert!(code.is_code());
}

#[test]
fn sections_hold_every_entry_once() {
    let es = vec![entry("1", "a", false), entry("2", "b", true), entry("3", "c", false), entry("4", "d", false)];
    let pinned = section_entries(&es, true);
    let recent = section_entries(&es, false);
    assert_eq!(pinned.len() + recent.len(), es.len());
    let mut all: Vec<String> = pinned.into_iter().chain(recent).map(|e| e.id).collect();
    all.sort();
    assert_eq!(all, vec!["1", "2", "3", "4"]);
}
