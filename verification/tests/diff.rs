use taurin::diff::{
    changed_lines, file_name_suffix, line_count_text, line_number_text, new_column_class,
    old_column_class, side_by_side_columns, stats_texts, unified_line_style, DiffMode, DiffResult,
    DiffState, DiffStats, DiffViewMode, LineDiff,
};

fn line(tag: &str, old: Option<usize>, new: Option<usize>) -> LineDiff {
    LineDiff { line_number_old: old, line_number_new: new, tag: tag.to_string(), content: "c".to_string() }
}

#[test]
fn layouts() {
    let ls = vec![
        line("equal", Some(1), Some(1)),
        line("delete", Some(2), None),
        line("insert", None, Some(2)),
        line("equal", Some(3), Some(3)),
    ];
    let (left, right) = side_by_side_columns(&ls);
    assert_eq!(left, vec![0, 1, 3]);
    assert_eq!(right, vec![0, 2, 3]);
    assert_eq!(changed_lines(&ls), vec![1, 2]);
    assert_eq!(unified_line_style("delete"), ("diff-line delete", "-"));
    assert_eq!(unified_line_style("insert"), ("diff-line insert", "+"));
    assert_eq!(unified_line_style("equal"), ("diff-line equal", " "));
    assert_eq!(old_column_class("delete"), "diff-line delete");
    assert_eq!(old_column_class("insert"), "diff-line equal");
    assert_eq!(new_column_class("insert"), "diff-line insert");
    assert_eq!(line_number_text(Some(12)), "12");
    assert_eq!(line_number_text(None), "");
}

#[test]
fn texts() {
    let s = DiffStats { additions: 3, deletions: 1, modifications: 0, unchanged: 5, total_lines_old: 6, total_lines_new: 8 };
    assert_eq!(stats_texts(s), ("+3".to_string(), "-1".to_string(), "6 -> 8".to_string()));
    assert_eq!(line_count_text("a\nb\n"), "2 lines");
    assert_eq!(line_count_text(""), "0 lines");
    assert_eq!(file_name_suffix("a.txt"), " (a.txt)");
    assert_eq!(DiffMode::Character.label(), "Character");
    assert_eq!(DiffViewMode::DiffOnly.icon(), "+-");
}

#[test]
fn dropped_files_fill_the_panes() {
    let mut s = DiffState::new();
    s.on_file("a.txt".to_string(), "A".to_string());
    assert_eq!((s.old_text.as_str(), s.new_text.as_str()), ("A", ""));
    s.on_file("b.txt".to_string(), "B".to_string());
    assert_eq!((s.old_text.as_str(), s.new_text.as_str()), ("A", "B"));
    s.on_file("c.txt".to_string(), "C".to_string());
    assert_eq!((s.old_text.as_str(), s.new_text.as_str()), ("B", "C"));
    assert_eq!(s.old_file_name, Some("b.txt".to_string()));
    s.swap();
    assert_eq!((s.old_text.as_str(), s.new_text.as_str()), ("C", "B"));
    s.swap();
    assert_eq!((s.old_text.as_str(), s.new_text.as_str()), ("B", "C"));
    s.on_file_error();
    assert_eq!(s.error_message, Some("Failed to load file".to_string()));
}

#[test]
fn comparing() {
    let mut s = DiffState::new();
    assert!(s.compare_disabled());
    assert!(s.compare().is_none());
    s.new_text = "x".to_string();
    let q = s.compare().unwrap();
    assert_eq!(q.new_text, "x");
    assert!(s.compare_disabled());
    s.on_result(None);
    assert_eq!(s.error_message, Some("Failed to compute diff".to_string()));
    assert!(!s.is_comparing);
    s.on_result(Some(DiffResult {
        success: true,
        lines: vec![],
        stats: DiffStats { additions: 0, deletions: 0, modifications: 0, unchanged: 0, total_lines_old: 0, total_lines_new: 0 },
        unified_diff: "@@".to_string(),
        error: None,
    }));
    assert_eq!(s.unified_text(), Some("@@".to_string()));
    s.clear();
    assert!(s.diff_result.is_none() && s.old_text.is_empty());
}
