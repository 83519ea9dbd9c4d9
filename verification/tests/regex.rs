use taurin::regex::{
    color_slot, count_groups, export_text, filter_presets, get_presets, group_label_of,
    highlight_segments, GroupInfo, MatchInfo, PresetCategory, RegexFlags, RegexResult,
    ReplaceResult, Segment, TesterState,
};

fn m(full: &str, start: usize, end: usize, groups: Vec<GroupInfo>) -> MatchInfo {
    MatchInfo { full_match: full.to_string(), start, end, groups }
}

#[test]
fn default_flags_and_letters() {
    let f = RegexFlags::default();
    assert!(f.global && !f.case_insensitive && !f.multiline && !f.dot_all);
    assert_eq!(f.letters(), "g");
    let all = RegexFlags { global: true, case_insensitive: true, multiline: true, dot_all: true };
    assert_eq!(all.letters(), "gims");
}

#[test]
fn toggling_a_flag_twice_restores_it() {
    for letter in ['g', 'i', 'm', 's', 'x'] {
        let mut f = RegexFlags::default();
        f.toggle(letter);
        f.toggle(letter);
        assert_eq!(f, RegexFlags::default());
    }
    let mut f = RegexFlags::default();
    f.toggle('i');
    assert_eq!(f.letters(), "gi");
}

#[test]
fn presets_by_category() {
    let presets = get_presets();
    assert_eq!(presets.len(), 13);
    assert_eq!(presets[0].name, "Email");
    assert_eq!(filter_presets(&presets, None).len(), 13);
    let web: Vec<&str> = filter_presets(&presets, Some(PresetCategory::Web)).iter().map(|p| p.name).collect();
    assert_eq!(web, vec!["URL", "IPv4", "HTML Tag"]);
    assert_eq!(filter_presets(&presets, Some(PresetCategory::DateTime)).len(), 2);
    assert_eq!(PresetCategory::Web.translation_key(), "regex_tester.category_web");
}

#[test]
fn highlighted_pieces() {
    assert_eq!(highlight_segments(5, &vec![]), vec![Segment { start: 0, end: 5, match_index: None }]);
    let ms = vec![m("b", 1, 2, vec![]), m("cd", 2, 4, vec![])];
    assert_eq!(
        highlight_segments(6, &ms),
        vec![
            Segment { start: 0, end: 1, match_index: None },
            Segment { start: 1, end: 2, match_index: Some(0) },
            Segment { start: 2, end: 4, match_index: Some(1) },
            Segment { start: 4, end: 6, match_index: None },
        ]
    );
    let at_end = vec![m("ab", 0, 2, vec![])];
    assert_eq!(highlight_segments(2, &at_end), vec![Segment { start: 0, end: 2, match_index: Some(0) }]);
    assert_eq!(color_slot(5), 1);
}

#[test]
fn exported_report() {
    let g1 = GroupInfo { index: 1, name: None, value: "2024".to_string(), start: 0, end: 4 };
    let g2 = GroupInfo { index: 2, name: Some("month".to_string()), value: "0\"1".to_string(), start: 5, end: 7 };
    assert_eq!(group_label_of(&g1), "$1");
    assert_eq!(group_label_of(&g2), "month");
    let result = RegexResult {
        success: true,
        matches: vec![m("2024-01", 0, 7, vec![g1, g2]), m("x", 8, 9, vec![])],
        match_count: 2,
        error: None,
    };
    assert_eq!(count_groups(&result.matches), 2);
    let flags = RegexFlags { global: true, case_insensitive: true, multiline: false, dot_all: false };
    assert_eq!(
        export_text("(\\d+)-(?<month>\\d+)", flags, &result),
        "Pattern: /(\\d+)-(?<month>\\d+)/gi\nMatches: 2\n\nMatch #1: \"2024-01\" (0..7)\n  Groups: $1=\"2024\", month=\"0\\\"1\"\nMatch #2: \"x\" (8..9)"
    );
    let empty = RegexResult { success: true, matches: vec![], match_count: 0, error: None };
    assert_eq!(export_text("a", RegexFlags::default(), &empty), "Pattern: /a/g\nMatches: 0\n\n");
}

#[test]
fn answers_of_the_backend() {
    let mut s = TesterState::new();
    assert!(!s.on_pattern(""));
    assert!(s.on_pattern("a+"));
    s.on_test_result(RegexResult { success: false, matches: vec![], match_count: 0, error: Some("bad".to_string()) });
    assert!(s.result.is_none());
    assert_eq!(s.error_message, Some("bad".to_string()));
    s.on_test_result(RegexResult { success: true, matches: vec![], match_count: 0, error: None });
    assert!(s.result.is_some() && s.error_message.is_none());
    s.on_replace_result(None);
    assert_eq!(s.error_message, Some("Failed to replace".to_string()));
    s.on_replace_result(Some(ReplaceResult { success: true, result: "x".to_string(), replacements: 1, error: None }));
    assert!(s.replace_result.is_some() && s.error_message.is_none());
    s.on_test_failure("Failed to parse result: e".to_string());
    assert!(s.result.is_none());
    s.clear();
    assert!(s.result.is_none() && s.replace_result.is_none() && s.error_message.is_none());
}
