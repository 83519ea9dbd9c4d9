use taurin::json::{
    error_position_text, matches_found_text, more_results_text, shown_match_count, visible_rows,
    CollapsedPaths, ErrorPosition, FormatterState, JsonSearchResult, JsonTreeNode, JsonValueType,
    JsonValidateResult,
};

fn node(key: &str, path: &str, t: JsonValueType, value: Option<&str>, children: Vec<JsonTreeNode>) -> JsonTreeNode {
    JsonTreeNode {
        key: key.to_string(),
        value_type: t,
        value: value.map(|v| v.to_string()),
        path: path.to_string(),
        children,
        expanded: true,
    }
}

fn tree() -> JsonTreeNode {
    node(
        "root",
        "$",
        JsonValueType::Object,
        None,
        vec![
            node("a", "$.a", JsonValueType::Number, Some("1"), vec![]),
            node(
                "b",
                "$.b",
                JsonValueType::Array,
                None,
                vec![node("0", "$.b[0]", JsonValueType::String, Some("\"x\""), vec![])],
            ),
        ],
    )
}

#[test]
fn tree_rows_follow_the_collapsed_nodes() {
    let mut c = CollapsedPaths::new();
    let rows = visible_rows(&tree(), &c);
    let keys: Vec<(String, usize)> = rows.iter().map(|r| (r.key.clone(), r.indent)).collect();
    assert_eq!(
        keys,
        vec![("root".to_string(), 0), ("a".to_string(), 20), ("b".to_string(), 20), ("0".to_string(), 40)]
    );
    assert_eq!(rows[1].value_class, "json-number");
    assert_eq!(rows[1].value, "1");
    assert_eq!(rows[0].value, "");
    assert!(rows[0].has_children && !rows[1].has_children);
    c.toggle("$.b");
    assert!(c.contains("$.b"));
    let rows = visible_rows(&tree(), &c);
    assert_eq!(rows.len(), 3);
    assert!(rows[2].collapsed);
    c.toggle("$");
    assert_eq!(visible_rows(&tree(), &c).len(), 1);
    c.toggle("$");
    c.toggle("$.b");
    assert!(!c.contains("$.b"));
    assert_eq!(visible_rows(&tree(), &c).len(), 4);
}

#[test]
fn search_result_lines() {
    assert_eq!(matches_found_text(3), "3 matches found");
    assert_eq!(more_results_text(20), None);
    assert_eq!(more_results_text(25), Some("... and 5 more".to_string()));
    let r = JsonSearchResult { success: true, matches: vec![], total_count: 0, error: None };
    assert_eq!(shown_match_count(&r), 0);
    assert_eq!(error_position_text(ErrorPosition { line: 3, column: 14 }), " (Line 3, Column 14)");
}

#[test]
fn formatter_actions() {
    let mut s = FormatterState::new();
    assert_eq!(s.indent_size, 2);
    assert!(s.start_work().is_none());
    assert!(s.on_input("{\"a\":1}".to_string()));
    assert!(s.on_validated(JsonValidateResult { valid: true, error: None, error_position: None }));
    assert_eq!(s.start_work(), Some("{\"a\":1}".to_string()));
    assert!(s.is_processing);
    s.on_output(true, "{\n  \"a\": 1\n}".to_string());
    assert!(!s.is_processing);
    assert_eq!(s.copy_text(), Some("{\n  \"a\": 1\n}".to_string()));
    s.on_indent("4");
    assert_eq!(s.indent_size, 4);
    s.on_indent("tab");
    assert_eq!(s.indent_size, 4);
    assert!(s.search_request().is_none());
    s.search_query = "a".to_string();
    let q = s.search_request().unwrap();
    assert_eq!(q.query, "a");
    assert!(!s.on_input(String::new()));
    assert!(s.output.is_empty() && s.validation.is_none());
    s.clear();
    assert!(s.input.is_empty() && s.search_query.is_empty());
    assert_eq!(JsonValueType::Null.class(), "json-null");
}

#[test]
fn a_cloned_tree_is_the_same_tree() {
    let t = tree();
    let c = t.clone();
    let none = CollapsedPaths::new();
    let keys = |n: &JsonTreeNode| visible_rows(n, &none).into_iter().map(|r| (r.key, r.path, r.value, r.indent)).collect::<Vec<_>>();
    assert_eq!(keys(&c), keys(&t));
    assert_eq!(c.children.len(), t.children.len());
    assert_eq!(c.children[1].children.len(), t.children[1].children.len());
}

#[test]
fn an_invalid_reply_keeps_output_and_tree() {
    let mut s = FormatterState::new();
    assert!(s.on_input("[1]".to_string()));
    assert!(s.on_validated(JsonValidateResult { valid: true, error: None, error_position: None }));
    s.on_formatted(true, "[\n  1\n]".to_string());
    s.on_tree(true, Some(tree()));
    assert!(s.on_input("[1".to_string()));
    let bad = JsonValidateResult { valid: false, error: Some("EOF".to_string()), error_position: None };
    assert!(!s.on_validated(bad));
    assert_eq!(s.output, "[\n  1\n]");
    assert!(s.tree.is_some());
    assert_eq!(s.validation.as_ref().map(|v| v.valid), Some(false));
    s.on_formatted(false, "ignored".to_string());
    assert_eq!(s.output, "[\n  1\n]");
}
