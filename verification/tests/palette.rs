use taurin::palette::{
    filter_tools, fuzzy_match, is_palette_shortcut, on_palette_key, palette_key, score_match,
    PaletteAction, PaletteKey, ToolItem,
};
use taurin::tools::{all_tabs, tool_item, Category, Tab};

fn item(id: &str, name: &str, desc: &str, cat: &str, kw: &[&str]) -> ToolItem {
    ToolItem {
        id: id.to_string(),
        name: name.to_string(),
        description: desc.to_string(),
        category: cat.to_string(),
        icon: "i".to_string(),
        keywords: kw.iter().map(|k| k.to_string()).collect(),
    }
}

#[test]
fn fuzzy_matching() {
    assert!(fuzzy_match(&String::new(), &"anything".to_string()));
    assert!(fuzzy_match(&"JSON".to_string(), &"json formatter".to_string()));
    assert!(fuzzy_match(&"jfm".to_string(), &"JSON Formatter".to_string()));
    assert!(!fuzzy_match(&"xyz".to_string(), &"json".to_string()));
}

#[test]
fn scores() {
    let t = item("json-formatter", "JSON Formatter", "Format and validate", "Documents", &["pretty", "lint"]);
    assert_eq!(score_match(&String::new(), &t), 0);
    assert_eq!(score_match(&"json formatter".to_string(), &t), 100);
    assert_eq!(score_match(&"json".to_string(), &t), 90);
    assert_eq!(score_match(&"format".to_string(), &t), 80);
    assert_eq!(score_match(&"json-f".to_string(), &t), 70);
    assert_eq!(score_match(&"pret".to_string(), &t), 60);
    assert_eq!(score_match(&"validate".to_string(), &t), 50);
    assert_eq!(score_match(&"docu".to_string(), &t), 40);
    assert_eq!(score_match(&"jfr".to_string(), &t), 30);
    assert_eq!(score_match(&"lnt".to_string(), &t), 20);
    assert_eq!(score_match(&"zzz".to_string(), &t), -1);
}

#[test]
fn filtering_orders_by_score() {
    let tools = vec![
        item("a", "Alpha", "", "", &["beta"]),
        item("b", "Beta", "", "", &[]),
        item("c", "Gamma", "", "", &[]),
    ];
    let r: Vec<String> = filter_tools(&"beta".to_string(), &tools).into_iter().map(|t| t.id).collect();
    assert_eq!(r, vec!["b", "a"]);
    assert_eq!(filter_tools(&String::new(), &tools).len(), 3);
}

#[test]
fn keys() {
    assert_eq!(palette_key("ArrowDown"), PaletteKey::ArrowDown);
    assert_eq!(palette_key("x"), PaletteKey::Other);
    let tools = vec![item("a", "A", "", "", &[]), item("b", "B", "", "", &[])];
    assert_eq!(on_palette_key(1, &tools, PaletteKey::ArrowDown).0, 0);
    assert_eq!(on_palette_key(0, &tools, PaletteKey::ArrowUp).0, 1);
    let (s, a, prevent) = on_palette_key(1, &tools, PaletteKey::Enter);
    assert_eq!(s, 1);
    assert!(prevent);
    assert!(matches!(a, PaletteAction::Select(ref id) if id == "b"));
    assert!(matches!(on_palette_key(0, &tools, PaletteKey::Escape).1, PaletteAction::Close));
    assert!(!on_palette_key(0, &tools, PaletteKey::Other).2);
    for start in 0..2 {
        let down = on_palette_key(start, &tools, PaletteKey::ArrowDown).0;
        assert_eq!(on_palette_key(down, &tools, PaletteKey::ArrowUp).0, start);
    }
    assert!(is_palette_shortcut(true, false, "k"));
    assert!(!is_palette_shortcut(true, false, "K"));
}

#[test]
fn tools_and_categories() {
    let tabs = all_tabs();
    assert_eq!(tabs.len(), 17);
    for t in tabs.iter() {
        assert_eq!(Tab::from_id(t.id()), Some(*t));
    }
    assert_eq!(Tab::from_id("nope"), None);
    assert_eq!(Category::of(Tab::RegexTester), Category::Generators);
    assert!(Category::Media.tabs().contains(&Tab::ImageEditor));
    let total: usize = Category::all().iter().map(|c| c.tabs().len()).sum();
    assert_eq!(total, 17);
    let it = tool_item(Tab::JsonFormatter, "JSON".to_string(), "d".to_string(), "c".to_string());
    assert_eq!(it.id, "json_formatter");
    assert_eq!(it.keywords, Tab::JsonFormatter.keywords());
}

#[test]
fn every_tool_has_distinct_keywords() {
    for t in all_tabs() {
        let k = t.keywords();
        assert!(k.len() >= 5);
        for (i, w) in k.iter().enumerate() {
            assert!(!w.is_empty());
            assert_eq!(w, &w.to_lowercase());
            assert!(!k[i + 1..].contains(w));
        }
    }
    assert_eq!(Tab::JsonFormatter.keywords(), vec!["json", "format", "validate", "tree", "整形", "フォーマット"]);
}
