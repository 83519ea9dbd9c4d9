use taurin::shell::{language_button_active, language_choices, Shell};
use taurin::tools::{route_drop, DropTarget, Tab};

#[test]
fn drops_route_to_their_tools() {
    let mut s = Shell::new();
    assert_eq!(s.active_tab, Tab::ImageCompressor);
    s.on_drop(&vec!["/a/b.CSV".to_string(), "/x.png".to_string()]);
    assert_eq!(s.active_tab, Tab::CsvViewer);
    assert_eq!(s.dropped_csv, Some("/a/b.CSV".to_string()));
    s.on_file_processed(DropTarget::CsvViewer);
    assert_eq!(s.dropped_csv, None);
    s.select_tab(Tab::ImageEditor);
    s.on_drop(&vec!["/p.jpg".to_string()]);
    assert_eq!(s.active_tab, Tab::ImageEditor);
    assert_eq!(s.dropped_editor, Some("/p.jpg".to_string()));
    assert_eq!(s.dropped_image, None);
    s.on_drop(&vec![]);
    assert_eq!(s.active_tab, Tab::ImageEditor);
    s.on_drop(&vec!["/archive.zip".to_string()]);
    assert_eq!(s.active_tab, Tab::ImageEditor);
    s.select_tab(Tab::TextDiff);
    s.on_drop(&vec!["/archive.zip".to_string()]);
    assert_eq!(s.dropped_text, Some("/archive.zip".to_string()));
    assert_eq!(route_drop(Tab::KanbanBoard, "/doc.md"), (DropTarget::MarkdownToPdf, Tab::MarkdownToPdf));
}

#[test]
fn palette_and_sidebar() {
    let mut s = Shell::new();
    assert!(s.on_key(false, true, "k"));
    assert!(s.palette_visible);
    assert!(!s.on_key(false, false, "k"));
    assert!(s.on_key(true, false, "k"));
    assert!(s.palette_visible);
    s.close_palette();
    assert!(!s.palette_visible);
    s.on_key(true, false, "k");
    assert!(s.palette_visible);
    s.on_palette_select("json_formatter");
    assert!(!s.palette_visible);
    assert_eq!(s.active_tab.id(), "json_formatter");
    s.on_palette_select("nope");
    assert_eq!(s.active_tab.id(), "json_formatter");
    assert_eq!(s.sidebar_class(), "sidebar");
    s.toggle_sidebar();
    assert_eq!(s.sidebar_class(), "sidebar collapsed");
    assert!(language_button_active("ja", "ja"));
    assert!(!language_button_active("en", "ja"));
    assert_eq!(language_choices()[1], ("ja", "JA", "Japanese"));
}
