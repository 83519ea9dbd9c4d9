use taurin::preview::{
    count_words, export_page, generate_preview_styles, pane_class_names, styled_preview_html,
    text_stats, PreviewLayout, PreviewTheme, DEFAULT_MARKDOWN,
};

#[test]
fn styles_follow_the_theme() {
    let dark = generate_preview_styles(PreviewTheme::Dark);
    let light = generate_preview_styles(PreviewTheme::Light);
    assert!(dark.contains("color: #e0e0e0;"));
    assert!(dark.contains("background: rgba(255,255,255,0.03);"));
    assert!(light.contains("background: #ffffff;"));
    assert!(dark.starts_with("\n        .md-preview-content {\n"));
    assert!(dark.contains(".md-preview-content h1 { font-size: 2em;"));
    assert_eq!(PreviewTheme::Dark.toggled(), PreviewTheme::Light);
    assert_eq!(PreviewTheme::Dark.toggled().toggled(), PreviewTheme::Dark);
}

#[test]
fn stats() {
    assert_eq!(count_words("  hello   world\n"), 2);
    assert_eq!(count_words(""), 0);
    assert_eq!(text_stats(""), (0, 0, 0));
    assert_eq!(text_stats("a b\nc"), (2, 3, 5));
    assert_eq!(text_stats("é"), (1, 1, 2));
}

#[test]
fn pages() {
    let p = styled_preview_html("# T", PreviewTheme::Light);
    assert!(p.starts_with("<style>"));
    assert!(p.ends_with("<div class=\"md-preview-content\"><h1 id=\"t\">T</h1></div>"));
    let e = export_page("x", PreviewTheme::Dark);
    assert!(e.starts_with("<!DOCTYPE html>\n<html>\n<head>\n<meta charset=\"utf-8\">\n<title>Markdown Export</title>\n<style>"));
    assert!(e.ends_with("<div class=\"md-preview-content\"><p>x</p></div>\n</body>\n</html>"));
    assert_eq!(pane_class_names(PreviewLayout::Editor), ("markdown-preview-editor full-width", "markdown-preview-result hidden"));
    assert!(DEFAULT_MARKDOWN.starts_with("# Markdown Preview"));
}
