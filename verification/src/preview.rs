//! The Markdown preview: its two themes and their style sheet, the text's
//! statistics, the layouts, and the exported page.
use vstd::prelude::*;
use crate::markdown::markdown_html;
use crate::markdown::markdown_to_html;
use crate::text::byte_len;
use crate::text::byte_len_exec;
use crate::text::char_is_ws;
use crate::text::extend_str;
use crate::text::from_chars;
use crate::text::is_ws;
use crate::text::lines;
use crate::text::split_lines;
use crate::text::to_chars;

verus! {

/// The colour scheme of the preview.
#[derive(Clone, Copy, Debug, PartialEq, Eq, Structural)]
pub enum PreviewTheme {
    Dark,
    Light,
}

/// The colours a theme fills into the style sheet.
#[derive(Clone, Copy)]
pub struct ThemeColors {
    pub bg: &'static str,
    pub text: &'static str,
    pub text_secondary: &'static str,
    pub border: &'static str,
    pub code_bg: &'static str,
    pub link_color: &'static str,
    pub blockquote_border: &'static str,
    pub table_stripe: &'static str,
}

/// The colours of a theme: background, text, secondary text, borders, code
/// background, links, quote border and table stripes.
pub open spec fn theme_colors(t: PreviewTheme) -> Seq<Seq<char>> {
    match t {
        PreviewTheme::Dark => seq![
            "#1a1a2e"@,
            "#e0e0e0"@,
            "#a0a0a0"@,
            "#333355"@,
            "#16213e"@,
            "#00d4ff"@,
            "#00d4ff"@,
            "rgba(255,255,255,0.03)"@,
        ],
        PreviewTheme::Light => seq![
            "#ffffff"@,
            "#1a1a2e"@,
            "#555555"@,
            "#e0e0e0"@,
            "#f5f5f5"@,
            "#0066cc"@,
            "#0066cc"@,
            "rgba(0,0,0,0.03)"@,
        ],
    }
}

/// The colours in the order of `theme_colors`.
pub open spec fn colors_seq(c: ThemeColors) -> Seq<Seq<char>> {
    seq![
        c.bg@,
        c.text@,
        c.text_secondary@,
        c.border@,
        c.code_bg@,
        c.link_color@,
        c.blockquote_border@,
        c.table_stripe@,
    ]
}

/// The colours of a theme.
pub fn colors_of(t: PreviewTheme) -> (c: ThemeColors)
    ensures
        colors_seq(c) == theme_colors(t),
{
    let c = match t {
        PreviewTheme::Dark => ThemeColors {
            bg: "#1a1a2e",
            text: "#e0e0e0",
            text_secondary: "#a0a0a0",
            border: "#333355",
            code_bg: "#16213e",
            link_color: "#00d4ff",
            blockquote_border: "#00d4ff",
            table_stripe: "rgba(255,255,255,0.03)",
        },
        PreviewTheme::Light => ThemeColors {
            bg: "#ffffff",
            text: "#1a1a2e",
            text_secondary: "#555555",
            border: "#e0e0e0",
            code_bg: "#f5f5f5",
            link_color: "#0066cc",
            blockquote_border: "#0066cc",
            table_stripe: "rgba(0,0,0,0.03)",
        },
    };
    assert(colors_seq(c) =~= theme_colors(t));
    c
}

/// The style sheet of the preview with the given colours filled in.
pub open spec fn style_sheet(c: ThemeColors) -> Seq<char> {
    "\n        .md-preview-content {\n            font-family: 'Geist', -apple-system, BlinkMacSystemFont, sans-serif;\n            font-size: 15px;\n            line-height: 1.8;\n            color: "@ + c.text@ + ";\n            background: "@ + c.bg@ + ";\n            padding: 24px;\n            word-wrap: break-word;\n            overflow-wrap: break-word;\n        }\n        .md-preview-content h1 { font-size: 2em; font-weight: 700; margin: 1.2em 0 0.6em; padding-bottom: 0.3em; border-bottom: 2px solid "@ + c.border@ + "; }\n        .md-preview-content h2 { font-size: 1.5em; font-weight: 700; margin: 1em 0 0.5em; padding-bottom: 0.2em; border-bottom: 1px solid "@ + c.border@ + "; }\n        .md-preview-content h3 { font-size: 1.25em; font-weight: 600; margin: 0.8em 0 0.4em; }\n        .md-preview-content h4 { font-size: 1.1em; font-weight: 600; margin: 0.6em 0 0.3em; }\n        .md-preview-content h5, .md-preview-content h6 { font-size: 1em; font-weight: 600; margin: 0.5em 0 0.3em; color: "@ + c.text_secondary@ + "; }\n        .md-preview-content p { margin: 0 0 1em; }\n        .md-preview-content a { color: "@ + c.link_color@ + "; text-decoration: none; }\n        .md-preview-content a:hover { text-decoration: underline; }\n        .md-preview-content strong { font-weight: 700; }\n        .md-preview-content em { font-style: italic; }\n        .md-preview-content del { text-decoration: line-through; opacity: 0.7; }\n        .md-preview-content .md-inline-code {\n            font-family: 'JetBrains Mono', 'SF Mono', monospace;\n            background: "@ + c.code_bg@ + ";\n            padding: 2px 6px;\n            border-radius: 4px;\n            font-size: 0.9em;\n            border: 1px solid "@ + c.border@ + ";\n        }\n        .md-preview-content .md-code-block {\n            font-family: 'JetBrains Mono', 'SF Mono', monospace;\n            background: "@ + c.code_bg@ + ";\n            padding: 16px;\n            border-radius: 8px;\n            font-size: 0.9em;\n            overflow-x: auto;\n            margin: 1em 0;\n            border: 1px solid "@ + c.border@ + ";\n            line-height: 1.6;\n        }\n        .md-preview-content .md-code-block code {\n            background: none;\n            padding: 0;\n            border: none;\n        }\n        .md-preview-content .md-blockquote {\n            border-left: 4px solid "@ + c.blockquote_border@ + ";\n            padding: 0.5em 1em;\n            margin: 1em 0;\n            color: "@ + c.text_secondary@ + ";\n            background: "@ + c.code_bg@ + ";\n            border-radius: 0 8px 8px 0;\n        }\n        .md-preview-content .md-blockquote p { margin: 0.3em 0; }\n        .md-preview-content .md-list {\n            padding-left: 2em;\n            margin: 0.5em 0 1em;\n        }\n        .md-preview-content .md-list li {\n            margin: 0.3em 0;\n        }\n        .md-preview-content .md-task-list {\n            list-style: none;\n            padding-left: 0.5em;\n        }\n        .md-preview-content .md-task-item {\n            display: flex;\n            align-items: center;\n            gap: 8px;\n            margin: 0.3em 0;\n        }\n        .md-preview-content .md-task-item input[type=\"checkbox\"] {\n            width: 16px;\n            height: 16px;\n            accent-color: "@ + c.link_color@ + ";\n        }\n        .md-preview-content .md-table {\n            width: 100%;\n            border-collapse: collapse;\n            margin: 1em 0;\n            font-size: 0.95em;\n        }\n        .md-preview-content .md-table th,\n        .md-preview-content .md-table td {\n            border: 1px solid "@ + c.border@ + ";\n            padding: 8px 12px;\n            text-align: left;\n        }\n        .md-preview-content .md-table th {\n            font-weight: 600;\n            background: "@ + c.code_bg@ + ";\n        }\n        .md-preview-content .md-table tr:nth-child(even) {\n            background: "@ + c.table_stripe@ + ";\n        }\n        .md-preview-content .md-hr {\n            border: none;\n            border-top: 2px solid "@ + c.border@ + ";\n            margin: 2em 0;\n        }\n        .md-preview-content .md-image {\n            max-width: 100%;\n            border-radius: 8px;\n            margin: 1em 0;\n        }\n        .md-preview-content .md-toc {\n            background: "@ + c.code_bg@ + ";\n            border: 1px solid "@ + c.border@ + ";\n            border-radius: 8px;\n            padding: 16px;\n            margin-bottom: 2em;\n        }\n        .md-preview-content .md-toc-title {\n            font-weight: 600;\n            cursor: pointer;\n            margin-bottom: 8px;\n        }\n        .md-preview-content .md-toc ul {\n            list-style: none;\n            padding-left: 0;\n            margin: 0;\n        }\n        .md-preview-content .md-toc li {\n            margin: 4px 0;\n        }\n        .md-preview-content .md-toc a {\n            color: "@ + c.link_color@ + ";\n            text-decoration: none;\n            font-size: 0.9em;\n        }\n        .md-preview-content .md-toc a:hover {\n            text-decoration: underline;\n        }\n    "@
}

/// The style sheet of a theme.
pub open spec fn theme_styles(t: PreviewTheme) -> Seq<char> {
    style_sheet(choose|c: ThemeColors| colors_seq(c) == theme_colors(t))
}

/// Two colour sets with the same colours give the same sheet.
proof fn lemma_sheet_by_colors(a: ThemeColors, b: ThemeColors)
    requires
        colors_seq(a) == colors_seq(b),
    ensures
        style_sheet(a) == style_sheet(b),
{
    assert(colors_seq(a)[0] == colors_seq(b)[0]);
    assert(colors_seq(a)[1] == colors_seq(b)[1]);
    assert(colors_seq(a)[2] == colors_seq(b)[2]);
    assert(colors_seq(a)[3] == colors_seq(b)[3]);
    assert(colors_seq(a)[4] == colors_seq(b)[4]);
    assert(colors_seq(a)[5] == colors_seq(b)[5]);
    assert(colors_seq(a)[6] == colors_seq(b)[6]);
    assert(colors_seq(a)[7] == colors_seq(b)[7]);
}

/// The style sheet of the preview in a theme.
pub fn generate_preview_styles(theme: PreviewTheme) -> (s: String)
    ensures
        s@ == theme_styles(theme),
{
    let c = colors_of(theme);
    let mut out: Vec<char> = Vec::new();
    extend_str(&mut out, "\n        .md-preview-content {\n            font-family: 'Geist', -apple-system, BlinkMacSystemFont, sans-serif;\n            font-size: 15px;\n            line-height: 1.8;\n            color: ");
    extend_str(&mut out, c.text);
    extend_str(&mut out, ";\n            background: ");
    extend_str(&mut out, c.bg);
    extend_str(&mut out, ";\n            padding: 24px;\n            word-wrap: break-word;\n            overflow-wrap: break-word;\n        }\n        .md-preview-content h1 { font-size: 2em; font-weight: 700; margin: 1.2em 0 0.6em; padding-bottom: 0.3em; border-bottom: 2px solid ");
    extend_str(&mut out, c.border);
    extend_str(&mut out, "; }\n        .md-preview-content h2 { font-size: 1.5em; font-weight: 700; margin: 1em 0 0.5em; padding-bottom: 0.2em; border-bottom: 1px solid ");
    extend_str(&mut out, c.border);
    extend_str(&mut out, "; }\n        .md-preview-content h3 { font-size: 1.25em; font-weight: 600; margin: 0.8em 0 0.4em; }\n        .md-preview-content h4 { font-size: 1.1em; font-weight: 600; margin: 0.6em 0 0.3em; }\n        .md-preview-content h5, .md-preview-content h6 { font-size: 1em; font-weight: 600; margin: 0.5em 0 0.3em; color: ");
    extend_str(&mut out, c.text_secondary);
    extend_str(&mut out, "; }\n        .md-preview-content p { margin: 0 0 1em; }\n        .md-preview-content a { color: ");
    extend_str(&mut out, c.link_color);
    extend_str(&mut out, "; text-decoration: none; }\n        .md-preview-content a:hover { text-decoration: underline; }\n        .md-preview-content strong { font-weight: 700; }\n        .md-preview-content em { font-style: italic; }\n        .md-preview-content del { text-decoration: line-through; opacity: 0.7; }\n        .md-preview-content .md-inline-code {\n            font-family: 'JetBrains Mono', 'SF Mono', monospace;\n            background: ");
    extend_str(&mut out, c.code_bg);
    extend_str(&mut out, ";\n            padding: 2px 6px;\n            border-radius: 4px;\n            font-size: 0.9em;\n            border: 1px solid ");
    extend_str(&mut out, c.border);
    extend_str(&mut out, ";\n        }\n        .md-preview-content .md-code-block {\n            font-family: 'JetBrains Mono', 'SF Mono', monospace;\n            background: ");
    extend_str(&mut out, c.code_bg);
    extend_str(&mut out, ";\n            padding: 16px;\n            border-radius: 8px;\n            font-size: 0.9em;\n            overflow-x: auto;\n            margin: 1em 0;\n            border: 1px solid ");
    extend_str(&mut out, c.border);
    extend_str(&mut out, ";\n            line-height: 1.6;\n        }\n        .md-preview-content .md-code-block code {\n            background: none;\n            padding: 0;\n            border: none;\n        }\n        .md-preview-content .md-blockquote {\n            border-left: 4px solid ");
    extend_str(&mut out, c.blockquote_border);
    extend_str(&mut out, ";\n            padding: 0.5em 1em;\n            margin: 1em 0;\n            color: ");
    extend_str(&mut out, c.text_secondary);
    extend_str(&mut out, ";\n            background: ");
    extend_str(&mut out, c.code_bg);
    extend_str(&mut out, ";\n            border-radius: 0 8px 8px 0;\n        }\n        .md-preview-content .md-blockquote p { margin: 0.3em 0; }\n        .md-preview-content .md-list {\n            padding-left: 2em;\n            margin: 0.5em 0 1em;\n        }\n        .md-preview-content .md-list li {\n            margin: 0.3em 0;\n        }\n        .md-preview-content .md-task-list {\n            list-style: none;\n            padding-left: 0.5em;\n        }\n        .md-preview-content .md-task-item {\n            display: flex;\n            align-items: center;\n            gap: 8px;\n            margin: 0.3em 0;\n        }\n        .md-preview-content .md-task-item input[type=\"checkbox\"] {\n            width: 16px;\n            height: 16px;\n            accent-color: ");
    extend_str(&mut out, c.link_color);
    extend_str(&mut out, ";\n        }\n        .md-preview-content .md-table {\n            width: 100%;\n            border-collapse: collapse;\n            margin: 1em 0;\n            font-size: 0.95em;\n        }\n        .md-preview-content .md-table th,\n        .md-preview-content .md-table td {\n            border: 1px solid ");
    extend_str(&mut out, c.border);
    extend_str(&mut out, ";\n            padding: 8px 12px;\n            text-align: left;\n        }\n        .md-preview-content .md-table th {\n            font-weight: 600;\n            background: ");
    extend_str(&mut out, c.code_bg);
    extend_str(&mut out, ";\n        }\n        .md-preview-content .md-table tr:nth-child(even) {\n            background: ");
    extend_str(&mut out, c.table_stripe);
    extend_str(&mut out, ";\n        }\n        .md-preview-content .md-hr {\n            border: none;\n            border-top: 2px solid ");
    extend_str(&mut out, c.border);
    extend_str(&mut out, ";\n            margin: 2em 0;\n        }\n        .md-preview-content .md-image {\n            max-width: 100%;\n            border-radius: 8px;\n            margin: 1em 0;\n        }\n        .md-preview-content .md-toc {\n            background: ");
    extend_str(&mut out, c.code_bg);
    extend_str(&mut out, ";\n            border: 1px solid ");
    extend_str(&mut out, c.border);
    extend_str(&mut out, ";\n            border-radius: 8px;\n            padding: 16px;\n            margin-bottom: 2em;\n        }\n        .md-preview-content .md-toc-title {\n            font-weight: 600;\n            cursor: pointer;\n            margin-bottom: 8px;\n        }\n        .md-preview-content .md-toc ul {\n            list-style: none;\n            padding-left: 0;\n            margin: 0;\n        }\n        .md-preview-content .md-toc li {\n            margin: 4px 0;\n        }\n        .md-preview-content .md-toc a {\n            color: ");
    extend_str(&mut out, c.link_color);
    extend_str(&mut out, ";\n            text-decoration: none;\n            font-size: 0.9em;\n        }\n        .md-preview-content .md-toc a:hover {\n            text-decoration: underline;\n        }\n    ");
    proof {
        let d = choose|d: ThemeColors| colors_seq(d) == theme_colors(theme);
        lemma_sheet_by_colors(c, d);
    }
    assert(out@ =~= style_sheet(c));
    from_chars(&out)
}

/// The theme the toggle button turns to.
pub open spec fn other_theme(t: PreviewTheme) -> PreviewTheme {
    match t {
        PreviewTheme::Dark => PreviewTheme::Light,
        PreviewTheme::Light => PreviewTheme::Dark,
    }
}

impl PreviewTheme {
    /// The other theme.
    pub fn toggled(&self) -> (t: PreviewTheme)
        ensures
            t == other_theme(*self),
    {
        match self {
            PreviewTheme::Dark => PreviewTheme::Light,
            PreviewTheme::Light => PreviewTheme::Dark,
        }
    }
}

/// Toggling twice returns to the first theme.
pub proof fn law_theme_toggle_twice(t: PreviewTheme)
    ensures
        other_theme(other_theme(t)) == t,
        other_theme(t) != t,
{
}

// ---------------------------------------------------------------------------
// Statistics
// ---------------------------------------------------------------------------

/// The number of runs of non-whitespace characters (`split_whitespace`).
pub open spec fn word_count(s: Seq<char>) -> nat
    decreases s.len(),
{
    if s.len() == 0 {
        0
    } else {
        let starts = !is_ws(s.last()) && (s.len() == 1 || is_ws(s[s.len() - 2]));
        word_count(s.drop_last()) + if starts { 1nat } else { 0nat }
    }
}

/// The number of words of a text.
pub fn count_words(text: &str) -> (n: usize)
    ensures
        n == word_count(text@),
{
    let v = to_chars(text);
    let ghost s = v@;
    let mut n: usize = 0;
    let mut i: usize = 0;
    while i < v.len()
        invariant
            i <= v.len(),
            s == v@,
            n == word_count(s.take(i as int)),
            n <= i,
        decreases v.len() - i,
    {
        assert(s.take(i + 1).drop_last() =~= s.take(i as int));
        let starts = !char_is_ws(v[i]) && (i == 0 || char_is_ws(v[i - 1]));
        if starts {
            n = n + 1;
        }
        i += 1;
    }
    assert(s.take(v.len() as int) =~= s);
    n
}

/// The statistics over the editor: lines (none for an empty text), words,
/// and size in bytes.
pub fn text_stats(text: &str) -> (r: (usize, usize, usize))
    requires
        byte_len(text@) <= usize::MAX,
    ensures
        r.0 == (if text@.len() == 0 { 0 } else { lines(text@).len() }),
        r.1 == word_count(text@),
        r.2 == byte_len(text@),
{
    let v = to_chars(text);
    let line_count = if v.len() == 0 { 0 } else { split_lines(&v).len() };
    (line_count, count_words(text), byte_len_exec(&v))
}

// ---------------------------------------------------------------------------
// Layouts and the page
// ---------------------------------------------------------------------------

/// Which panes are shown.
#[derive(Clone, Copy, Debug, PartialEq, Eq, Structural)]
pub enum PreviewLayout {
    Split,
    Editor,
    Preview,
}

/// The style classes of the editor pane and the preview pane.
pub open spec fn pane_classes(l: PreviewLayout) -> (Seq<char>, Seq<char>) {
    match l {
        PreviewLayout::Split => ("markdown-preview-editor"@, "markdown-preview-result"@),
        PreviewLayout::Editor => (
            "markdown-preview-editor full-width"@,
            "markdown-preview-result hidden"@,
        ),
        PreviewLayout::Preview => (
            "markdown-preview-editor hidden"@,
            "markdown-preview-result full-width"@,
        ),
    }
}

/// The style classes of the editor pane and the preview pane.
pub fn pane_class_names(l: PreviewLayout) -> (r: (&'static str, &'static str))
    ensures
        (r.0@, r.1@) == pane_classes(l),
{
    match l {
        PreviewLayout::Split => ("markdown-preview-editor", "markdown-preview-result"),
        PreviewLayout::Editor => ("markdown-preview-editor full-width", "markdown-preview-result hidden"),
        PreviewLayout::Preview => ("markdown-preview-editor hidden", "markdown-preview-result full-width"),
    }
}

/// The preview pane's content: the style sheet and the rendered text.
pub open spec fn styled_preview(text: Seq<char>, t: PreviewTheme) -> Seq<char> {
    "<style>"@ + theme_styles(t) + "</style><div class=\"md-preview-content\">"@ + markdown_html(
        text,
    ) + "</div>"@
}

/// The preview pane's content.
pub fn styled_preview_html(text: &str, theme: PreviewTheme) -> (s: String)
    ensures
        s@ == styled_preview(text@, theme),
{
    let mut out: Vec<char> = Vec::new();
    extend_str(&mut out, "<style>");
    extend_str(&mut out, generate_preview_styles(theme).as_str());
    extend_str(&mut out, "</style><div class=\"md-preview-content\">");
    extend_str(&mut out, markdown_to_html(text).as_str());
    extend_str(&mut out, "</div>");
    assert(out@ =~= styled_preview(text@, theme));
    from_chars(&out)
}

/// The page the export button copies: a whole HTML document with the style
/// sheet and the rendered text.
pub open spec fn exported_page(text: Seq<char>, t: PreviewTheme) -> Seq<char> {
    "<!DOCTYPE html>\n<html>\n<head>\n<meta charset=\"utf-8\">\n<title>Markdown Export</title>\n<style>"@
        + theme_styles(t) + "</style>\n</head>\n<body>\n<div class=\"md-preview-content\">"@
        + markdown_html(text) + "</div>\n</body>\n</html>"@
}

/// The page the export button copies.
pub fn export_page(text: &str, theme: PreviewTheme) -> (s: String)
    ensures
        s@ == exported_page(text@, theme),
{
    let mut out: Vec<char> = Vec::new();
    extend_str(
        &mut out,
        "<!DOCTYPE html>\n<html>\n<head>\n<meta charset=\"utf-8\">\n<title>Markdown Export</title>\n<style>",
    );
    extend_str(&mut out, generate_preview_styles(theme).as_str());
    extend_str(&mut out, "</style>\n</head>\n<body>\n<div class=\"md-preview-content\">");
    extend_str(&mut out, markdown_to_html(text).as_str());
    extend_str(&mut out, "</div>\n</body>\n</html>");
    assert(out@ =~= exported_page(text@, theme));
    from_chars(&out)
}

/// The text the editor starts with.
pub const DEFAULT_MARKDOWN: &'static str = r#"# Markdown Preview

Welcome to the **Markdown Preview** tool! This supports GitHub Flavored Markdown (GFM).

## Features

- **Bold**, *italic*, and ~~strikethrough~~ text
- [Links](https://example.com) and images
- Code blocks with syntax highlighting
- Tables, task lists, and more

## Code Block

```rust
fn main() {
    println!("Hello, Markdown!");
}
```

## Table

| Feature | Status |
|---------|--------|
| GFM | :check: |
| Tables | :check: |
| Task Lists | :check: |
| Emoji | :check: |

## Task List

- [x] Basic Markdown rendering
- [x] GFM support
- [x] Table of Contents
- [ ] Mermaid diagrams

## Blockquote

> This is a blockquote.
> It can span multiple lines.

## Emoji

:rocket: :fire: :star: :heart: :tada:

---

*Enjoy writing Markdown!* :smile:
"#;

} // verus!
