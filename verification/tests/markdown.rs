use taurin::formatting::escape_html;
use taurin::markdown::markdown_to_html;

#[test]
fn heading_alone_has_no_table_of_contents() {
    assert_eq!(markdown_to_html("# Title"), "<h1 id=\"title\">Title</h1>");
}

#[test]
fn bold_and_italic() {
    assert_eq!(
        markdown_to_html("**bold** and *it*"),
        "<p><strong>bold</strong> and <em>it</em></p>"
    );
}

#[test]
fn bullet_list() {
    assert_eq!(
        markdown_to_html("- a\n- b"),
        "<ul class=\"md-list\"><li>a</li><li>b</li></ul>"
    );
}

#[test]
fn table_with_separator() {
    assert_eq!(
        markdown_to_html("| A | B |\n|---|---|\n| 1 | 2 |"),
        "<table class=\"md-table\"><thead><tr><th>A</th><th>B</th></tr></thead><tbody><tr><td>1</td><td>2</td></tr></tbody></table>"
    );
}

#[test]
fn code_block_is_escaped() {
    assert_eq!(
        markdown_to_html("```rust\nlet x = 1 < 2;\n```"),
        "<pre class=\"md-code-block\"><code class=\"language-rust\">let x = 1 &lt; 2;\n</code></pre>"
    );
}

#[test]
fn two_headings_give_a_table_of_contents() {
    assert_eq!(
        markdown_to_html("# A\n## B c"),
        "<nav class=\"md-toc\"><details open><summary class=\"md-toc-title\">Table of Contents</summary><ul><li ><a href=\"#a\">A</a></li><li style=\"margin-left: 1em\"><a href=\"#b-c\">B c</a></li></ul></details></nav><h1 id=\"a\">A</h1><h2 id=\"b-c\">B c</h2>"
    );
}

#[test]
fn link_and_image() {
    assert_eq!(
        markdown_to_html("[x](http://a)"),
        "<p><a href=\"http://a\" target=\"_blank\" rel=\"noopener\">x</a></p>"
    );
    assert_eq!(
        markdown_to_html("![alt](u.png)"),
        "<p><img src=\"u.png\" alt=\"alt\" class=\"md-image\"></p>"
    );
}

#[test]
fn emoji_short_code() {
    assert_eq!(markdown_to_html(":rocket: :x:"), "<p>\u{1F680} \u{274C}</p>");
}

#[test]
fn block_quote_lines_share_one_quote() {
    assert_eq!(
        markdown_to_html("> hi\n> there"),
        "<blockquote class=\"md-blockquote\"><p>hi</p><p>there</p></blockquote>"
    );
}

#[test]
fn task_list() {
    assert_eq!(
        markdown_to_html("- [x] done\n- [ ] todo"),
        "<ul class=\"md-task-list\"><li class=\"md-task-item\"><input type=\"checkbox\" checked disabled> done</li><li class=\"md-task-item\"><input type=\"checkbox\" disabled> todo</li></ul>"
    );
}

#[test]
fn ordered_list_and_rule() {
    assert_eq!(
        markdown_to_html("1. one\n2. two\n---"),
        "<ol class=\"md-list\"><li>one</li><li>two</li></ol><hr class=\"md-hr\">"
    );
}

#[test]
fn html_is_escaped_in_paragraphs() {
    assert_eq!(
        markdown_to_html("a <b> & \"c\""),
        "<p>a &lt;b&gt; &amp; &quot;c&quot;</p>"
    );
}

#[test]
fn crlf_lines_and_strike_and_inline_code() {
    assert_eq!(
        markdown_to_html("~~gone~~\r\n`x`"),
        "<p><del>gone</del></p><p><code class=\"md-inline-code\">x</code></p>"
    );
}

#[test]
fn unclosed_blocks_are_closed_at_the_end() {
    assert_eq!(
        markdown_to_html("```\ncode"),
        "<pre class=\"md-code-block\"><code>code\n</code></pre>"
    );
    assert_eq!(
        markdown_to_html("| a |"),
        "<table class=\"md-table\"><thead><tr><th>a</th></tr></thead><tbody></tbody></table>"
    );
}

#[test]
fn empty_input() {
    assert_eq!(markdown_to_html(""), "");
}

#[test]
fn escaping_is_undone_by_the_entities() {
    let esc = |t: &str| escape_html(&t.chars().collect()).into_iter().collect::<String>();
    let undo = |t: &str| t.replace("&quot;", "\"").replace("&gt;", ">").replace("&lt;", "<").replace("&amp;", "&");
    let e = esc("<a href=\"x\">&</a>");
    assert_eq!(e, "&lt;a href=&quot;x&quot;&gt;&amp;&lt;/a&gt;");
    assert!(!e.contains('<') && !e.contains('>') && !e.contains('"'));
    assert_eq!(undo(&e), "<a href=\"x\">&</a>");
    for t in ["&lt;", "&amp;quot;", "a&&b", "\"\"", "", "plain"] {
        let e = esc(t);
        assert!(!e.contains('<') && !e.contains('>') && !e.contains('"'));
        assert_eq!(undo(&e), t);
    }
}
