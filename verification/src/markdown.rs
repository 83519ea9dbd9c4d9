//! The Markdown previewer: a line-oriented renderer from GitHub-flavoured
//! Markdown to HTML with a table of contents, code blocks, tables, block
//! quotes, task lists and bulleted and numbered lists.
use vstd::prelude::*;
use vstd::string::*;
use crate::text::{
    alphanumeric, contains, decimal, is_digit, is_ws, lines, lower, split, starts_with, trim,
    trim_char, trim_start, trim_start_char, views, char_is_digit, contains_chars, decimal_chars,
    extend, from_chars, is_alphanumeric, lowercase, slice, split_char, split_lines,
    starts_with_str, to_chars, trim_bounds, trim_char_chars, trim_chars, trim_start_char_chars,
    lemma_decimal_len, eq_str, lemma_views_push,
};
use crate::formatting::{escape, inline_md, escape_html, inline_format};

verus! {

// ---------------------------------------------------------------------------
// Line classification
// ---------------------------------------------------------------------------

/// The heading level of a line: six, five, four, three or two `#` after the
/// leading whitespace, or one `#` and a space.
pub open spec fn heading_level(line: Seq<char>) -> Option<nat> {
    let t = trim_start(line);
    if starts_with(t, "######"@) {
        Some(6)
    } else if starts_with(t, "#####"@) {
        Some(5)
    } else if starts_with(t, "####"@) {
        Some(4)
    } else if starts_with(t, "###"@) {
        Some(3)
    } else if starts_with(t, "##"@) {
        Some(2)
    } else if starts_with(t, "# "@) {
        Some(1)
    } else {
        None
    }
}

/// `t` opens with at least `n` `#`.
pub open spec fn opens_with_hashes(t: Seq<char>, n: nat) -> bool {
    n <= t.len() && forall|k: int| 0 <= k < n ==> t[k] == '#'
}

/// The heading level counts the `#` that open the line after its leading
/// whitespace: one to five of them followed by a space give that level, six
/// or more give six, and a line that does not open with `#` is no heading.
pub proof fn law_heading_level_counts_hashes(line: Seq<char>, n: nat)
    ensures
        1 <= n <= 5 && opens_with_hashes(trim_start(line), n) && n < trim_start(line).len()
            && trim_start(line)[n as int] == ' ' ==> heading_level(line) == Some(n),
        opens_with_hashes(trim_start(line), 6) ==> heading_level(line) == Some(6nat),
        !opens_with_hashes(trim_start(line), 1) ==> heading_level(line) is None,
{
    reveal_strlit("######");
    reveal_strlit("#####");
    reveal_strlit("####");
    reveal_strlit("###");
    reveal_strlit("##");
    reveal_strlit("# ");
    let t = trim_start(line);
    if opens_with_hashes(t, 6) {
        assert(t.take(6) =~= "######"@);
    }
    if 1 <= n <= 5 && opens_with_hashes(t, n) && n < t.len() && t[n as int] == ' ' {
        assert(t.take(n as int + 1)[n as int] == ' ');
        if n == 1 {
            assert(t.take(2) =~= "# "@);
            assert(!starts_with(t, "##"@));
        } else if n == 2 {
            assert(t.take(2) =~= "##"@);
            assert(!starts_with(t, "###"@)) by { assert(t.take(3)[2] == t[2]); }
        } else if n == 3 {
            assert(t.take(3) =~= "###"@);
            assert(!starts_with(t, "####"@)) by { assert(t.take(4)[3] == t[3]); }
        } else if n == 4 {
            assert(t.take(4) =~= "####"@);
            assert(!starts_with(t, "#####"@)) by { assert(t.take(5)[4] == t[4]); }
        } else {
            assert(t.take(5) =~= "#####"@);
            assert(!starts_with(t, "######"@)) by { assert(t.take(6)[5] == t[5]); }
        }
    }
    if !opens_with_hashes(t, 1) {
        if t.len() > 0 {
            assert(t.take(1)[0] == t[0]);
            assert(!starts_with(t, "######"@)) by {
                if t.len() >= 6 {
                    assert(t.take(6)[0] == t[0]);
                }
            }
            assert(!starts_with(t, "#####"@)) by {
                if t.len() >= 5 {
                    assert(t.take(5)[0] == t[0]);
                }
            }
            assert(!starts_with(t, "####"@)) by {
                if t.len() >= 4 {
                    assert(t.take(4)[0] == t[0]);
                }
            }
            assert(!starts_with(t, "###"@)) by {
                if t.len() >= 3 {
                    assert(t.take(3)[0] == t[0]);
                }
            }
            assert(!starts_with(t, "##"@)) by {
                if t.len() >= 2 {
                    assert(t.take(2)[0] == t[0]);
                }
            }
            assert(!starts_with(t, "# "@)) by {
                if t.len() >= 2 {
                    assert(t.take(2)[0] == t[0]);
                }
            }
        }
    }
}

/// The number of ASCII digits at the start of `s`.
pub open spec fn leading_digits(s: Seq<char>) -> nat
    decreases s.len(),
{
    if s.len() > 0 && is_digit(s[0]) {
        1 + leading_digits(s.drop_first())
    } else {
        0
    }
}

/// The text of a numbered list item: digits, a period and a space, then the text.
pub open spec fn ordered_item(s: Seq<char>) -> Option<Seq<char>> {
    let k = leading_digits(s);
    if k > 0 && k + 2 <= s.len() && s[k as int] == '.' && s[k + 1int] == ' ' {
        Some(s.subrange(k + 2int, s.len() as int))
    } else {
        None
    }
}

/// The text of a heading line.
pub open spec fn heading_text(line: Seq<char>) -> Seq<char> {
    trim(trim_start_char(line, '#'))
}

/// `s` with spaces turned into hyphens.
pub open spec fn dash_spaces(s: Seq<char>) -> Seq<char> {
    s.map_values(|c: char| if c == ' ' { '-' } else { c })
}

/// The characters of `s` that may stand in an anchor id: alphanumeric
/// characters and hyphens, in order.
pub open spec fn id_chars(s: Seq<char>) -> Seq<char>
    decreases s.len(),
{
    if s.len() == 0 {
        seq![]
    } else if alphanumeric(s.last()) || s.last() == '-' {
        id_chars(s.drop_last()).push(s.last())
    } else {
        id_chars(s.drop_last())
    }
}

/// The anchor id of a heading: lower case, spaces as hyphens, then only
/// alphanumeric characters and hyphens.
pub open spec fn heading_id(text: Seq<char>) -> Seq<char> {
    id_chars(dash_spaces(lower(text)))
}

/// A table row made only of `|`, `-`, `:` and spaces, with at least one `-`.
pub open spec fn is_separator_row(t: Seq<char>) -> bool {
    &&& forall|i: int| 0 <= i < t.len() ==> (t[i] == '|' || t[i] == '-' || t[i] == ':' || t[i] == ' ')
    &&& contains(t, "-"@)
}

/// Each of the fields, trimmed.
pub open spec fn trim_all(fs: Seq<Seq<char>>) -> Seq<Seq<char>>
    decreases fs.len(),
{
    if fs.len() == 0 {
        seq![]
    } else {
        trim_all(fs.drop_last()).push(trim(fs.last()))
    }
}

/// The trimmed cells of a table row.
pub open spec fn cells(t: Seq<char>) -> Seq<Seq<char>> {
    trim_all(split(trim_char(t, '|'), '|'))
}

/// The cells of a row, each wrapped in `<open>` ... `<close>` after inline formatting.
pub open spec fn cells_html(cs: Seq<Seq<char>>, open: Seq<char>, close: Seq<char>) -> Seq<char>
    decreases cs.len(),
{
    if cs.len() == 0 {
        seq![]
    } else {
        cells_html(cs.drop_last(), open, close) + open + inline_md(cs.last()) + close
    }
}

// ---------------------------------------------------------------------------
// The renderer's state
// ---------------------------------------------------------------------------

/// Which blocks are open while the lines are rendered.
#[derive(Clone, Copy)]
pub struct MdState {
    pub in_code_block: bool,
    pub in_table: bool,
    pub in_list: bool,
    pub in_ordered_list: bool,
    pub in_blockquote: bool,
}

/// The state before the first line.
pub open spec fn initial_state() -> MdState {
    MdState {
        in_code_block: false,
        in_table: false,
        in_list: false,
        in_ordered_list: false,
        in_blockquote: false,
    }
}

/// Closes open bulleted and numbered lists.
pub open spec fn close_lists(st: MdState) -> (Seq<char>, MdState) {
    (
        (if st.in_list { "</ul>"@ } else { seq![] }) + (if st.in_ordered_list {
            "</ol>"@
        } else {
            seq![]
        }),
        MdState { in_list: false, in_ordered_list: false, ..st },
    )
}

/// Closes an open block quote.
pub open spec fn close_quote(st: MdState) -> (Seq<char>, MdState) {
    (
        if st.in_blockquote { "</blockquote>"@ } else { seq![] },
        MdState { in_blockquote: false, ..st },
    )
}

/// Closes lists, then a block quote.
pub open spec fn close_all(st: MdState) -> (Seq<char>, MdState) {
    let (a, s1) = close_lists(st);
    let (b, s2) = close_quote(s1);
    (a + b, s2)
}

// ---------------------------------------------------------------------------
// Rendering one line
// ---------------------------------------------------------------------------

/// The opening of a code block in the given language.
pub open spec fn code_open(lang: Seq<char>) -> Seq<char> {
    "<pre class=\"md-code-block\"><code"@ + (if lang.len() == 0 {
        seq![]
    } else {
        " class=\"language-"@ + escape(lang) + "\""@
    }) + ">"@
}

/// A heading element of the given level.
pub open spec fn heading_html(line: Seq<char>, level: nat) -> Seq<char> {
    let text = heading_text(line);
    "<h"@ + decimal(level) + " id=\""@ + escape(heading_id(text)) + "\">"@ + inline_md(text) + "</h"@
        + decimal(level) + ">"@
}

/// A line that starts with `|` and holds a `|`: a table row.
#[verifier::opaque]
pub open spec fn table_line(line: Seq<char>, st: MdState) -> (Seq<char>, MdState) {
    let (c, s1) = close_all(st);
    let t = trim(line);
    if is_separator_row(t) {
        (c, s1)
    } else if !s1.in_table {
        (
            c + "<table class=\"md-table\"><thead><tr>"@ + cells_html(cells(t), "<th>"@, "</th>"@)
                + "</tr></thead><tbody>"@,
            MdState { in_table: true, ..s1 },
        )
    } else {
        (c + "<tr>"@ + cells_html(cells(t), "<td>"@, "</td>"@) + "</tr>"@, s1)
    }
}

/// A block quote line.
pub open spec fn quote_line(t: Seq<char>, st: MdState) -> (Seq<char>, MdState) {
    let (c, s1) = close_lists(st);
    let content = trim(if starts_with(t, "> "@) { t.subrange(2, t.len() as int) } else { seq![] });
    if s1.in_blockquote {
        (c + "<p>"@ + inline_md(content) + "</p>"@, s1)
    } else {
        (
            c + "<blockquote class=\"md-blockquote\">"@ + "<p>"@ + inline_md(content) + "</p>"@,
            MdState { in_blockquote: true, ..s1 },
        )
    }
}

/// A task list line (`- [x] ` or `- [ ] `).
pub open spec fn task_line(t: Seq<char>, st: MdState) -> (Seq<char>, MdState) {
    let (c, s1) = close_quote(st);
    let checkbox = if starts_with(t, "- [x]"@) {
        "<input type=\"checkbox\" checked disabled>"@
    } else {
        "<input type=\"checkbox\" disabled>"@
    };
    let item = "<li class=\"md-task-item\">"@ + checkbox + " "@ + inline_md(
        trim(t.subrange(6, t.len() as int)),
    ) + "</li>"@;
    if s1.in_list {
        (c + item, s1)
    } else {
        (c + "<ul class=\"md-task-list\">"@ + item, MdState { in_list: true, ..s1 })
    }
}

/// A bulleted list line (`- `, `* ` or `+ `).
pub open spec fn bullet_line(t: Seq<char>, st: MdState) -> (Seq<char>, MdState) {
    let (c, s1) = close_quote(st);
    let (d, s2) = if s1.in_ordered_list {
        ("</ol>"@, MdState { in_ordered_list: false, ..s1 })
    } else {
        (seq![], s1)
    };
    let (e, s3) = if s2.in_list {
        (seq![], s2)
    } else {
        ("<ul class=\"md-list\">"@, MdState { in_list: true, ..s2 })
    };
    (c + d + e + "<li>"@ + inline_md(t.subrange(2, t.len() as int)) + "</li>"@, s3)
}

/// A numbered list line with the given item text.
pub open spec fn numbered_line(text: Seq<char>, st: MdState) -> (Seq<char>, MdState) {
    let (c, s1) = close_quote(st);
    let (d, s2) = if s1.in_list && !s1.in_ordered_list {
        ("</ul>"@, MdState { in_list: false, ..s1 })
    } else {
        (seq![], s1)
    };
    let (e, s3) = if s2.in_ordered_list {
        (seq![], s2)
    } else {
        ("<ol class=\"md-list\">"@, MdState { in_ordered_list: true, ..s2 })
    };
    (c + d + e + "<li>"@ + inline_md(text) + "</li>"@, s3)
}

/// A line outside code blocks and tables.
#[verifier::opaque]
pub open spec fn block_line(line: Seq<char>, st: MdState) -> (Seq<char>, MdState) {
    let t = trim(line);
    if t.len() == 0 {
        close_all(st)
    } else if heading_level(line) is Some {
        let (c, s1) = close_all(st);
        (c + heading_html(line, heading_level(line)->0), s1)
    } else if t == "---"@ || t == "***"@ || t == "___"@ {
        let (c, s1) = close_all(st);
        (c + "<hr class=\"md-hr\">"@, s1)
    } else if starts_with(t, "> "@) || t == ">"@ {
        quote_line(t, st)
    } else if starts_with(t, "- [x] "@) || starts_with(t, "- [ ] "@) {
        task_line(t, st)
    } else if starts_with(t, "- "@) || starts_with(t, "* "@) || starts_with(t, "+ "@) {
        bullet_line(t, st)
    } else if ordered_item(t) is Some {
        numbered_line(ordered_item(t)->0, st)
    } else {
        let (c, s1) = close_all(st);
        (c + "<p>"@ + inline_md(t) + "</p>"@, s1)
    }
}

/// A line starting with three backquotes: opens or closes a code block.
#[verifier::opaque]
pub open spec fn fence_line(line: Seq<char>, st: MdState) -> (Seq<char>, MdState) {
    if st.in_code_block {
        ("</code></pre>"@, MdState { in_code_block: false, ..st })
    } else {
        let (c, s1) = close_all(st);
        (c + code_open(trim(trim_start_char(line, '`'))), MdState { in_code_block: true, ..s1 })
    }
}

/// What one line adds to the output, and the state after it.
pub open spec fn md_line(line: Seq<char>, st: MdState) -> (Seq<char>, MdState) {
    if starts_with(line, "```"@) {
        fence_line(line, st)
    } else if st.in_code_block {
        (escape(line) + "\n"@, st)
    } else if contains(line, "|"@) && starts_with(trim(line), "|"@) {
        table_line(line, st)
    } else if st.in_table {
        let (o, s) = block_line(line, MdState { in_table: false, ..st });
        ("</tbody></table>"@ + o, s)
    } else {
        block_line(line, st)
    }
}

/// What a sequence of lines adds to the output, and the state after it.
pub open spec fn md_lines(ls: Seq<Seq<char>>, st: MdState) -> (Seq<char>, MdState)
    decreases ls.len(),
{
    if ls.len() == 0 {
        (seq![], st)
    } else {
        let (o, s1) = md_line(ls[0], st);
        let (r, s2) = md_lines(ls.drop_first(), s1);
        (o + r, s2)
    }
}

/// What closes the blocks still open after the last line.
pub open spec fn md_close(st: MdState) -> Seq<char> {
    (if st.in_code_block { "</code></pre>"@ } else { seq![] }) + (if st.in_table {
        "</tbody></table>"@
    } else {
        seq![]
    }) + close_all(st).0
}

// ---------------------------------------------------------------------------
// Table of contents
// ---------------------------------------------------------------------------

/// The headings among the lines, as (level, text).
pub open spec fn toc_items(ls: Seq<Seq<char>>) -> Seq<(nat, Seq<char>)>
    decreases ls.len(),
{
    if ls.len() == 0 {
        seq![]
    } else {
        let r = toc_items(ls.drop_last());
        match heading_level(ls.last()) {
            Some(level) => r.push((level, heading_text(ls.last()))),
            None => r,
        }
    }
}

/// One entry of the table of contents.
pub open spec fn toc_entry(level: nat, text: Seq<char>) -> Seq<char> {
    "<li "@ + (if level > 1 {
        "style=\"margin-left: "@ + decimal((level - 1) as nat) + "em\""@
    } else {
        seq![]
    }) + "><a href=\"#"@ + escape(heading_id(text)) + "\">"@ + escape(text) + "</a></li>"@
}

/// The entries of the table of contents.
pub open spec fn toc_entries(items: Seq<(nat, Seq<char>)>) -> Seq<char>
    decreases items.len(),
{
    if items.len() == 0 {
        seq![]
    } else {
        toc_entries(items.drop_last()) + toc_entry(items.last().0, items.last().1)
    }
}

/// The table of contents, shown when there are at least two headings.
pub open spec fn toc(ls: Seq<Seq<char>>) -> Seq<char> {
    let items = toc_items(ls);
    if items.len() >= 2 {
        "<nav class=\"md-toc\">"@ + "<details open><summary class=\"md-toc-title\">Table of Contents</summary>"@
            + "<ul>"@ + toc_entries(items) + "</ul></details></nav>"@
    } else {
        seq![]
    }
}

/// The HTML for a Markdown document.
pub open spec fn markdown_html(input: Seq<char>) -> Seq<char> {
    let ls = lines(input);
    let (body, st) = md_lines(ls, initial_state());
    toc(ls) + body + md_close(st)
}


// ---------------------------------------------------------------------------
// Executable renderer
// ---------------------------------------------------------------------------

/// Appends the characters of `s`.
fn emit(out: &mut Vec<char>, s: &str)
    ensures
        final(out)@ == old(out)@ + s@,
{
    extend(out, &to_chars(s));
}

/// The heading level of a line.
pub fn heading_level_of(line: &Vec<char>) -> (r: Option<usize>)
    ensures
        match r {
            Some(l) => heading_level(line@) == Some(l as nat),
            None => heading_level(line@) is None,
        },
{
    let (lo, _hi) = trim_bounds(line);
    let t = slice(line, lo, line.len());
    if starts_with_str(&t, "######") {
        Some(6)
    } else if starts_with_str(&t, "#####") {
        Some(5)
    } else if starts_with_str(&t, "####") {
        Some(4)
    } else if starts_with_str(&t, "###") {
        Some(3)
    } else if starts_with_str(&t, "##") {
        Some(2)
    } else if starts_with_str(&t, "# ") {
        Some(1)
    } else {
        None
    }
}

/// The text of a numbered list item, if `t` is one.
pub fn parse_ordered_list(t: &Vec<char>) -> (r: Option<Vec<char>>)
    ensures
        match r {
            Some(v) => ordered_item(t@) == Some(v@),
            None => ordered_item(t@) is None,
        },
{
    let mut k: usize = 0;
    assert(t@.subrange(0, t.len() as int) =~= t@);
    while k < t.len() && char_is_digit(t[k])
        invariant
            k <= t.len(),
            leading_digits(t@) == k + leading_digits(t@.subrange(k as int, t.len() as int)),
        decreases t.len() - k,
    {
        assert(t@.subrange(k as int, t.len() as int).drop_first() =~= t@.subrange(
            k + 1,
            t.len() as int,
        ));
        k += 1;
    }
    assert(leading_digits(t@.subrange(k as int, t.len() as int)) == 0);
    if k > 0 && k < t.len() && t.len() - k >= 2 && t[k] == '.' && t[k + 1] == ' ' {
        Some(slice(t, k + 2, t.len()))
    } else {
        None
    }
}

/// The text of a heading line.
pub fn heading_text_of(line: &Vec<char>) -> (r: Vec<char>)
    ensures
        r@ == heading_text(line@),
{
    let t = trim_start_char_chars(line, '#');
    trim_chars(&t)
}

/// The anchor id of a heading with the given text.
pub fn heading_id_of(text: &Vec<char>) -> (r: Vec<char>)
    ensures
        r@ == heading_id(text@),
{
    let s = from_chars(text);
    let l = lowercase(s.as_str());
    let lv = to_chars(l.as_str());
    let ghost d = dash_spaces(lv@);
    let mut r: Vec<char> = Vec::new();
    let mut i: usize = 0;
    while i < lv.len()
        invariant
            i <= lv.len(),
            d == dash_spaces(lv@),
            d.len() == lv@.len(),
            r@ == id_chars(d.take(i as int)),
        decreases lv.len() - i,
    {
        let c = if lv[i] == ' ' { '-' } else { lv[i] };
        assert(d[i as int] == c);
        assert(d.take(i + 1).drop_last() =~= d.take(i as int));
        if is_alphanumeric(c) || c == '-' {
            r.push(c);
        }
        i += 1;
    }
    assert(d.take(lv.len() as int) =~= d);
    r
}

/// Closes open lists.
fn close_lists_exec(st: &mut MdState, out: &mut Vec<char>)
    ensures
        final(out)@ == old(out)@ + close_lists(*old(st)).0,
        *final(st) == close_lists(*old(st)).1,
{
    if st.in_list {
        emit(out, "</ul>");
        st.in_list = false;
    }
    if st.in_ordered_list {
        emit(out, "</ol>");
        st.in_ordered_list = false;
    }
    assert(final(out)@ =~= old(out)@ + close_lists(*old(st)).0);
}

/// Closes an open block quote.
fn close_quote_exec(st: &mut MdState, out: &mut Vec<char>)
    ensures
        final(out)@ == old(out)@ + close_quote(*old(st)).0,
        *final(st) == close_quote(*old(st)).1,
{
    if st.in_blockquote {
        emit(out, "</blockquote>");
        st.in_blockquote = false;
    } else {
        assert(final(out)@ =~= old(out)@ + Seq::<char>::empty());
    }
}

/// Closes lists, then a block quote.
fn close_all_exec(st: &mut MdState, out: &mut Vec<char>)
    ensures
        final(out)@ == old(out)@ + close_all(*old(st)).0,
        *final(st) == close_all(*old(st)).1,
{
    close_lists_exec(st, out);
    close_quote_exec(st, out);
    assert(final(out)@ =~= old(out)@ + close_all(*old(st)).0);
}

/// Appends the cells of a row.
fn emit_cells(out: &mut Vec<char>, cs: &Vec<Vec<char>>, open: &str, close: &str)
    ensures
        final(out)@ == old(out)@ + cells_html(views(cs@), open@, close@),
{
    let mut i: usize = 0;
    while i < cs.len()
        invariant
            i <= cs.len(),
            out@ == old(out)@ + cells_html(views(cs@).take(i as int), open@, close@),
        decreases cs.len() - i,
    {
        let ghost v = views(cs@);
        assert(v.take(i + 1).drop_last() =~= v.take(i as int));
        assert(v.take(i + 1).last() == cs@[i as int]@);
        let f = inline_format(&cs[i]);
        emit(out, open);
        extend(out, &f);
        emit(out, close);
        assert(out@ =~= old(out)@ + cells_html(views(cs@).take(i + 1), open@, close@));
        i += 1;
    }
    assert(views(cs@).take(cs.len() as int) =~= views(cs@));
}

/// The trimmed cells of a table row.
fn row_cells(t: &Vec<char>) -> (r: Vec<Vec<char>>)
    ensures
        views(r@) == cells(t@),
{
    let inner = trim_char_chars(t, '|');
    let parts = split_char(&inner, '|');
    let ghost ps = views(parts@);
    let mut r: Vec<Vec<char>> = Vec::new();
    let mut i: usize = 0;
    while i < parts.len()
        invariant
            i <= parts.len(),
            ps == views(parts@),
            views(r@) == trim_all(ps.take(i as int)),
        decreases parts.len() - i,
    {
        let c = trim_chars(&parts[i]);
        proof {
            lemma_views_push(r@, c);
            assert(ps.take(i + 1).drop_last() =~= ps.take(i as int));
        }
        r.push(c);
        i += 1;
    }
    assert(ps.take(parts.len() as int) =~= ps);
    r
}

/// Whether a trimmed table row only separates the header from the body.
fn separator_row(t: &Vec<char>) -> (r: bool)
    ensures
        r == is_separator_row(t@),
{
    let mut i: usize = 0;
    while i < t.len()
        invariant
            i <= t.len(),
            forall|j: int|
                0 <= j < i ==> (t@[j] == '|' || t@[j] == '-' || t@[j] == ':' || t@[j] == ' '),
        decreases t.len() - i,
    {
        let c = t[i];
        if !(c == '|' || c == '-' || c == ':' || c == ' ') {
            return false;
        }
        i += 1;
    }
    contains_chars(t, &to_chars("-"))
}

/// Renders a table row.
fn render_table_line(line: &Vec<char>, st: &mut MdState, out: &mut Vec<char>)
    ensures
        final(out)@ == old(out)@ + table_line(line@, *old(st)).0,
        *final(st) == table_line(line@, *old(st)).1,
{
    reveal(table_line);
    close_all_exec(st, out);
    let t = trim_chars(line);
    if separator_row(&t) {
        return ;
    }
    let cs = row_cells(&t);
    if !st.in_table {
        emit(out, "<table class=\"md-table\"><thead><tr>");
        emit_cells(out, &cs, "<th>", "</th>");
        emit(out, "</tr></thead><tbody>");
        st.in_table = true;
    } else {
        emit(out, "<tr>");
        emit_cells(out, &cs, "<td>", "</td>");
        emit(out, "</tr>");
    }
    assert(final(out)@ =~= old(out)@ + table_line(line@, *old(st)).0);
}


/// Renders a block quote line (`t` is the trimmed line).
fn render_quote(t: &Vec<char>, st: &mut MdState, out: &mut Vec<char>)
    ensures
        final(out)@ == old(out)@ + quote_line(t@, *old(st)).0,
        *final(st) == quote_line(t@, *old(st)).1,
{
    proof {
        reveal_strlit("> ");
    }
    close_lists_exec(st, out);
    let content = if starts_with_str(t, "> ") {
        let c = slice(t, 2, t.len());
        trim_chars(&c)
    } else {
        let e: Vec<char> = Vec::new();
        assert(trim(Seq::<char>::empty()) =~= Seq::<char>::empty());
        e
    };
    if !st.in_blockquote {
        emit(out, "<blockquote class=\"md-blockquote\">");
        st.in_blockquote = true;
    }
    emit(out, "<p>");
    let f = inline_format(&content);
    extend(out, &f);
    emit(out, "</p>");
    assert(final(out)@ =~= old(out)@ + quote_line(t@, *old(st)).0);
}

/// Renders a task list line (`t` is the trimmed line).
fn render_task(t: &Vec<char>, st: &mut MdState, out: &mut Vec<char>)
    requires
        starts_with(t@, "- [x] "@) || starts_with(t@, "- [ ] "@),
    ensures
        final(out)@ == old(out)@ + task_line(t@, *old(st)).0,
        *final(st) == task_line(t@, *old(st)).1,
{
    proof {
        reveal_strlit("- [x] ");
        reveal_strlit("- [ ] ");
    }
    close_quote_exec(st, out);
    if !st.in_list {
        emit(out, "<ul class=\"md-task-list\">");
        st.in_list = true;
    }
    emit(out, "<li class=\"md-task-item\">");
    if starts_with_str(t, "- [x]") {
        emit(out, "<input type=\"checkbox\" checked disabled>");
    } else {
        emit(out, "<input type=\"checkbox\" disabled>");
    }
    emit(out, " ");
    let text = slice(t, 6, t.len());
    let text = trim_chars(&text);
    let f = inline_format(&text);
    extend(out, &f);
    emit(out, "</li>");
    assert(final(out)@ =~= old(out)@ + task_line(t@, *old(st)).0);
}

/// Renders a bulleted list line (`t` is the trimmed line).
fn render_bullet(t: &Vec<char>, st: &mut MdState, out: &mut Vec<char>)
    requires
        starts_with(t@, "- "@) || starts_with(t@, "* "@) || starts_with(t@, "+ "@),
    ensures
        final(out)@ == old(out)@ + bullet_line(t@, *old(st)).0,
        *final(st) == bullet_line(t@, *old(st)).1,
{
    proof {
        reveal_strlit("- ");
        reveal_strlit("* ");
        reveal_strlit("+ ");
    }
    close_quote_exec(st, out);
    if st.in_ordered_list {
        emit(out, "</ol>");
        st.in_ordered_list = false;
    }
    if !st.in_list {
        emit(out, "<ul class=\"md-list\">");
        st.in_list = true;
    }
    emit(out, "<li>");
    let text = slice(t, 2, t.len());
    let f = inline_format(&text);
    extend(out, &f);
    emit(out, "</li>");
    assert(final(out)@ =~= old(out)@ + bullet_line(t@, *old(st)).0);
}

/// Renders a numbered list item with the given text.
fn render_numbered(text: &Vec<char>, st: &mut MdState, out: &mut Vec<char>)
    ensures
        final(out)@ == old(out)@ + numbered_line(text@, *old(st)).0,
        *final(st) == numbered_line(text@, *old(st)).1,
{
    close_quote_exec(st, out);
    if st.in_list && !st.in_ordered_list {
        emit(out, "</ul>");
        st.in_list = false;
    }
    if !st.in_ordered_list {
        emit(out, "<ol class=\"md-list\">");
        st.in_ordered_list = true;
    }
    emit(out, "<li>");
    let f = inline_format(text);
    extend(out, &f);
    emit(out, "</li>");
    assert(final(out)@ =~= old(out)@ + numbered_line(text@, *old(st)).0);
}

/// Appends a heading element.
fn emit_heading(out: &mut Vec<char>, line: &Vec<char>, level: usize)
    ensures
        final(out)@ == old(out)@ + heading_html(line@, level as nat),
{
    let text = heading_text_of(line);
    let id = heading_id_of(&text);
    let digits = decimal_chars(level as u64);
    emit(out, "<h");
    extend(out, &digits);
    emit(out, " id=\"");
    let eid = escape_html(&id);
    extend(out, &eid);
    emit(out, "\">");
    let f = inline_format(&text);
    extend(out, &f);
    emit(out, "</h");
    extend(out, &digits);
    emit(out, ">");
    assert(final(out)@ =~= old(out)@ + heading_html(line@, level as nat));
}

/// Renders a line outside code blocks and tables.
fn render_block(line: &Vec<char>, st: &mut MdState, out: &mut Vec<char>)
    ensures
        final(out)@ == old(out)@ + block_line(line@, *old(st)).0,
        *final(st) == block_line(line@, *old(st)).1,
{
    reveal(block_line);
    let t = trim_chars(line);
    if t.len() == 0 {
        close_all_exec(st, out);
        return ;
    }
    match heading_level_of(line) {
        Some(level) => {
            close_all_exec(st, out);
            emit_heading(out, line, level);
            assert(final(out)@ =~= old(out)@ + block_line(line@, *old(st)).0);
            return ;
        },
        None => {},
    }
    if eq_str(&t, "---") || eq_str(&t, "***") || eq_str(&t, "___") {
        close_all_exec(st, out);
        emit(out, "<hr class=\"md-hr\">");
        assert(final(out)@ =~= old(out)@ + block_line(line@, *old(st)).0);
        return ;
    }
    if starts_with_str(&t, "> ") || eq_str(&t, ">") {
        render_quote(&t, st, out);
        return ;
    }
    if starts_with_str(&t, "- [x] ") || starts_with_str(&t, "- [ ] ") {
        render_task(&t, st, out);
        return ;
    }
    if starts_with_str(&t, "- ") || starts_with_str(&t, "* ") || starts_with_str(&t, "+ ") {
        render_bullet(&t, st, out);
        return ;
    }
    match parse_ordered_list(&t) {
        Some(text) => {
            render_numbered(&text, st, out);
        },
        None => {
            close_all_exec(st, out);
            emit(out, "<p>");
            let f = inline_format(&t);
            extend(out, &f);
            emit(out, "</p>");
            assert(final(out)@ =~= old(out)@ + block_line(line@, *old(st)).0);
        },
    }
}

/// Renders a line starting with three backquotes.
fn render_fence(line: &Vec<char>, st: &mut MdState, out: &mut Vec<char>)
    ensures
        final(out)@ == old(out)@ + fence_line(line@, *old(st)).0,
        *final(st) == fence_line(line@, *old(st)).1,
{
    reveal(fence_line);
    if st.in_code_block {
        emit(out, "</code></pre>");
        st.in_code_block = false;
    } else {
        close_all_exec(st, out);
        let lang = trim_start_char_chars(line, '`');
        let lang = trim_chars(&lang);
        emit(out, "<pre class=\"md-code-block\"><code");
        if lang.len() > 0 {
            emit(out, " class=\"language-");
            let e = escape_html(&lang);
            extend(out, &e);
            emit(out, "\"");
        }
        emit(out, ">");
        st.in_code_block = true;
        assert(final(out)@ =~= old(out)@ + fence_line(line@, *old(st)).0);
    }
}

/// Renders one line.
pub fn render_line(line: &Vec<char>, st: &mut MdState, out: &mut Vec<char>)
    ensures
        final(out)@ == old(out)@ + md_line(line@, *old(st)).0,
        *final(st) == md_line(line@, *old(st)).1,
{
    if starts_with_str(line, "```") {
        render_fence(line, st, out);
        return ;
    }
    if st.in_code_block {
        let e = escape_html(line);
        extend(out, &e);
        out.push('\n');
        proof {
            reveal_strlit("\n");
        }
        assert(final(out)@ =~= old(out)@ + md_line(line@, *old(st)).0);
        return ;
    }
    let t = trim_chars(line);
    if contains_chars(line, &to_chars("|")) && starts_with_str(&t, "|") {
        render_table_line(line, st, out);
        return ;
    }
    if st.in_table {
        emit(out, "</tbody></table>");
        st.in_table = false;
        render_block(line, st, out);
        assert(final(out)@ =~= old(out)@ + md_line(line@, *old(st)).0);
    } else {
        render_block(line, st, out);
    }
}


/// Renders lines in order, starting from the initial state.
fn render_lines(ls: &Vec<Vec<char>>, out: &mut Vec<char>) -> (st: MdState)
    ensures
        final(out)@ == old(out)@ + md_lines(views(ls@), initial_state()).0,
        st == md_lines(views(ls@), initial_state()).1,
{
    let ghost all = views(ls@);
    let mut st = MdState {
        in_code_block: false,
        in_table: false,
        in_list: false,
        in_ordered_list: false,
        in_blockquote: false,
    };
    let ghost start = out@;
    let mut i: usize = 0;
    assert(all.subrange(0, all.len() as int) =~= all);
    while i < ls.len()
        invariant
            i <= ls.len(),
            all == views(ls@),
            all.len() == ls.len(),
            out@ + md_lines(all.subrange(i as int, all.len() as int), st).0 == start + md_lines(
                all,
                initial_state(),
            ).0,
            md_lines(all.subrange(i as int, all.len() as int), st).1 == md_lines(
                all,
                initial_state(),
            ).1,
        decreases ls.len() - i,
    {
        let ghost x = all.subrange(i as int, all.len() as int);
        let ghost st0 = st;
        let ghost out0 = out@;
        assert(x.drop_first() =~= all.subrange(i + 1, all.len() as int));
        assert(x[0] == ls@[i as int]@);
        render_line(&ls[i], &mut st, out);
        assert(out0 + md_lines(x, st0).0 =~= out@ + md_lines(x.drop_first(), st).0);
        i += 1;
    }
    assert(all.subrange(ls.len() as int, all.len() as int) =~= Seq::<Seq<char>>::empty());
    assert(out@ + Seq::<char>::empty() =~= out@);
    st
}

/// Appends what closes the blocks still open.
fn render_close(st: MdState, out: &mut Vec<char>)
    ensures
        final(out)@ == old(out)@ + md_close(st),
{
    let mut st = st;
    let ghost st0 = st;
    if st.in_code_block {
        emit(out, "</code></pre>");
    }
    if st.in_table {
        emit(out, "</tbody></table>");
    }
    close_all_exec(&mut st, out);
    assert(final(out)@ =~= old(out)@ + md_close(st0));
}

/// Appends one entry of the table of contents.
fn emit_toc_entry(out: &mut Vec<char>, level: usize, text: &Vec<char>)
    requires
        1 <= level <= 6,
    ensures
        final(out)@ == old(out)@ + toc_entry(level as nat, text@),
{
    emit(out, "<li ");
    if level > 1 {
        emit(out, "style=\"margin-left: ");
        let d = decimal_chars((level - 1) as u64);
        extend(out, &d);
        emit(out, "em\"");
    }
    emit(out, "><a href=\"#");
    let id = heading_id_of(text);
    let eid = escape_html(&id);
    extend(out, &eid);
    emit(out, "\">");
    let et = escape_html(text);
    extend(out, &et);
    emit(out, "</a></li>");
    assert(final(out)@ =~= old(out)@ + toc_entry(level as nat, text@));
}

/// Appends the table of contents.
fn render_toc(ls: &Vec<Vec<char>>, out: &mut Vec<char>)
    ensures
        final(out)@ == old(out)@ + toc(views(ls@)),
{
    let ghost all = views(ls@);
    let mut entries: Vec<char> = Vec::new();
    let mut count: usize = 0;
    let mut i: usize = 0;
    while i < ls.len()
        invariant
            i <= ls.len(),
            all == views(ls@),
            all.len() == ls.len(),
            entries@ == toc_entries(toc_items(all.take(i as int))),
            count == toc_items(all.take(i as int)).len(),
            count <= i,
        decreases ls.len() - i,
    {
        let ghost items = toc_items(all.take(i as int));
        assert(all.take(i + 1).drop_last() =~= all.take(i as int));
        assert(all.take(i + 1).last() == ls@[i as int]@);
        match heading_level_of(&ls[i]) {
            Some(level) => {
                let text = heading_text_of(&ls[i]);
                emit_toc_entry(&mut entries, level, &text);
                count = count + 1;
                assert(items.push((level as nat, text@)).drop_last() =~= items);
            },
            None => {},
        }
        i += 1;
    }
    assert(all.take(ls.len() as int) =~= all);
    if count >= 2 {
        emit(out, "<nav class=\"md-toc\">");
        emit(out, "<details open><summary class=\"md-toc-title\">Table of Contents</summary>");
        emit(out, "<ul>");
        extend(out, &entries);
        emit(out, "</ul></details></nav>");
        assert(final(out)@ =~= old(out)@ + toc(views(ls@)));
    } else {
        assert(final(out)@ =~= old(out)@ + toc(views(ls@)));
    }
}

/// Renders a Markdown document as HTML: a table of contents when there are
/// at least two headings, then the blocks, then what closes the blocks still open.
pub fn markdown_to_html(input: &str) -> (html: String)
    ensures
        html@ == markdown_html(input@),
{
    let chars = to_chars(input);
    let ls = split_lines(&chars);
    let mut out: Vec<char> = Vec::new();
    render_toc(&ls, &mut out);
    let st = render_lines(&ls, &mut out);
    render_close(st, &mut out);
    assert(out@ =~= markdown_html(input@));
    from_chars(&out)
}

} // verus!
