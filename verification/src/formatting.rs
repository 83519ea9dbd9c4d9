//! Inline Markdown formatting: HTML escaping, emphasis, strike-through, inline
//! code, links, images and emoji short codes.

use vstd::prelude::*;
use vstd::string::*;
use crate::text::{
    contains, find, is_first_match, matches_at, lemma_find_first, lemma_find_some,
    lemma_find_some_matches, lemma_matches_skip, find_from, slice, extend, to_chars, from_chars,
    push_char,
};

verus! {

// ---------------------------------------------------------------------------
// HTML escaping
// ---------------------------------------------------------------------------

/// The escaped form of one character.
pub open spec fn escape_char(c: char) -> Seq<char> {
    if c == '&' {
        "&amp;"@
    } else if c == '<' {
        "&lt;"@
    } else if c == '>' {
        "&gt;"@
    } else if c == '"' {
        "&quot;"@
    } else {
        seq![c]
    }
}

/// `s` with `&`, `<`, `>` and `"` replaced by their HTML entities.
pub open spec fn escape(s: Seq<char>) -> Seq<char>
    decreases s.len(),
{
    if s.len() == 0 {
        seq![]
    } else {
        escape(s.drop_last()) + escape_char(s.last())
    }
}

proof fn lemma_escape_take(s: Seq<char>, i: int)
    requires
        0 <= i < s.len(),
    ensures
        escape(s.take(i + 1)) == escape(s.take(i)) + escape_char(s[i]),
{
    assert(s.take(i + 1).drop_last() =~= s.take(i));
}

/// Escapes `&`, `<`, `>` and `"` for HTML.
pub fn escape_html(s: &Vec<char>) -> (r: Vec<char>)
    ensures
        r@ == escape(s@),
{
    let mut r: Vec<char> = Vec::new();
    let mut i: usize = 0;
    while i < s.len()
        invariant
            i <= s.len(),
            r@ == escape(s@.take(i as int)),
        decreases s.len() - i,
    {
        let c = s[i];
        proof {
            lemma_escape_take(s@, i as int);
        }
        if c == '&' {
            extend(&mut r, &to_chars("&amp;"));
        } else if c == '<' {
            extend(&mut r, &to_chars("&lt;"));
        } else if c == '>' {
            extend(&mut r, &to_chars("&gt;"));
        } else if c == '"' {
            extend(&mut r, &to_chars("&quot;"));
        } else {
            r.push(c);
            assert(escape_char(c) =~= seq![c]);
        }
        i += 1;
    }
    assert(s@.take(s.len() as int) =~= s@);
    r
}

/// `replace_all` read as a scan from the front: a match at the start is
/// replaced, otherwise the first character is kept.
spec fn replace_scan(t: Seq<char>, p: Seq<char>, r: Seq<char>) -> Seq<char>
    decreases t.len(),
{
    if t.len() == 0 || p.len() == 0 {
        t
    } else if matches_at(t, p, 0) {
        r + replace_scan(t.skip(p.len() as int), p, r)
    } else {
        seq![t[0]] + replace_scan(t.skip(1), p, r)
    }
}

proof fn lemma_replace_scan(t: Seq<char>, p: Seq<char>, r: Seq<char>)
    requires
        p.len() > 0,
    ensures
        replace_all(t, p, r) == replace_scan(t, p, r),
    decreases t.len(),
{
    if t.len() == 0 {
        assert(!contains(t, p));
    } else if matches_at(t, p, 0) {
        lemma_find_first(t, p, 0);
        assert(rest(t, p.len() as int) =~= t.skip(p.len() as int));
        assert(t.take(0) + r =~= r);
        lemma_replace_scan(t.skip(p.len() as int), p, r);
    } else {
        let u = t.skip(1);
        assert(u =~= t.subrange(1, t.len() as int));
        lemma_replace_scan(u, p, r);
        assert forall|k: int| matches_at(u, p, k) <==> (0 <= k && matches_at(t, p, 1 + k)) by {
            lemma_matches_skip(t, p, 1, k);
        }
        if contains(t, p) {
            lemma_find_some(t, p);
            let i = find(t, p)->0;
            assert(i > 0);
            assert(is_first_match(u, p, i - 1));
            lemma_find_first(u, p, i - 1);
            assert(rest(u, i - 1 + p.len()) =~= rest(t, i + p.len()));
            assert(seq![t[0]] + u.take(i - 1) =~= t.take(i));
        } else {
            assert(!contains(u, p)) by {
                if contains(u, p) {
                    let k = choose|k: int| matches_at(u, p, k);
                    assert(matches_at(t, p, 1 + k));
                }
            }
            assert(seq![t[0]] + u =~= t);
        }
    }
}

/// The entities undone: `&quot;`, `&gt;` and `&lt;` first, `&amp;` last.
pub open spec fn unescape(t: Seq<char>) -> Seq<char> {
    let t1 = replace_all(t, "&quot;"@, seq!['"']);
    let t2 = replace_all(t1, "&gt;"@, seq!['>']);
    let t3 = replace_all(t2, "&lt;"@, seq!['<']);
    replace_all(t3, "&amp;"@, seq!['&'])
}

/// No `<`, `>` or `"` in `t`.
pub open spec fn markup_free(t: Seq<char>) -> bool {
    forall|k: int| 0 <= k < t.len() ==> t[k] != '<' && t[k] != '>' && t[k] != '"'
}

/// The character undone at step `n` of `unescape`.
spec fn undone_char(n: nat) -> char {
    if n == 0 {
        '"'
    } else if n == 1 {
        '>'
    } else if n == 2 {
        '<'
    } else {
        '&'
    }
}

/// `c` after `n` steps of `unescape`: back to itself once its step is done.
spec fn part_escaped(c: char, n: nat) -> Seq<char> {
    if (n >= 1 && c == '"') || (n >= 2 && c == '>') || (n >= 3 && c == '<') || (n >= 4 && c
        == '&') {
        seq![c]
    } else {
        escape_char(c)
    }
}

/// `s` escaped and then undone for `n` steps, character by character.
spec fn escaped_after(s: Seq<char>, n: nat) -> Seq<char>
    decreases s.len(),
{
    if s.len() == 0 {
        seq![]
    } else {
        part_escaped(s[0], n) + escaped_after(s.skip(1), n)
    }
}

proof fn lemma_reveal_entities()
    ensures
        "&amp;"@ =~= seq!['&', 'a', 'm', 'p', ';'],
        "&lt;"@ =~= seq!['&', 'l', 't', ';'],
        "&gt;"@ =~= seq!['&', 'g', 't', ';'],
        "&quot;"@ =~= seq!['&', 'q', 'u', 'o', 't', ';'],
{
    reveal_strlit("&amp;");
    reveal_strlit("&lt;");
    reveal_strlit("&gt;");
    reveal_strlit("&quot;");
}

proof fn lemma_escaped_after_push(s: Seq<char>, c: char, n: nat)
    ensures
        escaped_after(s.push(c), n) == escaped_after(s, n) + part_escaped(c, n),
    decreases s.len(),
{
    if s.len() == 0 {
        assert(s.push(c).skip(1) =~= s);
        assert(escaped_after(s.push(c), n) =~= part_escaped(c, n));
    } else {
        assert(s.push(c).skip(1) =~= s.skip(1).push(c));
        lemma_escaped_after_push(s.skip(1), c, n);
        assert(escaped_after(s.push(c), n) =~= escaped_after(s, n) + part_escaped(c, n));
    }
}

proof fn lemma_escape_is_escaped_after(s: Seq<char>)
    ensures
        escape(s) == escaped_after(s, 0),
    decreases s.len(),
{
    if s.len() > 0 {
        lemma_escape_is_escaped_after(s.drop_last());
        lemma_escaped_after_push(s.drop_last(), s.last(), 0);
        assert(s.drop_last().push(s.last()) =~= s);
    }
}

/// No match of `p` starts inside `x`: `x` is copied as it is.
proof fn lemma_replace_copies(x: Seq<char>, rest: Seq<char>, p: Seq<char>, r: Seq<char>)
    requires
        p.len() >= 2,
        p[0] == '&',
        forall|k: int| 0 < k < x.len() ==> x[k] != '&',
        x.len() > 0 && x[0] == '&' ==> x.len() >= 2 && x[1] != p[1],
    ensures
        replace_scan(x + rest, p, r) == x + replace_scan(rest, p, r),
    decreases x.len(),
{
    if x.len() > 0 {
        let t = x + rest;
        assert(!matches_at(t, p, 0)) by {
            if matches_at(t, p, 0) {
                assert(t.subrange(0, p.len() as int)[0] == p[0]);
                assert(t.subrange(0, p.len() as int)[1] == p[1]);
            }
        }
        assert(t.skip(1) =~= x.skip(1) + rest);
        lemma_replace_copies(x.skip(1), rest, p, r);
        assert(replace_scan(t, p, r) =~= x + replace_scan(rest, p, r));
    } else {
        assert(x + rest =~= rest);
    }
}

/// Step `n` of `unescape` takes the text from `n` steps to `n + 1`.
proof fn lemma_unescape_step(s: Seq<char>, n: nat)
    requires
        n < 4,
    ensures
        replace_scan(escaped_after(s, n), escape_char(undone_char(n)), seq![undone_char(n)])
            == escaped_after(s, n + 1),
    decreases s.len(),
{
    lemma_reveal_entities();
    let p = escape_char(undone_char(n));
    let r = seq![undone_char(n)];
    if s.len() > 0 {
        let c = part_escaped(s[0], n);
        let rest = escaped_after(s.skip(1), n);
        lemma_unescape_step(s.skip(1), n);
        if s[0] == undone_char(n) {
            assert(c == p);
            assert((c + rest).skip(p.len() as int) =~= rest);
            assert((c + rest).subrange(0, p.len() as int) =~= p);
            assert(part_escaped(s[0], n + 1) =~= r);
        } else {
            assert(part_escaped(s[0], n + 1) == c);
            lemma_replace_copies(c, rest, p, r);
        }
    }
}

proof fn lemma_fully_undone(s: Seq<char>)
    ensures
        escaped_after(s, 4) == s,
    decreases s.len(),
{
    if s.len() > 0 {
        lemma_fully_undone(s.skip(1));
        assert(seq![s[0]] + s.skip(1) =~= s);
    }
}

proof fn lemma_escape_markup_free(s: Seq<char>)
    ensures
        markup_free(escape(s)),
    decreases s.len(),
{
    lemma_reveal_entities();
    if s.len() > 0 {
        lemma_escape_markup_free(s.drop_last());
        let a = escape(s.drop_last());
        let b = escape_char(s.last());
        assert(markup_free(b));
        assert forall|k: int| 0 <= k < (a + b).len() implies (a + b)[k] != '<' && (a + b)[k]
            != '>' && (a + b)[k] != '"' by {
            if k >= a.len() {
                assert((a + b)[k] == b[k - a.len()]);
            }
        }
    }
}

/// Escaped text holds no `<`, `>` or `"`, and undoing its entities
/// (`&quot;`, `&gt;` and `&lt;` first, `&amp;` last) gives the text back.
pub proof fn law_escape_round_trip(s: Seq<char>)
    ensures
        markup_free(escape(s)),
        unescape(escape(s)) == s,
{
    lemma_escape_markup_free(s);
    lemma_reveal_entities();
    lemma_escape_is_escaped_after(s);
    lemma_replace_scan(escaped_after(s, 0), "&quot;"@, seq!['"']);
    lemma_unescape_step(s, 0);
    lemma_replace_scan(escaped_after(s, 1), "&gt;"@, seq!['>']);
    lemma_unescape_step(s, 1);
    lemma_replace_scan(escaped_after(s, 2), "&lt;"@, seq!['<']);
    lemma_unescape_step(s, 2);
    lemma_replace_scan(escaped_after(s, 3), "&amp;"@, seq!['&']);
    lemma_unescape_step(s, 3);
    lemma_fully_undone(s);
}

// ---------------------------------------------------------------------------
// Paired and single delimiters
// ---------------------------------------------------------------------------

/// `t` from position `i` to its end.
pub open spec fn rest(t: Seq<char>, i: int) -> Seq<char> {
    t.subrange(i, t.len() as int)
}

/// Every `open ... close` pair in `t` replaced by `ho ... hc`, scanning left
/// to right; an `open` without a later `close` stays as it is.
pub open spec fn replace_pair(
    t: Seq<char>,
    open: Seq<char>,
    close: Seq<char>,
    ho: Seq<char>,
    hc: Seq<char>,
) -> Seq<char>
    decreases t.len(),
{
    if open.len() == 0 {
        t
    } else {
        match find(t, open) {
            None => t,
            Some(i) => {
                proof {
                    lemma_find_some_matches(t, open);
                }
                let after = rest(t, i + open.len());
                match find(after, close) {
                    Some(j) => {
                        proof {
                            lemma_find_some_matches(after, close);
                        }
                        t.take(i) + ho + after.take(j) + hc + replace_pair(
                            rest(after, j + close.len()),
                            open,
                            close,
                            ho,
                            hc,
                        )
                    },
                    None => t.take(i) + open + replace_pair(after, open, close, ho, hc),
                }
            },
        }
    }
}

proof fn lemma_rest_rest(t: Seq<char>, a: int, b: int)
    requires
        0 <= a <= b <= t.len(),
    ensures
        rest(rest(t, a), b - a) == rest(t, b),
{
    assert(rest(rest(t, a), b - a) =~= rest(t, b));
}

proof fn lemma_rest_take(t: Seq<char>, a: int, b: int)
    requires
        0 <= a <= b <= t.len(),
    ensures
        rest(t, a).take(b - a) == t.subrange(a, b),
{
    assert(rest(t, a).take(b - a) =~= t.subrange(a, b));
}

/// A found position in `rest(t, pos)`, shifted back into `t`, leaves room for the pattern.
proof fn lemma_found(t: Seq<char>, p: Seq<char>, pos: int, i: int)
    requires
        0 <= pos <= t.len(),
        find(rest(t, pos), p) == Some(i - pos),
    ensures
        pos <= i,
        i + p.len() <= t.len(),
{
    lemma_find_some_matches(rest(t, pos), p);
}

/// Replaces `open ... close` pairs by `ho ... hc` (bold, strike-through).
pub fn replace_pattern(
    t: &Vec<char>,
    open: &Vec<char>,
    close: &Vec<char>,
    ho: &Vec<char>,
    hc: &Vec<char>,
) -> (r: Vec<char>)
    requires
        open@.len() > 0,
    ensures
        r@ == replace_pair(t@, open@, close@, ho@, hc@),
{
    let mut r: Vec<char> = Vec::new();
    let mut pos: usize = 0;
    assert(rest(t@, 0) =~= t@);
    while pos < t.len()
        invariant
            pos <= t.len(),
            open@.len() > 0,
            r@ + replace_pair(rest(t@, pos as int), open@, close@, ho@, hc@) == replace_pair(
                t@,
                open@,
                close@,
                ho@,
                hc@,
            ),
        decreases t.len() - pos,
    {
        let ghost s = rest(t@, pos as int);
        match find_from(t, open, pos) {
            None => {
                let tail = slice(t, pos, t.len());
                extend(&mut r, &tail);
                assert(replace_pair(s, open@, close@, ho@, hc@) == s);
                assert(rest(t@, t.len() as int) =~= Seq::<char>::empty());
                pos = t.len();
                assert(replace_pair(rest(t@, pos as int), open@, close@, ho@, hc@) =~= Seq::<
                    char,
                >::empty());
                assert(r@ =~= r@ + Seq::<char>::empty());
            },
            Some(i) => {
                proof {
                    lemma_found(t@, open@, pos as int, i as int);
                }
                let a = i + open.len();
                proof {
                    lemma_rest_rest(t@, pos as int, a as int);
                    lemma_rest_take(t@, pos as int, i as int);
                }
                let before = slice(t, pos, i);
                extend(&mut r, &before);
                match find_from(t, close, a) {
                    Some(j) => {
                        proof {
                            lemma_found(t@, close@, a as int, j as int);
                            lemma_rest_take(t@, a as int, j as int);
                            lemma_rest_rest(t@, a as int, j + close@.len());
                        }
                        let inner = slice(t, a, j);
                        extend(&mut r, ho);
                        extend(&mut r, &inner);
                        extend(&mut r, hc);
                        pos = j + close.len();
                    },
                    None => {
                        extend(&mut r, open);
                        pos = a;
                    },
                }
            },
        }
    }
    proof {
        assert(rest(t@, pos as int) =~= Seq::<char>::empty());
        assert(replace_pair(Seq::<char>::empty(), open@, close@, ho@, hc@) == Seq::<
            char,
        >::empty()) by {
            assert(!contains(Seq::<char>::empty(), open@));
        }
        assert(r@ + Seq::<char>::empty() =~= r@);
    }
    r
}


/// Alternating occurrences of `d` in `t` replaced by `ho` and `hc`; an
/// opening `d` with no later `d` stays as it is. `open` says whether a
/// replaced opening delimiter is still waiting for its closing one.
pub open spec fn replace_single(
    t: Seq<char>,
    d: Seq<char>,
    ho: Seq<char>,
    hc: Seq<char>,
    open: bool,
) -> Seq<char>
    decreases t.len(),
{
    if d.len() == 0 {
        t
    } else {
        match find(t, d) {
            None => t,
            Some(p) => {
                proof {
                    lemma_find_some_matches(t, d);
                }
                let after = rest(t, p + d.len());
                if !open {
                    if contains(after, d) {
                        t.take(p) + ho + replace_single(after, d, ho, hc, true)
                    } else {
                        t.take(p) + d + replace_single(after, d, ho, hc, false)
                    }
                } else {
                    t.take(p) + hc + replace_single(after, d, ho, hc, false)
                }
            },
        }
    }
}

proof fn lemma_rest_contains(t: Seq<char>, d: Seq<char>, a: int)
    requires
        0 <= a <= t.len(),
    ensures
        (find(rest(t, a), d) is Some) == contains(rest(t, a), d),
{
}

/// Replaces alternating single delimiters by `ho` and `hc` (italic, inline code).
pub fn replace_single_pattern(t: &Vec<char>, d: &Vec<char>, ho: &Vec<char>, hc: &Vec<char>) -> (r:
    Vec<char>)
    requires
        d@.len() > 0,
    ensures
        r@ == replace_single(t@, d@, ho@, hc@, false),
{
    let mut r: Vec<char> = Vec::new();
    let mut pos: usize = 0;
    let mut open = false;
    assert(rest(t@, 0) =~= t@);
    loop
        invariant
            pos <= t.len(),
            d@.len() > 0,
            r@ + replace_single(rest(t@, pos as int), d@, ho@, hc@, open) == replace_single(
                t@,
                d@,
                ho@,
                hc@,
                false,
            ),
        decreases t.len() - pos,
    {
        match find_from(t, d, pos) {
            None => {
                let tail = slice(t, pos, t.len());
                extend(&mut r, &tail);
                return r;
            },
            Some(p) => {
                proof {
                    lemma_found(t@, d@, pos as int, p as int);
                    lemma_rest_take(t@, pos as int, p as int);
                }
                let a = p + d.len();
                proof {
                    lemma_rest_rest(t@, pos as int, a as int);
                }
                let before = slice(t, pos, p);
                extend(&mut r, &before);
                if !open {
                    let nxt = find_from(t, d, a);
                    proof {
                        lemma_rest_contains(t@, d@, a as int);
                    }
                    if nxt.is_some() {
                        extend(&mut r, ho);
                        open = true;
                    } else {
                        extend(&mut r, d);
                    }
                } else {
                    extend(&mut r, hc);
                    open = false;
                }
                pos = a;
            },
        }
    }
}

/// Every occurrence of `from` in `t` replaced by `to` (`str::replace`).
pub open spec fn replace_all(t: Seq<char>, from: Seq<char>, to: Seq<char>) -> Seq<char>
    decreases t.len(),
{
    if from.len() == 0 {
        t
    } else {
        match find(t, from) {
            None => t,
            Some(i) => {
                proof {
                    lemma_find_some_matches(t, from);
                }
                t.take(i) + to + replace_all(rest(t, i + from.len()), from, to)
            },
        }
    }
}

/// Replaces every occurrence of `from` in `t` by `to`.
pub fn replace_all_chars(t: &Vec<char>, from: &Vec<char>, to: &Vec<char>) -> (r: Vec<char>)
    requires
        from@.len() > 0,
    ensures
        r@ == replace_all(t@, from@, to@),
{
    let mut r: Vec<char> = Vec::new();
    let mut pos: usize = 0;
    assert(rest(t@, 0) =~= t@);
    loop
        invariant
            pos <= t.len(),
            from@.len() > 0,
            r@ + replace_all(rest(t@, pos as int), from@, to@) == replace_all(t@, from@, to@),
        decreases t.len() - pos,
    {
        match find_from(t, from, pos) {
            None => {
                let tail = slice(t, pos, t.len());
                extend(&mut r, &tail);
                return r;
            },
            Some(i) => {
                proof {
                    lemma_found(t@, from@, pos as int, i as int);
                    lemma_rest_take(t@, pos as int, i as int);
                    lemma_rest_rest(t@, pos as int, i + from@.len());
                }
                let before = slice(t, pos, i);
                extend(&mut r, &before);
                extend(&mut r, to);
                pos = i + from.len();
            },
        }
    }
}

// ---------------------------------------------------------------------------
// Links and images
// ---------------------------------------------------------------------------

/// The anchor for a Markdown link.
pub open spec fn link_html(url: Seq<char>, text: Seq<char>) -> Seq<char> {
    "<a href=\""@ + url + "\" target=\"_blank\" rel=\"noopener\">"@ + text + "</a>"@
}

/// The image element for a Markdown image.
pub open spec fn image_html(url: Seq<char>, alt: Seq<char>) -> Seq<char> {
    "<img src=\""@ + url + "\" alt=\""@ + alt + "\" class=\"md-image\">"@
}

/// `[text](url)` links in `t` replaced by anchors; a `[` right after `!`
/// (an image) is left for `images`.
pub open spec fn links(t: Seq<char>) -> Seq<char>
    decreases t.len(),
{
    match find(t, "["@) {
        None => t,
        Some(b) => {
            proof {
                lemma_find_some_matches(t, "["@);
                reveal_strlit("[");
            }
            if b > 0 && t[b - 1] == '!' {
                t.take(b + 1) + links(rest(t, b + 1))
            } else {
                let ab = rest(t, b + 1);
                match find(ab, "]"@) {
                    Some(be) => {
                        proof {
                            lemma_find_some_matches(ab, "]"@);
                            reveal_strlit("]");
                        }
                        let ac = rest(ab, be + 1);
                        if ac.len() > 0 && ac[0] == '(' {
                            match find(ac, ")"@) {
                                Some(pe) => {
                                    proof {
                                        lemma_find_some_matches(ac, ")"@);
                                        reveal_strlit(")");
                                    }
                                    t.take(b) + link_html(ac.subrange(1, pe), ab.take(be)) + links(
                                        rest(ac, pe + 1),
                                    )
                                },
                                None => t.take(b) + "["@ + links(ab),
                            }
                        } else {
                            t.take(b) + "["@ + links(ab)
                        }
                    },
                    None => t.take(b) + "["@ + links(ab),
                }
            }
        },
    }
}

/// `![alt](url)` images in `t` replaced by image elements.
pub open spec fn images(t: Seq<char>) -> Seq<char>
    decreases t.len(),
{
    match find(t, "!["@) {
        None => t,
        Some(p) => {
            proof {
                lemma_find_some_matches(t, "!["@);
                reveal_strlit("![");
            }
            let after = rest(t, p + 2);
            match find(after, "]"@) {
                Some(be) => {
                    proof {
                        lemma_find_some_matches(after, "]"@);
                        reveal_strlit("]");
                    }
                    let ac = rest(after, be + 1);
                    if ac.len() > 0 && ac[0] == '(' {
                        match find(ac, ")"@) {
                            Some(pe) => {
                                proof {
                                    lemma_find_some_matches(ac, ")"@);
                                    reveal_strlit(")");
                                }
                                t.take(p) + image_html(ac.subrange(1, pe), after.take(be)) + images(
                                    rest(ac, pe + 1),
                                )
                            },
                            None => t.take(p) + "!["@ + images(after),
                        }
                    } else {
                        t.take(p) + "!["@ + images(after)
                    }
                },
                None => t.take(p) + "!["@ + images(after),
            }
        },
    }
}


proof fn lemma_rest_sub(t: Seq<char>, a: int, x: int, y: int)
    requires
        0 <= a <= t.len(),
        0 <= x <= y <= t.len() - a,
    ensures
        rest(t, a).subrange(x, y) == t.subrange(a + x, a + y),
{
    assert(rest(t, a).subrange(x, y) =~= t.subrange(a + x, a + y));
}

/// Appends the anchor for a link with the given URL and text.
fn push_link(r: &mut Vec<char>, url: &Vec<char>, text: &Vec<char>)
    ensures
        final(r)@ == old(r)@ + link_html(url@, text@),
{
    extend(r, &to_chars("<a href=\""));
    extend(r, url);
    extend(r, &to_chars("\" target=\"_blank\" rel=\"noopener\">"));
    extend(r, text);
    extend(r, &to_chars("</a>"));
    assert(final(r)@ =~= old(r)@ + link_html(url@, text@));
}

/// Appends the image element for an image with the given URL and alt text.
fn push_image(r: &mut Vec<char>, url: &Vec<char>, alt: &Vec<char>)
    ensures
        final(r)@ == old(r)@ + image_html(url@, alt@),
{
    extend(r, &to_chars("<img src=\""));
    extend(r, url);
    extend(r, &to_chars("\" alt=\""));
    extend(r, alt);
    extend(r, &to_chars("\" class=\"md-image\">"));
    assert(final(r)@ =~= old(r)@ + image_html(url@, alt@));
}

/// The closing `)` of a link target is never its opening `(`.
proof fn lemma_paren_after(t: Seq<char>, ac: int, pe: int)
    requires
        0 <= ac < t.len(),
        t[ac] == '(',
        find(rest(t, ac), ")"@) == Some(pe - ac),
    ensures
        ac < pe,
        pe < t.len(),
{
    reveal_strlit(")");
    lemma_find_some_matches(rest(t, ac), ")"@);
    if pe == ac {
        assert(rest(t, ac).subrange(0, 1)[0] == ')');
    }
}

/// Replaces `[text](url)` links by anchors.
pub fn replace_links(t: &Vec<char>) -> (r: Vec<char>)
    ensures
        r@ == links(t@),
{
    let lb = to_chars("[");
    let rb = to_chars("]");
    let rp = to_chars(")");
    proof {
        reveal_strlit("[");
        reveal_strlit("]");
        reveal_strlit(")");
    }
    let mut r: Vec<char> = Vec::new();
    let mut pos: usize = 0;
    assert(rest(t@, 0) =~= t@);
    loop
        invariant
            pos <= t.len(),
            lb@ == "["@,
            rb@ == "]"@,
            rp@ == ")"@,
            "["@ == seq!['['],
            "]"@.len() == 1,
            r@ + links(rest(t@, pos as int)) == links(t@),
        decreases t.len() - pos,
    {
        let ghost s = rest(t@, pos as int);
        match find_from(t, &lb, pos) {
            None => {
                let tail = slice(t, pos, t.len());
                extend(&mut r, &tail);
                return r;
            },
            Some(b) => {
                proof {
                    lemma_found(t@, lb@, pos as int, b as int);
                    lemma_rest_take(t@, pos as int, b as int);
                    lemma_rest_take(t@, pos as int, b + 1);
                    lemma_rest_rest(t@, pos as int, b + 1);
                }
                if b > pos && t[b - 1] == '!' {
                    let seg = slice(t, pos, b + 1);
                    extend(&mut r, &seg);
                    pos = b + 1;
                } else {
                    let before = slice(t, pos, b);
                    extend(&mut r, &before);
                    let ab = b + 1;
                    let mut done = false;
                    match find_from(t, &rb, ab) {
                        Some(be) => {
                            proof {
                                lemma_found(t@, rb@, ab as int, be as int);
                                lemma_rest_take(t@, ab as int, be as int);
                                lemma_rest_rest(t@, ab as int, be + 1);
                            }
                            let ac = be + 1;
                            if ac < t.len() && t[ac] == '(' {
                                match find_from(t, &rp, ac) {
                                    Some(pe) => {
                                        proof {
                                            lemma_paren_after(t@, ac as int, pe as int);
                                            lemma_rest_sub(t@, ac as int, 1, pe - ac);
                                            lemma_rest_rest(t@, ac as int, pe + 1);
                                        }
                                        let url = slice(t, ac + 1, pe);
                                        let text = slice(t, ab, be);
                                        push_link(&mut r, &url, &text);
                                        pos = pe + 1;
                                        done = true;
                                    },
                                    None => {},
                                }
                            }
                        },
                        None => {},
                    }
                    if !done {
                        r.push('[');
                        pos = ab;
                    }
                }
            },
        }
    }
}

/// Replaces `![alt](url)` images by image elements.
pub fn replace_images(t: &Vec<char>) -> (r: Vec<char>)
    ensures
        r@ == images(t@),
{
    let bang = to_chars("![");
    let rb = to_chars("]");
    let rp = to_chars(")");
    proof {
        reveal_strlit("![");
        reveal_strlit("]");
        reveal_strlit(")");
    }
    let mut r: Vec<char> = Vec::new();
    let mut pos: usize = 0;
    assert(rest(t@, 0) =~= t@);
    loop
        invariant
            pos <= t.len(),
            bang@ == "!["@,
            rb@ == "]"@,
            rp@ == ")"@,
            "!["@.len() == 2,
            "]"@.len() == 1,
            r@ + images(rest(t@, pos as int)) == images(t@),
        decreases t.len() - pos,
    {
        match find_from(t, &bang, pos) {
            None => {
                let tail = slice(t, pos, t.len());
                extend(&mut r, &tail);
                return r;
            },
            Some(p) => {
                proof {
                    lemma_found(t@, bang@, pos as int, p as int);
                    lemma_rest_take(t@, pos as int, p as int);
                    lemma_rest_rest(t@, pos as int, p + 2);
                }
                let before = slice(t, pos, p);
                extend(&mut r, &before);
                let a = p + 2;
                let mut done = false;
                match find_from(t, &rb, a) {
                    Some(be) => {
                        proof {
                            lemma_found(t@, rb@, a as int, be as int);
                            lemma_rest_take(t@, a as int, be as int);
                            lemma_rest_rest(t@, a as int, be + 1);
                        }
                        let ac = be + 1;
                        if ac < t.len() && t[ac] == '(' {
                            match find_from(t, &rp, ac) {
                                Some(pe) => {
                                    proof {
                                        lemma_paren_after(t@, ac as int, pe as int);
                                        lemma_rest_sub(t@, ac as int, 1, pe - ac);
                                        lemma_rest_rest(t@, ac as int, pe + 1);
                                    }
                                    let url = slice(t, ac + 1, pe);
                                    let alt = slice(t, a, be);
                                    push_image(&mut r, &url, &alt);
                                    pos = pe + 1;
                                    done = true;
                                },
                                None => {},
                            }
                        }
                    },
                    None => {},
                }
                if !done {
                    extend(&mut r, &bang);
                    pos = a;
                }
            },
        }
    }
}


/// Emoji short codes in `t` replaced by the emoji they name, one code after another.
pub open spec fn emojis(t: Seq<char>) -> Seq<char> {
    let r = t;
    let r = replace_all(r, ":smile:"@, "\u{1F604}"@);
    let r = replace_all(r, ":laughing:"@, "\u{1F606}"@);
    let r = replace_all(r, ":thumbsup:"@, "\u{1F44D}"@);
    let r = replace_all(r, ":thumbsdown:"@, "\u{1F44E}"@);
    let r = replace_all(r, ":heart:"@, "\u{2764}\u{FE0F}"@);
    let r = replace_all(r, ":star:"@, "\u{2B50}"@);
    let r = replace_all(r, ":fire:"@, "\u{1F525}"@);
    let r = replace_all(r, ":rocket:"@, "\u{1F680}"@);
    let r = replace_all(r, ":warning:"@, "\u{26A0}\u{FE0F}"@);
    let r = replace_all(r, ":check:"@, "\u{2705}"@);
    let r = replace_all(r, ":x:"@, "\u{274C}"@);
    let r = replace_all(r, ":info:"@, "\u{2139}\u{FE0F}"@);
    let r = replace_all(r, ":bulb:"@, "\u{1F4A1}"@);
    let r = replace_all(r, ":memo:"@, "\u{1F4DD}"@);
    let r = replace_all(r, ":tada:"@, "\u{1F389}"@);
    let r = replace_all(r, ":eyes:"@, "\u{1F440}"@);
    let r = replace_all(r, ":thinking:"@, "\u{1F914}"@);
    let r = replace_all(r, ":wave:"@, "\u{1F44B}"@);
    let r = replace_all(r, ":clap:"@, "\u{1F44F}"@);
    let r = replace_all(r, ":100:"@, "\u{1F4AF}"@);
    r
}

/// Replaces emoji short codes by the emoji they name.
pub fn replace_emojis(t: &Vec<char>) -> (r: Vec<char>)
    ensures
        r@ == emojis(t@),
{
    proof {
        reveal_strlit(":smile:");
        reveal_strlit(":laughing:");
        reveal_strlit(":thumbsup:");
        reveal_strlit(":thumbsdown:");
        reveal_strlit(":heart:");
        reveal_strlit(":star:");
        reveal_strlit(":fire:");
        reveal_strlit(":rocket:");
        reveal_strlit(":warning:");
        reveal_strlit(":check:");
        reveal_strlit(":x:");
        reveal_strlit(":info:");
        reveal_strlit(":bulb:");
        reveal_strlit(":memo:");
        reveal_strlit(":tada:");
        reveal_strlit(":eyes:");
        reveal_strlit(":thinking:");
        reveal_strlit(":wave:");
        reveal_strlit(":clap:");
        reveal_strlit(":100:");
    }
    let r = slice(t, 0, t.len());
    assert(r@ =~= t@);
    let r = replace_all_chars(&r, &to_chars(":smile:"), &to_chars("\u{1F604}"));
    let r = replace_all_chars(&r, &to_chars(":laughing:"), &to_chars("\u{1F606}"));
    let r = replace_all_chars(&r, &to_chars(":thumbsup:"), &to_chars("\u{1F44D}"));
    let r = replace_all_chars(&r, &to_chars(":thumbsdown:"), &to_chars("\u{1F44E}"));
    let r = replace_all_chars(&r, &to_chars(":heart:"), &to_chars("\u{2764}\u{FE0F}"));
    let r = replace_all_chars(&r, &to_chars(":star:"), &to_chars("\u{2B50}"));
    let r = replace_all_chars(&r, &to_chars(":fire:"), &to_chars("\u{1F525}"));
    let r = replace_all_chars(&r, &to_chars(":rocket:"), &to_chars("\u{1F680}"));
    let r = replace_all_chars(&r, &to_chars(":warning:"), &to_chars("\u{26A0}\u{FE0F}"));
    let r = replace_all_chars(&r, &to_chars(":check:"), &to_chars("\u{2705}"));
    let r = replace_all_chars(&r, &to_chars(":x:"), &to_chars("\u{274C}"));
    let r = replace_all_chars(&r, &to_chars(":info:"), &to_chars("\u{2139}\u{FE0F}"));
    let r = replace_all_chars(&r, &to_chars(":bulb:"), &to_chars("\u{1F4A1}"));
    let r = replace_all_chars(&r, &to_chars(":memo:"), &to_chars("\u{1F4DD}"));
    let r = replace_all_chars(&r, &to_chars(":tada:"), &to_chars("\u{1F389}"));
    let r = replace_all_chars(&r, &to_chars(":eyes:"), &to_chars("\u{1F440}"));
    let r = replace_all_chars(&r, &to_chars(":thinking:"), &to_chars("\u{1F914}"));
    let r = replace_all_chars(&r, &to_chars(":wave:"), &to_chars("\u{1F44B}"));
    let r = replace_all_chars(&r, &to_chars(":clap:"), &to_chars("\u{1F44F}"));
    let r = replace_all_chars(&r, &to_chars(":100:"), &to_chars("\u{1F4AF}"));
    r
}

/// The inline formatting of one line of text: escaping, emphasis, strike-through,
/// inline code, links, images and emoji, in that order.
pub open spec fn inline_md(text: Seq<char>) -> Seq<char> {
    let r = escape(text);
    let r = replace_pair(r, "***"@, "***"@, "<strong><em>"@, "</em></strong>"@);
    let r = replace_pair(r, "___"@, "___"@, "<strong><em>"@, "</em></strong>"@);
    let r = replace_pair(r, "**"@, "**"@, "<strong>"@, "</strong>"@);
    let r = replace_pair(r, "__"@, "__"@, "<strong>"@, "</strong>"@);
    let r = replace_single(r, "*"@, "<em>"@, "</em>"@, false);
    let r = replace_single(r, "_"@, "<em>"@, "</em>"@, false);
    let r = replace_pair(r, "~~"@, "~~"@, "<del>"@, "</del>"@);
    let r = replace_single(r, "`"@, "<code class=\"md-inline-code\">"@, "</code>"@, false);
    let r = links(r);
    let r = images(r);
    emojis(r)
}

/// Formats one line of Markdown text as inline HTML.
pub fn inline_format(text: &Vec<char>) -> (r: Vec<char>)
    ensures
        r@ == inline_md(text@),
{
    proof {
        reveal_strlit("***");
        reveal_strlit("___");
        reveal_strlit("**");
        reveal_strlit("__");
        reveal_strlit("*");
        reveal_strlit("_");
        reveal_strlit("~~");
        reveal_strlit("`");
    }
    let r = escape_html(text);
    let r = replace_pattern(&r, &to_chars("***"), &to_chars("***"), &to_chars("<strong><em>"), &to_chars("</em></strong>"));
    let r = replace_pattern(&r, &to_chars("___"), &to_chars("___"), &to_chars("<strong><em>"), &to_chars("</em></strong>"));
    let r = replace_pattern(&r, &to_chars("**"), &to_chars("**"), &to_chars("<strong>"), &to_chars("</strong>"));
    let r = replace_pattern(&r, &to_chars("__"), &to_chars("__"), &to_chars("<strong>"), &to_chars("</strong>"));
    let r = replace_single_pattern(&r, &to_chars("*"), &to_chars("<em>"), &to_chars("</em>"));
    let r = replace_single_pattern(&r, &to_chars("_"), &to_chars("<em>"), &to_chars("</em>"));
    let r = replace_pattern(&r, &to_chars("~~"), &to_chars("~~"), &to_chars("<del>"), &to_chars("</del>"));
    let r = replace_single_pattern(&r, &to_chars("`"), &to_chars("<code class=\"md-inline-code\">"), &to_chars("</code>"));
    let r = replace_links(&r);
    let r = replace_images(&r);
    replace_emojis(&r)
}

} // verus!
