//! The command palette: fuzzy search over the tools, ranking by how well a
//! tool matches the query, and keyboard selection among the results.
use vstd::prelude::*;
use vstd::string::*;
use crate::text::{string_views, contains, lower, starts_with, contains_chars, lowercase, starts_with_chars, to_chars, eq_chars};

verus! {

/// A tool as the palette lists it.
#[derive(Clone, PartialEq)]
pub struct ToolItem {
    pub id: String,
    pub name: String,
    pub description: String,
    pub category: String,
    pub icon: String,
    pub keywords: Vec<String>,
}

/// A tool's fields as character sequences.
pub struct ToolView {
    pub id: Seq<char>,
    pub name: Seq<char>,
    pub description: Seq<char>,
    pub category: Seq<char>,
    pub icon: Seq<char>,
    pub keywords: Seq<Seq<char>>,
}

impl View for ToolItem {
    type V = ToolView;

    open spec fn view(&self) -> ToolView {
        ToolView {
            id: self.id@,
            name: self.name@,
            description: self.description@,
            category: self.category@,
            icon: self.icon@,
            keywords: string_views(self.keywords@),
        }
    }
}

/// Greedy in-order matching: every character of `q` is found in `t`, each
/// after the previous one.
pub open spec fn subsequence(q: Seq<char>, t: Seq<char>) -> bool
    decreases t.len(),
{
    if q.len() == 0 {
        true
    } else if t.len() == 0 {
        false
    } else if t[0] == q[0] {
        subsequence(q.drop_first(), t.drop_first())
    } else {
        subsequence(q, t.drop_first())
    }
}

/// Whether `query` matches `target`: an empty query matches everything;
/// otherwise, ignoring case, the query occurs in the target or its
/// characters occur in the target in order.
pub open spec fn fuzzy(query: Seq<char>, target: Seq<char>) -> bool {
    query.len() == 0 || contains(lower(target), lower(query)) || subsequence(
        lower(query),
        lower(target),
    )
}

/// Some keyword, in lower case, holds `q`.
pub open spec fn some_keyword_contains(kws: Seq<Seq<char>>, q: Seq<char>) -> bool {
    exists|i: int| 0 <= i < kws.len() && contains(lower(kws[i]), q)
}

/// Some keyword, in lower case, matches `q` fuzzily.
pub open spec fn some_keyword_fuzzy(kws: Seq<Seq<char>>, q: Seq<char>) -> bool {
    exists|i: int| 0 <= i < kws.len() && fuzzy(q, lower(kws[i]))
}

/// How well a tool matches the query: 100 for the exact name, 90 for a name
/// that starts with it, 80 for a name that holds it, 70 for the id, 60 for a
/// keyword, 50 for the description, 40 for the category, 30 for a fuzzy
/// match of the name, 20 for a fuzzy match of a keyword, and -1 for no match
/// (all ignoring case); an empty query scores 0.
pub open spec fn score(query: Seq<char>, tool: ToolView) -> int {
    if query.len() == 0 {
        0
    } else {
        let q = lower(query);
        let name = lower(tool.name);
        let kws = tool.keywords;
        if name == q {
            100
        } else if starts_with(name, q) {
            90
        } else if contains(name, q) {
            80
        } else if contains(lower(tool.id), q) {
            70
        } else if some_keyword_contains(kws, q) {
            60
        } else if contains(lower(tool.description), q) {
            50
        } else if contains(lower(tool.category), q) {
            40
        } else if fuzzy(q, name) {
            30
        } else if some_keyword_fuzzy(kws, q) {
            20
        } else {
            -1
        }
    }
}

/// The lower-case characters of a string.
fn lower_of(s: &String) -> (v: Vec<char>)
    ensures
        v@ == lower(s@),
{
    let l = lowercase(s.as_str());
    to_chars(l.as_str())
}

/// Greedy in-order matching of `q` in `t`.
pub fn is_subsequence(q: &Vec<char>, t: &Vec<char>) -> (b: bool)
    ensures
        b == subsequence(q@, t@),
{
    let mut qi: usize = 0;
    let mut i: usize = 0;
    assert(q@.subrange(0, q.len() as int) =~= q@);
    assert(t@.subrange(0, t.len() as int) =~= t@);
    while i < t.len()
        invariant
            qi <= q.len(),
            i <= t.len(),
            subsequence(q@, t@) == subsequence(
                q@.subrange(qi as int, q.len() as int),
                t@.subrange(i as int, t.len() as int),
            ),
        decreases t.len() - i,
    {
        let ghost qs = q@.subrange(qi as int, q.len() as int);
        let ghost ts = t@.subrange(i as int, t.len() as int);
        assert(ts.drop_first() =~= t@.subrange(i + 1, t.len() as int));
        if qi < q.len() {
            assert(qs.drop_first() =~= q@.subrange(qi + 1, q.len() as int));
            if t[i] == q[qi] {
                qi += 1;
            }
        }
        i += 1;
    }
    qi == q.len()
}

/// Whether `query` matches `target` (see `fuzzy`).
pub fn fuzzy_match(query: &String, target: &String) -> (b: bool)
    ensures
        b == fuzzy(query@, target@),
{
    if query.as_str().is_empty() {
        return true;
    }
    let ql = lower_of(query);
    let tl = lower_of(target);
    if contains_chars(&tl, &ql) {
        return true;
    }
    is_subsequence(&ql, &tl)
}

/// Whether `ql` matches `tl` (see `fuzzy`), with both given as characters.
fn fuzzy_chars(ql: &Vec<char>, tl: &Vec<char>) -> (b: bool)
    ensures
        b == fuzzy(ql@, tl@),
{
    let q = crate::text::from_chars(ql);
    let t = crate::text::from_chars(tl);
    fuzzy_match(&q, &t)
}

/// How well `tool` matches `query` (see `score`).
#[verifier::loop_isolation(false)]
pub fn score_match(query: &String, tool: &ToolItem) -> (s: i32)
    ensures
        s as int == score(query@, tool@),
{
    if query.as_str().is_empty() {
        return 0;
    }
    let q = lower_of(query);
    let name = lower_of(&tool.name);
    let ghost kws = string_views(tool.keywords@);
    if eq_chars(&name, &q) {
        return 100;
    }
    if starts_with_chars(&name, &q) {
        return 90;
    }
    if contains_chars(&name, &q) {
        return 80;
    }
    if contains_chars(&lower_of(&tool.id), &q) {
        return 70;
    }
    let mut k: usize = 0;
    while k < tool.keywords.len()
        invariant
            k <= tool.keywords.len(),
            kws == string_views(tool.keywords@),
            forall|j: int| 0 <= j < k ==> !contains(lower(kws[j]), q@),
        decreases tool.keywords.len() - k,
    {
        if contains_chars(&lower_of(&tool.keywords[k]), &q) {
            assert(kws[k as int] == tool.keywords@[k as int]@);
            assert(0 <= k < kws.len() && contains(lower(kws[k as int]), q@));
            return 60;
        }
        k += 1;
    }
    if contains_chars(&lower_of(&tool.description), &q) {
        return 50;
    }
    if contains_chars(&lower_of(&tool.category), &q) {
        return 40;
    }
    if fuzzy_chars(&q, &name) {
        return 30;
    }
    let mut k: usize = 0;
    while k < tool.keywords.len()
        invariant
            k <= tool.keywords.len(),
            kws == string_views(tool.keywords@),
            forall|j: int| 0 <= j < k ==> !fuzzy(q@, lower(kws[j])),
        decreases tool.keywords.len() - k,
    {
        if fuzzy_chars(&q, &lower_of(&tool.keywords[k])) {
            assert(kws[k as int] == tool.keywords@[k as int]@);
            assert(0 <= k < kws.len() && fuzzy(q@, lower(kws[k as int])));
            return 20;
        }
        k += 1;
    }
    -1
}


/// The tools with score `s`, in their given order.
pub open spec fn with_score(tools: Seq<ToolView>, q: Seq<char>, s: int) -> Seq<ToolView>
    decreases tools.len(),
{
    if tools.len() == 0 {
        seq![]
    } else {
        let r = with_score(tools.drop_last(), q, s);
        if score(q, tools.last()) == s {
            r.push(tools.last())
        } else {
            r
        }
    }
}

/// The scores a tool can have when it matches, highest first.
pub open spec fn score_levels() -> Seq<int> {
    seq![100, 90, 80, 70, 60, 50, 40, 30, 20, 0]
}

/// The tools ranked from the level `k` of `score_levels` on.
pub open spec fn ranked_from(tools: Seq<ToolView>, q: Seq<char>, k: int) -> Seq<ToolView>
    decreases score_levels().len() - k,
{
    if k < 0 || k >= score_levels().len() {
        seq![]
    } else {
        with_score(tools, q, score_levels()[k]) + ranked_from(tools, q, k + 1)
    }
}

/// The tools that match the query, highest score first, tools with equal
/// scores in their given order.
pub open spec fn ranked(tools: Seq<ToolView>, q: Seq<char>) -> Seq<ToolView> {
    ranked_from(tools, q, 0)
}

/// The views of a sequence of tools.
pub open spec fn tool_views(v: Seq<ToolItem>) -> Seq<ToolView> {
    v.map_values(|t: ToolItem| t@)
}

/// A copy of a tool.
pub fn clone_tool(t: &ToolItem) -> (r: ToolItem)
    ensures
        r@ == t@,
{
    let keywords = t.keywords.clone();
    proof {
        assert forall|i: int| 0 <= i < keywords.len() implies keywords@[i] == t.keywords@[i] by {
            assert(cloned::<String>(t.keywords[i], keywords[i]));
        }
        assert(string_views(keywords@) =~= string_views(t.keywords@));
    }
    ToolItem {
        id: t.id.clone(),
        name: t.name.clone(),
        description: t.description.clone(),
        category: t.category.clone(),
        icon: t.icon.clone(),
        keywords,
    }
}

/// Appends the tools whose score is `level`.
fn push_with_score(
    out: &mut Vec<ToolItem>,
    tools: &Vec<ToolItem>,
    scores: &Vec<i32>,
    level: i32,
    Ghost(q): Ghost<Seq<char>>,
)
    requires
        scores.len() == tools.len(),
        forall|i: int| 0 <= i < tools.len() ==> scores@[i] as int == score(q, tools@[i]@),
    ensures
        tool_views(final(out)@) == tool_views(old(out)@) + with_score(tool_views(tools@), q, level as int),
{
    let ghost tv = tool_views(tools@);
    let mut i: usize = 0;
    while i < tools.len()
        invariant
            i <= tools.len(),
            scores.len() == tools.len(),
            tv == tool_views(tools@),
            forall|j: int| 0 <= j < tools.len() ==> scores@[j] as int == score(q, tools@[j]@),
            tool_views(out@) == tool_views(old(out)@) + with_score(tv.take(i as int), q, level as int),
        decreases tools.len() - i,
    {
        assert(tv.take(i + 1).drop_last() =~= tv.take(i as int));
        assert(tv.take(i + 1).last() == tools@[i as int]@);
        if scores[i] == level {
            let c = clone_tool(&tools[i]);
            let ghost before = out@;
            out.push(c);
            assert(tool_views(out@) =~= tool_views(before).push(c@));
        }
        i += 1;
    }
    assert(tv.take(tools.len() as int) =~= tv);
}

/// The tools that match `query`, best first (see `ranked`).
pub fn filter_tools(query: &String, tools: &Vec<ToolItem>) -> (r: Vec<ToolItem>)
    ensures
        tool_views(r@) == ranked(tool_views(tools@), query@),
{
    let mut scores: Vec<i32> = Vec::new();
    let mut i: usize = 0;
    while i < tools.len()
        invariant
            i <= tools.len(),
            scores.len() == i,
            forall|j: int| 0 <= j < i ==> scores@[j] as int == score(query@, tools@[j]@),
        decreases tools.len() - i,
    {
        let s = score_match(query, &tools[i]);
        scores.push(s);
        i += 1;
    }
    let levels: Vec<i32> = vec![100, 90, 80, 70, 60, 50, 40, 30, 20, 0];
    assert(levels@.len() == score_levels().len());
    let mut r: Vec<ToolItem> = Vec::new();
    let mut k: usize = 0;
    assert(tool_views(r@) =~= Seq::<ToolView>::empty());
    while k < levels.len()
        invariant
            k <= levels.len(),
            levels@ == seq![100i32, 90, 80, 70, 60, 50, 40, 30, 20, 0],
            scores.len() == tools.len(),
            forall|j: int| 0 <= j < tools.len() ==> scores@[j] as int == score(query@, tools@[j]@),
            tool_views(r@) + ranked_from(tool_views(tools@), query@, k as int) == ranked(
                tool_views(tools@),
                query@,
            ),
        decreases levels.len() - k,
    {
        let ghost before = r@;
        assert(levels@[k as int] as int == score_levels()[k as int]);
        push_with_score(&mut r, tools, &scores, levels[k], Ghost(query@));
        assert(tool_views(r@) + ranked_from(tool_views(tools@), query@, k + 1) =~= tool_views(before) + ranked_from(tool_views(tools@), query@, k as int));
        k += 1;
    }
    assert(tool_views(r@) + Seq::<ToolView>::empty() =~= tool_views(r@));
    r
}

/// The tools are in order of score, highest first.
pub open spec fn scores_descending(r: Seq<ToolView>, q: Seq<char>) -> bool {
    forall|i: int, j: int| 0 <= i < j < r.len() ==> score(q, r[i]) >= score(q, r[j])
}

proof fn lemma_with_score(tools: Seq<ToolView>, q: Seq<char>, s: int)
    ensures
        forall|j: int|
            0 <= j < with_score(tools, q, s).len() ==> score(q, #[trigger] with_score(tools, q, s)[j])
                == s && tools.contains(with_score(tools, q, s)[j]),
        forall|i: int|
            0 <= i < tools.len() && score(q, tools[i]) == s ==> with_score(tools, q, s).contains(
                #[trigger] tools[i],
            ),
    decreases tools.len(),
{
    if tools.len() > 0 {
        let init = tools.drop_last();
        let rest = with_score(init, q, s);
        lemma_with_score(init, q, s);
        let r = with_score(tools, q, s);
        assert forall|j: int| 0 <= j < r.len() implies score(q, #[trigger] r[j]) == s
            && tools.contains(r[j]) by {
            if j < rest.len() {
                assert(r[j] == rest[j]);
                let m = choose|m: int| 0 <= m < init.len() && init[m] == rest[j];
                assert(tools[m] == init[m]);
            } else {
                assert(r[j] == tools.last());
                assert(tools[tools.len() - 1] == tools.last());
            }
        }
        assert forall|i: int| 0 <= i < tools.len() && score(q, tools[i]) == s implies r.contains(
            #[trigger] tools[i],
        ) by {
            if i < tools.len() - 1 {
                assert(init[i] == tools[i]);
                let j = choose|j: int| 0 <= j < rest.len() && rest[j] == init[i];
                assert(r[j] == rest[j]);
            } else {
                assert(r[r.len() - 1] == tools[i]);
            }
        }
    }
}

/// The scores a match can have are exactly the levels, falling strictly.
proof fn lemma_levels()
    ensures
        forall|k: int, m: int|
            0 <= k < m < score_levels().len() ==> #[trigger] score_levels()[k]
                > #[trigger] score_levels()[m],
        score_levels().len() == 10,
{
}

proof fn lemma_ranked_from(tools: Seq<ToolView>, q: Seq<char>, k: int)
    requires
        0 <= k <= score_levels().len(),
    ensures
        scores_descending(ranked_from(tools, q, k), q),
        k < score_levels().len() ==> forall|j: int|
            0 <= j < ranked_from(tools, q, k).len() ==> score(q, #[trigger] ranked_from(tools, q, k)[j])
                <= score_levels()[k],
        forall|j: int|
            0 <= j < ranked_from(tools, q, k).len() ==> tools.contains(
                #[trigger] ranked_from(tools, q, k)[j],
            ),
        forall|i: int, m: int|
            #![trigger tools[i], score_levels()[m]]
            0 <= i < tools.len() && k <= m < score_levels().len() && score(q, tools[i])
                == score_levels()[m] ==> ranked_from(tools, q, k).contains(tools[i]),
    decreases score_levels().len() - k,
{
    lemma_levels();
    if k < score_levels().len() {
        lemma_ranked_from(tools, q, k + 1);
        let l = score_levels()[k];
        let a = with_score(tools, q, l);
        let b = ranked_from(tools, q, k + 1);
        lemma_with_score(tools, q, l);
        let r = ranked_from(tools, q, k);
        assert(r == a + b);
        assert forall|j: int| 0 <= j < r.len() implies score(q, #[trigger] r[j]) <= l
            && tools.contains(r[j]) by {
            if j < a.len() {
                assert(r[j] == a[j]);
            } else {
                assert(r[j] == b[j - a.len()]);
                if k + 1 < score_levels().len() {
                    assert(score(q, b[j - a.len()]) <= score_levels()[k + 1]);
                } else {
                    assert(b.len() == 0);
                }
            }
        }
        assert forall|i: int, j: int| 0 <= i < j < r.len() implies score(q, r[i]) >= score(
            q,
            r[j],
        ) by {
            if j < a.len() {
                assert(r[i] == a[i] && r[j] == a[j]);
            } else if i >= a.len() {
                assert(r[i] == b[i - a.len()] && r[j] == b[j - a.len()]);
            } else {
                assert(r[i] == a[i] && r[j] == b[j - a.len()]);
                if k + 1 < score_levels().len() {
                    assert(score(q, b[j - a.len()]) <= score_levels()[k + 1]);
                }
            }
        }
        assert forall|i: int, m: int|
            #![trigger tools[i], score_levels()[m]]
            0 <= i < tools.len() && k <= m < score_levels().len() && score(q, tools[i])
                == score_levels()[m] implies r.contains(tools[i]) by {
            if m == k {
                let j = choose|j: int| 0 <= j < a.len() && a[j] == tools[i];
                assert(r[j] == a[j]);
            } else {
                let j = choose|j: int| 0 <= j < b.len() && b[j] == tools[i];
                assert(r[a.len() + j] == b[j]);
            }
        }
    }
}

/// A query scores one of the levels, or -1 when nothing matches.
proof fn lemma_score_is_a_level(q: Seq<char>, t: ToolView)
    ensures
        score(q, t) == -1 || exists|m: int| 0 <= m < score_levels().len() && score_levels()[m]
            == score(q, t),
{
    let s = score(q, t);
    let levels = score_levels();
    if s >= 0 {
        assert(levels[0] == 100 && levels[1] == 90 && levels[2] == 80 && levels[3] == 70);
        assert(levels[4] == 60 && levels[5] == 50 && levels[6] == 40 && levels[7] == 30);
        assert(levels[8] == 20 && levels[9] == 0);
    }
}

/// The palette lists the tools in order of score, highest first.
pub proof fn law_ranked_by_score(tools: Seq<ToolView>, q: Seq<char>)
    ensures
        scores_descending(ranked(tools, q), q),
{
    lemma_ranked_from(tools, q, 0);
}

/// The palette lists exactly the tools that match: each given tool is
/// listed when its score is not negative, and every listed tool is one of
/// the given tools and matches.
pub proof fn law_ranked_lists_matches(tools: Seq<ToolView>, q: Seq<char>)
    ensures
        forall|i: int|
            0 <= i < tools.len() ==> (score(q, #[trigger] tools[i]) >= 0 ==> ranked(tools, q).contains(
                tools[i],
            )),
        forall|j: int|
            0 <= j < ranked(tools, q).len() ==> tools.contains(#[trigger] ranked(tools, q)[j])
                && score(q, ranked(tools, q)[j]) >= 0,
{
    lemma_ranked_from(tools, q, 0);
    lemma_levels();
    assert forall|i: int| 0 <= i < tools.len() && score(q, #[trigger] tools[i]) >= 0 implies ranked(
        tools,
        q,
    ).contains(tools[i]) by {
        lemma_score_is_a_level(q, tools[i]);
    }
    assert forall|j: int| 0 <= j < ranked(tools, q).len() implies score(
        q,
        #[trigger] ranked(tools, q)[j],
    ) >= 0 by {
        lemma_ranked_from_scores(tools, q, 0, j);
    }
}

proof fn lemma_ranked_from_scores(tools: Seq<ToolView>, q: Seq<char>, k: int, j: int)
    requires
        0 <= k <= score_levels().len(),
        0 <= j < ranked_from(tools, q, k).len(),
    ensures
        score(q, ranked_from(tools, q, k)[j]) >= 0,
    decreases score_levels().len() - k,
{
    lemma_levels();
    if k < score_levels().len() {
        let l = score_levels()[k];
        let a = with_score(tools, q, l);
        lemma_with_score(tools, q, l);
        assert(ranked_from(tools, q, k) == a + ranked_from(tools, q, k + 1));
        if j < a.len() {
            assert(ranked_from(tools, q, k)[j] == a[j]);
        } else {
            lemma_ranked_from_scores(tools, q, k + 1, j - a.len());
        }
    }
}

/// Tools whose name starts with the query (ignoring case) come before all
/// the others.
pub proof fn law_name_prefix_first(tools: Seq<ToolView>, q: Seq<char>, i: int, j: int)
    requires
        q.len() > 0,
        0 <= i < ranked(tools, q).len(),
        0 <= j < ranked(tools, q).len(),
        starts_with(lower(ranked(tools, q)[j].name), lower(q)),
        !starts_with(lower(ranked(tools, q)[i].name), lower(q)),
    ensures
        j < i,
{
    lemma_ranked_from(tools, q, 0);
    let r = ranked(tools, q);
    let ni = lower(r[i].name);
    assert(ni != lower(q)) by {
        if ni == lower(q) {
            assert(ni.take(ni.len() as int) =~= ni);
        }
    }
    assert(score(q, r[j]) >= 90);
    assert(score(q, r[i]) <= 80);
}

// ---------------------------------------------------------------------------
// Keyboard selection
// ---------------------------------------------------------------------------

/// The keys the palette reacts to.
#[derive(Clone, Copy, Debug, PartialEq, Eq)]
pub enum PaletteKey {
    ArrowDown,
    ArrowUp,
    Enter,
    Escape,
    Other,
}

/// What the palette asks of the application after a key.
pub enum PaletteAction {
    /// Nothing beyond the new selection.
    Stay,
    /// Open the tool with this id.
    Select(String),
    /// Close the palette.
    Close,
}

/// The key for a `KeyboardEvent::key` name.
pub fn palette_key(name: &str) -> (k: PaletteKey)
    ensures
        k == (if name@ == "ArrowDown"@ {
            PaletteKey::ArrowDown
        } else if name@ == "ArrowUp"@ {
            PaletteKey::ArrowUp
        } else if name@ == "Enter"@ {
            PaletteKey::Enter
        } else if name@ == "Escape"@ {
            PaletteKey::Escape
        } else {
            PaletteKey::Other
        }),
{
    let v = to_chars(name);
    if crate::text::eq_str(&v, "ArrowDown") {
        PaletteKey::ArrowDown
    } else if crate::text::eq_str(&v, "ArrowUp") {
        PaletteKey::ArrowUp
    } else if crate::text::eq_str(&v, "Enter") {
        PaletteKey::Enter
    } else if crate::text::eq_str(&v, "Escape") {
        PaletteKey::Escape
    } else {
        PaletteKey::Other
    }
}

/// The selection after moving down among `len` results: the next one,
/// wrapping to the first; unchanged when there are none.
pub open spec fn select_down(selected: int, len: int) -> int {
    if len > 0 { (selected + 1) % len } else { selected }
}

/// The selection after moving up among `len` results: the previous one,
/// wrapping to the last; unchanged when there are none.
pub open spec fn select_up(selected: int, len: int) -> int {
    if len > 0 {
        if selected == 0 { len - 1 } else { selected - 1 }
    } else {
        selected
    }
}

/// Reacts to a key: returns the new selection, what to do, and whether the
/// key's default action is to be prevented (for the four keys it handles).
pub fn on_palette_key(selected: usize, results: &Vec<ToolItem>, key: PaletteKey) -> (r: (
    usize,
    PaletteAction,
    bool,
))
    requires
        selected < usize::MAX,
    ensures
        r.2 == (key != PaletteKey::Other),
        key == PaletteKey::ArrowDown ==> r.0 == select_down(selected as int, results.len() as int)
            && r.1 is Stay,
        key == PaletteKey::ArrowUp ==> r.0 == select_up(selected as int, results.len() as int)
            && r.1 is Stay,
        key == PaletteKey::Enter ==> r.0 == selected && (if selected < results.len() {
            r.1 matches PaletteAction::Select(id) && id@ == results@[selected as int].id@
        } else {
            r.1 is Stay
        }),
        key == PaletteKey::Escape ==> r.0 == selected && r.1 is Close,
        key == PaletteKey::Other ==> r.0 == selected && r.1 is Stay,
{
    let len = results.len();
    match key {
        PaletteKey::ArrowDown => {
            let s = if len > 0 { (selected + 1) % len } else { selected };
            (s, PaletteAction::Stay, true)
        },
        PaletteKey::ArrowUp => {
            let s = if len > 0 {
                if selected == 0 { len - 1 } else { selected - 1 }
            } else {
                selected
            };
            (s, PaletteAction::Stay, true)
        },
        PaletteKey::Enter => {
            if selected < len {
                (selected, PaletteAction::Select(results[selected].id.clone()), true)
            } else {
                (selected, PaletteAction::Stay, true)
            }
        },
        PaletteKey::Escape => (selected, PaletteAction::Close, true),
        PaletteKey::Other => (selected, PaletteAction::Stay, false),
    }
}

/// Whether a key press opens or closes the palette: Cmd+K or Ctrl+K.
pub fn is_palette_shortcut(meta: bool, ctrl: bool, key: &str) -> (b: bool)
    ensures
        b == ((meta || ctrl) && key@ == "k"@),
{
    (meta || ctrl) && crate::text::eq_str(&to_chars(key), "k")
}

/// Moving down then up among the results returns to the same selection.
pub proof fn law_down_then_up(selected: int, len: int)
    requires
        0 <= selected < len,
    ensures
        select_up(select_down(selected, len), len) == selected,
        0 <= select_down(selected, len) < len,
        0 <= select_up(selected, len) < len,
{
    if selected + 1 < len {
        vstd::arithmetic::div_mod::lemma_small_mod((selected + 1) as nat, len as nat);
    } else {
        vstd::arithmetic::div_mod::lemma_mod_self_0(len);
    }
}

/// Moving up then down among the results returns to the same selection.
pub proof fn law_up_then_down(selected: int, len: int)
    requires
        0 <= selected < len,
    ensures
        select_down(select_up(selected, len), len) == selected,
{
    if selected == 0 {
        vstd::arithmetic::div_mod::lemma_mod_self_0(len);
    } else {
        vstd::arithmetic::div_mod::lemma_small_mod(selected as nat, len as nat);
    }
}

} // verus!
