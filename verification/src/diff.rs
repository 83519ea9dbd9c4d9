//! The text diff: the two texts and where a dropped file goes, the compare
//! request, and how the backend's line diff is laid out in each view.
use vstd::prelude::*;
use crate::text::decimal;
use crate::text::decimal_chars;
use crate::text::extend;
use crate::text::extend_str;
use crate::text::from_chars;
use crate::text::lines;
use crate::text::opt_view;
use crate::text::same_text;
use crate::text::split_lines;
use crate::text::to_chars;

verus! {

/// The unit the texts are compared in.
#[derive(Clone, Copy, Debug, PartialEq, Eq, Structural)]
pub enum DiffMode {
    Line,
    Word,
    Character,
}

/// The label of a comparison unit.
pub open spec fn diff_mode_label(m: DiffMode) -> Seq<char> {
    match m {
        DiffMode::Line => "Line"@,
        DiffMode::Word => "Word"@,
        DiffMode::Character => "Character"@,
    }
}

impl DiffMode {
    /// The label of the unit.
    pub fn label(&self) -> (s: &'static str)
        ensures
            s@ == diff_mode_label(*self),
    {
        match self {
            DiffMode::Line => "Line",
            DiffMode::Word => "Word",
            DiffMode::Character => "Character",
        }
    }

    /// The units in the order offered.
    pub fn all() -> (r: [DiffMode; 3])
        ensures
            r@ == seq![DiffMode::Line, DiffMode::Word, DiffMode::Character],
    {
        [DiffMode::Line, DiffMode::Word, DiffMode::Character]
    }
}

/// How the result is laid out.
#[derive(Clone, Copy, Debug, PartialEq, Eq, Structural)]
pub enum DiffViewMode {
    SideBySide,
    Unified,
    DiffOnly,
}

/// The label of a layout.
pub open spec fn view_mode_label(m: DiffViewMode) -> Seq<char> {
    match m {
        DiffViewMode::SideBySide => "Side by Side"@,
        DiffViewMode::Unified => "Unified"@,
        DiffViewMode::DiffOnly => "Diff Only"@,
    }
}

/// The icon of a layout.
pub open spec fn view_mode_icon(m: DiffViewMode) -> Seq<char> {
    match m {
        DiffViewMode::SideBySide => "||"@,
        DiffViewMode::Unified => "="@,
        DiffViewMode::DiffOnly => "+-"@,
    }
}

impl DiffViewMode {
    /// The label of the layout.
    pub fn label(&self) -> (s: &'static str)
        ensures
            s@ == view_mode_label(*self),
    {
        match self {
            DiffViewMode::SideBySide => "Side by Side",
            DiffViewMode::Unified => "Unified",
            DiffViewMode::DiffOnly => "Diff Only",
        }
    }

    /// The icon of the layout.
    pub fn icon(&self) -> (s: &'static str)
        ensures
            s@ == view_mode_icon(*self),
    {
        match self {
            DiffViewMode::SideBySide => "||",
            DiffViewMode::Unified => "=",
            DiffViewMode::DiffOnly => "+-",
        }
    }

    /// The layouts in the order offered.
    pub fn all() -> (r: [DiffViewMode; 3])
        ensures
            r@ == seq![DiffViewMode::SideBySide, DiffViewMode::Unified, DiffViewMode::DiffOnly],
    {
        [DiffViewMode::SideBySide, DiffViewMode::Unified, DiffViewMode::DiffOnly]
    }
}

/// One line of the backend's diff; `tag` is `equal`, `delete` or `insert`.
#[derive(Clone)]
pub struct LineDiff {
    pub line_number_old: Option<usize>,
    pub line_number_new: Option<usize>,
    pub tag: String,
    pub content: String,
}

/// The line tags of a diff.
pub open spec fn tags(v: Seq<LineDiff>) -> Seq<Seq<char>> {
    v.map_values(|l: LineDiff| l.tag@)
}

/// The style class and the prefix of a line in the unified layouts.
pub open spec fn unified_style(tag: Seq<char>) -> (Seq<char>, Seq<char>) {
    if tag == "delete"@ {
        ("diff-line delete"@, "-"@)
    } else if tag == "insert"@ {
        ("diff-line insert"@, "+"@)
    } else {
        ("diff-line equal"@, " "@)
    }
}

/// The style class and the prefix of a line in the unified layouts.
pub fn unified_line_style(tag: &str) -> (r: (&'static str, &'static str))
    ensures
        (r.0@, r.1@) == unified_style(tag@),
{
    if same_text(tag, "delete") {
        ("diff-line delete", "-")
    } else if same_text(tag, "insert") {
        ("diff-line insert", "+")
    } else {
        ("diff-line equal", " ")
    }
}

/// The style class of a line in one column of the side-by-side layout:
/// `changed` is the tag that column marks (`delete` on the left, `insert` on
/// the right).
pub open spec fn column_class(tag: Seq<char>, changed: Seq<char>) -> Seq<char> {
    if tag == changed && changed == "delete"@ {
        "diff-line delete"@
    } else if tag == changed && changed == "insert"@ {
        "diff-line insert"@
    } else {
        "diff-line equal"@
    }
}

/// The style class of a line in the left column.
pub fn old_column_class(tag: &str) -> (s: &'static str)
    ensures
        s@ == column_class(tag@, "delete"@),
{
    proof {
        reveal_strlit("delete");
        reveal_strlit("insert");
        assert("delete"@[0] != "insert"@[0]);
    }
    if same_text(tag, "delete") {
        "diff-line delete"
    } else {
        "diff-line equal"
    }
}

/// The style class of a line in the right column.
pub fn new_column_class(tag: &str) -> (s: &'static str)
    ensures
        s@ == column_class(tag@, "insert"@),
{
    proof {
        reveal_strlit("delete");
        reveal_strlit("insert");
        assert("delete"@[0] != "insert"@[0]);
    }
    if same_text(tag, "insert") {
        "diff-line insert"
    } else {
        "diff-line equal"
    }
}

/// The places, in order, of the lines whose tag is `a` or `b`.
pub open spec fn places_tagged(ts: Seq<Seq<char>>, a: Seq<char>, b: Seq<char>) -> Seq<nat>
    decreases ts.len(),
{
    if ts.len() == 0 {
        Seq::empty()
    } else {
        let rest = places_tagged(ts.drop_last(), a, b);
        if ts.last() == a || ts.last() == b {
            rest.push((ts.len() - 1) as nat)
        } else {
            rest
        }
    }
}

/// The places, in order, of the lines that are not `equal`.
pub open spec fn places_changed(ts: Seq<Seq<char>>) -> Seq<nat>
    decreases ts.len(),
{
    if ts.len() == 0 {
        Seq::empty()
    } else {
        let rest = places_changed(ts.drop_last());
        if ts.last() != "equal"@ {
            rest.push((ts.len() - 1) as nat)
        } else {
            rest
        }
    }
}

/// The places of the lines whose tag is `a` or `b`.
fn collect_tagged(lines: &Vec<LineDiff>, a: &str, b: &str) -> (r: Vec<usize>)
    ensures
        r@.map_values(|i: usize| i as nat) == places_tagged(tags(lines@), a@, b@),
{
    let ghost tv = tags(lines@);
    let mut r: Vec<usize> = Vec::new();
    let mut i: usize = 0;
    while i < lines.len()
        invariant
            i <= lines.len(),
            tv == tags(lines@),
            r@.map_values(|k: usize| k as nat) == places_tagged(tv.take(i as int), a@, b@),
        decreases lines.len() - i,
    {
        assert(tv.take(i + 1).drop_last() =~= tv.take(i as int));
        assert(tv.take(i + 1).last() == lines@[i as int].tag@);
        let t = lines[i].tag.as_str();
        if same_text(t, a) || same_text(t, b) {
            let ghost before = r@;
            r.push(i);
            assert(r@.map_values(|k: usize| k as nat) =~= before.map_values(|k: usize| k as nat).push(
                i as nat,
            ));
        }
        i += 1;
    }
    assert(tv.take(lines.len() as int) =~= tv);
    r
}

/// The two columns of the side-by-side layout: the places of the lines shown
/// on the left (deleted and equal ones) and on the right (inserted and equal
/// ones). The rows run to the longer column.
pub fn side_by_side_columns(lines: &Vec<LineDiff>) -> (r: (Vec<usize>, Vec<usize>))
    ensures
        r.0@.map_values(|i: usize| i as nat) == places_tagged(tags(lines@), "delete"@, "equal"@),
        r.1@.map_values(|i: usize| i as nat) == places_tagged(tags(lines@), "insert"@, "equal"@),
{
    (collect_tagged(lines, "delete", "equal"), collect_tagged(lines, "insert", "equal"))
}

/// The places of the lines the diff-only layout shows: all but the equal ones.
pub fn changed_lines(lines: &Vec<LineDiff>) -> (r: Vec<usize>)
    ensures
        r@.map_values(|i: usize| i as nat) == places_changed(tags(lines@)),
{
    let ghost tv = tags(lines@);
    let mut r: Vec<usize> = Vec::new();
    let mut i: usize = 0;
    while i < lines.len()
        invariant
            i <= lines.len(),
            tv == tags(lines@),
            r@.map_values(|k: usize| k as nat) == places_changed(tv.take(i as int)),
        decreases lines.len() - i,
    {
        assert(tv.take(i + 1).drop_last() =~= tv.take(i as int));
        assert(tv.take(i + 1).last() == lines@[i as int].tag@);
        if !same_text(lines[i].tag.as_str(), "equal") {
            let ghost before = r@;
            r.push(i);
            assert(r@.map_values(|k: usize| k as nat) =~= before.map_values(|k: usize| k as nat).push(
                i as nat,
            ));
        }
        i += 1;
    }
    assert(tv.take(lines.len() as int) =~= tv);
    r
}

/// A line number, or nothing.
pub open spec fn number_text(n: Option<usize>) -> Seq<char> {
    match n {
        Some(k) => decimal(k as nat),
        None => Seq::empty(),
    }
}

/// A line number as shown beside a line.
pub fn line_number_text(n: Option<usize>) -> (s: String)
    ensures
        s@ == number_text(n),
{
    match n {
        Some(k) => from_chars(&decimal_chars(k as u64)),
        None => String::new(),
    }
}

/// The counts the backend reports.
#[derive(Clone, Copy, Debug, PartialEq, Eq, Structural)]
pub struct DiffStats {
    pub additions: usize,
    pub deletions: usize,
    pub modifications: usize,
    pub unchanged: usize,
    pub total_lines_old: usize,
    pub total_lines_new: usize,
}

/// The texts of the statistics: `+A`, `-D`, and `old -> new` lines.
pub fn stats_texts(s: DiffStats) -> (r: (String, String, String))
    ensures
        r.0@ == seq!['+'] + decimal(s.additions as nat),
        r.1@ == seq!['-'] + decimal(s.deletions as nat),
        r.2@ == decimal(s.total_lines_old as nat) + " -> "@ + decimal(s.total_lines_new as nat),
{
    let mut a: Vec<char> = Vec::new();
    a.push('+');
    extend(&mut a, &decimal_chars(s.additions as u64));
    let mut d: Vec<char> = Vec::new();
    d.push('-');
    extend(&mut d, &decimal_chars(s.deletions as u64));
    let mut l: Vec<char> = decimal_chars(s.total_lines_old as u64);
    extend_str(&mut l, " -> ");
    extend(&mut l, &decimal_chars(s.total_lines_new as u64));
    assert(a@ =~= seq!['+'] + decimal(s.additions as nat));
    assert(d@ =~= seq!['-'] + decimal(s.deletions as nat));
    (from_chars(&a), from_chars(&d), from_chars(&l))
}

/// The line count over a text pane: `N lines`.
pub fn line_count_text(text: &str) -> (s: String)
    ensures
        s@ == decimal(lines(text@).len()) + " lines"@,
{
    let ls = split_lines(&to_chars(text));
    let mut v = decimal_chars(ls.len() as u64);
    extend_str(&mut v, " lines");
    from_chars(&v)
}

/// The file name after a pane's title: ` (name)`.
pub fn file_name_suffix(name: &str) -> (s: String)
    ensures
        s@ == " ("@ + name@ + ")"@,
{
    let mut v: Vec<char> = Vec::new();
    extend_str(&mut v, " (");
    extend_str(&mut v, name);
    extend_str(&mut v, ")");
    from_chars(&v)
}

/// What the backend answers to a comparison.
#[derive(Clone)]
pub struct DiffResult {
    pub success: bool,
    pub lines: Vec<LineDiff>,
    pub stats: DiffStats,
    pub unified_diff: String,
    pub error: Option<String>,
}

/// The comparison the backend is asked for.
#[derive(Clone)]
pub struct DiffRequest {
    pub old_text: String,
    pub new_text: String,
    pub mode: DiffMode,
}

/// What the tool shows and remembers.
#[derive(Clone)]
pub struct DiffState {
    pub old_text: String,
    pub new_text: String,
    pub old_file_name: Option<String>,
    pub new_file_name: Option<String>,
    pub diff_result: Option<DiffResult>,
    pub is_comparing: bool,
    pub diff_mode: DiffMode,
    pub view_mode: DiffViewMode,
    pub copied: bool,
    pub error_message: Option<String>,
}

impl DiffState {
    /// The tool on opening: empty, by lines, side by side.
    pub fn new() -> (s: DiffState)
        ensures
            s.old_text@.len() == 0 && s.new_text@.len() == 0,
            s.old_file_name is None && s.new_file_name is None,
            s.diff_result is None,
            !s.is_comparing,
            s.diff_mode == DiffMode::Line,
            s.view_mode == DiffViewMode::SideBySide,
            !s.copied,
            s.error_message is None,
    {
        DiffState {
            old_text: String::new(),
            new_text: String::new(),
            old_file_name: None,
            new_file_name: None,
            diff_result: None,
            is_comparing: false,
            diff_mode: DiffMode::Line,
            view_mode: DiffViewMode::SideBySide,
            copied: false,
            error_message: None,
        }
    }

    /// A dropped file was read: it fills the original pane when that is
    /// empty, else the modified pane when that is empty; with both full the
    /// modified text moves to the original pane and the file takes its place.
    pub fn on_file(&mut self, name: String, content: String)
        ensures
            *final(self) == (DiffState {
                error_message: final(self).error_message,
                new_file_name: final(self).new_file_name,
                new_text: final(self).new_text,
                old_file_name: final(self).old_file_name,
                old_text: final(self).old_text,
                ..*old(self)
            }),
            old(self).old_text@.len() == 0 ==> {
                &&& final(self).old_text == content
                &&& final(self).old_file_name == Some(name)
                &&& final(self).new_text == old(self).new_text
                &&& final(self).new_file_name == old(self).new_file_name
            },
            old(self).old_text@.len() > 0 && old(self).new_text@.len() == 0 ==> {
                &&& final(self).old_text == old(self).old_text
                &&& final(self).old_file_name == old(self).old_file_name
                &&& final(self).new_text == content
                &&& final(self).new_file_name == Some(name)
            },
            old(self).old_text@.len() > 0 && old(self).new_text@.len() > 0 ==> {
                &&& final(self).old_text == old(self).new_text
                &&& final(self).old_file_name == old(self).new_file_name
                &&& final(self).new_text == content
                &&& final(self).new_file_name == Some(name)
            },
            final(self).error_message is None,
    {
        if self.old_text.as_str().is_empty() {
            self.old_text = content;
            self.old_file_name = Some(name);
        } else if self.new_text.as_str().is_empty() {
            self.new_text = content;
            self.new_file_name = Some(name);
        } else {
            let mut moved = String::new();
            std::mem::swap(&mut moved, &mut self.new_text);
            self.old_text = moved;
            let moved_name = self.new_file_name.take();
            self.old_file_name = moved_name;
            self.new_text = content;
            self.new_file_name = Some(name);
        }
        self.error_message = None;
    }

    /// A dropped file could not be read.
    pub fn on_file_error(&mut self)
        ensures
            *final(self) == (DiffState { error_message: final(self).error_message, ..*old(self) }),
            final(self).error_message matches Some(m) && m@ == "Failed to load file"@,
            final(self).old_text == old(self).old_text,
            final(self).new_text == old(self).new_text,
    {
        self.error_message = Some("Failed to load file".to_string());
    }

    /// Whether the compare button is disabled: while comparing, or with both
    /// texts empty.
    pub fn compare_disabled(&self) -> (b: bool)
        ensures
            b == (self.is_comparing || (self.old_text@.len() == 0 && self.new_text@.len() == 0)),
    {
        self.is_comparing || (self.old_text.as_str().is_empty() && self.new_text.as_str().is_empty())
    }

    /// The compare button: with some text, the comparison starts and its
    /// request is returned.
    pub fn compare(&mut self) -> (r: Option<DiffRequest>)
        ensures
            *final(self) == (DiffState { is_comparing: final(self).is_comparing, ..*old(self) }),
            (old(self).old_text@.len() == 0 && old(self).new_text@.len() == 0) <==> r is None,
            r is None ==> final(self).is_comparing == old(self).is_comparing,
            r matches Some(q) ==> {
                &&& final(self).is_comparing
                &&& q.old_text@ == old(self).old_text@
                &&& q.new_text@ == old(self).new_text@
                &&& q.mode == old(self).diff_mode
            },
            final(self).old_text == old(self).old_text,
            final(self).new_text == old(self).new_text,
    {
        if self.old_text.as_str().is_empty() && self.new_text.as_str().is_empty() {
            return None;
        }
        self.is_comparing = true;
        Some(
            DiffRequest {
                old_text: self.old_text.clone(),
                new_text: self.new_text.clone(),
                mode: self.diff_mode,
            },
        )
    }

    /// The comparison came back (`None` when it could not be read). A success
    /// is shown and clears the error; a failure shows its error and keeps the
    /// last result. The comparison ends.
    pub fn on_result(&mut self, reply: Option<DiffResult>)
        ensures
            *final(self) == (DiffState {
                diff_result: final(self).diff_result,
                error_message: final(self).error_message,
                is_comparing: final(self).is_comparing,
                ..*old(self)
            }),
            !final(self).is_comparing,
            match reply {
                Some(r) => if r.success {
                    final(self).diff_result == Some(r) && final(self).error_message is None
                } else {
                    final(self).diff_result == old(self).diff_result && final(self).error_message
                        == r.error
                },
                None => final(self).diff_result == old(self).diff_result
                    && (final(self).error_message matches Some(m) && m@ == "Failed to compute diff"@),
            },
    {
        match reply {
            Some(r) => {
                if r.success {
                    self.diff_result = Some(r);
                    self.error_message = None;
                } else {
                    self.error_message = r.error;
                }
            },
            None => {
                self.error_message = Some("Failed to compute diff".to_string());
            },
        }
        self.is_comparing = false;
    }

    /// The clear button.
    pub fn clear(&mut self)
        ensures
            *final(self) == (DiffState {
                diff_result: final(self).diff_result,
                error_message: final(self).error_message,
                new_file_name: final(self).new_file_name,
                new_text: final(self).new_text,
                old_file_name: final(self).old_file_name,
                old_text: final(self).old_text,
                ..*old(self)
            }),
            final(self).old_text@.len() == 0 && final(self).new_text@.len() == 0,
            final(self).old_file_name is None && final(self).new_file_name is None,
            final(self).diff_result is None,
            final(self).error_message is None,
            final(self).diff_mode == old(self).diff_mode,
            final(self).view_mode == old(self).view_mode,
    {
        self.old_text = String::new();
        self.new_text = String::new();
        self.old_file_name = None;
        self.new_file_name = None;
        self.diff_result = None;
        self.error_message = None;
    }

    /// The swap button: the two texts and their file names trade places.
    pub fn swap(&mut self)
        ensures
            *final(self) == swap_panes(*old(self)),
    {
        std::mem::swap(&mut self.old_text, &mut self.new_text);
        std::mem::swap(&mut self.old_file_name, &mut self.new_file_name);
    }

    /// The text the copy button copies: the unified diff of the result.
    pub fn unified_text(&self) -> (r: Option<String>)
        ensures
            match self.diff_result {
                Some(d) => r matches Some(t) && t@ == d.unified_diff@,
                None => r is None,
            },
    {
        match &self.diff_result {
            Some(d) => Some(d.unified_diff.clone()),
            None => None,
        }
    }
}

/// The state with the two panes, texts and file names, traded.
pub open spec fn swap_panes(s: DiffState) -> DiffState {
    DiffState {
        old_text: s.new_text,
        new_text: s.old_text,
        old_file_name: s.new_file_name,
        new_file_name: s.old_file_name,
        ..s
    }
}

/// Swapping twice puts everything back.
pub proof fn law_swap_twice(s: DiffState)
    ensures
        swap_panes(swap_panes(s)) == s,
{
}

} // verus!
