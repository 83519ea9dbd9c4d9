//! The regex tester: its flags, the pattern presets, the highlighted test
//! text, the exported report, and what each answer of the backend changes.
use vstd::prelude::*;
use crate::text::decimal;
use crate::text::decimal_chars;
use crate::text::extend;
use crate::text::extend_str;
use crate::text::from_chars;
use crate::text::opt_view;

verus! {

// ---------------------------------------------------------------------------
// Flags
// ---------------------------------------------------------------------------

/// The flags a pattern is tested with.
#[derive(Clone, Copy, Debug, PartialEq, Eq, Structural)]
pub struct RegexFlags {
    pub global: bool,
    pub case_insensitive: bool,
    pub multiline: bool,
    pub dot_all: bool,
}

impl Default for RegexFlags {
    /// Global matching only.
    fn default() -> (f: Self)
        ensures
            f == (RegexFlags { global: true, case_insensitive: false, multiline: false, dot_all: false }),
    {
        RegexFlags { global: true, case_insensitive: false, multiline: false, dot_all: false }
    }
}

/// The flags with the one named by `letter` (`g`, `i`, `m` or `s`) switched;
/// any other letter changes nothing.
pub open spec fn toggled(f: RegexFlags, letter: char) -> RegexFlags {
    if letter == 'g' {
        RegexFlags { global: !f.global, ..f }
    } else if letter == 'i' {
        RegexFlags { case_insensitive: !f.case_insensitive, ..f }
    } else if letter == 'm' {
        RegexFlags { multiline: !f.multiline, ..f }
    } else if letter == 's' {
        RegexFlags { dot_all: !f.dot_all, ..f }
    } else {
        f
    }
}

/// The flag letters that are on, in the order `gims`.
pub open spec fn flags_text(f: RegexFlags) -> Seq<char> {
    (if f.global { seq!['g'] } else { Seq::empty() }) + (if f.case_insensitive {
        seq!['i']
    } else {
        Seq::empty()
    }) + (if f.multiline { seq!['m'] } else { Seq::empty() }) + (if f.dot_all {
        seq!['s']
    } else {
        Seq::empty()
    })
}

impl RegexFlags {
    /// Switches the flag named by `letter`.
    pub fn toggle(&mut self, letter: char)
        ensures
            *final(self) == toggled(*old(self), letter),
    {
        if letter == 'g' {
            self.global = !self.global;
        } else if letter == 'i' {
            self.case_insensitive = !self.case_insensitive;
        } else if letter == 'm' {
            self.multiline = !self.multiline;
        } else if letter == 's' {
            self.dot_all = !self.dot_all;
        }
    }

    /// The flag letters that are on (`gims` order).
    pub fn letters(&self) -> (s: String)
        ensures
            s@ == flags_text(*self),
    {
        let mut v: Vec<char> = Vec::new();
        if self.global {
            v.push('g');
        }
        if self.case_insensitive {
            v.push('i');
        }
        if self.multiline {
            v.push('m');
        }
        if self.dot_all {
            v.push('s');
        }
        assert(v@ =~= flags_text(*self));
        from_chars(&v)
    }
}

/// Switching a flag twice leaves the flags as they were.
pub proof fn law_toggle_twice(f: RegexFlags, letter: char)
    ensures
        toggled(toggled(f, letter), letter) == f,
{
}

/// Switching one flag leaves the other three alone.
pub proof fn law_toggle_one_flag(f: RegexFlags)
    ensures
        toggled(f, 'g').case_insensitive == f.case_insensitive && toggled(f, 'g').multiline
            == f.multiline && toggled(f, 'g').dot_all == f.dot_all,
        toggled(f, 'i').global == f.global && toggled(f, 'i').multiline == f.multiline
            && toggled(f, 'i').dot_all == f.dot_all,
        toggled(f, 'm').global == f.global && toggled(f, 'm').case_insensitive
            == f.case_insensitive && toggled(f, 'm').dot_all == f.dot_all,
        toggled(f, 's').global == f.global && toggled(f, 's').case_insensitive
            == f.case_insensitive && toggled(f, 's').multiline == f.multiline,
{
}

// ---------------------------------------------------------------------------
// Presets
// ---------------------------------------------------------------------------

/// The groups the presets are sorted into.
#[derive(Clone, Copy, Debug, PartialEq, Eq, Structural)]
pub enum PresetCategory {
    Common,
    Validation,
    Web,
    DateTime,
}

/// The translation key of a category's name.
pub open spec fn category_key(c: PresetCategory) -> Seq<char> {
    match c {
        PresetCategory::Common => "regex_tester.category_common"@,
        PresetCategory::Validation => "regex_tester.category_validation"@,
        PresetCategory::Web => "regex_tester.category_web"@,
        PresetCategory::DateTime => "regex_tester.category_datetime"@,
    }
}

impl PresetCategory {
    /// The translation key of the category's name.
    pub fn translation_key(&self) -> (s: &'static str)
        ensures
            s@ == category_key(*self),
    {
        match self {
            PresetCategory::Common => "regex_tester.category_common",
            PresetCategory::Validation => "regex_tester.category_validation",
            PresetCategory::Web => "regex_tester.category_web",
            PresetCategory::DateTime => "regex_tester.category_datetime",
        }
    }

    /// The categories in the order of their buttons.
    pub fn all() -> (r: [PresetCategory; 4])
        ensures
            r@ == seq![
                PresetCategory::Common,
                PresetCategory::Validation,
                PresetCategory::Web,
                PresetCategory::DateTime,
            ],
    {
        [PresetCategory::Common, PresetCategory::Validation, PresetCategory::Web, PresetCategory::DateTime]
    }
}

/// A ready-made pattern.
#[derive(Clone, Copy)]
pub struct RegexPreset {
    pub name: &'static str,
    pub pattern: &'static str,
    pub description: &'static str,
    pub category: PresetCategory,
}

/// A preset as values.
pub struct PresetView {
    pub name: Seq<char>,
    pub pattern: Seq<char>,
    pub description: Seq<char>,
    pub category: PresetCategory,
}

impl View for RegexPreset {
    type V = PresetView;

    open spec fn view(&self) -> PresetView {
        PresetView {
            name: self.name@,
            pattern: self.pattern@,
            description: self.description@,
            category: self.category,
        }
    }
}

/// The views of a list of presets.
pub open spec fn preset_views(v: Seq<RegexPreset>) -> Seq<PresetView> {
    v.map_values(|p: RegexPreset| p@)
}

/// A preset from its parts.
pub open spec fn preset(
    name: &str,
    pattern: &str,
    description: &str,
    category: PresetCategory,
) -> PresetView {
    PresetView { name: name@, pattern: pattern@, description: description@, category }
}

/// The presets, in the order they are offered.
pub open spec fn preset_table() -> Seq<PresetView> {
    seq![
        preset("Email", r"[a-zA-Z0-9._%+-]+@[a-zA-Z0-9.-]+\.[a-zA-Z]{2,}", "Match email addresses", PresetCategory::Validation),
        preset("Phone (JP)", r"0\d{1,4}-?\d{1,4}-?\d{4}", "Match Japanese phone numbers", PresetCategory::Validation),
        preset("URL", r"https?://[\w\-._~:/?#\[\]@!$&'()*+,;=%]+", "Match HTTP/HTTPS URLs", PresetCategory::Web),
        preset("IPv4", r"\b(?:(?:25[0-5]|2[0-4]\d|[01]?\d\d?)\.){3}(?:25[0-5]|2[0-4]\d|[01]?\d\d?)\b", "Match IPv4 addresses", PresetCategory::Web),
        preset("Date (YYYY-MM-DD)", r"\d{4}-(?:0[1-9]|1[0-2])-(?:0[1-9]|[12]\d|3[01])", "Match ISO date format", PresetCategory::DateTime),
        preset("Time (HH:MM:SS)", r"(?:[01]\d|2[0-3]):[0-5]\d(?::[0-5]\d)?", "Match 24-hour time format", PresetCategory::DateTime),
        preset("Postal Code (JP)", r"\d{3}-?\d{4}", "Match Japanese postal codes", PresetCategory::Validation),
        preset("Credit Card", r"\b(?:\d{4}[- ]?){3}\d{4}\b", "Match credit card numbers", PresetCategory::Validation),
        preset("Hex Color", r"#(?:[0-9a-fA-F]{3}){1,2}\b", "Match hex color codes", PresetCategory::Common),
        preset("HTML Tag", r"<([a-zA-Z][a-zA-Z0-9]*)\b[^>]*>.*?</\1>|<[a-zA-Z][a-zA-Z0-9]*\b[^/>]*/>", "Match HTML tags", PresetCategory::Web),
        preset("Whitespace", r"\s+", "Match whitespace characters", PresetCategory::Common),
        preset("Numbers", r"-?\d+\.?\d*", "Match integers and decimals", PresetCategory::Common),
        preset("Word Boundary", r"\b\w+\b", "Match whole words", PresetCategory::Common),
    ]
}

/// One preset.
fn make_preset(
    name: &'static str,
    pattern: &'static str,
    description: &'static str,
    category: PresetCategory,
) -> (p: RegexPreset)
    ensures
        p@ == preset(name, pattern, description, category),
{
    RegexPreset { name, pattern, description, category }
}

/// The presets, in the order they are offered.
pub fn get_presets() -> (r: Vec<RegexPreset>)
    ensures
        preset_views(r@) == preset_table(),
{
    let mut r: Vec<RegexPreset> = Vec::new();
    r.push(make_preset("Email", r"[a-zA-Z0-9._%+-]+@[a-zA-Z0-9.-]+\.[a-zA-Z]{2,}", "Match email addresses", PresetCategory::Validation));
    r.push(make_preset("Phone (JP)", r"0\d{1,4}-?\d{1,4}-?\d{4}", "Match Japanese phone numbers", PresetCategory::Validation));
    r.push(make_preset("URL", r"https?://[\w\-._~:/?#\[\]@!$&'()*+,;=%]+", "Match HTTP/HTTPS URLs", PresetCategory::Web));
    r.push(make_preset("IPv4", r"\b(?:(?:25[0-5]|2[0-4]\d|[01]?\d\d?)\.){3}(?:25[0-5]|2[0-4]\d|[01]?\d\d?)\b", "Match IPv4 addresses", PresetCategory::Web));
    r.push(make_preset("Date (YYYY-MM-DD)", r"\d{4}-(?:0[1-9]|1[0-2])-(?:0[1-9]|[12]\d|3[01])", "Match ISO date format", PresetCategory::DateTime));
    r.push(make_preset("Time (HH:MM:SS)", r"(?:[01]\d|2[0-3]):[0-5]\d(?::[0-5]\d)?", "Match 24-hour time format", PresetCategory::DateTime));
    r.push(make_preset("Postal Code (JP)", r"\d{3}-?\d{4}", "Match Japanese postal codes", PresetCategory::Validation));
    r.push(make_preset("Credit Card", r"\b(?:\d{4}[- ]?){3}\d{4}\b", "Match credit card numbers", PresetCategory::Validation));
    r.push(make_preset("Hex Color", r"#(?:[0-9a-fA-F]{3}){1,2}\b", "Match hex color codes", PresetCategory::Common));
    r.push(make_preset("HTML Tag", r"<([a-zA-Z][a-zA-Z0-9]*)\b[^>]*>.*?</\1>|<[a-zA-Z][a-zA-Z0-9]*\b[^/>]*/>", "Match HTML tags", PresetCategory::Web));
    r.push(make_preset("Whitespace", r"\s+", "Match whitespace characters", PresetCategory::Common));
    r.push(make_preset("Numbers", r"-?\d+\.?\d*", "Match integers and decimals", PresetCategory::Common));
    r.push(make_preset("Word Boundary", r"\b\w+\b", "Match whole words", PresetCategory::Common));
    assert(preset_views(r@) =~= preset_table());
    r
}

/// The presets, in order, of the chosen category (all of them for none).
pub open spec fn presets_of(ps: Seq<PresetView>, category: Option<PresetCategory>) -> Seq<PresetView>
    decreases ps.len(),
{
    if ps.len() == 0 {
        ps
    } else {
        let rest = presets_of(ps.drop_last(), category);
        match category {
            Some(c) => if ps.last().category == c { rest.push(ps.last()) } else { rest },
            None => rest.push(ps.last()),
        }
    }
}

/// The presets shown for the chosen category.
pub fn filter_presets(presets: &Vec<RegexPreset>, category: Option<PresetCategory>) -> (r: Vec<
    RegexPreset,
>)
    ensures
        preset_views(r@) == presets_of(preset_views(presets@), category),
{
    let ghost pv = preset_views(presets@);
    let mut r: Vec<RegexPreset> = Vec::new();
    let mut i: usize = 0;
    while i < presets.len()
        invariant
            i <= presets.len(),
            pv == preset_views(presets@),
            preset_views(r@) == presets_of(pv.take(i as int), category),
        decreases presets.len() - i,
    {
        assert(pv.take(i + 1).drop_last() =~= pv.take(i as int));
        let p = presets[i];
        let keep = match category {
            Some(c) => p.category == c,
            None => true,
        };
        if keep {
            let ghost before = r@;
            r.push(p);
            assert(preset_views(r@) =~= preset_views(before).push(p@));
        }
        i += 1;
    }
    assert(pv.take(presets.len() as int) =~= pv);
    r
}

/// A presets filter with no category shows every preset.
pub proof fn law_all_presets_shown(ps: Seq<PresetView>)
    ensures
        presets_of(ps, None) == ps,
    decreases ps.len(),
{
    if ps.len() > 0 {
        law_all_presets_shown(ps.drop_last());
        assert(ps.drop_last().push(ps.last()) =~= ps);
    }
}

// ---------------------------------------------------------------------------
// Matches and the highlighted text
// ---------------------------------------------------------------------------

/// A capture group of a match.
#[derive(Clone)]
pub struct GroupInfo {
    pub index: usize,
    pub name: Option<String>,
    pub value: String,
    pub start: usize,
    pub end: usize,
}

/// A group as values.
pub struct GroupView {
    pub index: usize,
    pub name: Option<Seq<char>>,
    pub value: Seq<char>,
    pub start: usize,
    pub end: usize,
}

impl View for GroupInfo {
    type V = GroupView;

    open spec fn view(&self) -> GroupView {
        GroupView {
            index: self.index,
            name: opt_view(self.name),
            value: self.value@,
            start: self.start,
            end: self.end,
        }
    }
}

/// One match of the pattern in the test text, with byte offsets.
#[derive(Clone)]
pub struct MatchInfo {
    pub full_match: String,
    pub start: usize,
    pub end: usize,
    pub groups: Vec<GroupInfo>,
}

/// A match as values.
pub struct MatchView {
    pub full_match: Seq<char>,
    pub start: usize,
    pub end: usize,
    pub groups: Seq<GroupView>,
}

impl View for MatchInfo {
    type V = MatchView;

    open spec fn view(&self) -> MatchView {
        MatchView {
            full_match: self.full_match@,
            start: self.start,
            end: self.end,
            groups: self.groups@.map_values(|g: GroupInfo| g@),
        }
    }
}

/// The views of a list of matches.
pub open spec fn match_views(v: Seq<MatchInfo>) -> Seq<MatchView> {
    v.map_values(|m: MatchInfo| m@)
}

/// What the backend answers to a test.
#[derive(Clone)]
pub struct RegexResult {
    pub success: bool,
    pub matches: Vec<MatchInfo>,
    pub match_count: usize,
    pub error: Option<String>,
}

/// What the backend answers to a replacement.
#[derive(Clone)]
pub struct ReplaceResult {
    pub success: bool,
    pub result: String,
    pub replacements: usize,
    pub error: Option<String>,
}

/// A piece of the highlighted test text: the bytes `start..end`, and the
/// number of the match it shows, or none for text between matches.
#[derive(Clone, Copy, Debug, PartialEq, Eq, Structural)]
pub struct Segment {
    pub start: usize,
    pub end: usize,
    pub match_index: Option<usize>,
}

/// The segments for the matches, and where the last one ended.
pub open spec fn segments_upto(ms: Seq<MatchView>) -> (Seq<Segment>, int)
    decreases ms.len(),
{
    if ms.len() == 0 {
        (Seq::empty(), 0)
    } else {
        let (segs, last_end) = segments_upto(ms.drop_last());
        let m = ms.last();
        let before = if m.start > last_end {
            segs.push(Segment { start: last_end as usize, end: m.start, match_index: None })
        } else {
            segs
        };
        (
            before.push(
                Segment { start: m.start, end: m.end, match_index: Some((ms.len() - 1) as usize) },
            ),
            m.end as int,
        )
    }
}

/// The highlighted text of `len` bytes: without matches, one plain piece; else
/// for each match the text before it (when it starts after the previous one
/// ended) and the match itself, then the text after the last match.
pub open spec fn highlight(len: usize, ms: Seq<MatchView>) -> Seq<Segment> {
    if ms.len() == 0 {
        seq![Segment { start: 0, end: len, match_index: None }]
    } else {
        let (segs, last_end) = segments_upto(ms);
        if last_end < len {
            segs.push(Segment { start: last_end as usize, end: len, match_index: None })
        } else {
            segs
        }
    }
}

/// The pieces of the highlighted test text, whose length in bytes is `len`.
pub fn highlight_segments(len: usize, matches: &Vec<MatchInfo>) -> (r: Vec<Segment>)
    ensures
        r@ == highlight(len, match_views(matches@)),
{
    let ghost mv = match_views(matches@);
    if matches.len() == 0 {
        let mut r: Vec<Segment> = Vec::new();
        r.push(Segment { start: 0, end: len, match_index: None });
        assert(r@ =~= highlight(len, mv));
        return r;
    }
    let mut r: Vec<Segment> = Vec::new();
    let mut last_end: usize = 0;
    let mut i: usize = 0;
    while i < matches.len()
        invariant
            i <= matches.len(),
            mv == match_views(matches@),
            (r@, last_end as int) == segments_upto(mv.take(i as int)),
        decreases matches.len() - i,
    {
        assert(mv.take(i + 1).drop_last() =~= mv.take(i as int));
        let m = &matches[i];
        if m.start > last_end {
            r.push(Segment { start: last_end, end: m.start, match_index: None });
        }
        r.push(Segment { start: m.start, end: m.end, match_index: Some(i) });
        last_end = m.end;
        i += 1;
    }
    assert(mv.take(matches.len() as int) =~= mv);
    if last_end < len {
        r.push(Segment { start: last_end, end: len, match_index: None });
    }
    r
}

/// Which of the four highlight colours the match with this number gets.
pub fn color_slot(match_index: usize) -> (c: usize)
    ensures
        c == match_index % 4,
        c < 4,
{
    match_index % 4
}

/// The label of a capture group: its name, or `$` and its number.
pub open spec fn group_label(g: GroupView) -> Seq<char> {
    match g.name {
        Some(n) => n,
        None => seq!['$'] + decimal(g.index as nat),
    }
}

/// The label of a capture group: its name, or `$` and its number.
pub fn group_label_of(g: &GroupInfo) -> (s: String)
    ensures
        s@ == group_label(g@),
{
    match &g.name {
        Some(n) => n.clone(),
        None => {
            let mut v: Vec<char> = Vec::new();
            v.push('$');
            let d = decimal_chars(g.index as u64);
            extend(&mut v, &d);
            assert(v@ =~= group_label(g@));
            from_chars(&v)
        },
    }
}

/// The number of capture groups over all matches.
pub open spec fn total_groups(ms: Seq<MatchView>) -> nat
    decreases ms.len(),
{
    if ms.len() == 0 {
        0
    } else {
        total_groups(ms.drop_last()) + ms.last().groups.len()
    }
}

/// The number of capture groups over all matches.
pub fn count_groups(matches: &Vec<MatchInfo>) -> (n: usize)
    requires
        total_groups(match_views(matches@)) <= usize::MAX,
    ensures
        n == total_groups(match_views(matches@)),
{
    let ghost mv = match_views(matches@);
    let mut n: usize = 0;
    let mut i: usize = 0;
    while i < matches.len()
        invariant
            i <= matches.len(),
            mv == match_views(matches@),
            n == total_groups(mv.take(i as int)),
            total_groups(mv) <= usize::MAX,
        decreases matches.len() - i,
    {
        assert(mv.take(i + 1).drop_last() =~= mv.take(i as int));
        proof {
            lemma_total_groups_prefix(mv, i + 1);
        }
        n = n + matches[i].groups.len();
        i += 1;
    }
    assert(mv.take(matches.len() as int) =~= mv);
    n
}

/// A prefix of the matches has no more groups than all of them.
proof fn lemma_total_groups_prefix(ms: Seq<MatchView>, k: int)
    requires
        0 <= k <= ms.len(),
    ensures
        total_groups(ms.take(k)) <= total_groups(ms),
    decreases ms.len() - k,
{
    if k < ms.len() {
        lemma_total_groups_prefix(ms, k + 1);
        assert(ms.take(k + 1).drop_last() =~= ms.take(k));
    } else {
        assert(ms.take(k) =~= ms);
    }
}

// ---------------------------------------------------------------------------
// The exported report
// ---------------------------------------------------------------------------

/// The result of formatting a string with `{:?}`.
pub uninterp spec fn debug_text(s: Seq<char>) -> Seq<char>;

/// `format!("{:?}", s)`: the string quoted and escaped as Rust's `Debug` for
/// `str` writes it. The contract names the result; it does not spell out the
/// escaping rules.
#[verifier::external_body]
fn debug_quoted(s: &str) -> (r: String)
    ensures
        r@ == debug_text(s@),
{
    format!("{:?}", s)
}

/// One group in the report: `name=value` or `$n=value`, the value quoted.
pub open spec fn group_report(g: GroupView) -> Seq<char> {
    group_label(g) + seq!['='] + debug_text(g.value)
}

/// The groups of a match joined with `, `.
pub open spec fn groups_report(gs: Seq<GroupView>) -> Seq<char>
    decreases gs.len(),
{
    if gs.len() == 0 {
        Seq::empty()
    } else if gs.len() == 1 {
        group_report(gs[0])
    } else {
        groups_report(gs.drop_last()) + ", "@ + group_report(gs.last())
    }
}

/// The report line of the match with 0-based number `i`.
pub open spec fn match_report(i: nat, m: MatchView) -> Seq<char> {
    "Match #"@ + decimal(i + 1) + ": "@ + debug_text(m.full_match) + " ("@ + decimal(
        m.start as nat,
    ) + ".."@ + decimal(m.end as nat) + ")"@ + (if m.groups.len() == 0 {
        Seq::empty()
    } else {
        "\n  Groups: "@ + groups_report(m.groups)
    })
}

/// The report lines of the matches joined with line breaks.
pub open spec fn matches_report(ms: Seq<MatchView>) -> Seq<char>
    decreases ms.len(),
{
    if ms.len() == 0 {
        Seq::empty()
    } else if ms.len() == 1 {
        match_report(0, ms[0])
    } else {
        matches_report(ms.drop_last()) + seq!['\n'] + match_report(
            (ms.len() - 1) as nat,
            ms.last(),
        )
    }
}

/// The whole report: the pattern with its flags, the number of matches, and
/// one line per match.
pub open spec fn export_report(
    pattern: Seq<char>,
    flags: RegexFlags,
    match_count: usize,
    ms: Seq<MatchView>,
) -> Seq<char> {
    "Pattern: /"@ + pattern + seq!['/'] + flags_text(flags) + "\nMatches: "@ + decimal(
        match_count as nat,
    ) + "\n\n"@ + matches_report(ms)
}

/// Appends the report of one group.
fn emit_group(out: &mut Vec<char>, g: &GroupInfo)
    ensures
        final(out)@ == old(out)@ + group_report(g@),
{
    let label = group_label_of(g);
    extend_str(out, label.as_str());
    out.push('=');
    let q = debug_quoted(g.value.as_str());
    extend_str(out, q.as_str());
    assert(final(out)@ =~= old(out)@ + group_report(g@));
}

/// Appends the report line of the match numbered `i` (from 0).
fn emit_match(out: &mut Vec<char>, i: usize, m: &MatchInfo)
    requires
        i < usize::MAX,
    ensures
        final(out)@ == old(out)@ + match_report(i as nat, m@),
{
    let ghost start = out@;
    extend_str(out, "Match #");
    extend(out, &decimal_chars((i + 1) as u64));
    extend_str(out, ": ");
    let q = debug_quoted(m.full_match.as_str());
    extend_str(out, q.as_str());
    extend_str(out, " (");
    extend(out, &decimal_chars(m.start as u64));
    extend_str(out, "..");
    extend(out, &decimal_chars(m.end as u64));
    extend_str(out, ")");
    let ghost head = out@;
    if m.groups.len() > 0 {
        extend_str(out, "\n  Groups: ");
        let ghost gv = m@.groups;
        let ghost mid = out@;
        let mut j: usize = 0;
        while j < m.groups.len()
            invariant
                j <= m.groups.len(),
                gv == m@.groups,
                gv.len() == m.groups.len(),
                out@ == mid + groups_report(gv.take(j as int)),
            decreases m.groups.len() - j,
        {
            assert(gv.take(j + 1).drop_last() =~= gv.take(j as int));
            if j > 0 {
                extend_str(out, ", ");
            }
            emit_group(out, &m.groups[j]);
            proof {
                if j == 0 {
                    assert(gv.take(1)[0] == gv[0]);
                    assert(out@ =~= mid + groups_report(gv.take(1)));
                } else {
                    assert(out@ =~= mid + groups_report(gv.take(j + 1)));
                }
            }
            j += 1;
        }
        assert(gv.take(m.groups.len() as int) =~= gv);
        assert(out@ =~= head + ("\n  Groups: "@ + groups_report(gv)));
    } else {
        assert(out@ =~= head + Seq::<char>::empty());
    }
    assert(final(out)@ =~= start + match_report(i as nat, m@));
}

/// The report copied by the export button.
pub fn export_text(pattern: &str, flags: RegexFlags, result: &RegexResult) -> (s: String)
    requires
        result.matches.len() < usize::MAX,
    ensures
        s@ == export_report(pattern@, flags, result.match_count, match_views(result.matches@)),
{
    let ghost mv = match_views(result.matches@);
    let mut out: Vec<char> = Vec::new();
    extend_str(&mut out, "Pattern: /");
    extend_str(&mut out, pattern);
    out.push('/');
    let letters = flags.letters();
    extend_str(&mut out, letters.as_str());
    extend_str(&mut out, "\nMatches: ");
    extend(&mut out, &decimal_chars(result.match_count as u64));
    extend_str(&mut out, "\n\n");
    let ghost head = out@;
    let mut i: usize = 0;
    while i < result.matches.len()
        invariant
            i <= result.matches.len(),
            result.matches.len() < usize::MAX,
            mv == match_views(result.matches@),
            out@ == head + matches_report(mv.take(i as int)),
        decreases result.matches.len() - i,
    {
        assert(mv.take(i + 1).drop_last() =~= mv.take(i as int));
        if i > 0 {
            out.push('\n');
        }
        emit_match(&mut out, i, &result.matches[i]);
        proof {
            if i == 0 {
                assert(mv.take(1)[0] == mv[0]);
                assert(out@ =~= head + matches_report(mv.take(1)));
            } else {
                assert(out@ =~= head + matches_report(mv.take(i + 1)));
            }
        }
        i += 1;
    }
    assert(mv.take(result.matches.len() as int) =~= mv);
    assert(out@ =~= export_report(pattern@, flags, result.match_count, mv));
    from_chars(&out)
}

// ---------------------------------------------------------------------------
// The tester's state between answers of the backend
// ---------------------------------------------------------------------------

/// What the tester shows besides its inputs.
#[derive(Clone)]
pub struct TesterState {
    pub result: Option<RegexResult>,
    pub replace_result: Option<ReplaceResult>,
    pub error_message: Option<String>,
}

impl TesterState {
    /// Nothing shown.
    pub fn new() -> (s: TesterState)
        ensures
            s.result is None,
            s.replace_result is None,
            s.error_message is None,
    {
        TesterState { result: None, replace_result: None, error_message: None }
    }

    /// The pattern changed to an empty one: no result and no error; a
    /// non-empty pattern is tested after a pause (`true`).
    pub fn on_pattern(&mut self, pattern: &str) -> (test: bool)
        ensures
            *final(self) == (TesterState {
                error_message: final(self).error_message,
                result: final(self).result,
                ..*old(self)
            }),
            test == (pattern@.len() > 0),
            pattern@.len() == 0 ==> final(self).result is None && final(self).error_message is None,
            pattern@.len() > 0 ==> final(self).result == old(self).result
                && final(self).error_message == old(self).error_message,
            final(self).replace_result == old(self).replace_result,
    {
        if pattern.is_empty() {
            self.result = None;
            self.error_message = None;
            false
        } else {
            true
        }
    }

    /// The backend answered a test: a success is shown and clears the error; a
    /// failure shows its error and no result.
    pub fn on_test_result(&mut self, reply: RegexResult)
        ensures
            *final(self) == (TesterState {
                error_message: final(self).error_message,
                result: final(self).result,
                ..*old(self)
            }),
            reply.success ==> final(self).result == Some(reply) && final(self).error_message is None,
            !reply.success ==> final(self).result is None && final(self).error_message
                == reply.error,
            final(self).replace_result == old(self).replace_result,
    {
        if reply.success {
            self.result = Some(reply);
            self.error_message = None;
        } else {
            self.error_message = reply.error;
            self.result = None;
        }
    }

    /// The test's answer could not be read: the message is shown, no result.
    pub fn on_test_failure(&mut self, message: String)
        ensures
            *final(self) == (TesterState {
                error_message: final(self).error_message,
                result: final(self).result,
                ..*old(self)
            }),
            final(self).result is None,
            final(self).error_message == Some(message),
            final(self).replace_result == old(self).replace_result,
    {
        self.error_message = Some(message);
        self.result = None;
    }

    /// The backend answered a replacement (`None` when the answer could not
    /// be read): a success is shown and clears the error; a failure shows its
    /// error and keeps the previous replacement.
    pub fn on_replace_result(&mut self, reply: Option<ReplaceResult>)
        ensures
            *final(self) == (TesterState {
                error_message: final(self).error_message,
                replace_result: final(self).replace_result,
                ..*old(self)
            }),
            match reply {
                Some(r) => if r.success {
                    final(self).replace_result == Some(r) && final(self).error_message is None
                } else {
                    final(self).replace_result == old(self).replace_result
                        && final(self).error_message == r.error
                },
                None => final(self).replace_result == old(self).replace_result
                    && (final(self).error_message matches Some(m) && m@ == "Failed to replace"@),
            },
            final(self).result == old(self).result,
    {
        match reply {
            Some(r) => {
                if r.success {
                    self.replace_result = Some(r);
                    self.error_message = None;
                } else {
                    self.error_message = r.error;
                }
            },
            None => {
                self.error_message = Some("Failed to replace".to_string());
            },
        }
    }

    /// The clear button: nothing shown.
    pub fn clear(&mut self)
        ensures
            *final(self) == (TesterState {
                error_message: final(self).error_message,
                replace_result: final(self).replace_result,
                result: final(self).result,
                ..*old(self)
            }),
            final(self).result is None,
            final(self).replace_result is None,
            final(self).error_message is None,
    {
        self.result = None;
        self.replace_result = None;
        self.error_message = None;
    }
}

/// A replacement is only asked for with a non-empty pattern.
pub fn can_replace(pattern: &str) -> (b: bool)
    ensures
        b == (pattern@.len() > 0),
{
    !pattern.is_empty()
}

} // verus!
