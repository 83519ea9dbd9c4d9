//! The clipboard history: its settings, how an entry is shown, and which
//! entries go into the pinned and the recent section.
use vstd::prelude::*;
use crate::parse::parse_u32;
use crate::parse::unsigned_in;
use crate::text::byte_len;
use crate::text::byte_len_exceeds;
use crate::text::extend_str;
use crate::text::from_chars;
use crate::text::is_byte_boundary;
use crate::text::same_text;
use crate::text::string_views;
use crate::text::take_bytes;
use crate::text::to_chars;

verus! {

/// What kind of text an entry holds.
#[derive(Clone, Copy, Debug, PartialEq, Eq, Structural)]
pub enum ContentType {
    Text,
    Code,
    Url,
    Email,
    Password,
}

/// One entry of the history.
#[derive(Clone)]
pub struct ClipboardEntry {
    pub id: String,
    pub content: String,
    pub content_type: ContentType,
    pub pinned: bool,
    pub created_at: String,
    pub copied_count: u32,
}

/// An entry as values.
pub struct EntryView {
    pub id: Seq<char>,
    pub content: Seq<char>,
    pub content_type: ContentType,
    pub pinned: bool,
    pub created_at: Seq<char>,
    pub copied_count: u32,
}

impl View for ClipboardEntry {
    type V = EntryView;

    open spec fn view(&self) -> EntryView {
        EntryView {
            id: self.id@,
            content: self.content@,
            content_type: self.content_type,
            pinned: self.pinned,
            created_at: self.created_at@,
            copied_count: self.copied_count,
        }
    }
}

impl ClipboardEntry {
    /// A copy of the entry.
    pub fn copy(&self) -> (r: ClipboardEntry)
        ensures
            r@ == self@,
    {
        ClipboardEntry {
            id: self.id.clone(),
            content: self.content.clone(),
            content_type: self.content_type,
            pinned: self.pinned,
            created_at: self.created_at.clone(),
            copied_count: self.copied_count,
        }
    }

    /// Code entries are drawn in a monospace style.
    pub fn is_code(&self) -> (b: bool)
        ensures
            b == (self.content_type == ContentType::Code),
    {
        self.content_type == ContentType::Code
    }
}

/// The views of a list of entries.
pub open spec fn entry_views(v: Seq<ClipboardEntry>) -> Seq<EntryView> {
    v.map_values(|e: ClipboardEntry| e@)
}

/// The fewest entries the history may keep.
pub const MIN_ENTRIES: u32 = 10;

/// The most entries the history may keep.
pub const MAX_ENTRIES: u32 = 1000;

/// The history's settings.
#[derive(Clone)]
pub struct ClipboardSettings {
    pub max_entries: u32,
    pub exclude_passwords: bool,
    pub exclude_patterns: Vec<String>,
}

impl ClipboardSettings {
    /// A copy of the settings.
    pub fn copy(&self) -> (r: ClipboardSettings)
        ensures
            r.max_entries == self.max_entries,
            r.exclude_passwords == self.exclude_passwords,
            string_views(r.exclude_patterns@) == string_views(self.exclude_patterns@),
    {
        let mut patterns: Vec<String> = Vec::new();
        let mut i: usize = 0;
        while i < self.exclude_patterns.len()
            invariant
                i <= self.exclude_patterns.len(),
                string_views(patterns@) == string_views(self.exclude_patterns@).take(i as int),
            decreases self.exclude_patterns.len() - i,
        {
            let ghost before = patterns@;
            let c = self.exclude_patterns[i].clone();
            assert(c@ == self.exclude_patterns@[i as int]@);
            patterns.push(c);
            assert(string_views(patterns@) =~= string_views(before).push(c@));
            assert(string_views(patterns@) =~= string_views(self.exclude_patterns@).take(i + 1));
            i += 1;
        }
        assert(string_views(self.exclude_patterns@).take(self.exclude_patterns.len() as int)
            =~= string_views(self.exclude_patterns@));
        ClipboardSettings {
            max_entries: self.max_entries,
            exclude_passwords: self.exclude_passwords,
            exclude_patterns: patterns,
        }
    }
}

impl Default for ClipboardSettings {
    /// A hundred entries, passwords left out, no patterns.
    fn default() -> (s: Self)
        ensures
            s.max_entries == 100,
            s.exclude_passwords,
            s.exclude_patterns@.len() == 0,
    {
        ClipboardSettings { max_entries: 100, exclude_passwords: true, exclude_patterns: Vec::new() }
    }
}

/// `v` brought into `MIN_ENTRIES..=MAX_ENTRIES`.
pub open spec fn clamp_entries(v: nat) -> nat {
    if v < MIN_ENTRIES {
        MIN_ENTRIES as nat
    } else if v > MAX_ENTRIES {
        MAX_ENTRIES as nat
    } else {
        v
    }
}

/// The settings after the entry limit field changed to `text`: a number is
/// clamped into the allowed range; anything else changes nothing (`None`).
pub fn with_max_entries(settings: &ClipboardSettings, text: &str) -> (r: Option<ClipboardSettings>)
    ensures
        match unsigned_in(text@, u32::MAX as nat) {
            Some(v) => r matches Some(s) && s.max_entries == clamp_entries(v)
                && s.exclude_passwords == settings.exclude_passwords && string_views(
                s.exclude_patterns@,
            ) == string_views(settings.exclude_patterns@),
            None => r is None,
        },
{
    match parse_u32(text) {
        Some(v) => {
            let mut s = settings.copy();
            s.max_entries = if v < MIN_ENTRIES {
                MIN_ENTRIES
            } else if v > MAX_ENTRIES {
                MAX_ENTRIES
            } else {
                v
            };
            Some(s)
        },
        None => None,
    }
}

/// The settings after the password box changed.
pub fn with_exclude_passwords(settings: &ClipboardSettings, checked: bool) -> (r: ClipboardSettings)
    ensures
        r.max_entries == settings.max_entries,
        r.exclude_passwords == checked,
        string_views(r.exclude_patterns@) == string_views(settings.exclude_patterns@),
{
    let mut s = settings.copy();
    s.exclude_passwords = checked;
    s
}

/// The date part of a timestamp: its first ten bytes (`YYYY-MM-DD`).
pub fn format_time(created_at: &str) -> (r: String)
    requires
        byte_len(created_at@) >= 10 ==> is_byte_boundary(created_at@, 10),
    ensures
        byte_len(created_at@) >= 10 ==> r@ == created_at@.take(r@.len() as int) && byte_len(r@)
            == 10,
        byte_len(created_at@) < 10 ==> r@ == created_at@,
{
    let v = to_chars(created_at);
    if byte_len_exceeds(&v, 9) {
        from_chars(&take_bytes(&v, 10))
    } else {
        from_chars(&v)
    }
}

/// The text of an entry cut to `max_len` bytes, with `...` after a cut.
pub fn truncate_content(content: &str, max_len: usize) -> (r: String)
    requires
        byte_len(content@) > max_len ==> is_byte_boundary(content@, max_len as int),
    ensures
        byte_len(content@) > max_len ==> ({
            let k = (r@.len() - 3) as int;
            &&& r@.len() >= 3
            &&& r@.skip(k) == "..."@
            &&& r@.take(k) == content@.take(k)
            &&& byte_len(r@.take(k)) == max_len
        }),
        byte_len(content@) <= max_len ==> r@ == content@,
{
    let v = to_chars(content);
    if byte_len_exceeds(&v, max_len) {
        let mut cut = take_bytes(&v, max_len);
        let ghost kept = cut@;
        extend_str(&mut cut, "...");
        proof {
            reveal_strlit("...");
            assert(cut@.take(kept.len() as int) =~= kept);
            assert(cut@.skip(kept.len() as int) =~= "..."@);
        }
        from_chars(&cut)
    } else {
        from_chars(&v)
    }
}

/// The entries, in order, that are pinned (`pinned == true`) or not.
pub open spec fn with_pin(es: Seq<EntryView>, pinned: bool) -> Seq<EntryView>
    decreases es.len(),
{
    if es.len() == 0 {
        es
    } else if es.last().pinned == pinned {
        with_pin(es.drop_last(), pinned).push(es.last())
    } else {
        with_pin(es.drop_last(), pinned)
    }
}

/// Every entry shows in exactly one section: the pinned and the recent
/// sections together hold the history's entries, each as often as it occurs.
pub proof fn law_sections_partition(es: Seq<EntryView>)
    ensures
        with_pin(es, true).len() + with_pin(es, false).len() == es.len(),
        with_pin(es, true).to_multiset().add(with_pin(es, false).to_multiset()) == es.to_multiset(),
    decreases es.len(),
{
    broadcast use vstd::multiset::group_multiset_axioms, vstd::seq_lib::group_to_multiset_ensures;
    if es.len() > 0 {
        let rest = es.drop_last();
        law_sections_partition(rest);
        assert(rest.push(es.last()) =~= es);
        assert(es.to_multiset() =~= rest.to_multiset().insert(es.last()));
        if es.last().pinned {
            assert(with_pin(es, true).to_multiset() =~= with_pin(rest, true).to_multiset().insert(es.last()));
        } else {
            assert(with_pin(es, false).to_multiset() =~= with_pin(rest, false).to_multiset().insert(es.last()));
        }
        assert(with_pin(es, true).to_multiset().add(with_pin(es, false).to_multiset()) =~= es.to_multiset());
    } else {
        assert(with_pin(es, true).to_multiset() =~= vstd::multiset::Multiset::empty());
        assert(with_pin(es, false).to_multiset() =~= vstd::multiset::Multiset::empty());
        assert(es.to_multiset() =~= vstd::multiset::Multiset::empty());
    }
}

/// The entries of one section: the pinned ones, or the recent (unpinned) ones.
pub fn section_entries(entries: &Vec<ClipboardEntry>, pinned: bool) -> (r: Vec<ClipboardEntry>)
    ensures
        entry_views(r@) == with_pin(entry_views(entries@), pinned),
{
    let ghost ev = entry_views(entries@);
    let mut r: Vec<ClipboardEntry> = Vec::new();
    let mut i: usize = 0;
    while i < entries.len()
        invariant
            i <= entries.len(),
            ev == entry_views(entries@),
            entry_views(r@) == with_pin(ev.take(i as int), pinned),
        decreases entries.len() - i,
    {
        assert(ev.take(i + 1).drop_last() =~= ev.take(i as int));
        if entries[i].pinned == pinned {
            let e = entries[i].copy();
            let ghost before = r@;
            let ghost ev1 = e@;
            r.push(e);
            assert(entry_views(r@) =~= entry_views(before).push(ev1));
        }
        i += 1;
    }
    assert(ev.take(entries.len() as int) =~= ev);
    r
}

/// The text of the first entry with the given id, which a click copies.
pub fn content_of(entries: &Vec<ClipboardEntry>, id: &str) -> (r: Option<String>)
    ensures
        match r {
            Some(c) => exists|k: int|
                0 <= k < entries.len() && entries@[k].id@ == id@ && c@ == entries@[k].content@
                    && forall|j: int| 0 <= j < k ==> entries@[j].id@ != id@,
            None => forall|j: int| 0 <= j < entries.len() ==> entries@[j].id@ != id@,
        },
{
    let mut i: usize = 0;
    while i < entries.len()
        invariant
            i <= entries.len(),
            forall|j: int| 0 <= j < i ==> entries@[j].id@ != id@,
        decreases entries.len() - i,
    {
        if same_text(entries[i].id.as_str(), id) {
            return Some(entries[i].content.clone());
        }
        i += 1;
    }
    None
}

/// Whether the entry shows the "copied" mark.
pub fn is_copied(copied_id: &Option<String>, id: &str) -> (b: bool)
    ensures
        b == (copied_id matches Some(c) && c@ == id@),
{
    match copied_id {
        Some(c) => same_text(c.as_str(), id),
        None => false,
    }
}

/// What the search box asks of the backend.
pub enum HistoryQuery {
    /// Load the whole history again.
    LoadAll,
    /// Search for this text.
    Search(String),
}

/// An empty search loads everything; any other text is searched for.
pub fn history_query(query: &str) -> (r: HistoryQuery)
    ensures
        query@.len() == 0 ==> r is LoadAll,
        query@.len() > 0 ==> (r matches HistoryQuery::Search(q) && q@ == query@),
{
    if query.is_empty() {
        HistoryQuery::LoadAll
    } else {
        HistoryQuery::Search(query.to_string())
    }
}

/// The text to add as a new entry; nothing for an empty box.
pub fn entry_to_add(content: &str) -> (r: Option<String>)
    ensures
        content@.len() == 0 <==> r is None,
        r matches Some(c) ==> c@ == content@,
{
    if content.is_empty() {
        None
    } else {
        Some(content.to_string())
    }
}

} // verus!
