//! The input history of a tool: how a stored entry is previewed and dated,
//! the panel's search, and deleting entries.
use vstd::prelude::*;
use crate::text::byte_len;
use crate::text::byte_len_exceeds;
use crate::text::extend;
use crate::text::extend_str;
use crate::text::from_chars;
use crate::text::is_byte_boundary;
use crate::text::same_text;
use crate::text::string_views;
use crate::text::take_bytes;
use crate::text::to_chars;

verus! {

/// `s` cut to its first `n` bytes with `...` after it when longer than `n`
/// bytes; else `s`.
pub open spec fn clip(s: Seq<char>, n: nat) -> Seq<char> {
    if byte_len(s) > n {
        (choose|p: Seq<char>| p.len() <= s.len() && p == s.take(p.len() as int) && byte_len(p) == n)
            + "..."@
    } else {
        s
    }
}

/// Whether `clip(s, n)` can be taken: a longer text must have a character
/// boundary at byte `n`.
pub open spec fn clippable(s: Seq<char>, n: nat) -> bool {
    byte_len(s) > n ==> is_byte_boundary(s, n as int)
}

/// Appends `clip(s, n)`.
fn emit_clipped(out: &mut Vec<char>, s: &str, n: usize)
    requires
        clippable(s@, n as nat),
    ensures
        final(out)@ == old(out)@ + clip(s@, n as nat),
{
    let v = to_chars(s);
    if byte_len_exceeds(&v, n) {
        let p = take_bytes(&v, n);
        proof {
            let q = choose|q: Seq<char>|
                q.len() <= s@.len() && q == s@.take(q.len() as int) && byte_len(q) == n;
            if p@.len() < q.len() {
                crate::text::lemma_byte_len_mono(s@, p@.len() as int, q.len() as int);
            } else if q.len() < p@.len() {
                crate::text::lemma_byte_len_mono(s@, q.len() as int, p@.len() as int);
            }
            assert(p@ == q);
        }
        extend(out, &p);
        extend_str(out, "...");
        assert(final(out)@ =~= old(out)@ + clip(s@, n as nat));
    } else {
        extend(out, &v);
    }
}

/// A stored value of an entry's inputs: a string, or any other JSON value in
/// its JSON text.
pub enum PreviewValue {
    Text(String),
    Json(String),
}

/// The inputs of an entry as far as the preview reads them: the fields of an
/// object in their stored order, or any other JSON value in its JSON text.
pub enum PreviewInput {
    Object(Vec<(String, PreviewValue)>),
    Other(String),
}

/// The text of a value: strings and JSON texts are both cut to 40 bytes.
pub open spec fn value_preview(v: PreviewValue) -> Seq<char> {
    match v {
        PreviewValue::Text(s) => clip(s@, 40),
        PreviewValue::Json(s) => clip(s@, 40),
    }
}

/// One field in the preview: `key: value`.
pub open spec fn field_preview(f: (String, PreviewValue)) -> Seq<char> {
    f.0@ + ": "@ + value_preview(f.1)
}

/// The first fields joined with ` | `.
pub open spec fn fields_preview(fs: Seq<(String, PreviewValue)>) -> Seq<char>
    decreases fs.len(),
{
    if fs.len() == 0 {
        Seq::empty()
    } else if fs.len() == 1 {
        field_preview(fs[0])
    } else {
        fields_preview(fs.drop_last()) + " | "@ + field_preview(fs.last())
    }
}

/// The preview of an entry: the first three fields of an object, or the JSON
/// text cut to 80 bytes.
pub open spec fn input_preview(i: PreviewInput) -> Seq<char> {
    match i {
        PreviewInput::Object(fs) => fields_preview(
            if fs@.len() > 3 { fs@.take(3) } else { fs@ },
        ),
        PreviewInput::Other(s) => clip(s@, 80),
    }
}

/// Whether every cut the preview makes falls between characters.
pub open spec fn preview_ok(i: PreviewInput) -> bool {
    match i {
        PreviewInput::Object(fs) => forall|k: int|
            0 <= k < fs@.len() && k < 3 ==> match #[trigger] fs@[k].1 {
                PreviewValue::Text(s) => clippable(s@, 40),
                PreviewValue::Json(s) => clippable(s@, 40),
            },
        PreviewInput::Other(s) => clippable(s@, 80),
    }
}

/// The preview of an entry's inputs.
pub fn format_preview(inputs: &PreviewInput) -> (s: String)
    requires
        preview_ok(*inputs),
    ensures
        s@ == input_preview(*inputs),
{
    match inputs {
        PreviewInput::Object(fs) => {
            let ghost all = fs@;
            let ghost shown = if all.len() > 3 { all.take(3) } else { all };
            let n: usize = if fs.len() > 3 { 3 } else { fs.len() };
            let mut out: Vec<char> = Vec::new();
            let mut i: usize = 0;
            while i < n
                invariant
                    i <= n,
                    n <= fs.len(),
                    n == shown.len(),
                    all == fs@,
                    shown == (if all.len() > 3 { all.take(3) } else { all }),
                    preview_ok(*inputs),
                    *inputs == PreviewInput::Object(*fs),
                    out@ == fields_preview(shown.take(i as int)),
                decreases n - i,
            {
                assert(shown.take(i + 1).drop_last() =~= shown.take(i as int));
                assert(shown[i as int] == fs@[i as int]);
                if i > 0 {
                    extend_str(&mut out, " | ");
                }
                let ghost before = out@;
                extend_str(&mut out, fs[i].0.as_str());
                extend_str(&mut out, ": ");
                match &fs[i].1 {
                    PreviewValue::Text(s) => emit_clipped(&mut out, s.as_str(), 40),
                    PreviewValue::Json(s) => emit_clipped(&mut out, s.as_str(), 40),
                }
                proof {
                    if i == 0 {
                        assert(shown.take(1)[0] == shown[0]);
                    }
                    assert(out@ =~= fields_preview(shown.take(i + 1)));
                }
                i += 1;
            }
            assert(shown.take(n as int) =~= shown);
            from_chars(&out)
        },
        PreviewInput::Other(s) => {
            let mut out: Vec<char> = Vec::new();
            emit_clipped(&mut out, s.as_str(), 80);
            assert(out@ =~= clip(s@, 80));
            from_chars(&out)
        },
    }
}

/// `s` with every `T` turned into a space.
pub open spec fn t_to_space(s: Seq<char>) -> Seq<char> {
    s.map_values(|c: char| if c == 'T' { ' ' } else { c })
}

/// The time of an entry: the first sixteen bytes of its timestamp with the
/// `T` turned into a space (`YYYY-MM-DD HH:MM`); a shorter timestamp as it is.
pub fn format_time_ago(created_at: &str) -> (s: String)
    requires
        byte_len(created_at@) >= 16 ==> is_byte_boundary(created_at@, 16),
    ensures
        byte_len(created_at@) >= 16 ==> exists|p: Seq<char>|
            p.len() <= created_at@.len() && p == created_at@.take(p.len() as int) && byte_len(p)
                == 16 && s@ == t_to_space(p),
        byte_len(created_at@) < 16 ==> s@ == created_at@,
{
    let v = to_chars(created_at);
    if byte_len_exceeds(&v, 15) {
        let p = take_bytes(&v, 16);
        let mut out: Vec<char> = Vec::new();
        let mut i: usize = 0;
        while i < p.len()
            invariant
                i <= p.len(),
                out@ == t_to_space(p@.take(i as int)),
            decreases p.len() - i,
        {
            let c = p[i];
            out.push(if c == 'T' { ' ' } else { c });
            assert(t_to_space(p@.take(i + 1)) =~= t_to_space(p@.take(i as int)).push(
                if c == 'T' { ' ' } else { c },
            ));
            i += 1;
        }
        assert(p@.take(p.len() as int) =~= p@);
        from_chars(&out)
    } else {
        from_chars(&v)
    }
}

/// The places, in order, of the entries whose id is not `id`.
pub open spec fn kept_places(ids: Seq<Seq<char>>, id: Seq<char>) -> Seq<nat>
    decreases ids.len(),
{
    if ids.len() == 0 {
        Seq::empty()
    } else {
        let rest = kept_places(ids.drop_last(), id);
        if ids.last() != id {
            rest.push((ids.len() - 1) as nat)
        } else {
            rest
        }
    }
}

/// After deleting the entry `id`: the places of the entries that stay.
pub fn kept_after_delete(ids: &Vec<String>, id: &str) -> (r: Vec<usize>)
    ensures
        r@.map_values(|i: usize| i as nat) == kept_places(string_views(ids@), id@),
{
    let ghost iv = string_views(ids@);
    let mut r: Vec<usize> = Vec::new();
    let mut i: usize = 0;
    while i < ids.len()
        invariant
            i <= ids.len(),
            iv == string_views(ids@),
            r@.map_values(|k: usize| k as nat) == kept_places(iv.take(i as int), id@),
        decreases ids.len() - i,
    {
        assert(iv.take(i + 1).drop_last() =~= iv.take(i as int));
        assert(iv.take(i + 1).last() == ids@[i as int]@);
        if !same_text(ids[i].as_str(), id) {
            let ghost before = r@;
            r.push(i);
            assert(r@.map_values(|k: usize| k as nat) =~= before.map_values(|k: usize| k as nat).push(
                i as nat,
            ));
        }
        i += 1;
    }
    assert(iv.take(ids.len() as int) =~= iv);
    r
}

/// The panel: open or closed, and its search.
#[derive(Clone)]
pub struct HistoryPanel {
    pub is_open: bool,
    pub search_query: String,
}

impl HistoryPanel {
    /// Closed, no search.
    pub fn new() -> (p: HistoryPanel)
        ensures
            !p.is_open,
            p.search_query@.len() == 0,
    {
        HistoryPanel { is_open: false, search_query: String::new() }
    }

    /// The panel's button; an opened panel loads the history (`true`).
    pub fn toggle(&mut self) -> (load: bool)
        ensures
            *final(self) == (HistoryPanel { is_open: final(self).is_open, ..*old(self) }),
            final(self).is_open == !old(self).is_open,
            load == final(self).is_open,
    {
        self.is_open = !self.is_open;
        self.is_open
    }

    /// The search text changed: an empty search loads everything (`None`),
    /// other text is searched for.
    pub fn on_search(&mut self, query: String) -> (r: Option<String>)
        ensures
            *final(self) == (HistoryPanel { search_query: final(self).search_query, ..*old(self) }),
            final(self).search_query == query,
            query@.len() == 0 ==> r is None,
            query@.len() > 0 ==> (r matches Some(q) && q@ == query@),
    {
        let r = if query.as_str().is_empty() {
            None
        } else {
            Some(query.clone())
        };
        self.search_query = query;
        r
    }
}

/// Whether the panel's button shows a count badge.
pub fn shows_badge(entry_count: usize) -> (b: bool)
    ensures
        b == (entry_count > 0),
{
    entry_count > 0
}

} // verus!
