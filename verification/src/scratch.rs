//! The scratch pad: notes with a title and a preview drawn from their text,
//! the active note, and the auto-save status.
use vstd::prelude::*;
use crate::text::byte_len;
use crate::text::byte_len_exceeds;
use crate::text::byte_len_exec;
use crate::text::extend;
use crate::text::extend_str;
use crate::text::from_chars;
use crate::text::is_byte_boundary;
use crate::text::lines;
use crate::text::same_text;
use crate::text::split_lines;
use crate::text::take_bytes;
use crate::text::to_chars;
use crate::text::trim;
use crate::text::trim_chars;
use crate::text::trim_start_char;
use crate::text::trim_start_char_chars;
use crate::text::views;

verus! {

/// One note.
#[derive(Clone)]
pub struct Note {
    pub id: String,
    pub content: String,
    pub created_at: String,
    pub updated_at: String,
}

/// A note as values.
pub struct NoteView {
    pub id: Seq<char>,
    pub content: Seq<char>,
    pub created_at: Seq<char>,
    pub updated_at: Seq<char>,
}

impl View for Note {
    type V = NoteView;

    open spec fn view(&self) -> NoteView {
        NoteView {
            id: self.id@,
            content: self.content@,
            created_at: self.created_at@,
            updated_at: self.updated_at@,
        }
    }
}

/// The views of a list of notes.
pub open spec fn note_views(v: Seq<Note>) -> Seq<NoteView> {
    v.map_values(|n: Note| n@)
}

/// The first line of a text, or nothing.
pub open spec fn first_line(c: Seq<char>) -> Seq<char> {
    if lines(c).len() > 0 {
        lines(c)[0]
    } else {
        Seq::empty()
    }
}

/// The heading text of the first line: without leading `#` and surrounding
/// whitespace.
pub open spec fn title_text(c: Seq<char>) -> Seq<char> {
    trim(trim_start_char(first_line(c), '#'))
}

/// `t` cut to its first `n` bytes with `...` after it.
pub open spec fn cut_with_dots(t: Seq<char>, n: nat) -> Seq<char> {
    (choose|p: Seq<char>| p.len() <= t.len() && p == t.take(p.len() as int) && byte_len(p) == n)
        + "..."@
}

/// The title of a note: the heading text of its first line, "New Note" when
/// that is empty, cut to 27 bytes and `...` when longer than 30 bytes.
pub open spec fn note_title(c: Seq<char>) -> Seq<char> {
    let t = title_text(c);
    if t.len() == 0 {
        "New Note"@
    } else if byte_len(t) > 30 {
        cut_with_dots(t, 27)
    } else {
        t
    }
}

/// Lines `a` joined with single spaces.
pub open spec fn join_spaces(a: Seq<Seq<char>>) -> Seq<char>
    decreases a.len(),
{
    if a.len() == 0 {
        Seq::empty()
    } else if a.len() == 1 {
        a[0]
    } else {
        join_spaces(a.drop_last()) + seq![' '] + a.last()
    }
}

/// The second and third lines of a text joined with a space, trimmed.
pub open spec fn preview_text(c: Seq<char>) -> Seq<char> {
    let ls = lines(c);
    let rest = if ls.len() > 0 { ls.drop_first() } else { ls };
    let two = if rest.len() > 2 { rest.take(2) } else { rest };
    trim(join_spaces(two))
}

/// The preview of a note: its second and third lines, cut to 47 bytes and
/// `...` when longer than 50 bytes, or "No additional text".
pub open spec fn note_preview(c: Seq<char>) -> Seq<char> {
    let p = preview_text(c);
    if byte_len(p) > 50 {
        cut_with_dots(p, 47)
    } else if p.len() == 0 {
        "No additional text"@
    } else {
        p
    }
}

/// Appends `...` to the first `n` bytes of `t`.
fn cut_and_dot(t: &Vec<char>, n: usize) -> (r: String)
    requires
        is_byte_boundary(t@, n as int),
    ensures
        r@ == cut_with_dots(t@, n as nat),
{
    let mut p = take_bytes(t, n);
    proof {
        let q = choose|q: Seq<char>|
            q.len() <= t@.len() && q == t@.take(q.len() as int) && byte_len(q) == n;
        assert(p@ == t@.take(p@.len() as int) && byte_len(p@) == n);
        lemma_prefix_unique(t@, p@, q, n as nat);
    }
    extend_str(&mut p, "...");
    from_chars(&p)
}

/// Two prefixes of the same length in bytes are the same prefix.
proof fn lemma_prefix_unique(t: Seq<char>, p: Seq<char>, q: Seq<char>, n: nat)
    requires
        p == t.take(p.len() as int),
        byte_len(p) == n,
        q == t.take(q.len() as int),
        byte_len(q) == n,
        p.len() <= t.len(),
        q.len() <= t.len(),
    ensures
        p == q,
{
    if p.len() < q.len() {
        crate::text::lemma_byte_len_mono(t, p.len() as int, q.len() as int);
        assert(false);
    } else if q.len() < p.len() {
        crate::text::lemma_byte_len_mono(t, q.len() as int, p.len() as int);
        assert(false);
    }
}

/// The lines `a` joined with single spaces.
fn join_with_spaces(a: &Vec<Vec<char>>) -> (r: Vec<char>)
    ensures
        r@ == join_spaces(views(a@)),
{
    let ghost av = views(a@);
    let mut out: Vec<char> = Vec::new();
    let mut i: usize = 0;
    while i < a.len()
        invariant
            i <= a.len(),
            av == views(a@),
            out@ == join_spaces(av.take(i as int)),
        decreases a.len() - i,
    {
        assert(av.take(i + 1).drop_last() =~= av.take(i as int));
        if i > 0 {
            out.push(' ');
        }
        extend(&mut out, &a[i]);
        proof {
            if i == 0 {
                assert(av.take(1)[0] == av[0]);
            }
            assert(out@ =~= join_spaces(av.take(i + 1)));
        }
        i += 1;
    }
    assert(av.take(a.len() as int) =~= av);
    out
}

impl Note {
    /// The note's title in the list.
    pub fn title(&self) -> (r: String)
        requires
            byte_len(title_text(self.content@)) > 30 ==> is_byte_boundary(
                title_text(self.content@),
                27,
            ),
        ensures
            r@ == note_title(self.content@),
    {
        let c = to_chars(self.content.as_str());
        let ls = split_lines(&c);
        let first: Vec<char> = if ls.len() > 0 {
            let mut f: Vec<char> = Vec::new();
            extend(&mut f, &ls[0]);
            f
        } else {
            Vec::new()
        };
        assert(first@ == first_line(self.content@));
        let t = trim_chars(&trim_start_char_chars(&first, '#'));
        if t.len() == 0 {
            "New Note".to_string()
        } else if byte_len_exceeds(&t, 30) {
            cut_and_dot(&t, 27)
        } else {
            from_chars(&t)
        }
    }

    /// The note's preview in the list.
    pub fn preview(&self) -> (r: String)
        requires
            byte_len(preview_text(self.content@)) > 50 ==> is_byte_boundary(
                preview_text(self.content@),
                47,
            ),
        ensures
            r@ == note_preview(self.content@),
    {
        let c = to_chars(self.content.as_str());
        let ls = split_lines(&c);
        let ghost lv = lines(self.content@);
        let ghost rest = if lv.len() > 0 { lv.drop_first() } else { lv };
        let ghost two = if rest.len() > 2 { rest.take(2) } else { rest };
        let mut picked: Vec<Vec<char>> = Vec::new();
        if ls.len() > 0 {
            let mut i: usize = 1;
            while i < ls.len() && i < 3
                invariant
                    1 <= i <= 3,
                    i <= ls.len(),
                    views(ls@) == lv,
                    views(picked@) == lv.subrange(1, i as int),
                decreases ls.len() - i,
            {
                let mut l: Vec<char> = Vec::new();
                extend(&mut l, &ls[i]);
                let ghost before = picked@;
                picked.push(l);
                assert(views(picked@) =~= views(before).push(l@));
                assert(lv.subrange(1, i + 1) =~= lv.subrange(1, i as int).push(lv[i as int]));
                i += 1;
            }
            assert(views(picked@) =~= two);
        } else {
            assert(views(picked@) =~= two);
        }
        let joined = join_with_spaces(&picked);
        let p = trim_chars(&joined);
        if byte_len_exceeds(&p, 50) {
            cut_and_dot(&p, 47)
        } else if p.len() == 0 {
            "No additional text".to_string()
        } else {
            from_chars(&p)
        }
    }

    /// The note's size in bytes, shown under the editor.
    pub fn char_count(&self) -> (n: usize)
        requires
            byte_len(self.content@) <= usize::MAX,
        ensures
            n == byte_len(self.content@),
    {
        byte_len_exec(&to_chars(self.content.as_str()))
    }

    /// The note's number of lines, at least one.
    pub fn line_count(&self) -> (n: usize)
        ensures
            n == (if lines(self.content@).len() == 0 { 1 } else { lines(self.content@).len() }),
    {
        let ls = split_lines(&to_chars(self.content.as_str()));
        if ls.len() == 0 {
            1
        } else {
            ls.len()
        }
    }

    /// A copy of the note.
    pub fn copy(&self) -> (r: Note)
        ensures
            r@ == self@,
    {
        Note {
            id: self.id.clone(),
            content: self.content.clone(),
            created_at: self.created_at.clone(),
            updated_at: self.updated_at.clone(),
        }
    }
}

/// The notes and which one is open.
#[derive(Clone)]
pub struct ScratchPadData {
    pub notes: Vec<Note>,
    pub active_note_id: Option<String>,
}

/// The place of the first note with the given id.
pub open spec fn note_index(ns: Seq<NoteView>, id: Seq<char>) -> Option<int> {
    if exists|k: int| 0 <= k < ns.len() && ns[k].id == id {
        Some(
            choose|k: int|
                0 <= k < ns.len() && ns[k].id == id && forall|j: int|
                    0 <= j < k ==> ns[j].id != id,
        )
    } else {
        None
    }
}

/// Finds the first note with the given id.
fn find_note(notes: &Vec<Note>, id: &str) -> (r: Option<usize>)
    ensures
        match r {
            Some(k) => note_index(note_views(notes@), id@) == Some(k as int) && k < notes@.len(),
            None => note_index(note_views(notes@), id@) is None,
        },
{
    let ghost nv = note_views(notes@);
    let mut i: usize = 0;
    while i < notes.len()
        invariant
            i <= notes.len(),
            nv == note_views(notes@),
            forall|j: int| 0 <= j < i ==> nv[j].id != id@,
        decreases notes.len() - i,
    {
        if same_text(notes[i].id.as_str(), id) {
            proof {
                assert(nv[i as int].id == id@);
                let k = choose|k: int|
                    0 <= k < nv.len() && nv[k].id == id@ && forall|j: int|
                        0 <= j < k ==> nv[j].id != id@;
                if k < i {
                    assert(nv[k].id != id@);
                }
                if k > i {
                    assert(nv[i as int].id != id@);
                }
            }
            return Some(i);
        }
        i += 1;
    }
    None
}

/// The open note: the first note whose id is the active one.
pub open spec fn active_note_of(notes: Seq<NoteView>, active: Option<Seq<char>>) -> Option<NoteView> {
    match active {
        Some(id) => match note_index(notes, id) {
            Some(k) => Some(notes[k]),
            None => None,
        },
        None => None,
    }
}

/// A note that was just created, put at the top and opened, is the open note.
pub proof fn law_created_note_is_open(ns: Seq<NoteView>, n: NoteView)
    ensures
        active_note_of(seq![n] + ns, Some(n.id)) == Some(n),
{
    let all = seq![n] + ns;
    assert(all[0] == n);
    assert(0 <= 0 < all.len() && all[0].id == n.id);
    let k = choose|k: int|
        0 <= k < all.len() && all[k].id == n.id && forall|j: int| 0 <= j < k ==> all[j].id != n.id;
    assert(0 <= 0 < all.len() && all[0].id == n.id && forall|j: int| 0 <= j < 0 ==> all[j].id != n.id);
    if k > 0 {
        assert(all[0].id != n.id);
    }
    assert(note_index(all, n.id) == Some(0int));
}

impl ScratchPadData {
    /// A pad with one empty note, open, made at `now` with the id `id` (the
    /// page draws both from the clock and a random number).
    pub fn with_first_note(id: String, now: String) -> (d: ScratchPadData)
        ensures
            d.notes@.len() == 1,
            d.notes@[0].id@ == id@,
            d.notes@[0].content@.len() == 0,
            d.notes@[0].created_at@ == now@,
            d.notes@[0].updated_at@ == now@,
            d.active_note_id matches Some(a) && a@ == id@,
    {
        let note = Note {
            id: id.clone(),
            content: String::new(),
            created_at: now.clone(),
            updated_at: now,
        };
        let mut notes: Vec<Note> = Vec::new();
        notes.push(note);
        ScratchPadData { notes, active_note_id: Some(id) }
    }

    /// The open note.
    pub fn active_note(&self) -> (r: Option<Note>)
        ensures
            match active_note_of(note_views(self.notes@), match self.active_note_id {
                Some(a) => Some(a@),
                None => None,
            }) {
                Some(n) => r matches Some(x) && x@ == n,
                None => r is None,
            },
    {
        match &self.active_note_id {
            Some(id) => match find_note(&self.notes, id.as_str()) {
                Some(k) => Some(self.notes[k].copy()),
                None => None,
            },
            None => None,
        }
    }

    /// A created note goes to the top of the list and is opened.
    pub fn add_created(&mut self, note: Note)
        ensures
            *final(self) == (ScratchPadData {
                active_note_id: final(self).active_note_id,
                notes: final(self).notes,
                ..*old(self)
            }),
            note_views(final(self).notes@) == seq![note@] + note_views(old(self).notes@),
            final(self).active_note_id matches Some(a) && a@ == note.id@,
    {
        let ghost nv = note_views(self.notes@);
        let ghost v = note@;
        let id = note.id.clone();
        self.notes.insert(0, note);
        assert(note_views(self.notes@) =~= seq![v] + nv);
        self.active_note_id = Some(id);
    }

    /// The open note's text changed: the first note with its id takes it.
    pub fn set_content(&mut self, note_id: &str, content: String)
        ensures
            *final(self) == (ScratchPadData { notes: final(self).notes, ..*old(self) }),
            match note_index(note_views(old(self).notes@), note_id@) {
                Some(k) => note_views(final(self).notes@) == note_views(old(self).notes@).update(
                    k,
                    NoteView { content: content@, ..note_views(old(self).notes@)[k] },
                ),
                None => note_views(final(self).notes@) == note_views(old(self).notes@),
            },
            final(self).active_note_id == old(self).active_note_id,
    {
        let ghost nv = note_views(self.notes@);
        match find_note(&self.notes, note_id) {
            Some(k) => {
                let mut n = self.notes.remove(k);
                let ghost cv = content@;
                n.content = content;
                let ghost v = n@;
                self.notes.insert(k, n);
                assert(note_views(self.notes@) =~= nv.update(
                    k as int,
                    NoteView { content: cv, ..nv[k as int] },
                ));
            },
            None => {},
        }
    }

    /// A note can be deleted only while there are others.
    pub fn can_delete(&self) -> (b: bool)
        ensures
            b == (self.notes@.len() > 1),
    {
        self.notes.len() > 1
    }
}

/// The auto-save: whether a save is waiting, and the status shown.
#[derive(Clone)]
pub struct SaveStatus {
    pub pending: bool,
    pub text: &'static str,
}

impl SaveStatus {
    /// Nothing saved yet.
    pub fn new() -> (s: SaveStatus)
        ensures
            !s.pending,
            s.text@ == ""@,
    {
        SaveStatus { pending: false, text: "" }
    }

    /// The text was edited: unless a save is already waiting, one is planned
    /// (`true`) and "Saving..." shows.
    pub fn on_edit(&mut self) -> (plan: bool)
        ensures
            *final(self) == (SaveStatus {
                pending: final(self).pending,
                text: final(self).text,
                ..*old(self)
            }),
            plan == !old(self).pending,
            final(self).pending,
            plan ==> final(self).text@ == "Saving..."@,
            !plan ==> final(self).text == old(self).text,
    {
        if !self.pending {
            self.pending = true;
            self.text = "Saving...";
            true
        } else {
            false
        }
    }

    /// The planned save ended: "Saved" or "Save failed"; another edit may
    /// plan the next one.
    pub fn on_saved(&mut self, ok: bool)
        ensures
            *final(self) == (SaveStatus {
                pending: final(self).pending,
                text: final(self).text,
                ..*old(self)
            }),
            !final(self).pending,
            ok ==> final(self).text@ == "Saved"@,
            !ok ==> final(self).text@ == "Save failed"@,
    {
        self.text = if ok { "Saved" } else { "Save failed" };
        self.pending = false;
    }

    /// The note was exported to a file.
    pub fn on_exported(&mut self)
        ensures
            *final(self) == (SaveStatus { text: final(self).text, ..*old(self) }),
            final(self).text@ == "Exported!"@,
            final(self).pending == old(self).pending,
    {
        self.text = "Exported!";
    }

    /// The pause after a status ended: it goes away.
    pub fn on_timeout(&mut self)
        ensures
            *final(self) == (SaveStatus { text: final(self).text, ..*old(self) }),
            final(self).text@ == ""@,
            final(self).pending == old(self).pending,
    {
        self.text = "";
    }
}

/// How the editor pane is laid out.
#[derive(Clone, Copy, Debug, PartialEq, Eq, Structural)]
pub enum PadViewMode {
    Edit,
    Preview,
    Split,
}

/// The translation key of a layout's tab.
pub open spec fn pad_mode_key(m: PadViewMode) -> Seq<char> {
    match m {
        PadViewMode::Edit => "common.edit"@,
        PadViewMode::Preview => "common.preview"@,
        PadViewMode::Split => "common.split"@,
    }
}

/// The style class of a layout.
pub open spec fn pad_mode_class(m: PadViewMode) -> Seq<char> {
    match m {
        PadViewMode::Edit => "edit-only"@,
        PadViewMode::Preview => "preview-only"@,
        PadViewMode::Split => "split-view"@,
    }
}

impl PadViewMode {
    /// The translation key of the layout's tab.
    pub fn translation_key(&self) -> (s: &'static str)
        ensures
            s@ == pad_mode_key(*self),
    {
        match self {
            PadViewMode::Edit => "common.edit",
            PadViewMode::Preview => "common.preview",
            PadViewMode::Split => "common.split",
        }
    }

    /// The style class of the layout.
    pub fn class(&self) -> (s: &'static str)
        ensures
            s@ == pad_mode_class(*self),
    {
        match self {
            PadViewMode::Edit => "edit-only",
            PadViewMode::Preview => "preview-only",
            PadViewMode::Split => "split-view",
        }
    }

    /// The editor shows in every layout but the preview.
    pub fn shows_editor(&self) -> (b: bool)
        ensures
            b == (*self != PadViewMode::Preview),
    {
        *self != PadViewMode::Preview
    }

    /// The preview shows in every layout but the editor.
    pub fn shows_preview(&self) -> (b: bool)
        ensures
            b == (*self != PadViewMode::Edit),
    {
        *self != PadViewMode::Edit
    }

    /// The tabs, in order.
    pub fn all() -> (r: [PadViewMode; 3])
        ensures
            r@ == seq![PadViewMode::Edit, PadViewMode::Split, PadViewMode::Preview],
    {
        [PadViewMode::Edit, PadViewMode::Split, PadViewMode::Preview]
    }
}

} // verus!
