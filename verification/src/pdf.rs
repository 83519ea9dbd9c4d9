//! The PDF tools: splitting one document (every page, or a page range) and
//! merging an ordered list of documents.
use vstd::prelude::*;
use vstd::string::*;
use crate::image::read_u32_field;
use crate::image::u32_field;
use crate::text::decimal;
use crate::text::decimal_chars;
use crate::text::extend;
use crate::text::extend_str;
use crate::text::from_chars;

verus! {

/// What the backend reports about a PDF file.
#[derive(Clone)]
pub struct PdfInfo {
    pub page_count: u32,
    pub file_size: u64,
    pub file_name: String,
}

/// A PDF chosen for merging.
#[derive(Clone)]
pub struct PdfFile {
    pub path: String,
    pub info: PdfInfo,
}

/// A PDF file as values: its path, page count, size and name.
pub struct PdfFileView {
    pub path: Seq<char>,
    pub page_count: u32,
    pub file_size: u64,
    pub file_name: Seq<char>,
}

impl View for PdfFile {
    type V = PdfFileView;

    open spec fn view(&self) -> PdfFileView {
        PdfFileView {
            path: self.path@,
            page_count: self.info.page_count,
            file_size: self.info.file_size,
            file_name: self.info.file_name@,
        }
    }
}

/// The views of a list of files.
pub open spec fn file_views(v: Seq<PdfFile>) -> Seq<PdfFileView> {
    v.map_values(|f: PdfFile| f@)
}

/// Whether the tool splits or merges.
#[derive(Clone, Copy, Debug, PartialEq, Eq, Structural)]
pub enum PdfMode {
    Split,
    Merge,
}

/// How a document is split.
#[derive(Clone, Copy, Debug, PartialEq, Eq, Structural)]
pub enum SplitType {
    AllPages,
    Range,
}

/// What the backend is asked to do to split a document.
pub enum SplitRequest {
    /// One file per page, written into a directory that the user chooses.
    AllPages { input_path: String },
    /// The pages `start..=end` into one file that the user chooses.
    Range { input_path: String, start_page: u32, end_page: u32 },
}

/// Where a dropped PDF goes, given the page count the backend reported.
pub enum DroppedPdf {
    /// It becomes the document to split; the range ends at its last page.
    ToSplit { end_page: u32 },
    /// It joins the end of the merge list.
    ToMerge,
}

/// A dropped PDF goes to the split side in split mode and to the merge list otherwise.
pub fn dropped_pdf(mode: PdfMode, info: &PdfInfo) -> (r: DroppedPdf)
    ensures
        mode == PdfMode::Split ==> (r matches DroppedPdf::ToSplit { end_page } && end_page
            == info.page_count),
        mode == PdfMode::Merge ==> r is ToMerge,
{
    match mode {
        PdfMode::Split => DroppedPdf::ToSplit { end_page: info.page_count },
        PdfMode::Merge => DroppedPdf::ToMerge,
    }
}

/// The request for splitting the chosen document, or none when no document is chosen.
pub fn split_request(split_type: SplitType, input_path: &String, start_page: u32, end_page: u32) -> (r:
    Option<SplitRequest>)
    ensures
        input_path@.len() == 0 <==> r is None,
        r matches Some(SplitRequest::AllPages { input_path: p }) ==> split_type == SplitType::AllPages
            && p@ == input_path@,
        r matches Some(SplitRequest::Range { input_path: p, start_page: s, end_page: e })
            ==> split_type == SplitType::Range && p@ == input_path@ && s == start_page && e
            == end_page,
        r is Some ==> (split_type == SplitType::AllPages <==> r->0 is AllPages),
{
    if input_path.as_str().is_empty() {
        return None;
    }
    match split_type {
        SplitType::AllPages => Some(SplitRequest::AllPages { input_path: input_path.clone() }),
        SplitType::Range => Some(
            SplitRequest::Range { input_path: input_path.clone(), start_page, end_page },
        ),
    }
}

/// The paths to merge, in list order, or none when the list is empty.
pub fn merge_request(files: &Vec<PdfFile>) -> (r: Option<Vec<String>>)
    ensures
        files.len() == 0 <==> r is None,
        r matches Some(paths) ==> paths@.len() == files@.len() && forall|i: int|
            0 <= i < paths@.len() ==> paths@[i]@ == files@[i].path@,
{
    if files.len() == 0 {
        return None;
    }
    let mut paths: Vec<String> = Vec::new();
    let mut i: usize = 0;
    while i < files.len()
        invariant
            i <= files.len(),
            paths@.len() == i,
            forall|j: int| 0 <= j < i ==> paths@[j]@ == files@[j].path@,
        decreases files.len() - i,
    {
        paths.push(files[i].path.clone());
        i += 1;
    }
    Some(paths)
}

/// Merging needs at least two files and no work in progress.
pub fn can_merge(files: &Vec<PdfFile>, is_processing: bool) -> (b: bool)
    ensures
        b == (files.len() >= 2 && !is_processing),
{
    files.len() >= 2 && !is_processing
}

/// The total number of pages of the files in the list.
pub open spec fn pages_total(files: Seq<PdfFileView>) -> nat
    decreases files.len(),
{
    if files.len() == 0 {
        0
    } else {
        pages_total(files.drop_last()) + files.last().page_count as nat
    }
}

/// The total number of pages of the files in the list.
pub fn total_pages(files: &Vec<PdfFile>) -> (n: u32)
    requires
        pages_total(file_views(files@)) <= u32::MAX,
    ensures
        n == pages_total(file_views(files@)),
{
    let ghost fv = file_views(files@);
    let mut n: u32 = 0;
    let mut i: usize = 0;
    while i < files.len()
        invariant
            i <= files.len(),
            fv == file_views(files@),
            n == pages_total(fv.take(i as int)),
            pages_total(fv) <= u32::MAX,
        decreases files.len() - i,
    {
        assert(fv.take(i + 1).drop_last() =~= fv.take(i as int));
        proof {
            lemma_pages_total_prefix(fv, i + 1);
        }
        n = n + files[i].info.page_count;
        i += 1;
    }
    assert(fv.take(files.len() as int) =~= fv);
    n
}

/// The pages of a prefix are at most the pages of the whole list.
pub proof fn lemma_pages_total_prefix(fv: Seq<PdfFileView>, k: int)
    requires
        0 <= k <= fv.len(),
    ensures
        pages_total(fv.take(k)) <= pages_total(fv),
    decreases fv.len() - k,
{
    if k < fv.len() {
        lemma_pages_total_prefix(fv, k + 1);
        assert(fv.take(k + 1).drop_last() =~= fv.take(k));
    } else {
        assert(fv.take(k) =~= fv);
    }
}

/// `s` with the elements at `i` and `j` exchanged.
pub open spec fn swapped<T>(s: Seq<T>, i: int, j: int) -> Seq<T> {
    s.update(i, s[j]).update(j, s[i])
}

/// Exchanges the files at `i - 1` and `i`.
fn swap_with_previous(files: &mut Vec<PdfFile>, i: usize)
    requires
        0 < i < old(files).len(),
    ensures
        final(files)@ == swapped(old(files)@, i as int - 1, i as int),
{
    let f = files.remove(i);
    files.insert(i - 1, f);
    assert(final(files)@ =~= swapped(old(files)@, i as int - 1, i as int));
}

/// Removes the file at `index` from the merge list.
pub fn remove_merge_file(files: &mut Vec<PdfFile>, index: usize)
    requires
        index < old(files).len(),
    ensures
        final(files)@ == old(files)@.remove(index as int),
{
    files.remove(index);
}

/// Moves the file at `index` one place up (no change for the first file).
pub fn move_file_up(files: &mut Vec<PdfFile>, index: usize)
    requires
        index < old(files).len(),
    ensures
        index > 0 ==> final(files)@ == swapped(old(files)@, index as int - 1, index as int),
        index == 0 ==> final(files)@ == old(files)@,
{
    if index > 0 {
        swap_with_previous(files, index);
    }
}

/// Moves the file at `index` one place down (no change for the last file).
pub fn move_file_down(files: &mut Vec<PdfFile>, index: usize)
    requires
        index < old(files).len(),
    ensures
        index + 1 < old(files).len() ==> final(files)@ == swapped(
            old(files)@,
            index as int,
            index as int + 1,
        ),
        index + 1 >= old(files).len() ==> final(files)@ == old(files)@,
{
    let files_len = files.len();
    if index < files_len - 1 {
        swap_with_previous(files, index + 1);
        assert(swapped(old(files)@, index as int, index as int + 1) =~= final(files)@);
    }
}

/// Moving a file down and then back up leaves the list as it was.
pub proof fn law_move_down_then_up<T>(s: Seq<T>, i: int)
    requires
        0 <= i,
        i + 1 < s.len(),
    ensures
        swapped(swapped(s, i, i + 1), i, i + 1) == s,
        swapped(s, i, i + 1).len() == s.len(),
        swapped(s, i, i + 1).to_multiset() == s.to_multiset(),
{
    assert(swapped(swapped(s, i, i + 1), i, i + 1) =~= s);
    lemma_swap_multiset(s, i, i + 1);
}

/// Exchanging two elements keeps the same elements.
proof fn lemma_swap_multiset<T>(s: Seq<T>, i: int, j: int)
    requires
        0 <= i < j < s.len(),
    ensures
        swapped(s, i, j).to_multiset() == s.to_multiset(),
{
    broadcast use vstd::seq_lib::to_multiset_update, vstd::multiset::group_multiset_axioms;
    let t = s.update(i, s[j]);
    let m = s.to_multiset();
    assert(t.len() == s.len());
    assert(t[j] == s[j]);
    vstd::seq_lib::to_multiset_update(s, i, s[j]);
    vstd::seq_lib::to_multiset_update(t, j, s[i]);
    vstd::seq_lib::to_multiset_contains(s, s[i]);
    vstd::seq_lib::to_multiset_contains(s, s[j]);
    assert(s.contains(s[i]));
    assert(s.contains(s[j]));
    assert(swapped(s, i, j).to_multiset() =~= m);
}

/// The page numbers a range split starts and ends with after a reset.
pub fn reset_pages() -> (r: (u32, u32))
    ensures
        r == (1u32, 1u32),
{
    (1, 1)
}

/// A page field after `text` was typed: the number, or the old value.
pub fn page_field(text: &str, old: u32) -> (r: u32)
    ensures
        r == u32_field(text@, old),
{
    read_u32_field(text, old)
}

/// `prefix`, the number and `suffix`.
fn framed_number(prefix: &str, n: u64, suffix: &str) -> (s: String)
    ensures
        s@ == prefix@ + decimal(n as nat) + suffix@,
{
    let mut v: Vec<char> = Vec::new();
    extend_str(&mut v, prefix);
    extend(&mut v, &decimal_chars(n));
    extend_str(&mut v, suffix);
    from_chars(&v)
}

/// The line after a split: `Created N file(s)`.
pub fn created_files_text(count: usize) -> (s: String)
    ensures
        s@ == "Created "@ + decimal(count as nat) + " file(s)"@,
{
    framed_number("Created ", count as u64, " file(s)")
}

/// The title of the merge list: `Files to Merge (N)`.
pub fn merge_title_text(count: usize) -> (s: String)
    ensures
        s@ == "Files to Merge ("@ + decimal(count as nat) + ")"@,
{
    framed_number("Files to Merge (", count as u64, ")")
}

/// The pages of one file: `N pages`.
pub fn pages_text(pages: u32) -> (s: String)
    ensures
        s@ == decimal(pages as nat) + " pages"@,
{
    let s = framed_number("", pages as u64, " pages");
    proof {
        reveal_strlit("");
        assert(""@ + decimal(pages as nat) =~= decimal(pages as nat));
    }
    s
}

/// The line under the merge list: `Total: N pages`.
pub fn total_pages_text(files: &Vec<PdfFile>) -> (s: String)
    requires
        pages_total(file_views(files@)) <= u32::MAX,
    ensures
        s@ == "Total: "@ + decimal(pages_total(file_views(files@))) + " pages"@,
{
    let n = total_pages(files);
    framed_number("Total: ", n as u64, " pages")
}

/// The style class of a mode button.
pub fn pdf_mode_class(current: PdfMode, mode: PdfMode) -> (s: &'static str)
    ensures
        current == mode ==> s@ == "mode-btn active"@,
        current != mode ==> s@ == "mode-btn"@,
{
    if current == mode {
        "mode-btn active"
    } else {
        "mode-btn"
    }
}

} // verus!
