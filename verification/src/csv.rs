//! The CSV viewer: the sort order cycled by the column headers, editing cells
//! and rows, and the rows a search and the column filters let through.
use vstd::prelude::*;
use crate::text::contains;
use crate::text::contains_str;
use crate::text::decimal;
use crate::text::decimal_chars;
use crate::text::extend;
use crate::text::extend_str;
use crate::text::file_name_of;
use crate::text::from_chars;
use crate::text::last_segment;
use crate::text::lower;
use crate::text::lowercase;
use crate::text::string_views;
use crate::text::to_chars;

verus! {

// ---------------------------------------------------------------------------
// Sorting by a column
// ---------------------------------------------------------------------------

/// The order of the sorted column.
#[derive(Clone, Copy, Debug, PartialEq, Eq, Structural)]
pub enum SortOrder {
    Unsorted,
    Asc,
    Desc,
}

/// Which column is sorted, and how.
#[derive(Clone, Copy, Debug, PartialEq, Eq, Structural)]
pub struct SortState {
    pub column: Option<usize>,
    pub order: SortOrder,
}

/// A click on the header of column `col`: on the sorted column the order goes
/// none → ascending → descending → unsorted (no column); on another column
/// that column is sorted ascending.
pub open spec fn after_header_click(s: SortState, col: usize) -> SortState {
    if s.column == Some(col) {
        match s.order {
            SortOrder::Unsorted => SortState { column: s.column, order: SortOrder::Asc },
            SortOrder::Asc => SortState { column: s.column, order: SortOrder::Desc },
            SortOrder::Desc => SortState { column: None, order: SortOrder::Unsorted },
        }
    } else {
        SortState { column: Some(col), order: SortOrder::Asc }
    }
}

/// The arrow after a header.
pub open spec fn sort_indicator(s: SortState, col: usize) -> Seq<char> {
    if s.column == Some(col) {
        match s.order {
            SortOrder::Asc => " ↑"@,
            SortOrder::Desc => " ↓"@,
            SortOrder::Unsorted => ""@,
        }
    } else {
        ""@
    }
}

impl SortState {
    /// Nothing sorted.
    pub fn new() -> (s: SortState)
        ensures
            s == (SortState { column: None, order: SortOrder::Unsorted }),
    {
        SortState { column: None, order: SortOrder::Unsorted }
    }

    /// A click on the header of column `col`.
    pub fn click(&mut self, col: usize)
        ensures
            *final(self) == after_header_click(*old(self), col),
    {
        if self.column == Some(col) {
            match self.order {
                SortOrder::Unsorted => {
                    self.order = SortOrder::Asc;
                },
                SortOrder::Asc => {
                    self.order = SortOrder::Desc;
                },
                SortOrder::Desc => {
                    self.order = SortOrder::Unsorted;
                    self.column = None;
                },
            }
        } else {
            self.column = Some(col);
            self.order = SortOrder::Asc;
        }
    }

    /// The arrow shown after the header of column `col`.
    pub fn indicator(&self, col: usize) -> (s: &'static str)
        ensures
            s@ == sort_indicator(*self, col),
    {
        if self.column == Some(col) {
            match self.order {
                SortOrder::Asc => " ↑",
                SortOrder::Desc => " ↓",
                SortOrder::Unsorted => "",
            }
        } else {
            ""
        }
    }
}

/// Three clicks on the header of an unsorted column sort it ascending, then
/// descending, then leave the table unsorted again.
pub proof fn law_three_clicks_unsort(col: usize)
    ensures
        ({
            let s0 = SortState { column: None, order: SortOrder::Unsorted };
            let s1 = after_header_click(s0, col);
            let s2 = after_header_click(s1, col);
            let s3 = after_header_click(s2, col);
            &&& s1 == SortState { column: Some(col), order: SortOrder::Asc }
            &&& s2 == SortState { column: Some(col), order: SortOrder::Desc }
            &&& s3 == s0
        }),
{
}

/// A click on another column always sorts that one ascending.
pub proof fn law_other_column_ascending(s: SortState, col: usize)
    requires
        s.column != Some(col),
    ensures
        after_header_click(s, col) == (SortState { column: Some(col), order: SortOrder::Asc }),
{
}

// ---------------------------------------------------------------------------
// Rows and their editing
// ---------------------------------------------------------------------------

/// The text of every cell, row by row.
pub open spec fn rows_view(rows: Seq<Vec<String>>) -> Seq<Seq<Seq<char>>> {
    rows.map_values(|r: Vec<String>| string_views(r@))
}

/// A copy of a row.
pub fn copy_row(row: &Vec<String>) -> (r: Vec<String>)
    ensures
        string_views(r@) == string_views(row@),
{
    let mut r: Vec<String> = Vec::new();
    let mut i: usize = 0;
    while i < row.len()
        invariant
            i <= row.len(),
            string_views(r@) == string_views(row@).take(i as int),
        decreases row.len() - i,
    {
        let c = row[i].clone();
        let ghost before = r@;
        r.push(c);
        assert(string_views(r@) =~= string_views(before).push(c@));
        assert(string_views(row@).take(i + 1) =~= string_views(row@).take(i as int).push(
            row@[i as int]@,
        ));
        i += 1;
    }
    assert(string_views(row@).take(row.len() as int) =~= string_views(row@));
    r
}

/// A row of `n` empty cells.
pub fn empty_row(n: usize) -> (r: Vec<String>)
    ensures
        string_views(r@) == Seq::new(n as nat, |i: int| Seq::<char>::empty()),
{
    let mut r: Vec<String> = Vec::new();
    let mut i: usize = 0;
    while i < n
        invariant
            i <= n,
            string_views(r@) == Seq::new(i as nat, |j: int| Seq::<char>::empty()),
        decreases n - i,
    {
        let ghost before = r@;
        let e = String::new();
        assert(e@ == Seq::<char>::empty());
        r.push(e);
        assert(string_views(r@) =~= string_views(before).push(e@));
        assert(string_views(r@) =~= Seq::new((i + 1) as nat, |j: int| Seq::<char>::empty()));
        i += 1;
    }
    r
}

/// What the backend reads from a CSV file.
#[derive(Clone)]
pub struct CsvData {
    pub headers: Vec<String>,
    pub rows: Vec<Vec<String>>,
    pub total_rows: usize,
    pub total_columns: usize,
}

/// The facts shown about the open file.
#[derive(Clone)]
pub struct CsvInfo {
    pub file_name: String,
    pub file_size: u64,
    pub row_count: usize,
    pub column_count: usize,
    pub headers: Vec<String>,
}

/// What the viewer shows and remembers.
#[derive(Clone)]
pub struct CsvState {
    pub file_path: String,
    /// The path that was shown when the file being loaded was chosen: the
    /// facts of the loaded table are named after it.
    pub previous_path: String,
    pub data: Option<CsvData>,
    pub info: Option<CsvInfo>,
    pub search_query: String,
    pub sort: SortState,
    pub editing_cell: Option<(usize, usize)>,
    pub edited_rows: Vec<Vec<String>>,
    pub is_modified: bool,
    pub column_filters: Vec<String>,
    pub is_loading: bool,
}

/// The number of headers of the loaded table (none: no table).
pub open spec fn header_count(d: Option<CsvData>) -> Option<nat> {
    match d {
        Some(data) => Some(data.headers@.len()),
        None => None,
    }
}

impl CsvState {
    /// Nothing open.
    pub fn new() -> (s: CsvState)
        ensures
            s.file_path@.len() == 0,
            s.previous_path@.len() == 0,
            s.data is None,
            s.info is None,
            s.search_query@.len() == 0,
            s.sort == (SortState { column: None, order: SortOrder::Unsorted }),
            s.editing_cell is None,
            s.edited_rows@.len() == 0,
            !s.is_modified,
            s.column_filters@.len() == 0,
            !s.is_loading,
    {
        CsvState {
            file_path: String::new(),
            previous_path: String::new(),
            data: None,
            info: None,
            search_query: String::new(),
            sort: SortState { column: None, order: SortOrder::Unsorted },
            editing_cell: None,
            edited_rows: Vec::new(),
            is_modified: false,
            column_filters: Vec::new(),
            is_loading: false,
        }
    }

    /// A file was chosen: its path is kept, the path shown until now is
    /// remembered, and it starts loading.
    pub fn open_file(&mut self, path: String)
        ensures
            *final(self) == (CsvState {
                file_path: path,
                previous_path: old(self).file_path,
                is_loading: true,
                ..*old(self)
            }),
    {
        let shown = self.file_path.clone();
        self.previous_path = shown;
        self.file_path = path;
        self.is_loading = true;
    }

    /// The file's table came back (`None` when it could not be read, which
    /// keeps the old table). A table replaces the rows being edited, gets one
    /// empty filter per column, its facts, no changes and no sorting. Its
    /// facts carry the name of the path shown when it was chosen (nothing
    /// for the first file). Loading ends.
    pub fn on_loaded(&mut self, data: Option<CsvData>)
        ensures
            *final(self) == (CsvState {
                column_filters: final(self).column_filters,
                data: final(self).data,
                edited_rows: final(self).edited_rows,
                info: final(self).info,
                is_loading: final(self).is_loading,
                is_modified: final(self).is_modified,
                sort: final(self).sort,
                ..*old(self)
            }),
            !final(self).is_loading,
            match data {
                Some(d) => {
                    &&& rows_view(final(self).edited_rows@) == rows_view(d.rows@)
                    &&& string_views(final(self).column_filters@) == Seq::new(
                        d.headers@.len(),
                        |i: int| Seq::<char>::empty(),
                    )
                    &&& final(self).info matches Some(info) && {
                        &&& info.file_name@ == last_segment(old(self).previous_path@)
                        &&& info.file_size == 0
                        &&& info.row_count == d.total_rows
                        &&& info.column_count == d.total_columns
                        &&& string_views(info.headers@) == string_views(d.headers@)
                    }
                    &&& final(self).data == Some(d)
                    &&& !final(self).is_modified
                    &&& final(self).sort == (SortState { column: None, order: SortOrder::Unsorted })
                },
                None => {
                    &&& rows_view(final(self).edited_rows@) == rows_view(old(self).edited_rows@)
                    &&& final(self).data == old(self).data
                    &&& final(self).is_modified == old(self).is_modified
                },
            },
    {
        if let Some(d) = data {
            self.column_filters = empty_row(d.headers.len());
            let mut rows: Vec<Vec<String>> = Vec::new();
            let mut i: usize = 0;
            while i < d.rows.len()
                invariant
                    i <= d.rows.len(),
                    rows_view(rows@) == rows_view(d.rows@).take(i as int),
                decreases d.rows.len() - i,
            {
                let r = copy_row(&d.rows[i]);
                let ghost before = rows@;
                let ghost rv1 = string_views(r@);
                rows.push(r);
                assert(rows_view(rows@) =~= rows_view(before).push(rv1));
                assert(rows_view(d.rows@).take(i + 1) =~= rows_view(d.rows@).take(i as int).push(
                    string_views(d.rows@[i as int]@),
                ));
                i += 1;
            }
            assert(rows_view(d.rows@).take(d.rows.len() as int) =~= rows_view(d.rows@));
            self.edited_rows = rows;
            self.info = Some(
                CsvInfo {
                    file_name: file_name_of(self.previous_path.as_str()),
                    file_size: 0,
                    row_count: d.total_rows,
                    column_count: d.total_columns,
                    headers: copy_row(&d.headers),
                },
            );
            self.data = Some(d);
            self.is_modified = false;
            self.sort = SortState { column: None, order: SortOrder::Unsorted };
        }
        self.is_loading = false;
    }

    /// A click on a cell opens it for editing.
    pub fn start_edit(&mut self, row: usize, col: usize)
        ensures
            *final(self) == (CsvState { editing_cell: final(self).editing_cell, ..*old(self) }),
            final(self).editing_cell == Some((row, col)),
            rows_view(final(self).edited_rows@) == rows_view(old(self).edited_rows@),
    {
        self.editing_cell = Some((row, col));
    }

    /// Leaving a cell without a change (Escape).
    pub fn cancel_edit(&mut self)
        ensures
            *final(self) == (CsvState { editing_cell: final(self).editing_cell, ..*old(self) }),
            final(self).editing_cell is None,
            rows_view(final(self).edited_rows@) == rows_view(old(self).edited_rows@),
            final(self).is_modified == old(self).is_modified,
    {
        self.editing_cell = None;
    }

    /// A cell's new text (Enter or leaving it): a cell inside the table takes
    /// it and the table counts as changed; either way editing ends.
    pub fn change_cell(&mut self, row: usize, col: usize, value: String)
        ensures
            *final(self) == (CsvState {
                edited_rows: final(self).edited_rows,
                editing_cell: final(self).editing_cell,
                is_modified: final(self).is_modified,
                ..*old(self)
            }),
            final(self).editing_cell is None,
            ({
                let old_rows = rows_view(old(self).edited_rows@);
                if row < old_rows.len() && col < old_rows[row as int].len() {
                    &&& rows_view(final(self).edited_rows@) == old_rows.update(
                        row as int,
                        old_rows[row as int].update(col as int, value@),
                    )
                    &&& final(self).is_modified
                } else {
                    &&& rows_view(final(self).edited_rows@) == old_rows
                    &&& final(self).is_modified == old(self).is_modified
                }
            }),
    {
        if row < self.edited_rows.len() && col < self.edited_rows[row].len() {
            let ghost old_rows = rows_view(self.edited_rows@);
            let ghost vv = value@;
            let mut r = self.edited_rows.remove(row);
            r.set(col, value);
            self.edited_rows.insert(row, r);
            assert(rows_view(self.edited_rows@) =~= old_rows.update(
                row as int,
                old_rows[row as int].update(col as int, vv),
            )) by {
                assert(string_views(r@) =~= old_rows[row as int].update(col as int, vv));
            }
            self.is_modified = true;
        }
        self.editing_cell = None;
    }

    /// The add button: with a table, a row of empty cells, one per column,
    /// joins the end.
    pub fn add_row(&mut self)
        ensures
            *final(self) == (CsvState {
                edited_rows: final(self).edited_rows,
                is_modified: final(self).is_modified,
                ..*old(self)
            }),
            match header_count(old(self).data) {
                Some(n) => {
                    &&& rows_view(final(self).edited_rows@) == rows_view(old(self).edited_rows@).push(
                        Seq::new(n, |i: int| Seq::<char>::empty()),
                    )
                    &&& final(self).is_modified
                },
                None => {
                    &&& rows_view(final(self).edited_rows@) == rows_view(old(self).edited_rows@)
                    &&& final(self).is_modified == old(self).is_modified
                },
            },
    {
        let n = match &self.data {
            Some(d) => Some(d.headers.len()),
            None => None,
        };
        if let Some(n) = n {
            let r = empty_row(n);
            let ghost old_rows = rows_view(self.edited_rows@);
            let ghost rv = string_views(r@);
            self.edited_rows.push(r);
            assert(rows_view(self.edited_rows@) =~= old_rows.push(rv));
            self.is_modified = true;
        }
    }

    /// The delete button of row `index` (its place in the unfiltered table).
    pub fn delete_row(&mut self, index: usize)
        ensures
            *final(self) == (CsvState {
                edited_rows: final(self).edited_rows,
                is_modified: final(self).is_modified,
                ..*old(self)
            }),
            index < old(self).edited_rows@.len() ==> rows_view(final(self).edited_rows@)
                == rows_view(old(self).edited_rows@).remove(index as int) && final(self).is_modified,
            index >= old(self).edited_rows@.len() ==> rows_view(final(self).edited_rows@)
                == rows_view(old(self).edited_rows@) && final(self).is_modified == old(
                self,
            ).is_modified,
    {
        if index < self.edited_rows.len() {
            let ghost old_rows = rows_view(self.edited_rows@);
            self.edited_rows.remove(index);
            assert(rows_view(self.edited_rows@) =~= old_rows.remove(index as int));
            self.is_modified = true;
        }
    }

    /// A column's filter text changed.
    pub fn set_filter(&mut self, col: usize, value: String)
        ensures
            *final(self) == (CsvState { column_filters: final(self).column_filters, ..*old(self) }),
            col < old(self).column_filters@.len() ==> string_views(final(self).column_filters@)
                == string_views(old(self).column_filters@).update(col as int, value@),
            col >= old(self).column_filters@.len() ==> string_views(final(self).column_filters@)
                == string_views(old(self).column_filters@),
    {
        if col < self.column_filters.len() {
            let ghost old_f = string_views(self.column_filters@);
            let ghost vv = value@;
            self.column_filters.set(col, value);
            assert(string_views(self.column_filters@) =~= old_f.update(col as int, vv));
        }
    }

    /// The save was done: no changes left.
    pub fn on_saved(&mut self)
        ensures
            *final(self) == (CsvState { is_modified: final(self).is_modified, ..*old(self) }),
            !final(self).is_modified,
            rows_view(final(self).edited_rows@) == rows_view(old(self).edited_rows@),
    {
        self.is_modified = false;
    }

    /// The name the save dialog offers: the open file's name.
    pub fn save_name(&self) -> (r: String)
        ensures
            r@ == last_segment(self.file_path@),
    {
        file_name_of(self.file_path.as_str())
    }
}

// ---------------------------------------------------------------------------
// The rows shown
// ---------------------------------------------------------------------------

/// Some cell of the row contains the lower-cased query `q` once lower-cased.
pub open spec fn row_has(row: Seq<Seq<char>>, q: Seq<char>) -> bool {
    exists|i: int| 0 <= i < row.len() && contains(lower(row[i]), q)
}

/// Every non-empty filter is met: the row's cell in that column contains the
/// filter, both lower-cased; a row without that cell passes.
pub open spec fn row_passes(row: Seq<Seq<char>>, filters: Seq<Seq<char>>) -> bool {
    forall|i: int|
        0 <= i < filters.len() ==> (filters[i].len() == 0 || i >= row.len() || contains(
            lower(row[i]),
            lower(filters[i]),
        ))
}

/// Whether a row is shown for the search `query` and the filters: an empty
/// search lets every row through, another one the rows that contain it, both
/// lower-cased.
pub open spec fn row_shown(row: Seq<Seq<char>>, query: Seq<char>, filters: Seq<Seq<char>>) -> bool {
    (query.len() == 0 || row_has(row, lower(query))) && row_passes(row, filters)
}

/// The shown rows, in table order, each with its place in the table.
pub open spec fn shown_rows(
    rows: Seq<Seq<Seq<char>>>,
    query: Seq<char>,
    filters: Seq<Seq<char>>,
) -> Seq<(nat, Seq<Seq<char>>)>
    decreases rows.len(),
{
    if rows.len() == 0 {
        Seq::empty()
    } else {
        let rest = shown_rows(rows.drop_last(), query, filters);
        if row_shown(rows.last(), query, filters) {
            rest.push(((rows.len() - 1) as nat, rows.last()))
        } else {
            rest
        }
    }
}

/// Without a search and with every column filter empty, every row is shown,
/// in table order, each with its own place.
pub proof fn law_no_search_shows_all(rows: Seq<Seq<Seq<char>>>, filters: Seq<Seq<char>>)
    requires
        forall|i: int| 0 <= i < filters.len() ==> filters[i].len() == 0,
    ensures
        shown_rows(rows, Seq::empty(), filters) == Seq::new(rows.len(), |i: int| (i as nat, rows[i])),
    decreases rows.len(),
{
    if rows.len() > 0 {
        let rest = rows.drop_last();
        law_no_search_shows_all(rest, filters);
        assert(row_shown(rows.last(), Seq::empty(), filters));
        assert(shown_rows(rows, Seq::empty(), filters) =~= Seq::new(rows.len(), |i: int| (i as nat, rows[i])));
    } else {
        assert(shown_rows(rows, Seq::empty(), filters) =~= Seq::new(rows.len(), |i: int| (i as nat, rows[i])));
    }
}

/// Every shown row carries its own place, and the row at place `k` is shown
/// exactly when `row_shown` holds of it.
proof fn lemma_shown_rows_members(rows: Seq<Seq<Seq<char>>>, query: Seq<char>, filters: Seq<Seq<char>>)
    ensures
        forall|j: int|
            0 <= j < shown_rows(rows, query, filters).len() ==> {
                let x = #[trigger] shown_rows(rows, query, filters)[j];
                x.0 < rows.len() && x.1 == rows[x.0 as int]
            },
        forall|k: int|
            0 <= k < rows.len() ==> (shown_rows(rows, query, filters).contains((k as nat, rows[k]))
                <==> row_shown(#[trigger] rows[k], query, filters)),
    decreases rows.len(),
{
    if rows.len() > 0 {
        let init = rows.drop_last();
        let rest = shown_rows(init, query, filters);
        lemma_shown_rows_members(init, query, filters);
        let r = shown_rows(rows, query, filters);
        assert forall|j: int| 0 <= j < r.len() implies {
            let x = #[trigger] r[j];
            x.0 < rows.len() && x.1 == rows[x.0 as int]
        } by {
            if j < rest.len() {
                assert(r[j] == rest[j]);
                assert(init[rest[j].0 as int] == rows[rest[j].0 as int]);
            }
        }
        assert forall|k: int| 0 <= k < rows.len() implies (r.contains((k as nat, rows[k]))
            <==> row_shown(#[trigger] rows[k], query, filters)) by {
            if k < rows.len() - 1 {
                assert(init[k] == rows[k]);
                if rest.contains((k as nat, rows[k])) {
                    let j = choose|j: int| 0 <= j < rest.len() && rest[j] == (k as nat, rows[k]);
                    assert(r[j] == rest[j]);
                }
                if r.contains((k as nat, rows[k])) {
                    let j = choose|j: int| 0 <= j < r.len() && r[j] == (k as nat, rows[k]);
                    if j < rest.len() {
                        assert(r[j] == rest[j]);
                    }
                }
            } else {
                if row_shown(rows.last(), query, filters) {
                    assert(r[r.len() - 1] == (k as nat, rows[k]));
                } else if r.contains((k as nat, rows[k])) {
                    let j = choose|j: int| 0 <= j < r.len() && r[j] == (k as nat, rows[k]);
                    assert(r[j] == rest[j]);
                    assert(rest[j].0 < init.len());
                }
            }
        }
    }
}

/// The row at place `k` is shown exactly when the search is empty or some
/// cell holds it, and every non-empty column filter is held by the row's
/// cell in that column (a row without that cell passes), all compared in
/// lower case.
pub proof fn law_rows_shown(
    rows: Seq<Seq<Seq<char>>>,
    query: Seq<char>,
    filters: Seq<Seq<char>>,
    k: int,
)
    requires
        0 <= k < rows.len(),
    ensures
        shown_rows(rows, query, filters).contains((k as nat, rows[k])) <==> {
            &&& (query.len() == 0 || exists|c: int|
                0 <= c < rows[k].len() && contains(lower(rows[k][c]), lower(query)))
            &&& forall|i: int|
                0 <= i < filters.len() && filters[i].len() > 0 && i < rows[k].len() ==> contains(
                    lower(rows[k][i]),
                    lower(filters[i]),
                )
        },
{
    lemma_shown_rows_members(rows, query, filters);
    assert(row_shown(rows[k], query, filters) == shown_rows(rows, query, filters).contains(
        (k as nat, rows[k]),
    ));
}

/// Column filters ignore case: filters that differ only in case pick the
/// same rows.
pub proof fn law_filters_ignore_case(
    rows: Seq<Seq<Seq<char>>>,
    query: Seq<char>,
    filters: Seq<Seq<char>>,
    other: Seq<Seq<char>>,
)
    requires
        other.len() == filters.len(),
        forall|i: int|
            0 <= i < filters.len() ==> lower(#[trigger] other[i]) == lower(filters[i]) && (
            other[i].len() == 0 <==> filters[i].len() == 0),
    ensures
        shown_rows(rows, query, other) == shown_rows(rows, query, filters),
    decreases rows.len(),
{
    if rows.len() > 0 {
        law_filters_ignore_case(rows.drop_last(), query, filters, other);
        let row = rows.last();
        assert(row_passes(row, other) == row_passes(row, filters)) by {
            if row_passes(row, filters) {
                assert forall|i: int| 0 <= i < other.len() implies (other[i].len() == 0 || i
                    >= row.len() || contains(lower(row[i]), lower(other[i]))) by {
                    assert(lower(other[i]) == lower(filters[i]));
                }
            }
            if row_passes(row, other) {
                assert forall|i: int| 0 <= i < filters.len() implies (filters[i].len() == 0 || i
                    >= row.len() || contains(lower(row[i]), lower(filters[i]))) by {
                    assert(lower(other[i]) == lower(filters[i]));
                }
            }
        }
    }
}

/// A row with its place in the table.
#[derive(Clone)]
pub struct NumberedRow {
    pub index: usize,
    pub cells: Vec<String>,
}

/// The views of numbered rows.
pub open spec fn numbered_views(v: Seq<NumberedRow>) -> Seq<(nat, Seq<Seq<char>>)> {
    v.map_values(|r: NumberedRow| (r.index as nat, string_views(r.cells@)))
}

/// Whether some cell of the row contains the lower-cased query.
fn row_has_exec(row: &Vec<String>, q: &str) -> (b: bool)
    ensures
        b == row_has(string_views(row@), q@),
{
    let ghost rv = string_views(row@);
    let mut i: usize = 0;
    while i < row.len()
        invariant
            i <= row.len(),
            rv == string_views(row@),
            forall|j: int| 0 <= j < i ==> !contains(lower(rv[j]), q@),
        decreases row.len() - i,
    {
        let l = lowercase(row[i].as_str());
        if contains_str(l.as_str(), q) {
            assert(contains(lower(rv[i as int]), q@));
            return true;
        }
        i += 1;
    }
    false
}

/// Whether the row meets every column filter.
fn row_passes_exec(row: &Vec<String>, filters: &Vec<String>) -> (b: bool)
    ensures
        b == row_passes(string_views(row@), string_views(filters@)),
{
    let ghost rv = string_views(row@);
    let ghost fv = string_views(filters@);
    let mut i: usize = 0;
    while i < filters.len()
        invariant
            i <= filters.len(),
            rv == string_views(row@),
            fv == string_views(filters@),
            forall|j: int|
                0 <= j < i ==> (fv[j].len() == 0 || j >= rv.len() || contains(
                    lower(rv[j]),
                    lower(fv[j]),
                )),
        decreases filters.len() - i,
    {
        if !filters[i].as_str().is_empty() && i < row.len() {
            let cell = lowercase(row[i].as_str());
            let f = lowercase(filters[i].as_str());
            if !contains_str(cell.as_str(), f.as_str()) {
                assert(!(fv[i as int].len() == 0 || i >= rv.len() || contains(
                    lower(rv[i as int]),
                    lower(fv[i as int]),
                )));
                return false;
            }
        }
        i += 1;
    }
    true
}

/// The rows shown for the search box and the column filters, before sorting,
/// each with its place in the table.
pub fn filter_rows(rows: &Vec<Vec<String>>, query: &str, filters: &Vec<String>) -> (r: Vec<
    NumberedRow,
>)
    ensures
        numbered_views(r@) == shown_rows(rows_view(rows@), query@, string_views(filters@)),
{
    let ghost rv = rows_view(rows@);
    let ghost fv = string_views(filters@);
    let q = lowercase(query);
    let mut out: Vec<NumberedRow> = Vec::new();
    let mut i: usize = 0;
    while i < rows.len()
        invariant
            i <= rows.len(),
            rv == rows_view(rows@),
            fv == string_views(filters@),
            q@ == lower(query@),
            q@.len() == 0 <==> query@.len() == 0,
            numbered_views(out@) == shown_rows(rv.take(i as int), query@, fv),
        decreases rows.len() - i,
    {
        assert(rv.take(i + 1).drop_last() =~= rv.take(i as int));
        assert(rv.take(i + 1).last() == string_views(rows@[i as int]@));
        let search_ok = q.as_str().is_empty() || row_has_exec(&rows[i], q.as_str());
        if search_ok && row_passes_exec(&rows[i], filters) {
            let cells = copy_row(&rows[i]);
            let ghost before = out@;
            let ghost cv = string_views(cells@);
            out.push(NumberedRow { index: i, cells });
            assert(numbered_views(out@) =~= numbered_views(before).push((i as nat, cv)));
        }
        i += 1;
    }
    assert(rv.take(rows.len() as int) =~= rv);
    out
}

/// The count under the table: `Showing N of M rows`.
pub fn row_count_text(shown: usize, total: usize) -> (s: String)
    ensures
        s@ == "Showing "@ + decimal(shown as nat) + " of "@ + decimal(total as nat) + " rows"@,
{
    let mut v: Vec<char> = Vec::new();
    extend_str(&mut v, "Showing ");
    extend(&mut v, &decimal_chars(shown as u64));
    extend_str(&mut v, " of ");
    extend(&mut v, &decimal_chars(total as u64));
    extend_str(&mut v, " rows");
    from_chars(&v)
}

/// The style class of the save button: marked while there are changes.
pub fn save_button_class(is_modified: bool) -> (s: &'static str)
    ensures
        is_modified ==> s@ == "toolbar-btn save-btn modified"@,
        !is_modified ==> s@ == "toolbar-btn save-btn"@,
{
    if is_modified {
        "toolbar-btn save-btn modified"
    } else {
        "toolbar-btn save-btn"
    }
}

} // verus!
