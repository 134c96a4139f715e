use crate::database::query_result::ForeignKeyInfo;
use crate::database::query_result::ForeignKeyView;
use crate::table_viewer::data::key_views;
use crate::table_viewer::data::CellPosition;
use crate::table_viewer::data::TableViewer;
use crate::table_viewer::data::ViewerView;
use crate::table_viewer::navigation::minus;
use crate::table_viewer::search::visible_matches;
use crate::text::push_char;
use crate::text::str_chars;
use crate::text::string_of_range;
use std::collections::HashMap;
use std::time::Duration;
use unicode_width::UnicodeWidthStr;
use vstd::prelude::*;

verus! {

broadcast use vstd::std_specs::hash::group_hash_axioms;

/// The number of columns that a text takes on a terminal, as the
/// `unicode-width` crate reckons it.
pub uninterp spec fn display_width(s: Seq<char>) -> usize;

/// `UnicodeWidthStr::width` of the `unicode-width` crate on a string slice.
/// The width is a function of the text alone; the contract gives it a name and
/// claims no more.
#[verifier::external_body]
pub(crate) fn str_width(s: &str) -> (r: usize)
    ensures
        r == display_width(s@),
{
    UnicodeWidthStr::width(s)
}

/// The part of a table that fits on the screen, with the cursor and the
/// search matches counted from its corner.
#[derive(Debug)]
pub struct TableViewData {
    pub headers: Vec<String>,
    pub rows: Vec<Vec<String>>,
    pub current_row_relative: usize,
    pub current_col_relative: usize,
    pub total_rows: usize,
    pub total_cols: usize,
    pub start_row: usize,
    pub start_col: usize,
    pub foreign_keys: HashMap<usize, ForeignKeyInfo>,
    pub search_matches: Vec<CellPosition>,
    pub execution_time: Option<Duration>,
    pub column_types: Vec<String>,
    pub show_chart: bool,
}

/// The mathematical content of a [`TableViewData`].
pub ghost struct TableDataView {
    pub headers: Seq<Seq<char>>,
    pub rows: Seq<Seq<Seq<char>>>,
    pub current_row_relative: usize,
    pub current_col_relative: usize,
    pub total_rows: usize,
    pub total_cols: usize,
    pub start_row: usize,
    pub start_col: usize,
    pub foreign_keys: Map<usize, ForeignKeyView>,
    pub search_matches: Seq<CellPosition>,
    pub execution_time: Option<Duration>,
    pub column_types: Seq<Seq<char>>,
    pub show_chart: bool,
}

impl View for TableViewData {
    type V = TableDataView;

    open spec fn view(&self) -> TableDataView {
        TableDataView {
            headers: self.headers.deep_view(),
            rows: self.rows.deep_view(),
            current_row_relative: self.current_row_relative,
            current_col_relative: self.current_col_relative,
            total_rows: self.total_rows,
            total_cols: self.total_cols,
            start_row: self.start_row,
            start_col: self.start_col,
            foreign_keys: key_views(self.foreign_keys@),
            search_matches: self.search_matches@,
            execution_time: self.execution_time,
            column_types: self.column_types.deep_view(),
            show_chart: self.show_chart,
        }
    }
}

/// The smaller of two numbers.
pub open spec fn least(a: int, b: int) -> int {
    if a <= b {
        a
    } else {
        b
    }
}

/// The items of `s` from index `from` up to, but without, index `to`, as far
/// as `s` has them.
pub open spec fn window<T>(s: Seq<T>, from: int, to: int) -> Seq<T> {
    let end = least(to, s.len() as int);
    if 0 <= from <= end {
        s.subrange(from, end)
    } else {
        Seq::empty()
    }
}

/// The rows `from_row..to_row` of a table, each cut down to the columns
/// `from_col..to_col`.
pub open spec fn table_window(
    rows: Seq<Seq<Seq<char>>>,
    from_row: int,
    to_row: int,
    from_col: int,
    to_col: int,
) -> Seq<Seq<Seq<char>>> {
    let part = window(rows, from_row, to_row);
    Seq::new(part.len(), |i: int| window(part[i], from_col, to_col))
}

/// The foreign keys of the columns `from_col..to_col`, by their index in
/// that window.
pub open spec fn keys_window(keys: Map<usize, ForeignKeyView>, from_col: int, to_col: int) -> Map<
    usize,
    ForeignKeyView,
> {
    Map::new(
        |k: usize| from_col + k < to_col && keys.contains_key((from_col + k) as usize),
        |k: usize| keys[(from_col + k) as usize],
    )
}

/// The number of table columns that fit on a screen `width` wide, each taking
/// `col_width` and three more; at least one.
pub open spec fn columns_that_fit(width: u16, col_width: usize) -> int {
    let n = width as int / (col_width + 3);
    if n >= 1 {
        n
    } else {
        1
    }
}

impl ViewerView {
    /// One past the last column on a screen `width` wide.
    pub open spec fn end_col(self, width: u16) -> int {
        least(
            self.scroll_offset_x + columns_that_fit(width, self.col_width),
            self.data.headers.len() as int,
        )
    }

    /// One past the last row on a screen `height` high, five lines of which
    /// are taken by the frame.
    pub open spec fn end_row(self, height: u16) -> int {
        least(self.scroll_offset_y + minus(height as int, 5), self.data.rows.len() as int)
    }

    /// What the viewer shows on a screen of the given size.
    pub open spec fn visible_data(self, width: u16, height: u16) -> TableDataView {
        let start_col = self.scroll_offset_x;
        let end_col = self.end_col(width);
        let start_row = self.scroll_offset_y;
        let end_row = self.end_row(height);
        TableDataView {
            headers: window(self.data.headers, start_col as int, end_col),
            rows: table_window(self.data.rows, start_row as int, end_row, start_col as int, end_col),
            current_row_relative: minus(self.current_row as int, start_row as int),
            current_col_relative: minus(self.current_col as int, start_col as int),
            total_rows: self.data.rows.len() as usize,
            total_cols: self.data.headers.len() as usize,
            start_row,
            start_col,
            foreign_keys: keys_window(self.foreign_keys, start_col as int, end_col),
            search_matches: visible_matches(
                self.search_state.matches,
                start_row,
                end_row as usize,
                start_col,
                end_col as usize,
            ),
            execution_time: self.data.execution_time,
            column_types: window(self.data.column_types, start_col as int, end_col),
            show_chart: self.show_chart,
        }
    }
}

/// The start of `s` whose characters fit into `budget` columns, given that
/// the characters before index `i` take `used` columns: its length.
pub open spec fn fitting_len(s: Seq<char>, budget: int, i: int, used: int) -> int
    decreases s.len() - i,
{
    if i < 0 || i >= s.len() || used + display_width(seq![s[i]]) > budget {
        i
    } else {
        fitting_len(s, budget, i + 1, used + display_width(seq![s[i]]))
    }
}

/// `n` spaces.
pub open spec fn spaces(n: int) -> Seq<char> {
    Seq::new(
        if n >= 0 {
            n as nat
        } else {
            0
        },
        |i: int| ' ',
    )
}

/// A text with as many spaces after it as bring it to `width` columns.
pub open spec fn padded(s: Seq<char>, width: int) -> Seq<char> {
    s + spaces(width - display_width(s))
}

/// A cell's text as it is shown in a column `col_width` wide: padded with
/// spaces where it fits; else cut where three columns remain, followed by
/// three dots, and padded. A text that is too wide as a whole though each of
/// its characters fits is shown whole.
pub open spec fn formatted_cell(content: Seq<char>, col_width: usize) -> Seq<char> {
    if display_width(content) > col_width {
        let k = fitting_len(content, minus(col_width as int, 3) as int, 0, 0);
        if k < content.len() {
            padded(content.take(k) + "..."@, col_width as int)
        } else {
            padded(content, col_width as int)
        }
    } else {
        padded(content, col_width as int)
    }
}

/// Copies of the items `v[from..to]`, as far as `v` has them.
pub fn copy_window(v: &Vec<String>, from: usize, to: usize) -> (r: Vec<String>)
    ensures
        r.deep_view() == window(v.deep_view(), from as int, to as int),
{
    let end = if to < v.len() {
        to
    } else {
        v.len()
    };
    let mut r: Vec<String> = Vec::new();
    if from > end {
        assert(r.deep_view() =~= Seq::empty());
        return r;
    }
    let mut i: usize = from;
    while i < end
        invariant
            from <= i <= end <= v.len(),
            r@.len() == i - from,
            forall|j: int| 0 <= j < r@.len() ==> (#[trigger] r@[j])@ == v@[from + j]@,
        decreases end - i,
    {
        r.push(v[i].clone());
        i += 1;
    }
    assert(r.deep_view() =~= v.deep_view().subrange(from as int, end as int));
    r
}

/// `s` followed by `n` spaces.
pub fn pad_with_spaces(s: &str, n: usize) -> (r: String)
    ensures
        r@ == s@ + spaces(n as int),
{
    let mut r = s.to_owned();
    let mut i: usize = 0;
    assert(r@ =~= s@ + spaces(0));
    while i < n
        invariant
            0 <= i <= n,
            r@ == s@ + spaces(i as int),
        decreases n - i,
    {
        push_char(&mut r, ' ');
        i += 1;
        assert(r@ =~= s@ + spaces(i as int));
    }
    r
}

impl TableViewer {
    /// What the viewer shows on a screen of the given size.
    pub fn get_visible_data(&self, width: u16, height: u16) -> (r: TableViewData)
        ensures
            r@ == self@.visible_data(width, height),
    {
        let available_width = width as usize;
        let available_height = height as usize;
        let max_visible_cols = if self.col_width > usize::MAX - 3 {
            1
        } else {
            let q = available_width / (self.col_width + 3);
            if q >= 1 {
                q
            } else {
                1
            }
        };
        let start_col = self.scroll_offset_x;
        let n_cols = self.data.headers.len();
        let end_col = if start_col >= n_cols || max_visible_cols >= n_cols - start_col {
            n_cols
        } else {
            start_col + max_visible_cols
        };
        let max_data_rows = if available_height >= 5 {
            available_height - 5
        } else {
            0
        };
        let start_row = self.scroll_offset_y;
        let n_rows = self.data.rows.len();
        let end_row = if start_row >= n_rows || max_data_rows >= n_rows - start_row {
            n_rows
        } else {
            start_row + max_data_rows
        };
        proof {
            assert(self@.data.headers.len() == self.data.headers@.len());
            assert(self@.data.rows.len() == self.data.rows@.len());
            if self.col_width > usize::MAX - 3 {
                let w = width as int;
                let d = self.col_width + 3;
                assert(w / d == 0) by (nonlinear_arith)
                    requires
                        0 <= w < d,
                ;
            }
        }
        assert(end_col == self@.end_col(width));
        assert(end_row == self@.end_row(height));
        let headers = copy_window(&self.data.headers, start_col, end_col);
        let mut rows: Vec<Vec<String>> = Vec::new();
        let mut i: usize = start_row;
        while i < end_row
            invariant
                start_row <= i,
                i <= end_row || start_row > end_row,
                start_row > end_row ==> i == start_row,
                end_row <= self.data.rows.len(),
                rows@.len() == i - start_row,
                forall|j: int|
                    0 <= j < rows@.len() ==> (#[trigger] rows@[j]).deep_view() == window(
                        self.data.rows@[start_row + j].deep_view(),
                        start_col as int,
                        end_col as int,
                    ),
            decreases end_row - i,
        {
            rows.push(copy_window(&self.data.rows[i], start_col, end_col));
            i += 1;
        }
        proof {
            let spec_rows = table_window(
                self@.data.rows,
                start_row as int,
                end_row as int,
                start_col as int,
                end_col as int,
            );
            if start_row <= end_row {
                let part = window(self@.data.rows, start_row as int, end_row as int);
                assert(part.len() == end_row - start_row);
                assert forall|j: int| 0 <= j < rows@.len() implies rows.deep_view()[j]
                    == spec_rows[j] by {
                    assert(part[j] == self@.data.rows[start_row + j]);
                    assert(self@.data.rows[start_row + j] == self.data.rows@[start_row
                        + j].deep_view());
                }
            }
            assert(rows.deep_view() =~= spec_rows);
        }
        let column_types = copy_window(&self.data.column_types, start_col, end_col);
        TableViewData {
            headers,
            rows,
            current_row_relative: if self.current_row >= start_row {
                self.current_row - start_row
            } else {
                0
            },
            current_col_relative: if self.current_col >= start_col {
                self.current_col - start_col
            } else {
                0
            },
            total_rows: self.data.rows.len(),
            total_cols: self.data.headers.len(),
            start_row,
            start_col,
            foreign_keys: self.get_visible_foreign_keys(start_col, end_col),
            search_matches: self.get_visible_search_matches(start_row, end_row, start_col, end_col),
            execution_time: self.data.execution_time,
            column_types,
            show_chart: self.show_chart,
        }
    }

    /// The foreign keys of the columns `start_col..end_col`, by their index
    /// in that window.
    pub fn get_visible_foreign_keys(&self, start_col: usize, end_col: usize) -> (r: HashMap<
        usize,
        ForeignKeyInfo,
    >)
        ensures
            key_views(r@) == keys_window(self@.foreign_keys, start_col as int, end_col as int),
    {
        let mut r: HashMap<usize, ForeignKeyInfo> = HashMap::new();
        let ghost keys = self@.foreign_keys;
        let mut col: usize = start_col;
        assert(key_views(r@) =~= keys_window(keys, start_col as int, start_col as int));
        while col < end_col
            invariant
                start_col <= col,
                col <= end_col || start_col >= end_col,
                start_col >= end_col ==> col == start_col,
                keys == key_views(self.foreign_keys@),
                key_views(r@) == keys_window(keys, start_col as int, col as int),
            decreases end_col - col,
        {
            let ghost before = r@;
            if let Some(fk_info) = self.foreign_keys.get(&col) {
                let info = fk_info.clone();
                r.insert(col - start_col, info);
                proof {
                    assert(r@ == before.insert((col - start_col) as usize, info));
                    assert(keys[col] == info@);
                    assert forall|k: usize|
                        key_views(r@).contains_key(k) <==> keys_window(
                            keys,
                            start_col as int,
                            col + 1,
                        ).contains_key(k) by {
                        if k != col - start_col {
                            assert(key_views(before).contains_key(k) == keys_window(
                                keys,
                                start_col as int,
                                col as int,
                            ).contains_key(k));
                        }
                    }
                    assert forall|k: usize| #[trigger]
                        key_views(r@).contains_key(k) implies key_views(r@)[k] == keys_window(
                        keys,
                        start_col as int,
                        col + 1,
                    )[k] by {
                        if k != col - start_col {
                            assert(key_views(before)[k] == keys_window(
                                keys,
                                start_col as int,
                                col as int,
                            )[k]);
                        }
                    }
                }
            }
            col += 1;
            assert(key_views(r@) =~= keys_window(keys, start_col as int, col as int));
        }
        assert(key_views(r@) =~= keys_window(keys, start_col as int, end_col as int));
        r
    }

    /// A cell's text as it is shown in a column of the viewer's width.
    pub fn format_cell(&self, content: &str) -> (r: String)
        ensures
            r@ == formatted_cell(content@, self.col_width),
    {
        let display_width = str_width(content);
        if display_width > self.col_width {
            let chars = str_chars(content);
            let budget = if self.col_width >= 3 {
                self.col_width - 3
            } else {
                0
            };
            let mut current_width: usize = 0;
            let mut i: usize = 0;
            let mut fits = true;
            while i < chars.len() && fits
                invariant
                    0 <= i <= chars.len(),
                    chars@ == content@,
                    current_width <= budget,
                    fits ==> fitting_len(content@, budget as int, 0, 0) == fitting_len(
                        content@,
                        budget as int,
                        i as int,
                        current_width as int,
                    ),
                    !fits ==> i < chars.len() && fitting_len(content@, budget as int, 0, 0) == i,
                decreases chars.len() - i + (if fits { 1int } else { 0int }),
            {
                let one = string_of_range(&chars, i, i + 1);
                assert(one@ =~= seq![content@[i as int]]);
                let char_width = str_width(one.as_str());
                if char_width > budget - current_width {
                    fits = false;
                } else {
                    current_width += char_width;
                    i += 1;
                }
            }
            if !fits {
                let kept = string_of_range(&chars, 0, i);
                assert(chars@.subrange(0, i as int) =~= content@.take(i as int));
                let truncated = crate::text::str_concat(kept.as_str(), "...");
                let w = str_width(truncated.as_str());
                let padding_needed = if self.col_width >= w {
                    self.col_width - w
                } else {
                    0
                };
                assert(spaces(padding_needed as int) =~= spaces(self.col_width - w));
                pad_with_spaces(truncated.as_str(), padding_needed)
            } else {
                assert(spaces(0) =~= spaces(self.col_width - display_width));
                pad_with_spaces(content, 0)
            }
        } else {
            pad_with_spaces(content, self.col_width - display_width)
        }
    }
}

} // verus!
