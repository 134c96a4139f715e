use crate::database::query_result::ForeignKeyInfo;
use crate::database::query_result::ForeignKeyView;
use crate::database::query_result::QueryResult;
use crate::database::query_result::QueryResultView;
use crate::config::settings::Config;
use crate::database::manager::DatabaseManager;
use crate::database::manager::key_of;
use crate::table_viewer::statistics::column_stats;
use std::collections::HashMap;
use vstd::prelude::*;

verus! {

broadcast use vstd::std_specs::hash::group_hash_axioms;

/// The place of a cell in a table.
#[derive(Debug, Clone, Copy, PartialEq, Eq, Structural)]
pub struct CellPosition {
    pub row: usize,
    pub col: usize,
}

/// A search in a table: the term, the cells that hold it, and which of them
/// is the current one.
#[derive(Debug)]
pub struct SearchState {
    pub term: String,
    pub matches: Vec<CellPosition>,
    pub current_match: usize,
}

/// The mathematical content of a [`SearchState`].
pub ghost struct SearchView {
    pub term: Seq<char>,
    pub matches: Seq<CellPosition>,
    pub current_match: usize,
}

impl View for SearchState {
    type V = SearchView;

    open spec fn view(&self) -> SearchView {
        SearchView {
            term: self.term@,
            matches: self.matches@,
            current_match: self.current_match,
        }
    }
}

impl Default for SearchState {
    fn default() -> (r: Self)
        ensures
            r@ == SearchView::empty(),
    {
        SearchState { term: String::new(), matches: Vec::new(), current_match: 0 }
    }
}

impl SearchView {
    /// A search that has not been made.
    pub open spec fn empty() -> SearchView {
        SearchView { term: Seq::empty(), matches: Seq::empty(), current_match: 0 }
    }
}

/// What is known of one column: its type, how often each value occurs in it
/// (in the order in which the values first occur), how many values differ,
/// and how many cells are null.
#[derive(Debug)]
pub struct ColumnStats {
    pub data_type: Option<String>,
    pub value_counts: Vec<(String, usize)>,
    pub unique_count: usize,
    pub null_count: usize,
}

/// The mathematical content of a [`ColumnStats`].
pub ghost struct StatsView {
    pub data_type: Option<Seq<char>>,
    pub value_counts: Seq<(Seq<char>, usize)>,
    pub unique_count: usize,
    pub null_count: usize,
}

impl View for ColumnStats {
    type V = StatsView;

    open spec fn view(&self) -> StatsView {
        StatsView {
            data_type: self.data_type.deep_view(),
            value_counts: self.value_counts.deep_view(),
            unique_count: self.unique_count,
            null_count: self.null_count,
        }
    }
}

/// A copy of a list of counted values.
pub fn clone_counts(v: &Vec<(String, usize)>) -> (r: Vec<(String, usize)>)
    ensures
        r.deep_view() == v.deep_view(),
{
    let mut r: Vec<(String, usize)> = Vec::new();
    let mut i: usize = 0;
    while i < v.len()
        invariant
            0 <= i <= v.len(),
            r@.len() == i,
            forall|k: int|
                0 <= k < i ==> (#[trigger] r@[k]).0@ == v@[k].0@ && r@[k].1 == v@[k].1,
        decreases v.len() - i,
    {
        r.push((v[i].0.clone(), v[i].1));
        i += 1;
    }
    assert(r.deep_view() =~= v.deep_view());
    r
}

impl Clone for ColumnStats {
    fn clone(&self) -> (r: Self)
        ensures
            r@ == self@,
    {
        ColumnStats {
            data_type: match &self.data_type {
                Some(t) => Some(t.clone()),
                None => None,
            },
            value_counts: clone_counts(&self.value_counts),
            unique_count: self.unique_count,
            null_count: self.null_count,
        }
    }
}

/// One bar of a chart: a value and how often it occurs.
#[derive(Debug)]
pub struct ChartItem {
    pub label: String,
    pub count: usize,
}

impl View for ChartItem {
    type V = (Seq<char>, usize);

    open spec fn view(&self) -> (Seq<char>, usize) {
        (self.label@, self.count)
    }
}

impl DeepView for ChartItem {
    type V = (Seq<char>, usize);

    open spec fn deep_view(&self) -> (Seq<char>, usize) {
        self@
    }
}

impl Clone for ChartItem {
    fn clone(&self) -> (r: Self)
        ensures
            r@ == self@,
    {
        ChartItem { label: self.label.clone(), count: self.count }
    }
}

/// The distribution of the values of one column.
#[derive(Debug)]
pub struct ChartData {
    pub title: String,
    pub column_name: String,
    pub data_type: String,
    pub items: Vec<ChartItem>,
    pub total_count: usize,
    pub null_count: usize,
    pub unique_count: usize,
    /// The length that the bar of the most frequent value is drawn with.
    pub bar_width: usize,
}

/// The mathematical content of a [`ChartData`].
pub ghost struct ChartView {
    pub title: Seq<char>,
    pub column_name: Seq<char>,
    pub data_type: Seq<char>,
    pub items: Seq<(Seq<char>, usize)>,
    pub total_count: usize,
    pub null_count: usize,
    pub unique_count: usize,
    pub bar_width: usize,
}

impl View for ChartData {
    type V = ChartView;

    open spec fn view(&self) -> ChartView {
        ChartView {
            title: self.title@,
            column_name: self.column_name@,
            data_type: self.data_type@,
            items: self.items.deep_view(),
            total_count: self.total_count,
            null_count: self.null_count,
            unique_count: self.unique_count,
            bar_width: self.bar_width,
        }
    }
}

impl Clone for ChartData {
    fn clone(&self) -> (r: Self)
        ensures
            r@ == self@,
    {
        let mut items: Vec<ChartItem> = Vec::new();
        let mut i: usize = 0;
        while i < self.items.len()
            invariant
                0 <= i <= self.items.len(),
                items@.len() == i,
                forall|k: int| 0 <= k < i ==> (#[trigger] items@[k])@ == self.items@[k]@,
            decreases self.items.len() - i,
        {
            items.push(self.items[i].clone());
            i += 1;
        }
        assert(items.deep_view() =~= self.items.deep_view());
        ChartData {
            title: self.title.clone(),
            column_name: self.column_name.clone(),
            data_type: self.data_type.clone(),
            items,
            total_count: self.total_count,
            null_count: self.null_count,
            unique_count: self.unique_count,
            bar_width: self.bar_width,
        }
    }
}

/// The foreign keys of a table's columns, by column index.
pub open spec fn key_views(m: Map<usize, ForeignKeyInfo>) -> Map<usize, ForeignKeyView> {
    Map::new(|k: usize| m.contains_key(k), |k: usize| m[k]@)
}

/// The statistics of a table's columns, by column index.
pub open spec fn stats_views(m: Map<usize, ColumnStats>) -> Map<usize, StatsView> {
    Map::new(|k: usize| m.contains_key(k), |k: usize| m[k]@)
}

/// The view of an optional chart.
pub open spec fn chart_view(c: Option<ChartData>) -> Option<ChartView> {
    match c {
        Some(d) => Some(d@),
        None => None,
    }
}

/// A query result with a cursor on it.
#[derive(Debug)]
pub struct TableViewer {
    pub data: QueryResult,
    pub current_row: usize,
    pub current_col: usize,
    pub scroll_offset_y: usize,
    pub scroll_offset_x: usize,
    pub search_state: SearchState,
    pub foreign_keys: HashMap<usize, ForeignKeyInfo>,
    pub col_width: usize,
    pub movement_multiplier: Option<usize>,
    pub column_stats: HashMap<usize, ColumnStats>,
    pub show_chart: bool,
    pub chart_data: Option<ChartData>,
}

/// The mathematical content of a [`TableViewer`].
pub ghost struct ViewerView {
    pub data: QueryResultView,
    pub current_row: usize,
    pub current_col: usize,
    pub scroll_offset_y: usize,
    pub scroll_offset_x: usize,
    pub search_state: SearchView,
    pub foreign_keys: Map<usize, ForeignKeyView>,
    pub col_width: usize,
    pub movement_multiplier: Option<usize>,
    pub column_stats: Map<usize, StatsView>,
    pub show_chart: bool,
    pub chart_data: Option<ChartView>,
}

impl View for TableViewer {
    type V = ViewerView;

    open spec fn view(&self) -> ViewerView {
        ViewerView {
            data: self.data@,
            current_row: self.current_row,
            current_col: self.current_col,
            scroll_offset_y: self.scroll_offset_y,
            scroll_offset_x: self.scroll_offset_x,
            search_state: self.search_state@,
            foreign_keys: key_views(self.foreign_keys@),
            col_width: self.col_width,
            movement_multiplier: self.movement_multiplier,
            column_stats: stats_views(self.column_stats@),
            show_chart: self.show_chart,
            chart_data: chart_view(self.chart_data),
        }
    }
}

/// The text that stands for a missing value.
pub open spec fn is_null_text(s: Seq<char>) -> bool {
    s.len() == 0 || s == "NULL"@
}

impl ViewerView {
    /// The value of the cell under the cursor, where there is such a cell.
    pub open spec fn current_cell(self) -> Option<Seq<char>> {
        if self.current_row < self.data.rows.len() && self.current_col
            < self.data.rows[self.current_row as int].len() {
            Some(self.data.rows[self.current_row as int][self.current_col as int])
        } else {
            None
        }
    }

    /// The name of the column under the cursor, where there is such a column.
    pub open spec fn current_header(self) -> Option<Seq<char>> {
        if self.current_col < self.data.headers.len() {
            Some(self.data.headers[self.current_col as int])
        } else {
            None
        }
    }
}

/// The foreign keys of the first `n` columns of a table, by column index.
pub open spec fn keys_of_columns(headers: Seq<Seq<char>>, schema: Seq<ForeignKeyView>, n: int) -> Map<
    usize,
    ForeignKeyView,
> {
    Map::new(
        |k: usize| k < n && k < headers.len() && key_of(schema, headers[k as int]) is Some,
        |k: usize| key_of(schema, headers[k as int])->0,
    )
}

/// The statistics of the first `n` columns of a table, by column index.
pub open spec fn stats_of_columns(data: QueryResultView, n: int) -> Map<usize, StatsView> {
    Map::new(
        |k: usize| k < n && k < data.headers.len(),
        |k: usize| column_stats(data.rows, data.column_types, k as int),
    )
}

/// A fresh viewer on `data`: the cursor on the first cell, no search, no
/// chart, the foreign keys that the schema records for the columns, and the
/// statistics of every column.
pub open spec fn fresh_viewer(data: QueryResultView, schema: Seq<ForeignKeyView>) -> ViewerView {
    ViewerView {
        data,
        current_row: 0,
        current_col: 0,
        scroll_offset_y: 0,
        scroll_offset_x: 0,
        search_state: SearchView::empty(),
        foreign_keys: keys_of_columns(data.headers, schema, data.headers.len() as int),
        col_width: 20,
        movement_multiplier: None,
        column_stats: stats_of_columns(data, data.headers.len() as int),
        show_chart: false,
        chart_data: None,
    }
}

impl TableViewer {
    /// A fresh viewer on the result of a query.
    pub fn new(data: QueryResult, _config: &Config, db_manager: &DatabaseManager) -> (r: Self)
        ensures
            r@ == fresh_viewer(data@, db_manager.schema_cache.entries.deep_view()),
    {
        let mut foreign_keys: HashMap<usize, ForeignKeyInfo> = HashMap::new();
        let mut column_stats: HashMap<usize, ColumnStats> = HashMap::new();
        let ghost schema = db_manager.schema_cache.entries.deep_view();
        let ghost headers = data.headers.deep_view();
        let mut idx: usize = 0;
        assert(key_views(foreign_keys@) =~= keys_of_columns(headers, schema, 0));
        assert(stats_views(column_stats@) =~= stats_of_columns(data@, 0));
        while idx < data.headers.len()
            invariant
                0 <= idx <= data.headers.len(),
                schema == db_manager.schema_cache.entries.deep_view(),
                headers == data.headers.deep_view(),
                key_views(foreign_keys@) == keys_of_columns(headers, schema, idx as int),
                stats_views(column_stats@) == stats_of_columns(data@, idx as int),
            decreases data.headers.len() - idx,
        {
            let header = &data.headers[idx];
            assert(headers[idx as int] == header@);
            let ghost keys_before = foreign_keys@;
            if let Ok(fk_info) = db_manager.get_foreign_key_info(header.as_str()) {
                let info = fk_info.clone();
                foreign_keys.insert(idx, info);
                assert(foreign_keys@ == keys_before.insert(idx, info));
                assert(key_of(schema, headers[idx as int]) == Some(info@));
                assert forall|k: usize| key_views(foreign_keys@).contains_key(k) <==> keys_of_columns(headers, schema, idx + 1).contains_key(k) by {
                    if k != idx {
                        assert(key_views(keys_before).contains_key(k) == keys_of_columns(headers, schema, idx as int).contains_key(k));
                    }
                }
                assert forall|k: usize| #[trigger]
                    key_views(foreign_keys@).contains_key(k) implies key_views(foreign_keys@)[k]
                    == keys_of_columns(headers, schema, idx + 1)[k] by {
                    if k != idx {
                        assert(key_views(keys_before)[k] == keys_of_columns(
                            headers,
                            schema,
                            idx as int,
                        )[k]);
                    }
                }
                assert(key_views(foreign_keys@) =~= keys_of_columns(headers, schema, idx + 1));
            } else {
                assert(key_views(foreign_keys@) =~= keys_of_columns(headers, schema, idx + 1));
            }
            let ghost stats_before = column_stats@;
            let stats = Self::compute_column_stats(&data, idx);
            column_stats.insert(idx, stats);
            proof {
                assert(column_stats@ == stats_before.insert(idx, stats));
                assert forall|k: usize|
                    stats_views(column_stats@).contains_key(k) <==> stats_of_columns(
                        data@,
                        idx + 1,
                    ).contains_key(k) by {
                    if k != idx {
                        assert(stats_views(stats_before).contains_key(k) == stats_of_columns(
                            data@,
                            idx as int,
                        ).contains_key(k));
                    }
                }
                assert forall|k: usize| #[trigger]
                    stats_views(column_stats@).contains_key(k) implies stats_views(
                    column_stats@,
                )[k] == stats_of_columns(data@, idx + 1)[k] by {
                    if k != idx {
                        assert(stats_views(stats_before)[k] == stats_of_columns(
                            data@,
                            idx as int,
                        )[k]);
                    }
                }
            }
            assert(stats_views(column_stats@) =~= stats_of_columns(data@, idx + 1));
            idx += 1;
        }
        Self {
            data,
            current_row: 0,
            current_col: 0,
            scroll_offset_y: 0,
            scroll_offset_x: 0,
            search_state: SearchState::default(),
            foreign_keys,
            col_width: 20,
            movement_multiplier: None,
            column_stats,
            show_chart: false,
            chart_data: None,
        }
    }

    /// The type of column `col_idx`, where the result names one.
    pub fn get_column_type(&self, col_idx: usize) -> (r: Option<&String>)
        ensures
            match r {
                Some(t) => col_idx < self@.data.column_types.len() && t@
                    == self@.data.column_types[col_idx as int],
                None => col_idx >= self@.data.column_types.len(),
            },
    {
        if col_idx < self.data.column_types.len() {
            Some(&self.data.column_types[col_idx])
        } else {
            None
        }
    }

    /// The types of all columns.
    pub fn get_column_types(&self) -> (r: &Vec<String>)
        ensures
            r.deep_view() == self@.data.column_types,
    {
        &self.data.column_types
    }

    /// The value of the cell under the cursor, where there is such a cell.
    pub fn get_current_cell_value(&self) -> (r: Option<String>)
        ensures
            r.deep_view() == self@.current_cell(),
    {
        if self.current_row < self.data.rows.len() {
            let row = &self.data.rows[self.current_row];
            assert(self@.data.rows[self.current_row as int] == row.deep_view());
            if self.current_col < row.len() {
                assert(row.deep_view()[self.current_col as int] == row@[self.current_col as int]@);
                return Some(row[self.current_col].clone());
            }
        }
        None
    }

    /// The headers and the row under the cursor, where there is such a row.
    pub fn get_current_row_with_headers(&self) -> (r: Option<(&Vec<String>, &Vec<String>)>)
        ensures
            match r {
                Some((headers, row)) => self.current_row < self@.data.rows.len()
                    && headers.deep_view() == self@.data.headers && row.deep_view()
                    == self@.data.rows[self.current_row as int],
                None => self.current_row >= self@.data.rows.len(),
            },
    {
        if self.current_row < self.data.rows.len() {
            Some((&self.data.headers, &self.data.rows[self.current_row]))
        } else {
            None
        }
    }
}

} // verus!
