use crate::database::query_result::QueryResult;
use crate::table_viewer::data::is_null_text;
use crate::table_viewer::data::StatsView;
use crate::table_viewer::data::TableViewer;
use crate::table_viewer::data::ViewerView;
use crate::table_viewer::fk::ForeignKeyLookupResult;
use crate::table_viewer::fk::LookupView;
use crate::table_viewer::statistics::label_index;
use crate::table_viewer::statistics::text_is_null;
use crate::table_viewer::chart::find_label;
use crate::table_viewer::navigation::minus;
use vstd::prelude::*;
use vstd::utf8::encode_utf8;

verus! {

broadcast use vstd::std_specs::hash::group_hash_axioms;

/// What is known of one cell: its value and place, and how its value stands
/// among the values of its column.
#[derive(Debug)]
pub struct CellInfo {
    pub value: String,
    pub column_name: String,
    pub column_index: usize,
    pub row_index: usize,
    pub data_type: Option<String>,
    pub is_null: bool,
    /// The length of the value in bytes.
    pub value_length: usize,
    /// How often the value occurs in its column.
    pub duplicate_count: usize,
    pub unique_values_in_column: usize,
    /// How many cells of the column are not null.
    pub total_non_null_rows: usize,
    pub foreign_key_info: Option<ForeignKeyLookupResult>,
}

/// The mathematical content of a [`CellInfo`].
pub ghost struct CellInfoView {
    pub value: Seq<char>,
    pub column_name: Seq<char>,
    pub column_index: usize,
    pub row_index: usize,
    pub data_type: Option<Seq<char>>,
    pub is_null: bool,
    pub value_length: usize,
    pub duplicate_count: usize,
    pub unique_values_in_column: usize,
    pub total_non_null_rows: usize,
    pub foreign_key_info: Option<LookupView>,
}

/// The view of an optional lookup result.
pub open spec fn lookup_view(r: Option<ForeignKeyLookupResult>) -> Option<LookupView> {
    match r {
        Some(l) => Some(l@),
        None => None,
    }
}

impl View for CellInfo {
    type V = CellInfoView;

    open spec fn view(&self) -> CellInfoView {
        CellInfoView {
            value: self.value@,
            column_name: self.column_name@,
            column_index: self.column_index,
            row_index: self.row_index,
            data_type: self.data_type.deep_view(),
            is_null: self.is_null,
            value_length: self.value_length,
            duplicate_count: self.duplicate_count,
            unique_values_in_column: self.unique_values_in_column,
            total_non_null_rows: self.total_non_null_rows,
            foreign_key_info: lookup_view(self.foreign_key_info),
        }
    }
}

/// How often `value` occurs, going by the counts of a column.
pub open spec fn occurrences(stats: StatsView, value: Seq<char>) -> usize {
    let k = label_index(stats.value_counts, value);
    if 0 <= k < stats.value_counts.len() {
        stats.value_counts[k].1
    } else {
        0
    }
}

impl ViewerView {
    /// The statistics of the column under the cursor, where they are known.
    pub open spec fn current_stats(self) -> Option<StatsView> {
        if self.column_stats.contains_key(self.current_col) {
            Some(self.column_stats[self.current_col])
        } else {
            None
        }
    }

    /// What is known of the cell under the cursor. `lookup` is what the
    /// database answered where it was asked to follow the cell's foreign key,
    /// and counts only where [`Self::key_info_request`] called for the
    /// question.
    pub open spec fn cell_info(self, lookup: Option<QueryResult>) -> CellInfoView {
        let value = match self.current_cell() {
            Some(v) => v,
            None => Seq::empty(),
        };
        let stats = self.current_stats();
        CellInfoView {
            value,
            column_name: match self.current_header() {
                Some(h) => h,
                None => Seq::empty(),
            },
            column_index: self.current_col,
            row_index: self.current_row,
            data_type: match stats {
                Some(s) => s.data_type,
                None => None,
            },
            is_null: is_null_text(value),
            value_length: encode_utf8(value).len() as usize,
            duplicate_count: match stats {
                Some(s) => occurrences(s, value),
                None => 0,
            },
            unique_values_in_column: match stats {
                Some(s) => s.unique_count,
                None => 0,
            },
            total_non_null_rows: minus(
                self.data.rows.len() as int,
                match stats {
                    Some(s) => s.null_count as int,
                    None => 0,
                },
            ),
            foreign_key_info: match (self.key_info_request(), lookup) {
                (Some(_), Some(data)) => Some(
                    LookupView {
                        foreign_key_info: self.foreign_keys[self.current_col],
                        lookup_data: data@,
                    },
                ),
                _ => None,
            },
        }
    }
}

impl TableViewer {
    /// What is known of the cell under the cursor; see
    /// [`ViewerView::cell_info`].
    pub fn get_cell_info(&self, lookup: Option<QueryResult>) -> (r: CellInfo)
        ensures
            r@ == self@.cell_info(lookup),
    {
        let current_value = match self.get_current_cell_value() {
            Some(v) => v,
            None => String::new(),
        };
        let column_name = if self.current_col < self.data.headers.len() {
            assert(self@.data.headers[self.current_col as int]
                == self.data.headers@[self.current_col as int]@);
            self.data.headers[self.current_col].clone()
        } else {
            String::new()
        };
        let stats = self.column_stats.get(&self.current_col);
        let (duplicate_count, unique_values_in_column, null_count, data_type) = match stats {
            Some(s) => {
                assert(self@.column_stats[self.current_col] == s@);
                let k = find_label(&s.value_counts, current_value.as_str());
                let duplicates = if k < s.value_counts.len() {
                    assert(s@.value_counts[k as int] == (
                        s.value_counts@[k as int].0@,
                        s.value_counts@[k as int].1,
                    ));
                    s.value_counts[k].1
                } else {
                    0
                };
                (
                    duplicates,
                    s.unique_count,
                    s.null_count,
                    match &s.data_type {
                        Some(t) => Some(t.clone()),
                        None => None,
                    },
                )
            },
            None => (0, 0, 0, None),
        };
        let total_non_null_rows = if self.data.rows.len() >= null_count {
            self.data.rows.len() - null_count
        } else {
            0
        };
        let request = self.lookup_foreign_key_info();
        let foreign_key_info = match (request, lookup) {
            (Some(_), Some(data)) => {
                match self.foreign_keys.get(&self.current_col) {
                    Some(info) => Some(
                        ForeignKeyLookupResult {
                            foreign_key_info: info.clone(),
                            lookup_data: data,
                        },
                    ),
                    None => None,
                }
            },
            _ => None,
        };
        let is_null = text_is_null(current_value.as_str());
        let value_length = current_value.as_str().len();
        CellInfo {
            value: current_value,
            column_name,
            column_index: self.current_col,
            row_index: self.current_row,
            data_type,
            is_null,
            value_length,
            duplicate_count,
            unique_values_in_column,
            total_non_null_rows,
            foreign_key_info,
        }
    }
}

} // verus!
