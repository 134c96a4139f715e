use crate::database::query_result::QueryResult;
use crate::table_viewer::data::ColumnStats;
use crate::table_viewer::data::StatsView;
use crate::table_viewer::data::TableViewer;
use crate::table_viewer::data::is_null_text;
use crate::keys::add_capped;
use crate::keys::capped_add;
use crate::text::str_equal;
use vstd::prelude::*;

verus! {

/// The index of the first entry of `counts` for `label`, or `counts.len()`
/// where there is none.
pub open spec fn label_index(counts: Seq<(Seq<char>, usize)>, label: Seq<char>) -> int
    decreases counts.len(),
{
    if counts.len() == 0 || counts[0].0 == label {
        0
    } else {
        1 + label_index(counts.drop_first(), label)
    }
}

/// The first entry for a label is where no earlier entry is for it.
pub proof fn lemma_label_index_is(counts: Seq<(Seq<char>, usize)>, label: Seq<char>, k: int)
    requires
        0 <= k <= counts.len(),
        forall|i: int| 0 <= i < k ==> counts[i].0 != label,
        k < counts.len() ==> counts[k].0 == label,
    ensures
        label_index(counts, label) == k,
    decreases counts.len(),
{
    if counts.len() == 0 || counts[0].0 == label {
    } else {
        let t = counts.drop_first();
        assert forall|i: int| 0 <= i < k - 1 implies t[i].0 != label by {
            assert(t[i] == counts[i + 1]);
        }
        lemma_label_index_is(t, label, k - 1);
    }
}

/// The counts once one more occurrence of `label` is counted: its entry goes
/// up by one, or a new entry is added at the end.
pub open spec fn counted(counts: Seq<(Seq<char>, usize)>, label: Seq<char>) -> Seq<
    (Seq<char>, usize),
> {
    let k = label_index(counts, label);
    if 0 <= k < counts.len() {
        counts.update(k, (label, capped_add(counts[k].1 as int, 1)))
    } else {
        counts.push((label, 1))
    }
}

/// Whether a row has a value in column `col` that is not null.
pub open spec fn has_value(row: Seq<Seq<char>>, col: int) -> bool {
    0 <= col < row.len() && !is_null_text(row[col])
}

/// Whether a row has a null in column `col`.
pub open spec fn has_null(row: Seq<Seq<char>>, col: int) -> bool {
    0 <= col < row.len() && is_null_text(row[col])
}

/// How often each value occurs in column `col` of `rows`, in the order in
/// which the values first occur. Nulls are not counted.
pub open spec fn value_counts(rows: Seq<Seq<Seq<char>>>, col: int) -> Seq<(Seq<char>, usize)>
    decreases rows.len(),
{
    if rows.len() == 0 {
        Seq::empty()
    } else if has_value(rows.last(), col) {
        counted(value_counts(rows.drop_last(), col), rows.last()[col])
    } else {
        value_counts(rows.drop_last(), col)
    }
}

/// How many cells of column `col` of `rows` are null.
pub open spec fn null_count(rows: Seq<Seq<Seq<char>>>, col: int) -> nat
    decreases rows.len(),
{
    if rows.len() == 0 {
        0
    } else if has_null(rows.last(), col) {
        null_count(rows.drop_last(), col) + 1
    } else {
        null_count(rows.drop_last(), col)
    }
}

/// The statistics of column `col` of a table.
pub open spec fn column_stats(
    rows: Seq<Seq<Seq<char>>>,
    column_types: Seq<Seq<char>>,
    col: int,
) -> StatsView {
    StatsView {
        data_type: if 0 <= col < column_types.len() {
            Some(column_types[col])
        } else {
            None
        },
        value_counts: value_counts(rows, col),
        unique_count: value_counts(rows, col).len() as usize,
        null_count: null_count(rows, col) as usize,
    }
}

/// Whether a cell's text stands for a missing value.
pub fn text_is_null(s: &str) -> (r: bool)
    ensures
        r == is_null_text(s@),
{
    s.is_empty() || str_equal(s, "NULL")
}

/// Counts one more occurrence of `label`.
pub fn count_value(counts: &mut Vec<(String, usize)>, label: &String)
    ensures
        final(counts).deep_view() == counted(old(counts).deep_view(), label@),
{
    let ghost before = counts.deep_view();
    let mut i: usize = 0;
    while i < counts.len()
        invariant
            0 <= i <= counts.len(),
            counts@ == old(counts)@,
            before == counts.deep_view(),
            forall|k: int| 0 <= k < i ==> before[k].0 != label@,
        decreases counts.len() - i,
    {
        assert(before[i as int].0 == counts@[i as int].0@);
        if str_equal(counts[i].0.as_str(), label.as_str()) {
            proof {
                lemma_label_index_is(before, label@, i as int);
            }
            let next = add_capped(counts[i].1, 1);
            counts[i].1 = next;
            assert(counts.deep_view() =~= counted(before, label@));
            return ;
        }
        i += 1;
    }
    proof {
        lemma_label_index_is(before, label@, before.len() as int);
    }
    counts.push((label.clone(), 1));
    assert(counts.deep_view() =~= counted(before, label@));
}

impl TableViewer {
    /// The statistics of column `col_idx` of `data`.
    pub fn compute_column_stats(data: &QueryResult, col_idx: usize) -> (r: ColumnStats)
        ensures
            r@ == column_stats(data@.rows, data@.column_types, col_idx as int),
    {
        let mut value_counts: Vec<(String, usize)> = Vec::new();
        let mut null_count: usize = 0;
        let ghost rows = data.rows.deep_view();
        let mut i: usize = 0;
        assert(rows.take(0) =~= Seq::empty());
        assert(value_counts.deep_view() =~= Seq::empty());
        while i < data.rows.len()
            invariant
                0 <= i <= data.rows.len(),
                rows == data.rows.deep_view(),
                value_counts.deep_view() == self::value_counts(rows.take(i as int), col_idx as int),
                null_count == self::null_count(rows.take(i as int), col_idx as int),
                null_count <= i,
            decreases data.rows.len() - i,
        {
            let row = &data.rows[i];
            proof {
                let head = rows.take(i + 1);
                assert(head.drop_last() =~= rows.take(i as int));
                assert(head.last() == row.deep_view());
                if col_idx < row.len() {
                    assert(row.deep_view()[col_idx as int] == row@[col_idx as int]@);
                }
            }
            if col_idx < row.len() {
                let cell_value = &row[col_idx];
                if text_is_null(cell_value.as_str()) {
                    null_count += 1;
                } else {
                    count_value(&mut value_counts, cell_value);
                }
            }
            i += 1;
        }
        assert(rows.take(i as int) =~= rows);
        let unique_count = value_counts.len();
        let data_type = if col_idx < data.column_types.len() {
            Some(data.column_types[col_idx].clone())
        } else {
            None
        };
        ColumnStats { data_type, value_counts, unique_count, null_count }
    }
}

} // verus!
