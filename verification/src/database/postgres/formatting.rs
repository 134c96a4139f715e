use crate::database::query_result::QueryResult;
use crate::database::query_result::QueryResultView;
use crate::text::str_concat;
use crate::text::str_equal;
use std::time::Duration;
use vstd::prelude::*;

verus! {

/// One cell of a row as the database hands it out: the name and the type of
/// its column, whether it is null, and its value as text where the value
/// could be decoded.
#[derive(Debug)]
pub struct RawCell {
    pub column_name: String,
    pub sql_type: String,
    pub is_null: bool,
    pub decoded: Option<String>,
}

/// The mathematical content of a [`RawCell`].
pub ghost struct CellView {
    pub column_name: Seq<char>,
    pub sql_type: Seq<char>,
    pub is_null: bool,
    pub decoded: Option<Seq<char>>,
}

impl View for RawCell {
    type V = CellView;

    open spec fn view(&self) -> CellView {
        CellView {
            column_name: self.column_name@,
            sql_type: self.sql_type@,
            is_null: self.is_null,
            decoded: self.decoded.deep_view(),
        }
    }
}

impl DeepView for RawCell {
    type V = CellView;

    open spec fn deep_view(&self) -> CellView {
        self@
    }
}

/// The families of column types that are decoded alike.
#[derive(Debug, Clone, Copy, PartialEq, Eq, Structural)]
pub enum ValueKind {
    Text,
    Integer,
    Float,
    Boolean,
    Timestamp,
    TimestampTz,
    Date,
    Time,
    Uuid,
    Json,
    Other,
}

/// The name under which a column type is shown: each family of names of one
/// type goes by one name, and any other name by itself.
pub open spec fn normalized_type(t: Seq<char>) -> Seq<char> {
    if t == "TEXT"@ || t == "VARCHAR"@ || t == "CHAR"@ || t == "BPCHAR"@ {
        "TEXT"@
    } else if t == "INT2"@ || t == "SMALLINT"@ {
        "SMALLINT"@
    } else if t == "INT4"@ || t == "INTEGER"@ {
        "INTEGER"@
    } else if t == "INT8"@ || t == "BIGINT"@ {
        "BIGINT"@
    } else if t == "FLOAT4"@ || t == "REAL"@ {
        "REAL"@
    } else if t == "FLOAT8"@ || t == "DOUBLE PRECISION"@ {
        "DOUBLE PRECISION"@
    } else if t == "NUMERIC"@ || t == "DECIMAL"@ {
        "NUMERIC"@
    } else if t == "BOOL"@ || t == "BOOLEAN"@ {
        "BOOLEAN"@
    } else {
        t
    }
}

/// The family of a column type.
pub open spec fn kind_of(t: Seq<char>) -> ValueKind {
    if t == "TEXT"@ || t == "VARCHAR"@ || t == "CHAR"@ || t == "BPCHAR"@ {
        ValueKind::Text
    } else if t == "INT2"@ || t == "INT4"@ || t == "INT8"@ || t == "SMALLINT"@ || t == "INTEGER"@
        || t == "BIGINT"@ {
        ValueKind::Integer
    } else if t == "FLOAT4"@ || t == "FLOAT8"@ || t == "REAL"@ || t == "DOUBLE PRECISION"@ || t
        == "NUMERIC"@ || t == "DECIMAL"@ {
        ValueKind::Float
    } else if t == "BOOL"@ || t == "BOOLEAN"@ {
        ValueKind::Boolean
    } else if t == "TIMESTAMP"@ {
        ValueKind::Timestamp
    } else if t == "TIMESTAMPTZ"@ {
        ValueKind::TimestampTz
    } else if t == "DATE"@ {
        ValueKind::Date
    } else if t == "TIME"@ || t == "TIMETZ"@ {
        ValueKind::Time
    } else if t == "UUID"@ {
        ValueKind::Uuid
    } else if t == "JSON"@ || t == "JSONB"@ {
        ValueKind::Json
    } else {
        ValueKind::Other
    }
}

/// What is shown for a value that could not be decoded.
pub open spec fn fallback_text(t: Seq<char>) -> Seq<char> {
    match kind_of(t) {
        ValueKind::Integer => "0"@,
        ValueKind::Float => "0.0"@,
        ValueKind::Boolean => "false"@,
        ValueKind::Other => "<"@ + t + ">"@,
        _ => Seq::empty(),
    }
}

/// What is shown for a cell: `NULL` for a null, the decoded value where
/// there is one, and else what stands for a value of its type that could
/// not be decoded.
pub open spec fn shown_value(cell: CellView) -> Seq<char> {
    if cell.is_null {
        "NULL"@
    } else {
        match cell.decoded {
            Some(v) => v,
            None => fallback_text(cell.sql_type),
        }
    }
}

/// The index of the first row that has a value in column `col` that is not
/// null, or the number of rows where there is none.
pub open spec fn first_valued_row(rows: Seq<Seq<CellView>>, col: int) -> int
    decreases rows.len(),
{
    if rows.len() == 0 || (0 <= col < rows[0].len() && !rows[0][col].is_null) {
        0
    } else {
        1 + first_valued_row(rows.drop_first(), col)
    }
}

/// The first such row is where no earlier row is one.
pub proof fn lemma_first_valued_row_is(rows: Seq<Seq<CellView>>, col: int, k: int)
    requires
        0 <= k <= rows.len(),
        forall|i: int| 0 <= i < k ==> !(0 <= col < rows[i].len() && !rows[i][col].is_null),
        k < rows.len() ==> 0 <= col < rows[k].len() && !rows[k][col].is_null,
    ensures
        first_valued_row(rows, col) == k,
    decreases rows.len(),
{
    if rows.len() == 0 || (0 <= col < rows[0].len() && !rows[0][col].is_null) {
    } else {
        let t = rows.drop_first();
        assert forall|i: int| 0 <= i < k - 1 implies !(0 <= col < t[i].len() && !t[i][col].is_null) by {
            assert(t[i] == rows[i + 1]);
        }
        lemma_first_valued_row_is(t, col, k - 1);
    }
}

/// The type of column `col`: that of its first value that is not null, else
/// that of its first cell, else unknown.
pub open spec fn column_type(rows: Seq<Seq<CellView>>, col: int) -> Seq<char> {
    let k = first_valued_row(rows, col);
    if 0 <= k < rows.len() {
        normalized_type(rows[k][col].sql_type)
    } else if rows.len() > 0 && 0 <= col < rows[0].len() {
        normalized_type(rows[0][col].sql_type)
    } else {
        "UNKNOWN"@
    }
}

/// The table that rows of cells make, run in `execution_time`. The columns
/// are those of the first row.
pub open spec fn query_result(rows: Seq<Seq<CellView>>, execution_time: Duration) -> QueryResultView {
    if rows.len() == 0 {
        QueryResultView {
            headers: Seq::empty(),
            rows: Seq::empty(),
            row_count: 0,
            execution_time: Some(execution_time),
            column_types: Seq::empty(),
        }
    } else {
        QueryResultView {
            headers: Seq::new(rows[0].len(), |c: int| rows[0][c].column_name),
            rows: Seq::new(
                rows.len(),
                |r: int| Seq::new(rows[r].len(), |c: int| shown_value(rows[r][c])),
            ),
            row_count: rows.len() as usize,
            execution_time: Some(execution_time),
            column_types: Seq::new(rows[0].len(), |c: int| column_type(rows, c)),
        }
    }
}

/// How the session shows what PostgreSQL hands out.
pub struct PostgresFormatter;

impl Clone for PostgresFormatter {
    fn clone(&self) -> Self {
        Self
    }
}

impl Default for PostgresFormatter {
    fn default() -> Self {
        Self::new()
    }
}

impl PostgresFormatter {
    /// A formatter.
    pub fn new() -> Self {
        Self
    }

    /// The table that rows of cells make.
    pub fn rows_to_query_result(&self, rows: &Vec<Vec<RawCell>>, execution_time: Duration) -> (r:
        QueryResult)
        ensures
            r@ == query_result(rows.deep_view(), execution_time),
    {
        if rows.len() == 0 {
            let r = QueryResult {
                headers: Vec::new(),
                rows: Vec::new(),
                row_count: 0,
                execution_time: Some(execution_time),
                column_types: Vec::new(),
            };
            assert(r@.headers =~= Seq::empty());
            assert(r@.rows =~= Seq::empty());
            assert(r@.column_types =~= Seq::empty());
            return r;
        }
        let ghost all = rows.deep_view();
        let first = &rows[0];
        assert(all[0] == first.deep_view());
        let mut headers: Vec<String> = Vec::new();
        let mut column_types: Vec<String> = Vec::new();
        let mut idx: usize = 0;
        while idx < first.len()
            invariant
                0 <= idx <= first.len(),
                all == rows.deep_view(),
                all[0] == first.deep_view(),
                headers@.len() == idx,
                column_types@.len() == idx,
                forall|c: int| 0 <= c < idx ==> (#[trigger] headers@[c])@ == all[0][c].column_name,
                forall|c: int| 0 <= c < idx ==> (#[trigger] column_types@[c])@ == column_type(all, c),
            decreases first.len() - idx,
        {
            assert(first.deep_view()[idx as int] == first@[idx as int]@);
            headers.push(first[idx].column_name.clone());
            column_types.push(self.get_column_type_from_rows(rows, idx));
            idx += 1;
        }
        let mut result_rows: Vec<Vec<String>> = Vec::new();
        let mut r: usize = 0;
        while r < rows.len()
            invariant
                0 <= r <= rows.len(),
                all == rows.deep_view(),
                result_rows@.len() == r,
                forall|i: int|
                    0 <= i < r ==> (#[trigger] result_rows@[i]).deep_view() == Seq::new(
                        all[i].len(),
                        |c: int| shown_value(all[i][c]),
                    ),
            decreases rows.len() - r,
        {
            let row = &rows[r];
            assert(all[r as int] == row.deep_view());
            let mut string_row: Vec<String> = Vec::new();
            let mut col_idx: usize = 0;
            while col_idx < row.len()
                invariant
                    0 <= col_idx <= row.len(),
                    string_row@.len() == col_idx,
                    forall|c: int|
                        0 <= c < col_idx ==> (#[trigger] string_row@[c])@ == shown_value(row@[c]@),
                decreases row.len() - col_idx,
            {
                string_row.push(self.format_value(&row[col_idx]));
                col_idx += 1;
            }
            proof {
                assert forall|c: int| 0 <= c < row.len() implies string_row.deep_view()[c]
                    == shown_value(all[r as int][c]) by {
                    assert(row.deep_view()[c] == row@[c]@);
                }
                assert(string_row.deep_view() =~= Seq::new(
                    all[r as int].len(),
                    |c: int| shown_value(all[r as int][c]),
                ));
            }
            result_rows.push(string_row);
            r += 1;
        }
        let res = QueryResult {
            headers,
            rows: result_rows,
            row_count: rows.len(),
            execution_time: Some(execution_time),
            column_types,
        };
        proof {
            let want = query_result(all, execution_time);
            assert(res@.headers =~= want.headers);
            assert(res@.column_types =~= want.column_types);
            assert(res@.rows =~= want.rows);
        }
        res
    }

    /// The type of column `col_idx`.
    pub fn get_column_type_from_rows(&self, rows: &Vec<Vec<RawCell>>, col_idx: usize) -> (r: String)
        ensures
            r@ == column_type(rows.deep_view(), col_idx as int),
    {
        let ghost all = rows.deep_view();
        let mut i: usize = 0;
        while i < rows.len()
            invariant
                0 <= i <= rows.len(),
                all == rows.deep_view(),
                forall|k: int|
                    0 <= k < i ==> !(0 <= col_idx < all[k].len() && !all[k][col_idx as int].is_null),
            decreases rows.len() - i,
        {
            let row = &rows[i];
            assert(all[i as int] == row.deep_view());
            if col_idx < row.len() {
                assert(row.deep_view()[col_idx as int] == row@[col_idx as int]@);
                if !row[col_idx].is_null {
                    proof {
                        lemma_first_valued_row_is(all, col_idx as int, i as int);
                    }
                    return self.normalize_type_name(row[col_idx].sql_type.as_str());
                }
            }
            i += 1;
        }
        proof {
            lemma_first_valued_row_is(all, col_idx as int, all.len() as int);
        }
        if rows.len() > 0 {
            let first_row = &rows[0];
            assert(all[0] == first_row.deep_view());
            if col_idx < first_row.len() {
                assert(first_row.deep_view()[col_idx as int] == first_row@[col_idx as int]@);
                return self.normalize_type_name(first_row[col_idx].sql_type.as_str());
            }
        }
        "UNKNOWN".to_owned()
    }

    /// The name under which a column type is shown.
    pub fn normalize_type_name(&self, sql_type: &str) -> (r: String)
        ensures
            r@ == normalized_type(sql_type@),
    {
        if str_equal(sql_type, "TEXT") || str_equal(sql_type, "VARCHAR") || str_equal(
            sql_type,
            "CHAR",
        ) || str_equal(sql_type, "BPCHAR") {
            "TEXT".to_owned()
        } else if str_equal(sql_type, "INT2") || str_equal(sql_type, "SMALLINT") {
            "SMALLINT".to_owned()
        } else if str_equal(sql_type, "INT4") || str_equal(sql_type, "INTEGER") {
            "INTEGER".to_owned()
        } else if str_equal(sql_type, "INT8") || str_equal(sql_type, "BIGINT") {
            "BIGINT".to_owned()
        } else if str_equal(sql_type, "FLOAT4") || str_equal(sql_type, "REAL") {
            "REAL".to_owned()
        } else if str_equal(sql_type, "FLOAT8") || str_equal(sql_type, "DOUBLE PRECISION") {
            "DOUBLE PRECISION".to_owned()
        } else if str_equal(sql_type, "NUMERIC") || str_equal(sql_type, "DECIMAL") {
            "NUMERIC".to_owned()
        } else if str_equal(sql_type, "BOOL") || str_equal(sql_type, "BOOLEAN") {
            "BOOLEAN".to_owned()
        } else {
            sql_type.to_owned()
        }
    }

    /// The family of a column type: it decides how the host decodes a value
    /// of the type.
    pub fn value_kind(&self, sql_type: &str) -> (r: ValueKind)
        ensures
            r == kind_of(sql_type@),
    {
        if str_equal(sql_type, "TEXT") || str_equal(sql_type, "VARCHAR") || str_equal(
            sql_type,
            "CHAR",
        ) || str_equal(sql_type, "BPCHAR") {
            ValueKind::Text
        } else if str_equal(sql_type, "INT2") || str_equal(sql_type, "INT4") || str_equal(
            sql_type,
            "INT8",
        ) || str_equal(sql_type, "SMALLINT") || str_equal(sql_type, "INTEGER") || str_equal(
            sql_type,
            "BIGINT",
        ) {
            ValueKind::Integer
        } else if str_equal(sql_type, "FLOAT4") || str_equal(sql_type, "FLOAT8") || str_equal(
            sql_type,
            "REAL",
        ) || str_equal(sql_type, "DOUBLE PRECISION") || str_equal(sql_type, "NUMERIC")
            || str_equal(sql_type, "DECIMAL") {
            ValueKind::Float
        } else if str_equal(sql_type, "BOOL") || str_equal(sql_type, "BOOLEAN") {
            ValueKind::Boolean
        } else if str_equal(sql_type, "TIMESTAMP") {
            ValueKind::Timestamp
        } else if str_equal(sql_type, "TIMESTAMPTZ") {
            ValueKind::TimestampTz
        } else if str_equal(sql_type, "DATE") {
            ValueKind::Date
        } else if str_equal(sql_type, "TIME") || str_equal(sql_type, "TIMETZ") {
            ValueKind::Time
        } else if str_equal(sql_type, "UUID") {
            ValueKind::Uuid
        } else if str_equal(sql_type, "JSON") || str_equal(sql_type, "JSONB") {
            ValueKind::Json
        } else {
            ValueKind::Other
        }
    }

    /// What is shown for a cell.
    pub fn format_value(&self, cell: &RawCell) -> (r: String)
        ensures
            r@ == shown_value(cell@),
    {
        if cell.is_null {
            return "NULL".to_owned();
        }
        match &cell.decoded {
            Some(v) => v.clone(),
            None => match self.value_kind(cell.sql_type.as_str()) {
                ValueKind::Integer => "0".to_owned(),
                ValueKind::Float => "0.0".to_owned(),
                ValueKind::Boolean => "false".to_owned(),
                ValueKind::Other => {
                    let open = str_concat("<", cell.sql_type.as_str());
                    str_concat(open.as_str(), ">")
                },
                _ => String::new(),
            },
        }
    }
}

} // verus!
