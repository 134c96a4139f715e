use crate::text::str_equal;
use std::time::Duration;
use vstd::prelude::*;

verus! {

/// A copy of a list of strings.
pub fn clone_strings(v: &Vec<String>) -> (r: Vec<String>)
    ensures
        r.deep_view() == v.deep_view(),
{
    let mut r: Vec<String> = Vec::new();
    let mut i: usize = 0;
    while i < v.len()
        invariant
            0 <= i <= v.len(),
            r@.len() == i,
            forall|k: int| 0 <= k < i ==> r@[k]@ == v@[k]@,
        decreases v.len() - i,
    {
        r.push(v[i].clone());
        i += 1;
    }
    assert(r.deep_view() =~= v.deep_view());
    r
}

/// A copy of a table of strings.
pub fn clone_rows(v: &Vec<Vec<String>>) -> (r: Vec<Vec<String>>)
    ensures
        r.deep_view() == v.deep_view(),
{
    let mut r: Vec<Vec<String>> = Vec::new();
    let mut i: usize = 0;
    while i < v.len()
        invariant
            0 <= i <= v.len(),
            r@.len() == i,
            forall|k: int| 0 <= k < i ==> r@[k].deep_view() == v@[k].deep_view(),
        decreases v.len() - i,
    {
        r.push(clone_strings(&v[i]));
        i += 1;
    }
    assert(r.deep_view() =~= v.deep_view());
    r
}

/// The outcome of a query: a table of text.
#[derive(Debug)]
pub struct QueryResult {
    pub headers: Vec<String>,
    pub rows: Vec<Vec<String>>,
    pub row_count: usize,
    pub execution_time: Option<Duration>,
    pub column_types: Vec<String>,
}

/// The mathematical content of a [`QueryResult`].
pub ghost struct QueryResultView {
    pub headers: Seq<Seq<char>>,
    pub rows: Seq<Seq<Seq<char>>>,
    pub row_count: usize,
    pub execution_time: Option<Duration>,
    pub column_types: Seq<Seq<char>>,
}

impl View for QueryResult {
    type V = QueryResultView;

    open spec fn view(&self) -> QueryResultView {
        QueryResultView {
            headers: self.headers.deep_view(),
            rows: self.rows.deep_view(),
            row_count: self.row_count,
            execution_time: self.execution_time,
            column_types: self.column_types.deep_view(),
        }
    }
}

impl Clone for QueryResult {
    fn clone(&self) -> (r: Self)
        ensures
            r@ == self@,
    {
        QueryResult {
            headers: clone_strings(&self.headers),
            rows: clone_rows(&self.rows),
            row_count: self.row_count,
            execution_time: self.execution_time,
            column_types: clone_strings(&self.column_types),
        }
    }
}

/// The index of the first item of `headers` that equals `name`, or
/// `headers.len()` where none does.
pub open spec fn position_of(headers: Seq<Seq<char>>, name: Seq<char>) -> int
    decreases headers.len(),
{
    if headers.len() == 0 || headers[0] == name {
        0
    } else {
        1 + position_of(headers.drop_first(), name)
    }
}

/// The first equal item is where no earlier item is equal.
pub proof fn lemma_position_of_is(headers: Seq<Seq<char>>, name: Seq<char>, k: int)
    requires
        0 <= k <= headers.len(),
        forall|i: int| 0 <= i < k ==> headers[i] != name,
        k < headers.len() ==> headers[k] == name,
    ensures
        position_of(headers, name) == k,
    decreases headers.len(),
{
    if headers.len() == 0 || headers[0] == name {
    } else {
        let t = headers.drop_first();
        assert forall|i: int| 0 <= i < k - 1 implies t[i] != name by {
            assert(t[i] == headers[i + 1]);
        }
        lemma_position_of_is(t, name, k - 1);
    }
}

impl QueryResult {
    /// Whether the result has no rows.
    pub fn is_empty(&self) -> (r: bool)
        ensures
            r == (self@.rows.len() == 0),
    {
        self.rows.len() == 0
    }

    /// The index of the first column named `column_name`.
    pub fn get_column_index(&self, column_name: &str) -> (r: Option<usize>)
        ensures
            match r {
                Some(k) => k < self@.headers.len() && position_of(self@.headers, column_name@)
                    == k,
                None => position_of(self@.headers, column_name@) == self@.headers.len(),
            },
    {
        let mut i: usize = 0;
        let ghost hs = self.headers.deep_view();
        while i < self.headers.len()
            invariant
                0 <= i <= self.headers.len(),
                hs == self.headers.deep_view(),
                forall|k: int| 0 <= k < i ==> hs[k] != column_name@,
            decreases self.headers.len() - i,
        {
            assert(hs[i as int] == self.headers@[i as int]@);
            if str_equal(self.headers[i].as_str(), column_name) {
                proof {
                    lemma_position_of_is(hs, column_name@, i as int);
                }
                return Some(i);
            }
            i += 1;
        }
        proof {
            lemma_position_of_is(hs, column_name@, hs.len() as int);
        }
        None
    }
}

/// Where a foreign-key column points.
#[derive(Debug)]
pub struct ForeignKeyInfo {
    pub column_name: String,
    pub referenced_table: String,
    pub referenced_column: String,
}

/// The mathematical content of a [`ForeignKeyInfo`].
pub ghost struct ForeignKeyView {
    pub column_name: Seq<char>,
    pub referenced_table: Seq<char>,
    pub referenced_column: Seq<char>,
}

impl View for ForeignKeyInfo {
    type V = ForeignKeyView;

    open spec fn view(&self) -> ForeignKeyView {
        ForeignKeyView {
            column_name: self.column_name@,
            referenced_table: self.referenced_table@,
            referenced_column: self.referenced_column@,
        }
    }
}

impl DeepView for ForeignKeyInfo {
    type V = ForeignKeyView;

    open spec fn deep_view(&self) -> ForeignKeyView {
        self@
    }
}

impl Clone for ForeignKeyInfo {
    fn clone(&self) -> (r: Self)
        ensures
            r@ == self@,
    {
        ForeignKeyInfo {
            column_name: self.column_name.clone(),
            referenced_table: self.referenced_table.clone(),
            referenced_column: self.referenced_column.clone(),
        }
    }
}

} // verus!
