use crate::query_parser::pattern::captured_groups;
use crate::query_parser::pattern::pattern_captures;
use crate::text::chars_start_with;
use crate::text::lowercase_of;
use crate::text::starts_with;
use crate::text::str_chars;
use crate::text::str_equal;
use crate::text::str_trim;
use crate::text::to_lowercase;
use crate::text::to_uppercase;
use crate::text::trim;
use crate::text::uppercase_of;
use vstd::prelude::*;

verus! {

/// The kinds of statement that are told apart by their first word.
#[derive(Debug, Clone, Copy, PartialEq, Eq, Structural)]
pub enum QueryType {
    Select,
    Insert,
    Update,
    Delete,
    Create,
    Drop,
    Alter,
    Other,
}

/// The kind of a statement that is given trimmed and in upper case.
pub open spec fn type_of_upper(upper: Seq<char>) -> QueryType {
    if starts_with(upper, "SELECT"@) {
        QueryType::Select
    } else if starts_with(upper, "INSERT"@) {
        QueryType::Insert
    } else if starts_with(upper, "UPDATE"@) {
        QueryType::Update
    } else if starts_with(upper, "DELETE"@) {
        QueryType::Delete
    } else if starts_with(upper, "CREATE"@) {
        QueryType::Create
    } else if starts_with(upper, "DROP"@) {
        QueryType::Drop
    } else if starts_with(upper, "ALTER"@) {
        QueryType::Alter
    } else {
        QueryType::Other
    }
}

/// The kind of a statement.
pub open spec fn query_type(query: Seq<char>) -> QueryType {
    type_of_upper(uppercase_of(trim(query)))
}

/// Whether a word can be the name of a table: it is none of the words of SQL
/// that can follow `from` and its like.
pub open spec fn is_table_name(word: Seq<char>) -> bool {
    word != "select"@ && word != "where"@ && word != "group"@ && word != "order"@ && word
        != "having"@ && word != "limit"@ && word != "offset"@ && word != "union"@ && word
        != "with"@
}

/// The pattern that finds the names of tables in a statement in lower case:
/// the word, with or without a schema before it, that follows `from`,
/// `join`, `update`, `insert into` or `alter table`.
pub open spec fn table_pattern() -> Seq<char> {
    "(?:from|join|update|insert\\s+into|alter\\s+table)\\s+((?:[\\w_]+\\.)?[\\w_]+)(?:\\s+(?:as\\s+)?[\\w_]+)?"@
}

/// The names among what was captured, each once, in the order of their first
/// occurrence.
pub open spec fn table_names(captured: Seq<Option<Seq<char>>>) -> Seq<Seq<char>>
    decreases captured.len(),
{
    if captured.len() == 0 {
        Seq::empty()
    } else {
        let before = table_names(captured.drop_last());
        match captured.last() {
            Some(word) => if is_table_name(word) && !before.contains(word) {
                before.push(word)
            } else {
                before
            },
            None => before,
        }
    }
}

/// The names of the tables that a statement speaks of.
pub open spec fn tables_in(query: Seq<char>) -> Seq<Seq<char>> {
    match pattern_captures(table_pattern(), lowercase_of(query), 1) {
        Some(captured) => table_names(captured),
        None => Seq::empty(),
    }
}

/// Tells what kind a statement is of, and which tables it speaks of.
pub struct QueryAnalyzer;

impl QueryAnalyzer {
    /// An analyzer.
    pub fn new() -> Self {
        Self
    }

    /// The names among what was captured, each once, in the order of their
    /// first occurrence.
    pub fn select_table_names(&self, captured: &Vec<Option<String>>) -> (tables: Vec<String>)
        ensures
            tables.deep_view() == table_names(captured.deep_view()),
    {
        let mut tables: Vec<String> = Vec::new();
        let ghost all = captured.deep_view();
        let mut i: usize = 0;
        assert(all.take(0) =~= Seq::empty());
        assert(tables.deep_view() =~= Seq::empty());
        while i < captured.len()
            invariant
                0 <= i <= captured.len(),
                all == captured.deep_view(),
                tables.deep_view() == table_names(all.take(i as int)),
            decreases captured.len() - i,
        {
            let ghost before = tables.deep_view();
            proof {
                let head = all.take(i + 1);
                assert(head.drop_last() =~= all.take(i as int));
                assert(head.last() == captured@[i as int].deep_view());
            }
            if let Some(table) = &captured[i] {
                if self.is_valid_table_name(table.as_str()) && !Self::holds(
                    &tables,
                    table.as_str(),
                ) {
                    tables.push(table.clone());
                    assert(tables.deep_view() =~= before.push(table@));
                }
            }
            i += 1;
        }
        assert(all.take(i as int) =~= all);
        tables
    }

    /// Whether `word` is among `words`.
    fn holds(words: &Vec<String>, word: &str) -> (r: bool)
        ensures
            r == words.deep_view().contains(word@),
    {
        let mut i: usize = 0;
        while i < words.len()
            invariant
                0 <= i <= words.len(),
                forall|k: int| 0 <= k < i ==> words.deep_view()[k] != word@,
            decreases words.len() - i,
        {
            assert(words.deep_view()[i as int] == words@[i as int]@);
            if str_equal(words[i].as_str(), word) {
                return true;
            }
            i += 1;
        }
        false
    }

    /// The names of the tables that a query speaks of, in lower case, each
    /// once.
    pub fn extract_table_names(&self, query: &str) -> (tables: Vec<String>)
        ensures
            tables.deep_view() == tables_in(query@),
    {
        let query_lower = to_lowercase(query);
        let captured = captured_groups(
            query_lower.as_str(),
            "(?:from|join|update|insert\\s+into|alter\\s+table)\\s+((?:[\\w_]+\\.)?[\\w_]+)(?:\\s+(?:as\\s+)?[\\w_]+)?",
            1,
        );
        match captured {
            Some(words) => self.select_table_names(&words),
            None => {
                let tables: Vec<String> = Vec::new();
                assert(tables.deep_view() =~= Seq::empty());
                tables
            },
        }
    }

    /// The kind of a statement that is given trimmed and in upper case.
    pub fn type_of_upper(&self, upper: &str) -> (r: QueryType)
        ensures
            r == type_of_upper(upper@),
    {
        let u = str_chars(upper);
        if chars_start_with(&u, &str_chars("SELECT")) {
            QueryType::Select
        } else if chars_start_with(&u, &str_chars("INSERT")) {
            QueryType::Insert
        } else if chars_start_with(&u, &str_chars("UPDATE")) {
            QueryType::Update
        } else if chars_start_with(&u, &str_chars("DELETE")) {
            QueryType::Delete
        } else if chars_start_with(&u, &str_chars("CREATE")) {
            QueryType::Create
        } else if chars_start_with(&u, &str_chars("DROP")) {
            QueryType::Drop
        } else if chars_start_with(&u, &str_chars("ALTER")) {
            QueryType::Alter
        } else {
            QueryType::Other
        }
    }

    /// The kind of a query, going by its first word, whatever its case.
    pub fn get_query_type(&self, query: &str) -> (r: QueryType)
        ensures
            r == query_type(query@),
    {
        let trimmed = str_trim(query);
        let upper_query = to_uppercase(trimmed.as_str());
        self.type_of_upper(upper_query.as_str())
    }

    /// Whether a word can be the name of a table.
    pub fn is_valid_table_name(&self, table: &str) -> (r: bool)
        ensures
            r == is_table_name(table@),
    {
        !(str_equal(table, "select") || str_equal(table, "where") || str_equal(table, "group")
            || str_equal(table, "order") || str_equal(table, "having") || str_equal(
            table,
            "limit",
        ) || str_equal(table, "offset") || str_equal(table, "union") || str_equal(table, "with"))
    }
}

impl Default for QueryAnalyzer {
    fn default() -> Self {
        Self::new()
    }
}

} // verus!
