use crate::database::query_result::ForeignKeyInfo;
use crate::database::query_result::ForeignKeyView;
use crate::text::str_concat;
use crate::text::str_equal;
use vstd::prelude::*;

verus! {

/// The foreign keys of a schema, in the order in which they were found.
#[derive(Debug)]
pub struct SchemaCache {
    pub entries: Vec<ForeignKeyInfo>,
}

/// The index of the first foreign key on `column`, or `entries.len()` where
/// the column has none.
pub open spec fn key_position(entries: Seq<ForeignKeyView>, column: Seq<char>) -> int
    decreases entries.len(),
{
    if entries.len() == 0 || entries[0].column_name == column {
        0
    } else {
        1 + key_position(entries.drop_first(), column)
    }
}

/// The first foreign key on a column is where no earlier one is on it.
pub proof fn lemma_key_position_is(entries: Seq<ForeignKeyView>, column: Seq<char>, k: int)
    requires
        0 <= k <= entries.len(),
        forall|i: int| 0 <= i < k ==> entries[i].column_name != column,
        k < entries.len() ==> entries[k].column_name == column,
    ensures
        key_position(entries, column) == k,
    decreases entries.len(),
{
    if entries.len() == 0 || entries[0].column_name == column {
    } else {
        let t = entries.drop_first();
        assert forall|i: int| 0 <= i < k - 1 implies t[i].column_name != column by {
            assert(t[i] == entries[i + 1]);
        }
        lemma_key_position_is(t, column, k - 1);
    }
}

/// The foreign key that a schema records for `column`: the first one found.
pub open spec fn key_of(entries: Seq<ForeignKeyView>, column: Seq<char>) -> Option<
    ForeignKeyView,
> {
    let k = key_position(entries, column);
    if 0 <= k < entries.len() {
        Some(entries[k])
    } else {
        None
    }
}

/// The message for a column without a foreign key.
pub open spec fn missing_key_message(column: Seq<char>) -> Seq<char> {
    "No foreign key info for column: "@ + column
}

impl SchemaCache {
    /// A schema without foreign keys.
    pub fn new() -> (r: Self)
        ensures
            r.entries.deep_view() == Seq::<ForeignKeyView>::empty(),
    {
        let r = SchemaCache { entries: Vec::new() };
        assert(r.entries.deep_view() =~= Seq::empty());
        r
    }

    /// Records one more foreign key, after those already known.
    pub fn insert(&mut self, info: ForeignKeyInfo)
        ensures
            final(self).entries.deep_view() == old(self).entries.deep_view().push(info@),
    {
        self.entries.push(info);
        assert(self.entries.deep_view() =~= old(self).entries.deep_view().push(info@));
    }

    /// The first foreign key recorded for `column_name`.
    pub fn get(&self, column_name: &str) -> (r: Option<&ForeignKeyInfo>)
        ensures
            match r {
                Some(info) => key_of(self.entries.deep_view(), column_name@) == Some(info@),
                None => key_of(self.entries.deep_view(), column_name@) is None,
            },
    {
        let ghost es = self.entries.deep_view();
        let mut i: usize = 0;
        while i < self.entries.len()
            invariant
                0 <= i <= self.entries.len(),
                es == self.entries.deep_view(),
                forall|k: int| 0 <= k < i ==> es[k].column_name != column_name@,
            decreases self.entries.len() - i,
        {
            assert(es[i as int] == self.entries@[i as int]@);
            if str_equal(self.entries[i].column_name.as_str(), column_name) {
                proof {
                    lemma_key_position_is(es, column_name@, i as int);
                }
                return Some(&self.entries[i]);
            }
            i += 1;
        }
        proof {
            lemma_key_position_is(es, column_name@, es.len() as int);
        }
        None
    }
}

/// What the session knows of the database without asking it: the foreign keys
/// of its schema, read once when the connection was made.
#[derive(Debug)]
pub struct DatabaseManager {
    pub schema_cache: SchemaCache,
}

impl DatabaseManager {
    /// What is known of a database whose schema has the given foreign keys.
    pub fn new(schema_cache: SchemaCache) -> (r: Self)
        ensures
            r.schema_cache == schema_cache,
    {
        Self { schema_cache }
    }

    /// The foreign key of a column. A column without one is an error, with a
    /// message that names it.
    pub fn get_foreign_key_info(&self, column_name: &str) -> (r: Result<&ForeignKeyInfo, String>)
        ensures
            match r {
                Ok(info) => key_of(self.schema_cache.entries.deep_view(), column_name@) == Some(
                    info@,
                ),
                Err(message) => key_of(self.schema_cache.entries.deep_view(), column_name@)
                    is None && message@ == missing_key_message(column_name@),
            },
    {
        match self.schema_cache.get(column_name) {
            Some(info) => Ok(info),
            None => Err(str_concat("No foreign key info for column: ", column_name)),
        }
    }
}

} // verus!
