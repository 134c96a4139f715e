use crate::database::manager::key_of;
use crate::database::manager::missing_key_message;
use crate::database::manager::DatabaseManager;
use crate::text::str_concat;
use crate::text::str_chars;
use vstd::prelude::*;

verus! {

/// The number that a run of decimal digits stands for.
pub open spec fn digits_value(s: Seq<char>) -> int
    decreases s.len(),
{
    if s.len() == 0 {
        0
    } else {
        digits_value(s.drop_last()) * 10 + (s.last() as int - '0' as int)
    }
}

/// Whether every character of `s` is a decimal digit.
pub open spec fn all_digits(s: Seq<char>) -> bool {
    forall|i: int| 0 <= i < s.len() ==> '0' <= #[trigger] s[i] <= '9'
}

/// The whole number that a text stands for, as `str::parse::<i64>` of std
/// reads it: an optional sign, then one digit or more and nothing else, and a
/// value that an `i64` holds.
pub open spec fn parsed_i64(s: Seq<char>) -> Option<i64> {
    let negative = s.len() > 0 && s[0] == '-';
    let digits = if s.len() > 0 && (s[0] == '-' || s[0] == '+') {
        s.skip(1)
    } else {
        s
    };
    let value = if negative {
        -digits_value(digits)
    } else {
        digits_value(digits)
    };
    if digits.len() > 0 && all_digits(digits) && i64::MIN <= value <= i64::MAX {
        Some(value as i64)
    } else {
        None
    }
}

/// The value of a run of digits is not negative.
pub proof fn lemma_digits_value_nonnegative(s: Seq<char>)
    requires
        all_digits(s),
    ensures
        digits_value(s) >= 0,
    decreases s.len(),
{
    if s.len() > 0 {
        let t = s.drop_last();
        assert forall|i: int| 0 <= i < t.len() implies '0' <= #[trigger] t[i] <= '9' by {
            assert(t[i] == s[i]);
        }
        lemma_digits_value_nonnegative(t);
        assert('0' <= s[s.len() - 1]);
    }
}

/// The whole number that a text stands for, if it stands for one.
pub fn parse_i64(s: &str) -> (r: Option<i64>)
    ensures
        r == parsed_i64(s@),
{
    let chars = str_chars(s);
    let n = chars.len();
    if n == 0 {
        return None;
    }
    let negative = chars[0] == '-';
    let start: usize = if chars[0] == '-' || chars[0] == '+' {
        1
    } else {
        0
    };
    if start == n {
        assert(s@.skip(1).len() == 0);
        return None;
    }
    let ghost digits = if start == 1 {
        s@.skip(1)
    } else {
        s@
    };
    let limit: i128 = 9223372036854775808;
    let mut value: i128 = 0;
    let mut too_large = false;
    let mut i: usize = start;
    assert(digits.take(0) =~= Seq::empty());
    while i < n
        invariant
            start <= i <= n,
            n == chars.len(),
            chars@ == s@,
            n > 0,
            start <= 1,
            (start == 1) == (s@[0] == '-' || s@[0] == '+'),
            limit == 9223372036854775808,
            digits == (if start == 1 {
                s@.skip(1)
            } else {
                s@
            }),
            digits.len() == n - start,
            all_digits(digits.take(i - start)),
            !too_large ==> 0 <= value <= limit && value == digits_value(digits.take(i - start)),
            too_large ==> digits_value(digits.take(i - start)) > limit,
        decreases n - i,
    {
        let c = chars[i];
        assert(digits[i - start] == c);
        if !('0' <= c && c <= '9') {
            assert(!all_digits(digits));
            return None;
        }
        proof {
            let head = digits.take(i - start + 1);
            assert(head.drop_last() =~= digits.take(i - start));
            assert(head.last() == c);
            assert forall|k: int| 0 <= k < head.len() implies '0' <= #[trigger] head[k] <= '9' by {
                if k < head.len() - 1 {
                    assert(head[k] == digits.take(i - start)[k]);
                }
            }
            lemma_digits_value_nonnegative(digits.take(i - start));
        }
        if !too_large {
            let next: i128 = value * 10 + (c as u32 - '0' as u32) as i128;
            if next > limit {
                too_large = true;
            } else {
                value = next;
            }
        }
        i += 1;
    }
    assert(digits.take(n - start) =~= digits);
    if too_large {
        None
    } else if negative {
        Some((-value) as i64)
    } else if value == limit {
        None
    } else {
        Some(value as i64)
    }
}

/// The value that goes with the placeholder of a lookup.
#[derive(Debug)]
pub enum BindValue {
    Integer(i64),
    Text(String),
}

/// The mathematical content of a [`BindValue`].
pub ghost enum BindView {
    Integer(i64),
    Text(Seq<char>),
}

impl View for BindValue {
    type V = BindView;

    open spec fn view(&self) -> BindView {
        match self {
            BindValue::Integer(i) => BindView::Integer(*i),
            BindValue::Text(t) => BindView::Text(t@),
        }
    }
}

/// What to send to the database to follow a foreign key: a statement with
/// one placeholder, and the value that goes with it.
#[derive(Debug)]
pub struct ForeignKeyQuery {
    pub sql: String,
    pub bind: BindValue,
}

/// The statement that reads the rows of `table` whose `column` has a given
/// value, ten at most.
pub open spec fn lookup_sql(table: Seq<char>, column: Seq<char>) -> Seq<char> {
    "SELECT * FROM \""@ + table + "\" WHERE \""@ + column + "\" = $1 LIMIT 10"@
}

/// The value of a cell as it is bound: as a whole number where it reads as
/// one, else as text.
pub open spec fn bind_of(value: Seq<char>) -> BindView {
    match parsed_i64(value) {
        Some(i) => BindView::Integer(i),
        None => BindView::Text(value),
    }
}

impl DatabaseManager {
    /// What to send to the database to read the rows that the value of a
    /// foreign-key column points to. A column that is no foreign key is an
    /// error.
    pub fn lookup_foreign_key(&self, column_name: &str, value: &str) -> (r: Result<
        ForeignKeyQuery,
        String,
    >)
        ensures
            match r {
                Ok(q) => match key_of(self.schema_cache.entries.deep_view(), column_name@) {
                    Some(info) => q.sql@ == lookup_sql(
                        info.referenced_table,
                        info.referenced_column,
                    ) && q.bind@ == bind_of(value@),
                    None => false,
                },
                Err(message) => key_of(self.schema_cache.entries.deep_view(), column_name@)
                    is None && message@ == missing_key_message(column_name@),
            },
    {
        let fk_info = match self.get_foreign_key_info(column_name) {
            Ok(info) => info,
            Err(e) => {
                return Err(e);
            },
        };
        let a = str_concat("SELECT * FROM \"", fk_info.referenced_table.as_str());
        let b = str_concat(a.as_str(), "\" WHERE \"");
        let c = str_concat(b.as_str(), fk_info.referenced_column.as_str());
        let sql = str_concat(c.as_str(), "\" = $1 LIMIT 10");
        let bind = match parse_i64(value) {
            Some(int_value) => BindValue::Integer(int_value),
            None => BindValue::Text(value.to_owned()),
        };
        Ok(ForeignKeyQuery { sql, bind })
    }
}

} // verus!
