use crate::text::contains;
use crate::text::ends_with_char;
use crate::text::first_index_of;
use crate::text::range_first_index_of;
use crate::text::starts_with_char;
use crate::text::str_chars;
use crate::text::str_contains;
use crate::text::string_of_range;
use crate::text::trim;
use crate::text::trim_bounds;
use crate::text::chars_equal;
use vstd::prelude::*;

verus! {

/// The value that a line of an environment file gives to `DATABASE_URL`: what
/// stands after the first `=`, trimmed, where the trimmed text before it is
/// that name and the value is not empty.
pub open spec fn url_in_line(line: Seq<char>) -> Option<Seq<char>> {
    let t = trim(line);
    let k = first_index_of(t, '=');
    if k < t.len() && trim(t.take(k)) == "DATABASE_URL"@ && trim(t.skip(k + 1)).len() > 0 {
        Some(trim(t.skip(k + 1)))
    } else {
        None
    }
}

/// Why a database URL is refused, if it is: the first of the checks that it
/// fails.
pub open spec fn url_error(url: Seq<char>) -> Option<Seq<char>> {
    if url.len() == 0 {
        Some("Database URL cannot be empty"@)
    } else if starts_with_char(url, '"') || ends_with_char(url, '"') {
        Some("Database URL contains quotes - check your .env file formatting"@)
    } else if starts_with_char(url, '\'') || ends_with_char(url, '\'') {
        Some("Database URL contains single quotes - check your .env file formatting"@)
    } else if !contains(url, "://"@) {
        Some("Invalid URL format: missing protocol"@)
    } else {
        None
    }
}

/// Reads and checks the database URL of an environment file.
pub struct DatabaseUrlParser;

impl DatabaseUrlParser {
    /// The database URL that a line of an environment file sets, if it sets
    /// one.
    pub fn parse_from_line(line: &str) -> (r: Option<String>)
        ensures
            match r {
                Some(url) => url_in_line(line@) == Some(url@),
                None => url_in_line(line@) is None,
            },
    {
        let chars = str_chars(line);
        let n = chars.len();
        assert(chars@.subrange(0, n as int) =~= chars@);
        let (a, b) = trim_bounds(&chars, 0, n);
        let ghost t = chars@.subrange(a as int, b as int);
        let k = range_first_index_of(&chars, a, b, '=');
        if k < b - a {
            let (ka, kb) = trim_bounds(&chars, a, a + k);
            let key = crate::text::copy_range(&chars, ka, kb);
            let name = str_chars("DATABASE_URL");
            proof {
                assert(t.take(k as int) =~= chars@.subrange(a as int, a + k));
                assert(t.skip(k + 1) =~= chars@.subrange(a + k + 1, b as int));
            }
            if chars_equal(&key, &name) {
                let (va, vb) = trim_bounds(&chars, a + k + 1, b);
                return Self::extract_value(&chars, va, vb);
            }
        }
        None
    }

    /// The value `chars[from..to]`, already trimmed, unless it is empty.
    fn extract_value(chars: &Vec<char>, from: usize, to: usize) -> (r: Option<String>)
        requires
            from <= to <= chars.len(),
        ensures
            match r {
                Some(value) => from < to && value@ == chars@.subrange(from as int, to as int),
                None => from == to,
            },
    {
        if from < to {
            Some(string_of_range(chars, from, to))
        } else {
            None
        }
    }

    /// Accepts a database URL that is not empty, carries no quote at either
    /// end, and names a protocol.
    pub fn validate_url(url: &str) -> (r: Result<(), String>)
        ensures
            match r {
                Ok(_) => url_error(url@) is None,
                Err(message) => url_error(url@) == Some(message@),
            },
    {
        let chars = str_chars(url);
        let n = chars.len();
        if n == 0 {
            return Err("Database URL cannot be empty".to_owned());
        }
        if chars[0] == '"' || chars[n - 1] == '"' {
            return Err(
                "Database URL contains quotes - check your .env file formatting".to_owned(),
            );
        }
        if chars[0] == '\'' || chars[n - 1] == '\'' {
            return Err(
                "Database URL contains single quotes - check your .env file formatting".to_owned(),
            );
        }
        if !str_contains(url, "://") {
            return Err("Invalid URL format: missing protocol".to_owned());
        }
        Ok(())
    }
}

} // verus!
