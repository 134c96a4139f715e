use crate::text::starts_with;
use crate::text::str_starts_with;
use vstd::prelude::*;

verus! {

/// The kinds of database that a connection URL can name.
#[derive(Debug, Clone, Copy, PartialEq, Eq, Structural)]
pub enum DatabaseType {
    PostgreSQL,
    MySQL,
    SQLite,
}

/// The kind of database that a URL names by its scheme.
pub open spec fn type_of_url(url: Seq<char>) -> Option<DatabaseType> {
    if starts_with(url, "postgres://"@) || starts_with(url, "postgresql://"@) {
        Some(DatabaseType::PostgreSQL)
    } else if starts_with(url, "mysql://"@) {
        Some(DatabaseType::MySQL)
    } else if starts_with(url, "sqlite://"@) {
        Some(DatabaseType::SQLite)
    } else {
        None
    }
}

impl DatabaseType {
    /// The name of the database's kind, as it stands in a URL.
    pub fn as_str(&self) -> (r: &'static str)
        ensures
            r@ == match self {
                DatabaseType::PostgreSQL => "postgresql"@,
                DatabaseType::MySQL => "mysql"@,
                DatabaseType::SQLite => "sqlite"@,
            },
    {
        match self {
            DatabaseType::PostgreSQL => "postgresql",
            DatabaseType::MySQL => "mysql",
            DatabaseType::SQLite => "sqlite",
        }
    }

    /// The command-line client of the database.
    pub fn get_executable(&self) -> (r: &'static str)
        ensures
            r@ == match self {
                DatabaseType::PostgreSQL => "psql"@,
                DatabaseType::MySQL => "mysql"@,
                DatabaseType::SQLite => "sqlite3"@,
            },
    {
        match self {
            DatabaseType::PostgreSQL => "psql",
            DatabaseType::MySQL => "mysql",
            DatabaseType::SQLite => "sqlite3",
        }
    }

    /// The number of the TCP port on which the database listens by default;
    /// 0 for one that listens on none.
    pub fn get_default_port(&self) -> (r: u16)
        ensures
            r == match self {
                DatabaseType::PostgreSQL => 5432u16,
                DatabaseType::MySQL => 3306u16,
                DatabaseType::SQLite => 0u16,
            },
    {
        match self {
            DatabaseType::PostgreSQL => 5432,
            DatabaseType::MySQL => 3306,
            DatabaseType::SQLite => 0,
        }
    }
}

/// How to reach the database.
#[derive(Debug)]
pub struct DatabaseConfig {
    pub url: Option<String>,
    pub db_type: Option<DatabaseType>,
}

impl Clone for DatabaseConfig {
    fn clone(&self) -> (r: Self)
        ensures
            r == *self,
    {
        DatabaseConfig {
            url: match &self.url {
                Some(u) => Some(u.clone()),
                None => None,
            },
            db_type: self.db_type,
        }
    }
}

impl Default for DatabaseConfig {
    fn default() -> (r: Self)
        ensures
            r.url is None,
            r.db_type is None,
    {
        DatabaseConfig { url: None, db_type: None }
    }
}

impl DatabaseConfig {
    /// A configuration without a URL and without a type.
    pub fn new() -> (r: Self)
        ensures
            r.url is None,
            r.db_type is None,
    {
        DatabaseConfig { url: None, db_type: None }
    }

    /// The configuration with `url` as its URL and the type that the URL names.
    pub fn with_url(self, url: String) -> (r: Self)
        ensures
            r.url == Some(url),
            r.db_type == type_of_url(url@),
    {
        let db_type = Self::detect_type_from_url(url.as_str());
        DatabaseConfig { url: Some(url), db_type }
    }

    /// The type of the database: that which the URL names where there is a
    /// URL, else the one configured.
    pub fn detect_type(&self) -> (r: Option<DatabaseType>)
        ensures
            r == match self.url {
                Some(u) => type_of_url(u@),
                None => self.db_type,
            },
    {
        match &self.url {
            Some(url) => Self::detect_type_from_url(url.as_str()),
            None => self.db_type,
        }
    }

    /// The kind of database that a URL names by its scheme.
    pub fn detect_type_from_url(url: &str) -> (r: Option<DatabaseType>)
        ensures
            r == type_of_url(url@),
    {
        if str_starts_with(url, "postgres://") || str_starts_with(url, "postgresql://") {
            Some(DatabaseType::PostgreSQL)
        } else if str_starts_with(url, "mysql://") {
            Some(DatabaseType::MySQL)
        } else if str_starts_with(url, "sqlite://") {
            Some(DatabaseType::SQLite)
        } else {
            None
        }
    }
}

} // verus!
