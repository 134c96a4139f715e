use crate::config::db::DatabaseConfig;
use crate::config::db::DatabaseType;
use crate::config::db::type_of_url;
use crate::config::fk::ForeignKeyConfig;
use crate::config::matrix::MatrixConfig;
use crate::config::matrix::default_chars;
use vstd::prelude::*;

verus! {

/// The settings of a session.
#[derive(Debug)]
pub struct Config {
    pub env_file: String,
    pub matrix: MatrixConfig,
    pub foreign_keys: ForeignKeyConfig,
    pub database: DatabaseConfig,
    pub toast_level: String,
}

impl Default for Config {
    fn default() -> (r: Self)
        ensures
            r.env_file@ == ".env"@,
            r.matrix.enabled,
            r.matrix.duration_ms == 6000,
            r.matrix.chars@ == default_chars(),
            r.matrix.width == 50,
            r.matrix.height == 12,
            r.foreign_keys.enabled,
            r.foreign_keys.mapping() == Map::<Seq<char>, Seq<char>>::empty(),
            r.database.url is None,
            r.database.db_type is None,
            r.toast_level@ == "ERROR"@,
    {
        Self {
            env_file: ".env".to_owned(),
            matrix: MatrixConfig::default(),
            foreign_keys: ForeignKeyConfig::default(),
            database: DatabaseConfig::default(),
            toast_level: "ERROR".to_owned(),
        }
    }
}

impl Clone for Config {
    fn clone(&self) -> (r: Self)
        ensures
            r.env_file == self.env_file,
            r.matrix == self.matrix,
            r.foreign_keys.enabled == self.foreign_keys.enabled,
            r.foreign_keys.mapping() == self.foreign_keys.mapping(),
            r.database == self.database,
            r.toast_level == self.toast_level,
    {
        Self {
            env_file: self.env_file.clone(),
            matrix: self.matrix.clone(),
            foreign_keys: self.foreign_keys.clone(),
            database: self.database.clone(),
            toast_level: self.toast_level.clone(),
        }
    }
}

impl Config {
    /// The URL of the database, where one is configured.
    pub fn get_database_url(&self) -> (r: Option<&str>)
        ensures
            match r {
                Some(url) => self.database.url is Some && url@ == self.database.url->0@,
                None => self.database.url is None,
            },
    {
        match &self.database.url {
            Some(url) => Some(url.as_str()),
            None => None,
        }
    }

    /// The type of the configured database.
    pub fn detect_database_type(&self) -> (r: Option<DatabaseType>)
        ensures
            r == match self.database.url {
                Some(u) => type_of_url(u@),
                None => self.database.db_type,
            },
    {
        self.database.detect_type()
    }
}

} // verus!
