use crate::config::db::DatabaseConfig;
use crate::config::db::type_of_url;
use crate::config::parser::DatabaseUrlParser;
use crate::config::parser::url_error;
use crate::config::parser::url_in_line;
use crate::config::settings::Config;
use crate::text::str_concat;
use crate::text::ends_with_char;
use crate::text::lines;
use crate::text::split_lines;
use crate::text::str_chars;
use crate::text::string_of_chars;
use vstd::prelude::*;

verus! {

/// The database URL that one line of an environment file gives, if it gives
/// one that passes validation.
pub open spec fn valid_url_in_line(line: Seq<char>) -> Option<Seq<char>> {
    match url_in_line(line) {
        Some(url) => if url_error(url) is None {
            Some(url)
        } else {
            None
        },
        None => None,
    }
}

/// The database URL that the lines of an environment file give: that of the
/// first line that gives a valid one.
pub open spec fn url_in_lines(ls: Seq<Seq<char>>) -> Option<Seq<char>>
    decreases ls.len(),
{
    if ls.len() == 0 {
        None
    } else {
        match valid_url_in_line(ls[0]) {
            Some(url) => Some(url),
            None => url_in_lines(ls.drop_first()),
        }
    }
}

/// The database URL of a session: that of the environment file where it gives
/// one, else that of the environment.
pub open spec fn chosen_url(env_content: Option<Seq<char>>, env_url: Option<Seq<char>>) -> Option<
    Seq<char>,
> {
    let from_file = match env_content {
        Some(content) => url_in_lines(lines(content)),
        None => None,
    };
    match from_file {
        Some(url) => Some(url),
        None => env_url,
    }
}

/// The path of `name` inside the directory `dir`, with `/` between them
/// unless `dir` is empty or ends with one.
pub open spec fn path_in(dir: Seq<char>, name: Seq<char>) -> Seq<char> {
    if dir.len() == 0 || ends_with_char(dir, '/') {
        dir + name
    } else {
        dir + seq!['/'] + name
    }
}

/// Where the settings are kept.
pub struct ConfigLoader {
    pub config_dir: String,
}

impl ConfigLoader {
    /// A loader for the settings kept in `config_dir`.
    pub fn with_config_dir(config_dir: String) -> (r: Self)
        ensures
            r.config_dir == config_dir,
    {
        Self { config_dir }
    }

    /// The path of the settings file.
    pub fn get_config_path(&self) -> (r: String)
        ensures
            r@ == path_in(self.config_dir@, "config.toml"@),
    {
        let dir = str_chars(self.config_dir.as_str());
        if dir.len() == 0 || dir[dir.len() - 1] == '/' {
            str_concat(self.config_dir.as_str(), "config.toml")
        } else {
            let with_slash = str_concat(self.config_dir.as_str(), "/");
            proof {
                reveal_strlit("/");
                assert("/"@ =~= seq!['/']);
            }
            str_concat(with_slash.as_str(), "config.toml")
        }
    }

    /// The database URL that the text of an environment file gives.
    pub fn load_database_url_from_file(env_content: &str) -> (r: Option<String>)
        ensures
            match r {
                Some(url) => url_in_lines(lines(env_content@)) == Some(url@),
                None => url_in_lines(lines(env_content@)) is None,
            },
    {
        let chars = str_chars(env_content);
        let ls = split_lines(&chars);
        let ghost all = lines(env_content@);
        let mut i: usize = 0;
        assert(all.skip(0) =~= all);
        while i < ls.len()
            invariant
                0 <= i <= ls.len(),
                all == lines(env_content@),
                ls@.len() == all.len(),
                forall|j: int| 0 <= j < ls@.len() ==> (#[trigger] ls@[j])@ == all[j],
                url_in_lines(all) == url_in_lines(all.skip(i as int)),
            decreases ls.len() - i,
        {
            let ghost rest = all.skip(i as int);
            assert(rest[0] == ls@[i as int]@);
            assert(rest.drop_first() =~= all.skip(i + 1));
            let line = string_of_chars(&ls[i]);
            if let Some(url) = DatabaseUrlParser::parse_from_line(line.as_str()) {
                if DatabaseUrlParser::validate_url(url.as_str()).is_ok() {
                    return Some(url);
                }
            }
            i += 1;
        }
        None
    }

    /// The database settings of a session, from the text of the environment
    /// file, where there is one, and from the environment's own
    /// `DATABASE_URL`, where it is set.
    pub fn load_database_config(env_content: Option<&str>, env_url: Option<String>) -> (r:
        DatabaseConfig)
        ensures
            match chosen_url(
                match env_content {
                    Some(c) => Some(c@),
                    None => None,
                },
                match env_url {
                    Some(u) => Some(u@),
                    None => None,
                },
            ) {
                Some(url) => r.url is Some && r.url->0@ == url && r.db_type == type_of_url(url),
                None => r.url is None && r.db_type is None,
            },
    {
        let mut database_config = DatabaseConfig::new();
        if let Some(content) = env_content {
            if let Some(url) = Self::load_database_url_from_file(content) {
                database_config = database_config.with_url(url);
            }
        }
        if database_config.url.is_none() {
            if let Some(url) = env_url {
                database_config = database_config.with_url(url);
            }
        }
        database_config
    }

    /// The settings of a session: those stored, or the defaults where none
    /// are stored, with the environment file's path, the toast level and the
    /// database settings put in.
    pub fn load(
        &self,
        env_file: &str,
        toast_level: String,
        stored: Option<Config>,
        env_content: Option<&str>,
        env_url: Option<String>,
    ) -> (r: Config)
        ensures
            r.env_file@ == env_file@,
            r.toast_level == toast_level,
            match stored {
                Some(c) => r.matrix == c.matrix && r.foreign_keys == c.foreign_keys,
                None => r.matrix.enabled && r.matrix.duration_ms == 6000 && r.matrix.chars@
                    == crate::config::matrix::default_chars() && r.matrix.width == 50
                    && r.matrix.height == 12 && r.foreign_keys.enabled
                    && r.foreign_keys.mapping() == Map::<Seq<char>, Seq<char>>::empty(),
            },
            match chosen_url(
                match env_content {
                    Some(c) => Some(c@),
                    None => None,
                },
                match env_url {
                    Some(u) => Some(u@),
                    None => None,
                },
            ) {
                Some(url) => r.database.url is Some && r.database.url->0@ == url
                    && r.database.db_type == type_of_url(url),
                None => r.database.url is None && r.database.db_type is None,
            },
    {
        let mut config = match stored {
            Some(c) => c,
            None => Config::default(),
        };
        config.env_file = env_file.to_owned();
        config.toast_level = toast_level;
        config.database = Self::load_database_config(env_content, env_url);
        config
    }
}

impl Config {
    /// The settings of a session; see [`ConfigLoader::load`].
    pub fn load(
        env_file: &str,
        toast_level: String,
        stored: Option<Config>,
        env_content: Option<&str>,
        env_url: Option<String>,
    ) -> (r: Config)
        ensures
            r.env_file@ == env_file@,
            r.toast_level == toast_level,
            match stored {
                Some(c) => r.matrix == c.matrix && r.foreign_keys == c.foreign_keys,
                None => r.matrix.enabled && r.matrix.duration_ms == 6000 && r.matrix.chars@
                    == crate::config::matrix::default_chars() && r.matrix.width == 50
                    && r.matrix.height == 12 && r.foreign_keys.enabled
                    && r.foreign_keys.mapping() == Map::<Seq<char>, Seq<char>>::empty(),
            },
            match chosen_url(
                match env_content {
                    Some(c) => Some(c@),
                    None => None,
                },
                match env_url {
                    Some(u) => Some(u@),
                    None => None,
                },
            ) {
                Some(url) => r.database.url is Some && r.database.url->0@ == url
                    && r.database.db_type == type_of_url(url),
                None => r.database.url is None && r.database.db_type is None,
            },
    {
        ConfigLoader::with_config_dir(String::new()).load(
            env_file,
            toast_level,
            stored,
            env_content,
            env_url,
        )
    }
}

} // verus!
