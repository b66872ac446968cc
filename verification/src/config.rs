//! Telegram configuration values and where the session file lives.

use crate::pathstr::{is_absolute, join, join_spec, parent, parent_spec};
use crate::paths::SESSION_FILE_NAME;
use crate::text::{chars_of, parse_i32, parse_i32_spec, string_of, trim_chars, trim_spec};
use vstd::prelude::*;

verus! {

/// The `[telegram]` table of the configuration file.
#[derive(Debug, Clone)]
pub struct TelegramConfig {
    pub api_id: i32,
    pub api_hash: String,
    pub session_file: String,
}

/// The whole configuration file.
#[derive(Debug, Clone)]
pub struct Config {
    pub telegram: TelegramConfig,
}

/// The `[theme]` table of the layout configuration.
#[derive(Debug, Clone)]
pub struct ThemeConfig {
    pub name: String,
}

/// How `api_id` is written in the configuration file: a number or a string.
#[derive(Debug, Clone)]
pub enum ApiIdValue {
    Number(i32),
    Text(String),
}

pub const API_ID_NOT_INTEGER_ERROR: &'static str = "telegram.api_id must be an integer";

/// The session file name used when the configuration names none.
pub fn default_session_file() -> (r: String)
    ensures
        r@ == SESSION_FILE_NAME@,
{
    String::from_str(SESSION_FILE_NAME)
}

pub open spec fn resolve_api_id_spec(value: ApiIdValue) -> Option<i32> {
    match value {
        ApiIdValue::Number(n) => Some(n),
        ApiIdValue::Text(s) => parse_i32_spec(trim_spec(s@)),
    }
}

/// The `api_id` a configuration value stands for: a number as it is, a string when its
/// trimmed text parses as an `i32`, otherwise the integer error.
pub fn resolve_api_id(value: &ApiIdValue) -> (r: Result<i32, String>)
    ensures
        match value {
            ApiIdValue::Number(n) => r == Ok::<i32, String>(*n),
            ApiIdValue::Text(s) => match parse_i32_spec(trim_spec(s@)) {
                Some(n) => r == Ok::<i32, String>(n),
                None => r is Err && r->Err_0@ == API_ID_NOT_INTEGER_ERROR@,
            },
        },
{
    match value {
        ApiIdValue::Number(n) => Ok(*n),
        ApiIdValue::Text(s) => {
            let trimmed = trim_chars(&chars_of(s.as_str()));
            match parse_i32(&trimmed) {
                Some(n) => Ok(n),
                None => Err(String::from_str(API_ID_NOT_INTEGER_ERROR)),
            }
        },
    }
}

/// `~` stands for the home directory and `~/rest` for `rest` under it, when the home
/// directory is known; any other path is left as it is.
pub open spec fn expand_tilde_spec(path: Seq<char>, home: Option<String>) -> Seq<char> {
    match home {
        Some(h) => if path == "~"@ {
            h@
        } else if path.len() >= 2 && path[0] == '~' && path[1] == '/' {
            join_spec(h@, path.subrange(2, path.len() as int))
        } else {
            path
        },
        None => path,
    }
}

/// Expands a leading `~` in `path` against `home`.
pub fn expand_tilde_with_home(path: &str, home: &Option<String>) -> (r: String)
    ensures
        r@ == expand_tilde_spec(path@, *home),
{
    proof {
        reveal_strlit("~");
    }
    let p = chars_of(path);
    match home {
        Some(h) => {
            if p.len() == 1 && p[0] == '~' {
                assert(p@ =~= "~"@);
                h.clone()
            } else if p.len() >= 2 && p[0] == '~' && p[1] == '/' {
                assert(p@ != "~"@);
                let rest = crate::links::slice_range(&p, 2, p.len());
                let hv = chars_of(h.as_str());
                string_of(crate::pathstr::join_chars(&hv, &rest).as_slice())
            } else {
                assert(p@ != "~"@ || (p@.len() == 1 && p@[0] == '~'));
                String::from_str(path)
            }
        },
        None => String::from_str(path),
    }
}

/// Where the session file lives for a configuration read from `config_path`: an absolute
/// or `~`-prefixed session file as expanded, otherwise relative to the configuration
/// file's directory (when that directory is not empty).
pub open spec fn session_path_spec(
    session_file: Seq<char>,
    config_path: Seq<char>,
    home: Option<String>,
) -> Seq<char> {
    let session_path = expand_tilde_spec(session_file, home);
    if (session_path.len() > 0 && session_path[0] == '/') || (session_file.len() > 0
        && session_file[0] == '~') {
        session_path
    } else {
        match parent_spec(config_path) {
            Some(dir) => if dir.len() > 0 {
                join_spec(dir, session_path)
            } else {
                session_path
            },
            None => session_path,
        }
    }
}

impl TelegramConfig {
    /// The session file's path for a configuration read from `config_path`, given the
    /// home directory.
    pub fn session_path_for_config(&self, config_path: &str, home: &Option<String>) -> (r:
        String)
        ensures
            r@ == session_path_spec(self.session_file@, config_path@, *home),
    {
        let session_path = expand_tilde_with_home(self.session_file.as_str(), home);
        let sf = chars_of(self.session_file.as_str());
        if is_absolute(session_path.as_str()) || (sf.len() > 0 && sf[0] == '~') {
            session_path
        } else {
            match parent(config_path) {
                Some(dir) => {
                    if dir.as_str().is_empty() {
                        session_path
                    } else {
                        join(dir.as_str(), session_path.as_str())
                    }
                },
                None => session_path,
            }
        }
    }

}

impl Default for TelegramConfig {
    /// A configuration with no credentials and the default session file.
    fn default() -> (r: TelegramConfig)
        ensures
            r.api_id == 0,
            r.api_hash@.len() == 0,
            r.session_file@ == SESSION_FILE_NAME@,
    {
        TelegramConfig { api_id: 0, api_hash: String::new(), session_file: default_session_file() }
    }
}

/// The `[telegram]` table as the file spells it: `api_id` as a number or a string, and the
/// session file (written `session_file`, or `session_path` in older files) when given.
#[derive(Debug, Clone)]
pub struct RawTelegramConfig {
    pub api_id: ApiIdValue,
    pub api_hash: String,
    pub session_file: Option<String>,
}

/// The configuration a `[telegram]` table stands for: `api_id` resolved (see
/// `resolve_api_id`, whose error is the only one) and the default session file when none
/// is given.
pub fn telegram_config_from_raw(raw: RawTelegramConfig) -> (r: Result<TelegramConfig, String>)
    ensures
        match resolve_api_id_spec(raw.api_id) {
            Some(id) => r matches Ok(c) && c.api_id == id && c.api_hash == raw.api_hash
                && c.session_file@ == (match raw.session_file {
                    Some(f) => f@,
                    None => SESSION_FILE_NAME@,
                }),
            None => r is Err && r->Err_0@ == API_ID_NOT_INTEGER_ERROR@,
        },
{
    let api_id = match resolve_api_id(&raw.api_id) {
        Ok(id) => id,
        Err(error) => return Err(error),
    };
    let session_file = match raw.session_file {
        Some(file) => file,
        None => default_session_file(),
    };
    Ok(TelegramConfig { api_id, api_hash: raw.api_hash, session_file })
}

} // verus!
