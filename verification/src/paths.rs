//! Where the configuration lives, decided from the relevant environment values.

use crate::pathstr::{join, join_spec};
use vstd::prelude::*;

verus! {

/// Name of the application's configuration directory.
pub const APP_CONFIG_DIR_NAME: &'static str = "dumbgram";

/// Name of the configuration file inside that directory.
pub const CONFIG_FILE_NAME: &'static str = "config.toml";

/// Default name of the Telegram session file.
pub const SESSION_FILE_NAME: &'static str = "session.dat";

/// The environment values that decide the configuration directory.
#[derive(Debug, Clone)]
pub struct ConfigEnv {
    /// `DUMBGRAM_CONFIG_HOME`
    pub dumbgram_config_home: Option<String>,
    /// `XDG_CONFIG_HOME`
    pub xdg_config_home: Option<String>,
    /// `HOME`
    pub home: Option<String>,
}

/// A variable that is set to a non-empty value.
pub open spec fn non_empty_spec(v: Option<String>) -> Option<Seq<char>> {
    match v {
        Some(s) => if s@.len() > 0 {
            Some(s@)
        } else {
            None
        },
        None => None,
    }
}

pub open spec fn platform_config_root_spec(env: ConfigEnv) -> Option<Seq<char>> {
    match non_empty_spec(env.xdg_config_home) {
        Some(x) => Some(x),
        None => match non_empty_spec(env.home) {
            Some(h) => Some(join_spec(h, ".config"@)),
            None => None,
        },
    }
}

pub open spec fn app_config_dir_spec(env: ConfigEnv) -> Seq<char> {
    match non_empty_spec(env.dumbgram_config_home) {
        Some(d) => d,
        None => match platform_config_root_spec(env) {
            Some(root) => join_spec(root, APP_CONFIG_DIR_NAME@),
            None => APP_CONFIG_DIR_NAME@,
        },
    }
}

fn non_empty(v: &Option<String>) -> (r: Option<String>)
    ensures
        match r {
            Some(s) => non_empty_spec(*v) == Some(s@),
            None => non_empty_spec(*v) is None,
        },
{
    match v {
        Some(s) => if s.as_str().is_empty() {
            None
        } else {
            Some(s.clone())
        },
        None => None,
    }
}

/// The base configuration directory: `XDG_CONFIG_HOME` when set, else `HOME/.config`.
pub fn platform_config_root(env: &ConfigEnv) -> (r: Option<String>)
    ensures
        match r {
            Some(s) => platform_config_root_spec(*env) == Some(s@),
            None => platform_config_root_spec(*env) is None,
        },
{
    match non_empty(&env.xdg_config_home) {
        Some(x) => Some(x),
        None => match non_empty(&env.home) {
            Some(h) => Some(join(h.as_str(), ".config")),
            None => None,
        },
    }
}

/// The application's configuration directory: `DUMBGRAM_CONFIG_HOME` when set, else the
/// `dumbgram` directory under the platform configuration root, else `dumbgram`.
pub fn app_config_dir(env: &ConfigEnv) -> (r: String)
    ensures
        r@ == app_config_dir_spec(*env),
{
    match non_empty(&env.dumbgram_config_home) {
        Some(d) => d,
        None => match platform_config_root(env) {
            Some(root) => join(root.as_str(), APP_CONFIG_DIR_NAME),
            None => String::from_str(APP_CONFIG_DIR_NAME),
        },
    }
}

/// `config.toml` inside the application's configuration directory.
pub fn default_config_path(env: &ConfigEnv) -> (r: String)
    ensures
        r@ == join_spec(app_config_dir_spec(*env), CONFIG_FILE_NAME@),
{
    let dir = app_config_dir(env);
    join(dir.as_str(), CONFIG_FILE_NAME)
}

/// The default configuration path as text, as the help output and error messages show it.
pub fn default_config_path_string(env: &ConfigEnv) -> (r: String)
    ensures
        r@ == join_spec(app_config_dir_spec(*env), CONFIG_FILE_NAME@),
{
    default_config_path(env)
}

/// `Downloads` under the home directory, or a relative `Downloads` without one.
pub fn default_download_dir(home: &Option<String>) -> (r: String)
    ensures
        r@ == match home {
            Some(h) => join_spec(h@, "Downloads"@),
            None => "Downloads"@,
        },
{
    match home {
        Some(h) => join(h.as_str(), "Downloads"),
        None => String::from_str("Downloads"),
    }
}

} // verus!
