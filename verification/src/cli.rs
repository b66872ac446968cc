//! Command-line arguments and the user-facing messages of the command-line front end.

use crate::text::{chars_of, concat, int_decimal, nat_decimal, str_eq, string_of, trim_chars, trim_spec, u64_to_string, i64_to_string, starts_with};
use vstd::prelude::*;

verus! {

/// Name under which the program is run.
pub const APP_COMMAND: &'static str = "dumbgram_tui";

pub const SMOKE_CHECK_CONFIG_CONFLICT: &'static str =
    "--smoke cannot be combined with --check-config because smoke is mock-only";
pub const SMOKE_CHECK_AUTH_CONFLICT: &'static str =
    "--smoke cannot be combined with --check-auth because smoke is mock-only";
pub const CHECK_CONFIG_AUTH_CONFLICT: &'static str =
    "--check-config cannot be combined with --check-auth; choose one diagnostic";
pub const CONFIG_PATH_ARGUMENT_REQUIRED: &'static str = "--config requires a path argument";
pub const LOG_PATH_ARGUMENT_REQUIRED: &'static str = "--log requires a path argument";
pub const UNKNOWN_ARGUMENT_PREFIX: &'static str = "unknown argument: ";
pub const UNKNOWN_ARGUMENT_SUFFIX: &'static str = "\nRun `dumbgram_tui --help` for usage.";

/// Exit code for command-line usage errors.
pub const CLI_USAGE_EXIT_CODE: i32 = 2;
/// Exit code for configuration and setup failures.
pub const SETUP_ERROR_EXIT_CODE: i32 = 1;

pub const CONFIG_LOAD_HELP: &'static str =
    "Create it from config.example.toml and add your Telegram credentials.";
pub const CHECK_CONFIG_SESSION_EXISTS_STATUS: &'static str = "exists";
pub const CHECK_CONFIG_SESSION_WILL_CREATE_STATUS: &'static str = "will be created on login";
pub const CHECK_AUTH_OK_PREFIX: &'static str = "Auth OK: saved Telegram session is authorized";
pub const LOGIN_HEADER: &'static str = "\n=== Telegram Login Required ===\n";
pub const LOGIN_PHONE_PROMPT: &'static str =
    "Enter phone number (with country code, e.g., +1234567890): ";
pub const LOGIN_REQUESTING_CODE_STATUS: &'static str = "Requesting login code…";
pub const LOGIN_CODE_SENT_PREFIX: &'static str = "OK Code sent to";
pub const LOGIN_CODE_PROMPT: &'static str = "Enter verification code: ";
pub const LOGIN_SIGNING_IN_STATUS: &'static str = "Signing in…";
pub const LOGIN_SIGNED_IN_PREFIX: &'static str = "OK Signed in as:";
pub const LOGIN_2FA_ENABLED_STATUS: &'static str = "2FA enabled.";
pub const LOGIN_2FA_HINT_PREFIX: &'static str = "Hint:";
pub const LOGIN_2FA_PROMPT: &'static str = "Enter 2FA password: ";
pub const LOGIN_2FA_SIGNED_IN_PREFIX: &'static str = "OK Signed in with 2FA as:";
pub const LOGIN_FAILED_PREFIX: &'static str = "Sign in failed";
pub const LOGIN_SESSION_SAVED_STATUS: &'static str = "OK Session saved! Press Enter to start…";
pub const LOGIN_START_PROMPT: &'static str = "";
pub const PROMPT_EOF_ERROR: &'static str = "input ended before a response was entered";
pub const PROMPT_EMPTY_ERROR: &'static str = "input cannot be empty";
pub const SMOKE_OK_PREFIX: &'static str = "Smoke OK";

/// Whether the program talks to Telegram or to built-in mock data.
#[derive(Debug, Clone, Copy, PartialEq, Eq, Structural)]
pub enum RunMode {
    RealTelegram,
    Mock,
}

/// What the command line asks for.
#[derive(Debug)]
pub struct Cli {
    pub mode: RunMode,
    pub config_path: String,
    pub smoke: bool,
    pub check_config: bool,
    pub check_auth: bool,
    pub help: bool,
    pub log_path: Option<String>,
}

/// The mathematical content of a `Cli`.
pub struct CliModel {
    pub mode: RunMode,
    pub config_path: Seq<char>,
    pub smoke: bool,
    pub check_config: bool,
    pub check_auth: bool,
    pub help: bool,
    pub log_path: Option<Seq<char>>,
}

pub open spec fn opt_view(o: Option<String>) -> Option<Seq<char>> {
    match o {
        Some(s) => Some(s@),
        None => None,
    }
}

impl Cli {
    pub open spec fn model(&self) -> CliModel {
        CliModel {
            mode: self.mode,
            config_path: self.config_path@,
            smoke: self.smoke,
            check_config: self.check_config,
            check_auth: self.check_auth,
            help: self.help,
            log_path: opt_view(self.log_path),
        }
    }

    /// Real Telegram mode with the given configuration path and no flags.
    pub fn with_config_path(config_path: String) -> (r: Cli)
        ensures
            r.model() == default_cli_model(config_path@),
    {
        Cli {
            mode: RunMode::RealTelegram,
            config_path,
            smoke: false,
            check_config: false,
            check_auth: false,
            help: false,
            log_path: None,
        }
    }
}

pub open spec fn default_cli_model(config_path: Seq<char>) -> CliModel {
    CliModel {
        mode: RunMode::RealTelegram,
        config_path,
        smoke: false,
        check_config: false,
        check_auth: false,
        help: false,
        log_path: None,
    }
}

/// A value that may follow `--config` or `--log`: present and not starting with `-`.
pub open spec fn path_argument(args: Seq<Seq<char>>, i: int) -> Option<Seq<char>> {
    if 0 <= i < args.len() && !(args[i].len() > 0 && args[i][0] == '-') {
        Some(args[i])
    } else {
        None
    }
}

/// Checks for conflicting diagnostics once every argument is read; `--smoke` implies
/// mock mode.
pub open spec fn finish_spec(cli: CliModel) -> Result<CliModel, Seq<char>> {
    if cli.smoke && cli.check_config {
        Err(SMOKE_CHECK_CONFIG_CONFLICT@)
    } else if cli.smoke && cli.check_auth {
        Err(SMOKE_CHECK_AUTH_CONFLICT@)
    } else if cli.check_config && cli.check_auth {
        Err(CHECK_CONFIG_AUTH_CONFLICT@)
    } else if cli.smoke {
        Ok(CliModel { mode: RunMode::Mock, ..cli })
    } else {
        Ok(cli)
    }
}

/// The command line read from argument `i` on, starting from `cli`.
pub open spec fn parse_from(args: Seq<Seq<char>>, i: int, cli: CliModel) -> Result<
    CliModel,
    Seq<char>,
>
    decreases args.len() - i,
{
    if i < 0 || i >= args.len() {
        finish_spec(cli)
    } else {
        let a = args[i];
        if a == "--mock"@ {
            parse_from(args, i + 1, CliModel { mode: RunMode::Mock, ..cli })
        } else if a == "--smoke"@ {
            parse_from(args, i + 1, CliModel { smoke: true, ..cli })
        } else if a == "--check-config"@ {
            parse_from(args, i + 1, CliModel { check_config: true, ..cli })
        } else if a == "--check-auth"@ {
            parse_from(args, i + 1, CliModel { check_auth: true, ..cli })
        } else if a == "--config"@ || a == "-c"@ {
            match path_argument(args, i + 1) {
                Some(p) => parse_from(args, i + 2, CliModel { config_path: p, ..cli }),
                None => Err(CONFIG_PATH_ARGUMENT_REQUIRED@),
            }
        } else if a == "--log"@ {
            match path_argument(args, i + 1) {
                Some(p) => parse_from(args, i + 2, CliModel { log_path: Some(p), ..cli }),
                None => Err(LOG_PATH_ARGUMENT_REQUIRED@),
            }
        } else if a == "--help"@ || a == "-h"@ {
            parse_from(args, i + 1, CliModel { help: true, ..cli })
        } else {
            Err(UNKNOWN_ARGUMENT_PREFIX@ + a + UNKNOWN_ARGUMENT_SUFFIX@)
        }
    }
}

pub open spec fn args_view(args: Seq<String>) -> Seq<Seq<char>> {
    args.map_values(|s: String| s@)
}

fn finish(cli: Cli) -> (r: Result<Cli, String>)
    ensures
        match r {
            Ok(c) => finish_spec(cli.model()) == Ok::<CliModel, Seq<char>>(c.model()),
            Err(e) => finish_spec(cli.model()) == Err::<CliModel, Seq<char>>(e@),
        },
{
    if cli.smoke && cli.check_config {
        return Err(String::from_str(SMOKE_CHECK_CONFIG_CONFLICT));
    }
    if cli.smoke && cli.check_auth {
        return Err(String::from_str(SMOKE_CHECK_AUTH_CONFLICT));
    }
    if cli.check_config && cli.check_auth {
        return Err(String::from_str(CHECK_CONFIG_AUTH_CONFLICT));
    }
    let mut cli = cli;
    if cli.smoke {
        cli.mode = RunMode::Mock;
    }
    Ok(cli)
}

fn path_arg(args: &Vec<String>, i: usize) -> (r: Option<String>)
    ensures
        match r {
            Some(s) => path_argument(args_view(args@), i as int) == Some(s@),
            None => path_argument(args_view(args@), i as int) is None,
        },
{
    if i < args.len() {
        let v = chars_of(args[i].as_str());
        if v.len() > 0 && v[0] == '-' {
            None
        } else {
            Some(args[i].clone())
        }
    } else {
        None
    }
}

/// Reads the command-line arguments (without the program name); `default_config_path`
/// is the configuration path used when none is given.
pub fn parse_args_from(args: &Vec<String>, default_config_path: String) -> (r: Result<Cli, String>)
    ensures
        match r {
            Ok(c) => parse_from(args_view(args@), 0, default_cli_model(default_config_path@))
                == Ok::<CliModel, Seq<char>>(c.model()),
            Err(e) => parse_from(args_view(args@), 0, default_cli_model(default_config_path@))
                == Err::<CliModel, Seq<char>>(e@),
        },
{
    let ghost av = args_view(args@);
    let mut cli = Cli::with_config_path(default_config_path);
    let mut i: usize = 0;
    while i < args.len()
        invariant
            av == args_view(args@),
            i <= args.len() + 1,
            parse_from(av, 0, default_cli_model(default_config_path@)) == parse_from(
                av,
                i as int,
                cli.model(),
            ),
        decreases args.len() + 1 - i,
    {
        let a = args[i].as_str();
        assert(av[i as int] == a@);
        if str_eq(a, "--mock") {
            cli.mode = RunMode::Mock;
            i += 1;
        } else if str_eq(a, "--smoke") {
            cli.smoke = true;
            i += 1;
        } else if str_eq(a, "--check-config") {
            cli.check_config = true;
            i += 1;
        } else if str_eq(a, "--check-auth") {
            cli.check_auth = true;
            i += 1;
        } else if str_eq(a, "--config") || str_eq(a, "-c") {
            match path_arg(args, i + 1) {
                Some(p) => {
                    cli.config_path = p;
                    i += 2;
                },
                None => return Err(String::from_str(CONFIG_PATH_ARGUMENT_REQUIRED)),
            }
        } else if str_eq(a, "--log") {
            match path_arg(args, i + 1) {
                Some(p) => {
                    cli.log_path = Some(p);
                    i += 2;
                },
                None => return Err(String::from_str(LOG_PATH_ARGUMENT_REQUIRED)),
            }
        } else if str_eq(a, "--help") || str_eq(a, "-h") {
            cli.help = true;
            i += 1;
        } else {
            let e = concat(concat(UNKNOWN_ARGUMENT_PREFIX, a).as_str(), UNKNOWN_ARGUMENT_SUFFIX);
            return Err(e);
        }
    }
    finish(cli)
}

// ----- laws of the whole argument list -----

/// `args[i..]` holds `f`.
pub open spec fn occurs(args: Seq<Seq<char>>, i: int, f: Seq<char>) -> bool {
    exists|j: int| #![trigger args[j]] i <= j < args.len() && args[j] == f
}

/// `--config` or `-c`.
pub open spec fn is_config_flag(a: Seq<char>) -> bool {
    a == "--config"@ || a == "-c"@
}

/// A flag the program knows.
pub open spec fn is_known_flag(a: Seq<char>) -> bool {
    a == "--mock"@ || a == "--smoke"@ || a == "--check-config"@ || a == "--check-auth"@ || is_config_flag(a)
        || a == "--log"@ || a == "--help"@ || a == "-h"@
}

/// A flag followed by a path.
pub open spec fn takes_path(a: Seq<char>) -> bool {
    is_config_flag(a) || a == "--log"@
}

proof fn lemma_occurs_step(args: Seq<Seq<char>>, i: int, f: Seq<char>)
    requires
        0 <= i < args.len(),
    ensures
        occurs(args, i, f) == (args[i] == f || occurs(args, i + 1, f)),
{
    if occurs(args, i, f) && args[i] != f {
        let j = choose|j: int| #![trigger args[j]] i <= j < args.len() && args[j] == f;
        assert(i + 1 <= j);
    }
    if args[i] == f {
        assert(args[i] == f);
    }
}

/// The lengths and leading characters of the flag literals.
proof fn lemma_flag_literals()
    ensures
        "--mock"@.len() == 6 && "--mock"@[0] == '-' && "--mock"@[2] == 'm',
        "--smoke"@.len() == 7 && "--smoke"@[0] == '-',
        "--check-config"@.len() == 14 && "--check-config"@[0] == '-',
        "--check-auth"@.len() == 12 && "--check-auth"@[0] == '-',
        "--config"@.len() == 8 && "--config"@[0] == '-',
        "-c"@.len() == 2 && "-c"@[0] == '-' && "-c"@[1] == 'c',
        "--log"@.len() == 5 && "--log"@[0] == '-',
        "--help"@.len() == 6 && "--help"@[0] == '-' && "--help"@[2] == 'h',
        "-h"@.len() == 2 && "-h"@[0] == '-' && "-h"@[1] == 'h',
{
    reveal_strlit("--mock");
    reveal_strlit("--smoke");
    reveal_strlit("--check-config");
    reveal_strlit("--check-auth");
    reveal_strlit("--config");
    reveal_strlit("-c");
    reveal_strlit("--log");
    reveal_strlit("--help");
    reveal_strlit("-h");
}

proof fn lemma_parse_laws(args: Seq<Seq<char>>, i: int, cli: CliModel)
    requires
        0 <= i,
    ensures
        parse_from(args, i, cli) matches Ok(out) ==> {
            &&& out.smoke == (cli.smoke || occurs(args, i, "--smoke"@))
            &&& (out.mode == RunMode::Mock) == (cli.mode == RunMode::Mock || occurs(args, i, "--mock"@) || out.smoke)
            &&& !(out.smoke && out.check_config) && !(out.smoke && out.check_auth) && !(out.check_config && out.check_auth)
            &&& (forall|j: int| #![trigger args[j]] i <= j < args.len() ==> !is_config_flag(args[j]))
                ==> out.config_path == cli.config_path
            &&& (exists|j: int| #![trigger args[j]] i <= j < args.len() && is_config_flag(args[j])) ==> exists|j: int|
                #![trigger args[j]]
                i <= j && j + 1 < args.len() && is_config_flag(args[j]) && out.config_path == args[j + 1]
                    && forall|k: int| #![trigger args[k]] j < k < args.len() ==> !is_config_flag(args[k])
            &&& forall|k: int| #![trigger args[k]] i <= k < args.len() ==> is_known_flag(args[k]) || (k > i
                && takes_path(args[k - 1]))
        },
    decreases args.len() - i,
{
    lemma_flag_literals();
    if i >= args.len() {
        return;
    }
    let a = args[i];
    lemma_occurs_step(args, i, "--smoke"@);
    lemma_occurs_step(args, i, "--mock"@);
    if a == "--mock"@ || a == "--smoke"@ || a == "--check-config"@ || a == "--check-auth"@ || a == "--help"@ || a == "-h"@ {
        let next = if a == "--mock"@ {
            CliModel { mode: RunMode::Mock, ..cli }
        } else if a == "--smoke"@ {
            CliModel { smoke: true, ..cli }
        } else if a == "--check-config"@ {
            CliModel { check_config: true, ..cli }
        } else if a == "--check-auth"@ {
            CliModel { check_auth: true, ..cli }
        } else {
            CliModel { help: true, ..cli }
        };
        assert(!is_config_flag(a));
        assert(parse_from(args, i, cli) == parse_from(args, i + 1, next));
        lemma_parse_laws(args, i + 1, next);
        if parse_from(args, i, cli) is Ok {
            let out = parse_from(args, i, cli)->Ok_0;
            assert forall|k: int| #![trigger args[k]] i <= k < args.len() implies is_known_flag(args[k]) || (k > i
                && takes_path(args[k - 1])) by {
                if k > i && k - 1 == i {
                    assert(!takes_path(args[k - 1]));
                }
            }
            if exists|j: int| #![trigger args[j]] i <= j < args.len() && is_config_flag(args[j]) {
                let j0 = choose|j: int| #![trigger args[j]] i <= j < args.len() && is_config_flag(args[j]);
                assert(j0 != i);
                assert(i + 1 <= j0 && is_config_flag(args[j0]));
            }
        }
    } else if is_config_flag(a) || a == "--log"@ {
        match path_argument(args, i + 1) {
            Some(p) => {
                let next = if is_config_flag(a) {
                    CliModel { config_path: p, ..cli }
                } else {
                    CliModel { log_path: Some(p), ..cli }
                };
                assert(parse_from(args, i, cli) == parse_from(args, i + 2, next));
                assert(!(p.len() > 0 && p[0] == '-'));
                assert(p != "--smoke"@ && p != "--mock"@);
                assert(!is_config_flag(p));
                lemma_occurs_step(args, i + 1, "--smoke"@);
                lemma_occurs_step(args, i + 1, "--mock"@);
                lemma_parse_laws(args, i + 2, next);
                if parse_from(args, i, cli) is Ok {
                    let out = parse_from(args, i, cli)->Ok_0;
                    assert forall|k: int| #![trigger args[k]] i <= k < args.len() implies is_known_flag(args[k]) || (k
                        > i && takes_path(args[k - 1])) by {
                        if k == i + 1 {
                            assert(takes_path(args[i]));
                        }
                    }
                    if is_config_flag(a) {
                        if !(exists|j: int| #![trigger args[j]] i + 2 <= j < args.len() && is_config_flag(args[j])) {
                            assert(i + 1 < args.len() && is_config_flag(args[i]) && out.config_path == args[i + 1]);
                            assert forall|k: int| #![trigger args[k]] i < k < args.len() implies !is_config_flag(args[k]) by {
                                if k == i + 1 {
                                    assert(args[k] == p);
                                }
                            }
                        }
                    } else {
                        if exists|j: int| #![trigger args[j]] i <= j < args.len() && is_config_flag(args[j]) {
                            let j0 = choose|j: int| #![trigger args[j]] i <= j < args.len() && is_config_flag(args[j]);
                            assert(j0 != i);
                            assert(j0 != i + 1);
                            assert(i + 2 <= j0 && is_config_flag(args[j0]));
                        }
                    }
                }
            },
            None => {},
        }
    }
}

/// The laws of a whole argument list that reads without error: at most one of
/// `--smoke`, `--check-config` and `--check-auth` is given; `--smoke` is asked for exactly
/// when it occurs; mock mode is on exactly when `--mock` or `--smoke` occurs; the
/// configuration path is the one after the last `--config` or `-c`, else the default; and
/// every argument is a known flag or the path after `--config`, `-c` or `--log`.
pub proof fn lemma_parse_args_laws(args: Seq<Seq<char>>, default_config_path: Seq<char>)
    ensures
        parse_from(args, 0, default_cli_model(default_config_path)) matches Ok(out) ==> {
            &&& !(out.smoke && out.check_config) && !(out.smoke && out.check_auth) && !(out.check_config && out.check_auth)
            &&& out.smoke == occurs(args, 0, "--smoke"@)
            &&& (out.mode == RunMode::Mock) == (occurs(args, 0, "--mock"@) || occurs(args, 0, "--smoke"@))
            &&& (forall|j: int| #![trigger args[j]] 0 <= j < args.len() ==> !is_config_flag(args[j]))
                ==> out.config_path == default_config_path
            &&& (exists|j: int| #![trigger args[j]] 0 <= j < args.len() && is_config_flag(args[j])) ==> exists|j: int|
                #![trigger args[j]]
                0 <= j && j + 1 < args.len() && is_config_flag(args[j]) && out.config_path == args[j + 1]
                    && forall|k: int| #![trigger args[k]] j < k < args.len() ==> !is_config_flag(args[k])
            &&& forall|k: int| #![trigger args[k]] 0 <= k < args.len() ==> is_known_flag(args[k]) || (k > 0 && takes_path(
                args[k - 1],
            ))
        },
{
    lemma_parse_laws(args, 0, default_cli_model(default_config_path));
}

/// The session file's state shown by the configuration check.
pub fn check_config_session_status(session_exists: bool) -> (r: &'static str)
    ensures
        session_exists ==> r@ == CHECK_CONFIG_SESSION_EXISTS_STATUS@,
        !session_exists ==> r@ == CHECK_CONFIG_SESSION_WILL_CREATE_STATUS@,
{
    if session_exists {
        CHECK_CONFIG_SESSION_EXISTS_STATUS
    } else {
        CHECK_CONFIG_SESSION_WILL_CREATE_STATUS
    }
}

pub open spec fn session_status_spec(session_exists: bool) -> Seq<char> {
    if session_exists {
        CHECK_CONFIG_SESSION_EXISTS_STATUS@
    } else {
        CHECK_CONFIG_SESSION_WILL_CREATE_STATUS@
    }
}

/// `Config OK: <config path> (api_id=<id>, session_file=<session path> [<status>])`.
pub fn check_config_message(
    config_path: &str,
    api_id: i32,
    session_path: &str,
    session_exists: bool,
) -> (r: String)
    ensures
        r@ == "Config OK: "@ + config_path@ + " (api_id="@ + int_decimal(api_id as int)
            + ", session_file="@ + session_path@ + " ["@ + session_status_spec(session_exists)
            + "])"@,
{
    let id = i64_to_string(api_id as i64);
    let r = concat("Config OK: ", config_path);
    let r = concat(r.as_str(), " (api_id=");
    let r = concat(r.as_str(), id.as_str());
    let r = concat(r.as_str(), ", session_file=");
    let r = concat(r.as_str(), session_path);
    let r = concat(r.as_str(), " [");
    let r = concat(r.as_str(), check_config_session_status(session_exists));
    concat(r.as_str(), "])")
}

/// `<ok prefix> (<session path>)`.
pub fn check_auth_ok_message(session_path: &str) -> (r: String)
    ensures
        r@ == CHECK_AUTH_OK_PREFIX@ + " ("@ + session_path@ + ")"@,
{
    let r = concat(CHECK_AUTH_OK_PREFIX, " (");
    let r = concat(r.as_str(), session_path);
    concat(r.as_str(), ")")
}

/// Tells the user to log in with the given configuration.
pub fn check_auth_unauthorized_message(config_path: &str) -> (r: String)
    ensures
        r@ == "Telegram session is not authorized. Run `dumbgram_tui --config "@ + config_path@
            + "` to log in."@,
{
    let r = concat("Telegram session is not authorized. Run `dumbgram_tui --config ", config_path);
    concat(r.as_str(), "` to log in.")
}

fn prefixed(prefix: &str, value: &str) -> (r: String)
    ensures
        r@ == prefix@ + " "@ + value@,
{
    let r = concat(prefix, " ");
    concat(r.as_str(), value)
}

pub fn login_code_sent_message(phone: &str) -> (r: String)
    ensures
        r@ == LOGIN_CODE_SENT_PREFIX@ + " "@ + phone@,
{
    prefixed(LOGIN_CODE_SENT_PREFIX, phone)
}

pub fn login_signed_in_message(first_name: &str) -> (r: String)
    ensures
        r@ == LOGIN_SIGNED_IN_PREFIX@ + " "@ + first_name@,
{
    prefixed(LOGIN_SIGNED_IN_PREFIX, first_name)
}

pub fn login_2fa_hint_message(hint: &str) -> (r: String)
    ensures
        r@ == LOGIN_2FA_HINT_PREFIX@ + " "@ + hint@,
{
    prefixed(LOGIN_2FA_HINT_PREFIX, hint)
}

pub fn login_2fa_signed_in_message(first_name: &str) -> (r: String)
    ensures
        r@ == LOGIN_2FA_SIGNED_IN_PREFIX@ + " "@ + first_name@,
{
    prefixed(LOGIN_2FA_SIGNED_IN_PREFIX, first_name)
}

/// `Sign in failed: <error>`.
pub fn login_failed_message(error: &str) -> (r: String)
    ensures
        r@ == LOGIN_FAILED_PREFIX@ + ": "@ + error@,
{
    let r = concat(LOGIN_FAILED_PREFIX, ": ");
    concat(r.as_str(), error)
}

/// The smoke run's success line.
pub fn smoke_ok_message(folder_count: u64, chat_count: u64, message_count: u64) -> (r: String)
    ensures
        r@ == SMOKE_OK_PREFIX@ + ": rendered "@ + nat_decimal(folder_count as nat) + " folders, "@
            + nat_decimal(chat_count as nat) + " chats, "@ + nat_decimal(message_count as nat)
            + " messages and exercised keyboard/mouse interactions"@,
{
    let r = concat(SMOKE_OK_PREFIX, ": rendered ");
    let r = concat(r.as_str(), u64_to_string(folder_count).as_str());
    let r = concat(r.as_str(), " folders, ");
    let r = concat(r.as_str(), u64_to_string(chat_count).as_str());
    let r = concat(r.as_str(), " chats, ");
    let r = concat(r.as_str(), u64_to_string(message_count).as_str());
    concat(r.as_str(), " messages and exercised keyboard/mouse interactions")
}

/// A line without one trailing `\r\n`, `\n` or `\r`.
pub open spec fn strip_line_ending_spec(line: Seq<char>) -> Seq<char> {
    let n = line.len() as int;
    if n >= 2 && line[n - 2] == '\r' && line[n - 1] == '\n' {
        line.subrange(0, n - 2)
    } else if n >= 1 && (line[n - 1] == '\n' || line[n - 1] == '\r') {
        line.subrange(0, n - 1)
    } else {
        line
    }
}

pub fn strip_prompt_line_ending(line: &str) -> (r: String)
    ensures
        r@ == strip_line_ending_spec(line@),
{
    let v = chars_of(line);
    let n = v.len();
    if n >= 2 && v[n - 2] == '\r' && v[n - 1] == '\n' {
        string_of(crate::links::slice_range(&v, 0, n - 2).as_slice())
    } else if n >= 1 && (v[n - 1] == '\n' || v[n - 1] == '\r') {
        string_of(crate::links::slice_range(&v, 0, n - 1).as_slice())
    } else {
        String::from_str(line)
    }
}

/// A typed response without its line ending and surrounding whitespace.
pub fn trim_prompt_input_line(line: &str) -> (r: String)
    ensures
        r@ == trim_spec(strip_line_ending_spec(line@)),
{
    let stripped = strip_prompt_line_ending(line);
    string_of(trim_chars(&chars_of(stripped.as_str())).as_slice())
}

/// A typed response without its line ending; spaces are kept (passwords).
pub fn preserve_prompt_input_line_spaces(line: &str) -> (r: String)
    ensures
        r@ == strip_line_ending_spec(line@),
{
    strip_prompt_line_ending(line)
}

/// A line read from the terminal; reading zero bytes means the input ended.
pub fn require_prompt_line(bytes_read: usize, line: String) -> (r: Result<String, String>)
    ensures
        bytes_read == 0 ==> r is Err && r->Err_0@ == PROMPT_EOF_ERROR@,
        bytes_read != 0 ==> r is Ok && r->Ok_0@ == line@,
{
    if bytes_read == 0 {
        Err(String::from_str(PROMPT_EOF_ERROR))
    } else {
        Ok(line)
    }
}

/// A response that must not be empty.
pub fn require_prompt_response(response: String) -> (r: Result<String, String>)
    ensures
        response@.len() == 0 ==> r is Err && r->Err_0@ == PROMPT_EMPTY_ERROR@,
        response@.len() != 0 ==> r is Ok && r->Ok_0@ == response@,
{
    if response.as_str().is_empty() {
        Err(String::from_str(PROMPT_EMPTY_ERROR))
    } else {
        Ok(response)
    }
}

/// Progress statuses of the form `Loading …` are not shown as a banner.
pub fn is_loading_progress_status(status: &str) -> (r: bool)
    ensures
        r == ("Loading "@.len() <= status@.len() && status@.subrange(0, "Loading "@.len() as int)
            == "Loading "@),
{
    starts_with(status, "Loading ")
}

/// The error for a configuration file that could not be loaded: the path, the reason,
/// and how to create a starter configuration.
pub fn config_load_error(config_path: &str, error: &str) -> (r: String)
    ensures
        r@ == "failed to load "@ + config_path@ + ": "@ + error@ + "\n"@ + CONFIG_LOAD_HELP@,
{
    let r = concat("failed to load ", config_path);
    let r = concat(r.as_str(), ": ");
    let r = concat(r.as_str(), error);
    let r = concat(r.as_str(), "\n");
    concat(r.as_str(), CONFIG_LOAD_HELP)
}

/// The first problem with the configuration's Telegram values, if any: a non-positive
/// `api_id`, then a blank `api_hash`, then a blank `session_file`.
pub fn validate_config_values(
    api_id: i32,
    api_hash: &str,
    session_file: &str,
    config_path: &str,
) -> (r: Result<(), String>)
    ensures
        api_id <= 0 ==> r is Err && r->Err_0@
            == "telegram.api_id must be set to a positive integer in "@ + config_path@,
        api_id > 0 && trim_spec(api_hash@).len() == 0 ==> r is Err && r->Err_0@
            == "telegram.api_hash must be set in "@ + config_path@,
        api_id > 0 && trim_spec(api_hash@).len() != 0 && trim_spec(session_file@).len() == 0
            ==> r is Err && r->Err_0@ == "telegram.session_file must be set in "@ + config_path@,
        api_id > 0 && trim_spec(api_hash@).len() != 0 && trim_spec(session_file@).len() != 0
            ==> r is Ok,
{
    if api_id <= 0 {
        return Err(concat("telegram.api_id must be set to a positive integer in ", config_path));
    }
    if trim_chars(&chars_of(api_hash)).len() == 0 {
        return Err(concat("telegram.api_hash must be set in ", config_path));
    }
    if trim_chars(&chars_of(session_file)).len() == 0 {
        return Err(concat("telegram.session_file must be set in ", config_path));
    }
    Ok(())
}

/// The directory of the session file must be a directory where it exists. Given that
/// directory as shown (empty when the session file has none), whether it exists and
/// whether it is a directory: the error to report, if any.
pub fn validate_session_parent(parent: &str, exists: bool, is_dir: bool) -> (r: Result<(), String>)
    ensures
        parent@.len() > 0 && exists && !is_dir ==> r is Err && r->Err_0@
            == "telegram.session_file parent path is not a directory: "@ + parent@,
        !(parent@.len() > 0 && exists && !is_dir) ==> r is Ok,
{
    if chars_of(parent).len() > 0 && exists && !is_dir {
        return Err(concat("telegram.session_file parent path is not a directory: ", parent));
    }
    Ok(())
}

} // verus!
