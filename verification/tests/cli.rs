use dumbgram::cli::validate_session_parent;
use dumbgram::cli::{
    check_auth_ok_message, check_auth_unauthorized_message, check_config_message,
    check_config_session_status, is_loading_progress_status, login_2fa_hint_message,
    login_2fa_signed_in_message, login_code_sent_message, login_failed_message,
    login_signed_in_message, parse_args_from, preserve_prompt_input_line_spaces,
    require_prompt_line, require_prompt_response, smoke_ok_message, trim_prompt_input_line,
    validate_config_values, Cli, RunMode, APP_COMMAND, CHECK_AUTH_OK_PREFIX,
    CHECK_CONFIG_AUTH_CONFLICT, CHECK_CONFIG_SESSION_EXISTS_STATUS,
    CHECK_CONFIG_SESSION_WILL_CREATE_STATUS, CLI_USAGE_EXIT_CODE, CONFIG_PATH_ARGUMENT_REQUIRED,
    LOGIN_2FA_ENABLED_STATUS, LOGIN_2FA_HINT_PREFIX, LOGIN_2FA_PROMPT,
    LOGIN_2FA_SIGNED_IN_PREFIX, LOGIN_CODE_PROMPT, LOGIN_CODE_SENT_PREFIX, LOGIN_FAILED_PREFIX,
    LOGIN_HEADER, LOGIN_PHONE_PROMPT, LOGIN_REQUESTING_CODE_STATUS, LOGIN_SESSION_SAVED_STATUS,
    LOGIN_SIGNED_IN_PREFIX, LOGIN_SIGNING_IN_STATUS, LOGIN_START_PROMPT,
    LOG_PATH_ARGUMENT_REQUIRED, PROMPT_EMPTY_ERROR, PROMPT_EOF_ERROR, SETUP_ERROR_EXIT_CODE,
    SMOKE_CHECK_AUTH_CONFLICT, SMOKE_CHECK_CONFIG_CONFLICT, SMOKE_OK_PREFIX,
};
use dumbgram::paths::{default_config_path_string, ConfigEnv};

fn env_config() -> ConfigEnv {
    ConfigEnv {
        dumbgram_config_home: None,
        xdg_config_home: None,
        home: Some("/home/alice".to_string()),
    }
}

fn parse_args<const N: usize>(args: [&str; N]) -> Result<Cli, String> {
    let args: Vec<String> = args.iter().map(|a| a.to_string()).collect();
    parse_args_from(&args, default_config_path_string(&env_config()))
}

fn parse_test_args<const N: usize>(args: [&str; N]) -> Cli {
    parse_args(args).expect("test arguments should parse")
}

#[test]
fn empty_args_use_shared_default_config_path() {
    let cli = parse_test_args([]);

    assert_eq!(cli.config_path, default_config_path_string(&env_config()));
    assert_eq!(cli.config_path, "/home/alice/.config/dumbgram/config.toml");
    assert_eq!(cli.mode, RunMode::RealTelegram);
    assert!(!cli.smoke);
}

#[test]
fn cli_usage_errors_exit_with_standard_misuse_code() {
    assert_eq!(CLI_USAGE_EXIT_CODE, 2);
}

#[test]
fn setup_errors_exit_with_general_failure_code() {
    assert_eq!(SETUP_ERROR_EXIT_CODE, 1);
}

#[test]
fn unknown_argument_points_to_shared_help_command() {
    let err = parse_args(["--wat"]).expect_err("unknown argument should report the help command");

    assert!(err.contains(&format!("`{APP_COMMAND} --help`")));
    assert_eq!(err, format!("unknown argument: --wat\nRun `{APP_COMMAND} --help` for usage."));
}

#[test]
fn config_path_requires_explicit_path_argument() {
    let err = parse_args(["--config", "--smoke"])
        .expect_err("--config should reject another option as its path");

    assert_eq!(err, CONFIG_PATH_ARGUMENT_REQUIRED);
    assert_eq!(parse_args(["-c"]).unwrap_err(), CONFIG_PATH_ARGUMENT_REQUIRED);
}

#[test]
fn log_path_parses_for_runtime_diagnostics() {
    let cli = parse_test_args(["--config", "real.toml", "--log", "dumbgram.log"]);

    assert_eq!(cli.config_path, "real.toml");
    assert_eq!(cli.log_path, Some("dumbgram.log".to_string()));
}

#[test]
fn log_path_requires_explicit_path_argument() {
    let err = parse_args(["--log", "--mock"]).expect_err("--log should reject another option as its path");

    assert_eq!(err, LOG_PATH_ARGUMENT_REQUIRED);
}

#[test]
fn smoke_flag_forces_mock_mode() {
    let cli = parse_test_args(["--smoke"]);

    assert_eq!(cli.mode, RunMode::Mock);
    assert!(cli.smoke);
}

#[test]
fn smoke_flag_overrides_real_config_path_without_real_mode() {
    let cli = parse_test_args(["--config", "real.toml", "--smoke"]);

    assert_eq!(cli.mode, RunMode::Mock);
    assert_eq!(cli.config_path, "real.toml");
    assert!(cli.smoke);
}

#[test]
fn config_path_does_not_imply_mock_without_smoke() {
    let cli = parse_test_args(["--config", "real.toml"]);

    assert_eq!(cli.mode, RunMode::RealTelegram);
    assert_eq!(cli.config_path, "real.toml");
    assert!(!cli.smoke);
}

#[test]
fn check_auth_parses_as_real_opt_in_diagnostic() {
    let cli = parse_test_args(["--check-auth", "--config", "real.toml"]);

    assert!(cli.check_auth);
    assert_eq!(cli.mode, RunMode::RealTelegram);
    assert_eq!(cli.config_path, "real.toml");
}

#[test]
fn help_and_mock_flags_parse() {
    let cli = parse_test_args(["--mock", "-h"]);
    assert_eq!(cli.mode, RunMode::Mock);
    assert!(cli.help);
    assert!(!cli.smoke);
}

#[test]
fn check_auth_messages_use_shared_command_and_prefix() {
    assert_eq!(check_auth_ok_message("session.dat"), format!("{CHECK_AUTH_OK_PREFIX} (session.dat)"));
    assert_eq!(
        check_auth_unauthorized_message("config.toml"),
        format!("Telegram session is not authorized. Run `{APP_COMMAND} --config config.toml` to log in.")
    );
}

#[test]
fn prompt_line_normalization_trims_regular_input_but_preserves_password_spaces() {
    assert_eq!(trim_prompt_input_line("  +123  \n"), "+123");
    assert_eq!(trim_prompt_input_line("  12345  \r\n"), "12345");
    assert_eq!(preserve_prompt_input_line_spaces("  pass phrase  \n"), "  pass phrase  ");
    assert_eq!(preserve_prompt_input_line_spaces("  pass phrase  \r\n"), "  pass phrase  ");
}

#[test]
fn required_prompt_lines_reject_eof() {
    assert_eq!(require_prompt_line(5, "hello".to_string()).unwrap(), "hello");
    assert_eq!(
        require_prompt_line(0, String::new()).expect_err("required prompt should reject EOF"),
        PROMPT_EOF_ERROR
    );
}

#[test]
fn required_prompt_responses_reject_empty_values() {
    assert_eq!(require_prompt_response("value".to_string()).unwrap(), "value");
    assert_eq!(
        require_prompt_response(String::new()).expect_err("required prompt should reject empty responses"),
        PROMPT_EMPTY_ERROR
    );
}

#[test]
fn login_messages_use_shared_prompts_and_prefixes() {
    assert_eq!(LOGIN_HEADER, "\n=== Telegram Login Required ===\n");
    assert!(LOGIN_PHONE_PROMPT.contains("Enter phone number"));
    assert_eq!(LOGIN_REQUESTING_CODE_STATUS, "Requesting login code…");
    assert_eq!(LOGIN_CODE_PROMPT, "Enter verification code: ");
    assert_eq!(LOGIN_SIGNING_IN_STATUS, "Signing in…");
    assert_eq!(LOGIN_2FA_ENABLED_STATUS, "2FA enabled.");
    assert_eq!(LOGIN_2FA_PROMPT, "Enter 2FA password: ");
    assert_eq!(LOGIN_SESSION_SAVED_STATUS, "OK Session saved! Press Enter to start…");
    assert_eq!(LOGIN_START_PROMPT, "");
    assert_eq!(login_code_sent_message("+123"), format!("{LOGIN_CODE_SENT_PREFIX} +123"));
    assert_eq!(login_signed_in_message("Alice"), format!("{LOGIN_SIGNED_IN_PREFIX} Alice"));
    assert_eq!(login_2fa_hint_message("word"), format!("{LOGIN_2FA_HINT_PREFIX} word"));
    assert_eq!(login_2fa_signed_in_message("Alice"), format!("{LOGIN_2FA_SIGNED_IN_PREFIX} Alice"));
    assert_eq!(login_failed_message("denied"), format!("{LOGIN_FAILED_PREFIX}: denied"));
}

#[test]
fn smoke_cannot_be_combined_with_check_config() {
    let err = parse_args(["--smoke", "--check-config"])
        .expect_err("--smoke plus --check-config must be rejected as conflicting exit modes");

    assert_eq!(err, SMOKE_CHECK_CONFIG_CONFLICT);
}

#[test]
fn smoke_cannot_be_combined_with_check_auth() {
    let err = parse_args(["--smoke", "--check-auth"])
        .expect_err("--smoke plus --check-auth must be rejected to keep smoke mock-only");

    assert_eq!(err, SMOKE_CHECK_AUTH_CONFLICT);
}

#[test]
fn check_config_cannot_be_combined_with_check_auth() {
    let err = parse_args(["--check-config", "--check-auth"])
        .expect_err("config and auth diagnostics must be explicit separate commands");

    assert_eq!(err, CHECK_CONFIG_AUTH_CONFLICT);
}

#[test]
fn check_config_session_status_reports_existing_or_pending_session() {
    assert_eq!(check_config_session_status(false), CHECK_CONFIG_SESSION_WILL_CREATE_STATUS);
    assert_eq!(check_config_session_status(true), CHECK_CONFIG_SESSION_EXISTS_STATUS);
}

#[test]
fn check_config_message_uses_shared_session_status() {
    assert_eq!(
        check_config_message("test-config.toml", 42, "/tmp/session.dat", false),
        format!(
            "Config OK: test-config.toml (api_id=42, session_file=/tmp/session.dat [{}])",
            CHECK_CONFIG_SESSION_WILL_CREATE_STATUS
        )
    );
}

#[test]
fn smoke_success_message_uses_shared_prefix() {
    assert_eq!(
        smoke_ok_message(3, 4, 5),
        format!("{SMOKE_OK_PREFIX}: rendered 3 folders, 4 chats, 5 messages and exercised keyboard/mouse interactions")
    );
}

#[test]
fn config_values_are_validated_in_order() {
    assert_eq!(
        validate_config_values(0, "hash", "session.dat", "c.toml").unwrap_err(),
        "telegram.api_id must be set to a positive integer in c.toml"
    );
    assert_eq!(
        validate_config_values(1, "  ", "session.dat", "c.toml").unwrap_err(),
        "telegram.api_hash must be set in c.toml"
    );
    assert_eq!(
        validate_config_values(1, "hash", " ", "c.toml").unwrap_err(),
        "telegram.session_file must be set in c.toml"
    );
    assert!(validate_config_values(1, "hash", "session.dat", "c.toml").is_ok());
}

#[test]
fn loading_statuses_are_recognised_by_prefix() {
    assert!(is_loading_progress_status("Loading chat messages…"));
    assert!(!is_loading_progress_status("Sending message…"));
    assert!(!is_loading_progress_status("Loading"));
}

#[test]
fn session_parent_that_is_a_file_is_refused() {
    assert_eq!(
        validate_session_parent("/tmp/file", true, false),
        Err("telegram.session_file parent path is not a directory: /tmp/file".to_string())
    );
    assert_eq!(validate_session_parent("/tmp/dir", true, true), Ok(()));
    assert_eq!(validate_session_parent("/tmp/missing", false, false), Ok(()));
    assert_eq!(validate_session_parent("", true, false), Ok(()));
}

#[test]
fn config_load_errors_include_starter_config_guidance() {
    let error = dumbgram::cli::config_load_error("/tmp/missing-dumbgram.toml", "No such file or directory (os error 2)");
    assert!(error.contains("failed to load"));
    assert!(error.contains(dumbgram::cli::CONFIG_LOAD_HELP));
    assert_eq!(
        error,
        format!(
            "failed to load /tmp/missing-dumbgram.toml: No such file or directory (os error 2)\n{}",
            dumbgram::cli::CONFIG_LOAD_HELP
        )
    );
}

#[test]
fn config_validation_allows_missing_session_parent_for_launch_creation() {
    assert_eq!(
        dumbgram::cli::validate_config_values(1, "hash", "/tmp/missing-dumbgram-dir/session.dat", "test-config.toml"),
        Ok(())
    );
    assert_eq!(validate_session_parent("/tmp/missing-dumbgram-dir", false, false), Ok(()));
}
