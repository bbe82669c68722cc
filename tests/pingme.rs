use pingme::config::{config_location, Config, ConfigLocation};
use pingme::error::{ConfigField, PingError};
use pingme::message::{command_message, Invocation, Plan};
use pingme::notify::prepare;
use pingme::response::{interpret_response, report};
use pingme::text::{decimal_string, join_words};

fn words(ws: &[&str]) -> Vec<String> {
    ws.iter().map(|w| w.to_string()).collect()
}

fn config() -> Config {
    Config { app_token: "app123".to_string(), user_token: "user456".to_string() }
}

#[test]
fn join_puts_single_spaces_between_words() {
    assert_eq!(join_words(&words(&["hello", "there", "world"])), "hello there world");
    assert_eq!(join_words(&words(&["alone"])), "alone");
    assert_eq!(join_words(&words(&[])), "");
    assert_eq!(join_words(&words(&["a", "", "b"])), "a  b");
}

#[test]
fn plain_mode_message_is_the_joined_words() {
    let inv = Invocation { config: None, command: false, args: words(&["deploy", "-v", "done"]) };
    match inv.plan() {
        Ok(Plan::Message(m)) => assert_eq!(m, "deploy -v done"),
        _ => panic!("expected a message"),
    }
}

#[test]
fn plain_mode_without_words_gives_empty_message() {
    let inv = Invocation { config: None, command: false, args: words(&[]) };
    match inv.plan() {
        Ok(Plan::Message(m)) => assert_eq!(m, ""),
        _ => panic!("expected a message"),
    }
}

#[test]
fn command_mode_runs_first_word_with_the_rest() {
    let inv = Invocation { config: None, command: true, args: words(&["make", "-j", "4"]) };
    match inv.plan() {
        Ok(Plan::Run { program, args, line }) => {
            assert_eq!(program, "make");
            assert_eq!(args, words(&["-j", "4"]));
            assert_eq!(line, "make -j 4");
        }
        _ => panic!("expected a command"),
    }
}

#[test]
fn command_mode_with_single_word_has_no_arguments() {
    let inv = Invocation { config: None, command: true, args: words(&["true"]) };
    match inv.plan() {
        Ok(Plan::Run { program, args, line }) => {
            assert_eq!(program, "true");
            assert!(args.is_empty());
            assert_eq!(line, "true");
        }
        _ => panic!("expected a command"),
    }
}

#[test]
fn command_mode_without_words_is_a_usage_error() {
    let inv = Invocation { config: None, command: true, args: words(&[]) };
    match inv.plan() {
        Err(e) => {
            assert_eq!(e, PingError::Usage);
            assert_eq!(e.message(), "must provide at least 1 argument when using -c");
            assert_ne!(e.exit_code(), 0);
        }
        Ok(_) => panic!("expected a usage error"),
    }
}

#[test]
fn successful_command_report() {
    assert_eq!(command_message("cargo build", Some(0)), "command 'cargo build' succeeded");
}

#[test]
fn failed_command_report_carries_the_code() {
    assert_eq!(
        command_message("cargo test --all", Some(101)),
        "command 'cargo test --all' failed with exit code 101"
    );
    assert_eq!(command_message("false", Some(1)), "command 'false' failed with exit code 1");
}

#[test]
fn command_without_code_reports_code_zero() {
    assert_eq!(command_message("sleep 100", None), "command 'sleep 100' failed with exit code 0");
}

#[test]
fn negative_code_is_written_with_sign() {
    assert_eq!(command_message("x", Some(-1073741510)), "command 'x' failed with exit code -1073741510");
}

#[test]
fn decimal_matches_std_formatting() {
    for n in [0, 7, 10, 42, 255, 1000, -1, -90, i32::MAX, i32::MIN] {
        assert_eq!(decimal_string(n), n.to_string());
    }
}

#[test]
fn config_with_both_tokens_parses() {
    let text = b"app_token = \"abc\"\nuser_token = \"def\"\nextra = 5\n";
    let c = Config::parse(text).ok().expect("config");
    assert_eq!(c.app_token, "abc");
    assert_eq!(c.user_token, "def");
}

#[test]
fn config_missing_app_token_is_refused() {
    let r = Config::parse(b"user_token = \"def\"\n");
    let e = r.err().expect("error");
    assert_eq!(e, PingError::ConfigFormat(ConfigField::AppToken));
    assert_ne!(e.exit_code(), 0);
}

#[test]
fn config_missing_user_token_is_refused() {
    let r = Config::parse(b"app_token = \"abc\"\n");
    let e = r.err().expect("error");
    assert_eq!(e, PingError::ConfigFormat(ConfigField::UserToken));
    assert_ne!(e.exit_code(), 0);
    assert_eq!(e.message(), "config must hold a non-empty string `user_token`");
}

#[test]
fn config_with_empty_token_is_refused() {
    let r = Config::parse(b"app_token = \"\"\nuser_token = \"def\"\n");
    assert_eq!(r.err(), Some(PingError::ConfigFormat(ConfigField::AppToken)));
}

#[test]
fn config_with_non_string_token_is_refused() {
    let r = Config::parse(b"app_token = \"abc\"\nuser_token = 17\n");
    assert_eq!(r.err(), Some(PingError::ConfigFormat(ConfigField::UserToken)));
}

#[test]
fn malformed_config_is_refused() {
    let r = Config::parse(b"app_token = = \"abc\"\nuser_token = \"def\"\n");
    assert!(matches!(r.err(), Some(PingError::ConfigFormat(_))));
}

#[test]
fn config_with_invalid_utf8_in_comment_is_decoded_leniently() {
    let mut bytes = b"# note \xff\xfe\napp_token = \"abc\"\nuser_token = \"def\"\n".to_vec();
    let c = Config::parse(&bytes).ok().expect("config");
    assert_eq!(c.user_token, "def");
    bytes.clear();
    assert!(Config::parse(&bytes).is_err());
}

#[test]
fn config_tokens_with_invalid_utf8_get_replacement_characters() {
    let c = Config::parse(b"app_token = \"a\xffb\"\nuser_token = \"u\"\n").ok().expect("config");
    assert_eq!(c.app_token, "a\u{FFFD}b");
}

#[test]
fn explicit_config_path_wins() {
    match config_location(Some("/etc/p.toml".to_string()), Some("/home/me".to_string())) {
        Ok(ConfigLocation::Explicit(p)) => assert_eq!(p, "/etc/p.toml"),
        _ => panic!("expected the explicit path"),
    }
}

#[test]
fn default_config_path_uses_base_directory() {
    match config_location(None, Some("/home/me".to_string())) {
        Ok(ConfigLocation::InBase(b)) => assert_eq!(b, "/home/me"),
        _ => panic!("expected the base directory"),
    }
}

#[test]
fn missing_base_directory_is_an_error() {
    let e = config_location(None, None).err().expect("error");
    assert_eq!(e, PingError::ConfigHomeMissing);
    assert_ne!(e.exit_code(), 0);
}

#[test]
fn request_carries_three_fields_in_order() {
    let n = prepare(&config(), "build finished").ok().expect("request");
    assert_eq!(n.url, "https://api.pushover.net/1/messages.json");
    assert_eq!(
        n.fields,
        vec![
            ("token".to_string(), "app123".to_string()),
            ("user".to_string(), "user456".to_string()),
            ("message".to_string(), "build finished".to_string()),
        ]
    );
}

#[test]
fn empty_message_is_refused_with_exit_code_one() {
    let e = prepare(&config(), "").err().expect("error");
    assert_eq!(e, PingError::EmptyMessage);
    assert_eq!(e.exit_code(), 1);
    assert_eq!(e.message(), "message cannot be empty");
}

#[test]
fn accepted_reply_gives_success_line() {
    let lines = interpret_response(br#"{"status": 1}"#).ok().expect("lines");
    assert_eq!(lines, vec!["SUCCESS: sent ping".to_string()]);
}

#[test]
fn rejected_reply_gives_error_line_and_body() {
    let body = br#"{"status": 0, "errors": ["bad token"]}"#;
    let lines = interpret_response(body).ok().expect("lines");
    assert_eq!(
        lines,
        vec![
            "ERROR: got status value other than 1 from API".to_string(),
            "response contents: {\"status\": 0, \"errors\": [\"bad token\"]}".to_string(),
        ]
    );
}

#[test]
fn rejected_reply_body_is_decoded_leniently() {
    let body = b"{\"status\": 2, \"note\": \"x\xffy\"}";
    let lines = interpret_response(body);
    // the invalid byte makes the body invalid JSON
    assert_eq!(lines.err(), Some(PingError::ResponseFormat));
    let lines = report(Some(2), "x\u{FFFD}y").ok().expect("lines");
    assert_eq!(lines[1], "response contents: x\u{FFFD}y");
}

#[test]
fn reply_that_is_not_json_is_an_error() {
    let e = interpret_response(b"<html>oops</html>").err().expect("error");
    assert_eq!(e, PingError::ResponseFormat);
    assert_eq!(e.message(), "failed to deserialize response json");
    assert_ne!(e.exit_code(), 0);
}

#[test]
fn reply_without_status_is_an_error() {
    assert_eq!(interpret_response(br#"{"errors": []}"#).err(), Some(PingError::ResponseFormat));
    assert_eq!(interpret_response(br#"{"status": "1"}"#).err(), Some(PingError::ResponseFormat));
    assert_eq!(interpret_response(br#"[1]"#).err(), Some(PingError::ResponseFormat));
}

#[test]
fn negative_status_is_a_rejection() {
    let lines = interpret_response(br#"{"status": -3}"#).ok().expect("lines");
    assert_eq!(lines.len(), 2);
    assert_eq!(lines[1], "response contents: {\"status\": -3}");
}

#[test]
fn report_without_status_is_an_error() {
    assert_eq!(report(None, "{}").err(), Some(PingError::ResponseFormat));
    assert_eq!(report(Some(1), "{}").ok(), Some(vec!["SUCCESS: sent ping".to_string()]));
}

#[test]
fn field_keys() {
    assert_eq!(ConfigField::AppToken.key(), "app_token");
    assert_eq!(ConfigField::UserToken.key(), "user_token");
}
