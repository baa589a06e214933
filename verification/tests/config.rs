use sert::config::{config_key, ConfigKey, ConfigOutcome, FileRead};
use sert::environment::Environment;
use sert::errors::EnvironmentParseError;
use sert::text::text_lines;

fn text(contents: &str) -> FileRead {
    FileRead::Text(String::from(contents))
}

fn rejected(message: &str) -> ConfigOutcome {
    ConfigOutcome::Rejected(EnvironmentParseError::ConfigFileError(String::from(message)))
}

#[test]
fn text_lines_agrees_with_std() {
    let samples = [
        "", "a", "a\n", "a\nb", "a\n\nb", "\n", "\n\n", "a\r\nb\r\n", "a\r", "a\r\n", "\r\n",
        "a\r\r\n", "a\rb\nc", "port=1\n# c\ntime=x", "\u{e9}\n\u{4e16}\r\n",
    ];
    for sample in samples {
        let expected: Vec<String> = sample.lines().map(String::from).collect();
        assert_eq!(text_lines(sample), expected, "text {:?}", sample);
    }
}

#[test]
fn config_keys() {
    assert_eq!(config_key("color"), Some(ConfigKey::Color));
    assert_eq!(config_key("colour"), Some(ConfigKey::Color));
    assert_eq!(config_key("time"), Some(ConfigKey::Time));
    assert_eq!(config_key("path"), Some(ConfigKey::Path));
    assert_eq!(config_key("address"), Some(ConfigKey::Address));
    assert_eq!(config_key("port"), Some(ConfigKey::Port));
    assert_eq!(config_key("timeout"), Some(ConfigKey::Timeout));
    assert_eq!(config_key("Port"), None);
    assert_eq!(config_key(""), None);
    assert_eq!(config_key("config-file"), None);
}

#[test]
fn unopened_file_is_rejected_with_its_name() {
    assert_eq!(
        Environment::from_config(Environment::default(), "sert.conf", &FileRead::Unopened, 0),
        rejected("Could not open file: sert.conf")
    );
}

#[test]
fn unreadable_file_is_rejected_with_the_reason() {
    let file = FileRead::Unreadable(String::from("stream did not contain valid UTF-8"));
    assert_eq!(
        Environment::from_config(Environment::default(), "sert.conf", &file, 0),
        rejected("Error reading file: stream did not contain valid UTF-8")
    );
}

#[test]
fn empty_file_changes_nothing() {
    assert_eq!(
        Environment::from_config(Environment::default(), "f", &text(""), 0),
        ConfigOutcome::Complete(Environment::default())
    );
}

#[test]
fn settings_replace_the_defaults() {
    let file = text("# server\nport=8080\naddress = 10.0.0.7\ncolour=TRUE\ntime=%H:%M\ntimeout=20\n");
    let outcome = Environment::from_config(Environment::default(), "f", &file, 0);
    let mut expected = Environment::default();
    expected.port = 8080;
    expected.color = true;
    expected.time = String::from("%H:%M");
    expected.timeout = 20;
    assert_eq!(
        outcome,
        ConfigOutcome::Rejected(EnvironmentParseError::InvalidAddr(String::from(" 10.0.0.7")))
    );
    let file = text("# server\nport=8080\naddress =10.0.0.7\ncolour=TRUE\ntime=%H:%M\ntimeout=20\n");
    expected.address = [10, 0, 0, 7];
    assert_eq!(
        Environment::from_config(Environment::default(), "f", &file, 0),
        ConfigOutcome::Complete(expected)
    );
}

#[test]
fn keys_are_trimmed_and_values_are_not() {
    let outcome = Environment::from_config(Environment::default(), "f", &text("  port\t=81"), 0);
    let mut expected = Environment::default();
    expected.port = 81;
    assert_eq!(outcome, ConfigOutcome::Complete(expected));
    assert_eq!(
        Environment::from_config(Environment::default(), "f", &text("port= 81"), 0),
        ConfigOutcome::Rejected(EnvironmentParseError::InvalidPort(String::from(" 81")))
    );
}

#[test]
fn equal_signs_in_a_value_are_dropped() {
    let outcome = Environment::from_config(Environment::default(), "f", &text("time=%H=%M=="), 0);
    let mut expected = Environment::default();
    expected.time = String::from("%H%M");
    assert_eq!(outcome, ConfigOutcome::Complete(expected));
}

#[test]
fn line_without_equal_sign_is_badly_formatted() {
    assert_eq!(
        Environment::from_config(Environment::default(), "f", &text("port=1\n#c\nport 2\n"), 0),
        rejected("Incorrect formatting on line 3")
    );
    assert_eq!(
        Environment::from_config(Environment::default(), "f", &text("port=1\n\nport=2\n"), 0),
        rejected("Incorrect formatting on line 2")
    );
    assert_eq!(
        Environment::from_config(Environment::default(), "f", &text(" # indented"), 0),
        rejected("Incorrect formatting on line 1")
    );
}

#[test]
fn comments_are_skipped_whatever_they_hold() {
    assert_eq!(
        Environment::from_config(Environment::default(), "f", &text("#port=1\n#\n# a=b=c"), 0),
        ConfigOutcome::Complete(Environment::default())
    );
}

#[test]
fn unknown_key_is_rejected_as_written() {
    assert_eq!(
        Environment::from_config(Environment::default(), "f", &text(" colr =true"), 0),
        ConfigOutcome::Rejected(EnvironmentParseError::InvalidConfigKey(String::from(" colr ")))
    );
    assert_eq!(
        Environment::from_config(Environment::default(), "f", &text("=true"), 0),
        ConfigOutcome::Rejected(EnvironmentParseError::InvalidConfigKey(String::new()))
    );
}

#[test]
fn first_bad_setting_ends_the_handling() {
    assert_eq!(
        Environment::from_config(
            Environment::default(),
            "f",
            &text("port=99999\ntimeout=never"),
            0
        ),
        ConfigOutcome::Rejected(EnvironmentParseError::InvalidPort(String::from("99999")))
    );
    assert_eq!(
        Environment::from_config(Environment::default(), "f", &text("color=blue"), 0),
        ConfigOutcome::Rejected(EnvironmentParseError::InvalidOption(
            String::from("color"),
            String::from("blue")
        ))
    );
}

#[test]
fn path_line_asks_for_a_look_and_says_where_to_resume() {
    let file = text("port=81\npath=/srv/www\ntimeout=7\n");
    let mut env = Environment::default();
    env.port = 81;
    assert_eq!(
        Environment::from_config(Environment::default(), "f", &file, 0),
        ConfigOutcome::PathQuery { env: env.clone(), path: String::from("/srv/www"), resume: 2 }
    );
    env.source_dir = String::from("/srv/www");
    let mut expected = env.clone();
    expected.timeout = 7;
    assert_eq!(Environment::from_config(env, "f", &file, 2), ConfigOutcome::Complete(expected));
}

#[test]
fn resuming_config_past_the_end_is_complete() {
    assert_eq!(
        Environment::from_config(Environment::default(), "f", &text("path=/srv"), 1),
        ConfigOutcome::Complete(Environment::default())
    );
    assert_eq!(
        Environment::from_config(Environment::default(), "f", &text("port=x"), 5),
        ConfigOutcome::Complete(Environment::default())
    );
}

#[test]
fn line_numbers_count_from_the_start_of_the_file() {
    assert_eq!(
        Environment::from_config(Environment::default(), "f", &text("path=/srv\nbad\n"), 1),
        rejected("Incorrect formatting on line 2")
    );
}
