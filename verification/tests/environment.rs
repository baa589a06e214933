use sert::environment::{read_switch, Environment, PathStatus};
use sert::errors::EnvironmentParseError;

#[test]
fn default_environment() {
    let env = Environment::default();
    assert!(!env.color);
    assert_eq!(env.time, "");
    assert_eq!(env.source_dir, "./html/");
    assert_eq!(env.address, [127, 0, 0, 1]);
    assert_eq!(env.port, 6969);
    assert_eq!(env.timeout, 5000);
}

#[test]
fn port_is_set_from_a_number() {
    let mut env = Environment::default();
    assert_eq!(env.process_port(String::from("8080")), Ok(()));
    assert_eq!(env.port, 8080);
    assert_eq!(env.process_port(String::from("0")), Ok(()));
    assert_eq!(env.port, 0);
    assert_eq!(env.process_port(String::from("65535")), Ok(()));
    assert_eq!(env.port, 65535);
    assert_eq!(env.process_port(String::from("+443")), Ok(()));
    assert_eq!(env.port, 443);
}

#[test]
fn bad_port_is_refused_and_changes_nothing() {
    for bad in ["65536", "", "http", "-1", "80 ", "8_0"] {
        let mut env = Environment::default();
        assert_eq!(
            env.process_port(String::from(bad)),
            Err(EnvironmentParseError::InvalidPort(String::from(bad)))
        );
        assert_eq!(env, Environment::default());
    }
}

#[test]
fn address_is_set_from_four_parts() {
    let mut env = Environment::default();
    assert_eq!(env.process_address(String::from("192.168.0.12")), Ok(()));
    assert_eq!(env.address, [192, 168, 0, 12]);
    assert_eq!(env.port, 6969);
    assert_eq!(env.process_address(String::from("0.0.0.0")), Ok(()));
    assert_eq!(env.address, [0, 0, 0, 0]);
    assert_eq!(env.process_address(String::from("255.255.255.255")), Ok(()));
    assert_eq!(env.address, [255, 255, 255, 255]);
}

#[test]
fn address_may_carry_a_port() {
    let mut env = Environment::default();
    assert_eq!(env.process_address(String::from("10.0.0.1:8080")), Ok(()));
    assert_eq!(env.address, [10, 0, 0, 1]);
    assert_eq!(env.port, 8080);
}

#[test]
fn bad_port_in_address_is_the_ports_error() {
    let mut env = Environment::default();
    assert_eq!(
        env.process_address(String::from("10.0.0.1:http")),
        Err(EnvironmentParseError::InvalidPort(String::from("http")))
    );
    assert_eq!(env, Environment::default());
    assert_eq!(
        env.process_address(String::from("10.0.0.1:")),
        Err(EnvironmentParseError::InvalidPort(String::new()))
    );
    assert_eq!(env, Environment::default());
}

#[test]
fn malformed_address_is_refused() {
    for bad in ["10.0.0", "10.0.0.1.2", "", "localhost", "1:2:3", "10.0.0.1:80:90", "10..0.1"] {
        let mut env = Environment::default();
        assert_eq!(
            env.process_address(String::from(bad)),
            Err(EnvironmentParseError::InvalidAddr(String::from(bad))),
            "address {:?}",
            bad
        );
    }
}

#[test]
fn address_keeps_what_was_written_before_the_error() {
    let mut env = Environment::default();
    assert_eq!(
        env.process_address(String::from("10.20.300.4")),
        Err(EnvironmentParseError::InvalidAddr(String::from("10.20.300.4")))
    );
    assert_eq!(env.address, [10, 20, 0, 1]);

    let mut env = Environment::default();
    assert_eq!(
        env.process_address(String::from("10.0.0:9000")),
        Err(EnvironmentParseError::InvalidAddr(String::from("10.0.0:9000")))
    );
    assert_eq!(env.port, 9000);
    assert_eq!(env.address, [127, 0, 0, 1]);

    let mut env = Environment::default();
    assert_eq!(
        env.process_address(String::from("1:2:3")),
        Err(EnvironmentParseError::InvalidAddr(String::from("1:2:3")))
    );
    assert_eq!(env, Environment::default());
}

#[test]
fn path_is_set_where_a_directory_is() {
    let mut env = Environment::default();
    assert_eq!(env.process_path(String::from("/srv/www"), PathStatus::Directory), Ok(()));
    assert_eq!(env.source_dir, "/srv/www");
}

#[test]
fn path_is_refused_where_no_directory_is() {
    let mut env = Environment::default();
    assert_eq!(
        env.process_path(String::from("/nowhere"), PathStatus::Missing),
        Err(EnvironmentParseError::InvalidPath(String::from("/nowhere")))
    );
    assert_eq!(
        env.process_path(String::from("/etc/hosts"), PathStatus::NotDirectory),
        Err(EnvironmentParseError::NotADir(String::from("/etc/hosts")))
    );
    assert_eq!(env, Environment::default());
}

#[test]
fn color_without_a_word_switches_on() {
    let mut env = Environment::default();
    assert_eq!(env.process_color(None), Ok(()));
    assert!(env.color);
}

#[test]
fn color_word_is_read_in_any_case() {
    let mut env = Environment::default();
    for word in ["true", "TRUE", "True", "tRuE"] {
        env.color = false;
        assert_eq!(env.process_color(Some(String::from(word))), Ok(()));
        assert!(env.color);
    }
    for word in ["false", "FALSE", "False"] {
        env.color = true;
        assert_eq!(env.process_color(Some(String::from(word))), Ok(()));
        assert!(!env.color);
    }
}

#[test]
fn color_refuses_other_words() {
    for word in ["yes", "", "1", " true", "truee"] {
        let mut env = Environment::default();
        assert_eq!(
            env.process_color(Some(String::from(word))),
            Err(EnvironmentParseError::InvalidOption(String::from("color"), String::from(word)))
        );
        assert_eq!(env, Environment::default());
    }
}

#[test]
fn switch_is_read_from_lower_case_only() {
    assert_eq!(read_switch("true"), Some(true));
    assert_eq!(read_switch("false"), Some(false));
    assert_eq!(read_switch("TRUE"), None);
    assert_eq!(read_switch(""), None);
}

#[test]
fn timeout_is_set_from_a_number() {
    let mut env = Environment::default();
    assert_eq!(env.process_timeout(String::from("250")), Ok(()));
    assert_eq!(env.timeout, 250);
    assert_eq!(env.process_timeout(String::from("18446744073709551615")), Ok(()));
    assert_eq!(env.timeout, u64::MAX);
}

#[test]
fn bad_timeout_is_refused() {
    for bad in ["18446744073709551616", "soon", "", "-5", "1.5"] {
        let mut env = Environment::default();
        assert_eq!(
            env.process_timeout(String::from(bad)),
            Err(EnvironmentParseError::InvalidTimeout(String::from(bad)))
        );
        assert_eq!(env, Environment::default());
    }
}

#[test]
fn time_pattern_is_taken_as_given() {
    let mut env = Environment::default();
    assert_eq!(env.process_time(String::from("%H:%M")), Ok(()));
    assert_eq!(env.time, "%H:%M");
    assert_eq!(env.process_time(String::new()), Ok(()));
    assert_eq!(env.time, "");
}

#[test]
fn environment_error_messages() {
    let text = |s: &str| String::from(s);
    assert_eq!(
        EnvironmentParseError::NullArg(text("-p")).message(),
        "Option -p expects an additional argument, but none was provided"
    );
    assert_eq!(EnvironmentParseError::InvalidArg(text("-x")).message(), "Invalid argument: -x");
    assert_eq!(EnvironmentParseError::InvalidPath(text("/a")).message(), "Invalid directory: /a");
    assert_eq!(EnvironmentParseError::NotADir(text("/a")).message(), "Expected a directory: /a");
    assert_eq!(EnvironmentParseError::InvalidAddr(text("x")).message(), "Not a valid address: x");
    assert_eq!(EnvironmentParseError::InvalidPort(text("x")).message(), "Not a valid port: x");
    assert_eq!(
        EnvironmentParseError::InvalidTimeout(text("x")).message(),
        "Not a valid timeout: x"
    );
    assert_eq!(
        EnvironmentParseError::ConfigFileError(text("gone")).message(),
        "Error processing configuration file: gone"
    );
    assert_eq!(
        EnvironmentParseError::InvalidOption(text("color"), text("blue")).message(),
        "Invalid option `blue` for color"
    );
    assert_eq!(
        EnvironmentParseError::InvalidConfigKey(text("colr")).message(),
        "Invalid key `colr` in configuration file"
    );
}

#[test]
fn default_environment_description() {
    assert_eq!(
        Environment::default().describe(),
        "\tcolor:\t\tfalse\n\ttime:\t\t\n\tsource_dir:\t\"./html/\"\n\taddress:\t[127, 0, 0, 1]\n\tport:\t\t6969\n\ttimeout:\t5000\n"
    );
}

#[test]
fn description_shows_every_setting() {
    let env = Environment {
        color: true,
        time: String::from("%H:%M"),
        source_dir: String::from("a \"b\"\\c\n"),
        address: [10, 0, 255, 9],
        port: 80,
        timeout: 0,
    };
    let expected = format!(
        "\tcolor:\t\t{}\n\ttime:\t\t{}\n\tsource_dir:\t{:?}\n\taddress:\t{:?}\n\tport:\t\t{:?}\n\ttimeout:\t{:?}\n",
        env.color,
        env.time,
        std::path::PathBuf::from(&env.source_dir),
        env.address,
        env.port,
        env.timeout
    );
    assert_eq!(env.describe(), expected);
    assert!(expected.contains("\"a \\\"b\\\"\\\\c\\n\""));
}
