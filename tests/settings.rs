use vlc_pauser::auth::{basic_auth_from_encoded, basic_auth_value, credentials};
use vlc_pauser::config::{find_arg, Config, ConfigError, DEFAULT_CHECK_INTERVAL_MS};
use vlc_pauser::{player_state_from_name, PlayerState};

fn args(list: &[&str]) -> Vec<String> {
    list.iter().map(|s| s.to_string()).collect()
}

#[test]
fn state_names_are_read() {
    assert_eq!(player_state_from_name("playing"), PlayerState::Playing);
    assert_eq!(player_state_from_name("paused"), PlayerState::Paused);
    assert_eq!(player_state_from_name("stopped"), PlayerState::Stopped);
}

#[test]
fn other_state_names_say_nothing() {
    assert_eq!(player_state_from_name("Playing"), PlayerState::Unknown);
    assert_eq!(player_state_from_name(""), PlayerState::Unknown);
    assert_eq!(player_state_from_name("play"), PlayerState::Unknown);
    assert_eq!(player_state_from_name("playing "), PlayerState::Unknown);
}

#[test]
fn player_state_predicates() {
    assert!(PlayerState::Playing.is_playing());
    assert!(!PlayerState::Paused.is_playing());
    assert!(!PlayerState::Unknown.is_playing());
    assert!(PlayerState::Stopped.is_known());
    assert!(!PlayerState::Unknown.is_known());
}

#[test]
fn find_arg_takes_first_occurrence() {
    let a = args(&["prog", "--x", "1", "--x", "2"]);
    assert_eq!(find_arg(&a, "--x"), Some("1".to_string()));
    assert_eq!(find_arg(&a, "--y"), None);
    assert_eq!(find_arg(&args(&["prog", "--x"]), "--x"), None);
    assert_eq!(find_arg(&args(&[]), "--x"), None);
}

#[test]
fn missing_password_is_an_error() {
    let r = Config::from_args(&args(&["prog", "--check-interval", "500"]));
    assert_eq!(r.err(), Some(ConfigError::MissingPassword));
    let r = Config::from_args(&args(&["prog", "--vlc-http-password"]));
    assert_eq!(r.err(), Some(ConfigError::MissingPassword));
    assert_eq!(
        ConfigError::MissingPassword.message(),
        "Error: Mandatory argument `--vlc-http-password` not found"
    );
}

#[test]
fn defaults_apply() {
    let c = Config::from_args(&args(&["prog", "--vlc-http-password", "pw"])).ok().unwrap();
    assert_eq!(c.check_interval_ms, 1000);
    assert_eq!(DEFAULT_CHECK_INTERVAL_MS, 1000);
    assert_eq!(c.base_url, "http://localhost:8080");
    assert_eq!(c.password, "pw");
    assert_eq!(c.status_url(), "http://localhost:8080/requests/status.json");
    assert_eq!(c.command_url(), "http://localhost:8080/requests/status.xml?command=pl_pause");
}

#[test]
fn given_settings_apply() {
    let c = Config::from_args(&args(&[
        "prog",
        "--check-interval",
        "250",
        "--vlc-base-url",
        "http://10.0.0.2:9090",
        "--vlc-http-password",
        "secret",
    ]))
    .ok()
    .unwrap();
    assert_eq!(c.check_interval_ms, 250);
    assert_eq!(c.base_url, "http://10.0.0.2:9090");
    assert_eq!(c.password, "secret");
    assert_eq!(c.status_url(), "http://10.0.0.2:9090/requests/status.json");
}

#[test]
fn interval_parsing() {
    let with = |v: &str| {
        Config::from_args(&args(&["prog", "--check-interval", v, "--vlc-http-password", "p"]))
            .ok()
            .unwrap()
            .check_interval_ms
    };
    assert_eq!(with("+42"), 42);
    assert_eq!(with("18446744073709551615"), u64::MAX);
    assert_eq!(with("18446744073709551616"), 1000);
    assert_eq!(with("-5"), 1000);
    assert_eq!(with("12ms"), 1000);
    assert_eq!(with(""), 1000);
    assert_eq!(with(" 7"), 1000);
}

#[test]
fn basic_auth_header() {
    assert_eq!(credentials("secret"), ":secret");
    assert_eq!(basic_auth_from_encoded("abc"), "Basic abc");
    assert_eq!(basic_auth_value("secret"), "Basic OnNlY3JldA==");
    assert_eq!(basic_auth_value("päss"), "Basic OnDDpHNz");
    assert_eq!(basic_auth_value(""), "Basic Og==");
}
