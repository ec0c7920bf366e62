use dyndns_sync::config::{Config, ConfigError};

fn s(text: &str) -> String {
    text.to_string()
}

#[test]
fn valid_inputs_make_a_config() {
    let config = Config::new(s("home.example.com"), s("z1"), Some(s("tok"))).expect("a config");
    assert_eq!(config.name(), "home.example.com");
    assert_eq!(config.zone(), "z1");
    assert_eq!(config.token(), "tok");
}

#[test]
fn empty_name_is_refused() {
    assert_eq!(Config::new(s(""), s("z1"), Some(s("tok"))), Err(ConfigError::EmptyName));
}

#[test]
fn empty_zone_is_refused() {
    assert_eq!(Config::new(s("home.example.com"), s(""), Some(s("tok"))), Err(ConfigError::EmptyZone));
}

#[test]
fn absent_credential_is_refused() {
    assert_eq!(
        Config::new(s("home.example.com"), s("z1"), None),
        Err(ConfigError::MissingCredential)
    );
}

#[test]
fn name_is_checked_before_zone_and_credential() {
    assert_eq!(Config::new(s(""), s(""), None), Err(ConfigError::EmptyName));
    assert_eq!(Config::new(s(""), s("z1"), None), Err(ConfigError::EmptyName));
}

#[test]
fn zone_is_checked_before_credential() {
    assert_eq!(Config::new(s("home.example.com"), s(""), None), Err(ConfigError::EmptyZone));
}

#[test]
fn empty_credential_is_accepted() {
    let config = Config::new(s("n"), s("z"), Some(s(""))).expect("a config");
    assert_eq!(config.token(), "");
}

#[test]
fn whitespace_counts_as_content() {
    let config = Config::new(s(" "), s(" "), Some(s(" "))).expect("a config");
    assert_eq!(config.name(), " ");
    assert_eq!(config.zone(), " ");
}

#[test]
fn clone_keeps_every_setting() {
    let config = Config::new(s("home.example.com"), s("z1"), Some(s("tok"))).expect("a config");
    assert_eq!(config.clone(), config);
}
