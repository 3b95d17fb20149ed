use stress::config::ConfigError;
use stress::config::RunConfiguration;

#[test]
fn configuration_keeps_what_it_was_given() {
    let config = RunConfiguration::new("http://example.test".to_string(), 3);
    assert_eq!(config.base_url(), "http://example.test");
    assert_eq!(config.count(), 3);
}

#[test]
fn arguments_give_a_configuration() {
    let config = RunConfiguration::from_args(
        Some("http://192.168.2.176".to_string()),
        Some("10000".to_string()),
    );
    assert_eq!(config, Ok(RunConfiguration::new("http://192.168.2.176".to_string(), 10_000)));
}

#[test]
fn a_count_of_zero_is_a_count() {
    let config = RunConfiguration::from_args(Some("http://h".to_string()), Some("0".to_string()));
    assert_eq!(config.map(|c| c.count()), Ok(0));
}

#[test]
fn the_base_url_is_not_checked_on_its_own() {
    let config = RunConfiguration::from_args(Some("not a url".to_string()), Some("1".to_string()));
    assert_eq!(config, Ok(RunConfiguration::new("not a url".to_string(), 1)));
}

#[test]
fn a_missing_url_is_reported_first() {
    assert_eq!(RunConfiguration::from_args(None, None), Err(ConfigError::MissingUrl));
    assert_eq!(
        RunConfiguration::from_args(None, Some("x".to_string())),
        Err(ConfigError::MissingUrl)
    );
}

#[test]
fn a_missing_count_is_an_error() {
    assert_eq!(
        RunConfiguration::from_args(Some("http://h".to_string()), None),
        Err(ConfigError::MissingCount)
    );
}

#[test]
fn a_count_that_is_no_number_is_an_error() {
    assert_eq!(
        RunConfiguration::from_args(Some("http://h".to_string()), Some("many".to_string())),
        Err(ConfigError::InvalidCount("many".to_string()))
    );
    assert_eq!(
        RunConfiguration::from_args(Some("http://h".to_string()), Some("-3".to_string())),
        Err(ConfigError::InvalidCount("-3".to_string()))
    );
    assert_eq!(
        RunConfiguration::from_args(Some("http://h".to_string()), Some("4294967296".to_string())),
        Err(ConfigError::InvalidCount("4294967296".to_string()))
    );
}

#[test]
fn each_error_has_its_line() {
    assert_eq!(ConfigError::MissingUrl.message(), "missing argument: url");
    assert_eq!(ConfigError::MissingCount.message(), "missing argument: count");
    assert_eq!(ConfigError::InvalidCount("x1".to_string()).message(), "invalid count: x1");
    assert_eq!(
        ConfigError::InvalidUrl("not a url/a".to_string()).message(),
        "invalid URL: not a url/a"
    );
}

#[test]
fn a_duplicate_equals_its_original() {
    let errors = vec![
        ConfigError::MissingUrl,
        ConfigError::MissingCount,
        ConfigError::InvalidCount("q".to_string()),
        ConfigError::InvalidUrl("u".to_string()),
    ];
    for error in errors {
        assert_eq!(error.duplicate(), error);
    }
}
