use link_inspector::config::ConfigError;
use link_inspector::config::FieldKind;
use link_inspector::config::RawConfig;
use link_inspector::config::validate_config;

#[test]
fn main_test_validate_config() {
    // Valid config: url is a string; ignore is a mapping whose domains and
    // regex entries are sequences.
    let valid_config = RawConfig {
        url: Some(FieldKind::Text),
        ignore: Some(FieldKind::Mapping),
        ignore_domains: Some(FieldKind::Sequence),
        ignore_regex: Some(FieldKind::Sequence),
    };
    assert!(validate_config(&valid_config).is_ok());

    // Invalid config (missing url)
    let invalid_config = RawConfig {
        url: None,
        ignore: Some(FieldKind::Mapping),
        ignore_domains: Some(FieldKind::Sequence),
        ignore_regex: None,
    };
    assert!(matches!(
        validate_config(&invalid_config),
        Err(ConfigError::MissingField(_))
    ));

    // Invalid config (wrong type for url)
    let invalid_config = RawConfig {
        url: Some(FieldKind::Other),
        ignore: None,
        ignore_domains: None,
        ignore_regex: None,
    };
    assert!(matches!(
        validate_config(&invalid_config),
        Err(ConfigError::InvalidFieldType(_))
    ));
}

#[test]
fn tests_test_validate_config() {
    // Valid config
    let valid_config = RawConfig {
        url: Some(FieldKind::Text),
        ignore: Some(FieldKind::Mapping),
        ignore_domains: Some(FieldKind::Sequence),
        ignore_regex: Some(FieldKind::Sequence),
    };
    assert!(validate_config(&valid_config).is_ok());

    // Invalid config (missing url)
    let invalid_config = RawConfig {
        url: None,
        ignore: Some(FieldKind::Mapping),
        ignore_domains: Some(FieldKind::Sequence),
        ignore_regex: None,
    };
    assert!(matches!(
        validate_config(&invalid_config),
        Err(ConfigError::MissingField(_))
    ));

    // Invalid config (wrong type for url)
    let invalid_config = RawConfig {
        url: Some(FieldKind::Other),
        ignore: None,
        ignore_domains: None,
        ignore_regex: None,
    };
    assert!(matches!(
        validate_config(&invalid_config),
        Err(ConfigError::InvalidFieldType(_))
    ));
}

#[test]
fn test_validate_config_error_details() {
    // Each rejection carries its exact field name or description.
    let missing = RawConfig { url: None, ignore: None, ignore_domains: None, ignore_regex: None };
    match validate_config(&missing) {
        Err(ConfigError::MissingField(f)) => assert_eq!(f, "url"),
        _ => panic!("expected a missing-field error"),
    }

    let bad_url = RawConfig {
        url: Some(FieldKind::Sequence),
        ignore: None,
        ignore_domains: None,
        ignore_regex: None,
    };
    match validate_config(&bad_url) {
        Err(ConfigError::InvalidFieldType(d)) => assert_eq!(d, "url must be a string"),
        _ => panic!("expected an invalid-type error"),
    }

    let bad_ignore = RawConfig {
        url: Some(FieldKind::Text),
        ignore: Some(FieldKind::Sequence),
        ignore_domains: None,
        ignore_regex: None,
    };
    match validate_config(&bad_ignore) {
        Err(ConfigError::InvalidFieldType(d)) => assert_eq!(d, "ignore must be an object"),
        _ => panic!("expected an invalid-type error"),
    }

    let bad_domains = RawConfig {
        url: Some(FieldKind::Text),
        ignore: Some(FieldKind::Mapping),
        ignore_domains: Some(FieldKind::Text),
        ignore_regex: None,
    };
    match validate_config(&bad_domains) {
        Err(ConfigError::InvalidFieldType(d)) => assert_eq!(d, "ignore.domains must be an array"),
        _ => panic!("expected an invalid-type error"),
    }

    let bad_regex = RawConfig {
        url: Some(FieldKind::Text),
        ignore: Some(FieldKind::Mapping),
        ignore_domains: Some(FieldKind::Sequence),
        ignore_regex: Some(FieldKind::Mapping),
    };
    match validate_config(&bad_regex) {
        Err(ConfigError::InvalidFieldType(d)) => assert_eq!(d, "ignore.regex must be an array"),
        _ => panic!("expected an invalid-type error"),
    }
}

#[test]
fn test_config_error_message() {
    let e = ConfigError::MissingField("url".to_string());
    assert_eq!(e.message(), "Missing required field: url");
    let e = ConfigError::InvalidFieldType("url must be a string".to_string());
    assert_eq!(e.message(), "Invalid field type: url must be a string");
}
