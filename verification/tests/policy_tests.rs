use link_inspector::config::Config;
use link_inspector::config::IgnoreConfig;
use link_inspector::policy::CrawlPolicy;
use link_inspector::policy::should_ignore_url;
use link_inspector::patterns::any_pattern_matches;

fn example_config() -> Config {
    Config {
        url: Some("https://example.com".to_string()),
        ignore: Some(IgnoreConfig {
            domains: Some(vec!["ignored.com".to_string()]),
            regex: Some(vec![".*\\.pdf$".to_string()]),
        }),
        forbidden_domains: Some(vec!["forbidden.com".to_string()]),
        ignored_childs: Some(vec!["ignore-me".to_string()]),
        timeout: Some(30),
        default_output: None,
    }
}

#[test]
fn main_test_should_ignore_url() {
    let base_url = "https://example.com";
    let config = example_config();

    // Test ignoring based on domain
    assert!(should_ignore_url("https://ignored.com/page", &config, base_url).unwrap());

    // Test ignoring based on regex
    assert!(should_ignore_url("https://example.com/document.pdf", &config, base_url).unwrap());

    // Test forbidden domain
    assert!(should_ignore_url("https://forbidden.com/page", &config, base_url).unwrap());

    // Test ignored child path
    assert!(should_ignore_url("https://example.com/ignore-me/page", &config, base_url).unwrap());

    // Test valid URL (should not be ignored)
    assert!(!should_ignore_url("https://example.com/valid-page", &config, base_url).unwrap());

    // Test strict mode (different domain)
    assert!(should_ignore_url("https://different.com/page", &config, base_url).unwrap());
}

#[test]
fn tests_test_should_ignore_url() {
    let base_url = "https://example.com";
    let config = example_config();

    // Test ignoring based on domain
    assert!(should_ignore_url("https://ignored.com/page", &config, base_url).unwrap());

    // Test ignoring based on regex
    assert!(should_ignore_url("https://example.com/document.pdf", &config, base_url).unwrap());

    // Test forbidden domain
    assert!(should_ignore_url("https://forbidden.com/page", &config, base_url).unwrap());

    // Test ignored child path
    assert!(should_ignore_url("https://example.com/ignore-me/page", &config, base_url).unwrap());

    // Test valid URL (should not be ignored)
    assert!(!should_ignore_url("https://example.com/valid-page", &config, base_url).unwrap());

    // Test strict mode (different domain)
    assert!(should_ignore_url("https://different.com/page", &config, base_url).unwrap());
}

#[test]
fn test_ignore_regex_pattern() {
    // A candidate matching an ignore pattern is excluded.
    let config = Config {
        url: Some("https://example.com".to_string()),
        ignore: Some(IgnoreConfig {
            domains: None,
            regex: Some(vec![".*\\.pdf$".to_string()]),
        }),
        forbidden_domains: None,
        ignored_childs: None,
        timeout: None,
        default_output: None,
    };
    assert!(should_ignore_url("https://example.com/doc.pdf", &config, "https://example.com").unwrap());
    assert!(!should_ignore_url("https://example.com/doc.pdfx", &config, "https://example.com").unwrap());
}

#[test]
fn test_ignored_child_path_under_docs_root() {
    // With root path `/docs/`, the child `archive` covers `/docs/archive`.
    let config = Config {
        url: None,
        ignore: None,
        forbidden_domains: None,
        ignored_childs: Some(vec!["archive".to_string()]),
        timeout: None,
        default_output: None,
    };
    let base_url = "https://example.com/docs/";
    assert!(should_ignore_url("https://example.com/docs/archive/old", &config, base_url).unwrap());
    assert!(!should_ignore_url("https://example.com/docs/current", &config, base_url).unwrap());
}

#[test]
fn test_malformed_candidate_is_ignored() {
    let config = Config {
        url: None,
        ignore: None,
        forbidden_domains: None,
        ignored_childs: None,
        timeout: None,
        default_output: None,
    };
    assert!(should_ignore_url("not a url", &config, "https://example.com").unwrap());
}

#[test]
fn test_malformed_root_is_fatal() {
    let config = Config {
        url: None,
        ignore: None,
        forbidden_domains: None,
        ignored_childs: None,
        timeout: None,
        default_output: None,
    };
    assert!(should_ignore_url("https://example.com/a", &config, "not a url").is_none());
    assert!(CrawlPolicy::from_config("not a url", &config).is_err());
}

#[test]
fn test_policy_defaults() {
    let config = Config {
        url: None,
        ignore: None,
        forbidden_domains: None,
        ignored_childs: None,
        timeout: None,
        default_output: None,
    };
    let policy = CrawlPolicy::from_config("https://example.com", &config).unwrap();
    assert_eq!(policy.timeout_secs, 30);
    assert!(policy.ignore_domains.is_empty());
    assert!(policy.ignore_regex.is_empty());
    assert!(policy.forbidden_domains.is_empty());
    assert!(policy.ignored_childs.is_empty());
    assert_eq!(policy.root.text, "https://example.com");
    assert_eq!(policy.root.host, "example.com");
    assert_eq!(policy.root.path, "/");
    assert_eq!(policy.root.origin, "https://example.com");

    let with_timeout = Config {
        url: None,
        ignore: None,
        forbidden_domains: None,
        ignored_childs: None,
        timeout: Some(7),
        default_output: None,
    };
    let policy = CrawlPolicy::from_config("https://example.com", &with_timeout).unwrap();
    assert_eq!(policy.timeout_secs, 7);
}

#[test]
fn test_pattern_that_fails_to_compile_is_skipped() {
    let pats = vec!["[".to_string(), ".*\\.pdf$".to_string()];
    assert!(any_pattern_matches(&pats, "https://example.com/x.pdf"));
    assert!(!any_pattern_matches(&pats, "https://example.com/x.txt"));
    let only_bad = vec!["[".to_string()];
    assert!(!any_pattern_matches(&only_bad, "anything"));
}

#[test]
fn test_same_origin_different_path_stays_in_scope() {
    // A same-origin candidate that is not a string extension of the root is
    // still in scope: exclusion needs both a differing origin and no prefix.
    let config = Config {
        url: None,
        ignore: None,
        forbidden_domains: None,
        ignored_childs: None,
        timeout: None,
        default_output: None,
    };
    let base_url = "https://example.com/docs/";
    assert!(!should_ignore_url("https://example.com/other/page", &config, base_url).unwrap());
}
