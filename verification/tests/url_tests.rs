use link_inspector::extract::extract_links_from_html;
use link_inspector::link::LinkStatus;
use link_inspector::link::classify_status;
use link_inspector::urls::parse_url;
use link_inspector::urls::resolve;

#[test]
fn test_parse_url_components() {
    let p = parse_url("https://example.com/api/versions?page=2").unwrap();
    assert_eq!(p.text, "https://example.com/api/versions?page=2");
    assert_eq!(p.scheme, "https");
    assert_eq!(p.host, "example.com");
    assert_eq!(p.path, "/api/versions");
    assert_eq!(p.origin, "https://example.com");
}

#[test]
fn test_parse_url_rejects_relative() {
    assert!(parse_url("/docs/a").is_err());
    assert!(parse_url("not a url").is_err());
}

#[test]
fn test_resolve_relative_reference() {
    let r = resolve("https://example.net/a/b.html", "c.png").unwrap();
    assert_eq!(r, "https://example.net/a/c.png");
    let r = resolve("https://example.com", "/docs/a").unwrap();
    assert_eq!(r, "https://example.com/docs/a");
    let r = resolve("https://example.com/page", "#frag").unwrap();
    assert_eq!(r, "https://example.com/page#frag");
}

#[test]
fn test_resolve_is_idempotent() {
    // Resolving the same (base, href) pair twice yields the same URL.
    let first = resolve("https://example.com/a/", "b").unwrap();
    let second = resolve("https://example.com/a/", "b").unwrap();
    assert_eq!(first, second);
    assert_eq!(first, "https://example.com/a/b");
}

#[test]
fn test_resolve_malformed_base() {
    assert!(resolve("not a url", "c.png").is_err());
}

#[test]
fn test_extract_links_resolves_anchors() {
    let html = r#"<html><body>
        <a href="/docs/a">A</a>
        <a>no href</a>
        <a href="https://other.com/x">B</a>
        <a href="https://bad host/x">unresolvable</a>
    </body></html>"#;
    let mut found: Vec<String> = vec!["seed".to_string()];
    extract_links_from_html(html, "https://example.com", &mut found);
    assert_eq!(
        found,
        vec![
            "seed".to_string(),
            "https://example.com/docs/a".to_string(),
            "https://other.com/x".to_string(),
        ]
    );
}

#[test]
fn test_extract_links_survives_malformed_markup() {
    let html = "<p><a href=\"/x\">never closed <span>oops";
    let mut found: Vec<String> = Vec::new();
    extract_links_from_html(html, "https://example.com", &mut found);
    assert_eq!(found, vec!["https://example.com/x".to_string()]);
}

#[test]
fn test_classify_status_codes() {
    assert!(matches!(classify_status(200), LinkStatus::Valid));
    assert!(matches!(classify_status(302), LinkStatus::Valid));
    assert!(matches!(classify_status(399), LinkStatus::Valid));
    assert!(matches!(classify_status(404), LinkStatus::NotFound));
    match classify_status(500) {
        LinkStatus::Error(detail) => assert_eq!(detail, "500"),
        _ => panic!("expected an error status"),
    }
    match classify_status(403) {
        LinkStatus::Error(detail) => assert_eq!(detail, "403"),
        _ => panic!("expected an error status"),
    }
}
