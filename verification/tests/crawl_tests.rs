use link_inspector::config::Config;
use link_inspector::config::IgnoreConfig;
use link_inspector::crawler::Crawler;
use link_inspector::crawler::Step;
use link_inspector::link::FetchOutcome;
use link_inspector::link::LinkInfo;
use link_inspector::link::LinkStatus;
use link_inspector::render::render_url_joined;
use link_inspector::render::render_url_lines;

fn empty_config() -> Config {
    Config {
        url: None,
        ignore: None,
        forbidden_domains: None,
        ignored_childs: None,
        timeout: None,
        default_output: None,
    }
}

fn ok(body: &str) -> FetchOutcome {
    FetchOutcome::Response { status: 200, body: body.to_string() }
}

#[test]
fn test_crawl_scope_partition() {
    // Root page links to an in-scope path and to an ignored domain: the
    // in-scope link gets a scanned record, the ignored one an ignored
    // record.
    let config = Config {
        url: Some("https://example.com".to_string()),
        ignore: Some(IgnoreConfig {
            domains: Some(vec!["ignored.com".to_string()]),
            regex: None,
        }),
        forbidden_domains: None,
        ignored_childs: None,
        timeout: None,
        default_output: None,
    };
    let mut crawler = Crawler::from_config("https://example.com", &config).unwrap();
    let body = r#"<a href="/docs/a">A</a><a href="https://ignored.com/x">B</a>"#;

    let mut fetched: Vec<String> = Vec::new();
    loop {
        match crawler.step() {
            Step::Finished => break,
            Step::Revisit | Step::Excluded => continue,
            Step::Fetch(url) => {
                let outcome = if url == "https://example.com" {
                    ok(body)
                } else {
                    ok("")
                };
                fetched.push(url);
                crawler.record_fetch(outcome);
            }
        }
    }

    assert_eq!(fetched, vec!["https://example.com", "https://example.com/docs/a"]);
    let (scanned, ignored) = crawler.into_results();
    let scanned_urls: Vec<&str> = scanned.iter().map(|l| l.url.as_str()).collect();
    assert_eq!(scanned_urls, vec!["https://example.com", "https://example.com/docs/a"]);
    assert!(scanned.iter().all(|l| matches!(l.status, LinkStatus::Valid)));
    let ignored_urls: Vec<&str> = ignored.iter().map(|l| l.url.as_str()).collect();
    assert_eq!(ignored_urls, vec!["https://ignored.com/x"]);
    assert!(ignored.iter().all(|l| matches!(l.status, LinkStatus::Ignored)));
}

#[test]
fn test_crawl_duplicate_links_collapse() {
    // A page linking to the same URL twice yields one record for it.
    let mut crawler = Crawler::from_config("https://example.com", &empty_config()).unwrap();
    let body = r#"<a href="/a">one</a><a href="/a">two</a>"#;
    loop {
        match crawler.step() {
            Step::Finished => break,
            Step::Revisit | Step::Excluded => continue,
            Step::Fetch(url) => {
                let outcome = if url == "https://example.com" { ok(body) } else { ok("") };
                crawler.record_fetch(outcome);
            }
        }
    }
    let (scanned, ignored) = crawler.into_results();
    assert!(ignored.is_empty());
    let urls: Vec<&str> = scanned.iter().map(|l| l.url.as_str()).collect();
    assert_eq!(urls, vec!["https://example.com", "https://example.com/a"]);
}

#[test]
fn test_crawl_not_found_goes_to_scanned() {
    // A 404 yields a NotFound record among the scanned records, never the
    // ignored ones.
    let mut crawler = Crawler::from_config("https://example.com", &empty_config()).unwrap();
    let body = r#"<a href="/missing">m</a>"#;
    loop {
        match crawler.step() {
            Step::Finished => break,
            Step::Revisit | Step::Excluded => continue,
            Step::Fetch(url) => {
                let outcome = if url == "https://example.com" {
                    ok(body)
                } else {
                    FetchOutcome::Response { status: 404, body: String::new() }
                };
                crawler.record_fetch(outcome);
            }
        }
    }
    let (scanned, ignored) = crawler.into_results();
    assert!(ignored.is_empty());
    assert_eq!(scanned.len(), 2);
    assert_eq!(scanned[1].url, "https://example.com/missing");
    assert!(matches!(scanned[1].status, LinkStatus::NotFound));
}

#[test]
fn test_crawl_continues_after_connection_error() {
    // A transport failure yields an Error record and the crawl goes on to
    // the next frontier entry.
    let mut crawler = Crawler::from_config("https://example.com", &empty_config()).unwrap();
    let body = r#"<a href="/a">a</a><a href="/b">b</a>"#;
    loop {
        match crawler.step() {
            Step::Finished => break,
            Step::Revisit | Step::Excluded => continue,
            Step::Fetch(url) => {
                let outcome = if url == "https://example.com" {
                    ok(body)
                } else if url == "https://example.com/b" {
                    FetchOutcome::Failed { detail: "connection refused".to_string() }
                } else {
                    ok("")
                };
                crawler.record_fetch(outcome);
            }
        }
    }
    let (scanned, ignored) = crawler.into_results();
    assert!(ignored.is_empty());
    let urls: Vec<&str> = scanned.iter().map(|l| l.url.as_str()).collect();
    // The frontier is a stack, so /b is fetched before /a; both appear.
    assert_eq!(urls, vec!["https://example.com", "https://example.com/b", "https://example.com/a"]);
    match &scanned[1].status {
        LinkStatus::Error(detail) => assert_eq!(detail, "connection refused"),
        other => panic!("expected an error record, got {other:?}"),
    }
    assert!(matches!(scanned[2].status, LinkStatus::Valid));
}

#[test]
fn test_crawl_protocol_error_detail() {
    // A non-2xx/3xx, non-404 status yields an Error record carrying the
    // status in decimal.
    let mut crawler = Crawler::from_config("https://example.com", &empty_config()).unwrap();
    loop {
        match crawler.step() {
            Step::Finished => break,
            Step::Revisit | Step::Excluded => continue,
            Step::Fetch(_) => {
                crawler.record_fetch(FetchOutcome::Response { status: 503, body: String::new() });
            }
        }
    }
    let (scanned, _) = crawler.into_results();
    assert_eq!(scanned.len(), 1);
    match &scanned[0].status {
        LinkStatus::Error(detail) => assert_eq!(detail, "503"),
        other => panic!("expected an error record, got {other:?}"),
    }
}

#[test]
fn test_render_url_lines_and_joined() {
    let links = vec![
        LinkInfo { url: "https://example.com".to_string(), status: LinkStatus::Valid },
        LinkInfo { url: "https://example.com/a".to_string(), status: LinkStatus::NotFound },
    ];
    assert_eq!(render_url_lines(&links), "https://example.com\nhttps://example.com/a\n");
    assert_eq!(render_url_joined(&links), "https://example.com\nhttps://example.com/a");
    let none: Vec<LinkInfo> = Vec::new();
    assert_eq!(render_url_lines(&none), "");
    assert_eq!(render_url_joined(&none), "");
}
