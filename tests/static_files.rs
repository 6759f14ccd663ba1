use container_codes::config::{SecurityConfig, StaticConfig};
use container_codes::paths::{is_contained, is_spa_route, join, trim_leading_slashes};
use container_codes::static_files::{
    begin, file_headers, forbidden_response, generate_etag, not_found_response, on_probe,
    on_read_failed, serve_file_headers, Phase, Step,
};

fn config() -> StaticConfig {
    let mut c = StaticConfig::default();
    c.root = "/srv/www".to_string();
    c
}

fn read_path(step: &Step) -> String {
    match step {
        Step::Read(p) => p.clone(),
        other => panic!("expected a read, got {:?}", other),
    }
}

fn probe_path(step: &Step) -> String {
    match step {
        Step::Probe(p) => p.clone(),
        other => panic!("expected a probe, got {:?}", other),
    }
}

#[test]
fn traversal_is_forbidden_before_any_read() {
    let c = config();
    for p in ["/../etc/passwd", "/a/../../b", "/..", "/static/../x", "/a/.."] {
        let (phase, step) = begin(&c, p);
        assert_eq!(phase, Phase::Done);
        assert!(matches!(step, Step::Forbidden), "{} must be refused", p);
    }
    let (_, step) = begin(&c, "/a..b/c");
    assert_eq!(read_path(&step), "/srv/www/a..b/c");
}

#[test]
fn leading_slashes_are_stripped() {
    assert_eq!(trim_leading_slashes("///etc/passwd"), "etc/passwd");
    assert_eq!(trim_leading_slashes("/"), "");
    let (_, step) = begin(&config(), "//etc/passwd");
    assert_eq!(read_path(&step), "/srv/www/etc/passwd");
}

#[test]
fn containment_rule() {
    assert!(is_contained("a/b.txt"));
    assert!(is_contained("a/...b"));
    assert!(!is_contained("/etc/passwd"));
    assert!(!is_contained("../x"));
    assert!(!is_contained("x/.."));
}

#[test]
fn empty_path_searches_index_files_in_order() {
    let c = config();
    let (phase, step) = begin(&c, "/");
    assert_eq!(phase, Phase::Probe { pos: 0 });
    assert_eq!(probe_path(&step), "/srv/www/index.html");
    let (phase, step) = on_probe(&c, phase, false);
    assert_eq!(phase, Phase::Probe { pos: 1 });
    assert_eq!(probe_path(&step), "/srv/www/index.htm");
    let (phase2, step2) = on_probe(&c, phase, true);
    assert_eq!(phase2, Phase::IndexRead);
    assert_eq!(read_path(&step2), "/srv/www/index.htm");
    let (phase3, step3) = on_probe(&c, phase, false);
    assert_eq!(phase3, Phase::Done);
    assert!(matches!(step3, Step::NotFound));
}

#[test]
fn first_existing_index_wins() {
    let c = config();
    let (phase, _) = begin(&c, "");
    let (phase, step) = on_probe(&c, phase, true);
    assert_eq!(phase, Phase::IndexRead);
    assert_eq!(read_path(&step), "/srv/www/index.html");
}

#[test]
fn no_index_files_configured() {
    let mut c = config();
    c.index_files.clear();
    let (phase, step) = begin(&c, "/");
    assert_eq!(phase, Phase::Done);
    assert!(matches!(step, Step::NotFound));
}

#[test]
fn disabled_static_files_find_nothing() {
    let mut c = config();
    c.enabled = false;
    let (_, step) = begin(&c, "/index.html");
    assert!(matches!(step, Step::NotFound));
}

#[test]
fn unknown_route_falls_back_to_index_once() {
    let c = config();
    let (phase, step) = begin(&c, "/nonexistent-route");
    assert_eq!(phase, Phase::Direct);
    assert_eq!(read_path(&step), "/srv/www/nonexistent-route");
    let (phase, step) = on_read_failed(&c, "/nonexistent-route", phase);
    assert_eq!(probe_path(&step), "/srv/www/index.html");
    let (phase, step) = on_probe(&c, phase, true);
    assert_eq!(read_path(&step), "/srv/www/index.html");
    let (phase, step) = on_read_failed(&c, "/nonexistent-route", phase);
    assert_eq!(phase, Phase::Done);
    assert!(matches!(step, Step::NotFound));
}

#[test]
fn missing_file_with_extension_is_not_found() {
    let c = config();
    let (phase, step) = begin(&c, "/missing.png");
    assert_eq!(read_path(&step), "/srv/www/missing.png");
    let (phase, step) = on_read_failed(&c, "/missing.png", phase);
    assert_eq!(phase, Phase::Done);
    assert!(matches!(step, Step::NotFound));
    assert_eq!(not_found_response().status, 404);
}

#[test]
fn spa_route_looks_at_last_segment() {
    assert!(is_spa_route("dashboard"));
    assert!(is_spa_route("app/settings"));
    assert!(is_spa_route("v1.2/settings"));
    assert!(!is_spa_route("missing.png"));
    assert!(!is_spa_route("assets/app.js"));
    assert!(!is_spa_route(""));
}

#[test]
fn join_inserts_one_separator() {
    assert_eq!(join("/srv/www", "a.txt"), "/srv/www/a.txt");
    assert_eq!(join("/srv/www/", "a.txt"), "/srv/www/a.txt");
    assert_eq!(join("", "a.txt"), "a.txt");
}

#[test]
fn headers_follow_configuration() {
    let st = StaticConfig::default();
    let sec = SecurityConfig::default();
    let hs = file_headers(&st, &sec, "text/html", "\"1\"");
    let pairs: Vec<(String, String)> = hs.into_iter().map(|h| (h.name, h.value)).collect();
    assert_eq!(
        pairs,
        vec![
            ("content-type".to_string(), "text/html".to_string()),
            ("etag".to_string(), "\"1\"".to_string()),
            ("cache-control".to_string(), "public, max-age=3600".to_string()),
            ("x-content-type-options".to_string(), "nosniff".to_string()),
            ("x-frame-options".to_string(), "DENY".to_string()),
            ("x-xss-protection".to_string(), "1; mode=block".to_string()),
        ]
    );
    let mut st2 = StaticConfig::default();
    st2.etag = false;
    let mut sec2 = SecurityConfig::default();
    sec2.security_headers = false;
    let hs = file_headers(&st2, &sec2, "image/png", "");
    let names: Vec<String> = hs.into_iter().map(|h| h.name).collect();
    assert_eq!(names, vec!["content-type".to_string(), "cache-control".to_string()]);
}

#[test]
fn served_file_is_typed_by_extension_and_tagged_by_content() {
    let st = StaticConfig::default();
    let sec = SecurityConfig::default();
    let hs = serve_file_headers(&st, &sec, "/srv/www/index.html", b"<h1>hi</h1>");
    assert_eq!(hs[0].value, "text/html");
    assert_eq!(hs[1].name, "etag");
    assert_eq!(hs[1].value, generate_etag(b"<h1>hi</h1>"));
    let hs = serve_file_headers(&st, &sec, "/srv/www/blob", b"");
    assert_eq!(hs[0].value, "application/octet-stream");
}

#[test]
fn etag_depends_on_content() {
    let a = generate_etag(b"hello");
    let b = generate_etag(b"hello");
    let c = generate_etag(b"world");
    assert_eq!(a, b);
    assert_ne!(a, c);
    assert!(a.starts_with('"') && a.ends_with('"'));
    assert!(a[1..a.len() - 1].chars().all(|ch| ch.is_ascii_digit()));
}

#[test]
fn error_pages() {
    let nf = not_found_response();
    assert_eq!(nf.status, 404);
    assert_eq!(nf.content_type, "text/html");
    assert_eq!(nf.body, "<h1>404 Not Found</h1><p>The requested resource was not found.</p>");
    let fb = forbidden_response();
    assert_eq!(fb.status, 403);
    assert_eq!(fb.body, "<h1>403 Forbidden</h1><p>Access denied.</p>");
}
