use container_codes::error::Error;
use container_codes::files::{
    api_target, download_file, download_headers, file_info, FileStat, file_not_found, is_file_field, metadata_etag,
    missing_file_field, permissions_string, stored_path, upload_dir, upload_file_name,
    upload_name_with, upload_path, upload_success_message, upload_write_failed,
};
use container_codes::paths::percent_decode;
use container_codes::health::{aggregate_status, dependency_checks, health_check, health_status};
use container_codes::request_id::{choose_request_id, request_id_for, RequestIdLayer};
use container_codes::router::{route, Method, Route};
use container_codes::system::{get_active_connections, get_memory_usage, get_uptime};
use container_codes::types::{ApiResponse, PaginatedResponse, Timestamp};

fn pair(a: &str, b: &str) -> (String, String) {
    (a.to_string(), b.to_string())
}

#[test]
fn upload_field_name() {
    assert!(is_file_field(Some("file")));
    assert!(!is_file_field(Some("files")));
    assert!(!is_file_field(Some("")));
    assert!(!is_file_field(None));
}

#[test]
fn upload_names() {
    assert_eq!(upload_name_with(Some("my file!.txt"), "tok"), "myfile.txt");
    assert_eq!(upload_name_with(Some("!!!"), "tok"), "upload_tok");
    assert_eq!(upload_name_with(None, "tok"), "upload_tok");
    assert_eq!(upload_file_name(Some("my file!.txt")), "myfile.txt");
}

#[test]
fn generated_upload_names_differ() {
    let a = upload_file_name(None);
    let b = upload_file_name(None);
    assert!(a.starts_with("upload_"));
    assert_eq!(a.len(), 7 + 36);
    assert_ne!(a, b);
}

#[test]
fn upload_locations_and_messages() {
    assert_eq!(upload_dir("./public"), "./public/uploads");
    assert_eq!(upload_path("./public", "a.txt"), "./public/uploads/a.txt");
    assert_eq!(stored_path("a.txt"), "uploads/a.txt");
    assert_eq!(upload_success_message("a.txt"), "File 'a.txt' uploaded successfully");
    assert!(matches!(missing_file_field(), Error::Validation(ref m) if m == "No file field found in multipart request"));
    assert!(matches!(upload_write_failed(), Error::Internal(ref m) if m == "Failed to save uploaded file"));
}

#[test]
fn upload_then_download_uses_the_same_file() {
    let name = upload_file_name(Some("report 2024.pdf"));
    let written = upload_path("/srv/www", &name);
    let fetched = api_target("/srv/www", &stored_path(&name)).ok().unwrap();
    assert_eq!(written, fetched);
    let hs = download_headers(&fetched);
    assert_eq!(hs[0].value, "application/pdf");
    assert_eq!(hs[1].value, "attachment; filename=\"report2024.pdf\"");
}

#[test]
fn api_paths_are_contained() {
    assert_eq!(api_target("/srv/www", "docs/a.txt").ok().unwrap(), "/srv/www/docs/a.txt");
    for bad in ["../secret", "/etc/passwd", "a/../../b"] {
        match api_target("/srv/www", bad) {
            Err(Error::Validation(m)) => assert_eq!(m, "Invalid file path"),
            _ => panic!("{} must be refused", bad),
        }
    }
    assert!(matches!(file_not_found(), Error::Http(ref m) if m == "File not found"));
}

#[test]
fn download_headers_name_the_file() {
    let hs = download_headers("/srv/www/docs/notes.txt");
    assert_eq!(hs[0].name, "content-type");
    assert_eq!(hs[0].value, "text/plain");
    assert_eq!(hs[1].name, "content-disposition");
    assert_eq!(hs[1].value, "attachment; filename=\"notes.txt\"");
    let hs = download_headers("/srv/www/dir/");
    assert_eq!(hs[1].value, "attachment; filename=\"download\"");
}

#[test]
fn metadata_record() {
    assert_eq!(metadata_etag(10, 1700000000), "\"10-1700000000\"");
    assert_eq!(metadata_etag(0, -5), "\"0--5\"");
    assert_eq!(permissions_string(0o644), "644");
    assert_eq!(permissions_string(0o100755), "100755");
    assert_eq!(permissions_string(0), "0");
    let t = Timestamp { secs: 1700000000, nanos: 5 };
    let stat = FileStat { size: 42, created_at: t, modified_at: t, mode: 0o600 };
    let info = file_info("/srv/www", "a.json".to_string(), Some(stat)).ok().unwrap();
    assert_eq!(info.path, "a.json");
    assert_eq!(info.mime_type, "application/json");
    assert_eq!(info.etag, "\"42-1700000000\"");
    assert_eq!(info.permissions, "600");
    assert_eq!(info.size, 42);
}

#[test]
fn metadata_request_errors() {
    let t = Timestamp { secs: 1, nanos: 0 };
    let stat = FileStat { size: 1, created_at: t, modified_at: t, mode: 0o644 };
    match file_info("/srv/www", "../secret".to_string(), Some(stat)) {
        Err(Error::Validation(m)) => assert_eq!(m, "Invalid file path"),
        _ => panic!("an escaping path must be refused"),
    }
    match file_info("/srv/www", "missing.txt".to_string(), None) {
        Err(Error::Http(m)) => assert_eq!(m, "File not found"),
        _ => panic!("a failed lookup must be not found"),
    }
}

#[test]
fn download_answers() {
    let ok = download_file("/srv/www", "docs/a.txt", Some(b"hello".to_vec())).ok().unwrap();
    assert_eq!(ok.body, b"hello".to_vec());
    assert_eq!(ok.headers[0].value, "text/plain");
    assert_eq!(ok.headers[1].value, "attachment; filename=\"a.txt\"");
    match download_file("/srv/www", "/etc/passwd", Some(b"x".to_vec())) {
        Err(Error::Validation(m)) => assert_eq!(m, "Invalid file path"),
        _ => panic!("an escaping path must be refused"),
    }
    match download_file("/srv/www", "docs/none.txt", None) {
        Err(Error::Http(m)) => assert_eq!(m, "File not found"),
        _ => panic!("a failed read must be not found"),
    }
}

#[test]
fn uploaded_bytes_come_back_unchanged() {
    let name = upload_file_name(Some("photo.png"));
    let bytes = vec![0u8, 255, 10, 13, 37];
    let d = download_file("/srv/www", &stored_path(&name), Some(bytes.clone())).ok().unwrap();
    assert_eq!(d.body, bytes);
    assert_eq!(d.headers[0].value, "image/png");
}

#[test]
fn percent_escapes_are_decoded() {
    assert_eq!(percent_decode(b"my%20file.txt"), b"my file.txt".to_vec());
    assert_eq!(percent_decode(b"%2e%2E/x"), b"../x".to_vec());
    assert_eq!(percent_decode(b"100%"), b"100%".to_vec());
    assert_eq!(percent_decode(b"%zz%4"), b"%zz%4".to_vec());
    assert_eq!(percent_decode(b""), Vec::<u8>::new());
}

#[test]
fn aggregate_over_probe_combinations() {
    for (db, redis, expected) in [
        ("healthy", "healthy", "healthy"),
        ("disabled", "healthy", "healthy"),
        ("disabled", "disabled", "healthy"),
        ("unhealthy", "healthy", "unhealthy"),
        ("healthy", "unhealthy", "unhealthy"),
        ("disabled", "unhealthy", "unhealthy"),
    ] {
        let checks = vec![pair("database", db), pair("redis", redis)];
        assert_eq!(aggregate_status(&checks), expected);
    }
    assert_eq!(aggregate_status(&Vec::new()), "healthy");
}

#[test]
fn health_snapshot_by_database_probe() {
    let t = Timestamp { secs: 1, nanos: 0 };
    assert_eq!(health_status(Some(true), t, 7).status, "healthy");
    assert_eq!(health_status(None, t, 7).status, "healthy");
    let bad = health_status(Some(false), t, 7);
    assert_eq!(bad.status, "unhealthy");
    assert_eq!(bad.uptime, 7);
    assert_eq!(
        dependency_checks(None),
        vec![pair("database", "disabled"), pair("redis", "healthy"), pair("docker", "healthy")]
    );
    let r = health_check(Some(false));
    assert!(r.error.is_none());
    assert_eq!(r.data.unwrap().status, "unhealthy");
}

#[test]
fn system_figures() {
    assert_eq!(get_memory_usage(), 64 * 1024 * 1024);
    assert_eq!(get_active_connections(), 42);
    assert!(get_uptime() > 1_600_000_000);
}

#[test]
fn request_ids() {
    assert_eq!(choose_request_id(Some("abc-123"), "fresh"), "abc-123");
    assert_eq!(choose_request_id(Some("bad\u{7f}"), "fresh"), "fresh");
    assert_eq!(choose_request_id(None, "fresh"), "fresh");
    assert_eq!(request_id_for(Some("given")), "given");
    let generated = request_id_for(None);
    assert_eq!(generated.len(), 36);
    assert!(generated.chars().all(|c| c.is_ascii_hexdigit() || c == '-'));
    assert_eq!(request_id_for(Some("bad\u{7f}")).len(), 36);
    assert_ne!(generated, request_id_for(None));
    let layer = RequestIdLayer::new();
    assert_eq!(layer.layer(5u8).inner, 5u8);
}

#[test]
fn routes() {
    assert!(matches!(route(Method::Get, "/api/health"), Route::Health));
    assert!(matches!(route(Method::Post, "/api/health"), Route::NoRoute));
    assert!(matches!(route(Method::Get, "/api/system/info"), Route::SystemInfo));
    assert!(matches!(route(Method::Post, "/api/files/upload"), Route::Upload));
    assert!(matches!(route(Method::Get, "/api/files/upload"), Route::NoRoute));
    match route(Method::Get, "/api/files/download/uploads/a.txt") {
        Route::Download(p) => assert_eq!(p, "uploads/a.txt"),
        _ => panic!("expected a download"),
    }
    match route(Method::Get, "/api/files/info/a.txt") {
        Route::FileInfo(p) => assert_eq!(p, "a.txt"),
        _ => panic!("expected a metadata request"),
    }
    assert!(matches!(route(Method::Get, "/nonexistent-route"), Route::Static));
    assert!(matches!(route(Method::Get, "/api/unknown"), Route::Static));
    assert!(matches!(route(Method::Get, "/"), Route::Static));
}

#[test]
fn envelopes() {
    let ok = ApiResponse::success(3u32);
    assert_eq!(ok.data, Some(3));
    assert!(ok.error.is_none());
    assert_eq!(ok.request_id.len(), 36);
    let err: ApiResponse<u32> = ApiResponse::from_error(&Error::validation("Invalid file path"));
    assert!(err.data.is_none());
    let e = err.error.unwrap();
    assert_eq!(e.code, "VALIDATION_ERROR");
    assert_eq!(e.message, "Validation error: Invalid file path");
    let plain: ApiResponse<u32> = ApiResponse::error("X".to_string(), "y".to_string());
    assert_eq!(plain.error.unwrap().code, "X");
}

#[test]
fn pagination() {
    let p = PaginatedResponse::new(vec![1, 2], 10, 2, 0);
    assert!(p.has_next);
    let last = PaginatedResponse::new(vec![9, 10], 10, 2, 8);
    assert!(!last.has_next);
    assert_eq!(last.items, vec![9, 10]);
}
