use preview_host::config::Config;
use preview_host::upload::{authorize_upload, is_file_field, upload_reply, UploadError};

fn config(use_https: bool) -> Config {
    Config::new(
        "data".to_string(),
        "localhost:3000".to_string(),
        "secret".to_string(),
        use_https,
    )
}

#[test]
fn right_token_at_base_domain_is_admitted() {
    assert_eq!(authorize_upload(&config(false), "secret", "localhost:3000"), Ok(()));
}

#[test]
fn wrong_token_is_unauthorized_whatever_the_host() {
    let c = config(false);
    assert_eq!(
        authorize_upload(&c, "wrong", "localhost:3000"),
        Err(UploadError::Unauthorized)
    );
    assert_eq!(
        authorize_upload(&c, "wrong", "abc.localhost:3000"),
        Err(UploadError::Unauthorized)
    );
    assert_eq!(authorize_upload(&c, "", "elsewhere"), Err(UploadError::Unauthorized));
    assert_eq!(UploadError::Unauthorized.status(), 401);
    assert_eq!(UploadError::Unauthorized.message(), "Unauthorized");
}

#[test]
fn right_token_at_other_host_is_not_found() {
    assert_eq!(
        authorize_upload(&config(false), "secret", "abc.localhost:3000"),
        Err(UploadError::InvalidHost)
    );
    assert_eq!(UploadError::InvalidHost.status(), 404);
    assert_eq!(UploadError::InvalidHost.message(), "Invalid host");
}

#[test]
fn only_a_field_named_file_carries_the_bundle() {
    assert!(is_file_field(Some("file")));
    assert!(!is_file_field(Some("files")));
    assert!(!is_file_field(Some("File")));
    assert!(!is_file_field(Some("")));
    assert!(!is_file_field(None));
}

#[test]
fn missing_file_is_bad_request() {
    let r = upload_reply(&config(false), Err(UploadError::NoFile));
    assert_eq!(r.status, 400);
    assert_eq!(r.preview_url, "No file provided");
}

#[test]
fn server_side_failures_have_their_statuses() {
    assert_eq!(UploadError::Ingestion.status(), 500);
    assert_eq!(UploadError::Exhausted.status(), 503);
    let r = upload_reply(&config(false), Err(UploadError::Exhausted));
    assert_eq!(r.status, 503);
    assert_eq!(r.preview_url, "No free preview name");
}

#[test]
fn accepted_upload_gets_http_preview_link() {
    let r = upload_reply(&config(false), Ok("abc-def-ghi".to_string()));
    assert_eq!(r.status, 200);
    assert_eq!(r.preview_url, "http://abc-def-ghi.localhost:3000");
}

#[test]
fn https_setting_changes_the_scheme() {
    let c = config(true);
    assert_eq!(c.scheme(), "https");
    assert_eq!(c.preview_url("river-stone-echo"), "https://river-stone-echo.localhost:3000");
}

#[test]
fn preview_link_host_routes_back() {
    let c = config(false);
    let url = c.preview_url("river-stone-echo");
    let host = url.strip_prefix("http://").unwrap();
    assert_eq!(c.route_host(host), Some("river-stone-echo".to_string()));
}
