use see::config::{ContentEncoding, Error, Header, Recording, Rewrite, RewriteType, ServerConfig};
use see::pipeline::{
    deny_response, error_page, error_text, fill_path, get_extension, join_root, policy, refuse,
    resolve, serve, status_is_error, Denial, FallbackPlan, FsKind, Policy, Resolution,
};
use see::request::Request;
use see::response::StatusCode;

fn base_config() -> ServerConfig {
    ServerConfig {
        hosts: None,
        listen: 80,
        root: b"/srv".to_vec(),
        gzip: None,
        directory: None,
        index: None,
        headers: Vec::new(),
        rewrite: None,
        extensions: None,
        methods: see::config::default_methods(),
        auth: None,
        error: Error { _404: None, _500: None },
        log: Recording { success: false, error: false },
    }
}

fn get_request(target: &str) -> Request {
    let buff = format!("GET {} HTTP/1.1\r\nHost: h\r\n\r\n", target).into_bytes();
    Request::new(&buff).unwrap()
}

fn contains(haystack: &[u8], needle: &[u8]) -> bool {
    haystack.windows(needle.len()).any(|w| w == needle)
}

#[test]
fn delete_is_answered_405_without_touching_the_filesystem() {
    let config = base_config();
    let req = Request::new(b"DELETE /x HTTP/1.1\r\nHost: h\r\n\r\n").unwrap();
    match policy(&req, &config, true) {
        Policy::Deny(d) => {
            assert!(matches!(d, Denial::MethodNotAllowed));
            let (bytes, status) = deny_response(&d, &config);
            assert_eq!(status, 405);
            assert!(contains(&bytes, b"HTTP/1.1 405\r\n"));
            assert!(contains(&bytes, b"\r\n\r\n405"));
        }
        // only Proceed ever reaches a stat or an open
        Policy::Proceed { .. } => panic!("a disallowed method must not proceed"),
    }
}

#[test]
fn missing_host_after_method_check_is_400() {
    let config = base_config();
    let req = Request::new(b"GET /x HTTP/1.1\r\n\r\n").unwrap();
    match policy(&req, &config, false) {
        Policy::Deny(d) => {
            let (_, status) = deny_response(&d, &config);
            assert_eq!(status, 400);
        }
        _ => panic!("expected a denial"),
    }
    // method check still comes first
    let bad = Request::new(b"DELETE /x HTTP/1.1\r\n\r\n").unwrap();
    match policy(&bad, &config, false) {
        Policy::Deny(Denial::MethodNotAllowed) => {}
        _ => panic!("the method check precedes the host check"),
    }
}

#[test]
fn auth_mismatch_and_absence_both_challenge() {
    let mut config = base_config();
    config.auth = Some(b"Basic dXNlcjpwYXNz".to_vec());
    let no_auth = get_request("/x");
    match policy(&no_auth, &config, true) {
        Policy::Deny(d) => {
            assert!(matches!(d, Denial::Unauthorized));
            let (bytes, status) = deny_response(&d, &config);
            assert_eq!(status, 401);
            assert!(contains(&bytes, b"WWW-Authenticate: Basic realm=\"User Visible Realm\"\r\n"));
        }
        _ => panic!("expected a challenge"),
    }
    let wrong =
        Request::new(b"GET /x HTTP/1.1\r\nHost: h\r\nAuthorization: Basic nope\r\n\r\n").unwrap();
    assert!(matches!(policy(&wrong, &config, true), Policy::Deny(Denial::Unauthorized)));
    let right = Request::new(
        b"GET /x HTTP/1.1\r\nHost: h\r\nAuthorization: Basic dXNlcjpwYXNz\r\n\r\n",
    )
    .unwrap();
    assert!(matches!(policy(&right, &config, true), Policy::Proceed { .. }));
}

#[test]
fn redirect_rule_sets_location_and_opens_nothing() {
    let mut config = base_config();
    config.rewrite = Some(vec![
        (
            b"/old".to_vec(),
            Rewrite { url: b"/new".to_vec(), status: RewriteType::_301 },
        ),
        (
            b"/tmp".to_vec(),
            Rewrite { url: b"https://elsewhere".to_vec(), status: RewriteType::_302 },
        ),
    ]);
    let req = get_request("/old");
    match policy(&req, &config, true) {
        Policy::Deny(d) => {
            match &d {
                Denial::Redirect { status, location } => {
                    assert!(matches!(status, StatusCode::_301));
                    assert_eq!(location, &b"/new".to_vec());
                }
                _ => panic!("expected a redirect"),
            }
            let (bytes, status) = deny_response(&d, &config);
            assert_eq!(status, 301);
            assert!(contains(&bytes, b"Location: /new\r\n"));
        }
        _ => panic!("a redirect rule must deny"),
    }
    let tmp = get_request("/tmp");
    match policy(&tmp, &config, true) {
        Policy::Deny(Denial::Redirect { status, location }) => {
            assert!(matches!(status, StatusCode::_302));
            assert_eq!(location, b"https://elsewhere".to_vec());
        }
        _ => panic!("expected the temporary redirect"),
    }
}

#[test]
fn path_substitution_continues_under_the_new_path() {
    let mut config = base_config();
    config.rewrite = Some(vec![(
        b"/alias".to_vec(),
        Rewrite { url: b"/real.html".to_vec(), status: RewriteType::Path },
    )]);
    let req = get_request("/alias");
    match policy(&req, &config, true) {
        Policy::Proceed { path } => {
            assert_eq!(path, b"/real.html".to_vec());
            // the resolved resource reflects the substituted path
            let joined = join_root(&config.root, &path);
            assert_eq!(joined, b"/srv/./real.html".to_vec());
            match resolve(&config, &path, &None, &joined, FsKind::File) {
                Resolution::TryFiles { candidates, on_fail } => {
                    assert_eq!(candidates.len(), 1);
                    assert_eq!(candidates[0].path, joined);
                    assert_eq!(candidates[0].ext, b"html".to_vec());
                    assert!(matches!(on_fail, FallbackPlan::ServerError));
                }
                _ => panic!("a file is opened"),
            }
        }
        _ => panic!("a substitution rule must proceed"),
    }
}

#[test]
fn directory_without_slash_redirects_and_keeps_the_query() {
    let config = base_config();
    let path = b"/dir".to_vec();
    let query = Some(b"?x=1".to_vec());
    let joined = join_root(&config.root, &path);
    match resolve(&config, &path, &query, &joined, FsKind::Directory) {
        Resolution::Redirect { location } => assert_eq!(location, b"/dir/?x=1".to_vec()),
        _ => panic!("expected the trailing-slash redirect"),
    }
    match resolve(&config, &path, &None, &joined, FsKind::Directory) {
        Resolution::Redirect { location } => assert_eq!(location, b"/dir/".to_vec()),
        _ => panic!("expected the trailing-slash redirect"),
    }
}

#[test]
fn directory_with_slash_tries_index_then_listing() {
    let mut config = base_config();
    config.index = Some(b"index.html".to_vec());
    config.directory = Some(see::config::DirectoryOption { time: false, size: false });
    let path = b"/dir/".to_vec();
    let joined = join_root(&config.root, &path);
    match resolve(&config, &path, &None, &joined, FsKind::Directory) {
        Resolution::TryFiles { candidates, on_fail } => {
            assert_eq!(candidates[0].path, b"/srv/./dir/index.html".to_vec());
            assert_eq!(candidates[0].ext, b"html".to_vec());
            assert!(matches!(on_fail, FallbackPlan::Listing));
        }
        _ => panic!("expected the index candidate"),
    }
    config.index = None;
    match resolve(&config, &path, &None, &joined, FsKind::Directory) {
        Resolution::Listing => {}
        _ => panic!("expected the listing"),
    }
    config.directory = None;
    assert!(matches!(
        resolve(&config, &path, &None, &joined, FsKind::Directory),
        Resolution::NotFound
    ));
}

#[test]
fn extension_fallback_probes_in_order_and_only_without_extension() {
    let mut config = base_config();
    config.extensions = Some(vec![b"html".to_vec(), b"json".to_vec()]);
    let path = b"/report".to_vec();
    let joined = join_root(&config.root, &path);
    match resolve(&config, &path, &None, &joined, FsKind::Missing) {
        Resolution::TryFiles { candidates, on_fail } => {
            assert_eq!(candidates.len(), 2);
            assert_eq!(candidates[0].path, b"/srv/./report.html".to_vec());
            assert_eq!(candidates[0].ext, b"html".to_vec());
            assert_eq!(candidates[1].path, b"/srv/./report.json".to_vec());
            assert_eq!(candidates[1].ext, b"json".to_vec());
            assert!(matches!(on_fail, FallbackPlan::NotFound));
        }
        _ => panic!("expected the fallback probes"),
    }
    // when only report.json exists, the shell opens candidates in
    // order and the first success carries its own content type
    let req = get_request("/report");
    let json = see::pipeline::Candidate {
        path: b"/srv/./report.json".to_vec(),
        ext: b"json".to_vec(),
    };
    let (head, encoding) = serve(&req, &config, &json, 10);
    assert!(matches!(encoding, ContentEncoding::Identity));
    assert!(contains(&head, b"HTTP/1.1 200\r\n"));
    assert!(contains(&head, b"Content-Type: application/json\r\n"));
    assert!(contains(&head, b"Content-Length: 10\r\n"));
    // a path that already has an extension never probes
    let extful = b"/report.x".to_vec();
    let joined2 = join_root(&config.root, &extful);
    assert!(matches!(
        resolve(&config, &extful, &None, &joined2, FsKind::Missing),
        Resolution::NotFound
    ));
}

#[test]
fn missing_path_without_fallbacks_is_not_found() {
    let config = base_config();
    let path = b"/gone".to_vec();
    let joined = join_root(&config.root, &path);
    assert!(matches!(
        resolve(&config, &path, &None, &joined, FsKind::Missing),
        Resolution::NotFound
    ));
}

#[test]
fn error_pages_fall_back_on_plain_text() {
    let mut config = base_config();
    assert_eq!(error_page(&config, StatusCode::_404), None);
    config.error = Error {
        _404: Some(b"/srv/404.html".to_vec()),
        _500: None,
    };
    assert_eq!(error_page(&config, StatusCode::_404), Some(b"/srv/404.html".to_vec()));
    assert_eq!(error_page(&config, StatusCode::_500), None);
    let not_found = error_text(&config, StatusCode::_404);
    assert!(contains(&not_found, b"HTTP/1.1 404\r\n"));
    assert!(contains(&not_found, b"\r\n\r\n404"));
    let broken = error_text(&config, StatusCode::_500);
    assert!(contains(&broken, b"HTTP/1.1 500\r\n"));
    assert!(contains(&broken, b"\r\n\r\n500"));
}

#[test]
fn refusals_carry_their_status_digits() {
    let forbidden = refuse(StatusCode::_403);
    assert!(contains(&forbidden, b"HTTP/1.1 403\r\n"));
    assert!(contains(&forbidden, b"\r\n\r\n403"));
    let bad = refuse(StatusCode::_400);
    assert!(contains(&bad, b"HTTP/1.1 400\r\n"));
    assert!(contains(&bad, b"\r\n\r\n400"));
}

#[test]
fn log_sink_class_splits_at_400() {
    assert!(!status_is_error(200));
    assert!(!status_is_error(301));
    assert!(!status_is_error(302));
    assert!(status_is_error(400));
    assert!(status_is_error(401));
    assert!(status_is_error(403));
    assert!(status_is_error(404));
    assert!(status_is_error(405));
    assert!(status_is_error(500));
}

#[test]
fn test_get_extension() {
    assert_eq!(get_extension(b"index.html"), b"html".to_vec());
    assert_eq!(get_extension(b"/index/index.rs"), b"rs".to_vec());
    assert_eq!(get_extension(b""), b"".to_vec());
    assert_eq!(get_extension(b"index"), b"".to_vec());
}

#[test]
fn fill_path_joins_relative_and_keeps_absolute() {
    assert_eq!(fill_path(b"/root", b"/abs/file"), b"/abs/file".to_vec());
    assert_eq!(fill_path(b"/root", b"file"), b"/root/file".to_vec());
    assert_eq!(fill_path(b"/root/", b"file"), b"/root/file".to_vec());
}

#[test]
fn extra_headers_are_sent_and_later_writers_win() {
    let mut config = base_config();
    config.headers = vec![
        Header { key: b"X-One".to_vec(), value: b"1".to_vec() },
        Header { key: b"Content-Type".to_vec(), value: b"overridden/any".to_vec() },
    ];
    let req = get_request("/a.html");
    let cand = see::pipeline::Candidate { path: b"/srv/./a.html".to_vec(), ext: b"html".to_vec() };
    let (head, _) = serve(&req, &config, &cand, 4);
    assert!(contains(&head, b"X-One: 1\r\n"));
    // the pipeline's own content type replaces the configured one
    assert!(contains(&head, b"Content-Type: text/html\r\n"));
    assert!(!contains(&head, b"overridden/any"));
}
