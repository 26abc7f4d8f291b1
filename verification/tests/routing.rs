use see::config::{Error, Recording, ServerConfig};
use see::request::Request;
use see::route::{route, strip_host_port, RouteOutcome};

fn host_config(aliases: Option<Vec<&str>>, listen: i64) -> ServerConfig {
    ServerConfig {
        hosts: aliases.map(|v| v.into_iter().map(|a| a.as_bytes().to_vec()).collect()),
        listen,
        root: b"/srv".to_vec(),
        gzip: None,
        directory: None,
        index: None,
        headers: Vec::new(),
        rewrite: None,
        extensions: None,
        methods: see::config::default_methods(),
        auth: None,
        error: Error { _404: None, _500: None },
        log: Recording { success: false, error: false },
    }
}

fn request_for(host: Option<&str>) -> Request {
    let buff = match host {
        Some(h) => format!("GET / HTTP/1.1\r\nHost: {}\r\n\r\n", h).into_bytes(),
        None => b"GET / HTTP/1.1\r\n\r\n".to_vec(),
    };
    Request::new(&buff).unwrap()
}

#[test]
fn alias_match_wins_with_port_stripped() {
    let configs = vec![
        host_config(Some(vec!["a.com"]), 8080),
        host_config(Some(vec!["b.com"]), 8080),
        host_config(None, 8080),
    ];
    match route(&request_for(Some("a.com:8080")), &configs) {
        RouteOutcome::Found { index, host_present } => {
            assert_eq!(index, 0);
            assert!(host_present);
        }
        _ => panic!("expected a match"),
    }
    match route(&request_for(Some("b.com")), &configs) {
        RouteOutcome::Found { index, .. } => assert_eq!(index, 1),
        _ => panic!("expected a match"),
    }
}

#[test]
fn unknown_host_falls_back_on_the_default() {
    let configs = vec![
        host_config(Some(vec!["a.com"]), 8080),
        host_config(Some(vec!["b.com"]), 8080),
        host_config(None, 8080),
    ];
    match route(&request_for(Some("unknown.com")), &configs) {
        RouteOutcome::Found { index, host_present } => {
            assert_eq!(index, 2);
            assert!(host_present);
        }
        _ => panic!("expected the default host"),
    }
}

#[test]
fn unmatched_host_without_default_is_no_match() {
    let configs = vec![
        host_config(Some(vec!["a.com"]), 8080),
        host_config(Some(vec!["b.com"]), 8080),
    ];
    assert!(matches!(
        route(&request_for(Some("unknown.com")), &configs),
        RouteOutcome::NoMatch
    ));
}

#[test]
fn missing_host_header_routes_to_default_or_no_host() {
    let with_default = vec![host_config(Some(vec!["a.com"]), 80), host_config(None, 80)];
    match route(&request_for(None), &with_default) {
        RouteOutcome::Found { index, host_present } => {
            assert_eq!(index, 1);
            assert!(!host_present);
        }
        _ => panic!("expected the default host"),
    }
    let without_default = vec![host_config(Some(vec!["a.com"]), 80)];
    assert!(matches!(
        route(&request_for(None), &without_default),
        RouteOutcome::NoHost
    ));
}

#[test]
fn strip_host_port_strips_only_the_listening_port() {
    assert_eq!(strip_host_port(&b"a.com:8080".to_vec(), 8080), b"a.com".to_vec());
    assert_eq!(strip_host_port(&b"a.com:9090".to_vec(), 8080), b"a.com:9090".to_vec());
    assert_eq!(strip_host_port(&b"a.com".to_vec(), 8080), b"a.com".to_vec());
}
