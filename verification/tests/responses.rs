use see::config::{ContentEncoding, Header};
use see::response::{Response, StatusCode};

fn contains(haystack: &[u8], needle: &[u8]) -> bool {
    haystack.windows(needle.len()).any(|w| w == needle)
}

#[test]
fn text_response_serializes_exactly() {
    let bytes = Response::new(StatusCode::_200, &Vec::new()).text(b"hi");
    assert_eq!(
        bytes,
        b"HTTP/1.1 200\r\nServer: see\r\nContent-Type: text/plain\r\nContent-Length: 2\r\n\r\nhi"
            .to_vec()
    );
}

#[test]
fn html_response_carries_its_content_type() {
    let bytes = Response::new(StatusCode::_200, &Vec::new()).html(b"<p>x</p>".to_vec());
    assert!(contains(&bytes, b"Content-Type: text/html\r\n"));
    assert!(contains(&bytes, b"Content-Length: 8\r\n"));
    assert!(bytes.ends_with(b"\r\n\r\n<p>x</p>"));
}

#[test]
fn rewrite_sets_location_with_an_empty_body() {
    let bytes = Response::new(StatusCode::_302, &Vec::new()).rewrite(b"/there".to_vec());
    assert!(contains(&bytes, b"HTTP/1.1 302\r\n"));
    assert!(contains(&bytes, b"Location: /there\r\n"));
    assert!(contains(&bytes, b"Content-Length: 0\r\n"));
}

#[test]
fn header_last_writer_wins_without_duplicates() {
    let bytes = Response::new(StatusCode::_200, &Vec::new())
        .header(b"X-K", b"old")
        .header(b"X-K", b"new")
        .text(b"");
    assert!(contains(&bytes, b"X-K: new\r\n"));
    assert!(!contains(&bytes, b"old"));
}

#[test]
fn configured_headers_ride_along() {
    let extra = vec![Header { key: b"X-Extra".to_vec(), value: b"yes".to_vec() }];
    let bytes = Response::new(StatusCode::_404, &extra).text(b"404");
    assert!(contains(&bytes, b"HTTP/1.1 404\r\n"));
    assert!(contains(&bytes, b"Server: see\r\n"));
    assert!(contains(&bytes, b"X-Extra: yes\r\n"));
}

#[test]
fn unknown_extension_maps_to_octet_stream() {
    let bytes = Response::new(StatusCode::_200, &Vec::new())
        .content_type(b"weird")
        .text(b"");
    assert!(contains(&bytes, b"Content-Type: text/plain\r\n"));
    let head = Response::new(StatusCode::_200, &Vec::new())
        .content_type(b"weird")
        .file_head(1);
    assert!(contains(&head, b"Content-Type: application/octet-stream\r\n"));
    let known = Response::new(StatusCode::_200, &Vec::new())
        .content_type(b"svg")
        .file_head(1);
    assert!(contains(&known, b"Content-Type: image/svg+xml\r\n"));
}

#[test]
fn identity_stream_heads_carry_the_file_length() {
    let head = Response::new(StatusCode::_200, &Vec::new())
        .content_type(b"txt")
        .compress(ContentEncoding::Identity)
        .file_head(1234);
    assert!(contains(&head, b"Content-Length: 1234\r\n"));
    assert!(!contains(&head, b"Transfer-Encoding"));
    assert!(!contains(&head, b"Content-Encoding"));
    assert!(head.ends_with(b"\r\n\r\n"));
}

#[test]
fn encoded_stream_heads_switch_to_chunked() {
    let head = Response::new(StatusCode::_200, &Vec::new())
        .content_type(b"css")
        .compress(ContentEncoding::Gzip)
        .file_head(1234);
    assert!(contains(&head, b"Content-Encoding: gzip\r\n"));
    assert!(contains(&head, b"Transfer-Encoding: chunked\r\n"));
    assert!(!contains(&head, b"Content-Length"));
    let head = Response::new(StatusCode::_200, &Vec::new())
        .compress(ContentEncoding::Deflate)
        .file_head(9);
    assert!(contains(&head, b"Content-Encoding: deflate\r\n"));
}

#[test]
fn basic_builder_concatenates_its_parts() {
    let bytes = see::basic::Response::new(see::basic::Status::Success)
        .header(b"X", b"1")
        .content_type(b"html")
        .body(b"page");
    assert_eq!(
        bytes,
        b"HTTP/1.1 200 OK\r\nServer: sfs\r\nX: 1\r\nContent-Type: text/html\r\n\r\npage".to_vec()
    );
    let not = see::basic::Response::new(see::basic::Status::Not).body(b"");
    assert_eq!(not, b"HTTP/1.1 404 Not Found\r\nServer: sfs\r\n\r\n".to_vec());
}
