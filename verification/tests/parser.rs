use see::request::Request;

#[test]
fn test_split() {
    assert_eq!(Request::split(&vec![], &[1]), Vec::<Vec<u8>>::new());
    assert_eq!(Request::split(&vec![1, 2], &[1]), vec![vec![2]]);
    assert_eq!(Request::split(&vec![1, 2], &[2]), vec![vec![1]]);
    assert_eq!(Request::split(&vec![1, 2, 3], &[2]), vec![vec![1], vec![3]]);
    assert_eq!(
        Request::split(&vec![49, 50, 51, 52, 53], &[51]),
        vec![vec![49, 50], vec![52, 53]]
    );
    assert_eq!(
        Request::split(&vec![1, 2, 3, 4, 5, 6], &[1, 2, 3, 4, 5, 6]),
        Vec::<Vec<u8>>::new()
    );
}

#[test]
fn test_parse_first() {
    assert_eq!(Request::first(&b"".to_vec()), Err(()));
    assert_eq!(Request::first(&b"POST /abc".to_vec()), Err(()));
    assert_eq!(
        Request::first(&b"POST /abc HTTP/1.1".to_vec()),
        Ok((b"POST".to_vec(), b"/abc".to_vec(), None))
    );
    assert_eq!(
        Request::first(&b"GET /abc?type=1 HTTP/1.1".to_vec()),
        Ok((
            b"GET".to_vec(),
            b"/abc".to_vec(),
            Some(b"?type=1".to_vec())
        ))
    );
}

#[test]
fn test_parse_request() {
    let buff = b"\
        GET /abc?type=1 HTTP/1.1\r\n\
        Host: 127.0.0.1\r\n\
        Accept-Encoding: gzip, deflate, br\r\n\
        \r\n\r\n\
        hello world\
    ";
    let req = Request::new(buff).unwrap();
    assert_eq!(&req.method, b"GET");
    assert_eq!(&req.path, b"/abc");
    assert_eq!(req.header(b"host").unwrap(), &b"127.0.0.1".to_vec());
    assert_eq!(
        req.header(b"accept-encoding").unwrap(),
        &b"gzip, deflate, br".to_vec()
    );
}

#[test]
fn header_lookup_is_case_insensitive() {
    let buff = b"GET / HTTP/1.1\r\nHost: example.com\r\nX-Custom-THING: Value\r\n\r\n";
    let req = Request::new(buff).unwrap();
    assert_eq!(req.header(b"host").unwrap(), &b"example.com".to_vec());
    assert_eq!(req.header(b"x-custom-thing").unwrap(), &b"Value".to_vec());
    assert!(req.header(b"absent").is_none());
}

#[test]
fn percent_decoded_path_and_query() {
    let req = Request::new(b"GET /a%20b?x%3Dy HTTP/1.1\r\n\r\n").unwrap();
    assert_eq!(&req.path, b"/a b");
    assert_eq!(req.query, Some(b"?x=y".to_vec()));
}

#[test]
fn invalid_utf8_path_fails_the_parse() {
    // %FF decodes to a byte that no UTF-8 string holds alone
    assert!(Request::new(b"GET /%FF HTTP/1.1\r\n\r\n").is_err());
}

#[test]
fn invalid_utf8_query_is_dropped_not_fatal() {
    let req = Request::new(b"GET /ok?%FF HTTP/1.1\r\n\r\n").unwrap();
    assert_eq!(&req.path, b"/ok");
    assert_eq!(req.query, None);
}

#[test]
fn wrong_token_count_fails_the_parse() {
    assert!(Request::new(b"GET /abc HTTP/1.1 extra\r\n\r\n").is_err());
    assert!(Request::new(b"GET\r\n\r\n").is_err());
}

#[test]
fn body_line_ends_header_parsing() {
    let buff = b"GET / HTTP/1.1\r\nHost: h\r\n\r\nnot a header\r\nAfter: x\r\n";
    let req = Request::new(buff).unwrap();
    assert_eq!(req.header(b"host").unwrap(), &b"h".to_vec());
    // "not a header" carries no ": ", so nothing after it is a header
    assert!(req.header(b"after").is_none());
}

#[test]
fn percent_round_trip_restores_reserved_characters() {
    let segment: &[u8] = b"a b/c?d&e=f%g#h";
    let encoded = see::percent::percent_encode(segment);
    assert_eq!(encoded, b"a%20b%2Fc%3Fd%26e%3Df%25g%23h".to_vec());
    let decoded = see::percent::percent_decode(&encoded);
    assert_eq!(decoded, segment.to_vec());
}

#[test]
fn percent_decode_keeps_lone_percent() {
    assert_eq!(see::percent::percent_decode(b"100%"), b"100%".to_vec());
    assert_eq!(see::percent::percent_decode(b"%zz"), b"%zz".to_vec());
    assert_eq!(see::percent::percent_decode(b"%2f%2F"), b"//".to_vec());
}
