use std::io::Read;

use see::compress::{can_compress, chunk_end, chunk_frame, deflate, gzip, make_chunk};
use see::config::{ContentEncoding, Error, Recording, ServerConfig};
use see::request::Request;

fn config_allowing(exts: Option<Vec<&str>>) -> ServerConfig {
    ServerConfig {
        hosts: None,
        listen: 80,
        root: b"/srv".to_vec(),
        gzip: exts.map(|v| v.into_iter().map(|e| e.as_bytes().to_vec()).collect()),
        directory: None,
        index: None,
        headers: Vec::new(),
        rewrite: None,
        extensions: None,
        methods: see::config::default_methods(),
        auth: None,
        error: Error { _404: None, _500: None },
        log: Recording { success: false, error: false },
    }
}

fn request_accepting(encodings: &str) -> Request {
    let buff = format!(
        "GET /a.css HTTP/1.1\r\nHost: h\r\nAccept-Encoding: {}\r\n\r\n",
        encodings
    )
    .into_bytes();
    Request::new(&buff).unwrap()
}

#[test]
fn extension_outside_the_allow_list_never_compresses() {
    let config = config_allowing(Some(vec!["css", "js"]));
    let req = request_accepting("gzip, deflate");
    assert!(matches!(
        can_compress(&req, &config, b"png"),
        ContentEncoding::Identity
    ));
    // and without any allow-list nothing compresses
    let bare = config_allowing(None);
    assert!(matches!(
        can_compress(&req, &bare, b"css"),
        ContentEncoding::Identity
    ));
}

#[test]
fn client_order_wins_among_recognized_tokens() {
    let config = config_allowing(Some(vec!["css"]));
    assert!(matches!(
        can_compress(&request_accepting("deflate, gzip"), &config, b"css"),
        ContentEncoding::Deflate
    ));
    assert!(matches!(
        can_compress(&request_accepting("gzip, deflate"), &config, b"css"),
        ContentEncoding::Gzip
    ));
    assert!(matches!(
        can_compress(&request_accepting("br, zstd, gzip"), &config, b"css"),
        ContentEncoding::Gzip
    ));
    assert!(matches!(
        can_compress(&request_accepting("br, zstd"), &config, b"css"),
        ContentEncoding::Identity
    ));
}

#[test]
fn no_accept_encoding_header_means_identity() {
    let config = config_allowing(Some(vec!["css"]));
    let req = Request::new(b"GET /a.css HTTP/1.1\r\nHost: h\r\n\r\n").unwrap();
    assert!(matches!(
        can_compress(&req, &config, b"css"),
        ContentEncoding::Identity
    ));
}

#[test]
fn chunks_are_hex_length_framed() {
    assert_eq!(chunk_frame(&b"hello".to_vec()), b"5\r\nhello\r\n".to_vec());
    assert_eq!(chunk_frame(&Vec::new()), b"0\r\n\r\n".to_vec());
    let long = vec![7u8; 255];
    let framed = chunk_frame(&long);
    assert!(framed.starts_with(b"ff\r\n"));
    assert!(framed.ends_with(b"\r\n"));
    assert_eq!(framed.len(), 2 + 2 + 255 + 2);
    assert_eq!(chunk_end(), b"0\r\n\r\n".to_vec());
}

#[test]
fn gzip_chunks_inflate_back_to_the_input() {
    let data = b"the quick brown fox jumps over the lazy dog, twice over. \
                 the quick brown fox jumps over the lazy dog, twice over."
        .to_vec();
    let chunk = make_chunk(&ContentEncoding::Gzip, &data).unwrap();
    // parse the hex length line
    let pos = chunk.windows(2).position(|w| w == b"\r\n").unwrap();
    let len = usize::from_str_radix(std::str::from_utf8(&chunk[..pos]).unwrap(), 16).unwrap();
    let payload = &chunk[pos + 2..pos + 2 + len];
    assert_eq!(&chunk[pos + 2 + len..], b"\r\n");
    // the payload is a transform, not the input handed back
    assert_ne!(payload, &data[..]);
    let mut inflated = Vec::new();
    flate2::read::GzDecoder::new(payload)
        .read_to_end(&mut inflated)
        .unwrap();
    assert_eq!(inflated, data);
}

#[test]
fn deflate_chunks_inflate_back_to_the_input() {
    let data = b"aaaaaaaaaaaaaaaaaaaaaaaaaaaaaaaaaaaaaaaaaaaaaaaabbbbbbbbbb".to_vec();
    let chunk = make_chunk(&ContentEncoding::Deflate, &data).unwrap();
    let pos = chunk.windows(2).position(|w| w == b"\r\n").unwrap();
    let len = usize::from_str_radix(std::str::from_utf8(&chunk[..pos]).unwrap(), 16).unwrap();
    let payload = &chunk[pos + 2..pos + 2 + len];
    assert_ne!(payload, &data[..]);
    let mut inflated = Vec::new();
    flate2::read::DeflateDecoder::new(payload)
        .read_to_end(&mut inflated)
        .unwrap();
    assert_eq!(inflated, data);
}

#[test]
fn raw_codec_wrappers_round_trip() {
    let data = b"compressible compressible compressible".to_vec();
    let gz = gzip(&data).unwrap();
    let mut back = Vec::new();
    flate2::read::GzDecoder::new(&gz[..]).read_to_end(&mut back).unwrap();
    assert_eq!(back, data);
    let df = deflate(&data).unwrap();
    let mut back2 = Vec::new();
    flate2::read::DeflateDecoder::new(&df[..]).read_to_end(&mut back2).unwrap();
    assert_eq!(back2, data);
}
