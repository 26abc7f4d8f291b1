//! Compression negotiation and chunked transfer framing. The gzip and
//! deflate byte transforms themselves run through `flate2`; everything
//! decided about them (when to compress, how to frame what came back)
//! is verified here.

use vstd::prelude::*;

use crate::bytes_util::{bytes_eq, contains_bytes, seq_holds};
use std::io::Write;
use crate::config::{ConfigView, ContentEncoding, ServerConfig};
use crate::dec::{hex_digits, usize_to_hex};
use crate::request::{lookup, split_bytes, Request};

verus! {

/// `',' ' '`, the delimiter between `accept-encoding` tokens.
pub const COMMA_SPACE: [u8; 2] = [44, 32];

/// The first recognized token wins, in the order the client sent them:
/// `gzip` or `deflate`; unrecognized tokens are skipped; none
/// recognized means no compression.
pub open spec fn encoding_pick(tokens: Seq<Seq<u8>>) -> ContentEncoding
    decreases tokens.len(),
{
    if tokens.len() == 0 {
        ContentEncoding::Identity
    } else if tokens[0] == seq![103u8, 122u8, 105u8, 112u8] {  // "gzip"
        ContentEncoding::Gzip
    } else if tokens[0] == seq![100u8, 101u8, 102u8, 108u8, 97u8, 116u8, 101u8] {  // "deflate"
        ContentEncoding::Deflate
    } else {
        encoding_pick(tokens.skip(1))
    }
}

/// What compression a response body gets: none unless the host has an
/// allow-list naming the resource's extension; otherwise the first
/// recognized token of the client's `accept-encoding`, in client
/// order.
pub open spec fn can_compress_spec(
    headers: Seq<(Seq<u8>, Seq<u8>)>,
    c: ConfigView,
    ext: Seq<u8>,
) -> ContentEncoding {
    match c.gzip {
        None => ContentEncoding::Identity,
        Some(exts) => if !seq_holds(exts, ext) {
            ContentEncoding::Identity
        } else {
            // "accept-encoding"
            match lookup(
                headers,
                seq![
                    97u8, 99u8, 99u8, 101u8, 112u8, 116u8, 45u8, 101u8, 110u8, 99u8, 111u8,
                    100u8, 105u8, 110u8, 103u8,
                ],
            ) {
                None => ContentEncoding::Identity,
                Some(v) => encoding_pick(split_bytes(v, seq![44u8, 32u8])),
            }
        },
    }
}

/// Decides the content encoding for one resource, exactly as
/// `can_compress_spec` says. An extension outside the allow-list never
/// compresses, whatever the client asked for.
#[verifier::loop_isolation(false)]
pub fn can_compress(req: &Request, config: &ServerConfig, ext: &[u8]) -> (r: ContentEncoding)
    ensures
        r == can_compress_spec(req@.headers, config@, ext@),
{
    let exts = match &config.gzip {
        Some(exts) => exts,
        None => {
            return ContentEncoding::Identity;
        },
    };
    proof {
        assert(config@.gzip == Some(exts.deep_view()));
    }
    if !contains_bytes(exts, ext) {
        return ContentEncoding::Identity;
    }
    // "accept-encoding"
    let key: Vec<u8> = vec![97, 99, 99, 101, 112, 116, 45, 101, 110, 99, 111, 100, 105, 110, 103];
    let value = match req.header(key.as_slice()) {
        Some(v) => v,
        None => {
            return ContentEncoding::Identity;
        },
    };
    let tokens = Request::split(value, &COMMA_SPACE);
    let ghost tv = tokens.deep_view();
    proof {
        assert(COMMA_SPACE@ =~= seq![44u8, 32u8]);
        assert(tv.len() == tokens@.len());
        assert(tv.skip(0) =~= tv);
    }
    // "gzip", "deflate"
    let gz: Vec<u8> = vec![103, 122, 105, 112];
    let df: Vec<u8> = vec![100, 101, 102, 108, 97, 116, 101];
    let mut k: usize = 0;
    while k < tokens.len()
        invariant
            k <= tokens@.len(),
            encoding_pick(tv.skip(k as int)) == encoding_pick(tv),
        decreases tokens@.len() - k,
    {
        let ghost tail = tv.skip(k as int);
        proof {
            assert(tail[0] == tv[k as int]);
            assert(tv[k as int] == tokens@[k as int].deep_view());
            assert(tokens@[k as int].deep_view() =~= tokens@[k as int]@);
            assert(tail.skip(1) =~= tv.skip(k + 1));
        }
        if bytes_eq(tokens[k].as_slice(), gz.as_slice()) {
            proof {
                assert(gz@ =~= seq![103u8, 122u8, 105u8, 112u8]);
            }
            return ContentEncoding::Gzip;
        }
        if bytes_eq(tokens[k].as_slice(), df.as_slice()) {
            proof {
                assert(df@ =~= seq![100u8, 101u8, 102u8, 108u8, 97u8, 116u8, 101u8]);
                assert(gz@ =~= seq![103u8, 122u8, 105u8, 112u8]);
            }
            return ContentEncoding::Deflate;
        }
        proof {
            assert(gz@ =~= seq![103u8, 122u8, 105u8, 112u8]);
            assert(df@ =~= seq![100u8, 101u8, 102u8, 108u8, 97u8, 116u8, 101u8]);
        }
        k += 1;
    }
    proof {
        assert(tv.skip(tokens@.len() as int) =~= Seq::<Seq<u8>>::empty());
    }
    ContentEncoding::Identity
}

/// One HTTP chunk: the body length in lower-case hex, CRLF, the body,
/// CRLF.
pub open spec fn chunk_bytes(data: Seq<u8>) -> Seq<u8> {
    hex_digits(data.len()) + seq![13u8, 10u8] + data + seq![13u8, 10u8]
}

/// Frames one buffer as one HTTP chunk.
pub fn chunk_frame(data: &Vec<u8>) -> (r: Vec<u8>)
    ensures
        r@ == chunk_bytes(data@),
{
    let mut r = usize_to_hex(data.len());
    r.push(13);
    r.push(10);
    crate::bytes_util::push_bytes(&mut r, data.as_slice());
    r.push(13);
    r.push(10);
    proof {
        assert(r@ =~= chunk_bytes(data@));
    }
    r
}

/// The zero-length chunk that terminates a chunked stream: `0 CRLF
/// CRLF`.
pub fn chunk_end() -> (r: Vec<u8>)
    ensures
        r@ == seq![48u8, 13u8, 10u8, 13u8, 10u8],
{
    let r: Vec<u8> = vec![48, 13, 10, 13, 10];
    proof {
        assert(r@ =~= seq![48u8, 13u8, 10u8, 13u8, 10u8]);
    }
    r
}

/// What flate2's gzip transform at the default level yields for a
/// buffer. flate2's pure-Rust backend writes a fixed header (zero
/// mtime, operating-system byte 255) and a stream that depends on the
/// input bytes alone, so the result deserves a name.
pub uninterp spec fn gzip_of(data: Seq<u8>) -> Seq<u8>;

/// What flate2's deflate transform at the default level yields for a
/// buffer; a function of the input bytes alone, like `gzip_of`.
pub uninterp spec fn deflate_of(data: Seq<u8>) -> Seq<u8>;

/// Relies on flate2's `GzEncoder` over an in-memory buffer at the
/// default compression level: on success the result is the gzip
/// transform of the input, a function of the input bytes alone.
#[verifier::external_body]
pub fn gzip(data: &[u8]) -> (r: Option<Vec<u8>>)
    ensures
        r matches Some(c) ==> c@ == gzip_of(data@),
{
    let mut e = flate2::write::GzEncoder::new(Vec::new(), flate2::Compression::default());
    if e.write_all(data).is_err() {
        return None;
    }
    e.finish().ok()
}

/// Relies on flate2's `DeflateEncoder` over an in-memory buffer at the
/// default compression level: on success the result is the deflate
/// transform of the input, a function of the input bytes alone.
#[verifier::external_body]
pub fn deflate(data: &[u8]) -> (r: Option<Vec<u8>>)
    ensures
        r matches Some(c) ==> c@ == deflate_of(data@),
{
    let mut e = flate2::write::DeflateEncoder::new(Vec::new(), flate2::Compression::default());
    if e.write_all(data).is_err() {
        return None;
    }
    e.finish().ok()
}

/// Compresses one read's bytes under the chosen encoding and frames
/// the result as one HTTP chunk; `None` when the codec failed, which
/// abandons the stream after the last chunk already written.
pub fn make_chunk(encoding: &ContentEncoding, data: &[u8]) -> (r: Option<Vec<u8>>)
    ensures
        match encoding {
            ContentEncoding::Gzip => r matches Some(c) ==> c@ == chunk_bytes(gzip_of(data@)),
            ContentEncoding::Deflate => r matches Some(c) ==> c@ == chunk_bytes(deflate_of(data@)),
            ContentEncoding::Identity => r is None,
        },
{
    match encoding {
        ContentEncoding::Gzip => {
            match gzip(data) {
                Some(c) => Some(chunk_frame(&c)),
                None => None,
            }
        },
        ContentEncoding::Deflate => {
            match deflate(data) {
                Some(c) => Some(chunk_frame(&c)),
                None => None,
            }
        },
        ContentEncoding::Identity => None,
    }
}

} // verus!
