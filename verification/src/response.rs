//! The response builder: a status line, a header table where the last
//! writer for a key wins, and a body that is either materialized bytes
//! or a streamed file whose head is emitted here. Serialization is
//! pinned to `head_bytes`, byte for byte.

use vstd::prelude::*;

use crate::bytes_util::{bytes_eq, push_bytes};
use crate::config::{ContentEncoding, Header};
use crate::dec::{dec_digits, u64_to_dec};
use crate::mime::{mime_lookup, mime_of};

verus! {

/// `HTTP/1.1`, the protocol version of every status line.
pub open spec fn http_version() -> Seq<u8> {
    seq![72u8, 84u8, 84u8, 80u8, 47u8, 49u8, 46u8, 49u8]  // "HTTP/1.1"
}

/// The `Content-Type` header name.
pub open spec fn content_type_key() -> Seq<u8> {
    seq![67u8, 111u8, 110u8, 116u8, 101u8, 110u8, 116u8, 45u8, 84u8, 121u8, 112u8, 101u8]  // "Content-Type"
}

/// The `text/plain` media type.
pub open spec fn mime_text_plain() -> Seq<u8> {
    seq![116u8, 101u8, 120u8, 116u8, 47u8, 112u8, 108u8, 97u8, 105u8, 110u8]  // "text/plain"
}

/// The `text/html` media type.
pub open spec fn mime_text_html() -> Seq<u8> {
    seq![116u8, 101u8, 120u8, 116u8, 47u8, 104u8, 116u8, 109u8, 108u8]  // "text/html"
}

/// The `Content-Length` header name.
pub open spec fn content_length_key() -> Seq<u8> {
    seq![67u8, 111u8, 110u8, 116u8, 101u8, 110u8, 116u8, 45u8, 76u8, 101u8, 110u8, 103u8, 116u8, 104u8]  // "Content-Length"
}

/// The `Location` header name.
pub open spec fn location_key() -> Seq<u8> {
    seq![76u8, 111u8, 99u8, 97u8, 116u8, 105u8, 111u8, 110u8]  // "Location"
}

/// The `Content-Encoding` header name.
pub open spec fn content_encoding_key() -> Seq<u8> {
    seq![67u8, 111u8, 110u8, 116u8, 101u8, 110u8, 116u8, 45u8, 69u8, 110u8, 99u8, 111u8, 100u8, 105u8, 110u8, 103u8]  // "Content-Encoding"
}

/// The `Transfer-Encoding` header name.
pub open spec fn transfer_encoding_key() -> Seq<u8> {
    seq![84u8, 114u8, 97u8, 110u8, 115u8, 102u8, 101u8, 114u8, 45u8, 69u8, 110u8, 99u8, 111u8, 100u8, 105u8, 110u8, 103u8]  // "Transfer-Encoding"
}

/// The `gzip` content-coding token.
pub open spec fn enc_gzip() -> Seq<u8> {
    seq![103u8, 122u8, 105u8, 112u8]  // "gzip"
}

/// The `deflate` content-coding token.
pub open spec fn enc_deflate() -> Seq<u8> {
    seq![100u8, 101u8, 102u8, 108u8, 97u8, 116u8, 101u8]  // "deflate"
}

/// The `chunked` transfer-coding token.
pub open spec fn te_chunked() -> Seq<u8> {
    seq![99u8, 104u8, 117u8, 110u8, 107u8, 101u8, 100u8]  // "chunked"
}

/// The `WWW-Authenticate` header name.
pub open spec fn www_authenticate_key() -> Seq<u8> {
    seq![87u8, 87u8, 87u8, 45u8, 65u8, 117u8, 116u8, 104u8, 101u8, 110u8, 116u8, 105u8, 99u8, 97u8, 116u8, 101u8]  // "WWW-Authenticate"
}

/// The Basic-scheme challenge sent with every 401.
pub open spec fn basic_challenge() -> Seq<u8> {
    seq![66u8, 97u8, 115u8, 105u8, 99u8, 32u8, 114u8, 101u8, 97u8, 108u8, 109u8, 61u8, 34u8, 85u8, 115u8, 101u8, 114u8, 32u8, 86u8, 105u8, 115u8, 105u8, 98u8, 108u8, 101u8, 32u8, 82u8, 101u8, 97u8, 108u8, 109u8, 34u8]  // "Basic realm='User Visible Realm'"
}

/// The `Server` header name.
pub open spec fn server_key() -> Seq<u8> {
    seq![83u8, 101u8, 114u8, 118u8, 101u8, 114u8]  // "Server"
}

/// The server's own name, sent on every response.
pub open spec fn server_name() -> Seq<u8> {
    seq![115u8, 101u8, 101u8]  // "see"
}

/// The status lines this server ever sends.
#[derive(Clone, Copy, Debug)]
pub enum StatusCode {
    _200,
    _301,
    _302,
    _400,
    _401,
    _403,
    _404,
    _405,
    _500,
}

impl StatusCode {
    /// The numeric code of the status.
    pub open spec fn spec_code(self) -> u16 {
        match self {
            StatusCode::_200 => 200,
            StatusCode::_301 => 301,
            StatusCode::_302 => 302,
            StatusCode::_400 => 400,
            StatusCode::_401 => 401,
            StatusCode::_403 => 403,
            StatusCode::_404 => 404,
            StatusCode::_405 => 405,
            StatusCode::_500 => 500,
        }
    }

    pub fn code(&self) -> (c: u16)
        ensures
            c == self.spec_code(),
    {
        match self {
            StatusCode::_200 => 200,
            StatusCode::_301 => 301,
            StatusCode::_302 => 302,
            StatusCode::_400 => 400,
            StatusCode::_401 => 401,
            StatusCode::_403 => 403,
            StatusCode::_404 => 404,
            StatusCode::_405 => 405,
            StatusCode::_500 => 500,
        }
    }
}

/// The least index of `key` in the header table, or `-1`.
pub open spec fn find_key(hs: Seq<(Seq<u8>, Seq<u8>)>, key: Seq<u8>) -> int
    decreases hs.len(),
{
    if hs.len() == 0 {
        -1
    } else if hs[0].0 == key {
        0
    } else {
        let r = find_key(hs.skip(1), key);
        if r < 0 {
            -1
        } else {
            r + 1
        }
    }
}

pub proof fn lemma_find_key(hs: Seq<(Seq<u8>, Seq<u8>)>, key: Seq<u8>)
    ensures
        ({
            let r = find_key(hs, key);
            &&& r >= 0 ==> 0 <= r < hs.len() && hs[r].0 == key && (forall|j: int|
                0 <= j < r ==> hs[j].0 != key)
            &&& r < 0 ==> forall|j: int| 0 <= j < hs.len() ==> hs[j].0 != key
        }),
    decreases hs.len(),
{
    if hs.len() == 0 {
    } else if hs[0].0 == key {
    } else {
        lemma_find_key(hs.skip(1), key);
        let t = hs.skip(1);
        let r = find_key(t, key);
        if r >= 0 {
            assert(t[r] == hs[r + 1]);
            assert forall|j: int| 0 <= j < r + 1 implies hs[j].0 != key by {
                if j > 0 {
                    assert(t[j - 1] == hs[j]);
                }
            }
        } else {
            assert forall|j: int| 0 <= j < hs.len() implies hs[j].0 != key by {
                if j > 0 {
                    assert(t[j - 1] == hs[j]);
                }
            }
        }
    }
}

/// Sets `key` to `value` in the header table: the first entry with the
/// key is overwritten in place, else the pair is appended. The last
/// writer for a key wins, and no two entries share a key once every
/// entry went through this.
pub open spec fn set_header(
    hs: Seq<(Seq<u8>, Seq<u8>)>,
    key: Seq<u8>,
    value: Seq<u8>,
) -> Seq<(Seq<u8>, Seq<u8>)> {
    let i = find_key(hs, key);
    if i < 0 {
        hs.push((key, value))
    } else {
        hs.update(i, (key, value))
    }
}

/// Folds `set_header` over a list of pairs, first to last.
pub open spec fn set_all(
    hs: Seq<(Seq<u8>, Seq<u8>)>,
    items: Seq<(Seq<u8>, Seq<u8>)>,
) -> Seq<(Seq<u8>, Seq<u8>)>
    decreases items.len(),
{
    if items.len() == 0 {
        hs
    } else {
        set_all(set_header(hs, items[0].0, items[0].1), items.skip(1))
    }
}

/// The serialized header block: one `key: value` CRLF line per entry,
/// in table order.
pub open spec fn render_headers(hs: Seq<(Seq<u8>, Seq<u8>)>) -> Seq<u8>
    decreases hs.len(),
{
    if hs.len() == 0 {
        seq![]
    } else {
        hs[0].0 + seq![58u8, 32u8] + hs[0].1 + seq![13u8, 10u8] + render_headers(hs.skip(1))
    }
}

/// The serialized head: status line, header block, and the blank line
/// that ends it.
pub open spec fn head_bytes(version: Seq<u8>, status: u16, hs: Seq<(Seq<u8>, Seq<u8>)>) -> Seq<u8> {
    version + seq![32u8] + dec_digits(status as nat) + seq![13u8, 10u8] + render_headers(hs)
        + seq![13u8, 10u8]
}

/// The header table a streamed body gets: its content encoding named
/// when a codec transforms it, and either an exact `Content-Length`
/// (identity) or chunked transfer framing (encoded).
pub open spec fn stream_headers(
    hs: Seq<(Seq<u8>, Seq<u8>)>,
    encoding: ContentEncoding,
    file_len: u64,
) -> Seq<(Seq<u8>, Seq<u8>)> {
    let hs1 = match encoding {
        ContentEncoding::Gzip => set_header(hs, content_encoding_key(), enc_gzip()),
        ContentEncoding::Deflate => set_header(hs, content_encoding_key(), enc_deflate()),
        ContentEncoding::Identity => hs,
    };
    match encoding {
        ContentEncoding::Identity => set_header(
            hs1,
            content_length_key(),
            dec_digits(file_len as nat),
        ),
        _ => set_header(hs1, transfer_encoding_key(), te_chunked()),
    }
}

pub ghost struct RespView {
    pub version: Seq<u8>,
    pub status: u16,
    pub header: Seq<(Seq<u8>, Seq<u8>)>,
    pub body: Seq<u8>,
    pub encoding: ContentEncoding,
}

/// One response under construction: built fresh per request, never
/// reused.
pub struct Response {
    version: Vec<u8>,
    status: u16,
    header: Vec<(Vec<u8>, Vec<u8>)>,
    body: Vec<u8>,
    encoding: ContentEncoding,
}

impl View for Response {
    type V = RespView;

    closed spec fn view(&self) -> RespView {
        RespView {
            version: self.version@,
            status: self.status,
            header: self.header.deep_view(),
            body: self.body@,
            encoding: self.encoding,
        }
    }
}

/// Sets `key` to `value` in an exec header table, as `set_header`
/// says.
#[verifier::loop_isolation(false)]
fn insert_header(hs: &mut Vec<(Vec<u8>, Vec<u8>)>, key: Vec<u8>, value: Vec<u8>)
    ensures
        final(hs).deep_view() == set_header(old(hs).deep_view(), key@, value@),
{
    let ghost hv = hs.deep_view();
    proof {
        lemma_find_key(hv, key@);
    }
    let ghost fk = find_key(hv, key@);
    let mut i: usize = 0;
    while i < hs.len()
        invariant
            i <= hs@.len(),
            hs == old(hs),
            forall|j: int| 0 <= j < i ==> hv[j].0 != key@,
        decreases hs@.len() - i,
    {
        proof {
            assert(hv[i as int] == hs@[i as int].deep_view());
            assert(hv[i as int].0 =~= hs@[i as int].0@);
            assert(hv[i as int].1 =~= hs@[i as int].1@);
        }
        if bytes_eq(hs[i].0.as_slice(), key.as_slice()) {
            proof {
                if fk < 0 {
                    assert(false);
                } else if fk < i as int {
                    assert(hv[fk].0 == key@);
                    assert(false);
                } else if fk > i as int {
                    assert(false);
                }
            }
            hs.remove(i);
            hs.insert(i, (key, value));
            proof {
                assert(hs.deep_view() =~~= set_header(hv, key@, value@));
            }
            return;
        }
        i += 1;
    }
    proof {
        if fk >= 0 {
            assert(hv[fk].0 == key@);
            assert(false);
        }
    }
    hs.push((key, value));
    proof {
        assert(hs.deep_view() =~~= set_header(hv, key@, value@));
    }
}

/// Serializes a status line and header table, as `head_bytes` says.
#[verifier::loop_isolation(false)]
fn render(version: &Vec<u8>, status: u16, header: &Vec<(Vec<u8>, Vec<u8>)>) -> (r: Vec<u8>)
    ensures
        r@ == head_bytes(version@, status, header.deep_view()),
{
    let ghost hv = header.deep_view();
    let mut out: Vec<u8> = Vec::new();
    push_bytes(&mut out, version.as_slice());
    out.push(32);
    let digits = u64_to_dec(status as u64);
    push_bytes(&mut out, digits.as_slice());
    out.push(13);
    out.push(10);
    let ghost opening = out@;
    proof {
        assert(opening =~= version@ + seq![32u8] + dec_digits(status as nat) + seq![13u8, 10u8]);
        assert(hv.skip(0) =~= hv);
    }
    let mut i: usize = 0;
    while i < header.len()
        invariant
            i <= header@.len(),
            out@ + render_headers(hv.skip(i as int)) == opening + render_headers(hv),
        decreases header@.len() - i,
    {
        let ghost tail = hv.skip(i as int);
        let ghost prev = out@;
        proof {
            assert(tail[0] == hv[i as int]);
            assert(hv[i as int] == header@[i as int].deep_view());
            assert(header@[i as int].deep_view().0 =~= header@[i as int].0@);
            assert(header@[i as int].deep_view().1 =~= header@[i as int].1@);
            assert(tail.skip(1) =~= hv.skip(i + 1));
        }
        push_bytes(&mut out, header[i].0.as_slice());
        out.push(58);
        out.push(32);
        push_bytes(&mut out, header[i].1.as_slice());
        out.push(13);
        out.push(10);
        proof {
            let line = tail[0].0 + seq![58u8, 32u8] + tail[0].1 + seq![13u8, 10u8];
            assert(out@ =~= prev + line);
            assert(render_headers(tail) == line + render_headers(tail.skip(1)));
            assert(out@ + render_headers(hv.skip(i + 1)) =~= prev + render_headers(tail));
        }
        i += 1;
    }
    proof {
        assert(hv.skip(header@.len() as int) =~= Seq::<(Seq<u8>, Seq<u8>)>::empty());
    }
    out.push(13);
    out.push(10);
    proof {
        assert(out@ =~= head_bytes(version@, status, hv));
    }
    out
}

impl Response {
    /// Starts a response: protocol version, numeric status, the
    /// server's own name, then the host's configured extra headers,
    /// later writers winning over earlier ones.
    pub fn new(status: StatusCode, headers: &Vec<Header>) -> (r: Response)
        ensures
            r@.version == http_version(),  // "HTTP/1.1"
            r@.status == status.spec_code(),
            r@.header == set_all(
                seq![(server_key(), server_name())],  // "Server: see"
                headers.deep_view(),
            ),
            r@.body == Seq::<u8>::empty(),
            r@.encoding == ContentEncoding::Identity,
    {
        let version: Vec<u8> = vec![72, 84, 84, 80, 47, 49, 46, 49];  // "HTTP/1.1"
        let mut header: Vec<(Vec<u8>, Vec<u8>)> = Vec::new();
        let skey: Vec<u8> = vec![83, 101, 114, 118, 101, 114];  // "Server"
        let sval: Vec<u8> = vec![115, 101, 101];  // "see"
        header.push((skey, sval));
        let ghost base = header.deep_view();
        proof {
            assert(base =~~= seq![(server_key(), server_name())]);
        }
        let ghost items = headers.deep_view();
        let mut i: usize = 0;
        proof {
            assert(items.skip(0) =~= items);
        }
        let mut r = Response {
            version,
            status: status.code(),
            header,
            body: Vec::new(),
            encoding: ContentEncoding::Identity,
        };
        proof {
            assert(r.version@ =~= http_version());
        }
        while i < headers.len()
            invariant
                i <= headers@.len(),
                items == headers.deep_view(),
                items.len() == headers@.len(),
                r@.version == http_version(),
                r@.status == status.spec_code(),
                r@.body == Seq::<u8>::empty(),
                r@.encoding == ContentEncoding::Identity,
                set_all(r@.header, items.skip(i as int)) == set_all(base, items),
            decreases headers@.len() - i,
        {
            let ghost tail = items.skip(i as int);
            proof {
                assert(tail[0] == items[i as int]);
                assert(items[i as int] == headers@[i as int].deep_view());
                assert(tail.skip(1) =~= items.skip(i + 1));
            }
            insert_header(&mut r.header, headers[i].key.clone(), headers[i].value.clone());
            i += 1;
        }
        proof {
            assert(items.skip(headers@.len() as int) =~= Seq::<(Seq<u8>, Seq<u8>)>::empty());
        }
        r
    }

    /// Sets one header, the last writer for the key winning.
    pub fn header(self, key: &[u8], value: &[u8]) -> (r: Response)
        ensures
            r@ == (RespView {
                header: set_header(self@.header, key@, value@),
                ..self@
            }),
    {
        let mut r = self;
        insert_header(&mut r.header, vstd::slice::slice_to_vec(key), vstd::slice::slice_to_vec(value));
        r
    }

    /// Sets `Content-Type` from a file extension via the MIME table.
    pub fn content_type(self, ext: &[u8]) -> (r: Response)
        ensures
            r@ == (RespView {
                header: set_header(self@.header, content_type_key(), mime_of(ext@)),
                ..self@
            }),
    {
        let value = mime_lookup(ext);
        let key: Vec<u8> = vec![67, 111, 110, 116, 101, 110, 116, 45, 84, 121, 112, 101];  // "Content-Type"
        proof {
            assert(key@ =~= content_type_key());
        }
        let mut r = self;
        insert_header(&mut r.header, key, value);
        r
    }

    /// Records the body's content encoding.
    pub fn compress(self, encoding: ContentEncoding) -> (r: Response)
        ensures
            r@ == (RespView { encoding, ..self@ }),
    {
        Response { encoding, ..self }
    }

    /// Ends a redirect: sets `Location` and serializes with an empty
    /// body.
    pub fn rewrite(self, location: Vec<u8>) -> (r: Vec<u8>)
        ensures
            r@ == build_bytes(
                RespView {
                    header: set_header(self@.header, location_key(), location@),
                    ..self@
                },
            ),
    {
        let key: Vec<u8> = vec![76, 111, 99, 97, 116, 105, 111, 110];  // "Location"
        proof {
            assert(key@ =~= location_key());
        }
        let mut r = self;
        insert_header(&mut r.header, key, location);
        r.build()
    }

    /// Ends a plain-text response: the body is the text, served as
    /// `text/plain`.
    pub fn text(self, text: &[u8]) -> (r: Vec<u8>)
        ensures
            r@ == build_bytes(
                RespView {
                    header: set_header(self@.header, content_type_key(), mime_text_plain()),
                    body: text@,
                    ..self@
                },
            ),
    {
        let key: Vec<u8> = vec![67, 111, 110, 116, 101, 110, 116, 45, 84, 121, 112, 101];  // "Content-Type"
        let value: Vec<u8> = vec![116, 101, 120, 116, 47, 112, 108, 97, 105, 110];  // "text/plain"
        proof {
            assert(key@ =~= content_type_key());
            assert(value@ =~= mime_text_plain());
        }
        let mut r = self;
        insert_header(&mut r.header, key, value);
        r.body = vstd::slice::slice_to_vec(text);
        r.build()
    }

    /// Ends an HTML response: the body is the page, served as
    /// `text/html`.
    pub fn html(self, html: Vec<u8>) -> (r: Vec<u8>)
        ensures
            r@ == build_bytes(
                RespView {
                    header: set_header(self@.header, content_type_key(), mime_text_html()),
                    body: html@,
                    ..self@
                },
            ),
    {
        let key: Vec<u8> = vec![67, 111, 110, 116, 101, 110, 116, 45, 84, 121, 112, 101];  // "Content-Type"
        let value: Vec<u8> = vec![116, 101, 120, 116, 47, 104, 116, 109, 108];  // "text/html"
        proof {
            assert(key@ =~= content_type_key());
            assert(value@ =~= mime_text_html());
        }
        let mut r = self;
        insert_header(&mut r.header, key, value);
        r.body = html;
        r.build()
    }

    /// Serializes the response whole: `Content-Length` is set from the
    /// body, then the head and the body go out as one buffer.
    pub fn build(self) -> (r: Vec<u8>)
        ensures
            r@ == build_bytes(self@),
    {
        let key: Vec<u8> = vec![67, 111, 110, 116, 101, 110, 116, 45, 76, 101, 110, 103, 116, 104];  // "Content-Length"
        let len_digits = u64_to_dec(self.body.len() as u64);
        proof {
            assert(key@ =~= content_length_key());
        }
        let mut r = self;
        insert_header(&mut r.header, key, len_digits);
        let mut out = render(&r.version, r.status, &r.header);
        push_bytes(&mut out, r.body.as_slice());
        out
    }

    /// Serializes the head for a streamed file body: the encoding
    /// headers come from `stream_headers`, and no body bytes follow
    /// (the stream is written behind this head, chunk by chunk or
    /// raw).
    pub fn file_head(self, file_len: u64) -> (r: Vec<u8>)
        ensures
            r@ == head_bytes(
                self@.version,
                self@.status,
                stream_headers(self@.header, self@.encoding, file_len),
            ),
    {
        let mut r = self;
        match r.encoding {
            ContentEncoding::Gzip => {
                let key: Vec<u8> = vec![67, 111, 110, 116, 101, 110, 116, 45, 69, 110, 99, 111, 100, 105, 110, 103];  // "Content-Encoding"
                let value: Vec<u8> = vec![103, 122, 105, 112];  // "gzip"
                proof {
                    assert(key@ =~= content_encoding_key());
                    assert(value@ =~= enc_gzip());
                }
                insert_header(&mut r.header, key, value);
            },
            ContentEncoding::Deflate => {
                let key: Vec<u8> = vec![67, 111, 110, 116, 101, 110, 116, 45, 69, 110, 99, 111, 100, 105, 110, 103];  // "Content-Encoding"
                let value: Vec<u8> = vec![100, 101, 102, 108, 97, 116, 101];  // "deflate"
                proof {
                    assert(key@ =~= content_encoding_key());
                    assert(value@ =~= enc_deflate());
                }
                insert_header(&mut r.header, key, value);
            },
            ContentEncoding::Identity => {},
        }
        match r.encoding {
            ContentEncoding::Identity => {
                let key: Vec<u8> = vec![67, 111, 110, 116, 101, 110, 116, 45, 76, 101, 110, 103, 116, 104];  // "Content-Length"
                let value = u64_to_dec(file_len);
                proof {
                    assert(key@ =~= content_length_key());
                }
                insert_header(&mut r.header, key, value);
            },
            _ => {
                let key: Vec<u8> = vec![84, 114, 97, 110, 115, 102, 101, 114, 45, 69, 110, 99, 111, 100, 105, 110, 103];  // "Transfer-Encoding"
                let value: Vec<u8> = vec![99, 104, 117, 110, 107, 101, 100];  // "chunked"
                proof {
                    assert(key@ =~= transfer_encoding_key());
                    assert(value@ =~= te_chunked());
                }
                insert_header(&mut r.header, key, value);
            },
        }
        render(&r.version, r.status, &r.header)
    }
}

/// True when no two entries of a header table share a key.
pub open spec fn keys_unique(hs: Seq<(Seq<u8>, Seq<u8>)>) -> bool {
    forall|i: int, j: int| 0 <= i < j < hs.len() ==> hs[i].0 != hs[j].0
}

/// What a header table maps a key to: the value of its first entry
/// with that key (its only one, in a table with unique keys).
pub open spec fn table_lookup(hs: Seq<(Seq<u8>, Seq<u8>)>, key: Seq<u8>) -> Option<Seq<u8>>
    decreases hs.len(),
{
    if hs.len() == 0 {
        None
    } else if hs[0].0 == key {
        Some(hs[0].1)
    } else {
        table_lookup(hs.skip(1), key)
    }
}

proof fn lemma_table_lookup_push(hs: Seq<(Seq<u8>, Seq<u8>)>, e: (Seq<u8>, Seq<u8>), k: Seq<u8>)
    ensures
        table_lookup(hs.push(e), k) == (match table_lookup(hs, k) {
            Some(v) => Some(v),
            None => if e.0 == k {
                Some(e.1)
            } else {
                None
            },
        }),
    decreases hs.len(),
{
    if hs.len() == 0 {
        assert(hs.push(e)[0] == e);
        assert(hs.push(e).skip(1) =~= Seq::<(Seq<u8>, Seq<u8>)>::empty());
    } else {
        assert(hs.push(e)[0] == hs[0]);
        assert(hs.push(e).skip(1) =~= hs.skip(1).push(e));
        lemma_table_lookup_push(hs.skip(1), e, k);
    }
}

proof fn lemma_table_lookup_update(
    hs: Seq<(Seq<u8>, Seq<u8>)>,
    i: int,
    e: (Seq<u8>, Seq<u8>),
    k: Seq<u8>,
)
    requires
        0 <= i < hs.len(),
        hs[i].0 == e.0,
        forall|j: int| 0 <= j < i ==> hs[j].0 != e.0,
    ensures
        e.0 == k ==> table_lookup(hs.update(i, e), k) == Some(e.1),
        e.0 != k ==> table_lookup(hs.update(i, e), k) == table_lookup(hs, k),
    decreases i,
{
    let hs2 = hs.update(i, e);
    if i == 0 {
        assert(hs2[0] == e);
        assert(hs2.skip(1) =~= hs.skip(1));
    } else {
        assert(hs2[0] == hs[0]);
        assert(hs2.skip(1) =~= hs.skip(1).update(i - 1, e));
        assert(forall|j: int| 0 <= j < i - 1 ==> hs.skip(1)[j] == hs[j + 1]);
        lemma_table_lookup_update(hs.skip(1), i - 1, e, k);
        assert(hs.skip(1)[i - 1] == hs[i]);
    }
}

/// The header table's law, as every builder method uses it: setting a
/// key keeps the keys unique, makes the table map that key to the new
/// value (the last writer for a key wins), and leaves every other key
/// exactly as it was (writers for different keys never drop one
/// another).
pub proof fn lemma_set_header_wins(hs: Seq<(Seq<u8>, Seq<u8>)>, key: Seq<u8>, value: Seq<u8>)
    requires
        keys_unique(hs),
    ensures
        keys_unique(set_header(hs, key, value)),
        table_lookup(set_header(hs, key, value), key) == Some(value),
        forall|k: Seq<u8>| k != key ==> table_lookup(set_header(hs, key, value), k)
            == table_lookup(hs, k),
{
    lemma_find_key(hs, key);
    let i = find_key(hs, key);
    let hs2 = set_header(hs, key, value);
    if i < 0 {
        assert(hs2 == hs.push((key, value)));
        assert forall|a: int, b: int| 0 <= a < b < hs2.len() implies hs2[a].0 != hs2[b].0 by {
            if b < hs.len() {
                assert(hs2[a] == hs[a] && hs2[b] == hs[b]);
            } else {
                assert(hs2[a] == hs[a] && hs2[b] == (key, value));
            }
        }
        lemma_table_lookup_push(hs, (key, value), key);
        lemma_lookup_none_when_absent(hs, key);
        assert forall|k: Seq<u8>| k != key implies table_lookup(hs2, k) == table_lookup(
            hs,
            k,
        ) by {
            lemma_table_lookup_push(hs, (key, value), k);
            if table_lookup(hs, k) is None {
            }
        }
    } else {
        assert(hs2 == hs.update(i, (key, value)));
        assert forall|a: int, b: int| 0 <= a < b < hs2.len() implies hs2[a].0 != hs2[b].0 by {
            assert(hs2[a].0 == hs[a].0 && hs2[b].0 == hs[b].0);
        }
        lemma_table_lookup_update(hs, i, (key, value), key);
        assert forall|k: Seq<u8>| k != key implies table_lookup(hs2, k) == table_lookup(
            hs,
            k,
        ) by {
            lemma_table_lookup_update(hs, i, (key, value), k);
        }
    }
}

/// A key that no entry carries looks up to nothing.
proof fn lemma_lookup_none_when_absent(hs: Seq<(Seq<u8>, Seq<u8>)>, key: Seq<u8>)
    requires
        forall|j: int| 0 <= j < hs.len() ==> hs[j].0 != key,
    ensures
        table_lookup(hs, key) is None,
    decreases hs.len(),
{
    if hs.len() > 0 {
        assert(forall|j: int| 0 <= j < hs.skip(1).len() ==> hs.skip(1)[j] == hs[j + 1]);
        lemma_lookup_none_when_absent(hs.skip(1), key);
    }
}

/// Folding a whole list of headers into a unique-keyed table keeps the
/// keys unique, so every response's header table — the server's name,
/// the host's configured headers, then the pipeline's own writes — is
/// free of duplicates from start to finish.
pub proof fn lemma_set_all_unique(hs: Seq<(Seq<u8>, Seq<u8>)>, items: Seq<(Seq<u8>, Seq<u8>)>)
    requires
        keys_unique(hs),
    ensures
        keys_unique(set_all(hs, items)),
    decreases items.len(),
{
    if items.len() > 0 {
        lemma_set_header_wins(hs, items[0].0, items[0].1);
        lemma_set_all_unique(set_header(hs, items[0].0, items[0].1), items.skip(1));
    }
}

/// The bytes `build` serializes a response to: the head, with
/// `Content-Length` taken from the body, then the body.
pub open spec fn build_bytes(v: RespView) -> Seq<u8> {
    head_bytes(
        v.version,
        v.status,
        set_header(v.header, content_length_key(), dec_digits(v.body.len())),
    ) + v.body
}

} // verus!
