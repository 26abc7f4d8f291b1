//! The response pipeline: a linear cascade of policy checks (method
//! allow-list, host-header presence, basic authentication, rewrite
//! rules) followed by resource resolution (static file, index file,
//! extension fallback, directory listing) and response emission. Every
//! decision is made here on plain values; the shell around the library
//! performs the stat and the file opens the pipeline asks for, and
//! hands back what it saw.

use vstd::prelude::*;

use crate::bytes_util::{bytes_eq, contains_bytes, seq_holds};
use crate::compress::{can_compress, can_compress_spec};
use crate::config::{ConfigView, ContentEncoding, RewriteType, ServerConfig};
use crate::dec::{dec_digits, u64_to_dec};
use crate::mime::mime_of;
use crate::request::{lookup, Request};
use crate::response::{
    basic_challenge, build_bytes, content_type_key, head_bytes, http_version, location_key,
    mime_text_html, mime_text_plain, server_key, server_name, set_all, set_header, stream_headers,
    www_authenticate_key, RespView, Response, StatusCode,
};

verus! {

/// The header table every response starts from: the server's own name,
/// then the host's configured extra headers, later writers winning.
pub open spec fn base_headers(c: ConfigView) -> Seq<(Seq<u8>, Seq<u8>)> {
    set_all(seq![(server_key(), server_name())], c.headers)
}

/// The serialized bytes of a plain-text response under a host's
/// headers.
pub open spec fn text_bytes(c: ConfigView, status: u16, body: Seq<u8>) -> Seq<u8> {
    build_bytes(
        RespView {
            version: http_version(),
            status,
            header: set_header(base_headers(c), content_type_key(), mime_text_plain()),
            body,
            encoding: ContentEncoding::Identity,
        },
    )
}

/// The serialized bytes of a redirect: `Location` set, empty body.
pub open spec fn redirect_bytes(c: ConfigView, status: u16, location: Seq<u8>) -> Seq<u8> {
    build_bytes(
        RespView {
            version: http_version(),
            status,
            header: set_header(base_headers(c), location_key(), location),
            body: Seq::<u8>::empty(),
            encoding: ContentEncoding::Identity,
        },
    )
}

/// The least index of a rewrite rule whose key is `path`, or `-1`.
pub open spec fn find_rule_idx(rules: Seq<(Seq<u8>, crate::config::RewriteView)>, path: Seq<u8>) -> int
    decreases rules.len(),
{
    if rules.len() == 0 {
        -1
    } else if rules[0].0 == path {
        0
    } else {
        let r = find_rule_idx(rules.skip(1), path);
        if r < 0 {
            -1
        } else {
            r + 1
        }
    }
}

pub proof fn lemma_find_rule_idx(rules: Seq<(Seq<u8>, crate::config::RewriteView)>, path: Seq<u8>)
    ensures
        ({
            let r = find_rule_idx(rules, path);
            &&& r >= 0 ==> 0 <= r < rules.len() && rules[r].0 == path && (forall|j: int|
                0 <= j < r ==> rules[j].0 != path)
            &&& r < 0 ==> forall|j: int| 0 <= j < rules.len() ==> rules[j].0 != path
        }),
    decreases rules.len(),
{
    if rules.len() == 0 {
    } else if rules[0].0 == path {
    } else {
        lemma_find_rule_idx(rules.skip(1), path);
        let t = rules.skip(1);
        let r = find_rule_idx(t, path);
        if r >= 0 {
            assert(t[r] == rules[r + 1]);
            assert forall|j: int| 0 <= j < r + 1 implies rules[j].0 != path by {
                if j > 0 {
                    assert(t[j - 1] == rules[j]);
                }
            }
        } else {
            assert forall|j: int| 0 <= j < rules.len() implies rules[j].0 != path by {
                if j > 0 {
                    assert(t[j - 1] == rules[j]);
                }
            }
        }
    }
}

/// The rewrite rule an exact path match fires, if any.
pub open spec fn find_rule(
    rw: Option<Seq<(Seq<u8>, crate::config::RewriteView)>>,
    path: Seq<u8>,
) -> Option<crate::config::RewriteView> {
    match rw {
        None => None,
        Some(rules) => {
            let i = find_rule_idx(rules, path);
            if i < 0 {
                None
            } else {
                Some(rules[i].1)
            }
        },
    }
}

/// A terminal policy outcome, decided before anything touches the
/// filesystem.
pub enum Denial {
    MethodNotAllowed,
    MissingHost,
    Unauthorized,
    Redirect { status: StatusCode, location: Vec<u8> },
}

/// What the policy cascade decided: answer at once, or carry on to
/// resource resolution under a (possibly substituted) path.
pub enum Policy {
    Deny(Denial),
    Proceed { path: Vec<u8> },
}

/// True when the request's `authorization` header matches the host's
/// credential; hosts without a credential accept everyone.
pub open spec fn auth_ok(headers: Seq<(Seq<u8>, Seq<u8>)>, auth: Option<Seq<u8>>) -> bool {
    match auth {
        None => true,
        // "authorization"
        Some(cred) => lookup(headers, seq![97u8, 117u8, 116u8, 104u8, 111u8, 114u8, 105u8, 122u8, 97u8, 116u8, 105u8, 111u8, 110u8]) == Some(cred),
    }
}

/// The policy cascade, in its fixed order: method allow-list, then
/// host-header presence, then authentication, then the rewrite table.
/// A denial is terminal and names its reason; only `Proceed` ever
/// reaches the filesystem.
pub open spec fn policy_ok(p: Policy, req: crate::request::ReqView, c: ConfigView, host_present: bool) -> bool {
    let allowed = seq_holds(c.methods, req.method);
    let authed = auth_ok(req.headers, c.auth);
    let rule = find_rule(c.rewrite, req.path);
    if !allowed {
        p matches Policy::Deny(Denial::MethodNotAllowed)
    } else if !host_present {
        p matches Policy::Deny(Denial::MissingHost)
    } else if !authed {
        p matches Policy::Deny(Denial::Unauthorized)
    } else {
        match rule {
            None => match p {
                Policy::Proceed { path } => path@ == req.path,
                _ => false,
            },
            Some(rv) => match rv.status {
                RewriteType::_301 => match p {
                    Policy::Deny(Denial::Redirect { status, location }) => status matches
                        StatusCode::_301 && location@ == rv.url,
                    _ => false,
                },
                RewriteType::_302 => match p {
                    Policy::Deny(Denial::Redirect { status, location }) => status matches
                        StatusCode::_302 && location@ == rv.url,
                    _ => false,
                },
                RewriteType::Path => match p {
                    Policy::Proceed { path } => path@ == rv.url,
                    _ => false,
                },
            },
        }
    }
}

/// Runs the policy cascade for one request against its resolved host,
/// exactly as `policy_ok` says. A denied request never reaches the
/// filesystem: only a `Proceed` outcome carries a path to resolve.
#[verifier::loop_isolation(false)]
pub fn policy(req: &Request, config: &ServerConfig, host_present: bool) -> (p: Policy)
    ensures
        policy_ok(p, req@, config@, host_present),
{
    // method allow-list
    let allowed = contains_bytes(&config.methods, req.method.as_slice());
    if !allowed {
        return Policy::Deny(Denial::MethodNotAllowed);
    }
    // host-header presence
    if !host_present {
        return Policy::Deny(Denial::MissingHost);
    }
    // authentication
    match &config.auth {
        Some(cred) => {
            // "authorization"
            let key: Vec<u8> = vec![97, 117, 116, 104, 111, 114, 105, 122, 97, 116, 105, 111, 110];
            proof {
                assert(key@ =~= seq![97u8, 117u8, 116u8, 104u8, 111u8, 114u8, 105u8, 122u8, 97u8, 116u8, 105u8, 111u8, 110u8]);
            }
            proof {
                assert(cred.deep_view() =~= cred@);
                assert(config@.auth == Some(cred@));
            }
            match req.header(key.as_slice()) {
                Some(value) => {
                    if !bytes_eq(value.as_slice(), cred.as_slice()) {
                        return Policy::Deny(Denial::Unauthorized);
                    }
                },
                None => {
                    return Policy::Deny(Denial::Unauthorized);
                },
            }
        },
        None => {},
    }
    // rewrite table
    match &config.rewrite {
        Some(rules) => {
            let ghost rv = config@.rewrite.unwrap();
            proof {
                assert(rv.len() == rules@.len());
                lemma_find_rule_idx(rv, req@.path);
            }
            let ghost fr = find_rule_idx(rv, req@.path);
            let mut k: usize = 0;
            while k < rules.len()
                invariant
                    k <= rules@.len(),
                    forall|j: int| 0 <= j < k ==> rv[j].0 != req@.path,
                decreases rules@.len() - k,
            {
                proof {
                    assert(rv[k as int] == rules@[k as int].deep_view());
                    assert(rv[k as int].0 =~= rules@[k as int].0@);
                    assert(rv[k as int].1 == rules@[k as int].1@);
                }
                if bytes_eq(rules[k].0.as_slice(), req.path.as_slice()) {
                    proof {
                        if fr < 0 {
                            assert(rv[k as int].0 == req@.path);
                            assert(false);
                        } else if fr < k as int {
                            assert(rv[fr].0 == req@.path);
                            assert(false);
                        } else if fr > k as int {
                            assert(rv[k as int].0 == req@.path);
                            assert(false);
                        }
                    }
                    match rules[k].1.status {
                        RewriteType::_301 => {
                            return Policy::Deny(
                                Denial::Redirect {
                                    status: StatusCode::_301,
                                    location: rules[k].1.url.clone(),
                                },
                            );
                        },
                        RewriteType::_302 => {
                            return Policy::Deny(
                                Denial::Redirect {
                                    status: StatusCode::_302,
                                    location: rules[k].1.url.clone(),
                                },
                            );
                        },
                        RewriteType::Path => {
                            return Policy::Proceed { path: rules[k].1.url.clone() };
                        },
                    }
                }
                k += 1;
            }
            proof {
                if fr >= 0 {
                    assert(rv[fr].0 == req@.path);
                    assert(false);
                }
            }
        },
        None => {},
    }
    Policy::Proceed { path: req.path.clone() }
}

/// A path of its own stands alone; a relative one is joined under
/// `root` with a single separator, an empty root adding none.
pub open spec fn fill_path_spec(root: Seq<u8>, file: Seq<u8>) -> Seq<u8> {
    if file.len() > 0 && file[0] == 47 {
        file
    } else if root.len() == 0 {
        file
    } else if root.last() == 47 {
        root + file
    } else {
        root + seq![47u8] + file
    }
}

/// Joins a file name under a root directory; absolute file paths stand
/// alone.
pub fn fill_path(root: &[u8], file: &[u8]) -> (r: Vec<u8>)
    ensures
        r@ == fill_path_spec(root@, file@),
{
    if file.len() > 0 && file[0] == 47 {
        return vstd::slice::slice_to_vec(file);
    }
    if root.len() == 0 {
        return vstd::slice::slice_to_vec(file);
    }
    let mut r = vstd::slice::slice_to_vec(root);
    if root[root.len() - 1] != 47 {
        r.push(47);
    }
    crate::bytes_util::push_bytes(&mut r, file);
    proof {
        if root@.last() == 47 {
            assert(r@ =~= root@ + file@);
        } else {
            assert(r@ =~= root@ + seq![47u8] + file@);
        }
    }
    r
}

/// The filesystem path a request path resolves to: the root, then a
/// dot, then the (slash-leading) request path, so the joined path
/// always stays inside the root.
pub open spec fn joined_path(root: Seq<u8>, path: Seq<u8>) -> Seq<u8> {
    fill_path_spec(root, seq![46u8] + path)
}

/// Joins the host's root with a dot-relative request path.
pub fn join_root(root: &[u8], path: &[u8]) -> (r: Vec<u8>)
    ensures
        r@ == joined_path(root@, path@),
{
    let mut rel: Vec<u8> = vec![46];
    crate::bytes_util::push_bytes(&mut rel, path);
    proof {
        assert(rel@ =~= seq![46u8] + path@);
    }
    fill_path(root, rel.as_slice())
}

/// The greatest index of `b` in `s`, or `-1`.
pub open spec fn find_last(s: Seq<u8>, b: u8) -> int
    decreases s.len(),
{
    if s.len() == 0 {
        -1
    } else if s.last() == b {
        s.len() - 1
    } else {
        find_last(s.drop_last(), b)
    }
}

pub proof fn lemma_find_last(s: Seq<u8>, b: u8)
    ensures
        ({
            let r = find_last(s, b);
            &&& r >= -1
            &&& r >= 0 ==> 0 <= r < s.len() && s[r] == b && (forall|j: int|
                r < j < s.len() ==> s[j] != b)
            &&& r < 0 ==> forall|j: int| 0 <= j < s.len() ==> s[j] != b
        }),
    decreases s.len(),
{
    if s.len() == 0 {
    } else if s.last() == b {
    } else {
        lemma_find_last(s.drop_last(), b);
        let t = s.drop_last();
        assert(forall|j: int| 0 <= j < t.len() ==> t[j] == s[j]);
    }
}

/// The file name of a path: everything after the last `/`.
pub open spec fn file_name(path: Seq<u8>) -> Seq<u8> {
    path.skip(find_last(path, 47) + 1)
}

/// The extension: what follows the last `.` of the file name, empty
/// when there is none or when the only dot starts a hidden file's
/// name.
pub open spec fn ext_of(path: Seq<u8>) -> Seq<u8> {
    let name = file_name(path);
    let d = find_last(name, 46);
    if d <= 0 {
        seq![]
    } else {
        name.skip(d + 1)
    }
}

/// True when the file name carries an extension (a dot after its first
/// byte), even an empty one; only extensionless paths probe fallback
/// extensions.
pub open spec fn has_extension(path: Seq<u8>) -> bool {
    find_last(file_name(path), 46) > 0
}

/// The byte slice after the last `/`, the whole path when none.
fn path_file_name(path: &[u8]) -> (r: &[u8])
    ensures
        r@ == file_name(path@),
{
    let plen = path.len();
    match crate::bytes_util::rfind_byte(path, 47) {
        Some(i) => {
            proof {
                lemma_find_last(path@, 47);
                let fl = find_last(path@, 47);
                if fl < 0 {
                    assert(path@[i as int] == 47);
                    assert(false);
                } else if fl < i as int {
                    assert(path@[i as int] == 47);
                    assert(false);
                } else if fl > i as int {
                    assert(path@[fl] == 47);
                    assert(false);
                }
                assert(i < plen);
            }
            let nm = vstd::slice::slice_subrange(path, i + 1, plen);
            proof {
                assert(nm@ =~= file_name(path@));
            }
            nm
        },
        None => {
            proof {
                lemma_find_last(path@, 47);
                let fl = find_last(path@, 47);
                if fl >= 0 {
                    assert(path@[fl] == 47);
                    assert(false);
                }
                assert(path@.skip(0) =~= path@);
            }
            path
        },
    }
}

/// True when `Path::extension` would find one: the file name has a dot
/// past its first byte.
fn path_has_extension(path: &[u8]) -> (r: bool)
    ensures
        r == has_extension(path@),
{
    let name = path_file_name(path);
    match crate::bytes_util::rfind_byte(name, 46) {
        Some(d) => {
            proof {
                lemma_find_last(name@, 46);
                let fl = find_last(name@, 46);
                if fl < 0 {
                    assert(name@[d as int] == 46);
                    assert(false);
                } else if fl < d as int {
                    assert(name@[d as int] == 46);
                    assert(false);
                } else if fl > d as int {
                    assert(name@[fl] == 46);
                    assert(false);
                }
            }
            d > 0
        },
        None => {
            proof {
                lemma_find_last(name@, 46);
                let fl = find_last(name@, 46);
                if fl >= 0 {
                    assert(name@[fl] == 46);
                    assert(false);
                }
            }
            false
        },
    }
}

/// The file extension of a path, as `ext_of` says.
pub fn get_extension(path: &[u8]) -> (r: Vec<u8>)
    ensures
        r@ == ext_of(path@),
{
    let name = path_file_name(path);
    let nlen = name.len();
    match crate::bytes_util::rfind_byte(name, 46) {
        Some(d) => {
            proof {
                lemma_find_last(name@, 46);
                let fl = find_last(name@, 46);
                if fl < 0 {
                    assert(name@[d as int] == 46);
                    assert(false);
                } else if fl < d as int {
                    assert(name@[d as int] == 46);
                    assert(false);
                } else if fl > d as int {
                    assert(name@[fl] == 46);
                    assert(false);
                }
                assert(d < nlen);
            }
            if d == 0 {
                Vec::new()
            } else {
                let r = vstd::slice::slice_to_vec(
                    vstd::slice::slice_subrange(name, d + 1, nlen),
                );
                proof {
                    assert(r@ =~= name@.skip(d + 1));
                }
                r
            }
        },
        None => {
            proof {
                lemma_find_last(name@, 46);
                let fl = find_last(name@, 46);
                if fl >= 0 {
                    assert(name@[fl] == 46);
                    assert(false);
                }
            }
            Vec::new()
        },
    }
}

/// What one stat of the joined path told the pipeline.
#[derive(Clone, Copy)]
pub enum FsKind {
    Directory,
    File,
    Missing,
}

/// One file the pipeline wants opened, with the extension that will
/// name its content type.
pub struct Candidate {
    pub path: Vec<u8>,
    pub ext: Vec<u8>,
}

pub ghost struct CandidateView {
    pub path: Seq<u8>,
    pub ext: Seq<u8>,
}

impl View for Candidate {
    type V = CandidateView;

    open spec fn view(&self) -> CandidateView {
        CandidateView { path: self.path@, ext: self.ext@ }
    }
}

impl DeepView for Candidate {
    type V = CandidateView;

    open spec fn deep_view(&self) -> CandidateView {
        self@
    }
}

/// What to answer when every candidate failed to open: render the
/// directory listing, or one of the two error statuses.
pub enum FallbackPlan {
    Listing,
    NotFound,
    ServerError,
}

/// How resource resolution ended: a redirect that adds the trailing
/// slash, a list of files to try opening in order (first success
/// wins), the directory listing, or not-found.
pub enum Resolution {
    Redirect { location: Vec<u8> },
    TryFiles { candidates: Vec<Candidate>, on_fail: FallbackPlan },
    Listing,
    NotFound,
}

/// The fallback probes for an extensionless path: `path.ext` for each
/// configured extension, in order.
pub open spec fn fallback_candidates(joined: Seq<u8>, exts: Seq<Seq<u8>>) -> Seq<CandidateView> {
    Seq::new(
        exts.len(),
        |i: int| CandidateView { path: joined + seq![46u8] + exts[i], ext: exts[i] },
    )
}

/// Resource resolution, step by step: a directory asked for
/// with a trailing slash serves its index file when one is configured
/// (falling back on the listing, or 404); without an index it serves
/// the listing when enabled, else 404. A directory asked for without
/// the slash redirects to the slashed path, the query kept. A file is
/// opened (open failure being a server error). A missing path probes
/// the fallback extensions when the host configures them and the path
/// has no extension of its own; else 404.
pub open spec fn resolve_ok(
    r: Resolution,
    c: ConfigView,
    path: Seq<u8>,
    query: Option<Seq<u8>>,
    joined: Seq<u8>,
    kind: FsKind,
) -> bool {
    match kind {
        FsKind::Directory => {
            if path.len() > 0 && path.last() == 47 {
                match c.index {
                    Some(idx) => match r {
                        Resolution::TryFiles { candidates, on_fail } => {
                            &&& candidates.deep_view() == seq![
                                CandidateView {
                                    path: fill_path_spec(joined, idx),
                                    ext: ext_of(idx),
                                },
                            ]
                            &&& on_fail == (if c.directory is Some {
                                FallbackPlan::Listing
                            } else {
                                FallbackPlan::NotFound
                            })
                        },
                        _ => false,
                    },
                    None => if c.directory is Some {
                        r matches Resolution::Listing
                    } else {
                        r matches Resolution::NotFound
                    },
                }
            } else {
                match r {
                    Resolution::Redirect { location } => location@ == path + seq![47u8] + (
                    match query {
                        Some(q) => q,
                        None => Seq::<u8>::empty(),
                    }),
                    _ => false,
                }
            }
        },
        FsKind::File => match r {
            Resolution::TryFiles { candidates, on_fail } => {
                &&& candidates.deep_view() == seq![
                    CandidateView { path: joined, ext: ext_of(joined) },
                ]
                &&& on_fail == FallbackPlan::ServerError
            },
            _ => false,
        },
        FsKind::Missing => match c.extensions {
            Some(exts) => if !has_extension(joined) {
                match r {
                    Resolution::TryFiles { candidates, on_fail } => {
                        &&& candidates.deep_view() == fallback_candidates(joined, exts)
                        &&& on_fail == FallbackPlan::NotFound
                    },
                    _ => false,
                }
            } else {
                r matches Resolution::NotFound
            },
            None => r matches Resolution::NotFound,
        },
    }
}

/// Resolves one (possibly rewritten) request path against what the
/// stat of its joined filesystem path said, exactly as `resolve_ok`
/// describes.
#[verifier::loop_isolation(false)]
pub fn resolve(
    config: &ServerConfig,
    path: &Vec<u8>,
    query: &Option<Vec<u8>>,
    joined: &Vec<u8>,
    kind: FsKind,
) -> (r: Resolution)
    ensures
        resolve_ok(r, config@, path@, query.deep_view(), joined@, kind),
{
    match kind {
        FsKind::Directory => {
            let ends_slash = path.len() > 0 && path[path.len() - 1] == 47;
            if ends_slash {
                match &config.index {
                    Some(idx) => {
                        proof {
                            assert(idx.deep_view() =~= idx@);
                            assert(config@.index == Some(idx@));
                        }
                        let ipath = fill_path(joined.as_slice(), idx.as_slice());
                        let iext = get_extension(idx.as_slice());
                        let cand = Candidate { path: ipath, ext: iext };
                        let candidates: Vec<Candidate> = vec![cand];
                        let on_fail = match &config.directory {
                            Some(_) => FallbackPlan::Listing,
                            None => FallbackPlan::NotFound,
                        };
                        proof {
                            assert(candidates.deep_view() =~~= seq![
                                CandidateView {
                                    path: fill_path_spec(joined@, idx@),
                                    ext: ext_of(idx@),
                                },
                            ]);
                        }
                        Resolution::TryFiles { candidates, on_fail }
                    },
                    None => {
                        match &config.directory {
                            Some(_) => Resolution::Listing,
                            None => Resolution::NotFound,
                        }
                    },
                }
            } else {
                let mut location = path.clone();
                location.push(47);
                match query {
                    Some(q) => {
                        crate::bytes_util::push_bytes(&mut location, q.as_slice());
                        proof {
                            assert(q.deep_view() =~= q@);
                            assert(query.deep_view() == Some(q@));
                            assert(location@ =~= path@ + seq![47u8] + q@);
                        }
                    },
                    None => {
                        proof {
                            assert(location@ =~= path@ + seq![47u8] + Seq::<u8>::empty());
                        }
                    },
                }
                Resolution::Redirect { location }
            }
        },
        FsKind::File => {
            let ext = get_extension(joined.as_slice());
            let cand = Candidate { path: joined.clone(), ext };
            let candidates: Vec<Candidate> = vec![cand];
            proof {
                assert(candidates.deep_view() =~~= seq![
                    CandidateView { path: joined@, ext: ext_of(joined@) },
                ]);
            }
            Resolution::TryFiles { candidates, on_fail: FallbackPlan::ServerError }
        },
        FsKind::Missing => {
            let exts = match &config.extensions {
                Some(exts) => exts,
                None => {
                    return Resolution::NotFound;
                },
            };
            let ghost ev = config@.extensions.unwrap();
            proof {
                assert(ev.len() == exts@.len());
            }
            let name_has_ext = path_has_extension(joined.as_slice());
            if name_has_ext {
                return Resolution::NotFound;
            }
            let mut candidates: Vec<Candidate> = Vec::new();
            let mut i: usize = 0;
            proof {
                assert(candidates.deep_view() =~~= fallback_candidates(joined@, ev).take(0));
            }
            while i < exts.len()
                invariant
                    i <= exts@.len(),
                    candidates.deep_view() == fallback_candidates(joined@, ev).take(i as int),
                decreases exts@.len() - i,
            {
                proof {
                    assert(ev[i as int] == exts@[i as int].deep_view());
                    assert(exts@[i as int].deep_view() =~= exts@[i as int]@);
                }
                let mut p = joined.clone();
                p.push(46);
                crate::bytes_util::push_bytes(&mut p, exts[i].as_slice());
                proof {
                    assert(p@ =~= joined@ + seq![46u8] + ev[i as int]);
                }
                candidates.push(Candidate { path: p, ext: exts[i].clone() });
                proof {
                    assert(candidates.deep_view() =~~= fallback_candidates(joined@, ev).take(
                        i + 1,
                    ));
                }
                i += 1;
            }
            proof {
                assert(fallback_candidates(joined@, ev).take(exts@.len() as int)
                    =~= fallback_candidates(joined@, ev));
            }
            Resolution::TryFiles { candidates, on_fail: FallbackPlan::NotFound }
        },
    }
}

/// The serialized bytes of a 401 challenge: `WWW-Authenticate` set to
/// the Basic scheme, with the status-code text as body.
pub open spec fn challenge_bytes(c: ConfigView) -> Seq<u8> {
    build_bytes(
        RespView {
            version: http_version(),
            status: 401,
            header: set_header(
                set_header(
                    base_headers(c),
                    www_authenticate_key(),
                    basic_challenge(),
                ),
                content_type_key(),
                mime_text_plain(),
            ),
            body: seq![52u8, 48u8, 49u8],
            encoding: ContentEncoding::Identity,
        },
    )
}

/// Serializes a terminal policy denial and names its status: 405, 400,
/// 401 with its challenge, or the rewrite rule's redirect carrying its
/// target in `Location` — and nothing was opened or read for any of
/// them.
pub fn deny_response(d: &Denial, config: &ServerConfig) -> (r: (Vec<u8>, u16))
    ensures
        match d {
            Denial::MethodNotAllowed => r.0@ == text_bytes(config@, 405, seq![52u8, 48u8, 53u8])
                && r.1 == 405,
            Denial::MissingHost => r.0@ == text_bytes(config@, 400, seq![52u8, 48u8, 48u8]) && r.1 == 400,
            Denial::Unauthorized => r.0@ == challenge_bytes(config@) && r.1 == 401,
            Denial::Redirect { status, location } => r.0@ == redirect_bytes(
                config@,
                status.spec_code(),
                location@,
            ) && r.1 == status.spec_code(),
        },
{
    match d {
        Denial::MethodNotAllowed => {
            let body: Vec<u8> = vec![52, 48, 53];
            proof {
                assert(body@ =~= seq![52u8, 48u8, 53u8]);
            }
            (Response::new(StatusCode::_405, &config.headers).text(body.as_slice()), 405)
        },
        Denial::MissingHost => {
            let body: Vec<u8> = vec![52, 48, 48];
            proof {
                assert(body@ =~= seq![52u8, 48u8, 48u8]);
            }
            (Response::new(StatusCode::_400, &config.headers).text(body.as_slice()), 400)
        },
        Denial::Unauthorized => {
            let key: Vec<u8> = vec![87, 87, 87, 45, 65, 117, 116, 104, 101, 110, 116, 105, 99, 97, 116, 101];
            let value: Vec<u8> = vec![66, 97, 115, 105, 99, 32, 114, 101, 97, 108, 109, 61, 34, 85, 115, 101, 114, 32, 86, 105, 115, 105, 98, 108, 101, 32, 82, 101, 97, 108, 109, 34];
            let body: Vec<u8> = vec![52, 48, 49];
            proof {
                assert(key@ =~= www_authenticate_key());
                assert(value@ =~= basic_challenge());
                assert(body@ =~= seq![52u8, 48u8, 49u8]);
            }
            (
                Response::new(StatusCode::_401, &config.headers).header(
                    key.as_slice(),
                    value.as_slice(),
                ).text(body.as_slice()),
                401,
            )
        },
        Denial::Redirect { status, location } => {
            let code = status.code();
            (Response::new(*status, &config.headers).rewrite(location.clone()), code)
        },
    }
}

/// A refusal sent before any host was resolved (no host headers to
/// honour): the status-code digits as a plain-text body.
pub fn refuse(status: StatusCode) -> (r: Vec<u8>)
    ensures
        r@ == build_bytes(
            RespView {
                version: http_version(),
                status: status.spec_code(),
                header: set_header(
                    seq![(server_key(), server_name())],
                    content_type_key(),
                    mime_text_plain(),
                ),
                body: dec_digits(status.spec_code() as nat),
                encoding: ContentEncoding::Identity,
            },
        ),
{
    let none: Vec<crate::config::Header> = Vec::new();
    let body = u64_to_dec(status.code() as u64);
    proof {
        assert(none.deep_view() =~~= Seq::<(Seq<u8>, Seq<u8>)>::empty());
    }
    Response::new(status, &none).text(body.as_slice())
}

/// Serializes the redirect a directory without its trailing slash is
/// answered with (or any other redirect under a host's headers).
pub fn redirect_response(config: &ServerConfig, status: StatusCode, location: Vec<u8>) -> (r: (
    Vec<u8>,
    u16,
))
    ensures
        r.0@ == redirect_bytes(config@, status.spec_code(), location@),
        r.1 == status.spec_code(),
{
    let code = status.code();
    (Response::new(status, &config.headers).rewrite(location), code)
}

/// Serializes a rendered directory listing as a 200 `text/html` page
/// under the host's headers.
pub fn listing_response(config: &ServerConfig, page: Vec<u8>) -> (r: Vec<u8>)
    ensures
        r@ == build_bytes(
            RespView {
                version: http_version(),
                status: 200,
                header: set_header(base_headers(config@), content_type_key(), mime_text_html()),
                body: page@,
                encoding: ContentEncoding::Identity,
            },
        ),
{
    Response::new(StatusCode::_200, &config.headers).html(page)
}

/// The head and encoding for one successfully opened candidate: 200,
/// content type from the candidate's extension, compression negotiated
/// against the allow-list and `accept-encoding`, and either an exact
/// `Content-Length` or chunked framing.
pub fn serve(req: &Request, config: &ServerConfig, cand: &Candidate, file_len: u64) -> (r: (
    Vec<u8>,
    ContentEncoding,
))
    ensures
        r.1 == can_compress_spec(req@.headers, config@, cand@.ext),
        r.0@ == head_bytes(
            http_version(),
            200,
            stream_headers(
                set_header(base_headers(config@), content_type_key(), mime_of(cand@.ext)),
                r.1,
                file_len,
            ),
        ),
{
    let encoding = can_compress(req, config, cand.ext.as_slice());
    let head = Response::new(StatusCode::_200, &config.headers).content_type(
        cand.ext.as_slice(),
    ).compress(encoding).file_head(file_len);
    (head, encoding)
}

/// The custom error page configured for a status, when there is one:
/// the 404 page for 404, the 500 page for everything else.
pub fn error_page(config: &ServerConfig, status: StatusCode) -> (r: Option<Vec<u8>>)
    ensures
        r.deep_view() == (match status {
            StatusCode::_404 => config@.error_404,
            _ => config@.error_500,
        }),
{
    let page = match status {
        StatusCode::_404 => &config.error._404,
        _ => &config.error._500,
    };
    match page {
        Some(p) => {
            let c = p.clone();
            proof {
                assert(c.deep_view() =~= p.deep_view());
            }
            Some(c)
        },
        None => None,
    }
}

/// The head for a custom error page that opened: the original error
/// status, the page's own content type, no compression, an exact
/// `Content-Length`.
pub fn error_page_head(config: &ServerConfig, status: StatusCode, page: &[u8], file_len: u64) -> (r:
    Vec<u8>)
    ensures
        r@ == head_bytes(
            http_version(),
            status.spec_code(),
            stream_headers(
                set_header(base_headers(config@), content_type_key(), mime_of(ext_of(page@))),
                ContentEncoding::Identity,
                file_len,
            ),
        ),
{
    let ext = get_extension(page);
    Response::new(status, &config.headers).content_type(ext.as_slice()).file_head(file_len)
}

/// The minimal error body when no custom page is configured or it does
/// not open: the status-code text, `404` for 404 and `500` for
/// everything else, under the original status.
pub fn error_text(config: &ServerConfig, status: StatusCode) -> (r: Vec<u8>)
    ensures
        r@ == text_bytes(
            config@,
            status.spec_code(),
            match status {
                StatusCode::_404 => seq![52u8, 48u8, 52u8],
                _ => seq![53u8, 48u8, 48u8],
            },
        ),
{
    let body: Vec<u8> = match status {
        StatusCode::_404 => vec![52, 48, 52],
        _ => vec![53, 48, 48],
    };
    proof {
        match status {
            StatusCode::_404 => {
                assert(body@ =~= seq![52u8, 48u8, 52u8]);
            },
            _ => {
                assert(body@ =~= seq![53u8, 48u8, 48u8]);
            },
        }
    }
    Response::new(status, &config.headers).text(body.as_slice())
}

/// Which sink class a status logs to: the error sink from 400 up, the
/// success sink below.
pub fn status_is_error(status: u16) -> (r: bool)
    ensures
        r == (status >= 400),
{
    status >= 400
}

} // verus!
