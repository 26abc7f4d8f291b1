//! The virtual-host configuration model: one `ServerConfig` per
//! declared host block, grouped by listening port. The model is
//! consumed, never built, here: the configuration loader hands over an
//! already-validated group, and nothing in it mutates afterwards.

use vstd::prelude::*;

verus! {

/// Directory-listing options: show each entry's modification time, its
/// size, or both.
pub struct DirectoryOption {
    pub time: bool,
    pub size: bool,
}

/// One extra response header, `key: value`.
pub struct Header {
    pub key: Vec<u8>,
    pub value: Vec<u8>,
}

impl View for Header {
    type V = (Seq<u8>, Seq<u8>);

    open spec fn view(&self) -> (Seq<u8>, Seq<u8>) {
        (self.key@, self.value@)
    }
}

impl DeepView for Header {
    type V = (Seq<u8>, Seq<u8>);

    open spec fn deep_view(&self) -> (Seq<u8>, Seq<u8>) {
        self@
    }
}

/// How a rewrite rule ends a request: a permanent redirect, a
/// temporary redirect, or an internal path substitution that continues
/// down the pipeline.
pub enum RewriteType {
    _301,
    _302,
    Path,
}

/// The target and kind of one rewrite rule.
pub struct Rewrite {
    pub url: Vec<u8>,
    pub status: RewriteType,
}

pub ghost struct RewriteView {
    pub url: Seq<u8>,
    pub status: RewriteType,
}

impl View for Rewrite {
    type V = RewriteView;

    open spec fn view(&self) -> RewriteView {
        RewriteView { url: self.url@, status: self.status }
    }
}

impl DeepView for Rewrite {
    type V = RewriteView;

    open spec fn deep_view(&self) -> RewriteView {
        self@
    }
}

/// Custom error-page paths for the two error statuses that serve one.
pub struct Error {
    pub _404: Option<Vec<u8>>,
    pub _500: Option<Vec<u8>>,
}

/// Which log sinks the host has configured. The sinks themselves are
/// open files owned by the shell; the pipeline only decides whether an
/// entry is owed and to which class of sink.
pub struct Recording {
    pub success: bool,
    pub error: bool,
}

/// A response body's content-encoding state; `Identity` is the
/// untransformed body.
#[derive(Clone, Copy, Debug)]
pub enum ContentEncoding {
    Identity,
    Gzip,
    Deflate,
}

/// One virtual host: its aliases (`None` marks the port's default,
/// catch-all host), listening port, filesystem root, and per-host
/// policy. Within one port group at most one configuration has no
/// aliases, and alias sets are disjoint; the loader guarantees this.
pub struct ServerConfig {
    pub hosts: Option<Vec<Vec<u8>>>,
    pub listen: i64,
    pub root: Vec<u8>,
    pub gzip: Option<Vec<Vec<u8>>>,
    pub directory: Option<DirectoryOption>,
    pub index: Option<Vec<u8>>,
    pub headers: Vec<Header>,
    pub rewrite: Option<Vec<(Vec<u8>, Rewrite)>>,
    pub extensions: Option<Vec<Vec<u8>>>,
    pub methods: Vec<Vec<u8>>,
    pub auth: Option<Vec<u8>>,
    pub error: Error,
    pub log: Recording,
}

pub ghost struct ConfigView {
    pub hosts: Option<Seq<Seq<u8>>>,
    pub listen: int,
    pub root: Seq<u8>,
    pub gzip: Option<Seq<Seq<u8>>>,
    pub directory: Option<DirectoryOption>,
    pub index: Option<Seq<u8>>,
    pub headers: Seq<(Seq<u8>, Seq<u8>)>,
    pub rewrite: Option<Seq<(Seq<u8>, RewriteView)>>,
    pub extensions: Option<Seq<Seq<u8>>>,
    pub methods: Seq<Seq<u8>>,
    pub auth: Option<Seq<u8>>,
    pub error_404: Option<Seq<u8>>,
    pub error_500: Option<Seq<u8>>,
    pub log_success: bool,
    pub log_error: bool,
}

impl View for ServerConfig {
    type V = ConfigView;

    open spec fn view(&self) -> ConfigView {
        ConfigView {
            hosts: self.hosts.deep_view(),
            listen: self.listen as int,
            root: self.root@,
            gzip: self.gzip.deep_view(),
            directory: match self.directory {
                Some(DirectoryOption { time, size }) => Some(DirectoryOption { time, size }),
                None => None,
            },
            index: self.index.deep_view(),
            headers: self.headers.deep_view(),
            rewrite: self.rewrite.deep_view(),
            extensions: self.extensions.deep_view(),
            methods: self.methods.deep_view(),
            auth: self.auth.deep_view(),
            error_404: self.error._404.deep_view(),
            error_500: self.error._500.deep_view(),
            log_success: self.log.success,
            log_error: self.log.error,
        }
    }
}

impl DeepView for ServerConfig {
    type V = ConfigView;

    open spec fn deep_view(&self) -> ConfigView {
        self@
    }
}

/// The methods every host allows unless told otherwise: GET and HEAD.
pub fn default_methods() -> (r: Vec<Vec<u8>>)
    ensures
        r.deep_view() == seq![seq![71u8, 69u8, 84u8], seq![72u8, 69u8, 65u8, 68u8]],
{
    // "GET", "HEAD"
    let get: Vec<u8> = vec![71, 69, 84];
    let head: Vec<u8> = vec![72, 69, 65, 68];
    let r: Vec<Vec<u8>> = vec![get, head];
    proof {
        assert(r.deep_view() =~~= seq![seq![71u8, 69u8, 84u8], seq![72u8, 69u8, 65u8, 68u8]]);
    }
    r
}

} // verus!
