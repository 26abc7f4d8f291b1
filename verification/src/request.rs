//! The wire parser: turns one raw buffer read off a connection into a
//! structured request (method, percent-decoded path, optional query,
//! and a header table with case-folded names). It knows nothing of the
//! configuration.
//!
//! The buffer is cut on delimiter byte strings; a segment between two
//! delimiters is kept only when it is non-empty, so consecutive
//! delimiters collapse. "Wrong number of parts" is the uniform failure
//! signal throughout.

use vstd::prelude::*;

use crate::bytes_util::{bytes_eq, lower, to_lower};
use crate::percent::{pct_decode, percent_decode};

verus! {

/// `'\r' '\n'`, the line delimiter.
pub const LINE: [u8; 2] = [13, 10];

/// `' '`, the request-line token delimiter.
pub const SPACE: [u8; 1] = [32];

/// `':' ' '`, the header name/value delimiter.
pub const COLON_SPACE: [u8; 2] = [58, 32];

/// `'?'`, the path/query delimiter.
pub const QUESTION_MARK: [u8; 1] = [63];

/// One step of splitting: `cur` is the segment collected so far. A
/// delimiter match flushes `cur` (dropped when empty) and starts over;
/// any other leading byte joins `cur`.
pub open spec fn split_rec(s: Seq<u8>, sep: Seq<u8>, cur: Seq<u8>) -> Seq<Seq<u8>>
    decreases s.len(),
{
    if sep.len() == 0 || s.len() == 0 {
        if cur.len() + s.len() == 0 {
            seq![]
        } else {
            seq![cur + s]
        }
    } else if s.len() >= sep.len() && s.take(sep.len() as int) == sep {
        let rest = split_rec(s.skip(sep.len() as int), sep, seq![]);
        if cur.len() == 0 {
            rest
        } else {
            seq![cur] + rest
        }
    } else {
        split_rec(s.skip(1), sep, cur.push(s[0]))
    }
}

/// The non-empty segments of `s` between occurrences of `sep`, in
/// order, scanned left to right.
pub open spec fn split_bytes(s: Seq<u8>, sep: Seq<u8>) -> Seq<Seq<u8>> {
    split_rec(s, sep, seq![])
}

/// The least index of `b` in `s`, or `-1` when `b` does not occur.
pub open spec fn find_first(s: Seq<u8>, b: u8) -> int
    decreases s.len(),
{
    if s.len() == 0 {
        -1
    } else if s[0] == b {
        0
    } else {
        let r = find_first(s.skip(1), b);
        if r < 0 {
            -1
        } else {
            r + 1
        }
    }
}

pub proof fn lemma_find_first(s: Seq<u8>, b: u8)
    ensures
        ({
            let r = find_first(s, b);
            &&& r >= 0 ==> 0 <= r < s.len() && s[r] == b && (forall|j: int|
                0 <= j < r ==> s[j] != b)
            &&& r < 0 ==> forall|j: int| 0 <= j < s.len() ==> s[j] != b
        }),
    decreases s.len(),
{
    if s.len() == 0 {
    } else if s[0] == b {
    } else {
        lemma_find_first(s.skip(1), b);
        let t = s.skip(1);
        let r = find_first(t, b);
        if r >= 0 {
            assert(t[r] == s[r + 1]);
            assert forall|j: int| 0 <= j < r + 1 implies s[j] != b by {
                if j > 0 {
                    assert(t[j - 1] == s[j]);
                }
            }
        } else {
            assert forall|j: int| 0 <= j < s.len() implies s[j] != b by {
                if j > 0 {
                    assert(t[j - 1] == s[j]);
                }
            }
        }
    }
}

/// The parsed request-line outcome: method, decoded path, decoded
/// query (with its leading `?` restored). The first line must cut into
/// exactly three tokens on single spaces; the target is cut on its
/// first `?`; a path that decodes to something empty or not UTF-8
/// fails the parse, while a query that does so merely disappears.
pub open spec fn first_result(line: Seq<u8>) -> Option<(Seq<u8>, Seq<u8>, Option<Seq<u8>>)> {
    let toks = split_bytes(line, seq![32u8]);
    if toks.len() != 3 {
        None
    } else {
        let target = toks[1];
        let qi = find_first(target, 63);
        let rawp = if qi < 0 {
            target
        } else {
            target.take(qi)
        };
        let path = pct_decode(rawp);
        if path.len() == 0 || !vstd::utf8::valid_utf8(path) {
            None
        } else {
            let query = if qi < 0 {
                None
            } else {
                let dq = pct_decode(target.skip(qi + 1));
                if vstd::utf8::valid_utf8(dq) {
                    Some(seq![63u8] + dq)
                } else {
                    None
                }
            };
            Some((toks[0], path, query))
        }
    }
}

/// The header table collected from the lines after the request line:
/// each line is cut on `": "` into exactly two parts, the name is
/// case-folded, and the first line that does not cut into two parts
/// ends the table (the rest of the buffer is an uninterpreted body).
pub open spec fn header_entries(lines: Seq<Seq<u8>>) -> Seq<(Seq<u8>, Seq<u8>)>
    decreases lines.len(),
{
    if lines.len() == 0 {
        seq![]
    } else {
        let parts = split_bytes(lines[0], seq![58u8, 32u8]);
        if parts.len() != 2 {
            seq![]
        } else {
            seq![(lower(parts[0]), parts[1])] + header_entries(lines.skip(1))
        }
    }
}

/// What parsing a whole buffer yields, when it yields anything: the
/// buffer is cut into lines on CRLF, the first line is the request
/// line, the rest feed the header table.
pub open spec fn parse_result(buff: Seq<u8>) -> Option<ReqView> {
    let lines = split_bytes(buff, seq![13u8, 10u8]);
    if lines.len() == 0 {
        None
    } else {
        match first_result(lines[0]) {
            None => None,
            Some(t) => Some(
                ReqView { method: t.0, path: t.1, query: t.2, headers: header_entries(lines.skip(1)) },
            ),
        }
    }
}

/// The value of the latest header entry whose (folded) name is `key`.
/// Later entries shadow earlier ones with the same name.
pub open spec fn lookup(headers: Seq<(Seq<u8>, Seq<u8>)>, key: Seq<u8>) -> Option<Seq<u8>>
    decreases headers.len(),
{
    if headers.len() == 0 {
        None
    } else if headers.last().0 == key {
        Some(headers.last().1)
    } else {
        lookup(headers.drop_last(), key)
    }
}

/// Relies on std's `str::from_utf8`: it returns `Ok` exactly on valid
/// UTF-8, which is what `vstd::utf8::valid_utf8` describes.
#[verifier::external_body]
fn is_valid_utf8(v: &[u8]) -> (r: bool)
    ensures
        r == vstd::utf8::valid_utf8(v@),
{
    std::str::from_utf8(v).is_ok()
}

pub ghost struct ReqView {
    pub method: Seq<u8>,
    pub path: Seq<u8>,
    pub query: Option<Seq<u8>>,
    pub headers: Seq<(Seq<u8>, Seq<u8>)>,
}

pub struct Request {
    pub method: Vec<u8>,
    pub path: Vec<u8>,
    pub query: Option<Vec<u8>>,
    pub headers: Vec<(Vec<u8>, Vec<u8>)>,
}

impl View for Request {
    type V = ReqView;

    open spec fn view(&self) -> ReqView {
        ReqView {
            method: self.method@,
            path: self.path@,
            query: self.query.deep_view(),
            headers: self.headers.deep_view(),
        }
    }
}

impl Request {
    /// Cuts `buff` on every occurrence of `sep`, dropping empty
    /// segments.
    pub fn split(buff: &Vec<u8>, sep: &[u8]) -> (r: Vec<Vec<u8>>)
        ensures
            r.deep_view() == split_bytes(buff@, sep@),
    {
        let mut result: Vec<Vec<u8>> = Vec::new();
        if sep.len() == 0 {
            if buff.len() != 0 {
                result.push(buff.clone());
                assert(buff@ =~= Seq::<u8>::empty() + buff@);
                assert(result.deep_view() =~~= split_bytes(buff@, sep@));
            } else {
                assert(result.deep_view() =~~= split_bytes(buff@, sep@));
            }
            return result;
        }
        let ghost full = buff@;
        let ghost sp = sep@;
        let mut find: usize = 0;
        let mut i: usize = 0;
        proof {
            assert(full.skip(0) =~= full);
            assert(full.subrange(0, 0) =~= Seq::<u8>::empty());
            assert(Seq::<Seq<u8>>::empty() + split_rec(full, sp, Seq::<u8>::empty())
                =~= split_rec(full, sp, Seq::<u8>::empty()));
            assert(result.deep_view() =~~= Seq::<Seq<u8>>::empty());
        }
        while i < buff.len()
            invariant
                sp.len() >= 1,
                sep@ == sp,
                buff@ == full,
                0 <= find <= i <= buff.len(),
                split_bytes(full, sp) == result.deep_view() + split_rec(
                    full.skip(i as int),
                    sp,
                    full.subrange(find as int, i as int),
                ),
            decreases buff.len() - i,
        {
            let ghost rem = full.skip(i as int);
            let ghost cur = full.subrange(find as int, i as int);
            if sep.len() <= buff.len() - i {
                let window = vstd::slice::slice_subrange(buff.as_slice(), i, i + sep.len());
                if bytes_eq(window, sep) {
                    assert(rem.take(sp.len() as int) =~= full.subrange(
                        i as int,
                        i + sp.len(),
                    ));
                    assert(rem.take(sp.len() as int) == sp);
                    assert(rem.skip(sp.len() as int) =~= full.skip(i + sp.len()));
                    if find != i {
                        let seg = vstd::slice::slice_to_vec(
                            vstd::slice::slice_subrange(buff.as_slice(), find, i),
                        );
                        let ghost before = result.deep_view();
                        result.push(seg);
                        assert(result.deep_view() =~~= before.push(cur));
                        assert(before.push(cur) =~= before + seq![cur]);
                        assert((before + seq![cur]) + split_rec(full.skip(i + sp.len()), sp, seq![])
                            =~= before + (seq![cur] + split_rec(full.skip(i + sp.len()), sp, seq![])));
                    }
                    i = i + sep.len();
                    find = i;
                    assert(full.subrange(find as int, i as int) =~= Seq::<u8>::empty());
                    assert(split_bytes(full, sp) == result.deep_view() + split_rec(
                        full.skip(i as int),
                        sp,
                        full.subrange(find as int, i as int),
                    ));
                    continue;
                }
                // no delimiter at `i`
                assert(rem.take(sp.len() as int) =~= full.subrange(i as int, i + sp.len()));
                assert(rem.take(sp.len() as int) != sp);
                assert(split_rec(rem, sp, cur) == split_rec(rem.skip(1), sp, cur.push(full[i as int])));
            } else {
                // the tail is shorter than the delimiter
                assert(rem.len() < sp.len());
                assert(split_rec(rem, sp, cur) == split_rec(rem.skip(1), sp, cur.push(full[i as int])));
            }
            assert(rem.skip(1) =~= full.skip(i + 1));
            assert(cur.push(full[i as int]) =~= full.subrange(find as int, i + 1));
            i = i + 1;
        }
        // i == buff.len(): flush the final segment, if any
        assert(full.skip(i as int) =~= Seq::<u8>::empty());
        let ghost cur = full.subrange(find as int, i as int);
        if find != i {
            let seg = vstd::slice::slice_to_vec(
                vstd::slice::slice_subrange(buff.as_slice(), find, i),
            );
            let ghost before = result.deep_view();
            result.push(seg);
            assert(split_rec(Seq::<u8>::empty(), sp, cur) =~= seq![cur + Seq::<u8>::empty()]);
            assert(cur + Seq::<u8>::empty() =~= cur);
            assert(result.deep_view() =~~= before.push(cur));
            assert(before.push(cur) =~= before + seq![cur]);
        } else {
            assert(cur =~= Seq::<u8>::empty());
            assert(split_rec(Seq::<u8>::empty(), sp, cur) =~= Seq::<Seq<u8>>::empty());
            assert(result.deep_view() + Seq::<Seq<u8>>::empty() =~= result.deep_view());
        }
        result
    }

    /// Parses the request line into method, decoded path and decoded
    /// query, as `first_result` describes.
    pub fn first(buff: &Vec<u8>) -> (r: Result<(Vec<u8>, Vec<u8>, Option<Vec<u8>>), ()>)
        ensures
            match r {
                Ok(t) => first_result(buff@) == Some((t.0@, t.1@, t.2.deep_view())),
                Err(_) => first_result(buff@) is None,
            },
    {
        let toks = Request::split(buff, &SPACE);
        proof {
            assert(SPACE@ =~= seq![32u8]);
            assert(toks.deep_view().len() == toks@.len());
        }
        if toks.len() != 3 {
            return Err(());
        }
        let ghost tokens = split_bytes(buff@, seq![32u8]);
        let method = toks[0].clone();
        let target = &toks[1];
        let ghost tgt = tokens[1];
        proof {
            assert(toks.deep_view()[1] == toks@[1].deep_view());
            assert(toks@[1].deep_view() =~= toks@[1]@);
            assert(target@ == tgt);
            assert(toks.deep_view()[0] == toks@[0].deep_view());
            assert(toks@[0].deep_view() =~= toks@[0]@);
            lemma_find_first(tgt, 63);
        }
        let qpos = crate::bytes_util::find_byte(target.as_slice(), QUESTION_MARK[0]);
        let ghost qi = find_first(tgt, 63);
        let rawp: &[u8] = match qpos {
            Some(i) => {
                proof {
                    if qi < 0 {
                        assert(tgt[i as int] == 63);
                        assert(false);
                    } else if qi < i as int {
                        assert(tgt[qi] == 63);
                        assert(false);
                    } else if qi > i as int {
                        assert(tgt[i as int] == 63);
                        assert(false);
                    }
                }
                vstd::slice::slice_subrange(target.as_slice(), 0, i)
            },
            None => {
                proof {
                    if qi >= 0 {
                        assert(tgt[qi] == 63);
                        assert(false);
                    }
                }
                target.as_slice()
            },
        };
        proof {
            if qi >= 0 {
                assert(rawp@ =~= tgt.take(qi));
            }
        }
        let path = percent_decode(rawp);
        if path.len() == 0 {
            return Err(());
        }
        if !is_valid_utf8(path.as_slice()) {
            return Err(());
        }
        let query: Option<Vec<u8>> = match qpos {
            Some(i) => {
                let tlen = target.len();
                proof {
                    assert(i < target@.len());
                }
                let rawq = vstd::slice::slice_subrange(target.as_slice(), i + 1, tlen);
                proof {
                    assert(rawq@ =~= tgt.skip(qi + 1));
                }
                let dq = percent_decode(rawq);
                if is_valid_utf8(dq.as_slice()) {
                    let mut q: Vec<u8> = vec![63u8];
                    crate::bytes_util::push_bytes(&mut q, dq.as_slice());
                    proof {
                        assert(q@ =~= seq![63u8] + dq@);
                    }
                    Some(q)
                } else {
                    None
                }
            },
            None => None,
        };
        Ok((method, path, query))
    }

    /// Parses one raw buffer into a request, exactly as `parse_result`
    /// describes; a buffer with no request line at all is refused.
    pub fn new(buff: &[u8]) -> (r: Result<Request, ()>)
        ensures
            match r {
                Ok(req) => parse_result(buff@) == Some(req@),
                Err(_) => parse_result(buff@) is None,
            },
    {
        let owned = vstd::slice::slice_to_vec(buff);
        let lines = Request::split(&owned, &LINE);
        proof {
            assert(LINE@ =~= seq![13u8, 10u8]);
            assert(lines.deep_view().len() == lines@.len());
        }
        if lines.len() == 0 {
            return Err(());
        }
        let ghost ldv = lines.deep_view();
        proof {
            assert(ldv[0] == lines@[0].deep_view());
            assert(lines@[0].deep_view() =~= lines@[0]@);
        }
        let (method, path, query) = match Request::first(&lines[0]) {
            Ok(t) => t,
            Err(_) => {
                return Err(());
            },
        };
        let mut headers: Vec<(Vec<u8>, Vec<u8>)> = Vec::new();
        let mut k: usize = 1;
        let mut stopped = false;
        proof {
            assert(headers.deep_view() =~~= Seq::<(Seq<u8>, Seq<u8>)>::empty());
            assert(Seq::<(Seq<u8>, Seq<u8>)>::empty() + header_entries(ldv.skip(1)) =~= header_entries(
                ldv.skip(1),
            ));
        }
        while k < lines.len() && !stopped
            invariant
                1 <= k <= lines@.len(),
                ldv == lines.deep_view(),
                ldv.len() == lines@.len(),
                header_entries(ldv.skip(1)) == headers.deep_view() + header_entries(
                    ldv.skip(k as int),
                ),
                stopped ==> header_entries(ldv.skip(k as int)) == Seq::<(Seq<u8>, Seq<u8>)>::empty(),
            decreases lines@.len() - k, (if stopped { 0int } else { 1int }),
        {
            let ghost tail = ldv.skip(k as int);
            proof {
                assert(tail[0] == ldv[k as int]);
                assert(ldv[k as int] == lines@[k as int].deep_view());
                assert(lines@[k as int].deep_view() =~= lines@[k as int]@);
            }
            let parts = Request::split(&lines[k], &COLON_SPACE);
            proof {
                assert(COLON_SPACE@ =~= seq![58u8, 32u8]);
                assert(parts.deep_view().len() == parts@.len());
            }
            if parts.len() != 2 {
                proof {
                    assert(header_entries(tail) =~= Seq::<(Seq<u8>, Seq<u8>)>::empty());
                }
                stopped = true;
            } else {
                let name = to_lower(parts[0].as_slice());
                let value = parts[1].clone();
                let ghost before = headers.deep_view();
                proof {
                    assert(parts.deep_view()[0] == parts@[0].deep_view());
                    assert(parts@[0].deep_view() =~= parts@[0]@);
                    assert(parts.deep_view()[1] == parts@[1].deep_view());
                    assert(parts@[1].deep_view() =~= parts@[1]@);
                    assert(tail.skip(1) =~= ldv.skip(k + 1));
                }
                headers.push((name, value));
                proof {
                    let entry = (lower(parts.deep_view()[0]), parts.deep_view()[1]);
                    assert(headers.deep_view() =~~= before.push(entry));
                    assert(before.push(entry) =~= before + seq![entry]);
                    assert(header_entries(tail) == seq![entry] + header_entries(ldv.skip(k + 1)));
                    assert((before + seq![entry]) + header_entries(ldv.skip(k + 1)) =~= before + (
                    seq![entry] + header_entries(ldv.skip(k + 1))));
                }
                k += 1;
            }
        }
        proof {
            if !stopped {
                assert(k == lines@.len());
                assert(ldv.skip(k as int) =~= Seq::<Seq<u8>>::empty());
                assert(header_entries(ldv.skip(k as int)) =~= Seq::<(Seq<u8>, Seq<u8>)>::empty());
            }
            assert(headers.deep_view() + Seq::<(Seq<u8>, Seq<u8>)>::empty() =~= headers.deep_view());
        }
        Ok(Request { method, path, query, headers })
    }

    /// The value stored for the (already folded) header name `key`.
    pub fn header(&self, key: &[u8]) -> (r: Option<&Vec<u8>>)
        ensures
            match r {
                Some(v) => lookup(self@.headers, key@) == Some(v@),
                None => lookup(self@.headers, key@) is None,
            },
    {
        let ghost hs = self@.headers;
        let mut i: usize = self.headers.len();
        proof {
            assert(hs.len() == self.headers@.len());
            assert(hs.take(i as int) =~= hs);
        }
        while i > 0
            invariant
                i <= self.headers@.len(),
                hs == self@.headers,
                hs.len() == self.headers@.len(),
                lookup(hs, key@) == lookup(hs.take(i as int), key@),
            decreases i,
        {
            i -= 1;
            let ghost prefix = hs.take(i + 1);
            proof {
                assert(prefix.last() == hs[i as int]);
                assert(prefix.drop_last() =~= hs.take(i as int));
                assert(hs[i as int] == self.headers@[i as int].deep_view());
                assert(self.headers@[i as int].deep_view().0 =~= self.headers@[i as int].0@);
                assert(self.headers@[i as int].deep_view().1 =~= self.headers@[i as int].1@);
            }
            if bytes_eq(self.headers[i].0.as_slice(), key) {
                return Some(&self.headers[i].1);
            }
        }
        proof {
            assert(hs.take(0) =~= Seq::<(Seq<u8>, Seq<u8>)>::empty());
        }
        None
    }
}

/// Every key in a parsed header table is already case-folded, so a
/// lookup under the folded form of a name is the lookup the wire
/// intended: header retrieval is case-insensitive.
pub proof fn lemma_header_keys_folded(lines: Seq<Seq<u8>>)
    ensures
        forall|i: int|
            0 <= i < header_entries(lines).len() ==> #[trigger] header_entries(lines)[i].0 == lower(
                header_entries(lines)[i].0,
            ),
    decreases lines.len(),
{
    if lines.len() == 0 {
    } else {
        let parts = split_bytes(lines[0], seq![58u8, 32u8]);
        if parts.len() != 2 {
        } else {
            lemma_header_keys_folded(lines.skip(1));
            crate::bytes_util::lemma_lower_idempotent(parts[0]);
            let rest = header_entries(lines.skip(1));
            let entry = (lower(parts[0]), parts[1]);
            assert(header_entries(lines) == seq![entry] + rest);
            assert forall|i: int|
                0 <= i < header_entries(lines).len() implies #[trigger] header_entries(
                lines,
            )[i].0 == lower(header_entries(lines)[i].0) by {
                if i > 0 {
                    assert(header_entries(lines)[i] == rest[i - 1]);
                }
            }
        }
    }
}

/// A byte string free of the (single-byte) delimiter splits into just
/// itself, whatever was collected before it.
proof fn lemma_split_rec_no_sep(s: Seq<u8>, b: u8, cur: Seq<u8>)
    requires
        forall|i: int| 0 <= i < s.len() ==> s[i] != b,
        cur.len() + s.len() > 0,
    ensures
        split_rec(s, seq![b], cur) == seq![cur + s],
    decreases s.len(),
{
    if s.len() == 0 {
    } else {
        assert(s.take(1) != seq![b]) by {
            assert(s.take(1)[0] == s[0]);
        }
        lemma_split_rec_no_sep(s.skip(1), b, cur.push(s[0]));
        assert(cur.push(s[0]) + s.skip(1) =~= cur + s);
    }
}

/// Splitting `a ++ [b] ++ t` on `b`, with `a` free of `b`, flushes
/// `cur ++ a` (when non-empty) and goes on with `t` afresh.
proof fn lemma_split_rec_prepend(a: Seq<u8>, b: u8, t: Seq<u8>, cur: Seq<u8>)
    requires
        forall|i: int| 0 <= i < a.len() ==> a[i] != b,
    ensures
        split_rec(a + seq![b] + t, seq![b], cur) == (if cur.len() + a.len() == 0 {
            Seq::<Seq<u8>>::empty()
        } else {
            seq![cur + a]
        }) + split_rec(t, seq![b], seq![]),
    decreases a.len(),
{
    let s = a + seq![b] + t;
    if a.len() == 0 {
        assert(s =~= seq![b] + t);
        assert(s.take(1) =~= seq![b]);
        assert(s.skip(1) =~= t);
        if cur.len() == 0 {
            assert(Seq::<Seq<u8>>::empty() + split_rec(t, seq![b], seq![]) =~= split_rec(
                t,
                seq![b],
                seq![],
            ));
        } else {
            assert(cur + a =~= cur);
        }
    } else {
        assert(s[0] == a[0]);
        assert(s.take(1) != seq![b]) by {
            assert(s.take(1)[0] == s[0]);
        }
        assert(s.skip(1) =~= a.skip(1) + seq![b] + t);
        lemma_split_rec_prepend(a.skip(1), b, t, cur.push(a[0]));
        assert(cur.push(a[0]) + a.skip(1) =~= cur + a);
        assert(cur.push(a[0]).len() + a.skip(1).len() > 0);
    }
}

/// For every well-formed request line — a method, a target and a
/// protocol version joined by single spaces, each non-empty and free
/// of spaces — the parser recovers the method and the decoded path and
/// query exactly (the line's three tokens come back as cut); and the
/// parser's contract already refuses every other token count. The one
/// hypothesis is the parser's own success condition on the target: its
/// path half must decode to a non-empty UTF-8 string.
pub proof fn lemma_request_line_roundtrip(method: Seq<u8>, target: Seq<u8>, version: Seq<u8>)
    requires
        method.len() > 0,
        target.len() > 0,
        version.len() > 0,
        forall|i: int| 0 <= i < method.len() ==> method[i] != 32,
        forall|i: int| 0 <= i < target.len() ==> target[i] != 32,
        forall|i: int| 0 <= i < version.len() ==> version[i] != 32,
        ({
            let qi = find_first(target, 63);
            let rawp = if qi < 0 {
                target
            } else {
                target.take(qi)
            };
            pct_decode(rawp).len() > 0 && vstd::utf8::valid_utf8(pct_decode(rawp))
        }),
    ensures
        ({
            let line = method + seq![32u8] + target + seq![32u8] + version;
            let qi = find_first(target, 63);
            let rawp = if qi < 0 {
                target
            } else {
                target.take(qi)
            };
            let query = if qi < 0 {
                None
            } else {
                let dq = pct_decode(target.skip(qi + 1));
                if vstd::utf8::valid_utf8(dq) {
                    Some(seq![63u8] + dq)
                } else {
                    None
                }
            };
            &&& split_bytes(line, seq![32u8]) == seq![method, target, version]
            &&& first_result(line) == Some((method, pct_decode(rawp), query))
        }),
{
    let line = method + seq![32u8] + target + seq![32u8] + version;
    let rest = target + seq![32u8] + version;
    assert(line =~= method + seq![32u8] + rest);
    lemma_split_rec_prepend(method, 32, rest, seq![]);
    lemma_split_rec_prepend(target, 32, version, seq![]);
    lemma_split_rec_no_sep(version, 32, seq![]);
    assert(Seq::<u8>::empty() + method =~= method);
    assert(Seq::<u8>::empty() + target =~= target);
    assert(Seq::<u8>::empty() + version =~= version);
    assert(split_bytes(line, seq![32u8]) =~= seq![method, target, version]);
}

/// Every segment the splitter yields is non-empty.
proof fn lemma_split_rec_nonempty(s: Seq<u8>, sep: Seq<u8>, cur: Seq<u8>)
    ensures
        forall|i: int|
            0 <= i < split_rec(s, sep, cur).len() ==> #[trigger] split_rec(s, sep, cur)[i].len()
                > 0,
    decreases s.len(),
{
    if sep.len() == 0 || s.len() == 0 {
    } else if s.len() >= sep.len() && s.take(sep.len() as int) == sep {
        lemma_split_rec_nonempty(s.skip(sep.len() as int), sep, seq![]);
        let rest = split_rec(s.skip(sep.len() as int), sep, seq![]);
        if cur.len() != 0 {
            assert forall|i: int|
                0 <= i < split_rec(s, sep, cur).len() implies #[trigger] split_rec(
                s,
                sep,
                cur,
            )[i].len() > 0 by {
                if i > 0 {
                    assert(split_rec(s, sep, cur)[i] == rest[i - 1]);
                }
            }
        }
    } else {
        lemma_split_rec_nonempty(s.skip(1), sep, cur.push(s[0]));
        assert(split_rec(s, sep, cur) == split_rec(s.skip(1), sep, cur.push(s[0])));
    }
}

/// On every successful parse the method and the path are non-empty:
/// the method is a delimiter-free segment, and an empty decoded path
/// fails the parse.
pub proof fn lemma_parse_nonempty(buff: Seq<u8>)
    ensures
        parse_result(buff) matches Some(r) ==> r.method.len() > 0 && r.path.len() > 0,
{
    let lines = split_bytes(buff, seq![13u8, 10u8]);
    if lines.len() > 0 {
        lemma_split_rec_nonempty(lines[0], seq![32u8], seq![]);
    }
}

/// Every header key of a successful parse is already case-folded, so a
/// lookup under the folded form of any name retrieves what the wire
/// sent: header retrieval is case-insensitive.
pub proof fn lemma_parsed_header_keys_folded(buff: Seq<u8>)
    ensures
        parse_result(buff) matches Some(r) ==> forall|i: int|
            0 <= i < r.headers.len() ==> #[trigger] r.headers[i].0 == lower(r.headers[i].0),
{
    let lines = split_bytes(buff, seq![13u8, 10u8]);
    if lines.len() > 0 {
        lemma_header_keys_folded(lines.skip(1));
    }
}

/// Two names that agree after case folding retrieve the same header.
pub proof fn lemma_lookup_case_insensitive(
    headers: Seq<(Seq<u8>, Seq<u8>)>,
    name1: Seq<u8>,
    name2: Seq<u8>,
)
    requires
        lower(name1) == lower(name2),
    ensures
        lookup(headers, lower(name1)) == lookup(headers, lower(name2)),
{
}

} // verus!
