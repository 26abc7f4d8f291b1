//! Small verified helpers on byte strings: comparison, ASCII case
//! folding, searching and concatenation. The wire format and every
//! configured name (hosts, methods, extensions) are byte strings, so
//! the rest of the crate leans on these.

use vstd::prelude::*;

verus! {

/// ASCII lower-casing of one byte: `A`..`Z` map to `a`..`z`.
pub open spec fn lower_byte(b: u8) -> u8 {
    if 65 <= b <= 90 {
        (b + 32) as u8
    } else {
        b
    }
}

/// ASCII lower-casing of a byte string.
pub open spec fn lower(s: Seq<u8>) -> Seq<u8> {
    s.map_values(|b: u8| lower_byte(b))
}

/// Lower-casing twice is the same as lower-casing once, so two byte
/// strings agree after folding exactly when their folded forms do.
pub broadcast proof fn lemma_lower_idempotent(s: Seq<u8>)
    ensures
        #[trigger] lower(lower(s)) == lower(s),
{
    assert(lower(lower(s)) =~= lower(s));
}

/// Equality of two byte slices.
pub fn bytes_eq(a: &[u8], b: &[u8]) -> (r: bool)
    ensures
        r == (a@ == b@),
{
    if a.len() != b.len() {
        assert(a@ != b@) by {
            assert(a@.len() != b@.len());
        }
        return false;
    }
    let mut i: usize = 0;
    while i < a.len()
        invariant
            i <= a.len(),
            a.len() == b.len(),
            forall|j: int| 0 <= j < i ==> a@[j] == b@[j],
        decreases a.len() - i,
    {
        if a[i] != b[i] {
            return false;
        }
        i += 1;
    }
    assert(a@ =~= b@);
    true
}

/// ASCII lower-casing of a byte slice, as a fresh vector.
pub fn to_lower(s: &[u8]) -> (r: Vec<u8>)
    ensures
        r@ == lower(s@),
{
    let mut r: Vec<u8> = Vec::new();
    let mut i: usize = 0;
    while i < s.len()
        invariant
            i <= s.len(),
            r@ == lower(s@.take(i as int)),
        decreases s.len() - i,
    {
        let b = s[i];
        if 65 <= b && b <= 90 {
            r.push(b + 32);
        } else {
            r.push(b);
        }
        assert(r@ =~= lower(s@.take(i + 1))) by {
            assert(s@.take(i + 1) =~= s@.take(i as int).push(s@[i as int]));
        }
        i += 1;
    }
    assert(s@.take(s@.len() as int) =~= s@);
    r
}

/// Appends a byte slice to a byte vector.
pub fn push_bytes(out: &mut Vec<u8>, s: &[u8])
    ensures
        final(out)@ == old(out)@ + s@,
{
    let mut i: usize = 0;
    while i < s.len()
        invariant
            i <= s.len(),
            out@ == old(out)@ + s@.take(i as int),
        decreases s.len() - i,
    {
        out.push(s[i]);
        assert(out@ =~= old(out)@ + s@.take(i + 1)) by {
            assert(s@.take(i + 1) =~= s@.take(i as int).push(s@[i as int]));
        }
        i += 1;
    }
    assert(s@.take(s@.len() as int) =~= s@);
}

/// The least index of `b` in `s`, if any.
pub fn find_byte(s: &[u8], b: u8) -> (r: Option<usize>)
    ensures
        match r {
            Some(i) => i < s@.len() && s@[i as int] == b && forall|j: int|
                0 <= j < i ==> s@[j] != b,
            None => forall|j: int| 0 <= j < s@.len() ==> s@[j] != b,
        },
{
    let mut i: usize = 0;
    while i < s.len()
        invariant
            i <= s.len(),
            forall|j: int| 0 <= j < i ==> s@[j] != b,
        decreases s.len() - i,
    {
        if s[i] == b {
            return Some(i);
        }
        i += 1;
    }
    None
}

/// The greatest index of `b` in `s`, if any.
pub fn rfind_byte(s: &[u8], b: u8) -> (r: Option<usize>)
    ensures
        match r {
            Some(i) => i < s@.len() && s@[i as int] == b && forall|j: int|
                i < j < s@.len() ==> s@[j] != b,
            None => forall|j: int| 0 <= j < s@.len() ==> s@[j] != b,
        },
{
    let mut i: usize = s.len();
    while i > 0
        invariant
            i <= s.len(),
            forall|j: int| i <= j < s@.len() ==> s@[j] != b,
        decreases i,
    {
        i -= 1;
        if s[i] == b {
            return Some(i);
        }
    }
    None
}

/// True when `items` holds `x`.
pub open spec fn seq_holds(items: Seq<Seq<u8>>, x: Seq<u8>) -> bool {
    exists|i: int| 0 <= i < items.len() && items[i] == x
}

/// True when one of `items` equals `x`.
pub fn contains_bytes(items: &Vec<Vec<u8>>, x: &[u8]) -> (r: bool)
    ensures
        r == seq_holds(items.deep_view(), x@),
{
    let ghost iv = items.deep_view();
    proof {
        assert(iv.len() == items@.len());
    }
    let mut i: usize = 0;
    while i < items.len()
        invariant
            i <= items@.len(),
            iv == items.deep_view(),
            iv.len() == items@.len(),
            forall|j: int| 0 <= j < i ==> iv[j] != x@,
        decreases items@.len() - i,
    {
        proof {
            assert(iv[i as int] == items@[i as int].deep_view());
            assert(items@[i as int].deep_view() =~= items@[i as int]@);
        }
        if bytes_eq(items[i].as_slice(), x) {
            return true;
        }
        i += 1;
    }
    false
}

/// True when `s` ends with the suffix `t`.
pub fn ends_with(s: &[u8], t: &[u8]) -> (r: bool)
    ensures
        r == (s@.len() >= t@.len() && s@.skip(s@.len() - t@.len()) == t@),
{
    if s.len() < t.len() {
        return false;
    }
    let tail = vstd::slice::slice_subrange(s, s.len() - t.len(), s.len());
    bytes_eq(tail, t)
}

} // verus!
