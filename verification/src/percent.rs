//! Percent-coding of path and query bytes. Decoding and encoding run
//! through the `percent_encoding` crate; both are pinned to exact
//! specifications here, and decoding is proved to undo encoding.

use vstd::prelude::*;

verus! {

/// True for the bytes of `0`-`9`, `A`-`F` and `a`-`f`.
pub open spec fn is_hex_digit(b: u8) -> bool {
    (48 <= b <= 57) || (65 <= b <= 70) || (97 <= b <= 102)
}

/// Numeric value of a hex digit byte.
pub open spec fn hex_val(b: u8) -> u8
    recommends
        is_hex_digit(b),
{
    if 48 <= b <= 57 {
        (b - 48) as u8
    } else if 65 <= b <= 70 {
        (b - 55) as u8
    } else {
        (b - 87) as u8
    }
}

/// Percent-decoding: each `%` followed by two hex digits becomes the
/// byte they denote; any other byte, a lone `%` included, is kept.
pub open spec fn pct_decode(s: Seq<u8>) -> Seq<u8>
    decreases s.len(),
{
    if s.len() == 0 {
        seq![]
    } else if s[0] == 37 && s.len() >= 3 && is_hex_digit(s[1]) && is_hex_digit(s[2]) {
        seq![(hex_val(s[1]) * 16 + hex_val(s[2])) as u8] + pct_decode(s.skip(3))
    } else {
        seq![s[0]] + pct_decode(s.skip(1))
    }
}

/// True for the bytes of ASCII letters and digits.
pub open spec fn is_ascii_alnum(b: u8) -> bool {
    (48 <= b <= 57) || (65 <= b <= 90) || (97 <= b <= 122)
}

/// Upper-case hex digit byte for a value below 16.
pub open spec fn hex_digit_upper(v: u8) -> u8
    recommends
        v < 16,
{
    if v < 10 {
        (v + 48) as u8
    } else {
        (v + 55) as u8
    }
}

/// Percent-encoding: every byte that is not an ASCII letter or digit
/// becomes `%` and two upper-case hex digits.
pub open spec fn pct_encode(s: Seq<u8>) -> Seq<u8>
    decreases s.len(),
{
    if s.len() == 0 {
        seq![]
    } else if is_ascii_alnum(s[0]) {
        seq![s[0]] + pct_encode(s.skip(1))
    } else {
        seq![37u8, hex_digit_upper(s[0] / 16), hex_digit_upper(s[0] % 16)] + pct_encode(s.skip(1))
    }
}

/// Relies on `percent_encoding::percent_decode`: any `%` followed by
/// two hex digits (either case) is decoded to the denoted byte, and
/// every other byte is passed through unchanged.
#[verifier::external_body]
pub fn percent_decode(input: &[u8]) -> (r: Vec<u8>)
    ensures
        r@ == pct_decode(input@),
{
    percent_encoding::percent_decode(input).collect()
}

/// Relies on `percent_encoding::percent_encode` with the
/// `NON_ALPHANUMERIC` set: non-ASCII bytes and bytes in the set (all
/// but ASCII letters and digits) are written as `%` and two upper-case
/// hex digits; the rest are passed through unchanged.
#[verifier::external_body]
pub fn percent_encode(input: &[u8]) -> (r: Vec<u8>)
    ensures
        r@ == pct_encode(input@),
{
    let s: String =
        percent_encoding::percent_encode(input, percent_encoding::NON_ALPHANUMERIC).collect();
    s.into_bytes()
}

/// Percent-decoding undoes percent-encoding: every byte string comes
/// back unchanged from an encode-then-decode round trip.
pub proof fn lemma_percent_round_trip(s: Seq<u8>)
    ensures
        pct_decode(pct_encode(s)) == s,
    decreases s.len(),
{
    if s.len() == 0 {
        assert(pct_decode(pct_encode(s)) =~= s);
    } else {
        lemma_percent_round_trip(s.skip(1));
        let b = s[0];
        if is_ascii_alnum(b) {
            let e = pct_encode(s);
            assert(e == seq![b] + pct_encode(s.skip(1)));
            assert(e[0] == b && b != 37);
            assert(e.skip(1) =~= pct_encode(s.skip(1)));
            assert(pct_decode(e) == seq![b] + pct_decode(pct_encode(s.skip(1))));
            assert(pct_decode(pct_encode(s)) =~= s);
        } else {
            let h = hex_digit_upper(b / 16);
            let l = hex_digit_upper(b % 16);
            let e = pct_encode(s);
            assert(e == seq![37u8, h, l] + pct_encode(s.skip(1)));
            assert(e[0] == 37 && e.len() >= 3 && e[1] == h && e[2] == l);
            assert(is_hex_digit(h) && is_hex_digit(l));
            assert(hex_val(h) == b / 16 && hex_val(l) == b % 16);
            assert(hex_val(h) * 16 + hex_val(l) == b);
            assert(e.skip(3) =~= pct_encode(s.skip(1)));
            assert(pct_decode(e) == seq![b] + pct_decode(pct_encode(s.skip(1))));
            assert(pct_decode(pct_encode(s)) =~= s);
        }
    }
}

} // verus!
