//! Verified rendering of numbers as decimal and hex digit strings, and
//! parsing of signed decimal integers, as the status line,
//! `Content-Length`, chunk sizes and the listening-port argument need.

use vstd::prelude::*;

verus! {

/// The decimal digit bytes of `n`, most significant first.
pub open spec fn dec_digits(n: nat) -> Seq<u8>
    decreases n,
{
    if n < 10 {
        seq![(48 + n) as u8]
    } else {
        dec_digits(n / 10) + seq![(48 + n % 10) as u8]
    }
}

/// Lower-case hex digit byte for a value below 16.
pub open spec fn hex_digit_lower(v: u8) -> u8
    recommends
        v < 16,
{
    if v < 10 {
        (48 + v) as u8
    } else {
        (87 + v) as u8
    }
}

/// The lower-case hex digit bytes of `n`, most significant first.
pub open spec fn hex_digits(n: nat) -> Seq<u8>
    decreases n,
{
    if n < 16 {
        seq![hex_digit_lower(n as u8)]
    } else {
        hex_digits(n / 16) + seq![hex_digit_lower((n % 16) as u8)]
    }
}

/// Renders `n` in decimal.
pub fn u64_to_dec(n: u64) -> (r: Vec<u8>)
    ensures
        r@ == dec_digits(n as nat),
    decreases n,
{
    if n < 10 {
        let r: Vec<u8> = vec![48 + (n as u8)];
        assert(r@ =~= dec_digits(n as nat));
        r
    } else {
        let mut r = u64_to_dec(n / 10);
        r.push(48 + ((n % 10) as u8));
        assert(r@ =~= dec_digits((n / 10) as nat) + seq![(48 + (n as nat) % 10) as u8]);
        r
    }
}

/// Renders `n` in lower-case hex, as chunk-size lines want it.
pub fn usize_to_hex(n: usize) -> (r: Vec<u8>)
    ensures
        r@ == hex_digits(n as nat),
    decreases n,
{
    if n < 16 {
        let d = n as u8;
        let r: Vec<u8> = if d < 10 {
            vec![48 + d]
        } else {
            vec![87 + d]
        };
        assert(r@ =~= hex_digits(n as nat));
        r
    } else {
        let mut r = usize_to_hex(n / 16);
        let d = (n % 16) as u8;
        if d < 10 {
            r.push(48 + d);
        } else {
            r.push(87 + d);
        }
        assert(r@ =~= hex_digits((n / 16) as nat) + seq![hex_digit_lower(((n as nat) % 16) as u8)]);
        r
    }
}

/// True when `s` is one or more decimal digit bytes.
pub open spec fn all_digits(s: Seq<u8>) -> bool {
    s.len() > 0 && forall|i: int| 0 <= i < s.len() ==> 48 <= #[trigger] s[i] <= 57
}

/// The numeric value of a digit string.
pub open spec fn dec_val(s: Seq<u8>) -> nat
    decreases s.len(),
{
    if s.len() == 0 {
        0
    } else {
        dec_val(s.drop_last()) * 10 + (s.last() - 48) as nat
    }
}

/// A digit string is worth at least any of its prefixes.
proof fn lemma_dec_val_prefix(s: Seq<u8>, i: int)
    requires
        0 <= i <= s.len(),
        forall|j: int| 0 <= j < s.len() ==> 48 <= #[trigger] s[j] <= 57,
    ensures
        dec_val(s.take(i)) <= dec_val(s),
    decreases s.len() - i,
{
    if i == s.len() {
        assert(s.take(i) =~= s);
    } else {
        lemma_dec_val_prefix(s, i + 1);
        let t = s.take(i + 1);
        assert(t.drop_last() =~= s.take(i));
        assert(dec_val(s.take(i)) <= dec_val(s.take(i)) * 10 + (t.last() - 48) as nat);
    }
}

/// What `str::parse::<i64>` accepts: an optional sign, then one or
/// more decimal digits, denoting a value within the type's range.
pub open spec fn parse_i64_spec(s: Seq<u8>) -> Option<i64> {
    if s.len() == 0 {
        None
    } else {
        let neg = s[0] == 45;
        let ds = if s[0] == 45 || s[0] == 43 {
            s.skip(1)
        } else {
            s
        };
        if !all_digits(ds) {
            None
        } else {
            let v = dec_val(ds);
            if neg {
                if v <= 0x8000_0000_0000_0000 {
                    Some((-(v as int)) as i64)
                } else {
                    None
                }
            } else {
                if v < 0x8000_0000_0000_0000 {
                    Some(v as i64)
                } else {
                    None
                }
            }
        }
    }
}

/// Parses a signed decimal integer, as `parse_i64_spec` describes.
pub fn parse_i64(s: &[u8]) -> (r: Option<i64>)
    ensures
        r == parse_i64_spec(s@),
{
    if s.len() == 0 {
        return None;
    }
    let neg = s[0] == 45;
    let start: usize = if s[0] == 45 || s[0] == 43 {
        1
    } else {
        0
    };
    let ghost ds = if s@[0] == 45 || s@[0] == 43 {
        s@.skip(1)
    } else {
        s@
    };
    proof {
        assert(ds =~= s@.subrange(start as int, s@.len() as int));
    }
    if s.len() == start {
        proof {
            assert(ds.len() == 0);
        }
        return None;
    }
    let mut acc: u128 = 0;
    let mut i: usize = start;
    while i < s.len()
        invariant
            start <= i <= s@.len(),
            s@.len() >= start + 1,
            start == (if s@[0] == 45 || s@[0] == 43 { 1int } else { 0int }),
            ds == (if s@[0] == 45 || s@[0] == 43 { s@.skip(1) } else { s@ }),
            ds == s@.subrange(start as int, s@.len() as int),
            acc == dec_val(ds.take(i - start)),
            acc <= 0x8000_0000_0000_0000,
            forall|j: int| start <= j < i ==> 48 <= #[trigger] s@[j] <= 57,
        decreases s@.len() - i,
    {
        let b = s[i];
        if b < 48 || b > 57 {
            proof {
                assert(ds[i - start] == s@[i as int]);
                assert(!all_digits(ds));
            }
            return None;
        }
        proof {
            let t = ds.take(i - start + 1);
            assert(t.drop_last() =~= ds.take(i - start));
            assert(t.last() == s@[i as int]);
        }
        acc = acc * 10 + ((b - 48) as u128);
        i += 1;
        if acc > 0x8000_0000_0000_0000 {
            proof {
                if all_digits(ds) {
                    lemma_dec_val_prefix(ds, i - start);
                    assert(ds.take(ds.len() as int) =~= ds);
                }
            }
            return None;
        }
    }
    proof {
        assert(ds.take(i - start) =~= ds);
        assert(all_digits(ds));
    }
    if neg {
        if acc == 0x8000_0000_0000_0000 {
            Some(i64::MIN)
        } else {
            Some(-((acc as u64) as i64))
        }
    } else {
        if acc == 0x8000_0000_0000_0000 {
            None
        } else {
            Some((acc as u64) as i64)
        }
    }
}

} // verus!
