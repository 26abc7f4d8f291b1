//! Directory-listing rendering and the helpers it formats with: the
//! binary-prefix size scale and the `YYYY-MM-DD HH:MM` time stamp. The
//! shell reads the directory and stats each entry; every row arrives
//! here as plain values and the whole page is assembled verified,
//! byte for byte.

use vstd::prelude::*;

use crate::bytes_util::push_bytes;
use crate::dec::{dec_digits, u64_to_dec};

verus! {

/// 1024 to the `i`.
pub open spec fn pow1024(i: nat) -> nat
    decreases i,
{
    if i == 0 {
        1
    } else {
        1024 * pow1024((i - 1) as nat)
    }
}

/// The binary-prefix scale of a byte count: how often it divides by
/// 1024 before falling under it.
pub open spec fn scale_of(b: nat) -> nat
    decreases b,
{
    if b < 1024 {
        0
    } else {
        (1 + scale_of(b / 1024)) as nat
    }
}

/// The scale is the unique exponent whose power fits the count.
proof fn lemma_scale_of(b: nat, j: nat)
    requires
        j > 0 ==> pow1024(j) <= b,
        b < 1024 * pow1024(j),
    ensures
        scale_of(b) == j,
    decreases j,
{
    if j == 0 {
        assert(b < 1024);
    } else {
        assert(pow1024(j) >= 1024) by {
            lemma_pow1024_pos((j - 1) as nat);
        }
        assert(b >= 1024);
        let b1 = b / 1024;
        assert(b == 1024 * b1 + b % 1024);
        assert(pow1024(j) == 1024 * pow1024((j - 1) as nat));
        assert(b1 >= pow1024((j - 1) as nat)) by (nonlinear_arith)
            requires
                1024 * pow1024((j - 1) as nat) <= b,
                b1 == b / 1024,
        {}
        assert(b1 < 1024 * pow1024((j - 1) as nat)) by (nonlinear_arith)
            requires
                b < 1024 * (1024 * pow1024((j - 1) as nat)),
                b1 == b / 1024,
        {}
        lemma_scale_of(b1, (j - 1) as nat);
    }
}

proof fn lemma_pow1024_pos(i: nat)
    ensures
        pow1024(i) >= 1,
    decreases i,
{
    if i > 0 {
        lemma_pow1024_pos((i - 1) as nat);
    }
}

/// The byte count in hundredths of its scale unit, rounded to the
/// nearest hundredth (ties cannot occur: the divisor is a power of
/// two).
pub open spec fn size_centi(b: nat) -> nat {
    let p = pow1024(scale_of(b));
    (200 * b + p) / (2 * p)
}

/// The unit names of the scale, base 1024.
pub open spec fn unit_name(i: nat) -> Seq<u8> {
    if i == 0 {
        seq![66u8]
    } else if i == 1 {
        seq![75u8, 66u8]
    } else if i == 2 {
        seq![77u8, 66u8]
    } else if i == 3 {
        seq![71u8, 66u8]
    } else if i == 4 {
        seq![84u8, 66u8]
    } else if i == 5 {
        seq![80u8, 66u8]
    } else if i == 6 {
        seq![69u8, 66u8]
    } else if i == 7 {
        seq![90u8, 66u8]
    } else {
        seq![89u8, 66u8]
    }
}

/// A byte count rendered with two decimals and its unit: the whole
/// part, a dot, the hundredths zero-padded, a space, the unit.
pub open spec fn size_string(b: nat) -> Seq<u8> {
    let c = size_centi(b);
    dec_digits(c / 100) + seq![46u8] + seq![
        (48 + (c % 100) / 10) as u8,
        (48 + c % 10) as u8,
    ] + seq![32u8] + unit_name(scale_of(b))
}

/// The scale index and its power for one byte count.
#[verifier::loop_isolation(false)]
#[verifier::rlimit(60)]
fn scale(bytes: u64) -> (r: (u64, u64))
    ensures
        r.0 as nat == scale_of(bytes as nat),
        r.1 as nat == pow1024(scale_of(bytes as nat)),
        bytes < 1024 * (r.1 as nat),
        r.1 >= 1,
{
    let mut i: u64 = 0;
    let mut p: u64 = 1;
    proof {
        lemma_pow1024_pos(0);
    }
    while bytes / 1024 >= p
        invariant
            p == pow1024(i as nat),
            p >= 1,
            i > 0 ==> p <= bytes,
            i <= 7,
        decreases bytes - p,
    {
        proof {
            assert(bytes >= 1024 * p) by (nonlinear_arith)
                requires
                    bytes / 1024 >= p,
                    p >= 1,
            {}
            assert(i < 7) by {
                if i >= 7 {
                    assert(pow1024(1) == 1024);
                    assert(pow1024(2) == 0x100000);
                    assert(pow1024(3) == 0x40000000);
                    assert(pow1024(4) == 0x10000000000);
                    assert(pow1024(5) == 0x4000000000000);
                    assert(pow1024(6) == 0x1000000000000000);
                    assert(pow1024(7) == 0x400000000000000000);
                    assert(bytes >= 1024 * pow1024(7)) by (nonlinear_arith)
                        requires
                            bytes >= 1024 * p,
                            p >= pow1024(7),
                    {}
                    assert(false);
                }
            }
        }
        p = p * 1024;
        i = i + 1;
    }
    proof {
        assert(bytes < 1024 * p) by (nonlinear_arith)
            requires
                bytes / 1024 < p,
        {}
        lemma_scale_of(bytes as nat, i as nat);
    }
    (i, p)
}

/// Renders a byte count on the binary-prefix scale, as `size_string`
/// says: `0.00 B`, `1.00 KB`, `120.56 KB`.
#[verifier::rlimit(60)]
pub fn bytes_to_size(bytes: u64) -> (r: Vec<u8>)
    ensures
        r@ == size_string(bytes as nat),
{
    let (i, p) = scale(bytes);
    let c_wide: u128 = (200u128 * (bytes as u128) + (p as u128)) / (2u128 * (p as u128));
    proof {
        assert(c_wide == size_centi(bytes as nat));
        assert(c_wide <= 102401) by (nonlinear_arith)
            requires
                c_wide == (200u128 * (bytes as u128) + (p as u128)) / (2u128 * (p as u128)),
                (bytes as u128) < 1024u128 * (p as u128),
                p >= 1,
        {}
    }
    let c: u64 = c_wide as u64;
    let mut r = u64_to_dec(c / 100);
    r.push(46);
    r.push(48 + (((c % 100) / 10) as u8));
    r.push(48 + ((c % 10) as u8));
    r.push(32);
    let unit: Vec<u8> = if i == 0 {
        vec![66]  // "B"
    } else if i == 1 {
        vec![75, 66]  // "KB"
    } else if i == 2 {
        vec![77, 66]  // "MB"
    } else if i == 3 {
        vec![71, 66]  // "GB"
    } else if i == 4 {
        vec![84, 66]  // "TB"
    } else if i == 5 {
        vec![80, 66]  // "PB"
    } else if i == 6 {
        vec![69, 66]  // "EB"
    } else if i == 7 {
        vec![90, 66]  // "ZB"
    } else {
        vec![89, 66]  // "YB"
    };
    proof {
        assert(unit@ =~= unit_name(i as nat));
    }
    push_bytes(&mut r, unit.as_slice());
    proof {
        assert(r@ =~= size_string(bytes as nat));
    }
    r
}

/// A local calendar time, already broken into parts by the clock
/// collaborator.
pub struct TimeParts {
    pub year: u16,
    pub month: u8,
    pub day: u8,
    pub hour: u8,
    pub minute: u8,
}

/// Decimal digits zero-padded to (at least) four places.
pub open spec fn pad4(n: nat) -> Seq<u8> {
    if n < 10 {
        seq![48u8, 48u8, 48u8] + dec_digits(n)
    } else if n < 100 {
        seq![48u8, 48u8] + dec_digits(n)
    } else if n < 1000 {
        seq![48u8] + dec_digits(n)
    } else {
        dec_digits(n)
    }
}

/// Decimal digits zero-padded to (at least) two places.
pub open spec fn pad2(n: nat) -> Seq<u8> {
    if n < 10 {
        seq![48u8] + dec_digits(n)
    } else {
        dec_digits(n)
    }
}

/// A time stamp as the listing shows it: `YYYY-MM-DD HH:MM`.
pub open spec fn time_string(t: TimeParts) -> Seq<u8> {
    pad4(t.year as nat) + seq![45u8] + pad2(t.month as nat) + seq![45u8] + pad2(t.day as nat)
        + seq![32u8] + pad2(t.hour as nat) + seq![58u8] + pad2(t.minute as nat)
}

fn push_pad4(out: &mut Vec<u8>, n: u16)
    ensures
        final(out)@ == old(out)@ + pad4(n as nat),
{
    if n < 10 {
        out.push(48);
        out.push(48);
        out.push(48);
    } else if n < 100 {
        out.push(48);
        out.push(48);
    } else if n < 1000 {
        out.push(48);
    }
    let d = u64_to_dec(n as u64);
    push_bytes(out, d.as_slice());
    proof {
        assert(out@ =~= old(out)@ + pad4(n as nat));
    }
}

fn push_pad2(out: &mut Vec<u8>, n: u8)
    ensures
        final(out)@ == old(out)@ + pad2(n as nat),
{
    if n < 10 {
        out.push(48);
    }
    let d = u64_to_dec(n as u64);
    push_bytes(out, d.as_slice());
    proof {
        assert(out@ =~= old(out)@ + pad2(n as nat));
    }
}

/// Renders a time stamp as the listing shows it.
pub fn format_time(t: &TimeParts) -> (r: Vec<u8>)
    ensures
        r@ == time_string(*t),
{
    let mut r: Vec<u8> = Vec::new();
    push_pad4(&mut r, t.year);
    r.push(45);
    push_pad2(&mut r, t.month);
    r.push(45);
    push_pad2(&mut r, t.day);
    r.push(32);
    push_pad2(&mut r, t.hour);
    r.push(58);
    push_pad2(&mut r, t.minute);
    proof {
        assert(r@ =~= time_string(*t));
    }
    r
}

/// What the shell learned stating one entry; `modified` is `None` when
/// the modification time was unreadable.
pub struct RowMeta {
    pub modified: Option<TimeParts>,
    pub size: u64,
}

/// One directory entry as the listing receives it: the bare name,
/// whether it is a directory (named with a trailing slash) or a
/// regular file (sized), and its stat outcome (`None` when the stat
/// failed, which drops time and size but keeps the link).
pub struct DirRow {
    pub name: Vec<u8>,
    pub is_dir: bool,
    pub is_file: bool,
    pub meta: Option<RowMeta>,
}

/// Fixed page-template piece 0.
pub open spec fn tpl_0() -> Seq<u8> {
    seq![60u8, 33u8, 68u8, 79u8, 67u8, 84u8, 89u8, 80u8, 69u8, 32u8, 104u8, 116u8, 109u8, 108u8, 62u8, 10u8, 60u8, 104u8, 116u8, 109u8, 108u8, 62u8, 10u8, 60u8, 104u8, 101u8, 97u8, 100u8, 62u8, 10u8, 32u8, 32u8, 32u8, 32u8, 60u8, 109u8, 101u8, 116u8, 97u8, 32u8, 99u8, 104u8, 97u8, 114u8, 115u8, 101u8, 116u8, 61u8, 34u8, 85u8, 84u8, 70u8, 45u8, 56u8, 34u8, 62u8, 10u8, 32u8, 32u8, 32u8, 32u8, 60u8, 109u8, 101u8, 116u8, 97u8, 32u8, 110u8, 97u8, 109u8, 101u8, 61u8, 34u8, 118u8, 105u8, 101u8, 119u8, 112u8, 111u8, 114u8, 116u8, 34u8, 32u8, 99u8, 111u8, 110u8, 116u8, 101u8, 110u8, 116u8, 61u8, 34u8, 119u8, 105u8, 100u8, 116u8, 104u8, 61u8, 100u8, 101u8, 118u8, 105u8, 99u8, 101u8, 45u8, 119u8, 105u8, 100u8, 116u8, 104u8, 44u8, 32u8, 105u8, 110u8, 105u8, 116u8, 105u8, 97u8, 108u8, 45u8, 115u8, 99u8, 97u8, 108u8, 101u8, 61u8, 49u8, 46u8, 48u8, 34u8, 62u8, 10u8, 32u8, 32u8, 32u8, 32u8, 60u8, 116u8, 105u8, 116u8, 108u8, 101u8, 62u8, 73u8, 110u8, 100u8, 101u8, 120u8, 32u8, 111u8, 102u8, 32u8]
}

/// Fixed page-template piece 1.
pub open spec fn tpl_1() -> Seq<u8> {
    seq![60u8, 47u8, 116u8, 105u8, 116u8, 108u8, 101u8, 62u8, 10u8, 32u8, 32u8, 32u8, 32u8, 60u8, 115u8, 116u8, 121u8, 108u8, 101u8, 62u8, 10u8, 32u8, 32u8, 32u8, 32u8, 32u8, 32u8, 32u8, 32u8, 98u8, 111u8, 100u8, 121u8, 32u8, 123u8, 10u8, 32u8, 32u8, 32u8, 32u8, 32u8, 32u8, 32u8, 32u8, 32u8, 32u8, 32u8, 32u8, 102u8, 111u8, 110u8, 116u8, 45u8, 102u8, 97u8, 109u8, 105u8, 108u8, 121u8, 58u8, 32u8, 34u8, 112u8, 105u8, 110u8, 103u8, 102u8, 97u8, 110u8, 103u8, 32u8, 115u8, 99u8, 34u8, 44u8, 32u8, 34u8, 109u8, 105u8, 99u8, 114u8, 111u8, 115u8, 111u8, 102u8, 116u8, 32u8, 121u8, 97u8, 104u8, 101u8, 105u8, 34u8, 44u8, 32u8, 34u8, 72u8, 101u8, 108u8, 118u8, 101u8, 116u8, 105u8, 99u8, 97u8, 32u8, 78u8, 101u8, 117u8, 101u8, 34u8, 59u8, 10u8, 32u8, 32u8, 32u8, 32u8, 32u8, 32u8, 32u8, 32u8, 32u8, 32u8, 32u8, 32u8, 112u8, 97u8, 100u8, 100u8, 105u8, 110u8, 103u8, 58u8, 32u8, 48u8, 32u8, 50u8, 52u8, 112u8, 120u8, 32u8, 48u8, 59u8, 10u8, 32u8, 32u8, 32u8, 32u8, 32u8, 32u8, 32u8, 32u8, 125u8, 10u8, 32u8, 32u8, 32u8, 32u8, 32u8, 32u8, 32u8, 32u8, 104u8, 49u8, 32u8, 123u8, 10u8, 32u8, 32u8, 32u8, 32u8, 32u8, 32u8, 32u8, 32u8, 32u8, 32u8, 32u8, 32u8, 102u8, 111u8, 110u8, 116u8, 45u8, 119u8, 101u8, 105u8, 103u8, 104u8, 116u8, 58u8, 32u8, 110u8, 111u8, 114u8, 109u8, 97u8, 108u8, 59u8, 10u8, 32u8, 32u8, 32u8, 32u8, 32u8, 32u8, 32u8, 32u8, 32u8, 32u8, 32u8, 32u8, 119u8, 111u8, 114u8, 100u8, 45u8, 119u8, 114u8, 97u8, 112u8, 58u8, 32u8, 98u8, 114u8, 101u8, 97u8, 107u8, 45u8, 119u8, 111u8, 114u8, 100u8, 59u8, 10u8, 32u8, 32u8, 32u8, 32u8, 32u8, 32u8, 32u8, 32u8, 125u8, 10u8, 32u8, 32u8, 32u8, 32u8, 32u8, 32u8, 32u8, 32u8, 109u8, 97u8, 105u8, 110u8, 123u8, 10u8, 32u8, 32u8, 32u8, 32u8, 32u8, 32u8, 32u8, 32u8, 32u8, 32u8, 32u8, 32u8, 100u8, 105u8, 115u8, 112u8, 108u8, 97u8, 121u8, 58u8, 32u8, 103u8, 114u8, 105u8, 100u8, 59u8, 10u8, 32u8, 32u8, 32u8, 32u8, 32u8, 32u8, 32u8, 32u8, 32u8, 32u8, 32u8, 32u8, 103u8, 114u8, 105u8, 100u8, 45u8, 116u8, 101u8, 109u8, 112u8, 108u8, 97u8, 116u8, 101u8, 45u8, 99u8, 111u8, 108u8, 117u8, 109u8, 110u8, 115u8, 58u8, 32u8]
}

/// Fixed page-template piece 2.
pub open spec fn tpl_2() -> Seq<u8> {
    seq![59u8, 10u8, 32u8, 32u8, 32u8, 32u8, 32u8, 32u8, 32u8, 32u8, 125u8, 10u8, 32u8, 32u8, 32u8, 32u8, 32u8, 32u8, 32u8, 32u8, 97u8, 58u8, 102u8, 105u8, 114u8, 115u8, 116u8, 45u8, 99u8, 104u8, 105u8, 108u8, 100u8, 123u8, 10u8, 32u8, 32u8, 32u8, 32u8, 32u8, 32u8, 32u8, 32u8, 32u8, 32u8, 32u8, 32u8, 103u8, 114u8, 105u8, 100u8, 45u8, 99u8, 111u8, 108u8, 117u8, 109u8, 110u8, 58u8, 32u8]
}

/// Fixed page-template piece 3.
pub open spec fn tpl_3() -> Seq<u8> {
    seq![59u8, 10u8, 32u8, 32u8, 32u8, 32u8, 32u8, 32u8, 32u8, 32u8, 125u8, 10u8, 32u8, 32u8, 32u8, 32u8, 32u8, 32u8, 32u8, 32u8, 97u8, 44u8, 32u8, 116u8, 105u8, 109u8, 101u8, 44u8, 32u8, 115u8, 112u8, 97u8, 110u8, 123u8, 10u8, 32u8, 32u8, 32u8, 32u8, 32u8, 32u8, 32u8, 32u8, 32u8, 32u8, 32u8, 32u8, 108u8, 105u8, 110u8, 101u8, 45u8, 104u8, 101u8, 105u8, 103u8, 104u8, 116u8, 58u8, 32u8, 50u8, 48u8, 112u8, 120u8, 59u8, 10u8, 32u8, 32u8, 32u8, 32u8, 32u8, 32u8, 32u8, 32u8, 32u8, 32u8, 32u8, 32u8, 119u8, 111u8, 114u8, 100u8, 45u8, 119u8, 114u8, 97u8, 112u8, 58u8, 32u8, 98u8, 114u8, 101u8, 97u8, 107u8, 45u8, 119u8, 111u8, 114u8, 100u8, 59u8, 10u8, 32u8, 32u8, 32u8, 32u8, 32u8, 32u8, 32u8, 32u8, 32u8, 32u8, 32u8, 32u8, 109u8, 97u8, 114u8, 103u8, 105u8, 110u8, 45u8, 116u8, 111u8, 112u8, 58u8, 32u8, 54u8, 112u8, 120u8, 59u8, 10u8, 32u8, 32u8, 32u8, 32u8, 32u8, 32u8, 32u8, 32u8, 125u8, 10u8, 32u8, 32u8, 32u8, 32u8, 32u8, 32u8, 32u8, 32u8, 116u8, 105u8, 109u8, 101u8, 44u8, 32u8, 115u8, 112u8, 97u8, 110u8, 123u8, 10u8, 32u8, 32u8, 32u8, 32u8, 32u8, 32u8, 32u8, 32u8, 32u8, 32u8, 32u8, 32u8, 112u8, 97u8, 100u8, 100u8, 105u8, 110u8, 103u8, 45u8, 108u8, 101u8, 102u8, 116u8, 58u8, 32u8, 50u8, 48u8, 112u8, 120u8, 59u8, 10u8, 32u8, 32u8, 32u8, 32u8, 32u8, 32u8, 32u8, 32u8, 125u8, 10u8, 32u8, 32u8, 32u8, 32u8, 60u8, 47u8, 115u8, 116u8, 121u8, 108u8, 101u8, 62u8, 10u8, 60u8, 47u8, 104u8, 101u8, 97u8, 100u8, 62u8, 10u8, 60u8, 98u8, 111u8, 100u8, 121u8, 62u8, 10u8, 32u8, 32u8, 32u8, 32u8, 60u8, 104u8, 49u8, 62u8, 73u8, 110u8, 100u8, 101u8, 120u8, 32u8, 111u8, 102u8, 32u8]
}

/// Fixed page-template piece 4.
pub open spec fn tpl_4() -> Seq<u8> {
    seq![60u8, 47u8, 104u8, 49u8, 62u8, 10u8, 32u8, 32u8, 32u8, 32u8, 60u8, 109u8, 97u8, 105u8, 110u8, 62u8, 10u8, 32u8, 32u8, 32u8, 32u8, 32u8, 32u8, 32u8, 32u8, 60u8, 97u8, 32u8, 104u8, 114u8, 101u8, 102u8, 61u8, 34u8, 46u8, 46u8, 47u8, 34u8, 62u8, 46u8, 46u8, 47u8, 60u8, 47u8, 97u8, 62u8, 10u8, 32u8, 32u8, 32u8, 32u8, 32u8, 32u8, 32u8, 32u8]
}

/// Fixed page-template piece 5.
pub open spec fn tpl_5() -> Seq<u8> {
    seq![10u8, 32u8, 32u8, 32u8, 32u8, 60u8, 47u8, 109u8, 97u8, 105u8, 110u8, 62u8, 10u8, 60u8, 47u8, 98u8, 111u8, 100u8, 121u8, 62u8, 10u8, 60u8, 47u8, 104u8, 116u8, 109u8, 108u8, 62u8]
}

/// The grid column template for the chosen flags.
pub open spec fn grid_main(show_time: bool, show_size: bool) -> Seq<u8> {
    if !show_time && !show_size {
        seq![97u8, 117u8, 116u8, 111u8]
    } else if show_time && show_size {
        seq![97u8, 117u8, 116u8, 111u8, 32u8, 97u8, 117u8, 116u8, 111u8, 32u8, 49u8, 102u8, 114u8]
    } else {
        seq![97u8, 117u8, 116u8, 111u8, 32u8, 49u8, 102u8, 114u8]
    }
}

/// The first link's grid span for the chosen flags.
pub open spec fn grid_first(show_time: bool, show_size: bool) -> Seq<u8> {
    if !show_time && !show_size {
        seq![49u8, 32u8, 47u8, 32u8, 50u8]
    } else if show_time && show_size {
        seq![49u8, 32u8, 47u8, 32u8, 52u8]
    } else {
        seq![49u8, 32u8, 47u8, 32u8, 51u8]
    }
}

/// One row of the listing: the link (directories keep a trailing
/// slash), then, when the stat succeeded and a flag asks for it, the
/// time cell (empty when the time was unreadable) and the size cell
/// (empty for anything but a regular file).
pub open spec fn row_html(row: DirRow, show_time: bool, show_size: bool) -> Seq<u8> {
    let display = row.name@ + (if row.is_dir {
        seq![47u8]
    } else {
        Seq::<u8>::empty()
    });
    let link = seq![60u8, 97u8, 32u8, 104u8, 114u8, 101u8, 102u8, 61u8, 34u8] + display + seq![34u8, 62u8] + display + seq![60u8, 47u8, 97u8, 62u8];
    let cells = match row.meta {
        Some(m) => if show_time || show_size {
            (if show_time {
                seq![60u8, 116u8, 105u8, 109u8, 101u8, 62u8] + (match m.modified {
                    Some(t) => time_string(t),
                    None => Seq::<u8>::empty(),
                }) + seq![60u8, 47u8, 116u8, 105u8, 109u8, 101u8, 62u8]
            } else {
                Seq::<u8>::empty()
            }) + (if show_size {
                seq![60u8, 115u8, 112u8, 97u8, 110u8, 62u8] + (if row.is_file {
                    size_string(m.size as nat)
                } else {
                    Seq::<u8>::empty()
                }) + seq![60u8, 47u8, 115u8, 112u8, 97u8, 110u8, 62u8]
            } else {
                Seq::<u8>::empty()
            })
        } else {
            Seq::<u8>::empty()
        },
        None => Seq::<u8>::empty(),
    };
    link + cells
}

/// All rows, in directory order.
pub open spec fn rows_html(rows: Seq<DirRow>, show_time: bool, show_size: bool) -> Seq<u8>
    decreases rows.len(),
{
    if rows.len() == 0 {
        seq![]
    } else {
        row_html(rows[0], show_time, show_size) + rows_html(rows.skip(1), show_time, show_size)
    }
}

/// The whole listing page: the fixed template with the title (the
/// request path), the grid values for the chosen flags, and the rows
/// substituted in.
pub open spec fn page_html(
    title: Seq<u8>,
    show_time: bool,
    show_size: bool,
    rows: Seq<DirRow>,
) -> Seq<u8> {
    tpl_0() + title + tpl_1() + grid_main(show_time, show_size) + tpl_2() + grid_first(
        show_time,
        show_size,
    ) + tpl_3() + title + tpl_4() + rows_html(rows, show_time, show_size) + tpl_5()
}

/// Renders one row into `out`.
#[verifier::rlimit(60)]
fn push_row(out: &mut Vec<u8>, row: &DirRow, show_time: bool, show_size: bool)
    ensures
        final(out)@ == old(out)@ + row_html(*row, show_time, show_size),
{
    let mut display = row.name.clone();
    if row.is_dir {
        display.push(47);
    }
    let open_a: Vec<u8> = vec![60, 97, 32, 104, 114, 101, 102, 61, 34];
    let mid_a: Vec<u8> = vec![34, 62];
    let close_a: Vec<u8> = vec![60, 47, 97, 62];
    proof {
        assert(open_a@ =~= seq![60u8, 97u8, 32u8, 104u8, 114u8, 101u8, 102u8, 61u8, 34u8]);
        assert(mid_a@ =~= seq![34u8, 62u8]);
        assert(close_a@ =~= seq![60u8, 47u8, 97u8, 62u8]);
    }
    push_bytes(out, open_a.as_slice());
    push_bytes(out, display.as_slice());
    push_bytes(out, mid_a.as_slice());
    push_bytes(out, display.as_slice());
    push_bytes(out, close_a.as_slice());
    match &row.meta {
        Some(m) => {
            if show_time || show_size {
                if show_time {
                    let open_t: Vec<u8> = vec![60, 116, 105, 109, 101, 62];
                    let close_t: Vec<u8> = vec![60, 47, 116, 105, 109, 101, 62];
                    proof {
                        assert(open_t@ =~= seq![60u8, 116u8, 105u8, 109u8, 101u8, 62u8]);
                        assert(close_t@ =~= seq![60u8, 47u8, 116u8, 105u8, 109u8, 101u8, 62u8]);
                    }
                    push_bytes(out, open_t.as_slice());
                    match &m.modified {
                        Some(t) => {
                            let ts = format_time(t);
                            push_bytes(out, ts.as_slice());
                        },
                        None => {},
                    }
                    push_bytes(out, close_t.as_slice());
                }
                if show_size {
                    let open_s: Vec<u8> = vec![60, 115, 112, 97, 110, 62];
                    let close_s: Vec<u8> = vec![60, 47, 115, 112, 97, 110, 62];
                    proof {
                        assert(open_s@ =~= seq![60u8, 115u8, 112u8, 97u8, 110u8, 62u8]);
                        assert(close_s@ =~= seq![60u8, 47u8, 115u8, 112u8, 97u8, 110u8, 62u8]);
                    }
                    push_bytes(out, open_s.as_slice());
                    if row.is_file {
                        let sz = bytes_to_size(m.size);
                        push_bytes(out, sz.as_slice());
                    }
                    push_bytes(out, close_s.as_slice());
                }
            }
        },
        None => {},
    }
    proof {
        assert(out@ =~= old(out)@ + row_html(*row, show_time, show_size));
    }
}

/// Renders the whole listing page for one directory, as `page_html`
/// says. An empty row list (an unreadable directory) still renders the
/// page, with only the parent link in it.
#[verifier::loop_isolation(false)]
pub fn response_dir_html(rows: &Vec<DirRow>, title: &[u8], show_time: bool, show_size: bool) -> (r:
    Vec<u8>)
    ensures
        r@ == page_html(title@, show_time, show_size, rows@),
{
    let t0: Vec<u8> = vec![60, 33, 68, 79, 67, 84, 89, 80, 69, 32, 104, 116, 109, 108, 62, 10, 60, 104, 116, 109, 108, 62, 10, 60, 104, 101, 97, 100, 62, 10, 32, 32, 32, 32, 60, 109, 101, 116, 97, 32, 99, 104, 97, 114, 115, 101, 116, 61, 34, 85, 84, 70, 45, 56, 34, 62, 10, 32, 32, 32, 32, 60, 109, 101, 116, 97, 32, 110, 97, 109, 101, 61, 34, 118, 105, 101, 119, 112, 111, 114, 116, 34, 32, 99, 111, 110, 116, 101, 110, 116, 61, 34, 119, 105, 100, 116, 104, 61, 100, 101, 118, 105, 99, 101, 45, 119, 105, 100, 116, 104, 44, 32, 105, 110, 105, 116, 105, 97, 108, 45, 115, 99, 97, 108, 101, 61, 49, 46, 48, 34, 62, 10, 32, 32, 32, 32, 60, 116, 105, 116, 108, 101, 62, 73, 110, 100, 101, 120, 32, 111, 102, 32];
    proof {
        assert(t0@ =~= tpl_0());
    }
    let t1: Vec<u8> = vec![60, 47, 116, 105, 116, 108, 101, 62, 10, 32, 32, 32, 32, 60, 115, 116, 121, 108, 101, 62, 10, 32, 32, 32, 32, 32, 32, 32, 32, 98, 111, 100, 121, 32, 123, 10, 32, 32, 32, 32, 32, 32, 32, 32, 32, 32, 32, 32, 102, 111, 110, 116, 45, 102, 97, 109, 105, 108, 121, 58, 32, 34, 112, 105, 110, 103, 102, 97, 110, 103, 32, 115, 99, 34, 44, 32, 34, 109, 105, 99, 114, 111, 115, 111, 102, 116, 32, 121, 97, 104, 101, 105, 34, 44, 32, 34, 72, 101, 108, 118, 101, 116, 105, 99, 97, 32, 78, 101, 117, 101, 34, 59, 10, 32, 32, 32, 32, 32, 32, 32, 32, 32, 32, 32, 32, 112, 97, 100, 100, 105, 110, 103, 58, 32, 48, 32, 50, 52, 112, 120, 32, 48, 59, 10, 32, 32, 32, 32, 32, 32, 32, 32, 125, 10, 32, 32, 32, 32, 32, 32, 32, 32, 104, 49, 32, 123, 10, 32, 32, 32, 32, 32, 32, 32, 32, 32, 32, 32, 32, 102, 111, 110, 116, 45, 119, 101, 105, 103, 104, 116, 58, 32, 110, 111, 114, 109, 97, 108, 59, 10, 32, 32, 32, 32, 32, 32, 32, 32, 32, 32, 32, 32, 119, 111, 114, 100, 45, 119, 114, 97, 112, 58, 32, 98, 114, 101, 97, 107, 45, 119, 111, 114, 100, 59, 10, 32, 32, 32, 32, 32, 32, 32, 32, 125, 10, 32, 32, 32, 32, 32, 32, 32, 32, 109, 97, 105, 110, 123, 10, 32, 32, 32, 32, 32, 32, 32, 32, 32, 32, 32, 32, 100, 105, 115, 112, 108, 97, 121, 58, 32, 103, 114, 105, 100, 59, 10, 32, 32, 32, 32, 32, 32, 32, 32, 32, 32, 32, 32, 103, 114, 105, 100, 45, 116, 101, 109, 112, 108, 97, 116, 101, 45, 99, 111, 108, 117, 109, 110, 115, 58, 32];
    proof {
        assert(t1@ =~= tpl_1());
    }
    let t2: Vec<u8> = vec![59, 10, 32, 32, 32, 32, 32, 32, 32, 32, 125, 10, 32, 32, 32, 32, 32, 32, 32, 32, 97, 58, 102, 105, 114, 115, 116, 45, 99, 104, 105, 108, 100, 123, 10, 32, 32, 32, 32, 32, 32, 32, 32, 32, 32, 32, 32, 103, 114, 105, 100, 45, 99, 111, 108, 117, 109, 110, 58, 32];
    proof {
        assert(t2@ =~= tpl_2());
    }
    let t3: Vec<u8> = vec![59, 10, 32, 32, 32, 32, 32, 32, 32, 32, 125, 10, 32, 32, 32, 32, 32, 32, 32, 32, 97, 44, 32, 116, 105, 109, 101, 44, 32, 115, 112, 97, 110, 123, 10, 32, 32, 32, 32, 32, 32, 32, 32, 32, 32, 32, 32, 108, 105, 110, 101, 45, 104, 101, 105, 103, 104, 116, 58, 32, 50, 48, 112, 120, 59, 10, 32, 32, 32, 32, 32, 32, 32, 32, 32, 32, 32, 32, 119, 111, 114, 100, 45, 119, 114, 97, 112, 58, 32, 98, 114, 101, 97, 107, 45, 119, 111, 114, 100, 59, 10, 32, 32, 32, 32, 32, 32, 32, 32, 32, 32, 32, 32, 109, 97, 114, 103, 105, 110, 45, 116, 111, 112, 58, 32, 54, 112, 120, 59, 10, 32, 32, 32, 32, 32, 32, 32, 32, 125, 10, 32, 32, 32, 32, 32, 32, 32, 32, 116, 105, 109, 101, 44, 32, 115, 112, 97, 110, 123, 10, 32, 32, 32, 32, 32, 32, 32, 32, 32, 32, 32, 32, 112, 97, 100, 100, 105, 110, 103, 45, 108, 101, 102, 116, 58, 32, 50, 48, 112, 120, 59, 10, 32, 32, 32, 32, 32, 32, 32, 32, 125, 10, 32, 32, 32, 32, 60, 47, 115, 116, 121, 108, 101, 62, 10, 60, 47, 104, 101, 97, 100, 62, 10, 60, 98, 111, 100, 121, 62, 10, 32, 32, 32, 32, 60, 104, 49, 62, 73, 110, 100, 101, 120, 32, 111, 102, 32];
    proof {
        assert(t3@ =~= tpl_3());
    }
    let t4: Vec<u8> = vec![60, 47, 104, 49, 62, 10, 32, 32, 32, 32, 60, 109, 97, 105, 110, 62, 10, 32, 32, 32, 32, 32, 32, 32, 32, 60, 97, 32, 104, 114, 101, 102, 61, 34, 46, 46, 47, 34, 62, 46, 46, 47, 60, 47, 97, 62, 10, 32, 32, 32, 32, 32, 32, 32, 32];
    proof {
        assert(t4@ =~= tpl_4());
    }
    let t5: Vec<u8> = vec![10, 32, 32, 32, 32, 60, 47, 109, 97, 105, 110, 62, 10, 60, 47, 98, 111, 100, 121, 62, 10, 60, 47, 104, 116, 109, 108, 62];
    proof {
        assert(t5@ =~= tpl_5());
    }
    let mut out: Vec<u8> = Vec::new();
    push_bytes(&mut out, t0.as_slice());
    push_bytes(&mut out, title);
    push_bytes(&mut out, t1.as_slice());
    let gm: Vec<u8> = if !show_time && !show_size {
        vec![97, 117, 116, 111]
    } else if show_time && show_size {
        vec![97, 117, 116, 111, 32, 97, 117, 116, 111, 32, 49, 102, 114]
    } else {
        vec![97, 117, 116, 111, 32, 49, 102, 114]
    };
    let gf: Vec<u8> = if !show_time && !show_size {
        vec![49, 32, 47, 32, 50]
    } else if show_time && show_size {
        vec![49, 32, 47, 32, 52]
    } else {
        vec![49, 32, 47, 32, 51]
    };
    proof {
        assert(gm@ =~= grid_main(show_time, show_size));
        assert(gf@ =~= grid_first(show_time, show_size));
    }
    push_bytes(&mut out, gm.as_slice());
    push_bytes(&mut out, t2.as_slice());
    push_bytes(&mut out, gf.as_slice());
    push_bytes(&mut out, t3.as_slice());
    push_bytes(&mut out, title);
    push_bytes(&mut out, t4.as_slice());
    let ghost opening = out@;
    proof {
        assert(rows@.skip(0) =~= rows@);
    }
    let mut i: usize = 0;
    while i < rows.len()
        invariant
            i <= rows@.len(),
            out@ + rows_html(rows@.skip(i as int), show_time, show_size) == opening + rows_html(
                rows@,
                show_time,
                show_size,
            ),
        decreases rows@.len() - i,
    {
        let ghost tail = rows@.skip(i as int);
        let ghost prev = out@;
        proof {
            assert(tail[0] == rows@[i as int]);
            assert(tail.skip(1) =~= rows@.skip(i + 1));
        }
        push_row(&mut out, &rows[i], show_time, show_size);
        proof {
            assert(rows_html(tail, show_time, show_size) == row_html(tail[0], show_time, show_size)
                + rows_html(tail.skip(1), show_time, show_size));
            assert(out@ + rows_html(rows@.skip(i + 1), show_time, show_size) =~= prev + rows_html(
                tail,
                show_time,
                show_size,
            ));
        }
        i += 1;
    }
    proof {
        assert(rows@.skip(rows@.len() as int) =~= Seq::<DirRow>::empty());
    }
    push_bytes(&mut out, t5.as_slice());
    proof {
        assert(out@ =~= page_html(title@, show_time, show_size, rows@));
    }
    out
}

} // verus!
