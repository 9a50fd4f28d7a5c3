//! Decimal rendering of integers as character sequences, verified against
//! recursive specifications of the digit strings.

use vstd::prelude::*;
use vstd::string::StringSliceAdditionalSpecFns;

verus! {

/// The character for one decimal digit value.
pub open spec fn digit_char(d: int) -> char {
    if d == 0 {
        '0'
    } else if d == 1 {
        '1'
    } else if d == 2 {
        '2'
    } else if d == 3 {
        '3'
    } else if d == 4 {
        '4'
    } else if d == 5 {
        '5'
    } else if d == 6 {
        '6'
    } else if d == 7 {
        '7'
    } else if d == 8 {
        '8'
    } else {
        '9'
    }
}

/// The decimal digits of `n`, most significant first.
pub open spec fn dec_seq(n: nat) -> Seq<char>
    decreases n,
{
    if n < 10 {
        seq![digit_char(n as int)]
    } else {
        dec_seq(n / 10).push(digit_char((n % 10) as int))
    }
}

/// The decimal rendering of a possibly negative value: a leading minus sign
/// followed by the digits of the magnitude.
pub open spec fn int_dec_seq(v: int) -> Seq<char> {
    if v < 0 {
        seq!['-'] + dec_seq((-v) as nat)
    } else {
        dec_seq(v as nat)
    }
}

/// A one-character string slice holding the digit `d`.
pub(crate) fn digit_str(d: u64) -> (r: &'static str)
    requires
        d < 10,
    ensures
        r@ == seq![digit_char(d as int)],
{
    match d {
        0 => {
            proof {
                reveal_strlit("0");
                assert("0"@ =~= seq![digit_char(0)]);
            }
            "0"
        },
        1 => {
            proof {
                reveal_strlit("1");
                assert("1"@ =~= seq![digit_char(1)]);
            }
            "1"
        },
        2 => {
            proof {
                reveal_strlit("2");
                assert("2"@ =~= seq![digit_char(2)]);
            }
            "2"
        },
        3 => {
            proof {
                reveal_strlit("3");
                assert("3"@ =~= seq![digit_char(3)]);
            }
            "3"
        },
        4 => {
            proof {
                reveal_strlit("4");
                assert("4"@ =~= seq![digit_char(4)]);
            }
            "4"
        },
        5 => {
            proof {
                reveal_strlit("5");
                assert("5"@ =~= seq![digit_char(5)]);
            }
            "5"
        },
        6 => {
            proof {
                reveal_strlit("6");
                assert("6"@ =~= seq![digit_char(6)]);
            }
            "6"
        },
        7 => {
            proof {
                reveal_strlit("7");
                assert("7"@ =~= seq![digit_char(7)]);
            }
            "7"
        },
        8 => {
            proof {
                reveal_strlit("8");
                assert("8"@ =~= seq![digit_char(8)]);
            }
            "8"
        },
        _ => {
            proof {
                reveal_strlit("9");
                assert("9"@ =~= seq![digit_char(9)]);
            }
            "9"
        },
    }
}

/// Renders `n` in decimal.
pub fn u64_dec_string(n: u64) -> (r: String)
    ensures
        r@ == dec_seq(n as nat),
    decreases n,
{
    if n < 10 {
        String::from_str(digit_str(n))
    } else {
        let front = u64_dec_string(n / 10);
        let r = front.concat(digit_str(n % 10));
        proof {
            assert(dec_seq((n / 10) as nat).push(digit_char((n % 10) as int)) =~= dec_seq(
                (n / 10) as nat,
            ) + seq![digit_char((n % 10) as int)]);
        }
        r
    }
}

/// Compares two string slices by their UTF-8 bytes.
pub fn str_eq_bytes(a: &str, b: &str) -> (r: bool)
    ensures
        r == (a.spec_bytes() =~= b.spec_bytes()),
{
    let ab = a.as_bytes();
    let bb = b.as_bytes();
    if ab.len() != bb.len() {
        return false;
    }
    let n = ab.len();
    let mut i: usize = 0;
    while i < n
        invariant
            n == ab@.len() == bb@.len(),
            i <= n,
            ab@ == a.spec_bytes(),
            bb@ == b.spec_bytes(),
            forall|j: int| 0 <= j < i ==> ab@[j] == bb@[j],
        decreases n - i,
    {
        if ab[i] != bb[i] {
            return false;
        }
        i = i + 1;
    }
    true
}

/// Renders `v` in decimal, with a minus sign for negative values.
pub fn i64_dec_string(v: i64) -> (r: String)
    ensures
        r@ == int_dec_seq(v as int),
{
    if v >= 0 {
        u64_dec_string(v as u64)
    } else {
        let mag: u64 = (-(v as i128)) as u64;
        let sign = String::from_str("-");
        proof {
            reveal_strlit("-");
            assert(sign@ =~= seq!['-']);
        }
        let digits = u64_dec_string(mag);
        sign.concat(digits.as_str())
    }
}

/// The text shown when a value is not available.
pub open spec fn na_seq() -> Seq<char> {
    "N/A"@
}

/// The placeholder shown for a value that could not be read.
pub fn na_text() -> (r: String)
    ensures
        r@ == na_seq(),
{
    String::from_str("N/A")
}

/// Whether a byte is ASCII whitespace as trimmed around a numeric field.
pub open spec fn is_ws(b: u8) -> bool {
    b == 32 || b == 10 || b == 13 || b == 9
}

/// Whether a byte is an ASCII decimal digit.
pub open spec fn is_digit(b: u8) -> bool {
    48 <= b <= 57
}

/// The first index at or after `i` holding a non-whitespace byte, or the
/// length if none does.
pub open spec fn first_non_ws(s: Seq<u8>, i: nat) -> nat
    decreases s.len() - i,
{
    if i >= s.len() || !is_ws(s[i as int]) {
        i
    } else {
        first_non_ws(s, i + 1)
    }
}

/// The end of the sequence once trailing whitespace below `e` is dropped.
pub open spec fn end_trim(s: Seq<u8>, e: nat) -> nat
    decreases e,
{
    if e == 0 || e > s.len() || !is_ws(s[e - 1]) {
        e
    } else {
        end_trim(s, (e - 1) as nat)
    }
}

/// Whether every byte in `[lo, hi)` is a decimal digit.
pub open spec fn digits_in(s: Seq<u8>, lo: int, hi: int) -> bool {
    forall|j: int| lo <= j < hi ==> is_digit(#[trigger] s[j])
}

/// The value of a sequence of ASCII digits, most significant first.
pub open spec fn digits_value(s: Seq<u8>) -> int
    decreases s.len(),
{
    if s.len() == 0 {
        0
    } else {
        digits_value(s.drop_last()) * 10 + (s.last() - 48)
    }
}

/// Ten to the power `e`.
pub open spec fn pow10(e: nat) -> int
    decreases e,
{
    if e == 0 {
        1
    } else {
        10 * pow10((e - 1) as nat)
    }
}

/// The value a decimal field parses to: leading and trailing ASCII
/// whitespace is ignored, one minus sign may precede the digits, and a field
/// that is empty, holds any other byte, or runs past eighteen digits parses
/// to nothing.
pub open spec fn parse_i64_spec(s: Seq<u8>) -> Option<i64> {
    let start = first_non_ws(s, 0);
    let end = end_trim(s, s.len());
    if start >= end {
        None
    } else {
        let neg = s[start as int] == 45;
        let ds: int = if neg {
            start as int + 1
        } else {
            start as int
        };
        if ds >= end {
            None
        } else if end - ds > 18 {
            None
        } else if !digits_in(s, ds as int, end as int) {
            None
        } else {
            let v = digits_value(s.subrange(ds as int, end as int));
            if neg {
                Some((-v) as i64)
            } else {
                Some(v as i64)
            }
        }
    }
}

proof fn lemma_first_non_ws_from(s: Seq<u8>, i: nat, k: nat)
    requires
        i <= k <= s.len(),
        forall|j: int| i <= j < k ==> is_ws(#[trigger] s[j]),
        k < s.len() ==> !is_ws(s[k as int]),
    ensures
        first_non_ws(s, i) == k,
    decreases k - i,
{
    if i < k {
        lemma_first_non_ws_from(s, i + 1, k);
    }
}

proof fn lemma_end_trim_from(s: Seq<u8>, e: nat, k: nat)
    requires
        k <= e <= s.len(),
        forall|j: int| k <= j < e ==> is_ws(#[trigger] s[j]),
        k > 0 ==> !is_ws(s[k - 1]),
    ensures
        end_trim(s, e) == k,
    decreases e - k,
{
    if k < e {
        lemma_end_trim_from(s, (e - 1) as nat, k);
    }
}

/// Parses a decimal integer field as read from a kernel interface file:
/// surrounding whitespace is ignored, a single leading minus sign is
/// honoured, and anything else yields `None`.
#[verifier::loop_isolation(false)]
#[verifier::rlimit(60)]
pub fn parse_i64(s: &str) -> (r: Option<i64>)
    ensures
        r == parse_i64_spec(s.spec_bytes()),
        r matches Some(v) ==> -999999999999999999 <= v <= 999999999999999999,
{
    let bytes = s.as_bytes();
    let n = bytes.len();
    let ghost bs: Seq<u8> = s.spec_bytes();

    let mut start: usize = 0;
    while start < n && (bytes[start] == 32 || bytes[start] == 10 || bytes[start] == 13
        || bytes[start] == 9)
        invariant
            start <= n,
            n == bs.len(),
            bytes@ == bs,
            forall|j: int| 0 <= j < start ==> is_ws(#[trigger] bs[j]),
        decreases n - start,
    {
        start = start + 1;
    }
    proof {
        lemma_first_non_ws_from(bs, 0, start as nat);
    }

    let mut end: usize = n;
    while end > 0 && (bytes[end - 1] == 32 || bytes[end - 1] == 10 || bytes[end - 1] == 13
        || bytes[end - 1] == 9)
        invariant
            end <= n,
            n == bs.len(),
            bytes@ == bs,
            forall|j: int| end <= j < n ==> is_ws(#[trigger] bs[j]),
        decreases end,
    {
        end = end - 1;
    }
    proof {
        lemma_end_trim_from(bs, n as nat, end as nat);
    }

    if start >= end {
        return None;
    }
    let neg = bytes[start] == 45;
    let ds: usize = if neg {
        start + 1
    } else {
        start
    };
    if ds >= end {
        return None;
    }
    if end - ds > 18 {
        return None;
    }

    let mut acc: u64 = 0;
    let mut i: usize = ds;
    while i < end
        invariant
            ds <= i <= end <= n,
            n == bs.len(),
            bytes@ == bs,
            end - ds <= 18,
            digits_in(bs, ds as int, i as int),
            acc == digits_value(bs.subrange(ds as int, i as int)),
            acc < pow10((i - ds) as nat),
        decreases end - i,
    {
        let b = bytes[i];
        if b < 48 || b > 57 {
            proof {
                assert(!is_digit(bs[i as int]));
                assert(!digits_in(bs, ds as int, end as int));
            }
            return None;
        }
        proof {
            reveal_with_fuel(pow10, 19);
            assert(pow10((i - ds) as nat) <= pow10(17)) by {
                lemma_pow10_increases((i - ds) as nat, 17);
            }
            assert(bs.subrange(ds as int, i as int + 1).drop_last() =~= bs.subrange(
                ds as int,
                i as int,
            ));
            assert(bs.subrange(ds as int, i as int + 1).last() == bs[i as int]);
        }
        acc = acc * 10 + ((b - 48) as u64);
        i = i + 1;
        proof {
            assert(acc < pow10((i - ds) as nat));
        }
    }
    proof {
        reveal_with_fuel(pow10, 19);
        assert(acc < pow10(18));
    }
    if neg {
        Some(-(acc as i64))
    } else {
        Some(acc as i64)
    }
}

/// `pow10` is monotone in the exponent.
proof fn lemma_pow10_increases(a: nat, b: nat)
    requires
        a <= b,
    ensures
        pow10(a) <= pow10(b),
    decreases b,
{
    if a < b {
        lemma_pow10_increases(a, (b - 1) as nat);
        assert(pow10(b) == 10 * pow10((b - 1) as nat));
        assert(pow10(a) >= 1) by { lemma_pow10_positive(a) };
        assert(pow10((b - 1) as nat) >= 1) by { lemma_pow10_positive((b - 1) as nat) };
    }
}

proof fn lemma_pow10_positive(e: nat)
    ensures
        pow10(e) >= 1,
    decreases e,
{
    if e > 0 {
        lemma_pow10_positive((e - 1) as nat);
    }
}

} // verus!
