//! Verified decimal parsing and formatting for the integer arguments and
//! results of the resistance check.

use vstd::prelude::*;
use vstd::string::StrSliceExecFns;
use vstd::string::StringExecFns;

verus! {

pub open spec fn is_digit_char(c: char) -> bool {
    48 <= c as int <= 57
}

pub open spec fn digit_of(c: char) -> nat {
    (c as int - 48) as nat
}

pub open spec fn all_digits(s: Seq<char>) -> bool {
    forall|i: int| 0 <= i < s.len() ==> is_digit_char(s[i])
}

/// Numeric value of a sequence of decimal digit characters.
pub open spec fn digits_val(s: Seq<char>) -> nat
    decreases s.len(),
{
    if s.len() == 0 {
        0
    } else {
        digits_val(s.drop_last()) * 10 + digit_of(s.last())
    }
}

pub open spec fn has_sign(s: Seq<char>) -> bool {
    s.len() > 0 && (s[0] == '+' || s[0] == '-')
}

pub open spec fn sign_is_neg(s: Seq<char>) -> bool {
    s.len() > 0 && s[0] == '-'
}

pub open spec fn digit_part(s: Seq<char>) -> Seq<char> {
    if has_sign(s) {
        s.drop_first()
    } else {
        s
    }
}

/// The signed value a digit string denotes, before any range check.
pub open spec fn signed_val(s: Seq<char>) -> int {
    if sign_is_neg(s) {
        -(digits_val(digit_part(s)) as int)
    } else {
        digits_val(digit_part(s)) as int
    }
}

/// What `str::parse::<i32>` accepts: an optional sign, one or more decimal
/// digits, and a value within the `i32` range.
pub open spec fn parse_i32_spec(s: Seq<char>) -> Option<i32> {
    if digit_part(s).len() == 0 || !all_digits(digit_part(s)) {
        None
    } else if i32::MIN <= signed_val(s) <= i32::MAX {
        Some(signed_val(s) as i32)
    } else {
        None
    }
}

proof fn lemma_digits_val_prefix_le(s: Seq<char>, i: int, j: int)
    requires
        0 <= i <= j <= s.len(),
    ensures
        digits_val(s.subrange(0, i)) <= digits_val(s.subrange(0, j)),
    decreases j - i,
{
    if i < j {
        lemma_digits_val_prefix_le(s, i, j - 1);
        let a = s.subrange(0, j - 1);
        let b = s.subrange(0, j);
        assert(b.drop_last() =~= a);
        assert(digits_val(b) == digits_val(a) * 10 + digit_of(b.last()));
    } else {
        assert(s.subrange(0, i) =~= s.subrange(0, j));
    }
}

/// Parses a decimal integer exactly as the standard library does.
pub fn parse_i32(s: &str) -> (r: Option<i32>)
    ensures
        r == parse_i32_spec(s@),
{
    let n = s.unicode_len();
    if n == 0 {
        return None;
    }
    let c0 = s.get_char(0);
    let neg = c0 == '-';
    let signed = neg || c0 == '+';
    let start: usize = if signed {
        1
    } else {
        0
    };
    let ghost ds: Seq<char> = if signed {
        s@.drop_first()
    } else {
        s@
    };
    proof {
        assert(signed == has_sign(s@));
        assert(neg == sign_is_neg(s@));
        assert(ds == digit_part(s@));
        assert(ds =~= s@.subrange(start as int, n as int));
    }
    if start == n {
        return None;
    }
    let mut i: usize = start;
    let mut acc: u64 = 0;
    while i < n
        invariant
            start <= i <= n,
            start < n,
            n == s@.len(),
            neg == sign_is_neg(s@),
            ds == digit_part(s@),
            ds == s@.subrange(start as int, n as int),
            acc == digits_val(s@.subrange(start as int, i as int)),
            acc <= 0x8000_0000u64,
            all_digits(s@.subrange(start as int, i as int)),
        decreases n - i,
    {
        let c = s.get_char(i);
        let code = c as u32;
        if code < 48 || code > 57 {
            proof {
                assert(!is_digit_char(ds[i - start]));
                assert(!all_digits(ds));
                assert(parse_i32_spec(s@) is None);
            }
            return None;
        }
        let d: u64 = (code - 48) as u64;
        let ghost pre = s@.subrange(start as int, i as int);
        let ghost cur = s@.subrange(start as int, i + 1);
        proof {
            assert(cur.drop_last() =~= pre);
            assert(cur.last() == c);
            assert(digit_of(c) == d);
        }
        acc = acc * 10 + d;
        proof {
            assert(acc == digits_val(cur));
        }
        i += 1;
        if acc > 0x8000_0000u64 {
            proof {
                if all_digits(ds) {
                    assert(ds.subrange(0, i - start) =~= cur);
                    lemma_digits_val_prefix_le(ds, i - start, ds.len() as int);
                    assert(ds.subrange(0, ds.len() as int) =~= ds);
                    assert(digits_val(ds) >= digits_val(cur));
                    assert(digits_val(ds) > 0x8000_0000);
                    if sign_is_neg(s@) {
                        assert(signed_val(s@) < i32::MIN);
                    } else {
                        assert(signed_val(s@) > i32::MAX);
                    }
                }
                assert(parse_i32_spec(s@) is None);
            }
            return None;
        }
    }
    proof {
        assert(s@.subrange(start as int, n as int) =~= ds);
        assert(acc == digits_val(ds));
        assert(all_digits(ds));
        assert(ds.len() > 0);
    }
    if neg {
        let v: i64 = -(acc as i64);
        proof {
            assert(signed_val(s@) == -(acc as int));
            assert(i32::MIN <= signed_val(s@) <= i32::MAX);
            assert(parse_i32_spec(s@) == Some(signed_val(s@) as i32));
        }
        Some(v as i32)
    } else {
        if acc > 0x7fff_ffffu64 {
            proof {
                assert(signed_val(s@) > i32::MAX);
                assert(parse_i32_spec(s@) is None);
            }
            return None;
        }
        proof {
            assert(signed_val(s@) == acc as int);
            assert(parse_i32_spec(s@) == Some(signed_val(s@) as i32));
        }
        Some(acc as i32)
    }
}

pub open spec fn digit_char(d: nat) -> char {
    if d == 0 {
        '0'
    } else if d == 1 {
        '1'
    } else if d == 2 {
        '2'
    } else if d == 3 {
        '3'
    } else if d == 4 {
        '4'
    } else if d == 5 {
        '5'
    } else if d == 6 {
        '6'
    } else if d == 7 {
        '7'
    } else if d == 8 {
        '8'
    } else {
        '9'
    }
}

/// Decimal digit characters of `n`, most significant first.
pub open spec fn dec_digits(n: nat) -> Seq<char>
    decreases n,
{
    if n < 10 {
        seq![digit_char(n)]
    } else {
        dec_digits(n / 10) + seq![digit_char(n % 10)]
    }
}

/// Decimal rendering of an integer, with a leading minus sign if negative.
pub open spec fn dec_str(n: int) -> Seq<char> {
    if n < 0 {
        seq!['-'] + dec_digits((-n) as nat)
    } else {
        dec_digits(n as nat)
    }
}

fn digit_str(d: u64) -> (r: &'static str)
    requires
        d < 10,
    ensures
        r@ == seq![digit_char(d as nat)],
{
    proof {
        reveal_strlit("0");
        reveal_strlit("1");
        reveal_strlit("2");
        reveal_strlit("3");
        reveal_strlit("4");
        reveal_strlit("5");
        reveal_strlit("6");
        reveal_strlit("7");
        reveal_strlit("8");
        reveal_strlit("9");
    }
    let r = if d == 0 {
        "0"
    } else if d == 1 {
        "1"
    } else if d == 2 {
        "2"
    } else if d == 3 {
        "3"
    } else if d == 4 {
        "4"
    } else if d == 5 {
        "5"
    } else if d == 6 {
        "6"
    } else if d == 7 {
        "7"
    } else if d == 8 {
        "8"
    } else {
        "9"
    };
    assert(r@ =~= seq![digit_char(d as nat)]);
    r
}

fn u64_to_string(n: u64) -> (r: String)
    ensures
        r@ == dec_digits(n as nat),
    decreases n,
{
    if n < 10 {
        String::from_str(digit_str(n))
    } else {
        let high = u64_to_string(n / 10);
        let r = high.concat(digit_str(n % 10));
        r
    }
}

/// Decimal rendering of an integer as a string.
pub fn i64_to_string(n: i64) -> (r: String)
    requires
        n > i64::MIN,
    ensures
        r@ == dec_str(n as int),
{
    if n < 0 {
        let mag: u64 = (-n) as u64;
        let mut r = String::from_str("-");
        let digits = u64_to_string(mag);
        r.append(digits.as_str());
        proof {
            reveal_strlit("-");
            assert(r@ =~= dec_str(n as int));
        }
        r
    } else {
        u64_to_string(n as u64)
    }
}

} // verus!
