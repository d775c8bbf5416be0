//! Decimal rendering and parsing of integers, used for numeric query
//! parameters and for the integer fields of JSON payloads.

use vstd::prelude::*;

verus! {

/// The character for a single decimal digit value in `0..10`.
pub open spec fn digit_char(d: int) -> char {
    ((48 + d) as u8) as char
}

/// Base-ten rendering of a nonnegative integer, most significant digit first,
/// without leading zeros.
pub open spec fn dec_nat(n: nat) -> Seq<char>
    decreases n,
{
    if n < 10 {
        seq![digit_char(n as int)]
    } else {
        dec_nat(n / 10) + seq![digit_char((n % 10) as int)]
    }
}

/// Base-ten rendering of an integer, with a leading minus sign when negative.
pub open spec fn dec_int(n: int) -> Seq<char> {
    if n < 0 {
        seq!['-'] + dec_nat((-n) as nat)
    } else {
        dec_nat(n as nat)
    }
}

/// Whether `c` is a decimal digit.
pub open spec fn is_digit_char(c: char) -> bool {
    48 <= c as u32 <= 57
}

/// Numeric value of a digit character.
pub open spec fn digit_val(c: char) -> int {
    c as u32 - 48
}

/// Whether every character of `s` is a decimal digit.
pub open spec fn all_digits(s: Seq<char>) -> bool {
    forall|i: int| 0 <= i < s.len() ==> is_digit_char(#[trigger] s[i])
}

/// Value of a digit string, most significant digit first.
pub open spec fn digits_val(s: Seq<char>) -> int
    decreases s.len(),
{
    if s.len() == 0 {
        0
    } else {
        digits_val(s.drop_last()) * 10 + digit_val(s.last())
    }
}

/// The integer denoted by `s`: an optional minus sign followed by at least
/// one digit. Anything else denotes nothing.
pub open spec fn parse_int(s: Seq<char>) -> Option<int> {
    if s.len() >= 2 && s[0] == '-' && all_digits(s.skip(1)) {
        Some(-digits_val(s.skip(1)))
    } else if s.len() >= 1 && all_digits(s) {
        Some(digits_val(s))
    } else {
        None
    }
}

/// `parse_int`, restricted to values that fit in an `i64`.
pub open spec fn parse_i64_spec(s: Seq<char>) -> Option<i64> {
    match parse_int(s) {
        Some(v) => if i64::MIN <= v <= i64::MAX {
            Some(v as i64)
        } else {
            None
        },
        None => None,
    }
}

proof fn lemma_digits_val_nonneg(s: Seq<char>)
    requires
        all_digits(s),
    ensures
        digits_val(s) >= 0,
    decreases s.len(),
{
    if s.len() > 0 {
        assert(all_digits(s.drop_last()));
        lemma_digits_val_nonneg(s.drop_last());
    }
}

/// A digit string is worth at least any of its prefixes.
proof fn lemma_digits_val_prefix_le(s: Seq<char>, i: int)
    requires
        all_digits(s),
        0 <= i <= s.len(),
    ensures
        digits_val(s.take(i)) <= digits_val(s),
    decreases s.len(),
{
    if i < s.len() {
        let d = s.drop_last();
        assert(all_digits(d));
        assert(s.take(i) =~= d.take(i));
        lemma_digits_val_prefix_le(d, i);
        lemma_digits_val_nonneg(d);
    } else {
        assert(s.take(i) =~= s);
    }
}

/// Digits of a nonnegative integer, as ASCII bytes.
fn dec_u64_bytes(n: u64) -> (r: Vec<u8>)
    ensures
        r@.map_values(|b: u8| b as char) == dec_nat(n as nat),
        forall|i: int| 0 <= i < r@.len() ==> #[trigger] r@[i] < 128,
    decreases n,
{
    let mut v: Vec<u8> = if n >= 10 {
        dec_u64_bytes(n / 10)
    } else {
        Vec::new()
    };
    let d: u8 = 48 + (n % 10) as u8;
    v.push(d);
    proof {
        assert(v@.map_values(|b: u8| b as char) =~= dec_nat(n as nat));
    }
    v
}

/// Relies on `String::from_utf8`: ASCII bytes are valid UTF-8 and decode to
/// the characters with the same code points.
#[verifier::external_body]
fn ascii_string(bytes: Vec<u8>) -> (r: String)
    requires
        forall|i: int| 0 <= i < bytes@.len() ==> #[trigger] bytes@[i] < 128,
    ensures
        r@ == bytes@.map_values(|b: u8| b as char),
{
    String::from_utf8(bytes).unwrap_or_default()
}

/// Base-ten rendering of an `i32`, as the decimal query parameters use it.
pub fn i32_string(n: i32) -> (r: String)
    ensures
        r@ == dec_int(n as int),
{
    if n < 0 {
        let mag: u64 = (-(n as i64)) as u64;
        let ds = dec_u64_bytes(mag);
        let tail = ascii_string(ds);
        let mut r = "-".to_owned();
        r.append(tail.as_str());
        proof {
            reveal_strlit("-");
            assert(r@ =~= dec_int(n as int));
        }
        r
    } else {
        let r = ascii_string(dec_u64_bytes(n as u64));
        r
    }
}

/// Parse the base-ten rendering of an integer, accepting exactly the values
/// that fit in an `i64`.
pub fn parse_i64(s: &str) -> (r: Option<i64>)
    ensures
        r == parse_i64_spec(s@),
{
    let n = s.unicode_len();
    if n == 0 {
        return None;
    }
    let neg = s.get_char(0) == '-';
    let start: usize = if neg { 1 } else { 0 };
    if n == start {
        return None;
    }
    let mut i = start;
    let mut acc: u128 = 0;
    let bound: u128 = 9223372036854775808;
    while i < n
        invariant
            start <= i <= n,
            n == s@.len(),
            start == 1 ==> s@[0] == '-',
            start == 0 ==> s@[0] != '-',
            start == 0 || start == 1,
            neg == (start == 1),
            n > start,
            all_digits(s@.subrange(start as int, i as int)),
            acc == digits_val(s@.subrange(start as int, i as int)),
            acc <= bound,
            bound == 9223372036854775808,
        decreases n - i,
    {
        let c = s.get_char(i);
        let u = c as u32;
        if !(48 <= u && u <= 57) {
            proof {
                let tail = if neg { s@.skip(1) } else { s@ };
                assert(!is_digit_char(s@[i as int]));
                assert(tail[i - start] == s@[i as int]);
                assert(!all_digits(tail));
                if neg {
                    assert(!is_digit_char(s@[0]));
                    assert(!all_digits(s@));
                }
            }
            return None;
        }
        let d = (u - 48) as u128;
        proof {
            let pre = s@.subrange(start as int, i as int);
            let post = s@.subrange(start as int, i + 1 as int);
            assert(post.drop_last() =~= pre);
            assert(post.last() == s@[i as int]);
        }
        acc = acc * 10 + d;
        i += 1;
        if acc > bound {
            proof {
                let tail = if neg { s@.skip(1) } else { s@ };
                let done = s@.subrange(start as int, i as int);
                if all_digits(tail) {
                    assert(done =~= tail.take(i - start));
                    lemma_digits_val_prefix_le(tail, i - start);
                } else if neg {
                    assert(!is_digit_char(s@[0]));
                    assert(!all_digits(s@));
                }
            }
            return None;
        }
    }
    proof {
        let tail = if neg { s@.skip(1) } else { s@ };
        assert(s@.subrange(start as int, n as int) =~= tail);
    }
    if neg {
        if acc == bound {
            Some(i64::MIN)
        } else {
            Some(-(acc as i64))
        }
    } else {
        if acc == bound {
            None
        } else {
            Some(acc as i64)
        }
    }
}

} // verus!
