use vstd::prelude::*;

verus! {

/// `String::push` appends one character.
pub assume_specification[ String::push ](s: &mut String, ch: char)
    ensures
        final(s)@ == old(s)@.push(ch),
;

/// Joins two strings into a new one.
pub fn joined(a: &str, b: &str) -> (r: String)
    ensures
        r@ == a@ + b@,
{
    let mut s = a.to_string();
    s.append(b);
    s
}

/// An ASCII decimal digit, as a byte.
pub open spec fn is_digit(b: u8) -> bool {
    48 <= b <= 57
}

/// Every byte is an ASCII decimal digit.
pub open spec fn all_digits(s: Seq<u8>) -> bool {
    forall|i: int| 0 <= i < s.len() ==> is_digit(#[trigger] s[i])
}

/// The number that a string of decimal digits denotes.
pub open spec fn digits_value(s: Seq<u8>) -> nat
    decreases s.len(),
{
    if s.len() == 0 {
        0
    } else {
        digits_value(s.drop_last()) * 10 + (s.last() - 48) as nat
    }
}

/// The digits that follow an optional sign, and whether the sign was a minus.
/// A leading `-` counts as a sign only where negative values are allowed.
pub open spec fn split_sign(bytes: Seq<u8>, signed: bool) -> (bool, Seq<u8>) {
    if bytes.len() > 0 && bytes[0] == 43u8 {
        (false, bytes.drop_first())
    } else if signed && bytes.len() > 0 && bytes[0] == 45u8 {
        (true, bytes.drop_first())
    } else {
        (false, bytes)
    }
}

/// The integer that the decimal text `bytes` denotes, for an integer type
/// whose values range over `min..=max`: an optional sign (`+`, or `-` where
/// `min` is negative) followed by at least one digit, with a value in range.
/// Anything else, whitespace included, denotes nothing.
pub open spec fn parse_integer(bytes: Seq<u8>, min: int, max: int) -> Option<int> {
    let (negative, digits) = split_sign(bytes, min < 0);
    if digits.len() == 0 || !all_digits(digits) {
        None
    } else {
        let v: int = if negative { -(digits_value(digits) as int) } else { digits_value(digits) as int };
        if min <= v <= max { Some(v) } else { None }
    }
}

proof fn lemma_digits_value_push(s: Seq<u8>, b: u8)
    ensures
        digits_value(s.push(b)) == digits_value(s) * 10 + (b - 48) as nat,
{
    assert(s.push(b).drop_last() =~= s);
}

/// Reads the digits of `bytes[start..]` as a decimal number, giving it only
/// where every byte is a digit, there is at least one, and the value is at
/// most `limit`.
fn decimal_magnitude(bytes: &[u8], start: usize, limit: u64) -> (r: Option<u64>)
    requires
        start <= bytes@.len(),
    ensures
        ({
            let digits = bytes@.subrange(start as int, bytes@.len() as int);
            r == if digits.len() > 0 && all_digits(digits) && digits_value(digits) <= limit {
                Some(digits_value(digits) as u64)
            } else {
                None
            }
        }),
{
    let n = bytes.len();
    if start == n {
        return None;
    }
    let cap: u128 = limit as u128 + 1;
    let mut acc: u128 = 0;
    let mut i: usize = start;
    while i < n
        invariant
            start <= i <= n,
            n == bytes@.len(),
            cap == limit + 1,
            all_digits(bytes@.subrange(start as int, i as int)),
            acc == if digits_value(bytes@.subrange(start as int, i as int)) < cap {
                digits_value(bytes@.subrange(start as int, i as int)) as int
            } else {
                cap as int
            },
        decreases n - i,
    {
        let b = bytes[i];
        let ghost prefix = bytes@.subrange(start as int, i as int);
        if b < 48 || b > 57 {
            assert(bytes@.subrange(start as int, n as int)[i - start] == b);
            return None;
        }
        proof {
            lemma_digits_value_push(prefix, b);
            assert(bytes@.subrange(start as int, i + 1) =~= prefix.push(b));
        }
        let next: u128 = acc * 10 + (b - 48) as u128;
        acc = if next < cap { next } else { cap };
        i = i + 1;
    }
    if acc < cap {
        Some(acc as u64)
    } else {
        None
    }
}

/// Reads a `u16` written in decimal, as `str::parse::<u16>` does.
pub fn parse_u16(s: &str) -> (r: Option<u16>)
    ensures
        r matches Some(v) ==> parse_integer(vstd::utf8::encode_utf8(s@), 0, 65535) == Some(v as int),
        r is None ==> parse_integer(vstd::utf8::encode_utf8(s@), 0, 65535) is None,
{
    let bytes = s.as_bytes();
    let start: usize = if bytes.len() > 0 && bytes[0] == 43u8 { 1 } else { 0 };
    proof {
        if start == 1 {
            assert(bytes@.subrange(1, bytes@.len() as int) =~= bytes@.drop_first());
        } else {
            assert(bytes@.subrange(0, bytes@.len() as int) =~= bytes@);
        }
    }
    match decimal_magnitude(bytes, start, 65535) {
        Some(v) => Some(v as u16),
        None => None,
    }
}

/// Reads an `i64` written in decimal, as `str::parse::<i64>` does.
pub fn parse_i64(s: &str) -> (r: Option<i64>)
    ensures
        r matches Some(v) ==> parse_integer(vstd::utf8::encode_utf8(s@), i64::MIN as int, i64::MAX as int)
            == Some(v as int),
        r is None ==> parse_integer(vstd::utf8::encode_utf8(s@), i64::MIN as int, i64::MAX as int) is None,
{
    let bytes = s.as_bytes();
    let negative = bytes.len() > 0 && bytes[0] == 45u8;
    let start: usize = if bytes.len() > 0 && (bytes[0] == 43u8 || bytes[0] == 45u8) { 1 } else { 0 };
    proof {
        if start == 1 {
            assert(bytes@.subrange(1, bytes@.len() as int) =~= bytes@.drop_first());
        } else {
            assert(bytes@.subrange(0, bytes@.len() as int) =~= bytes@);
        }
    }
    if negative {
        match decimal_magnitude(bytes, start, 9223372036854775808) {
            Some(v) => {
                if v == 9223372036854775808 {
                    Some(i64::MIN)
                } else {
                    Some(-(v as i64))
                }
            },
            None => None,
        }
    } else {
        match decimal_magnitude(bytes, start, 9223372036854775807) {
            Some(v) => Some(v as i64),
            None => None,
        }
    }
}

/// `s` begins with `prefix`.
pub open spec fn starts_with(s: Seq<char>, prefix: Seq<char>) -> bool {
    prefix.len() <= s.len() && s.subrange(0, prefix.len() as int) == prefix
}

/// The rest of `s` after `prefix`, where `s` begins with `prefix`.
pub open spec fn after_prefix(s: Seq<char>, prefix: Seq<char>) -> Option<Seq<char>> {
    if prefix.len() <= s.len() && s.subrange(0, prefix.len() as int) == prefix {
        Some(s.subrange(prefix.len() as int, s.len() as int))
    } else {
        None
    }
}

/// Removes `prefix` from the front of `s`, as `str::strip_prefix` does.
pub fn strip_prefix(s: &str, prefix: &str) -> (r: Option<String>)
    ensures
        r matches Some(rest) ==> after_prefix(s@, prefix@) == Some(rest@),
        r is None ==> after_prefix(s@, prefix@) is None,
{
    let n = s.unicode_len();
    let m = prefix.unicode_len();
    if m > n {
        return None;
    }
    let mut i: usize = 0;
    while i < m
        invariant
            i <= m <= n,
            n == s@.len(),
            m == prefix@.len(),
            forall|j: int| 0 <= j < i ==> s@[j] == prefix@[j],
        decreases m - i,
    {
        if s.get_char(i) != prefix.get_char(i) {
            proof {
                assert(s@.subrange(0, m as int)[i as int] != prefix@[i as int]);
            }
            return None;
        }
        i = i + 1;
    }
    assert(s@.subrange(0, m as int) =~= prefix@);
    Some(s.substring_char(m, n).to_string())
}

} // verus!
