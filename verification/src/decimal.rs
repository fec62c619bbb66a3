//! Decimal digits: rendering unsigned numbers and parsing them back.

use vstd::prelude::*;
use vstd::string::StrSliceExecFns;
use vstd::string::StringExecFns;

verus! {

/// The character of a decimal digit `d` (0 to 9).
pub open spec fn digit_char(d: int) -> char {
    if d == 0 { '0' }
    else if d == 1 { '1' }
    else if d == 2 { '2' }
    else if d == 3 { '3' }
    else if d == 4 { '4' }
    else if d == 5 { '5' }
    else if d == 6 { '6' }
    else if d == 7 { '7' }
    else if d == 8 { '8' }
    else { '9' }
}

/// Whether `c` is one of the ASCII digits `0` to `9`.
pub open spec fn is_digit(c: char) -> bool {
    '0' <= c && c <= '9'
}

/// The value of the ASCII digit `c`.
pub open spec fn digit_value(c: char) -> int {
    c as int - '0' as int
}

/// The shortest decimal rendering of `n`, without sign or leading zeros.
pub open spec fn decimal(n: nat) -> Seq<char>
    decreases n,
{
    if n < 10 {
        seq![digit_char(n as int)]
    } else {
        decimal(n / 10).push(digit_char((n % 10) as int))
    }
}

pub proof fn lemma_digit_char(d: int)
    requires
        0 <= d < 10,
    ensures
        is_digit(digit_char(d)),
        digit_value(digit_char(d)) == d,
{
}

/// The one-character string of a decimal digit.
fn digit_str(d: u32) -> (s: &'static str)
    requires
        d < 10,
    ensures
        s@ == seq![digit_char(d as int)],
{
    proof {
        reveal_strlit("0");
        reveal_strlit("1");
        reveal_strlit("2");
        reveal_strlit("3");
        reveal_strlit("4");
        reveal_strlit("5");
        reveal_strlit("6");
        reveal_strlit("7");
        reveal_strlit("8");
        reveal_strlit("9");
    }
    if d == 0 { "0" }
    else if d == 1 { "1" }
    else if d == 2 { "2" }
    else if d == 3 { "3" }
    else if d == 4 { "4" }
    else if d == 5 { "5" }
    else if d == 6 { "6" }
    else if d == 7 { "7" }
    else if d == 8 { "8" }
    else { "9" }
}

/// Appends the decimal rendering of `n` to `out`.
pub fn push_decimal(out: &mut String, n: u32)
    ensures
        final(out)@ == old(out)@ + decimal(n as nat),
    decreases n,
{
    if n >= 10 {
        push_decimal(out, n / 10);
    }
    let d = digit_str(n % 10);
    out.append(d);
}

/// The decimal rendering of `n`, as `n.to_string()` gives it.
pub fn decimal_string(n: u32) -> (s: String)
    ensures
        s@ == decimal(n as nat),
{
    let mut s = String::new();
    push_decimal(&mut s, n);
    s
}


/// Why a text is not an unsigned 32-bit decimal number; the same kinds, in
/// the same order of precedence, as `u32::from_str` reports them.
#[derive(Clone, Copy, Debug, PartialEq, Eq, Structural)]
pub enum IntErrorKind {
    /// The text is empty.
    Empty,
    /// A character that is not a digit stands where a digit must.
    InvalidDigit,
    /// The number is larger than `u32::MAX`.
    PosOverflow,
}

/// Scans `s` from left to right as decimal digits: the first non-digit, or
/// the first digit at which the value passes `u32::MAX`, decides the error.
pub open spec fn scan_digits(s: Seq<char>) -> Result<int, IntErrorKind>
    decreases s.len(),
{
    if s.len() == 0 {
        Ok(0)
    } else {
        match scan_digits(s.drop_last()) {
            Err(e) => Err(e),
            Ok(v) => {
                if !is_digit(s.last()) {
                    Err(IntErrorKind::InvalidDigit)
                } else if v * 10 + digit_value(s.last()) > u32::MAX {
                    Err(IntErrorKind::PosOverflow)
                } else {
                    Ok(v * 10 + digit_value(s.last()))
                }
            }
        }
    }
}

/// What `u32::from_str` gives for `s`: an optional leading `+` followed by
/// at least one digit, with a value of at most `u32::MAX`.
pub open spec fn parse_u32_spec(s: Seq<char>) -> Result<u32, IntErrorKind> {
    if s.len() == 0 {
        Err(IntErrorKind::Empty)
    } else if s.len() == 1 && (s[0] == '+' || s[0] == '-') {
        Err(IntErrorKind::InvalidDigit)
    } else {
        let digits = if s[0] == '+' { s.drop_first() } else { s };
        match scan_digits(digits) {
            Ok(v) => Ok(v as u32),
            Err(e) => Err(e),
        }
    }
}

/// A successful scan stays within `0..=u32::MAX`.
pub proof fn lemma_scan_bounds(s: Seq<char>)
    ensures
        scan_digits(s) matches Ok(v) ==> 0 <= v <= u32::MAX,
    decreases s.len(),
{
    if s.len() > 0 {
        lemma_scan_bounds(s.drop_last());
    }
}

/// Once a prefix fails to scan, every longer prefix fails the same way.
proof fn lemma_scan_error_sticks(s: Seq<char>, k: int, j: int)
    requires
        0 <= k <= j <= s.len(),
        scan_digits(s.take(k)) is Err,
    ensures
        scan_digits(s.take(j)) == scan_digits(s.take(k)),
    decreases j - k,
{
    if j > k {
        lemma_scan_error_sticks(s, k, j - 1);
        assert(s.take(j).drop_last() =~= s.take(j - 1));
    }
}

/// Parses `s` as `u32::from_str` does.
pub fn parse_u32(s: &str) -> (res: Result<u32, IntErrorKind>)
    ensures
        res == parse_u32_spec(s@),
{
    let len: usize = s.unicode_len();
    if len == 0 {
        return Err(IntErrorKind::Empty);
    }
    let first = s.get_char(0);
    if len == 1 && (first == '+' || first == '-') {
        return Err(IntErrorKind::InvalidDigit);
    }
    let start: usize = if first == '+' { 1 } else { 0 };
    let ghost digits = if s@[0] == '+' { s@.drop_first() } else { s@ };
    assert(digits =~= s@.subrange(start as int, len as int));
    let mut acc: u32 = 0;
    let mut i: usize = start;
    assert(digits.take(0) =~= Seq::<char>::empty());
    while i < len
        invariant
            start <= i <= len,
            len == s@.len(),
            len > 0,
            !(len == 1 && (s@[0] == '+' || s@[0] == '-')),
            digits == (if s@[0] == '+' { s@.drop_first() } else { s@ }),
            digits =~= s@.subrange(start as int, len as int),
            scan_digits(digits.take(i - start)) == Ok::<int, IntErrorKind>(acc as int),
        decreases len - i,
    {
        let c = s.get_char(i);
        let ghost k = i - start;
        assert(digits.take(k + 1).drop_last() =~= digits.take(k));
        assert(digits.take(k + 1).last() == c);
        if !('0' <= c && c <= '9') {
            proof {
                lemma_scan_error_sticks(digits, k + 1, digits.len() as int);
                assert(digits.take(digits.len() as int) =~= digits);
            }
            return Err(IntErrorKind::InvalidDigit);
        }
        let d: u32 = (c as u32) - ('0' as u32);
        if acc > 429496729 || (acc == 429496729 && d > 5) {
            proof {
                lemma_scan_error_sticks(digits, k + 1, digits.len() as int);
                assert(digits.take(digits.len() as int) =~= digits);
            }
            return Err(IntErrorKind::PosOverflow);
        }
        acc = acc * 10 + d;
        i = i + 1;
    }
    assert(digits.take(digits.len() as int) =~= digits);
    Ok(acc)
}

/// A decimal rendering starts with a digit and scans to its number.
pub proof fn lemma_scan_decimal(n: nat)
    ensures
        decimal(n).len() >= 1,
        is_digit(decimal(n)[0]),
        n <= u32::MAX ==> scan_digits(decimal(n)) == Ok::<int, IntErrorKind>(n as int),
    decreases n,
{
    lemma_digit_char((n % 10) as int);
    if n >= 10 {
        lemma_scan_decimal(n / 10);
        assert(decimal(n).drop_last() =~= decimal(n / 10));
        assert(decimal(n)[0] == decimal(n / 10)[0]);
    } else {
        assert(decimal(n).drop_last() =~= Seq::<char>::empty());
    }
}

/// Rendering a number in decimal and parsing it back gives the number.
pub proof fn law_parse_decimal_roundtrip(n: u32)
    ensures
        parse_u32_spec(decimal(n as nat)) == Ok::<u32, IntErrorKind>(n),
{
    lemma_scan_decimal(n as nat);
}

/// The empty text is no number; a sign alone is an invalid digit.
pub proof fn law_parse_empty_and_sign()
    ensures
        parse_u32_spec(Seq::<char>::empty()) == Err::<u32, IntErrorKind>(IntErrorKind::Empty),
        parse_u32_spec(seq!['+']) == Err::<u32, IntErrorKind>(IntErrorKind::InvalidDigit),
        parse_u32_spec(seq!['-']) == Err::<u32, IntErrorKind>(IntErrorKind::InvalidDigit),
{
}

/// A single digit reads as its value.
pub proof fn law_parse_single_digit(d: int)
    requires
        0 <= d < 10,
    ensures
        parse_u32_spec(seq![digit_char(d)]) == Ok::<u32, IntErrorKind>(d as u32),
{
    lemma_digit_char(d);
    let s = seq![digit_char(d)];
    assert(s.drop_last() =~= Seq::<char>::empty());
    assert(scan_digits(s.drop_last()) == Ok::<int, IntErrorKind>(0));
    assert(s.last() == digit_char(d));
    assert(scan_digits(s) == Ok::<int, IntErrorKind>(d));
}

/// Appending a digit to a number multiplies it by ten and adds the digit,
/// or overflows where that passes `u32::MAX`; appending anything else is an
/// invalid digit.
pub proof fn law_parse_append(s: Seq<char>, c: char, v: u32)
    requires
        s.len() > 0,
        is_digit(s[0]),
        parse_u32_spec(s) == Ok::<u32, IntErrorKind>(v),
    ensures
        is_digit(c) && v * 10 + digit_value(c) <= u32::MAX ==> parse_u32_spec(s.push(c)) == Ok::<u32, IntErrorKind>(
            (v * 10 + digit_value(c)) as u32,
        ),
        is_digit(c) && v * 10 + digit_value(c) > u32::MAX ==> parse_u32_spec(s.push(c)) == Err::<u32, IntErrorKind>(
            IntErrorKind::PosOverflow,
        ),
        !is_digit(c) ==> parse_u32_spec(s.push(c)) == Err::<u32, IntErrorKind>(IntErrorKind::InvalidDigit),
{
    assert(s.push(c).drop_last() =~= s);
    assert(s.push(c)[0] == s[0]);
    lemma_scan_bounds(s);
}

/// A leading `+` before digits changes nothing.
pub proof fn law_parse_plus(s: Seq<char>)
    requires
        s.len() > 0,
        is_digit(s[0]),
    ensures
        parse_u32_spec(seq!['+'] + s) == parse_u32_spec(s),
{
    assert((seq!['+'] + s).drop_first() =~= s);
}

/// Numbers of one digit render as that digit; larger numbers render as the
/// rendering of their tenth followed by their last digit, so no rendering
/// but that of zero starts with `0`.
pub proof fn law_decimal_digits(n: nat)
    ensures
        n < 10 ==> decimal(n) == seq![digit_char(n as int)],
        n >= 10 ==> decimal(n) == decimal(n / 10).push(digit_char((n % 10) as int)),
        n > 0 ==> decimal(n)[0] != '0',
    decreases n,
{
    if n >= 10 {
        law_decimal_digits(n / 10);
        lemma_scan_decimal(n / 10);
        assert(decimal(n)[0] == decimal(n / 10)[0]);
    }
}

} // verus!
