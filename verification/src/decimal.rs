//! Decimal notation for unsigned integers: the digits of a number, and the
//! number that a string of digits denotes.

use vstd::prelude::*;

verus! {

/// The character that stands for the digit `d`, for `d` below ten.
pub open spec fn digit_char(d: nat) -> char {
    seq!['0', '1', '2', '3', '4', '5', '6', '7', '8', '9'][d as int]
}

/// The decimal notation of `n`: no sign, no leading zeros, `"0"` for zero.
pub open spec fn decimal(n: nat) -> Seq<char>
    decreases n,
{
    if n < 10 {
        seq![digit_char(n)]
    } else {
        decimal(n / 10).push(digit_char(n % 10))
    }
}

/// Whether `c` is one of the ten ASCII digits.
pub open spec fn is_digit(c: char) -> bool {
    '0' <= c <= '9'
}

/// The number that the digit `c` stands for.
pub open spec fn digit_value(c: char) -> nat {
    if is_digit(c) {
        (c as int - '0' as int) as nat
    } else {
        0
    }
}

/// Whether every character of `s` is an ASCII digit.
pub open spec fn all_digits(s: Seq<char>) -> bool {
    forall|i: int| 0 <= i < s.len() ==> is_digit(#[trigger] s[i])
}

/// The number that a string of digits denotes, most significant digit first.
pub open spec fn digits_value(s: Seq<char>) -> nat
    decreases s.len(),
{
    if s.len() == 0 {
        0
    } else {
        10 * digits_value(s.drop_last()) + digit_value(s.last())
    }
}

/// `s` without its leading plus sign, if it has one.
pub open spec fn without_sign(s: Seq<char>) -> Seq<char> {
    if s.len() > 0 && s[0] == '+' {
        s.drop_first()
    } else {
        s
    }
}

/// The number that `s` denotes, if `s` is an optional plus sign followed by
/// one or more ASCII digits whose value is at most `max`. Leading zeros are
/// accepted; whitespace, a minus sign and an empty digit string are not.
pub open spec fn parse_decimal(s: Seq<char>, max: nat) -> Option<nat> {
    let digits = without_sign(s);
    if digits.len() > 0 && all_digits(digits) && digits_value(digits) <= max {
        Some(digits_value(digits))
    } else {
        None
    }
}

/// A prefix of a digit string denotes no more than the whole string.
pub proof fn lemma_digits_value_prefix(s: Seq<char>, k: int)
    requires
        0 <= k <= s.len(),
    ensures
        digits_value(s.subrange(0, k)) <= digits_value(s),
    decreases s.len(),
{
    if k == s.len() {
        assert(s.subrange(0, k) =~= s);
    } else {
        lemma_digits_value_prefix(s.drop_last(), k);
        assert(s.drop_last().subrange(0, k) =~= s.subrange(0, k));
    }
}

/// The notation of a number consists of digits and denotes that number.
pub proof fn lemma_decimal_digits(n: nat)
    ensures
        decimal(n).len() > 0,
        all_digits(decimal(n)),
        digits_value(decimal(n)) == n,
    decreases n,
{
    if n < 10 {
        assert(decimal(n).drop_last() =~= Seq::<char>::empty());
        assert(digits_value(decimal(n).drop_last()) == 0);
    } else {
        lemma_decimal_digits(n / 10);
        assert(decimal(n).drop_last() =~= decimal(n / 10));
    }
}

/// Reading back the notation of a number gives the number, as long as it is
/// within the bound.
pub proof fn lemma_parse_decimal_of_decimal(n: nat, max: nat)
    requires
        n <= max,
    ensures
        parse_decimal(decimal(n), max) == Some(n),
{
    lemma_decimal_digits(n);
    assert(is_digit(decimal(n)[0]));
}

/// The one-character string of a digit.
fn digit_str(d: u8) -> (s: &'static str)
    requires
        d < 10,
    ensures
        s@ == seq![digit_char(d as nat)],
{
    proof {
        reveal_strlit("0");
        reveal_strlit("1");
        reveal_strlit("2");
        reveal_strlit("3");
        reveal_strlit("4");
        reveal_strlit("5");
        reveal_strlit("6");
        reveal_strlit("7");
        reveal_strlit("8");
        reveal_strlit("9");
    }
    let s = match d {
        0 => "0",
        1 => "1",
        2 => "2",
        3 => "3",
        4 => "4",
        5 => "5",
        6 => "6",
        7 => "7",
        8 => "8",
        _ => "9",
    };
    assert(s@ =~= seq![digit_char(d as nat)]);
    s
}

/// Appends the decimal notation of `n` to `out`.
pub fn push_decimal(out: &mut String, n: u16)
    ensures
        final(out)@ == old(out)@ + decimal(n as nat),
    decreases n,
{
    if n >= 10 {
        push_decimal(out, n / 10);
    }
    let d: u8 = (n % 10) as u8;
    out.append(digit_str(d));
    assert(out@ =~= old(out)@ + decimal(n as nat));
}

/// Reads a decimal number of at most `max` from the whole of `s`.
fn parse_bounded(s: &str, max: u16) -> (r: Option<u16>)
    ensures
        match r {
            Some(v) => parse_decimal(s@, max as nat) == Some(v as nat),
            None => parse_decimal(s@, max as nat) is None,
        },
{
    let ghost digits = without_sign(s@);
    let ghost skip = s@.len() - digits.len();
    let mut value: u32 = 0;
    let mut at_start = true;
    let mut any_digit = false;
    for c in it: s.chars()
        invariant
            it.seq() == s@,
            digits == without_sign(s@),
            skip == s@.len() - digits.len(),
            at_start <==> it.index() == 0,
            !at_start ==> it.index() >= skip,
            any_digit <==> it.index() > skip,
            any_digit ==> all_digits(digits.subrange(0, it.index() - skip)),
            any_digit ==> value == digits_value(digits.subrange(0, it.index() - skip)),
            !any_digit ==> value == 0,
            value <= max,
    {
        let sign = at_start && c == '+';
        at_start = false;
        if !sign {
            let ghost k = it.index() - skip;
            assert(c == digits[k]);
            if !('0' <= c && c <= '9') {
                return None;
            }
            let d: u32 = c as u32 - 48;
            let next: u32 = value * 10 + d;
            proof {
                let before = digits.subrange(0, k);
                let after = digits.subrange(0, k + 1);
                assert(after.drop_last() =~= before);
                assert(digits_value(after) == 10 * digits_value(before) + digit_value(c));
                lemma_digits_value_prefix(digits, k + 1);
            }
            if next > max as u32 {
                return None;
            }
            value = next;
            any_digit = true;
        }
    }
    if any_digit {
        assert(digits.subrange(0, digits.len() as int) =~= digits);
        Some(value as u16)
    } else {
        None
    }
}

/// Reads an 8-bit unsigned number from `s`: an optional plus sign, then
/// ASCII digits only, with a value that fits.
pub fn parse_u8(s: &str) -> (r: Option<u8>)
    ensures
        match r {
            Some(v) => parse_decimal(s@, u8::MAX as nat) == Some(v as nat),
            None => parse_decimal(s@, u8::MAX as nat) is None,
        },
{
    match parse_bounded(s, 255) {
        Some(v) => Some(v as u8),
        None => None,
    }
}

/// Reads a 16-bit unsigned number from `s`: an optional plus sign, then
/// ASCII digits only, with a value that fits.
pub fn parse_u16(s: &str) -> (r: Option<u16>)
    ensures
        match r {
            Some(v) => parse_decimal(s@, u16::MAX as nat) == Some(v as nat),
            None => parse_decimal(s@, u16::MAX as nat) is None,
        },
{
    parse_bounded(s, 65535)
}

} // verus!
