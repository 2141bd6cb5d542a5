//! Port numbers written as decimal text.
//!
//! A port is accepted in the form `["+"] digit+` with a value of at most
//! 65535: an optional plus sign, then one or more ASCII digits, with any
//! number of leading zeros. Nothing else may surround the digits.

use vstd::prelude::*;

verus! {

/// Whether `c` is one of the ASCII digits `0` to `9`.
pub open spec fn is_digit(c: char) -> bool {
    '0' <= c && c <= '9'
}

/// The number a digit stands for.
pub open spec fn digit_value(c: char) -> nat
    recommends
        is_digit(c),
{
    (c as int - '0' as int) as nat
}

/// Whether every element of `s` is an ASCII digit.
pub open spec fn all_digits(s: Seq<char>) -> bool {
    forall|i: int| 0 <= i < s.len() ==> is_digit(#[trigger] s[i])
}

/// The number that a sequence of digits denotes in base ten, most significant
/// digit first. The empty sequence denotes zero.
pub open spec fn decimal_value(digits: Seq<char>) -> nat
    decreases digits.len(),
{
    if digits.len() == 0 {
        0
    } else {
        10 * decimal_value(digits.drop_last()) + digit_value(digits.last())
    }
}

/// `text` without its leading plus sign, if it has one.
pub open spec fn without_sign(text: Seq<char>) -> Seq<char> {
    if text.len() > 0 && text[0] == '+' {
        text.drop_first()
    } else {
        text
    }
}

/// The port that `text` denotes, if it denotes one.
pub open spec fn port_value(text: Seq<char>) -> Option<u16> {
    let digits = without_sign(text);
    if digits.len() > 0 && all_digits(digits) && decimal_value(digits) <= u16::MAX {
        Some(decimal_value(digits) as u16)
    } else {
        None
    }
}

/// A longer run of digits never denotes a smaller number than its prefix.
pub proof fn lemma_decimal_value_prefix(digits: Seq<char>, k: int)
    requires
        0 <= k <= digits.len(),
    ensures
        decimal_value(digits.take(k)) <= decimal_value(digits),
    decreases digits.len(),
{
    if k == digits.len() {
        assert(digits.take(k) =~= digits);
    } else {
        lemma_decimal_value_prefix(digits.drop_last(), k);
        assert(digits.drop_last().take(k) =~= digits.take(k));
    }
}

/// The character that stands for the digit `d`.
pub open spec fn digit_char(d: nat) -> char
    recommends
        d < 10,
{
    ('0' as nat + d) as char
}

/// `n` written in base ten without sign or leading zeros.
pub open spec fn decimal_digits(n: nat) -> Seq<char>
    decreases n,
{
    if n < 10 {
        seq![digit_char(n)]
    } else {
        decimal_digits(n / 10).push(digit_char(n % 10))
    }
}

/// Writing a number down and reading it back gives the number.
pub proof fn lemma_decimal_digits_value(n: nat)
    ensures
        decimal_digits(n).len() > 0,
        all_digits(decimal_digits(n)),
        decimal_value(decimal_digits(n)) == n,
    decreases n,
{
    let digits = decimal_digits(n);
    if n < 10 {
        assert(digits.drop_last() =~= Seq::<char>::empty());
        assert(digits.last() == digit_char(n));
        assert(decimal_value(digits) == 10 * decimal_value(digits.drop_last()) + digit_value(
            digits.last(),
        ));
    } else {
        let head = decimal_digits(n / 10);
        lemma_decimal_digits_value(n / 10);
        assert(digits.drop_last() =~= head);
        assert(digits.last() == digit_char(n % 10));
        assert forall|i: int| 0 <= i < digits.len() implies is_digit(#[trigger] digits[i]) by {
            if i < head.len() {
                assert(digits[i] == head[i]);
            }
        }
    }
}

/// Every port, written in base ten, reads back as itself.
pub proof fn lemma_port_round_trip(port: u16)
    ensures
        port_value(decimal_digits(port as nat)) == Some(port),
{
    let digits = decimal_digits(port as nat);
    lemma_decimal_digits_value(port as nat);
    assert(is_digit(digits[0]));
    assert(without_sign(digits) == digits);
}

/// Reads `text` as a port number.
pub fn parse_port(text: &str) -> (port: Option<u16>)
    ensures
        port == port_value(text@),
{
    let mut value: u32 = 0;
    let mut seen_digit: bool = false;
    let mut signed: bool = false;
    let ghost mut start: int = 0;
    for c in it: text.chars()
        invariant
            it.seq() == text@,
            start == (if signed { 1int } else { 0int }),
            start <= it.index(),
            signed ==> text@.len() > 0 && text@[0] == '+',
            !signed && it.index() > 0 ==> text@[0] != '+',
            seen_digit <==> it.index() > start,
            all_digits(text@.subrange(start, it.index())),
            value == decimal_value(text@.subrange(start, it.index())),
            value <= u16::MAX,
    {
        let ghost i = it.index();
        let ghost digits = without_sign(text@);
        assert(c == text@[i]);
        if c == '+' && !signed && !seen_digit {
            signed = true;
            proof {
                start = 1;
                assert(text@.subrange(1, 1) =~= Seq::<char>::empty());
            }
        } else if '0' <= c && c <= '9' {
            let d: u32 = c as u32 - '0' as u32;
            value = value * 10 + d;
            seen_digit = true;
            proof {
                let longer = text@.subrange(start, i + 1);
                assert(longer.drop_last() =~= text@.subrange(start, i));
                assert(longer.last() == c);
                assert(longer =~= digits.take(i + 1 - start));
                lemma_decimal_value_prefix(digits, i + 1 - start);
            }
            if value > 65535 {
                return None;
            }
        } else {
            assert(digits[i - start] == c);
            assert(!is_digit(c));
            return None;
        }
    }
    proof {
        assert(text@.subrange(start, text@.len() as int) =~= without_sign(text@));
    }
    if seen_digit {
        Some(value as u16)
    } else {
        None
    }
}

} // verus!
