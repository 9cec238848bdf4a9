//! Natural numbers written in decimal digits.

use vstd::prelude::*;

verus! {

/// `c` is one of the ten ASCII digits.
pub open spec fn is_digit(c: char) -> bool {
    48 <= c as u32 <= 57
}

/// The number that the digit `c` stands for.
pub open spec fn digit_value(c: char) -> nat {
    (c as u32 - 48) as nat
}

/// The digit that stands for `d`, a number below ten.
pub open spec fn digit_char(d: nat) -> char {
    if d == 0 {
        '0'
    } else if d == 1 {
        '1'
    } else if d == 2 {
        '2'
    } else if d == 3 {
        '3'
    } else if d == 4 {
        '4'
    } else if d == 5 {
        '5'
    } else if d == 6 {
        '6'
    } else if d == 7 {
        '7'
    } else if d == 8 {
        '8'
    } else {
        '9'
    }
}

/// Every character of `s` is a digit.
pub open spec fn all_digits(s: Seq<char>) -> bool {
    forall|i: int| 0 <= i < s.len() ==> is_digit(#[trigger] s[i])
}

/// The number that the digits `s` write, leading zeros allowed; the empty
/// sequence writes zero.
pub open spec fn digits_value(s: Seq<char>) -> nat
    decreases s.len(),
{
    if s.len() == 0 {
        0
    } else {
        digits_value(s.drop_last()) * 10 + digit_value(s.last())
    }
}

/// The digits of `n`, without leading zeros; zero is written `0`.
pub open spec fn decimal_digits(n: nat) -> Seq<char>
    decreases n,
{
    if n < 10 {
        seq![digit_char(n)]
    } else {
        decimal_digits(n / 10).push(digit_char(n % 10))
    }
}

/// A digit and its number determine each other.
pub proof fn lemma_digit_char(d: nat)
    requires
        d < 10,
    ensures
        is_digit(digit_char(d)),
        digit_value(digit_char(d)) == d,
        digit_char(d) as u32 == d + 48,
{
}

/// A digit is the digit of the number that it stands for.
pub proof fn lemma_digit_value(c: char)
    requires
        is_digit(c),
    ensures
        digit_value(c) < 10,
        digit_char(digit_value(c)) == c,
{
}

/// The digits of a number are digits, and there is at least one.
pub proof fn lemma_decimal_digits_are_digits(n: nat)
    ensures
        all_digits(decimal_digits(n)),
        decimal_digits(n).len() >= 1,
    decreases n,
{
    if n >= 10 {
        lemma_decimal_digits_are_digits(n / 10);
        lemma_digit_char(n % 10);
    } else {
        lemma_digit_char(n);
    }
}

/// Reading the digits of a number gives the number back.
pub proof fn lemma_value_of_decimal_digits(n: nat)
    ensures
        digits_value(decimal_digits(n)) == n,
    decreases n,
{
    if n < 10 {
        lemma_digit_char(n);
        let s = decimal_digits(n);
        assert(digits_value(s.drop_last()) == 0);
    } else {
        lemma_value_of_decimal_digits(n / 10);
        lemma_digit_char(n % 10);
        let s = decimal_digits(n);
        assert(s.drop_last() =~= decimal_digits(n / 10));
    }
}

/// Leading zeros do not change the number that digits write.
pub proof fn lemma_leading_zeros(s: Seq<char>, k: int)
    requires
        0 <= k <= s.len(),
        forall|i: int| 0 <= i < k ==> s[i] == '0',
    ensures
        digits_value(s) == digits_value(s.subrange(k, s.len() as int)),
    decreases s.len(),
{
    let n = s.len() as int;
    if n > 0 && k == n {
        lemma_leading_zeros(s.drop_last(), k - 1);
    } else if n > 0 {
        lemma_leading_zeros(s.drop_last(), k);
        assert(s.subrange(k, n).drop_last() =~= s.drop_last().subrange(k, n - 1));
    }
}

/// Digits that do not start with a zero are the digits of the number that
/// they write.
pub proof fn lemma_decimal_digits_of_value(s: Seq<char>)
    requires
        all_digits(s),
        s.len() >= 1,
        s[0] != '0',
    ensures
        decimal_digits(digits_value(s)) == s,
        digits_value(s) >= 1,
    decreases s.len(),
{
    lemma_digit_value(s.last());
    if s.len() == 1 {
        assert(digits_value(s.drop_last()) == 0);
    } else {
        lemma_decimal_digits_of_value(s.drop_last());
    }
}

/// The number that the digit `c` stands for.
pub(crate) fn digit_of(c: char) -> (d: u8)
    requires
        is_digit(c),
    ensures
        d == digit_value(c),
        d < 10,
{
    let n: u32 = c as u32;
    (n - 48) as u8
}

/// The digit that stands for `d`.
pub(crate) fn char_of_digit(d: u8) -> (c: char)
    requires
        d < 10,
    ensures
        c == digit_char(d as nat),
{
    if d == 0 {
        '0'
    } else if d == 1 {
        '1'
    } else if d == 2 {
        '2'
    } else if d == 3 {
        '3'
    } else if d == 4 {
        '4'
    } else if d == 5 {
        '5'
    } else if d == 6 {
        '6'
    } else if d == 7 {
        '7'
    } else if d == 8 {
        '8'
    } else {
        '9'
    }
}

/// Whether `c` is a digit.
pub fn char_is_digit(c: char) -> (r: bool)
    ensures
        r == is_digit(c),
{
    let n: u32 = c as u32;
    48 <= n && n <= 57
}

/// Whether every character of `s` is a digit.
pub fn are_digits(s: &Vec<char>) -> (r: bool)
    ensures
        r == all_digits(s@),
{
    let mut i: usize = 0;
    while i < s.len()
        invariant
            i <= s.len(),
            forall|j: int| 0 <= j < i ==> is_digit(#[trigger] s@[j]),
        decreases s.len() - i,
    {
        if !char_is_digit(s[i]) {
            return false;
        }
        i += 1;
    }
    true
}

/// Appends the digits of `n` to `out`.
fn push_decimal(out: &mut Vec<char>, n: u64)
    ensures
        final(out)@ == old(out)@ + decimal_digits(n as nat),
    decreases n,
{
    if n >= 10 {
        push_decimal(out, n / 10);
    }
    out.push(char_of_digit((n % 10) as u8));
}

/// The digits of `n`, without leading zeros.
pub fn decimal_of(n: u64) -> (out: Vec<char>)
    ensures
        out@ == decimal_digits(n as nat),
{
    let mut out: Vec<char> = Vec::new();
    push_decimal(&mut out, n);
    out
}

/// The digits of the number after the one that `digits` write.
pub(crate) fn successor_digits(digits: Vec<char>) -> (out: Vec<char>)
    requires
        all_digits(digits@),
    ensures
        all_digits(out@),
        out@.len() >= 1,
        digits_value(out@) == digits_value(digits@) + 1,
    decreases digits@.len(),
{
    let mut digits = digits;
    match digits.pop() {
        None => {
            digits.push('1');
            assert(digits_value(digits@.drop_last()) == 0);
            digits
        },
        Some(c) => {
            let d: u8 = digit_of(c);
            if d == 9 {
                let mut out = successor_digits(digits);
                let ghost rest = out@;
                out.push('0');
                assert(out@.drop_last() =~= rest);
                out
            } else {
                let ghost rest = digits@;
                let next = char_of_digit(d + 1);
                proof {
                    lemma_digit_char((d + 1) as nat);
                }
                digits.push(next);
                assert(digits@.drop_last() =~= rest);
                digits
            }
        },
    }
}

} // verus!
