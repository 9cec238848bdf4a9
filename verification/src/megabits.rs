//! A rate in bits per second, written in megabits per second with one
//! fractional digit.

use crate::decimal::{
    all_digits, decimal_digits, digit_char, digit_of, digit_value, digits_value, is_digit,
    lemma_decimal_digits_are_digits, lemma_decimal_digits_of_value, lemma_digit_char,
    lemma_digit_value, lemma_leading_zeros, successor_digits,
};
use crate::text::slice_of;
use vstd::prelude::*;

verus! {

/// `bits` in tenths of a million, rounded to the nearest tenth; a rate that
/// lies halfway between two tenths goes to the even one.
pub open spec fn tenths_of_million(bits: nat) -> nat {
    let whole = bits / 100_000;
    let rest = bits % 100_000;
    if rest > 50_000 || (rest == 50_000 && whole % 2 == 1) {
        whole + 1
    } else {
        whole
    }
}

/// `tenths` written as a decimal number with one fractional digit.
pub open spec fn one_decimal(tenths: nat) -> Seq<char> {
    decimal_digits(tenths / 10) + seq!['.', digit_char(tenths % 10)]
}

/// `bits` per second written in megabits per second, with one fractional
/// digit.
pub open spec fn megabits_label(bits: nat) -> Seq<char> {
    one_decimal(tenths_of_million(bits))
}

/// The rate that a label stands for differs from the rate itself by at most
/// half a tenth of a megabit.
pub proof fn lemma_nearest_tenth(bits: nat)
    ensures
        -50_000 <= tenths_of_million(bits) * 100_000 - bits <= 50_000,
{
}

/// A label has exactly one fractional digit: it is a number without leading
/// zeros, a point and one digit.
pub proof fn lemma_one_fractional_digit(bits: nat)
    ensures
        megabits_label(bits).len() >= 3,
        megabits_label(bits)[megabits_label(bits).len() - 2] == '.',
        is_digit(megabits_label(bits).last()),
        megabits_label(bits).take(megabits_label(bits).len() - 2) == decimal_digits(
            tenths_of_million(bits) / 10,
        ),
        all_digits(decimal_digits(tenths_of_million(bits) / 10)),
{
    let tenths = tenths_of_million(bits);
    lemma_decimal_digits_are_digits(tenths / 10);
    lemma_digit_char(tenths % 10);
}

/// The factor that `i` decimal places stand for, up to five places.
spec fn place(i: int) -> int {
    if i <= 0 {
        1
    } else if i == 1 {
        10
    } else if i == 2 {
        100
    } else if i == 3 {
        1_000
    } else if i == 4 {
        10_000
    } else {
        100_000
    }
}

/// The number that `digits` write, as a decimal number with one fractional
/// digit after division by ten.
pub(crate) fn one_decimal_of_digits(digits: Vec<char>) -> (out: Vec<char>)
    requires
        all_digits(digits@),
    ensures
        out@ == one_decimal(digits_value(digits@)),
{
    let mut whole = digits;
    let ghost all = whole@;
    let tenth: char = match whole.pop() {
        Some(c) => c,
        None => '0',
    };
    proof {
        if all.len() > 0 {
            lemma_digit_value(all.last());
        }
    }
    let n: usize = whole.len();
    let mut k: usize = 0;
    while k < n && whole[k] == '0'
        invariant
            k <= n,
            n == whole.len(),
            forall|i: int| 0 <= i < k ==> whole@[i] == '0',
        decreases n - k,
    {
        k += 1;
    }
    proof {
        lemma_leading_zeros(whole@, k as int);
    }
    let mut out: Vec<char> = if k == n {
        vec!['0']
    } else {
        let kept = slice_of(&whole, k, n);
        proof {
            lemma_decimal_digits_of_value(kept@);
        }
        kept
    };
    out.push('.');
    out.push(tenth);
    out
}

/// The rate that `digits` write in bits per second, written in megabits per
/// second with one fractional digit.
pub(crate) fn megabits_of_digits(digits: &Vec<char>) -> (out: Vec<char>)
    requires
        all_digits(digits@),
    ensures
        out@ == megabits_label(digits_value(digits@)),
{
    let mut whole: Vec<char> = slice_of(digits, 0, digits.len());
    assert(whole@ =~= digits@);
    let mut rest: u32 = 0;
    let mut unit: u32 = 1;
    let mut i: usize = 0;
    while i < 5
        invariant
            i <= 5,
            all_digits(whole@),
            unit == place(i as int),
            0 <= rest < unit,
            digits_value(digits@) == digits_value(whole@) * unit + rest,
        decreases 5 - i,
    {
        let d: u32 = match whole.pop() {
            Some(c) => digit_of(c) as u32,
            None => 0,
        };
        proof {
            assert((digits_value(whole@) * 10 + d) * unit == digits_value(whole@) * (unit * 10) + d
                * unit) by (nonlinear_arith);
            assert(d * unit + rest < unit * 10) by (nonlinear_arith)
                requires
                    d <= 9,
                    rest < unit,
            ;
        }
        rest = rest + d * unit;
        unit = unit * 10;
        i += 1;
    }
    let n: usize = whole.len();
    let odd: bool = n > 0 && digit_of(whole[n - 1]) % 2 == 1;
    let tenths: Vec<char> = if rest > 50_000 || (rest == 50_000 && odd) {
        successor_digits(whole)
    } else {
        whole
    };
    one_decimal_of_digits(tenths)
}

} // verus!
