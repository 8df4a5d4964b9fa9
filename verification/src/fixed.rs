//! Numbers kept to three decimal places, cut off and never rounded.

use crate::numeral::{digit_char, digits_of, magnitude, push_digit, push_digits};
use vstd::prelude::*;
use vstd::string::*;

verus! {

/// Division that cuts the quotient off towards zero, so that the result
/// keeps the sign of what is divided.
pub open spec fn trunc_div(a: int, b: int) -> int
    recommends
        b > 0,
{
    if a >= 0 {
        a / b
    } else {
        -((-a) / b)
    }
}

/// The quotient of two numbers in thousandths, cut off at the third
/// decimal place.
pub open spec fn thousandths_of(numerator: int, denominator: int) -> int
    recommends
        denominator > 0,
{
    trunc_div(numerator * 1000, denominator)
}

/// Cutting off towards zero commutes with changing the sign.
pub proof fn lemma_trunc_div_negates(a: int, b: int)
    requires
        b > 0,
    ensures
        trunc_div(-a, b) == -trunc_div(a, b),
{
    if a == 0 {
        assert(0int / b == 0) by (nonlinear_arith)
            requires
                b > 0,
        ;
    }
}

/// The quotient is negative exactly when what is divided reaches the
/// divisor below zero, positive exactly when it reaches it above zero,
/// and never on the other side of zero from what is divided.
pub proof fn lemma_trunc_div_sign(a: int, b: int)
    requires
        b > 0,
    ensures
        trunc_div(a, b) < 0 <==> a <= -b,
        trunc_div(a, b) > 0 <==> a >= b,
        a <= 0 ==> trunc_div(a, b) <= 0,
        a >= 0 ==> trunc_div(a, b) >= 0,
{
    let size: int = if a >= 0 {
        a
    } else {
        -a
    };
    assert(size / b >= 0 && (size / b > 0 <==> size >= b)) by (nonlinear_arith)
        requires
            size >= 0,
            b > 0,
    ;
}

/// A number with three decimal places, held as a count of thousandths.
#[derive(Clone, Copy, Debug, PartialEq, Eq, Structural)]
pub struct Decimal3 {
    /// The number times one thousand.
    pub thousandths: i64,
}

/// How a count of thousandths is written: sign, whole part, point, three
/// digits.
pub open spec fn decimal3_text(thousandths: int) -> Seq<char> {
    let size: int = vstd::math::abs(thousandths) as int;
    let sign: Seq<char> = if thousandths < 0 {
        seq!['-']
    } else {
        Seq::<char>::empty()
    };
    sign + digits_of((size / 1000) as nat) + seq![
        '.',
        digit_char(size / 100 % 10),
        digit_char(size / 10 % 10),
        digit_char(size % 10),
    ]
}

impl View for Decimal3 {
    type V = int;

    /// The count of thousandths.
    open spec fn view(&self) -> int {
        self.thousandths as int
    }
}

impl Decimal3 {
    /// The number with the given count of thousandths.
    pub fn new(thousandths: i64) -> (number: Decimal3)
        ensures
            number@ == thousandths,
    {
        Decimal3 { thousandths }
    }

    /// The quotient of two numbers, cut off at the third decimal place.
    /// The result has to fit in 64 bits.
    pub(crate) fn quotient(numerator: i128, denominator: i128) -> (number: Decimal3)
        requires
            denominator > 0,
            -0x1_0000_0000_0000_0000_0000_0000 <= numerator <= 0x1_0000_0000_0000_0000_0000_0000,
            i64::MIN <= thousandths_of(numerator as int, denominator as int) <= i64::MAX,
        ensures
            number@ == thousandths_of(numerator as int, denominator as int),
    {
        if numerator >= 0 {
            let scaled: u128 = (numerator as u128) * 1000;
            let cut: u128 = scaled / (denominator as u128);
            Decimal3 { thousandths: cut as i64 }
        } else {
            let scaled: u128 = ((-numerator) as u128) * 1000;
            let cut: u128 = scaled / (denominator as u128);
            Decimal3 { thousandths: (-(cut as i128)) as i64 }
        }
    }

    /// The count of thousandths.
    pub fn thousandths(&self) -> (count: i64)
        ensures
            count == self@,
    {
        self.thousandths
    }

    /// The number written out with exactly three decimal places, such as
    /// `-0.250` or `12.000`.
    pub fn render(&self) -> (text: String)
        ensures
            text@ == decimal3_text(self@),
    {
        let size: u64 = magnitude(self.thousandths);
        let mut text = String::new();
        if self.thousandths < 0 {
            text.append("-");
            proof {
                reveal_strlit("-");
            }
        }
        push_digits(&mut text, size / 1000);
        text.append(".");
        proof {
            reveal_strlit(".");
        }
        push_digit(&mut text, (size / 100 % 10) as u8);
        push_digit(&mut text, (size / 10 % 10) as u8);
        push_digit(&mut text, (size % 10) as u8);
        assert(text@ =~= decimal3_text(self@));
        text
    }
}

} // verus!
