//! Dates as text: `YYYY-MM-DD`, the year in plain decimal, month and day
//! padded to two digits.

use crate::date::{Date, Ymd};
use vstd::prelude::*;
use vstd::string::*;

verus! {

/// The character of the decimal digit `d`.
pub open spec fn digit_char(d: int) -> char {
    if d == 0 {
        '0'
    } else if d == 1 {
        '1'
    } else if d == 2 {
        '2'
    } else if d == 3 {
        '3'
    } else if d == 4 {
        '4'
    } else if d == 5 {
        '5'
    } else if d == 6 {
        '6'
    } else if d == 7 {
        '7'
    } else if d == 8 {
        '8'
    } else {
        '9'
    }
}

/// The decimal digits of `n`, most significant first, without padding.
pub open spec fn decimal(n: nat) -> Seq<char>
    decreases n,
{
    if n < 10 {
        seq![digit_char(n as int)]
    } else {
        decimal(n / 10).push(digit_char((n % 10) as int))
    }
}

/// The decimal digits of `n`, after a minus sign where `n` is negative.
pub open spec fn signed_decimal(n: int) -> Seq<char> {
    if n < 0 {
        seq!['-'] + decimal((-n) as nat)
    } else {
        decimal(n as nat)
    }
}

/// The two decimal digits of a number below 100.
pub open spec fn two_digits(n: int) -> Seq<char> {
    seq![digit_char(n / 10), digit_char(n % 10)]
}

/// The text of a date: year, month and day, with `-` between them.
pub open spec fn date_text(date: Ymd) -> Seq<char> {
    signed_decimal(date.year) + seq!['-'] + two_digits(date.month) + seq!['-'] + two_digits(
        date.day,
    )
}

/// The digit `d` as a string of one character.
fn digit_str(d: u32) -> (s: &'static str)
    requires
        d < 10,
    ensures
        s@ == seq![digit_char(d as int)],
{
    proof {
        reveal_strlit("0");
        reveal_strlit("1");
        reveal_strlit("2");
        reveal_strlit("3");
        reveal_strlit("4");
        reveal_strlit("5");
        reveal_strlit("6");
        reveal_strlit("7");
        reveal_strlit("8");
        reveal_strlit("9");
    }
    if d == 0 {
        "0"
    } else if d == 1 {
        "1"
    } else if d == 2 {
        "2"
    } else if d == 3 {
        "3"
    } else if d == 4 {
        "4"
    } else if d == 5 {
        "5"
    } else if d == 6 {
        "6"
    } else if d == 7 {
        "7"
    } else if d == 8 {
        "8"
    } else {
        "9"
    }
}

/// Appends `n` in decimal.
fn push_decimal(text: &mut String, n: u32)
    ensures
        final(text)@ == old(text)@ + decimal(n as nat),
    decreases n,
{
    if n >= 10 {
        push_decimal(text, n / 10);
    }
    text.append(digit_str(n % 10));
}

/// Appends `n` as two decimal digits.
fn push_two_digits(text: &mut String, n: u32)
    requires
        n < 100,
    ensures
        final(text)@ == old(text)@ + two_digits(n as int),
{
    text.append(digit_str(n / 10));
    text.append(digit_str(n % 10));
}

/// Appends a `-`.
fn push_dash(text: &mut String)
    ensures
        final(text)@ == old(text)@ + seq!['-'],
{
    proof {
        reveal_strlit("-");
    }
    text.append("-");
}

impl Date {
    /// This date as `YYYY-MM-DD`.
    pub fn to_text(&self) -> (text: String)
        ensures
            text@ == date_text(self@),
    {
        let mut text = String::new();
        let year: i32 = self.year();
        if year < 0 {
            push_dash(&mut text);
            push_decimal(&mut text, (0 - year) as u32);
        } else {
            push_decimal(&mut text, year as u32);
        }
        push_dash(&mut text);
        push_two_digits(&mut text, self.month());
        push_dash(&mut text);
        push_two_digits(&mut text, self.day());
        text
    }
}

} // verus!
