//! A small decimal fixed-point scalar.
//!
//! The measurement types (lengths, angles, percentages) carry their magnitude
//! as a whole number of thousandths, so that their canonical text — an integer
//! part, a point, and a fractional part with at least one digit — is a pure
//! function of that integer.

use vstd::prelude::*;

use crate::text::{dec_digits, decimal_digits, digit_char, push_char};

verus! {

/// A signed scalar counted in thousandths.
#[derive(Debug, Clone, Copy, PartialEq, Eq, Structural)]
pub struct Fixed {
    pub thousandths: i64,
}

/// The digits after the decimal point for a fractional part `f` (in
/// thousandths, `f < 1000`): trailing zeros are dropped, but at least one
/// digit always remains.
pub open spec fn frac_digits(f: nat) -> Seq<char>
    recommends
        f < 1000,
{
    if f % 100 == 0 {
        seq![digit_char(f / 100)]
    } else if f % 10 == 0 {
        seq![digit_char(f / 100), digit_char((f / 10) % 10)]
    } else {
        seq![digit_char(f / 100), digit_char((f / 10) % 10), digit_char(f % 10)]
    }
}

/// The canonical text of a fixed-point scalar of `t` thousandths:
/// sign, integer part, `.`, fractional part.
pub open spec fn fixed_text(t: int) -> Seq<char> {
    let a = if t < 0 {
        -t
    } else {
        t
    };
    (if t < 0 {
        seq!['-']
    } else {
        Seq::<char>::empty()
    }) + dec_digits((a / 1000) as nat) + seq!['.'] + frac_digits((a % 1000) as nat)
}

/// The character of one decimal digit.
pub fn digit_to_char(d: u64) -> (c: char)
    requires
        d < 10,
    ensures
        c == digit_char(d as nat),
{
    if d == 0 {
        '0'
    } else if d == 1 {
        '1'
    } else if d == 2 {
        '2'
    } else if d == 3 {
        '3'
    } else if d == 4 {
        '4'
    } else if d == 5 {
        '5'
    } else if d == 6 {
        '6'
    } else if d == 7 {
        '7'
    } else if d == 8 {
        '8'
    } else {
        '9'
    }
}

impl Fixed {
    /// A scalar from a count of thousandths.
    pub fn from_thousandths(t: i64) -> (r: Self)
        ensures
            r.thousandths == t,
    {
        Fixed { thousandths: t }
    }

    /// The zero scalar.
    pub fn zero() -> (r: Self)
        ensures
            r.thousandths == 0,
    {
        Fixed { thousandths: 0 }
    }

    /// The canonical text of this scalar.
    pub fn to_text(&self) -> (r: String)
        ensures
            r@ == fixed_text(self.thousandths as int),
    {
        let mut r = String::new();
        if self.thousandths < 0 {
            push_char(&mut r, '-');
        }
        let a: u64 = if self.thousandths < 0 {
            (-(self.thousandths as i128)) as u64
        } else {
            self.thousandths as u64
        };
        let whole: u64 = a / 1000;
        let frac: u64 = a % 1000;
        let digits = decimal_digits(whole);
        r.append(digits.as_str());
        push_char(&mut r, '.');
        if frac % 100 == 0 {
            push_char(&mut r, digit_to_char(frac / 100));
        } else if frac % 10 == 0 {
            push_char(&mut r, digit_to_char(frac / 100));
            push_char(&mut r, digit_to_char((frac / 10) % 10));
        } else {
            push_char(&mut r, digit_to_char(frac / 100));
            push_char(&mut r, digit_to_char((frac / 10) % 10));
            push_char(&mut r, digit_to_char(frac % 10));
        }
        proof {
            assert(r@ =~= fixed_text(self.thousandths as int));
        }
        r
    }
}

} // verus!
