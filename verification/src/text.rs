//! Text building: decimal numbers, and the string functions of the standard
//! library that the query builders need.

use crate::select::is_tight;
use vstd::prelude::*;

verus! {

/// The character of the decimal digit `d`.
pub open spec fn digit(d: nat) -> char {
    if d == 0 {
        '0'
    } else if d == 1 {
        '1'
    } else if d == 2 {
        '2'
    } else if d == 3 {
        '3'
    } else if d == 4 {
        '4'
    } else if d == 5 {
        '5'
    } else if d == 6 {
        '6'
    } else if d == 7 {
        '7'
    } else if d == 8 {
        '8'
    } else {
        '9'
    }
}

/// The decimal numeral of `n`, without leading zeros.
pub open spec fn decimal(n: nat) -> Seq<char>
    decreases n,
{
    if n < 10 {
        seq![digit(n)]
    } else {
        decimal(n / 10).push(digit(n % 10))
    }
}

/// The upper-case form that `str::to_uppercase` gives of `s`.
pub uninterp spec fn uppercased(s: Seq<char>) -> Seq<char>;

/// `String::push`: appends the character.
pub assume_specification[ String::push ](s: &mut String, c: char)
    ensures
        final(s)@ == old(s)@.push(c),
;

/// `str::to_uppercase`: the upper-case form of the text, as a new string.
pub assume_specification[ str::to_uppercase ](s: &str) -> (upper: String)
    ensures
        upper@ == uppercased(s@),
;

/// A decimal numeral is made of digits, so trimming leaves it as it is.
pub proof fn lemma_decimal_tight(n: nat)
    ensures
        is_tight(decimal(n)),
    decreases n,
{
    if n >= 10 {
        lemma_decimal_tight(n / 10);
    }
}

fn digit_char(d: u16) -> (c: char)
    requires
        d < 10,
    ensures
        c == digit(d as nat),
{
    if d == 0 {
        '0'
    } else if d == 1 {
        '1'
    } else if d == 2 {
        '2'
    } else if d == 3 {
        '3'
    } else if d == 4 {
        '4'
    } else if d == 5 {
        '5'
    } else if d == 6 {
        '6'
    } else if d == 7 {
        '7'
    } else if d == 8 {
        '8'
    } else {
        '9'
    }
}

/// Appends the decimal numeral of `n` to `out`.
pub(crate) fn push_decimal(out: &mut String, n: u16)
    ensures
        final(out)@ == old(out)@ + decimal(n as nat),
    decreases n,
{
    if n >= 10 {
        push_decimal(out, n / 10);
    }
    out.push(digit_char(n % 10));
    proof {
        if n >= 10 {
            assert(old(out)@ + decimal(n as nat) =~= (old(out)@ + decimal((n / 10) as nat)).push(
                digit((n % 10) as nat),
            ));
        } else {
        }
    }
}

} // verus!
